//! The registry that owns every active player, keeps a per-id "latest frame"
//! cache, and merges the players' background channels into one stream of
//! messages for the host.

use vstd::prelude::*;

use crate::builder::PlayerBuilder;
use crate::channel::try_recv_message;
use crate::error::PlayerError;
use crate::message::{Frame, PlayerMessage};
use crate::pipeline::SourceProbe;
use crate::player::Player;

verus! {

/// Everything the registry keeps for one player: the player itself, the most
/// recent decoded frame (none until one arrives), and the receiving half of
/// the player's background channel.
pub struct PlayerEntry {
    /// The id the player was registered under.
    pub id: String,
    /// The player owned by this entry.
    pub player: Player,
    /// The most recently cached decoded frame; overwritten on every frame
    /// message, never merged.
    pub frame: Option<Frame>,
    /// The receiving half of the player's background channel.
    pub receiver: tokio::sync::mpsc::UnboundedReceiver<PlayerMessage>,
}

/// The index of the first entry registered under `id`, or -1 when no entry
/// is.
pub open spec fn spec_idx_of(entries: Seq<PlayerEntry>, id: Seq<char>) -> int
    decreases entries.len(),
{
    if entries.len() == 0 {
        -1
    } else if entries[0].id@ == id {
        0
    } else {
        let rest = spec_idx_of(entries.drop_first(), id);
        if rest < 0 {
            -1
        } else {
            rest + 1
        }
    }
}

/// What `spec_idx_of` finds: either -1 and no entry carries the id, or the
/// first index that does.
pub proof fn lemma_idx_of(entries: Seq<PlayerEntry>, id: Seq<char>)
    ensures
        spec_idx_of(entries, id) == -1 || (0 <= spec_idx_of(entries, id) < entries.len()),
        spec_idx_of(entries, id) >= 0 ==> entries[spec_idx_of(entries, id)].id@ == id,
        forall|j: int|
            0 <= j < entries.len() && entries[j].id@ == id ==> 0 <= spec_idx_of(entries, id) <= j,
    decreases entries.len(),
{
    if entries.len() > 0 && entries[0].id@ != id {
        lemma_idx_of(entries.drop_first(), id);
        assert(forall|j: int|
            0 <= j < entries.len() && entries[j].id@ == id ==> entries.drop_first()[j - 1].id@
                == id);
    }
}

/// Two registries whose entries carry the same ids index identically.
pub proof fn lemma_idx_of_same_ids(a: Seq<PlayerEntry>, b: Seq<PlayerEntry>, id: Seq<char>)
    requires
        a.len() == b.len(),
        forall|j: int| 0 <= j < a.len() ==> a[j].id@ == b[j].id@,
    ensures
        spec_idx_of(a, id) == spec_idx_of(b, id),
    decreases a.len(),
{
    if a.len() > 0 {
        assert(forall|j: int|
            0 <= j < a.drop_first().len() ==> a.drop_first()[j].id@ == b.drop_first()[j].id@);
        lemma_idx_of_same_ids(a.drop_first(), b.drop_first(), id);
    }
}

/// The frame the registry would hand out for `id`: the cached frame of its
/// entry, or nothing when the id is unknown or no frame has arrived yet.
pub open spec fn spec_get_frame(entries: Seq<PlayerEntry>, id: Seq<char>) -> Option<Frame> {
    let i = spec_idx_of(entries, id);
    if i >= 0 {
        entries[i].frame
    } else {
        None
    }
}

/// What draining one message does to the registry: a frame message
/// overwrites the cached frame of the entry it is tagged for (and is dropped
/// when the id is unknown); every other message is reserved for future
/// dispatch and changes nothing.
pub open spec fn spec_handle_event(entries: Seq<PlayerEntry>, message: PlayerMessage) -> Seq<
    PlayerEntry,
> {
    match message {
        PlayerMessage::Frame(id, frame) => {
            let i = spec_idx_of(entries, id@);
            if i >= 0 {
                entries.update(i, PlayerEntry { frame: Some(frame), ..entries[i] })
            } else {
                entries
            }
        },
        _ => entries,
    }
}

/// A fresh registry entry for `builder.id`: its player is newly constructed
/// and no frame has been cached yet.
pub open spec fn spec_entry_fresh(
    entry: PlayerEntry,
    builder: PlayerBuilder,
    probe: SourceProbe,
) -> bool {
    &&& entry.id@ == builder.id@
    &&& entry.frame is None
    &&& entry.player == Player::spec_new_player(builder, probe, entry.player.sender)
}

/// The registry of active players, keyed by id.  Entries are created by
/// `start_player` and live until replaced; each id occurs at most once.
pub struct PlayerHandler {
    /// The registered entries, in registration order.
    pub players: Vec<PlayerEntry>,
}

impl PlayerHandler {
    /// Each id is registered at most once.
    pub open spec fn wf(self) -> bool {
        forall|i: int, j: int|
            0 <= i < j < self.players@.len() ==> self.players@[i].id@ != self.players@[j].id@
    }

    /// An empty registry.
    pub fn new() -> (r: Self)
        ensures
            r.players@.len() == 0,
            r.wf(),
    {
        PlayerHandler { players: Vec::new() }
    }

    /// The index of the entry registered under `id`, if any.
    fn find_index(&self, id: &String) -> (r: Option<usize>)
        ensures
            match r {
                Some(i) => (i as int) < self.players@.len() && spec_idx_of(self.players@, id@)
                    == i as int,
                None => spec_idx_of(self.players@, id@) == -1,
            },
    {
        let ghost entries = self.players@;
        let mut i: usize = 0;
        while i < self.players.len()
            invariant
                entries == self.players@,
                i <= self.players@.len(),
                forall|j: int| 0 <= j < i ==> self.players@[j].id@ != id@,
            decreases self.players@.len() - i,
        {
            if self.players[i].id == *id {
                proof {
                    lemma_idx_of(entries, id@);
                }
                return Some(i);
            }
            i += 1;
        }
        proof {
            lemma_idx_of(entries, id@);
        }
        None
    }

    /// Construct a player from `builder` and register it under `builder.id`.
    /// A player already registered under that id is replaced and dropped —
    /// last wins.  When construction fails (the initial source cannot be
    /// set) the registry is left unchanged and the error is passed on.
    pub fn start_player(&mut self, builder: PlayerBuilder, probe: SourceProbe) -> (r: Result<
        (),
        PlayerError,
    >)
        ensures
            r is Ok <==> Player::spec_new_succeeds(builder, probe),
            r matches Err(e) ==> *final(self) == *old(self) && Err::<(), PlayerError>(e)
                == Player::spec_set_source_result(probe),
            r is Ok ==> ({
                let i = spec_idx_of(old(self).players@, builder.id@);
                &&& i >= 0 ==> {
                    &&& final(self).players@.len() == old(self).players@.len()
                    &&& spec_entry_fresh(final(self).players@[i], builder, probe)
                    &&& forall|j: int|
                        0 <= j < old(self).players@.len() && j != i ==> final(self).players@[j]
                            == old(self).players@[j]
                }
                &&& i == -1 ==> {
                    &&& final(self).players@.len() == old(self).players@.len() + 1
                    &&& spec_entry_fresh(final(self).players@.last(), builder, probe)
                    &&& final(self).players@.subrange(0, old(self).players@.len() as int) == old(
                        self,
                    ).players@
                }
            }),
            old(self).wf() ==> final(self).wf(),
    {
        let ghost before = self.players@;
        let ghost gbuilder = builder;
        let id = builder.id.clone();
        let slot = self.find_index(&id);
        match Player::create(builder, probe) {
            Ok((player, receiver)) => {
                let entry = PlayerEntry { id, player, frame: None, receiver };
                let ghost gentry = entry;
                proof {
                    lemma_idx_of(before, gbuilder.id@);
                }
                match slot {
                    Some(i) => {
                        {
                            let target = &mut self.players[i];
                            *target = entry;
                        }
                        proof {
                            assert(self.players@ =~= before.update(i as int, gentry));
                            if old(self).wf() {
                                assert forall|x: int, y: int|
                                    0 <= x < y < self.players@.len() implies self.players@[x].id@
                                    != self.players@[y].id@ by {
                                    assert(before[x].id@ != before[y].id@);
                                    assert(before[i as int].id@ == gbuilder.id@);
                                }
                            }
                        }
                        Ok(())
                    },
                    None => {
                        self.players.push(entry);
                        proof {
                            assert(self.players@.subrange(0, before.len() as int) =~= before);
                            if old(self).wf() {
                                assert forall|x: int, y: int|
                                    0 <= x < y < self.players@.len() implies self.players@[x].id@
                                    != self.players@[y].id@ by {
                                    if y < before.len() {
                                        assert(before[x].id@ != before[y].id@);
                                    } else {
                                        assert(self.players@[x] == before[x]);
                                    }
                                }
                            }
                        }
                        Ok(())
                    },
                }
            },
            Err(e) => Err(e),
        }
    }

    /// Route one drained message: a frame message overwrites the cached
    /// frame for its id; the other variants are reserved for future dispatch.
    pub fn handle_event(&mut self, message: PlayerMessage)
        ensures
            final(self).players@ == spec_handle_event(old(self).players@, message),
    {
        let ghost before = self.players@;
        let ghost gmessage = message;
        match message {
            PlayerMessage::Frame(id, frame) => {
                match self.find_index(&id) {
                    Some(i) => {
                        {
                            let entry = &mut self.players[i];
                            entry.frame = Some(frame);
                        }
                        proof {
                            assert(self.players@ =~= spec_handle_event(before, gmessage));
                        }
                    },
                    None => {},
                }
            },
            PlayerMessage::StateChanged(_, _) => {},
            PlayerMessage::Error(_, _) => {},
        }
    }

    /// Look the player for `id` up.  Absence is an ordinary "not ready yet",
    /// never an error.
    pub fn get_player(&self, id: &String) -> (r: Option<&Player>)
        ensures
            match r {
                Some(p) => spec_idx_of(self.players@, id@) >= 0 && *p == self.players@[spec_idx_of(
                    self.players@,
                    id@,
                )].player,
                None => spec_idx_of(self.players@, id@) == -1,
            },
    {
        match self.find_index(id) {
            Some(i) => Some(&self.players[i].player),
            None => None,
        }
    }

    /// Look the player for `id` up for mutation, e.g. to route a control
    /// event at it.
    pub fn get_player_mut(&mut self, id: &String) -> (r: Option<&mut Player>)
        ensures
            match r {
                Some(p) => ({
                    let i = spec_idx_of(old(self).players@, id@);
                    &&& i >= 0
                    &&& *p == old(self).players@[i].player
                    &&& final(self).players@ == old(self).players@.update(
                        i,
                        (PlayerEntry { player: *final(p), ..old(self).players@[i] }),
                    )
                }),
                None => spec_idx_of(old(self).players@, id@) == -1 && *final(self) == *old(self),
            },
    {
        match self.find_index(id) {
            Some(i) => Some(&mut self.players[i].player),
            None => None,
        }
    }

    /// Poll one entry's channel without blocking.  Only the receiver is
    /// touched; the entry's id, player and cached frame stay as they were.
    fn poll_entry(entry: &mut PlayerEntry) -> (r: Option<PlayerMessage>)
        ensures
            final(entry).id == old(entry).id,
            final(entry).player == old(entry).player,
            final(entry).frame == old(entry).frame,
    {
        try_recv_message(&mut entry.receiver)
    }

    /// The merged stream of every registered player's channel: hand out the
    /// next pending message, scanning the entries in registration order.
    /// Each message is already tagged with its originating id, so the host
    /// can route it back through `handle_event`.  Nothing pending anywhere
    /// gives `None`; only the channels are touched, never the players or the
    /// frame cache.
    pub fn next_message(&mut self) -> (r: Option<PlayerMessage>)
        ensures
            final(self).players@.len() == old(self).players@.len(),
            forall|j: int|
                0 <= j < old(self).players@.len() ==> {
                    &&& final(self).players@[j].id == old(self).players@[j].id
                    &&& final(self).players@[j].player == old(self).players@[j].player
                    &&& final(self).players@[j].frame == old(self).players@[j].frame
                },
    {
        let mut i: usize = 0;
        while i < self.players.len()
            invariant
                i <= self.players@.len(),
                self.players@.len() == old(self).players@.len(),
                forall|j: int|
                    0 <= j < old(self).players@.len() ==> {
                        &&& self.players@[j].id == old(self).players@[j].id
                        &&& self.players@[j].player == old(self).players@[j].player
                        &&& self.players@[j].frame == old(self).players@[j].frame
                    },
            decreases self.players@.len() - i,
        {
            let message = Self::poll_entry(&mut self.players[i]);
            if let Some(m) = message {
                return Some(m);
            }
            i += 1;
        }
        None
    }

    /// The most recently cached decoded frame for `id`, or nothing while no
    /// frame message for that id has been processed yet.
    pub fn get_frame(&self, id: &String) -> (r: Option<&Frame>)
        ensures
            match r {
                Some(f) => spec_get_frame(self.players@, id@) == Some(*f),
                None => spec_get_frame(self.players@, id@) is None,
            },
    {
        match self.find_index(id) {
            Some(i) => {
                match &self.players[i].frame {
                    Some(f) => Some(f),
                    None => None,
                }
            },
            None => None,
        }
    }
}

impl Default for PlayerHandler {
    /// An empty registry.
    fn default() -> (r: Self)
        ensures
            r.players@.len() == 0,
            r.wf(),
    {
        PlayerHandler::new()
    }
}

/// Law: the cached frame is last-write-wins.  Draining two frame messages
/// for the same id, one after the other, leaves exactly the second one in
/// the cache (and a frame for an unknown id is never cached).
pub proof fn lemma_frame_last_write_wins(
    entries: Seq<PlayerEntry>,
    id: String,
    first: Frame,
    second: Frame,
)
    ensures
        ({
            let once = spec_handle_event(entries, PlayerMessage::Frame(id, first));
            let twice = spec_handle_event(once, PlayerMessage::Frame(id, second));
            spec_get_frame(twice, id@) == if spec_idx_of(entries, id@) >= 0 {
                Some(second)
            } else {
                None::<Frame>
            }
        }),
{
    let i = spec_idx_of(entries, id@);
    lemma_idx_of(entries, id@);
    if i >= 0 {
        let once = spec_handle_event(entries, PlayerMessage::Frame(id, first));
        lemma_idx_of_same_ids(entries, once, id@);
        let twice = spec_handle_event(once, PlayerMessage::Frame(id, second));
        lemma_idx_of_same_ids(once, twice, id@);
    }
}

/// Law: only a frame message tagged with `id` can make `get_frame(id)`
/// answer; any other message leaves an empty cache slot empty.
pub proof fn lemma_no_frame_before_delivery(
    entries: Seq<PlayerEntry>,
    message: PlayerMessage,
    id: Seq<char>,
)
    requires
        spec_get_frame(entries, id) is None,
        !(message matches PlayerMessage::Frame(mid, _) && mid@ == id),
    ensures
        spec_get_frame(spec_handle_event(entries, message), id) is None,
{
    lemma_idx_of(entries, id);
    match message {
        PlayerMessage::Frame(mid, frame) => {
            let j = spec_idx_of(entries, mid@);
            lemma_idx_of(entries, mid@);
            if j >= 0 {
                let after = spec_handle_event(entries, PlayerMessage::Frame(mid, frame));
                lemma_idx_of_same_ids(entries, after, id);
            }
        },
        _ => {},
    }
}

} // verus!
