//! The UI-facing control surface and its two-phase seek protocol.
//!
//! A scrub sends a stream of `Seek` proposals while the thumb is dragged;
//! none of them may reach the pipeline.  Only `Released` commits the pending
//! proposal, so one flushing seek is issued per drag instead of one per tick.

use vstd::prelude::*;

use crate::error::PlayerError;
use crate::pipeline::{Pipeline, PipelineState};
use crate::player::Player;

verus! {

/// Nanoseconds in one second.
pub const SECOND_NS: u64 = 1_000_000_000;

/// An input from the host UI's transport controls.
#[derive(Clone, Copy, Debug, PartialEq, Eq, Structural)]
pub enum ControlEvent {
    /// Start playback.
    Play,
    /// Pause playback.
    Pause,
    /// Flip the mute state.
    ToggleMute,
    /// Set the volume, in thousandths of full scale.
    Volume(u32),
    /// Propose a scrub position, in seconds.  Not applied until `Released`.
    Seek(u64),
    /// Commit the pending scrub proposal.
    Released,
}

/// Seconds as nanoseconds, saturating at the largest representable value.
pub open spec fn spec_seconds_to_ns(seconds: u64) -> u64 {
    if seconds * SECOND_NS > u64::MAX {
        u64::MAX
    } else {
        (seconds * SECOND_NS) as u64
    }
}

/// Convert a second count to nanoseconds, saturating on overflow.
pub fn seconds_to_ns(seconds: u64) -> (r: u64)
    ensures
        r == spec_seconds_to_ns(seconds),
{
    match seconds.checked_mul(SECOND_NS) {
        Some(ns) => ns,
        None => u64::MAX,
    }
}

/// What one control event does: the player afterwards, the pending scrub
/// proposal afterwards, and the result handed back.  Only `Released` can
/// fail, and only the way the underlying seek can; a `Released` with nothing
/// pending commits nothing.
pub open spec fn spec_apply_control(
    p: Player,
    pending: Option<u64>,
    event: ControlEvent,
) -> (Player, Option<u64>, Result<(), PlayerError>) {
    match event {
        ControlEvent::Play => (Player::spec_set_state(p, PipelineState::Playing), pending, Ok(())),
        ControlEvent::Pause => (Player::spec_set_state(p, PipelineState::Paused), pending, Ok(())),
        ControlEvent::ToggleMute => (
            Player { pipeline: Pipeline { muted: !p.pipeline.muted, ..p.pipeline }, ..p },
            pending,
            Ok(()),
        ),
        ControlEvent::Volume(v) => (
            Player { pipeline: Pipeline { volume_milli: v, ..p.pipeline }, ..p },
            pending,
            Ok(()),
        ),
        ControlEvent::Seek(s) => (p, Some(s), Ok(())),
        ControlEvent::Released => match pending {
            Some(s) => if p.pipeline.uri is Some {
                (Player::spec_seek(p, spec_seconds_to_ns(s)), None, Ok(()))
            } else {
                (p, None, Err(PlayerError::StateChange))
            },
            None => (p, None, Ok(())),
        },
    }
}

/// Route one control event at a player.  `pending_seek` is the caller's slot
/// for the proposal under a scrub in progress: `Seek` only records into it
/// and leaves the player untouched, `Released` commits and clears it.
pub fn apply_control(
    player: &mut Player,
    pending_seek: &mut Option<u64>,
    event: ControlEvent,
) -> (r: Result<(), PlayerError>)
    ensures
        *final(player) == spec_apply_control(*old(player), *old(pending_seek), event).0,
        *final(pending_seek) == spec_apply_control(*old(player), *old(pending_seek), event).1,
        r is Err <==> event is Released && *old(pending_seek) is Some && old(
            player,
        ).pipeline.uri is None,
        r matches Err(e) ==> e == PlayerError::StateChange,
        event matches ControlEvent::Seek(s) ==> *final(player) == *old(player)
            && *final(pending_seek) == Some(s),
{
    match event {
        ControlEvent::Play => {
            player.play();
            Ok(())
        },
        ControlEvent::Pause => {
            player.pause();
            Ok(())
        },
        ControlEvent::ToggleMute => {
            let muted = player.get_muted();
            player.set_muted(!muted);
            Ok(())
        },
        ControlEvent::Volume(volume_milli) => {
            player.set_volume(volume_milli);
            Ok(())
        },
        ControlEvent::Seek(seconds) => {
            *pending_seek = Some(seconds);
            Ok(())
        },
        ControlEvent::Released => {
            match *pending_seek {
                Some(seconds) => {
                    *pending_seek = None;
                    player.seek(seconds_to_ns(seconds))
                },
                None => Ok(()),
            }
        },
    }
}

/// Law: a scrub proposal is never applied on its own.  Any run of `Seek`
/// proposals leaves the player exactly as it was; only the last proposal
/// survives in the pending slot, waiting for `Released`.
pub proof fn lemma_seek_proposal_is_inert(p: Player, pending: Option<u64>, s1: u64, s2: u64)
    ensures
        ({
            let (p1, pend1, r1) = spec_apply_control(p, pending, ControlEvent::Seek(s1));
            let (p2, pend2, r2) = spec_apply_control(p1, pend1, ControlEvent::Seek(s2));
            p2 == p && pend2 == Some(s2) && r1 == Ok::<(), PlayerError>(()) && r2 == Ok::<
                (),
                PlayerError,
            >(())
        }),
{
}

} // verus!
