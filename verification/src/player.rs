//! The per-stream handle: one decode pipeline plus its transport state, with
//! the frame and bus callbacks bridged onto a background message channel.

use vstd::prelude::*;

use crate::builder::PlayerBuilder;
use crate::channel::{message_channel, send_message};
use crate::error::{FlowError, PlayerError};
use crate::message::{frame_message, PlayerMessage, SampleProbe};
use crate::pipeline::{Pipeline, PipelineState, SourceProbe};
use crate::transport::{RateLock, VideoDetails, DEFAULT_RATE_MILLI};

verus! {

/// Where a loop restart lands, in nanoseconds: a little past the start, so a
/// very short lead-in is skipped on every pass.
pub const RESTART_OFFSET_NS: u64 = 2_000_000_000;

/// A notification the pipeline's bus dispatches to the engine.
#[derive(Clone, Copy, Debug, PartialEq, Eq, Structural)]
pub enum BusEvent {
    /// The stream has drained completely.
    EndOfStream,
    /// The runtime learned the media duration, in nanoseconds.
    DurationChanged(u64),
    /// Any other bus notification: observed, never acted upon.
    Other,
}

/// One playback stream: the decode pipeline, the settings it was built from,
/// the cached video metadata, and the transport state shared with the
/// pipeline's callback threads.
pub struct Player {
    /// The engine's record of the decode graph it owns.
    pub pipeline: Pipeline,
    /// The configuration the player was constructed from.
    pub settings: PlayerBuilder,
    /// Metadata recorded when capability negotiation succeeds.
    pub video_details: Option<VideoDetails>,
    /// The playback rate behind its mutual-exclusion lock.
    pub playback_rate: RateLock,
    /// Whether an end-of-stream event restarts the stream.
    pub looping: bool,
    /// The sending half of the background channel; the frame callback
    /// forwards each decoded frame through it.
    pub sender: tokio::sync::mpsc::UnboundedSender<PlayerMessage>,
}

impl Player {
    /// The state a player holds before any source is set.
    pub open spec fn spec_initial(
        settings: PlayerBuilder,
        sender: tokio::sync::mpsc::UnboundedSender<PlayerMessage>,
    ) -> Player {
        Player {
            pipeline: Pipeline::spec_new(),
            settings,
            video_details: None,
            playback_rate: RateLock { held: false, rate_milli: DEFAULT_RATE_MILLI },
            looping: false,
            sender,
        }
    }

    /// The state after the source has been pointed at `uri`, the sink bin
    /// linked, and the graph told to play — before negotiation is heard from.
    pub open spec fn spec_staged(p: Player, uri: String) -> Player {
        Player {
            pipeline: Pipeline {
                uri: Some(uri),
                sink_linked: true,
                state: PipelineState::Playing,
                ..p.pipeline
            },
            ..p
        }
    }

    /// What setting a source leaves the player at, for each outcome of the
    /// bounded capability wait.  On success the metadata is recorded, the
    /// clock starts at zero, and a player not meant to auto-start is parked
    /// in the paused state; on failure the player is left without valid
    /// metadata.
    pub open spec fn spec_set_source_state(p: Player, uri: String, probe: SourceProbe) -> Player {
        let staged = Player::spec_staged(p, uri);
        match probe {
            SourceProbe::Negotiated(caps) => {
                let ready = Player {
                    pipeline: Pipeline { position_ns: Some(0u64), ..staged.pipeline },
                    video_details: Some(
                        VideoDetails {
                            width: caps.width,
                            height: caps.height,
                            fps_num: caps.fps_num,
                            fps_den: caps.fps_den,
                        },
                    ),
                    ..staged
                };
                if p.settings.auto_start {
                    ready
                } else {
                    Player {
                        pipeline: Pipeline { state: PipelineState::Paused, ..ready.pipeline },
                        ..ready
                    }
                }
            },
            _ => Player { video_details: None, ..staged },
        }
    }

    /// What setting a source returns, by the outcome of the capability wait.
    pub open spec fn spec_set_source_result(probe: SourceProbe) -> Result<(), PlayerError> {
        match probe {
            SourceProbe::Negotiated(_) => Ok(()),
            SourceProbe::TimedOut => Err(PlayerError::Source),
            SourceProbe::Incomplete => Err(PlayerError::MissingElement),
        }
    }

    /// Whether construction from `settings` succeeds: it fails only when an
    /// initial URI is given and its capability wait does not deliver.
    pub open spec fn spec_new_succeeds(settings: PlayerBuilder, probe: SourceProbe) -> bool {
        settings.uri is Some ==> probe is Negotiated
    }

    /// The player construction yields for `settings`: the initial state,
    /// taken through `set_source` when the settings carry a URI.
    pub open spec fn spec_new_player(
        settings: PlayerBuilder,
        probe: SourceProbe,
        sender: tokio::sync::mpsc::UnboundedSender<PlayerMessage>,
    ) -> Player {
        let initial = Player::spec_initial(settings, sender);
        match settings.uri {
            Some(u) => Player::spec_set_source_state(initial, u, probe),
            None => initial,
        }
    }

    /// Assemble the decode graph for `settings`: source into decode, convert
    /// and scale, into a raw RGBA sink.  `sender` is what the sink's frame
    /// callback forwards decoded frames through.  When the settings carry a
    /// URI that source is set at once, with `probe` as the outcome of its
    /// bounded capability wait; construction fails exactly when that initial
    /// source cannot be set.
    pub fn build_player(
        settings: PlayerBuilder,
        sender: tokio::sync::mpsc::UnboundedSender<PlayerMessage>,
        probe: SourceProbe,
    ) -> (r: Result<Player, PlayerError>)
        ensures
            r is Ok <==> Player::spec_new_succeeds(settings, probe),
            r matches Ok(p) ==> p == Player::spec_new_player(settings, probe, sender),
            r matches Err(e) ==> Err::<(), PlayerError>(e) == Player::spec_set_source_result(
                probe,
            ),
    {
        let mut player = Player {
            pipeline: Pipeline::new(),
            settings,
            video_details: None,
            playback_rate: RateLock::new(),
            looping: false,
            sender,
        };
        let uri = match &player.settings.uri {
            Some(u) => Some(u.clone()),
            None => None,
        };
        if let Some(u) = uri {
            match player.set_source(&u, probe) {
                Ok(()) => {},
                Err(e) => {
                    return Err(e);
                },
            }
        }
        Ok(player)
    }

    /// Construct a player from its settings, together with the receiving
    /// half of its background channel.  `probe` is the outcome of the
    /// bounded capability wait for the initial URI; it is ignored when the
    /// settings carry none.
    pub fn new(settings: PlayerBuilder, probe: SourceProbe) -> (r: Result<
        (Player, tokio::sync::mpsc::UnboundedReceiver<PlayerMessage>),
        PlayerError,
    >)
        ensures
            r is Ok <==> Player::spec_new_succeeds(settings, probe),
            r matches Ok(pr) ==> pr.0 == Player::spec_new_player(settings, probe, pr.0.sender),
            r matches Err(e) ==> Err::<(), PlayerError>(e) == Player::spec_set_source_result(
                probe,
            ),
    {
        let (sender, receiver) = message_channel();
        match Player::build_player(settings, sender, probe) {
            Ok(player) => Ok((player, receiver)),
            Err(e) => Err(e),
        }
    }

    /// Construct a player from its settings; the entry point the registry
    /// uses.
    pub fn create(player_builder: PlayerBuilder, probe: SourceProbe) -> (r: Result<
        (Player, tokio::sync::mpsc::UnboundedReceiver<PlayerMessage>),
        PlayerError,
    >)
        ensures
            r is Ok <==> Player::spec_new_succeeds(player_builder, probe),
            r matches Ok(pr) ==> pr.0 == Player::spec_new_player(player_builder, probe, pr.0.sender),
            r matches Err(e) ==> Err::<(), PlayerError>(e) == Player::spec_set_source_result(
                probe,
            ),
    {
        Player::new(player_builder, probe)
    }

    /// Point the pipeline at `uri` and play it until capability negotiation
    /// answers; `probe` is that answer, produced by a bounded wait in the
    /// running system.  On success the video metadata is recorded and, when
    /// `auto_start` is off, the pipeline is parked in the paused state, so
    /// the first visible state is "ready, not playing".  On failure the
    /// player is left without valid metadata.
    pub fn set_source(&mut self, uri: &String, probe: SourceProbe) -> (r: Result<
        (),
        PlayerError,
    >)
        ensures
            *final(self) == Player::spec_set_source_state(*old(self), *uri, probe),
            r == Player::spec_set_source_result(probe),
            r is Ok ==> (final(self).pipeline.state is Playing <==> old(
                self,
            ).settings.auto_start),
            r is Ok ==> final(self).video_details is Some,
            final(self).pipeline.uri == Some(*uri),
    {
        self.pipeline.set_uri(uri.clone());
        self.pipeline.link_video_sink();
        self.pipeline.set_state(PipelineState::Playing);
        match probe {
            SourceProbe::Negotiated(caps) => {
                self.video_details = Some(
                    VideoDetails {
                        width: caps.width,
                        height: caps.height,
                        fps_num: caps.fps_num,
                        fps_den: caps.fps_den,
                    },
                );
                self.pipeline.position_ns = Some(0);
                if !self.settings.auto_start {
                    self.pipeline.set_state(PipelineState::Paused);
                }
                Ok(())
            },
            SourceProbe::TimedOut => {
                self.video_details = None;
                Err(PlayerError::Source)
            },
            SourceProbe::Incomplete => {
                self.video_details = None;
                Err(PlayerError::MissingElement)
            },
        }
    }

    /// The URI the pipeline currently holds, as the runtime would report it.
    pub fn get_source(&self) -> (r: Option<String>)
        ensures
            r == self.pipeline.uri,
    {
        match &self.pipeline.uri {
            Some(u) => Some(u.clone()),
            None => None,
        }
    }

    /// A player with its pipeline commanded into the given coarse state.
    pub open spec fn spec_set_state(p: Player, state: PipelineState) -> Player {
        Player { pipeline: Pipeline { state, ..p.pipeline }, ..p }
    }

    /// Command the pipeline to play.
    pub fn play(&mut self)
        ensures
            *final(self) == Player::spec_set_state(*old(self), PipelineState::Playing),
    {
        self.pipeline.set_state(PipelineState::Playing);
    }

    /// Command the pipeline to pause.
    pub fn pause(&mut self)
        ensures
            *final(self) == Player::spec_set_state(*old(self), PipelineState::Paused),
    {
        self.pipeline.set_state(PipelineState::Paused);
    }

    /// Poll whether the pipeline is playing right now.  Non-blocking.
    pub fn is_playing(&self) -> (r: bool)
        ensures
            r == (self.pipeline.state is Playing),
    {
        self.pipeline.state == PipelineState::Playing
    }

    /// Inject an end-of-stream event.  The pipeline is not torn down; the
    /// event drains through it and surfaces on the bus.
    pub fn stop(&mut self)
        ensures
            *final(self) == (Player {
                pipeline: (Pipeline { eos_requested: true, ..old(self).pipeline }),
                ..*old(self)
            }),
    {
        self.pipeline.send_eos();
    }

    /// Set the output volume, in thousandths of full scale.
    pub fn set_volume(&mut self, volume_milli: u32)
        ensures
            *final(self) == (Player {
                pipeline: (Pipeline { volume_milli, ..old(self).pipeline }),
                ..*old(self)
            }),
    {
        self.pipeline.volume_milli = volume_milli;
    }

    /// The output volume, in thousandths of full scale.
    pub fn get_volume(&self) -> (r: u32)
        ensures
            r == self.pipeline.volume_milli,
    {
        self.pipeline.volume_milli
    }

    /// Mute or unmute the audio output.
    pub fn set_muted(&mut self, muted: bool)
        ensures
            *final(self) == (Player {
                pipeline: (Pipeline { muted, ..old(self).pipeline }),
                ..*old(self)
            }),
    {
        self.pipeline.muted = muted;
    }

    /// Whether the audio output is muted.
    pub fn get_muted(&self) -> (r: bool)
        ensures
            r == self.pipeline.muted,
    {
        self.pipeline.muted
    }

    /// Choose whether an end-of-stream event restarts the stream.  Takes
    /// effect on the next end of stream, never retroactively.
    pub fn set_looping(&mut self, looping: bool)
        ensures
            *final(self) == (Player { looping, ..*old(self) }),
    {
        self.looping = looping;
    }

    /// Whether an end-of-stream event restarts the stream.
    pub fn get_looping(&self) -> (r: bool)
        ensures
            r == self.looping,
    {
        self.looping
    }

    /// A player whose pipeline has taken a flushing seek to `position_ns`.
    pub open spec fn spec_seek(p: Player, position_ns: u64) -> Player {
        Player { pipeline: p.pipeline.spec_seek(position_ns), ..p }
    }

    /// Issue an immediate flushing seek to an absolute nanosecond position.
    /// No debouncing happens here; committing a scrub is the caller's
    /// two-phase `ControlEvent` protocol.
    pub fn seek(&mut self, position_ns: u64) -> (r: Result<(), PlayerError>)
        ensures
            old(self).pipeline.uri is Some ==> r is Ok && *final(self) == Player::spec_seek(
                *old(self),
                position_ns,
            ),
            old(self).pipeline.uri is None ==> r == Err::<(), PlayerError>(
                PlayerError::StateChange,
            ) && *final(self) == *old(self),
    {
        self.pipeline.seek_flush(position_ns)
    }

    /// The play position in nanoseconds; zero while the clock has no answer
    /// yet, which is an ordinary transient state, not a fault.
    pub fn get_position(&self) -> (r: u64)
        ensures
            r == match self.pipeline.position_ns {
                Some(p) => p,
                None => 0u64,
            },
    {
        self.pipeline.query_position()
    }

    /// The media duration in nanoseconds; zero while it is not yet known.
    pub fn get_duration(&self) -> (r: u64)
        ensures
            r == match self.pipeline.duration_ns {
                Some(d) => d,
                None => 0u64,
            },
    {
        self.pipeline.query_duration()
    }

    /// What a rate change leaves behind.  When the lock is free the rate is
    /// recorded and the matching seek event goes out (refused by a pipeline
    /// without a source); when a pending update holds the lock, the change
    /// is dropped without error — last writer wins.
    pub open spec fn spec_set_rate(p: Player, rate_milli: i64) -> (Player, Result<
        (),
        PlayerError,
    >) {
        if p.playback_rate.held {
            (p, Ok(()))
        } else {
            let updated = Player { playback_rate: RateLock { held: false, rate_milli }, ..p };
            if p.pipeline.uri is Some {
                (updated, Ok(()))
            } else {
                (updated, Err(PlayerError::StateChange))
            }
        }
    }

    /// Change the playback rate, in thousandths of real time.  The lock is
    /// acquired without blocking: a contended call skips the update and
    /// still succeeds.
    pub fn set_playback_rate(&mut self, rate_milli: i64) -> (r: Result<(), PlayerError>)
        ensures
            (*final(self), r) == Player::spec_set_rate(*old(self), rate_milli),
            old(self).playback_rate.held ==> *final(self) == *old(self) && r is Ok,
    {
        if self.playback_rate.acquire() {
            self.playback_rate.rate_milli = rate_milli;
            let r: Result<(), PlayerError> = if self.pipeline.uri.is_some() {
                Ok(())
            } else {
                Err(PlayerError::StateChange)
            };
            self.playback_rate.release();
            r
        } else {
            Ok(())
        }
    }

    /// The playback rate, in thousandths of real time.  The caller must not
    /// race a pending update: the original takes the lock and treats a
    /// contended read as a programming error.
    pub fn get_playback_rate(&self) -> (r: i64)
        requires
            !self.playback_rate.held,
        ensures
            r == self.playback_rate.rate_milli,
    {
        self.playback_rate.rate_milli
    }

    /// Play from the start again: command the pipeline to play, then seek to
    /// position zero.
    pub fn restart_stream(&mut self) -> (r: Result<(), PlayerError>)
        ensures
            old(self).pipeline.uri is Some ==> r is Ok && *final(self) == Player::spec_seek(
                Player::spec_set_state(*old(self), PipelineState::Playing),
                0u64,
            ),
            old(self).pipeline.uri is None ==> r == Err::<(), PlayerError>(
                PlayerError::StateChange,
            ) && *final(self) == Player::spec_set_state(*old(self), PipelineState::Playing),
    {
        self.play();
        self.seek(0)
    }

    /// The frame callback, run once per decoded buffer on a pipeline-owned
    /// thread.  The decision of what the pull became is `frame_message`;
    /// a complete sample is forwarded as a `Frame` message on the background
    /// channel, and a failed forward (the consumer is gone) is reported as a
    /// fatal sink condition.
    pub fn on_sample(&self, poll: Option<SampleProbe>) -> (r: Result<(), FlowError>)
        ensures
            poll is None ==> r == Err::<(), FlowError>(FlowError::Eos),
            poll matches Some(probe) && (probe.pixels is None || probe.dimensions is None)
                ==> r == Err::<(), FlowError>(FlowError::Error),
            poll matches Some(probe) && probe.pixels is Some && probe.dimensions is Some
                ==> r is Ok || r == Err::<(), FlowError>(FlowError::Error),
    {
        match frame_message(&self.settings.id, poll) {
            Ok(message) => {
                if send_message(&self.sender, message) {
                    Ok(())
                } else {
                    Err(FlowError::Error)
                }
            },
            Err(e) => Err(e),
        }
    }

    /// What a bus notification does to the player.  An end of stream parks
    /// the clock at the duration and, when looping is on, issues the
    /// flushing restart seek; a duration report updates the clock's record;
    /// everything else changes nothing.
    pub open spec fn spec_bus_step(p: Player, event: BusEvent) -> Player {
        match event {
            BusEvent::EndOfStream => {
                let ended = Player { pipeline: p.pipeline.spec_reach_end(), ..p };
                if p.looping {
                    Player { pipeline: ended.pipeline.spec_seek(RESTART_OFFSET_NS), ..ended }
                } else {
                    ended
                }
            },
            BusEvent::DurationChanged(d) => Player {
                pipeline: Pipeline { duration_ns: Some(d), ..p.pipeline },
                ..p
            },
            BusEvent::Other => p,
        }
    }

    /// The bus callback, run synchronously on the bus-dispatch thread.  Only
    /// an end of stream is acted upon; with looping enabled the stream is
    /// restarted at the fixed offset rather than at zero.  A looping player
    /// hears an end of stream only from a pipeline that has a source, so the
    /// restart seek cannot be refused.
    pub fn on_bus_event(&mut self, event: BusEvent)
        requires
            event is EndOfStream && old(self).looping ==> old(self).pipeline.uri is Some,
        ensures
            *final(self) == Player::spec_bus_step(*old(self), event),
    {
        match event {
            BusEvent::EndOfStream => {
                self.pipeline.reach_end();
                if self.looping {
                    let _ = self.pipeline.seek_flush(RESTART_OFFSET_NS);
                }
            },
            BusEvent::DurationChanged(d) => {
                self.pipeline.duration_ns = Some(d);
            },
            BusEvent::Other => {},
        }
    }
}

/// Law: with looping enabled and a stream longer than the restart offset,
/// an end-of-stream event leaves the play position at the restart offset —
/// not at zero and not at the position the stream ended at.
pub proof fn lemma_loop_restart(p: Player)
    requires
        p.looping,
        p.pipeline.duration_ns matches Some(d) && d > RESTART_OFFSET_NS,
    ensures
        Player::spec_bus_step(p, BusEvent::EndOfStream).pipeline.position_ns == Some(
            RESTART_OFFSET_NS,
        ),
        Player::spec_bus_step(p, BusEvent::EndOfStream).pipeline.position_ns != Some(0u64),
        Player::spec_bus_step(p, BusEvent::EndOfStream).pipeline.position_ns
            != p.pipeline.duration_ns,
{
}

/// Law: a flushing seek settles the clock exactly at the requested position,
/// and repeating the identical seek changes nothing more — no cumulative
/// drift.
pub proof fn lemma_seek_idempotent(p: Player, position_ns: u64)
    ensures
        Player::spec_seek(p, position_ns).pipeline.position_ns == Some(position_ns),
        Player::spec_seek(Player::spec_seek(p, position_ns), position_ns) == Player::spec_seek(
            p,
            position_ns,
        ),
{
}

/// Law: a player built from settings that carry a URI reports that same URI
/// as its source once the capability wait has delivered.
pub proof fn lemma_source_round_trip(
    settings: PlayerBuilder,
    probe: SourceProbe,
    sender: tokio::sync::mpsc::UnboundedSender<PlayerMessage>,
)
    requires
        settings.uri is Some,
        probe is Negotiated,
    ensures
        Player::spec_new_player(settings, probe, sender).pipeline.uri == settings.uri,
{
}

/// Law: a rate change that finds the lock held by a pending update is
/// dropped whole — the state is untouched — and still reports success.
pub proof fn lemma_contended_rate_update_dropped(p: Player, rate_milli: i64)
    requires
        p.playback_rate.held,
    ensures
        Player::spec_set_rate(p, rate_milli) == (p, Ok::<(), PlayerError>(())),
{
}

} // verus!
