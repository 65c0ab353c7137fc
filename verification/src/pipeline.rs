//! A model of one decode pipeline: the engine's view of the decode graph it
//! owns, from source URI to raw-pixel sink.
//!
//! The media runtime itself runs outside the library; every fact the engine
//! relies on about the graph (current state, loaded URI, play position) is
//! held here as a plain value, and the host feeds runtime outcomes in as
//! events.

use vstd::prelude::*;

use crate::error::PlayerError;

verus! {

/// The coarse states a decode pipeline can sit in.
#[derive(Clone, Copy, Debug, PartialEq, Eq, Structural)]
pub enum PipelineState {
    /// No resources allocated; the state before a source is set.
    Null,
    /// Prerolled and ready, not advancing the clock.
    Paused,
    /// Decoding and advancing the clock.
    Playing,
}

/// Source capabilities as negotiation reports them: frame geometry and the
/// framerate as the exact rational of the runtime.
#[derive(Clone, Copy, Debug, PartialEq, Eq, Structural)]
pub struct Caps {
    /// Frame width in pixels.
    pub width: i32,
    /// Frame height in pixels.
    pub height: i32,
    /// Numerator of the framerate fraction.
    pub fps_num: i32,
    /// Denominator of the framerate fraction.
    pub fps_den: i32,
}

/// The outcome of the bounded wait for capability negotiation that follows
/// setting a source: either the sink's capabilities were negotiated in time,
/// or the wait timed out, or caps appeared but lacked a required field.
#[derive(Clone, Copy, Debug, PartialEq, Eq, Structural)]
pub enum SourceProbe {
    /// Negotiation finished and every required field was present.
    Negotiated(Caps),
    /// The bounded wait elapsed without the pipeline reaching a ready state.
    TimedOut,
    /// Caps were present but a required field (width, height or framerate)
    /// was missing.
    Incomplete,
}

/// The engine's record of one decode graph.
///
/// `position_ns` and `duration_ns` are `None` while the runtime clock has no
/// answer yet; queries degrade to zero rather than erroring, since "not yet
/// known" is an ordinary transient state.
#[derive(Clone, Debug)]
pub struct Pipeline {
    /// The URI the graph was pointed at, if any.
    pub uri: Option<String>,
    /// Whether the convert/scale/sink bin has been attached as video sink.
    pub sink_linked: bool,
    /// The current coarse state of the graph.
    pub state: PipelineState,
    /// Play position in nanoseconds, when the clock has one.
    pub position_ns: Option<u64>,
    /// Media duration in nanoseconds, when known.
    pub duration_ns: Option<u64>,
    /// Output volume in thousandths of full scale.
    pub volume_milli: u32,
    /// Whether audio output is muted.
    pub muted: bool,
    /// Whether an end-of-stream event has been injected at the source side.
    pub eos_requested: bool,
}

/// Full volume, the level a fresh pipeline starts at.
pub const FULL_VOLUME_MILLI: u32 = 1000;

impl Pipeline {
    /// The value a freshly assembled graph holds: no source, clock unknown,
    /// full volume.
    pub open spec fn spec_new() -> Pipeline {
        Pipeline {
            uri: None,
            sink_linked: false,
            state: PipelineState::Null,
            position_ns: None,
            duration_ns: None,
            volume_milli: FULL_VOLUME_MILLI,
            muted: false,
            eos_requested: false,
        }
    }

    /// A freshly assembled graph: no source, clock unknown, full volume.
    pub fn new() -> (r: Self)
        ensures
            r == Pipeline::spec_new(),
    {
        Pipeline {
            uri: None,
            sink_linked: false,
            state: PipelineState::Null,
            position_ns: None,
            duration_ns: None,
            volume_milli: FULL_VOLUME_MILLI,
            muted: false,
            eos_requested: false,
        }
    }

    /// Point the graph at a media URI.  The previous clock readings are kept
    /// until the new source prerolls.
    pub fn set_uri(&mut self, uri: String)
        ensures
            *final(self) == (Pipeline { uri: Some(uri), ..*old(self) }),
    {
        self.uri = Some(uri);
    }

    /// Attach the convert/scale/sink bin as the graph's video sink.
    pub fn link_video_sink(&mut self)
        ensures
            *final(self) == (Pipeline { sink_linked: true, ..*old(self) }),
    {
        self.sink_linked = true;
    }

    /// Command the graph into a coarse state.
    pub fn set_state(&mut self, state: PipelineState)
        ensures
            *final(self) == (Pipeline { state, ..*old(self) }),
    {
        self.state = state;
    }

    /// What a flushing seek leaves the pipeline at, when the seek is
    /// accepted: in-flight buffers are discarded and the clock repositions.
    pub open spec fn spec_seek(self, position_ns: u64) -> Pipeline {
        Pipeline { position_ns: Some(position_ns), ..self }
    }

    /// Issue a flushing seek to an absolute nanosecond position.  A graph
    /// without a source refuses the seek.
    pub fn seek_flush(&mut self, position_ns: u64) -> (r: Result<(), PlayerError>)
        ensures
            old(self).uri is Some ==> r is Ok && *final(self) == old(self).spec_seek(position_ns),
            old(self).uri is None ==> r == Err::<(), PlayerError>(PlayerError::StateChange)
                && *final(self) == *old(self),
    {
        if self.uri.is_some() {
            self.position_ns = Some(position_ns);
            Ok(())
        } else {
            Err(PlayerError::StateChange)
        }
    }

    /// Query the play position; zero when the clock has no answer yet.
    pub fn query_position(&self) -> (r: u64)
        ensures
            r == match self.position_ns {
                Some(p) => p,
                None => 0u64,
            },
    {
        match self.position_ns {
            Some(p) => p,
            None => 0,
        }
    }

    /// Query the media duration; zero when it is not yet known.
    pub fn query_duration(&self) -> (r: u64)
        ensures
            r == match self.duration_ns {
                Some(d) => d,
                None => 0u64,
            },
    {
        match self.duration_ns {
            Some(d) => d,
            None => 0,
        }
    }

    /// Inject an end-of-stream event at the source side.  The graph keeps
    /// running until the event drains through it; teardown is not forced.
    pub fn send_eos(&mut self)
        ensures
            *final(self) == (Pipeline { eos_requested: true, ..*old(self) }),
    {
        self.eos_requested = true;
    }

    /// Where the clock sits once the stream has drained: at the duration,
    /// when one is known.
    pub open spec fn spec_reach_end(self) -> Pipeline {
        match self.duration_ns {
            Some(d) => Pipeline { position_ns: Some(d), ..self },
            None => self,
        }
    }

    /// Record that the stream has drained: the clock stops at the duration.
    pub fn reach_end(&mut self)
        ensures
            *final(self) == old(self).spec_reach_end(),
    {
        if let Some(d) = self.duration_ns {
            self.position_ns = Some(d);
        }
    }

    /// How the clock moves over `delta_ns` of wall time: only a playing
    /// graph with a known position advances, saturating at the duration when
    /// one is known.
    pub open spec fn spec_advance(self, delta_ns: u64) -> Pipeline {
        if self.state is Playing && self.position_ns is Some {
            let moved = self.position_ns->0 + delta_ns;
            let capped = match self.duration_ns {
                Some(d) => if moved > d { d as int } else { moved },
                None => if moved > u64::MAX { u64::MAX as int } else { moved },
            };
            Pipeline { position_ns: Some(capped as u64), ..self }
        } else {
            self
        }
    }

    /// Advance the runtime clock by `delta_ns` nanoseconds.
    pub fn advance_clock(&mut self, delta_ns: u64)
        ensures
            *final(self) == old(self).spec_advance(delta_ns),
    {
        if self.state == PipelineState::Playing {
            if let Some(p) = self.position_ns {
                let moved = if delta_ns > u64::MAX - p {
                    u64::MAX
                } else {
                    p + delta_ns
                };
                let capped = match self.duration_ns {
                    Some(d) => if moved > d {
                        d
                    } else {
                        moved
                    },
                    None => moved,
                };
                self.position_ns = Some(capped);
            }
        }
    }
}

} // verus!
