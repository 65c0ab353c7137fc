//! The error taxonomy of the engine.

use vstd::prelude::*;

verus! {

/// What a player operation can fail with.  Each variant is surfaced from a
/// distinct phase so a caller can tell "could not build the pipeline" apart
/// from "could not set the source" and "could not seek".
#[derive(Clone, Copy, Debug, PartialEq, Eq, Structural)]
pub enum PlayerError {
    /// A stage of the decode graph could not be instantiated or linked, or
    /// the media runtime was unavailable.  Fatal; a runtime adapter reports
    /// it from construction, and nothing retries it.
    Pipeline,
    /// The source was unreachable or capability negotiation timed out.
    Source,
    /// The runtime refused a state change, a seek or a rate change.
    StateChange,
    /// An expected pipeline element or capability field was absent.
    MissingElement,
}

/// What the frame callback reports back to the sink that invoked it.
#[derive(Clone, Copy, Debug, PartialEq, Eq, Structural)]
pub enum FlowError {
    /// No more samples can be pulled: the stream is over.
    Eos,
    /// The sample was unusable or the consumer of the frame channel is gone.
    /// The sink treats this as fatal and stops producing.
    Error,
}

} // verus!
