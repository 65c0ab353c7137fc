//! The payloads that cross from the pipeline's callback threads to the host:
//! decoded frames and the inputs of the frame callback itself.

use vstd::prelude::*;

use crate::error::{FlowError, PlayerError};
use crate::pipeline::PipelineState;

verus! {

/// One decoded video frame: RGBA pixel data with its explicit geometry.
/// This is the only payload that crosses the engine/UI boundary; the host
/// never touches raw pipeline handles.
#[derive(Clone, Debug, PartialEq, Eq)]
pub struct Frame {
    /// Width in pixels.
    pub width: u32,
    /// Height in pixels.
    pub height: u32,
    /// The pixel buffer, four bytes per pixel in RGBA order.
    pub pixels: Vec<u8>,
}

/// A message delivered over a player's background channel, tagged with the
/// id of the player it came from.
#[derive(Clone, Debug, PartialEq, Eq)]
pub enum PlayerMessage {
    /// A decoded frame from the player registered under the id.
    Frame(String, Frame),
    /// The player's pipeline moved to a new state.  Observed but not yet
    /// dispatched anywhere: a hook point for future expansion.
    StateChanged(String, PipelineState),
    /// The player's pipeline reported a fault.  Observed but not yet
    /// dispatched anywhere: a hook point for future expansion.
    Error(String, PlayerError),
}

/// What one invocation of the frame callback found when it pulled a sample
/// from the sink.  Absent parts mirror the runtime's answers: a sample whose
/// buffer could not be read, or a sink pad that reports no caps yet.
#[derive(Clone, Debug)]
pub struct SampleProbe {
    /// The mapped, readable pixel data of the pulled buffer; `None` when the
    /// sample carried no buffer or the buffer could not be mapped.
    pub pixels: Option<Vec<u8>>,
    /// Width and height currently negotiated on the sink pad; `None` when
    /// the pad reports no caps or they lack either field.
    pub dimensions: Option<(u32, u32)>,
}

/// The decision at the heart of the frame callback: what one pull from the
/// sink turns into.  No sample at all means the stream is over; a sample
/// with its buffer or its geometry missing is a fatal sink condition; a
/// complete sample becomes a `Frame` message tagged with the player's id.
pub fn frame_message(id: &String, poll: Option<SampleProbe>) -> (r: Result<
    PlayerMessage,
    FlowError,
>)
    ensures
        match poll {
            None => r == Err::<PlayerMessage, FlowError>(FlowError::Eos),
            Some(probe) => match (probe.pixels, probe.dimensions) {
                (Some(pixels), Some(dims)) => r matches Ok(m)
                    && m matches PlayerMessage::Frame(mid, f)
                    && mid@ == id@
                    && f.width == dims.0
                    && f.height == dims.1
                    && f.pixels@ == pixels@,
                _ => r == Err::<PlayerMessage, FlowError>(FlowError::Error),
            },
        },
{
    match poll {
        None => Err(FlowError::Eos),
        Some(probe) => match (probe.pixels, probe.dimensions) {
            (Some(pixels), Some((width, height))) => Ok(
                PlayerMessage::Frame(id.clone(), Frame { width, height, pixels }),
            ),
            _ => Err(FlowError::Error),
        },
    }
}

} // verus!
