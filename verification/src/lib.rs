//! A controllable media-playback engine.
//!
//! Given a media URI the engine models a decode pipeline, exposes transport
//! controls (play / pause / seek / volume / mute / loop / rate) and bridges
//! the pipeline's asynchronous frame and bus callbacks into a single message
//! stream that a host UI can drain.

mod builder;
mod channel;
mod control;
mod error;
mod handler;
mod message;
mod pipeline;
mod player;
mod transport;

pub use builder::PlayerBuilder;
pub use control::{
    apply_control, lemma_seek_proposal_is_inert, seconds_to_ns, spec_apply_control,
    spec_seconds_to_ns, ControlEvent, SECOND_NS,
};
pub use error::{FlowError, PlayerError};
pub use handler::{
    lemma_frame_last_write_wins, lemma_idx_of, lemma_idx_of_same_ids, lemma_no_frame_before_delivery,
    spec_entry_fresh, spec_get_frame, spec_handle_event, spec_idx_of, PlayerEntry, PlayerHandler,
};
pub use message::{frame_message, Frame, PlayerMessage, SampleProbe};
pub use pipeline::{Caps, Pipeline, PipelineState, SourceProbe, FULL_VOLUME_MILLI};
pub use player::{
    lemma_contended_rate_update_dropped, lemma_loop_restart, lemma_seek_idempotent,
    lemma_source_round_trip, BusEvent, Player, RESTART_OFFSET_NS,
};
pub use transport::{RateLock, VideoDetails, DEFAULT_RATE_MILLI};
