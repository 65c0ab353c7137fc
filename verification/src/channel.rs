//! The background channel each player delivers its messages over.
//!
//! The channel is tokio's unbounded multi-producer, single-consumer queue.
//! Its contents depend on which threads have sent so far, so nothing is
//! assumed here about what travels through it: the functions that consume a
//! received message are verified for every value it could be.

use vstd::prelude::*;

use crate::message::PlayerMessage;

verus! {

/// The sending half of tokio's unbounded channel, held by the pipeline's
/// callback side.
#[verifier::external_type_specification]
#[verifier::external_body]
#[verifier::reject_recursive_types(T)]
pub struct ExUnboundedSender<T>(tokio::sync::mpsc::UnboundedSender<T>);

/// The receiving half of tokio's unbounded channel, drained by the handler.
#[verifier::external_type_specification]
#[verifier::external_body]
#[verifier::reject_recursive_types(T)]
pub struct ExUnboundedReceiver<T>(tokio::sync::mpsc::UnboundedReceiver<T>);

/// Relies on tokio::sync::mpsc::unbounded_channel: makes a fresh queue and
/// returns its two halves.  Sending never blocks; the queue is unbounded.
#[verifier::external_body]
pub(crate) fn message_channel() -> (r: (
    tokio::sync::mpsc::UnboundedSender<PlayerMessage>,
    tokio::sync::mpsc::UnboundedReceiver<PlayerMessage>,
))
{
    tokio::sync::mpsc::unbounded_channel()
}

/// Relies on tokio::sync::mpsc::UnboundedSender::send: queues the message
/// for the paired receiver and returns true, or returns false when the
/// receiving half is closed or dropped.  Which of the two happens depends on
/// the consumer thread, so nothing is stated of the result.
#[verifier::external_body]
pub(crate) fn send_message(
    sender: &tokio::sync::mpsc::UnboundedSender<PlayerMessage>,
    message: PlayerMessage,
) -> (r: bool)
{
    sender.send(message).is_ok()
}

/// Relies on tokio::sync::mpsc::UnboundedReceiver::try_recv: hands out the
/// next queued message without blocking, or nothing when the queue is empty
/// or closed.  What arrives depends on the sending threads, so nothing is
/// stated of the result.
#[verifier::external_body]
pub(crate) fn try_recv_message(
    receiver: &mut tokio::sync::mpsc::UnboundedReceiver<PlayerMessage>,
) -> (r: Option<PlayerMessage>)
{
    match receiver.try_recv() {
        Ok(message) => Some(message),
        Err(_) => None,
    }
}

} // verus!
