//! The queue and the reply path, both provided by `tokio::sync`.
//!
//! The contents of a channel change under the hands of other tasks, so the
//! contracts here say only what holds of every outcome of a call.

use vstd::prelude::*;

verus! {

/// The producing end of a command queue.
pub type QueueSender<T> = tokio::sync::mpsc::UnboundedSender<T>;

/// The consuming end of a command queue.
pub type QueueReceiver<T> = tokio::sync::mpsc::UnboundedReceiver<T>;

/// The producing end of a reply channel: it is used up by its one send.
pub type ReplySender<T> = tokio::sync::oneshot::Sender<T>;

/// The consuming end of a reply channel, held by the requester.
pub type ReplyReceiver<T> = tokio::sync::oneshot::Receiver<T>;

/// `tokio::sync::mpsc::UnboundedSender`, carried as an opaque value.
#[verifier::external_type_specification]
#[verifier::external_body]
#[verifier::reject_recursive_types(T)]
pub struct ExUnboundedSender<T>(tokio::sync::mpsc::UnboundedSender<T>);

/// `tokio::sync::mpsc::UnboundedReceiver`, carried as an opaque value.
#[verifier::external_type_specification]
#[verifier::external_body]
#[verifier::reject_recursive_types(T)]
pub struct ExUnboundedReceiver<T>(tokio::sync::mpsc::UnboundedReceiver<T>);

/// `tokio::sync::oneshot::Sender`, carried as an opaque value.
#[verifier::external_type_specification]
#[verifier::external_body]
#[verifier::reject_recursive_types(T)]
pub struct ExReplySender<T>(tokio::sync::oneshot::Sender<T>);

/// `tokio::sync::oneshot::Receiver`, carried as an opaque value.
#[verifier::external_type_specification]
#[verifier::external_body]
#[verifier::reject_recursive_types(T)]
pub struct ExReplyReceiver<T>(tokio::sync::oneshot::Receiver<T>);

/// `tokio::sync::oneshot::error::RecvError`, carried as an opaque value. No
/// function here names it: it is what a `Receiver` yields as a future when
/// its sender was dropped, and the verifier asks for every type that the
/// impls of a declared type mention.
#[verifier::external_type_specification]
#[verifier::external_body]
pub struct ExReplyRecvError(tokio::sync::oneshot::error::RecvError);

/// Why a look at the queue found no command.
#[derive(Debug, Clone, Copy, PartialEq, Eq, Structural)]
pub enum QueueVacant {
    /// Nothing is queued now, but handles remain that may queue more.
    Empty,
    /// Nothing is queued and no handle remains: nothing will ever come.
    Disconnected,
}

/// Why a look at a reply channel found no value.
#[derive(Debug, Clone, Copy, PartialEq, Eq, Structural)]
pub enum ReplyVacant {
    /// No value has been sent yet.
    Empty,
    /// The sending end is gone and left no value, or the value was taken
    /// before.
    Closed,
}

/// `tokio::sync::mpsc::unbounded_channel`: a fresh queue, as its two ends.
/// Nothing is claimed of them.
#[verifier::external_body]
pub(crate) fn open_queue<T>() -> (ends: (
    tokio::sync::mpsc::UnboundedSender<T>,
    tokio::sync::mpsc::UnboundedReceiver<T>,
)) {
    tokio::sync::mpsc::unbounded_channel()
}

/// `UnboundedSender::send`: queues `message` without waiting. Whether the
/// queue took it depends on the receiving end; when it did not, the error
/// carries the very message that was handed in.
#[verifier::external_body]
pub(crate) fn enqueue<T>(sender: &tokio::sync::mpsc::UnboundedSender<T>, message: T) -> (r: Result<(), T>)
    ensures
        r is Err ==> r->Err_0 == message,
{
    match sender.send(message) {
        Ok(()) => Ok(()),
        Err(tokio::sync::mpsc::error::SendError(back)) => Err(back),
    }
}

/// `UnboundedSender::clone`: another producing end of the same queue. The
/// clone holds the same shared channel as `sender` and differs from it in
/// nothing that a contract of this library speaks of.
#[verifier::external_body]
pub(crate) fn share_queue<T>(sender: &tokio::sync::mpsc::UnboundedSender<T>) -> (other:
    tokio::sync::mpsc::UnboundedSender<T>)
    ensures
        other == *sender,
{
    sender.clone()
}

/// `UnboundedReceiver::try_recv`: the oldest queued message, if one is there,
/// without waiting; else whether the queue is merely empty or disconnected.
/// What comes depends on the other tasks, so nothing is claimed of it.
#[verifier::external_body]
pub(crate) fn dequeue<T>(receiver: &mut tokio::sync::mpsc::UnboundedReceiver<T>) -> (r: Result<
    T,
    QueueVacant,
>) {
    match receiver.try_recv() {
        Ok(message) => Ok(message),
        Err(tokio::sync::mpsc::error::TryRecvError::Empty) => Err(QueueVacant::Empty),
        Err(tokio::sync::mpsc::error::TryRecvError::Disconnected) => Err(QueueVacant::Disconnected),
    }
}

/// `tokio::sync::oneshot::channel`: a fresh reply channel, as its two ends.
#[verifier::external_body]
pub(crate) fn open_reply<T>() -> (ends: (
    tokio::sync::oneshot::Sender<T>,
    tokio::sync::oneshot::Receiver<T>,
)) {
    tokio::sync::oneshot::channel()
}

/// `oneshot::Sender::send`: hands `value` to the waiting side and uses the
/// sender up. When the receiving end is gone the value comes back as the error.
#[verifier::external_body]
pub(crate) fn send_reply<T>(sender: tokio::sync::oneshot::Sender<T>, value: T) -> (r: Result<(), T>)
    ensures
        r is Err ==> r->Err_0 == value,
{
    sender.send(value)
}

/// `oneshot::Receiver::try_recv`: the reply if it has arrived, without waiting;
/// else whether the channel is still open or closed. What comes depends on
/// the other tasks, so nothing is claimed of it.
#[verifier::external_body]
pub(crate) fn take_reply<T>(receiver: &mut tokio::sync::oneshot::Receiver<T>) -> (r: Result<
    T,
    ReplyVacant,
>) {
    match receiver.try_recv() {
        Ok(value) => Ok(value),
        Err(tokio::sync::oneshot::error::TryRecvError::Empty) => Err(ReplyVacant::Empty),
        Err(tokio::sync::oneshot::error::TryRecvError::Closed) => Err(ReplyVacant::Closed),
    }
}

} // verus!
