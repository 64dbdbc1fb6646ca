//! The requester's side of a reply channel.

use vstd::prelude::*;
use crate::channel::{take_reply, ReplyReceiver, ReplyVacant};
use crate::error::Error;

verus! {

/// What a requester holds once its reply channel has come to an end: the
/// value if one was sent, `NoReply` if the channel closed without one.
pub fn reply_result<Reply>(received: Option<Reply>) -> (r: Result<Reply, Error>)
    ensures
        r == (match received {
            Some(value) => Ok::<Reply, Error>(value),
            None => Err::<Reply, Error>(Error::NoReply),
        }),
{
    match received {
        Some(value) => Ok(value),
        None => Err(Error::NoReply),
    }
}

/// Reads one look at a reply channel: still open and empty means no answer
/// yet; otherwise the requester's result is settled.
pub fn settle<Reply>(taken: Result<Reply, ReplyVacant>) -> (r: Option<Result<Reply, Error>>)
    ensures
        r == (match taken {
            Ok(value) => Some(Ok::<Reply, Error>(value)),
            Err(ReplyVacant::Closed) => Some(Err::<Reply, Error>(Error::NoReply)),
            Err(ReplyVacant::Empty) => None::<Result<Reply, Error>>,
        }),
{
    match taken {
        Ok(value) => Some(reply_result(Some(value))),
        Err(ReplyVacant::Closed) => Some(reply_result(None)),
        Err(ReplyVacant::Empty) => None,
    }
}

/// A request that was queued and whose reply is awaited. It yields a result
/// at most once.
#[verifier::reject_recursive_types(Reply)]
pub struct Pending<Reply> {
    receiver: ReplyReceiver<Reply>,
    settled: bool,
}

impl<Reply> Pending<Reply> {
    /// Whether the result has been handed out.
    pub closed spec fn settled(&self) -> bool {
        self.settled
    }

    /// The channel end that the reply arrives on.
    pub closed spec fn receiver(&self) -> ReplyReceiver<Reply> {
        self.receiver
    }

    /// A request that waits on `receiver` and has yielded nothing yet.
    pub fn new(receiver: ReplyReceiver<Reply>) -> (pending: Self)
        ensures
            !pending.settled(),
            pending.receiver() == receiver,
    {
        Self { receiver, settled: false }
    }

    /// Whether the result has been handed out.
    pub fn is_settled(&self) -> (r: bool)
        ensures
            r == self.settled(),
    {
        self.settled
    }

    /// Looks for the reply without waiting. `None` while the process has not
    /// settled the request, and ever after the one call that handed the
    /// result out; that call gives the reply, or `NoReply` where the channel
    /// closed without one. `NotSent` never comes from here: it is told at
    /// submission. Once the result is out the channel is not looked at again,
    /// and the pending reply stays as it is.
    pub fn poll(&mut self) -> (r: Option<Result<Reply, Error>>)
        ensures
            old(self).settled() ==> r is None && *final(self) == *old(self),
            !old(self).settled() ==> (final(self).settled() <==> r is Some),
            r != Some(Err::<Reply, Error>(Error::NotSent)),
    {
        if self.settled {
            return None;
        }
        let r = settle(take_reply(&mut self.receiver));
        if r.is_some() {
            self.settled = true;
        }
        r
    }

    /// Gives up the channel end to a caller that will wait on it, once. There
    /// is none to give after the result has been handed out.
    pub fn into_receiver(self) -> (r: Option<ReplyReceiver<Reply>>)
        ensures
            r == (if self.settled() {
                None::<ReplyReceiver<Reply>>
            } else {
                Some(self.receiver())
            }),
    {
        if self.settled {
            None
        } else {
            Some(self.receiver)
        }
    }
}

} // verus!
