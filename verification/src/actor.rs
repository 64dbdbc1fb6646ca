//! The handle through which callers submit commands to a process.

use vstd::prelude::*;
use crate::call::Call;
use crate::channel::{enqueue, share_queue, QueueSender};
use crate::error::Error;
use crate::reply::Pending;
use crate::state::ActorState;

verus! {

/// A handle on a process. It holds a producing end of the command queue and
/// a count of the submissions that the queue did not take, nothing else: the
/// state is reachable only through submitted commands. Clones share the
/// queue; each keeps its own count.
#[verifier::reject_recursive_types(State)]
#[verifier::reject_recursive_types(Reply)]
pub struct Actor<State: ActorState<Reply>, Reply> {
    sender: QueueSender<Call<State, Reply>>,
    rejected: usize,
}

/// The count of rejected submissions after one more answer of the queue: one
/// more where the queue did not take the command, unless the count is at its
/// limit already.
pub open spec fn tallied(count: usize, taken: bool) -> usize {
    if taken || count == usize::MAX {
        count
    } else {
        (count + 1) as usize
    }
}

/// Takes the queue's answer to a submission into the count of rejections.
pub fn tally<T>(count: usize, queued: Result<(), T>) -> (r: usize)
    ensures
        r == tallied(count, queued is Ok),
{
    match queued {
        Ok(_) => count,
        Err(_) => if count == usize::MAX {
            count
        } else {
            count + 1
        },
    }
}

/// What a requester is told once the queue has answered: its pending reply
/// when the queue took the command, `NotSent` when it did not.
pub fn request<T, Reply>(queued: Result<(), T>, waiting: Pending<Reply>) -> (r: Result<
    Pending<Reply>,
    Error,
>)
    ensures
        r == (match queued {
            Ok(_) => Ok::<Pending<Reply>, Error>(waiting),
            Err(_) => Err::<Pending<Reply>, Error>(Error::NotSent),
        }),
{
    match queued {
        Ok(_) => Ok(waiting),
        Err(_) => Err(Error::NotSent),
    }
}

impl<State: ActorState<Reply>, Reply> Actor<State, Reply> {
    /// A handle on the queue that `sender` feeds, with no submission rejected
    /// so far.
    pub fn new_with_sender(sender: QueueSender<Call<State, Reply>>) -> (actor: Self)
        ensures
            actor.sender() == sender,
            actor.rejected() == 0,
    {
        Self { sender, rejected: 0 }
    }

    /// The producing end that this handle submits through.
    pub closed spec fn sender(&self) -> QueueSender<Call<State, Reply>> {
        self.sender
    }

    /// How many fire-and-forget submissions through this handle the queue has
    /// not taken.
    pub closed spec fn rejected(&self) -> usize {
        self.rejected
    }

    /// How many fire-and-forget submissions through this handle the queue has
    /// not taken. The count stops at the largest number it can hold.
    pub fn rejections(&self) -> (count: usize)
        ensures
            count == self.rejected(),
    {
        self.rejected
    }

    /// Queues `call` without waiting and tells the submitter nothing. The
    /// process may be gone, in which case the command is discarded and the
    /// handle counts one more rejection; otherwise the count stays.
    pub fn submit(&mut self, call: Call<State, Reply>)
        ensures
            final(self).sender() == old(self).sender(),
            final(self).rejected() == old(self).rejected() || final(self).rejected() == tallied(
                old(self).rejected(),
                false,
            ),
    {
        let queued = enqueue(&self.sender, call);
        self.rejected = tally(self.rejected, queued);
    }

    /// Queues an inspection of the state by `query`, whose reply, if any, is
    /// dropped. Tells the submitter nothing; a rejection is counted.
    pub fn call_ref(&mut self, query: State::Query)
        ensures
            final(self).sender() == old(self).sender(),
            final(self).rejected() == old(self).rejected() || final(self).rejected() == tallied(
                old(self).rejected(),
                false,
            ),
    {
        self.submit(Call::inspect(query))
    }

    /// Queues a change of the state by `update`, whose reply, if any, is
    /// dropped. Tells the submitter nothing; a rejection is counted.
    pub fn call_ref_mut(&mut self, update: State::Update)
        ensures
            final(self).sender() == old(self).sender(),
            final(self).rejected() == old(self).rejected() || final(self).rejected() == tallied(
                old(self).rejected(),
                false,
            ),
    {
        self.submit(Call::mutate(update))
    }

    /// Queues an inspection by `query` together with a fresh reply channel,
    /// and hands back the pending reply, on which nothing has been handed out
    /// yet. Fails with `NotSent`, and with nothing else, when the queue did
    /// not take the command.
    pub fn call_ref_reply(&self, query: State::Query) -> (r: Result<Pending<Reply>, Error>)
        ensures
            r is Err ==> r == Err::<Pending<Reply>, Error>(Error::NotSent),
            r is Ok ==> !r->Ok_0.settled(),
    {
        let (call, waiting) = Call::inspect_with_reply(query);
        request(enqueue(&self.sender, call), waiting)
    }

    /// Queues a change by `update` together with a fresh reply channel, and
    /// hands back the pending reply, on which nothing has been handed out
    /// yet. Fails with `NotSent`, and with nothing else, when the queue did
    /// not take the command.
    pub fn call_ref_mut_reply(&self, update: State::Update) -> (r: Result<Pending<Reply>, Error>)
        ensures
            r is Err ==> r == Err::<Pending<Reply>, Error>(Error::NotSent),
            r is Ok ==> !r->Ok_0.settled(),
    {
        let (call, waiting) = Call::mutate_with_reply(update);
        request(enqueue(&self.sender, call), waiting)
    }
}

impl<State: ActorState<Reply>, Reply> Clone for Actor<State, Reply> {
    /// Another handle on the same queue, which has had nothing rejected yet.
    /// The handle it is made from stays as it is, and nothing is queued.
    fn clone(&self) -> (other: Self)
        ensures
            other.sender() == self.sender(),
            other.rejected() == 0,
    {
        Self { sender: share_queue(&self.sender), rejected: 0 }
    }
}

} // verus!
