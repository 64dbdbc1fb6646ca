//! What a state type must offer to be owned by a process.

use vstd::prelude::*;

verus! {

/// A state that a process can own. The type names its own operations: a
/// `Query` reads the state, an `Update` changes it, and either may produce a
/// reply for a requester. Implementing the trait is a deliberate choice of the
/// state's author; no type has it by default.
///
/// Operations are total: neither method has a precondition, so a queued
/// operation cannot fail while the process applies it.
pub trait ActorState<Reply>: Sized {
    /// A read-only operation.
    type Query;

    /// A mutating operation.
    type Update;

    /// What `query` replies on this state; `None` where it declines to reply.
    spec fn answer(self, query: Self::Query) -> Option<Reply>;

    /// The state that `update` leaves behind.
    spec fn updated(self, update: Self::Update) -> Self;

    /// What `update` replies when applied to this state; `None` where it
    /// declines to reply.
    spec fn update_answer(self, update: Self::Update) -> Option<Reply>;

    /// Runs `query` on the state, which it cannot change.
    fn inspect(&self, query: &Self::Query) -> (reply: Option<Reply>)
        ensures
            reply == self.answer(*query),
    ;

    /// Runs `update` on the state.
    fn mutate(&mut self, update: &Self::Update) -> (reply: Option<Reply>)
        ensures
            *final(self) == old(self).updated(*update),
            reply == old(self).update_answer(*update),
    ;
}

} // verus!
