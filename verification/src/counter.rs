//! A count, as a sample of a state whose updates add up.

use vstd::prelude::*;
use crate::call::{mutations, run, Call};
use crate::state::ActorState;

verus! {

/// A count that goes up by one at a time and stops at the largest value it
/// can hold.
#[derive(Debug, Clone, Copy, PartialEq, Eq, Structural)]
pub struct Counter {
    pub value: u64,
}

/// The read-only operations on a `Counter`.
#[derive(Debug, Clone, Copy, PartialEq, Eq, Structural)]
pub enum CounterQuery {
    /// Reply with the count.
    Value,
}

/// The mutating operations on a `Counter`.
#[derive(Debug, Clone, Copy, PartialEq, Eq, Structural)]
pub enum CounterUpdate {
    /// Count one more, and reply with the new count.
    Increment,
}

impl Counter {
    /// The counter after `more` increments.
    pub open spec fn counted(self, more: nat) -> Counter {
        if self.value + more <= u64::MAX {
            Counter { value: (self.value + more) as u64 }
        } else {
            Counter { value: u64::MAX }
        }
    }
}

impl ActorState<u64> for Counter {
    type Query = CounterQuery;

    type Update = CounterUpdate;

    open spec fn answer(self, query: CounterQuery) -> Option<u64> {
        Some(self.value)
    }

    open spec fn updated(self, update: CounterUpdate) -> Counter {
        self.counted(1)
    }

    open spec fn update_answer(self, update: CounterUpdate) -> Option<u64> {
        Some(self.counted(1).value)
    }

    fn inspect(&self, query: &CounterQuery) -> (reply: Option<u64>) {
        Some(self.value)
    }

    fn mutate(&mut self, update: &CounterUpdate) -> (reply: Option<u64>) {
        if self.value < u64::MAX {
            self.value = self.value + 1;
        }
        Some(self.value)
    }
}

/// No increment is lost and none counts twice: after a run of commands the
/// count stands higher by the number of mutations in the run, in whatever
/// order the queue put what the handles submitted, and whatever inspections
/// came between. Where that sum does not fit, the count stands at its limit.
pub proof fn law_increments_add_up(begin: Counter, calls: Seq<Call<Counter, u64>>)
    ensures
        run(begin, calls) == begin.counted(mutations(calls)),
        begin.value + mutations(calls) <= u64::MAX ==> run(begin, calls).value == begin.value
            + mutations(calls),
    decreases calls.len(),
{
    if calls.len() > 0 {
        law_increments_add_up(begin, calls.drop_last());
    }
}

} // verus!
