//! A two-valued state, as a sample of a state that a process can own.

use vstd::prelude::*;
use crate::actor::{tallied, Actor};
use crate::call::{mutations, run, Call};
use crate::state::ActorState;

verus! {

/// A switch with two positions.
#[derive(Debug, Clone, Copy, PartialEq, Eq, Structural)]
pub enum Toggle {
    Alpha,
    Beta,
}

/// The read-only operations on a `Toggle`.
#[derive(Debug, Clone, Copy, PartialEq, Eq, Structural)]
pub enum ToggleQuery {
    /// Reply with the current position.
    Report,
    /// Look at the position and reply nothing.
    Observe,
}

/// The mutating operations on a `Toggle`.
#[derive(Debug, Clone, Copy, PartialEq, Eq, Structural)]
pub enum ToggleUpdate {
    /// Move to the other position, and reply with it.
    Flip,
}

impl Toggle {
    /// The other position.
    pub open spec fn flipped(self) -> Toggle {
        match self {
            Toggle::Alpha => Toggle::Beta,
            Toggle::Beta => Toggle::Alpha,
        }
    }

    /// The position reached from this one by `count` flips.
    pub open spec fn flipped_times(self, count: nat) -> Toggle
        decreases count,
    {
        if count == 0 {
            self
        } else {
            self.flipped_times((count - 1) as nat).flipped()
        }
    }

    /// The other position.
    pub fn flip(self) -> (other: Toggle)
        ensures
            other == self.flipped(),
    {
        match self {
            Toggle::Alpha => Toggle::Beta,
            Toggle::Beta => Toggle::Alpha,
        }
    }

    /// Two flips cancel: an even number of flips leaves the position as it
    /// was, an odd number leaves it as one flip does.
    pub proof fn lemma_flips_by_parity(self, count: nat)
        ensures
            count % 2 == 0 ==> self.flipped_times(count) == self,
            count % 2 == 1 ==> self.flipped_times(count) == self.flipped(),
        decreases count,
    {
        if count > 0 {
            self.lemma_flips_by_parity((count - 1) as nat);
        }
    }
}

impl ActorState<Toggle> for Toggle {
    type Query = ToggleQuery;

    type Update = ToggleUpdate;

    open spec fn answer(self, query: ToggleQuery) -> Option<Toggle> {
        match query {
            ToggleQuery::Report => Some(self),
            ToggleQuery::Observe => None,
        }
    }

    open spec fn updated(self, update: ToggleUpdate) -> Toggle {
        self.flipped()
    }

    open spec fn update_answer(self, update: ToggleUpdate) -> Option<Toggle> {
        Some(self.flipped())
    }

    fn inspect(&self, query: &ToggleQuery) -> (reply: Option<Toggle>) {
        match query {
            ToggleQuery::Report => Some(*self),
            ToggleQuery::Observe => None,
        }
    }

    fn mutate(&mut self, update: &ToggleUpdate) -> (reply: Option<Toggle>) {
        *self = self.flip();
        Some(*self)
    }
}

/// A run of commands leaves the switch where as many flips as the run holds
/// mutations leave it: where it began after an even number, in the other
/// position after an odd number. Inspections in between change nothing.
pub proof fn law_toggle_run(begin: Toggle, calls: Seq<Call<Toggle, Toggle>>)
    ensures
        run(begin, calls) == begin.flipped_times(mutations(calls)),
        mutations(calls) % 2 == 0 ==> run(begin, calls) == begin,
        mutations(calls) % 2 == 1 ==> run(begin, calls) == begin.flipped(),
    decreases calls.len(),
{
    if calls.len() > 0 {
        law_toggle_run(begin, calls.drop_last());
    }
    begin.lemma_flips_by_parity(mutations(calls));
}

impl Actor<Toggle, Toggle> {
    /// Queues one flip of the switch, without waiting for it. Tells the
    /// submitter nothing; a rejection is counted.
    pub fn toggle(&mut self)
        ensures
            final(self).sender() == old(self).sender(),
            final(self).rejected() == old(self).rejected() || final(self).rejected() == tallied(
                old(self).rejected(),
                false,
            ),
    {
        self.call_ref_mut(ToggleUpdate::Flip)
    }
}

} // verus!
