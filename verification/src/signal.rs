//! The messages of a plain stop-and-boop loop, and what the loop does on each.

use vstd::prelude::*;

verus! {

/// A message to the loop.
#[derive(Debug, Clone, Copy, PartialEq, Eq, Structural)]
pub enum Msg {
    /// End the loop; messages queued behind this one wait for the next run.
    Stop,
    /// Say "Boop" and go on.
    Boop,
}

/// What the loop does next.
#[derive(Debug, Clone, Copy, PartialEq, Eq, Structural)]
pub enum Reaction {
    /// Leave the loop.
    Halt,
    /// Say "Boop", then take the next message.
    Boop,
}

/// What the loop does on `msg`.
pub fn react(msg: Msg) -> (reaction: Reaction)
    ensures
        reaction == (match msg {
            Msg::Stop => Reaction::Halt,
            Msg::Boop => Reaction::Boop,
        }),
{
    match msg {
        Msg::Stop => Reaction::Halt,
        Msg::Boop => Reaction::Boop,
    }
}

} // verus!
