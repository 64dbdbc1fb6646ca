//! Errors reported to a requester that waits for a reply.

use vstd::prelude::*;

verus! {

/// Why a request produced no reply value.
#[derive(Debug, Clone, Copy, PartialEq, Eq, Structural)]
pub enum Error {
    /// The command could not be queued: the process is gone.
    NotSent,
    /// The command was queued, but its reply channel closed without a value.
    NoReply,
}

} // verus!
