//! Commands: one unit of deferred work against the state of a process.

use vstd::prelude::*;
use crate::channel::{open_reply, ReplySender};
use crate::reply::Pending;
use crate::state::ActorState;

verus! {

/// A command, built once by a submitter and consumed once by the process.
#[verifier::reject_recursive_types(State)]
#[verifier::reject_recursive_types(Reply)]
pub enum Call<State: ActorState<Reply>, Reply> {
    /// Read the state; nothing goes back to the submitter.
    Ref(State::Query),
    /// Change the state; nothing goes back to the submitter.
    RefMut(State::Update),
    /// Read the state and answer on the attached reply channel.
    RefReply(State::Query, ReplySender<Reply>),
    /// Change the state and answer on the attached reply channel.
    RefMutReply(State::Update, ReplySender<Reply>),
}

impl<State: ActorState<Reply>, Reply> Call<State, Reply> {
    /// An inspection by `query` that sends nothing back.
    pub fn inspect(query: State::Query) -> (call: Self)
        ensures
            call == Call::<State, Reply>::Ref(query),
    {
        Call::Ref(query)
    }

    /// A mutation by `update` that sends nothing back.
    pub fn mutate(update: State::Update) -> (call: Self)
        ensures
            call == Call::<State, Reply>::RefMut(update),
    {
        Call::RefMut(update)
    }

    /// An inspection by `query` bound to a fresh reply channel, with the
    /// requester's end of that channel.
    pub fn inspect_with_reply(query: State::Query) -> (pair: (Self, Pending<Reply>))
        ensures
            pair.0 is RefReply,
            pair.0->RefReply_0 == query,
            !pair.1.settled(),
    {
        let (reply_sender, reply_receiver) = open_reply();
        (Call::RefReply(query, reply_sender), Pending::new(reply_receiver))
    }

    /// A mutation by `update` bound to a fresh reply channel, with the
    /// requester's end of that channel.
    pub fn mutate_with_reply(update: State::Update) -> (pair: (Self, Pending<Reply>))
        ensures
            pair.0 is RefMutReply,
            pair.0->RefMutReply_0 == update,
            !pair.1.settled(),
    {
        let (reply_sender, reply_receiver) = open_reply();
        (Call::RefMutReply(update, reply_sender), Pending::new(reply_receiver))
    }
}

/// What the process owes a reply channel once a command has been applied.
#[verifier::reject_recursive_types(Reply)]
pub enum Effect<Reply> {
    /// The command carried no reply channel.
    Nothing,
    /// Send this value on this channel.
    Send(ReplySender<Reply>, Reply),
    /// The operation declined to reply: close the channel without a value.
    Discard(ReplySender<Reply>),
}

/// The state that a process holds after it has applied `call` to `state`.
pub open spec fn state_after<State: ActorState<Reply>, Reply>(
    state: State,
    call: Call<State, Reply>,
) -> State {
    match call {
        Call::Ref(_) => state,
        Call::RefMut(update) => state.updated(update),
        Call::RefReply(_, _) => state,
        Call::RefMutReply(update, _) => state.updated(update),
    }
}

/// The value that applying `call` to `state` produces for the requester, if
/// the command asks for one and the operation gives one.
pub open spec fn reply_for<State: ActorState<Reply>, Reply>(
    state: State,
    call: Call<State, Reply>,
) -> Option<Reply> {
    match call {
        Call::Ref(_) => None,
        Call::RefMut(_) => None,
        Call::RefReply(query, _) => state.answer(query),
        Call::RefMutReply(update, _) => state.update_answer(update),
    }
}

/// The reply channel that `call` carries, if any.
pub open spec fn reply_channel<State: ActorState<Reply>, Reply>(
    call: Call<State, Reply>,
) -> Option<ReplySender<Reply>> {
    match call {
        Call::Ref(_) => None,
        Call::RefMut(_) => None,
        Call::RefReply(_, sender) => Some(sender),
        Call::RefMutReply(_, sender) => Some(sender),
    }
}

/// What is owed to the reply channel of `call` when it is applied to `state`:
/// nothing without a channel, else exactly one of a send and a close.
pub open spec fn effect_of<State: ActorState<Reply>, Reply>(
    state: State,
    call: Call<State, Reply>,
) -> Effect<Reply> {
    match reply_channel(call) {
        None => Effect::Nothing,
        Some(sender) => match reply_for(state, call) {
            Some(value) => Effect::Send(sender, value),
            None => Effect::Discard(sender),
        },
    }
}

/// The state after `calls` have been applied to `state` one at a time, the
/// first of the sequence first.
pub open spec fn run<State: ActorState<Reply>, Reply>(
    state: State,
    calls: Seq<Call<State, Reply>>,
) -> State
    decreases calls.len(),
{
    if calls.len() == 0 {
        state
    } else {
        state_after(run(state, calls.drop_last()), calls.last())
    }
}

/// How many commands of `calls` are mutations, with or without a reply.
pub open spec fn mutations<State: ActorState<Reply>, Reply>(
    calls: Seq<Call<State, Reply>>,
) -> nat
    decreases calls.len(),
{
    if calls.len() == 0 {
        0
    } else if calls.last() is RefMut || calls.last() is RefMutReply {
        mutations(calls.drop_last()) + 1
    } else {
        mutations(calls.drop_last())
    }
}

} // verus!
