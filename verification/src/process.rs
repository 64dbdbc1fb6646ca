//! The process: sole owner of the state and sole consumer of the queue.

use vstd::prelude::*;
use crate::actor::Actor;
use crate::call::{effect_of, run, state_after, Call, Effect};
use crate::channel::{dequeue, open_queue, send_reply, QueueReceiver, QueueVacant};
use crate::state::ActorState;

verus! {

/// Owns a state and the consuming end of a command queue, and applies the
/// queued commands to the state one at a time.
///
/// Beside the state it records, for proofs only, the state it began with,
/// the commands it has applied since, and what became of the reply of each
/// command that it settled itself.
#[verifier::reject_recursive_types(State)]
#[verifier::reject_recursive_types(Reply)]
pub struct Process<State: ActorState<Reply>, Reply> {
    state: State,
    receiver: QueueReceiver<Call<State, Reply>>,
    origin: Ghost<State>,
    applied: Ghost<Seq<Call<State, Reply>>>,
    settled: Ghost<Seq<Delivery>>,
}

/// What became of the reply that a command asked for.
#[derive(Debug, Clone, Copy, PartialEq, Eq, Structural)]
pub enum Delivery {
    /// The command carried no reply channel.
    NotRequested,
    /// The value was handed to the reply channel.
    Replied,
    /// The requester had dropped its end; the value was thrown away.
    Abandoned,
    /// The operation gave no value; the channel was closed, and the requester
    /// sees `NoReply`.
    Declined,
}

/// Why a run of the process came to rest.
#[derive(Debug, Clone, Copy, PartialEq, Eq, Structural)]
pub enum Pause {
    /// The queue is empty, and handles that could fill it remain.
    Idle,
    /// The queue is empty and every handle is gone: nothing will ever come.
    Stopped,
    /// The run applied as many commands as it was allowed.
    Spent,
}

/// What became of a value that was handed to a reply channel: the channel
/// took it, or gave it back because the requester had gone.
pub fn sent_delivery<Reply>(sent: Result<(), Reply>) -> (delivery: Delivery)
    ensures
        delivery == (match sent {
            Ok(_) => Delivery::Replied,
            Err(_) => Delivery::Abandoned,
        }),
{
    match sent {
        Ok(_) => Delivery::Replied,
        Err(_) => Delivery::Abandoned,
    }
}

/// Whether `delivery` is a way in which `effect` can have been carried out:
/// nothing was owed and nothing done, a close was owed and made, or a send
/// was owed and made, whether or not the requester was still there.
pub open spec fn settles<Reply>(effect: Effect<Reply>, delivery: Delivery) -> bool {
    match effect {
        Effect::Nothing => delivery == Delivery::NotRequested,
        Effect::Discard(_) => delivery == Delivery::Declined,
        Effect::Send(_, _) => delivery == Delivery::Replied || delivery == Delivery::Abandoned,
    }
}

/// Carries out what is owed to a reply channel. A send can meet a requester
/// that has gone; that harms nothing, and shows in the result.
pub fn deliver<Reply>(effect: Effect<Reply>) -> (delivery: Delivery)
    ensures
        settles(effect, delivery),
{
    match effect {
        Effect::Nothing => Delivery::NotRequested,
        Effect::Discard(_) => Delivery::Declined,
        Effect::Send(sender, value) => sent_delivery(send_reply(sender, value)),
    }
}

impl<State: ActorState<Reply>, Reply> Process<State, Reply> {
    /// The state as it stands.
    pub closed spec fn state(&self) -> State {
        self.state
    }

    /// The state that the process was created with.
    pub closed spec fn origin(&self) -> State {
        self.origin@
    }

    /// The commands applied so far, oldest first.
    pub closed spec fn applied(&self) -> Seq<Call<State, Reply>> {
        self.applied@
    }

    /// The consuming end of the queue.
    pub closed spec fn queue(&self) -> QueueReceiver<Call<State, Reply>> {
        self.receiver
    }

    /// What became of the reply of each command that the process settled,
    /// oldest first.
    pub closed spec fn deliveries(&self) -> Seq<Delivery> {
        self.settled@
    }

    /// The state is what the applied commands, in their order, make of the
    /// state that the process began with.
    pub open spec fn consistent(&self) -> bool {
        self.state() == run(self.origin(), self.applied())
    }

    /// What the command at `position` of the applied ones owed its reply
    /// channel: its effect on the state that the commands before it had made.
    pub open spec fn owed(&self, position: int) -> Effect<Reply> {
        effect_of(run(self.origin(), self.applied().take(position)), self.applied()[position])
    }

    /// Every applied command has had its reply channel settled, once and by
    /// the process: one delivery stands for each command, and it carries out
    /// what that command owed.
    pub open spec fn answered(&self) -> bool {
        &&& self.deliveries().len() == self.applied().len()
        &&& forall|position: int|
            0 <= position < self.applied().len() ==> settles(
                #[trigger] self.owed(position),
                self.deliveries()[position],
            )
    }

    /// Whether every command is answered depends on the records alone, not on
    /// the state or the queue.
    pub proof fn lemma_answered_by_records(&self, other: &Self)
        requires
            self.answered(),
            other.origin() == self.origin(),
            other.applied() == self.applied(),
            other.deliveries() == self.deliveries(),
        ensures
            other.answered(),
    {
        assert forall|position: int| 0 <= position < other.applied().len() implies settles(
            #[trigger] other.owed(position),
            other.deliveries()[position],
        ) by {
            assert(other.owed(position) == self.owed(position));
        }
    }

    /// A process that owns `state`, with the first handle on its queue.
    pub fn new_with_state(state: State) -> (pair: (Self, Actor<State, Reply>))
        ensures
            pair.0.state() == state,
            pair.0.origin() == state,
            pair.0.applied() == Seq::<Call<State, Reply>>::empty(),
            pair.0.deliveries() == Seq::<Delivery>::empty(),
            pair.0.consistent(),
            pair.0.answered(),
    {
        let (sender, receiver) = open_queue();
        let ghost origin = state;
        (
            Self {
                state,
                receiver,
                origin: Ghost(origin),
                applied: Ghost(Seq::empty()),
                settled: Ghost(Seq::empty()),
            },
            Actor::new_with_sender(sender),
        )
    }

    /// Applies one command to the state and says what is owed to its reply
    /// channel. Touches nothing but the state, and settles nothing: the reply
    /// is in the hands of the caller.
    pub fn step(&mut self, call: Call<State, Reply>) -> (effect: Effect<Reply>)
        ensures
            final(self).state() == state_after(old(self).state(), call),
            effect == effect_of(old(self).state(), call),
            final(self).applied() == old(self).applied().push(call),
            final(self).deliveries() == old(self).deliveries(),
            final(self).origin() == old(self).origin(),
            final(self).queue() == old(self).queue(),
            old(self).consistent() ==> final(self).consistent(),
    {
        proof {
            assert(old(self).applied().push(call).drop_last() == old(self).applied());
        }
        self.applied = Ghost(self.applied@.push(call));
        match call {
            Call::Ref(query) => {
                let _ = self.state.inspect(&query);
                Effect::Nothing
            },
            Call::RefMut(update) => {
                let _ = self.state.mutate(&update);
                Effect::Nothing
            },
            Call::RefReply(query, sender) => {
                match self.state.inspect(&query) {
                    Some(value) => Effect::Send(sender, value),
                    None => Effect::Discard(sender),
                }
            },
            Call::RefMutReply(update, sender) => {
                match self.state.mutate(&update) {
                    Some(value) => Effect::Send(sender, value),
                    None => Effect::Discard(sender),
                }
            },
        }
    }

    /// Applies one command to the state and settles its reply channel before
    /// returning.
    pub fn handle(&mut self, call: Call<State, Reply>) -> (delivery: Delivery)
        ensures
            final(self).state() == state_after(old(self).state(), call),
            final(self).applied() == old(self).applied().push(call),
            final(self).deliveries() == old(self).deliveries().push(delivery),
            final(self).origin() == old(self).origin(),
            final(self).queue() == old(self).queue(),
            settles(effect_of(old(self).state(), call), delivery),
            old(self).consistent() ==> final(self).consistent(),
            old(self).consistent() && old(self).answered() ==> final(self).answered(),
    {
        let effect = self.step(call);
        let delivery = deliver(effect);
        self.settled = Ghost(self.settled@.push(delivery));
        proof {
            if old(self).consistent() && old(self).answered() {
                let count = old(self).applied().len() as int;
                assert forall|position: int| 0 <= position < self.applied().len() implies settles(
                    #[trigger] self.owed(position),
                    self.deliveries()[position],
                ) by {
                    if position < count {
                        assert(self.applied().take(position) == old(self).applied().take(position));
                        assert(self.owed(position) == old(self).owed(position));
                    } else {
                        assert(self.applied().take(position) == old(self).applied());
                    }
                }
            }
        }
        delivery
    }

    /// Takes in what one look at the queue gave: a command is applied and
    /// the run goes on; an empty queue ends the run, as `Stopped` when no
    /// handle is left to fill it and as `Idle` otherwise.
    pub fn absorb(
        &mut self,
        polled: Result<Call<State, Reply>, QueueVacant>,
    ) -> (pause: Option<Pause>)
        ensures
            final(self).origin() == old(self).origin(),
            final(self).queue() == old(self).queue(),
            old(self).consistent() ==> final(self).consistent(),
            old(self).consistent() && old(self).answered() ==> final(self).answered(),
            polled is Ok ==> pause is None,
            polled is Ok ==> final(self).state() == state_after(old(self).state(), polled->Ok_0),
            polled is Ok ==> final(self).applied() == old(self).applied().push(polled->Ok_0),
            polled is Err ==> final(self).state() == old(self).state(),
            polled is Err ==> final(self).applied() == old(self).applied(),
            polled is Err ==> final(self).deliveries() == old(self).deliveries(),
            polled is Err && polled->Err_0 == QueueVacant::Empty ==> pause == Some(Pause::Idle),
            polled is Err && polled->Err_0 == QueueVacant::Disconnected ==> pause == Some(
                Pause::Stopped,
            ),
    {
        match polled {
            Ok(call) => {
                let _ = self.handle(call);
                None
            },
            Err(QueueVacant::Empty) => Some(Pause::Idle),
            Err(QueueVacant::Disconnected) => Some(Pause::Stopped),
        }
    }

    /// Applies queued commands in the order in which the queue yields them,
    /// without ever waiting, until the queue is empty, or empty with every
    /// handle gone, or `budget` commands have been applied. Commands that were
    /// queued before the last handle went are still applied. Returns why the
    /// run ended and how many commands it applied.
    pub fn start(&mut self, budget: usize) -> (end: (Pause, usize))
        ensures
            end.1 <= budget,
            end.0 == Pause::Spent <==> end.1 == budget,
            final(self).applied().len() == old(self).applied().len() + end.1,
            final(self).applied().subrange(0, old(self).applied().len() as int) == old(
                self,
            ).applied(),
            final(self).state() == run(
                old(self).state(),
                final(self).applied().skip(old(self).applied().len() as int),
            ),
            final(self).origin() == old(self).origin(),
            old(self).consistent() ==> final(self).consistent(),
            old(self).consistent() && old(self).answered() ==> final(self).answered(),
    {
        let ghost before = self.applied@.len() as int;
        let mut handled: usize = 0;
        proof {
            assert(self.applied().skip(before) == Seq::<Call<State, Reply>>::empty());
            assert(self.applied().subrange(0, before) == old(self).applied());
        }
        while handled < budget
            invariant
                handled <= budget,
                before == old(self).applied().len(),
                self.applied().len() == before + handled,
                self.applied().subrange(0, before) == old(self).applied(),
                self.state() == run(old(self).state(), self.applied().skip(before)),
                self.origin() == old(self).origin(),
                old(self).consistent() ==> self.consistent(),
                old(self).consistent() && old(self).answered() ==> self.answered(),
            decreases budget - handled,
        {
            let ghost earlier = self.applied();
            let ghost waiting = *self;
            let polled = dequeue(&mut self.receiver);
            proof {
                if waiting.answered() {
                    waiting.lemma_answered_by_records(&*self);
                }
            }
            match self.absorb(polled) {
                None => {
                    handled = handled + 1;
                    proof {
                        let call = polled->Ok_0;
                        assert(self.applied().skip(before) == earlier.skip(before).push(call));
                        assert(self.applied().skip(before).drop_last() == earlier.skip(before));
                        assert(self.applied().subrange(0, before) == earlier.subrange(0, before));
                    }
                },
                Some(pause) => {
                    return (pause, handled);
                },
            }
        }
        (Pause::Spent, handled)
    }

    /// The consuming end of the queue, for a caller that waits on it and hands
    /// each command it receives to `handle`. What is lent is the process's own
    /// queue end: it is handed out as it stands, and as the caller leaves it,
    /// so the process keeps it. The state and the record of applied commands
    /// are out of the borrower's reach.
    pub fn inbox(&mut self) -> (receiver: &mut QueueReceiver<Call<State, Reply>>)
        ensures
            *receiver == old(self).queue(),
            final(self).queue() == *final(receiver),
            final(self).state() == old(self).state(),
            final(self).applied() == old(self).applied(),
            final(self).deliveries() == old(self).deliveries(),
            final(self).origin() == old(self).origin(),
    {
        &mut self.receiver
    }
}

} // verus!
