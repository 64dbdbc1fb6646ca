//! What holds of any run of commands, whatever the state type.

use vstd::prelude::*;
use vstd::seq_lib::{to_multiset_contains, to_multiset_len, to_multiset_remove};
use crate::call::{effect_of, reply_channel, reply_for, run, state_after, Call, Effect};
use crate::state::ActorState;

verus! {

/// Applying one more command after a run is applying it to the state that the
/// run left.
pub proof fn lemma_run_push<State: ActorState<Reply>, Reply>(
    state: State,
    calls: Seq<Call<State, Reply>>,
    call: Call<State, Reply>,
)
    ensures
        run(state, calls.push(call)) == state_after(run(state, calls), call),
{
    assert(calls.push(call).drop_last() == calls);
}

/// A run can be cut anywhere: the second part starts from the state that the
/// first part left.
pub proof fn lemma_run_concat<State: ActorState<Reply>, Reply>(
    state: State,
    first: Seq<Call<State, Reply>>,
    second: Seq<Call<State, Reply>>,
)
    ensures
        run(state, first + second) == run(run(state, first), second),
    decreases second.len(),
{
    if second.len() == 0 {
        assert(first + second == first);
    } else {
        lemma_run_concat(state, first, second.drop_last());
        assert((first + second).drop_last() == first + second.drop_last());
        assert((first + second).last() == second.last());
    }
}

/// Order of submission is order of application. When one submitter queues
/// `earlier` and then `later`, then whatever was queued before them and
/// whatever other submitters got in between, `later` meets a state to which
/// `earlier` has already been applied, and the reply to `later` is computed
/// on that state.
pub proof fn law_submission_order<State: ActorState<Reply>, Reply>(
    origin: State,
    before: Seq<Call<State, Reply>>,
    earlier: Call<State, Reply>,
    between: Seq<Call<State, Reply>>,
    later: Call<State, Reply>,
)
    ensures
        run(origin, before.push(earlier) + between.push(later)) == state_after(
            run(state_after(run(origin, before), earlier), between),
            later,
        ),
        run(origin, before.push(earlier) + between) == run(
            state_after(run(origin, before), earlier),
            between,
        ),
{
    lemma_run_push(origin, before, earlier);
    lemma_run_concat(origin, before.push(earlier), between);
    lemma_run_concat(origin, before.push(earlier), between.push(later));
    lemma_run_push(run(origin, before.push(earlier)), between, later);
}

/// Commands are applied whole, one after the other: the state after a run is
/// reached through the states after each of its prefixes, each one command
/// further than the last, so that every command of the run acts on the full
/// result of all that came before it, and none is lost.
pub proof fn law_serial_application<State: ActorState<Reply>, Reply>(
    origin: State,
    calls: Seq<Call<State, Reply>>,
    position: int,
)
    requires
        0 <= position < calls.len(),
    ensures
        run(origin, calls.take(position + 1)) == state_after(
            run(origin, calls.take(position)),
            calls[position],
        ),
        run(origin, calls) == run(run(origin, calls.take(position + 1)), calls.skip(position + 1)),
{
    assert(calls.take(position + 1) == calls.take(position).push(calls[position]));
    lemma_run_push(origin, calls.take(position), calls[position]);
    assert(calls == calls.take(position + 1) + calls.skip(position + 1));
    lemma_run_concat(origin, calls.take(position + 1), calls.skip(position + 1));
}

/// Whether two commands act on every state alike in either order, as two
/// increments do.
#[verifier::opaque]
pub open spec fn commute<State: ActorState<Reply>, Reply>(
    one: Call<State, Reply>,
    other: Call<State, Reply>,
) -> bool {
    forall|state: State|
        state_after(#[trigger] state_after(state, one), other) == state_after(
            state_after(state, other),
            one,
        )
}

/// Commands that commute may be applied to a state in either order.
pub proof fn lemma_commute_on<State: ActorState<Reply>, Reply>(
    one: Call<State, Reply>,
    other: Call<State, Reply>,
    state: State,
)
    requires
        commute(one, other),
    ensures
        state_after(state_after(state, one), other) == state_after(
            state_after(state, other),
            one,
        ),
{
    reveal(commute);
}

/// Whether any two commands of `calls` commute.
pub open spec fn all_commute<State: ActorState<Reply>, Reply>(
    calls: Seq<Call<State, Reply>>,
) -> bool {
    forall|i: int, j: int|
        0 <= i < calls.len() && 0 <= j < calls.len() ==> commute(
            #[trigger] calls[i],
            #[trigger] calls[j],
        )
}

/// Among commands that commute, one may be taken out of its place in a run
/// and applied last.
pub proof fn lemma_run_apply_last<State: ActorState<Reply>, Reply>(
    origin: State,
    calls: Seq<Call<State, Reply>>,
    position: int,
)
    requires
        0 <= position < calls.len(),
        all_commute(calls),
    ensures
        run(origin, calls) == state_after(run(origin, calls.remove(position)), calls[position]),
    decreases calls.len(),
{
    if position == calls.len() - 1 {
        assert(calls.remove(position) == calls.drop_last());
    } else {
        let front = calls.drop_last();
        let last = calls.last();
        assert(all_commute(front)) by {
            assert forall|i: int, j: int|
                0 <= i < front.len() && 0 <= j < front.len() implies commute(
                #[trigger] front[i],
                #[trigger] front[j],
            ) by {
                assert(commute(calls[i], calls[j]));
            }
        }
        lemma_run_apply_last(origin, front, position);
        let rest = front.remove(position);
        assert(calls.remove(position) == rest.push(last));
        lemma_run_push(origin, rest, last);
        assert(commute(calls[position], calls[calls.len() - 1]));
        lemma_commute_on(calls[position], last, run(origin, rest));
    }
}

/// No update is lost and the order among commuting updates does not matter:
/// when the commands of a run commute with one another, as increments do,
/// every other run of the same commands, each as often as in the first,
/// ends in the same state. So however the queue interleaved what several
/// handles submitted, the state is what any serial order of all of it gives.
pub proof fn law_any_serial_order<State: ActorState<Reply>, Reply>(
    origin: State,
    one: Seq<Call<State, Reply>>,
    other: Seq<Call<State, Reply>>,
)
    requires
        all_commute(one),
        one.to_multiset() == other.to_multiset(),
    ensures
        run(origin, one) == run(origin, other),
    decreases one.len(),
{
    to_multiset_len(one);
    to_multiset_len(other);
    if one.len() > 0 {
        let call = one.last();
        assert(one.contains(call)) by {
            assert(one[one.len() - 1] == call);
        }
        to_multiset_contains(one, call);
        to_multiset_contains(other, call);
        let position = choose|k: int| 0 <= k < other.len() && other[k] == call;
        assert(all_commute(other)) by {
            assert forall|i: int, j: int|
                0 <= i < other.len() && 0 <= j < other.len() implies commute(
                #[trigger] other[i],
                #[trigger] other[j],
            ) by {
                assert(other.contains(other[i]));
                assert(other.contains(other[j]));
                to_multiset_contains(other, other[i]);
                to_multiset_contains(one, other[i]);
                to_multiset_contains(other, other[j]);
                to_multiset_contains(one, other[j]);
                let a = choose|a: int| 0 <= a < one.len() && one[a] == other[i];
                let b = choose|b: int| 0 <= b < one.len() && one[b] == other[j];
                assert(commute(one[a], one[b]));
            }
        }
        lemma_run_apply_last(origin, other, position);
        to_multiset_remove(one, one.len() - 1);
        to_multiset_remove(other, position);
        assert(one.remove(one.len() - 1) == one.drop_last());
        assert(all_commute(one.drop_last())) by {
            assert forall|i: int, j: int|
                0 <= i < one.drop_last().len() && 0 <= j < one.drop_last().len() implies commute(
                #[trigger] one.drop_last()[i],
                #[trigger] one.drop_last()[j],
            ) by {
                assert(commute(one[i], one[j]));
            }
        }
        law_any_serial_order(origin, one.drop_last(), other.remove(position));
    }
}

/// A command settles its reply channel exactly once or has none: with a
/// channel, the process owes it either one send, of the value that the
/// operation gave on the state it met, or one close; without a channel it
/// owes nothing. A command that only reads leaves the state as it was.
pub proof fn law_one_settlement<State: ActorState<Reply>, Reply>(
    state: State,
    call: Call<State, Reply>,
)
    ensures
        reply_channel(call) is None <==> effect_of(state, call) is Nothing,
        reply_channel(call) is Some && reply_for(state, call) is Some <==> effect_of(
            state,
            call,
        ) is Send,
        reply_channel(call) is Some && reply_for(state, call) is None <==> effect_of(
            state,
            call,
        ) is Discard,
        effect_of(state, call) is Send ==> effect_of(state, call) == Effect::Send(
            reply_channel(call).unwrap(),
            reply_for(state, call).unwrap(),
        ),
        effect_of(state, call) is Discard ==> effect_of(state, call) == Effect::<Reply>::Discard(
            reply_channel(call).unwrap(),
        ),
        call is Ref || call is RefReply ==> state_after(state, call) == state,
{
}

} // verus!
