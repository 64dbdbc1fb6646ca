use state_actor::actor::Actor;
use state_actor::counter::{Counter, CounterQuery, CounterUpdate};
use state_actor::process::{Pause, Process};
use state_actor::state::ActorState;

#[test]
fn increments_from_many_handles_add_up() {
    let (mut process, actor) = Process::<Counter, u64>::new_with_state(Counter { value: 7 });
    let mut handles: Vec<Actor<Counter, u64>> = (0..4).map(|_| actor.clone()).collect();
    for _round in 0..10 {
        for handle in handles.iter_mut() {
            handle.call_ref_mut(CounterUpdate::Increment);
        }
    }
    let mut seen = actor.call_ref_reply(CounterQuery::Value).ok().unwrap();
    drop(handles);
    drop(actor);
    assert_eq!(process.start(usize::MAX), (Pause::Stopped, 41));
    assert_eq!(seen.poll(), Some(Ok(47)));
}

#[test]
fn an_increment_with_reply_answers_with_the_new_count() {
    let (mut process, actor) = Process::<Counter, u64>::new_with_state(Counter { value: 0 });
    let mut first = actor.call_ref_mut_reply(CounterUpdate::Increment).ok().unwrap();
    let mut second = actor.call_ref_mut_reply(CounterUpdate::Increment).ok().unwrap();
    assert_eq!(process.start(usize::MAX), (Pause::Idle, 2));
    assert_eq!(first.poll(), Some(Ok(1)));
    assert_eq!(second.poll(), Some(Ok(2)));
}

#[test]
fn the_count_stops_at_its_limit() {
    let mut counter = Counter { value: u64::MAX - 1 };
    assert_eq!(counter.mutate(&CounterUpdate::Increment), Some(u64::MAX));
    assert_eq!(counter.mutate(&CounterUpdate::Increment), Some(u64::MAX));
    assert_eq!(counter.inspect(&CounterQuery::Value), Some(u64::MAX));
    assert_eq!(counter, Counter { value: u64::MAX });
}
