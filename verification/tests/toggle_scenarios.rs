use state_actor::actor::Actor;
use state_actor::error::Error;
use state_actor::process::{Pause, Process};
use state_actor::signal::{react, Msg, Reaction};
use state_actor::toggle::{Toggle, ToggleQuery, ToggleUpdate};

fn report(process: &mut Process<Toggle, Toggle>, actor: &Actor<Toggle, Toggle>) -> Toggle {
    let mut waiting = actor.call_ref_reply(ToggleQuery::Report).ok().unwrap();
    process.start(usize::MAX);
    waiting.poll().unwrap().ok().unwrap()
}

#[test]
fn four_toggles_return_to_alpha_and_a_fifth_gives_beta() {
    let (mut process, mut actor) = Process::<Toggle, Toggle>::new_with_state(Toggle::Alpha);
    for _ in 0..4 {
        actor.toggle();
    }
    assert_eq!(report(&mut process, &actor), Toggle::Alpha);
    actor.toggle();
    assert_eq!(report(&mut process, &actor), Toggle::Beta);
    assert_eq!(actor.rejections(), 0);
}

#[test]
fn toggles_from_two_handles_all_count() {
    let (mut process, mut actor) = Process::<Toggle, Toggle>::new_with_state(Toggle::Alpha);
    let mut other = actor.clone();
    for _ in 0..4 {
        actor.toggle();
        other.toggle();
    }
    other.toggle();
    assert_eq!(process.start(usize::MAX), (Pause::Idle, 9));
    assert_eq!(report(&mut process, &other), Toggle::Beta);
}

#[test]
fn first_inspection_of_fresh_state_replies_alpha_once() {
    let (mut process, actor) = Process::<Toggle, Toggle>::new_with_state(Toggle::Alpha);
    let mut waiting = actor.call_ref_reply(ToggleQuery::Report).ok().unwrap();
    assert_eq!(waiting.poll(), None);
    assert_eq!(process.start(usize::MAX), (Pause::Idle, 1));
    assert!(!waiting.is_settled());
    assert_eq!(waiting.poll(), Some(Ok(Toggle::Alpha)));
    assert!(waiting.is_settled());
    assert_eq!(waiting.poll(), None);
    assert_eq!(waiting.poll(), None);
    assert!(waiting.into_receiver().is_none());
}

#[test]
fn submission_after_the_process_is_gone_is_rejected() {
    let (mut process, mut actor) = Process::<Toggle, Toggle>::new_with_state(Toggle::Alpha);
    let mut kept = actor.clone();
    actor.toggle();
    assert_eq!(report(&mut process, &actor), Toggle::Beta);
    drop(actor);
    let mut last = kept.call_ref_reply(ToggleQuery::Report).ok().unwrap();
    assert_eq!(process.start(usize::MAX), (Pause::Idle, 1));
    drop(process);
    assert_eq!(kept.rejections(), 0);
    kept.toggle();
    assert_eq!(kept.rejections(), 1);
    kept.call_ref(ToggleQuery::Observe);
    assert_eq!(kept.rejections(), 2);
    kept.call_ref_mut(ToggleUpdate::Flip);
    assert_eq!(kept.rejections(), 3);
    assert!(matches!(kept.call_ref_reply(ToggleQuery::Report), Err(Error::NotSent)));
    assert!(matches!(kept.call_ref_mut_reply(ToggleUpdate::Flip), Err(Error::NotSent)));
    assert_eq!(last.poll(), Some(Ok(Toggle::Beta)));
}

#[test]
fn mutation_with_reply_answers_with_the_new_position() {
    let (mut process, actor) = Process::<Toggle, Toggle>::new_with_state(Toggle::Alpha);
    let mut first = actor.call_ref_mut_reply(ToggleUpdate::Flip).ok().unwrap();
    let mut second = actor.call_ref_mut_reply(ToggleUpdate::Flip).ok().unwrap();
    assert_eq!(process.start(usize::MAX), (Pause::Idle, 2));
    assert_eq!(first.poll(), Some(Ok(Toggle::Beta)));
    assert_eq!(second.poll(), Some(Ok(Toggle::Alpha)));
}

#[test]
fn inspection_leaves_the_state_alone() {
    let (mut process, mut actor) = Process::<Toggle, Toggle>::new_with_state(Toggle::Beta);
    actor.call_ref(ToggleQuery::Report);
    actor.call_ref(ToggleQuery::Observe);
    assert_eq!(process.start(usize::MAX), (Pause::Idle, 2));
    assert_eq!(report(&mut process, &actor), Toggle::Beta);
}

#[test]
fn an_operation_that_declines_gives_no_reply() {
    let (mut process, actor) = Process::<Toggle, Toggle>::new_with_state(Toggle::Alpha);
    let mut waiting = actor.call_ref_reply(ToggleQuery::Observe).ok().unwrap();
    assert_eq!(waiting.poll(), None);
    assert_eq!(process.start(usize::MAX), (Pause::Idle, 1));
    assert_eq!(waiting.poll(), Some(Err(Error::NoReply)));
}

#[test]
fn a_request_dropped_with_the_process_gives_no_reply() {
    let (process, actor) = Process::<Toggle, Toggle>::new_with_state(Toggle::Alpha);
    let mut waiting = actor.call_ref_reply(ToggleQuery::Report).ok().unwrap();
    drop(process);
    assert_eq!(waiting.poll(), Some(Err(Error::NoReply)));
}

#[test]
fn flip_moves_to_the_other_position() {
    assert_eq!(Toggle::Alpha.flip(), Toggle::Beta);
    assert_eq!(Toggle::Beta.flip(), Toggle::Alpha);
    assert_eq!(Toggle::Alpha.flip().flip(), Toggle::Alpha);
}

#[test]
fn stop_halts_the_loop_and_boop_goes_on() {
    assert_eq!(react(Msg::Stop), Reaction::Halt);
    assert_eq!(react(Msg::Boop), Reaction::Boop);
}
