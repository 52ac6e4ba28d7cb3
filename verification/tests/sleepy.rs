use poh_service::sleepy::{
    ShortLivedSleepyTickProducer, SleepyAction, SleepyEvent, SleepyTickProducer,
};
use std::time::Duration;

const TICK: Duration = Duration::from_micros(6250);
const PROCESS: SleepyAction = SleepyAction::ReadRecordReceiverAndProcess { timeout_ms: 0 };

fn run_sleepy(events: &[SleepyEvent]) -> Vec<SleepyAction> {
    let mut producer = SleepyTickProducer::new(TICK);
    let mut actions = Vec::new();
    for event in events {
        assert!(producer.is_ready_for(event));
        actions.push(producer.step(*event));
    }
    actions
}

/// Runs to the end, with the exit flag as `exit` says after each tick.
fn run_short_lived(count: u64, exit: &[bool]) -> Vec<SleepyAction> {
    let mut producer = ShortLivedSleepyTickProducer::new(TICK, count);
    let mut actions = Vec::new();
    let mut event = SleepyEvent::Begin;
    let mut looks = 0;
    loop {
        assert!(producer.is_ready_for(&event));
        let action = producer.step(event);
        actions.push(action);
        event = match action {
            SleepyAction::CheckExit => {
                looks += 1;
                SleepyEvent::Exit(exit[looks - 1])
            }
            SleepyAction::ReadRecordReceiverAndProcess { .. } => SleepyEvent::Processed,
            SleepyAction::Sleep(_) => SleepyEvent::Slept,
            SleepyAction::Tick => SleepyEvent::Ticked,
            SleepyAction::WarnExitIgnored => SleepyEvent::Warned,
            SleepyAction::Finish => break,
        };
    }
    assert_eq!(looks, exit.len());
    actions
}

fn count(actions: &[SleepyAction], wanted: SleepyAction) -> usize {
    actions.iter().filter(|action| **action == wanted).count()
}

#[test]
fn sleepy_exits_before_its_first_tick() {
    assert_eq!(
        run_sleepy(&[SleepyEvent::Begin, SleepyEvent::Exit(true)]),
        vec![SleepyAction::CheckExit, SleepyAction::Finish]
    );
}

#[test]
fn sleepy_ticks_until_exit() {
    assert_eq!(
        run_sleepy(&[
            SleepyEvent::Begin,
            SleepyEvent::Exit(false),
            SleepyEvent::Processed,
            SleepyEvent::Slept,
            SleepyEvent::Ticked,
            SleepyEvent::Exit(false),
            SleepyEvent::Processed,
            SleepyEvent::Slept,
            SleepyEvent::Ticked,
            SleepyEvent::Exit(true),
        ]),
        vec![
            SleepyAction::CheckExit,
            PROCESS,
            SleepyAction::Sleep(TICK),
            SleepyAction::Tick,
            SleepyAction::CheckExit,
            PROCESS,
            SleepyAction::Sleep(TICK),
            SleepyAction::Tick,
            SleepyAction::CheckExit,
            SleepyAction::Finish,
        ]
    );
}

#[test]
fn sleepy_looks_once_more_than_it_ticks() {
    let mut events = vec![SleepyEvent::Begin];
    for _ in 0..20 {
        events.extend([
            SleepyEvent::Exit(false),
            SleepyEvent::Processed,
            SleepyEvent::Slept,
            SleepyEvent::Ticked,
        ]);
    }
    events.push(SleepyEvent::Exit(true));
    let actions = run_sleepy(&events);
    assert_eq!(count(&actions, SleepyAction::CheckExit), 21);
    assert_eq!(count(&actions, PROCESS), 20);
    assert_eq!(count(&actions, SleepyAction::Sleep(TICK)), 20);
    assert_eq!(count(&actions, SleepyAction::Tick), 20);
    assert_eq!(count(&actions, SleepyAction::Finish), 1);
}

#[test]
fn sleepy_takes_only_answers() {
    let mut producer = SleepyTickProducer::new(TICK);
    assert!(!producer.is_ready_for(&SleepyEvent::Ticked));
    producer.step(SleepyEvent::Begin);
    assert!(!producer.is_ready_for(&SleepyEvent::Begin));
    producer.step(SleepyEvent::Exit(true));
    assert!(!producer.is_ready_for(&SleepyEvent::Exit(true)));
    assert!(!producer.is_ready_for(&SleepyEvent::Begin));
}

#[test]
fn short_lived_round() {
    assert_eq!(
        run_short_lived(1, &[false]),
        vec![
            PROCESS,
            SleepyAction::Sleep(TICK),
            SleepyAction::Tick,
            SleepyAction::CheckExit,
            SleepyAction::Finish,
        ]
    );
}

#[test]
fn short_lived_without_ticks_ends_at_once() {
    assert_eq!(run_short_lived(0, &[]), vec![SleepyAction::Finish]);
}

#[test]
fn short_lived_ignores_exit_and_warns_once() {
    let quiet = run_short_lived(4, &[false; 4]);
    assert_eq!(count(&quiet, SleepyAction::Tick), 4);
    assert_eq!(count(&quiet, SleepyAction::Sleep(TICK)), 4);
    assert_eq!(count(&quiet, PROCESS), 4);
    assert_eq!(count(&quiet, SleepyAction::CheckExit), 4);
    assert_eq!(count(&quiet, SleepyAction::WarnExitIgnored), 0);

    let warned = run_short_lived(4, &[false, true, false, true]);
    assert_eq!(count(&warned, SleepyAction::Tick), 4);
    assert_eq!(count(&warned, SleepyAction::WarnExitIgnored), 1);
    assert_eq!(warned[8], SleepyAction::WarnExitIgnored);

    let last = run_short_lived(2, &[false, true]);
    assert_eq!(
        last[last.len() - 3..],
        [
            SleepyAction::CheckExit,
            SleepyAction::WarnExitIgnored,
            SleepyAction::Finish
        ]
    );
}
