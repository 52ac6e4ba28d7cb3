//! What holds of every run of the tick producers that sleep.
use crate::sleepy::{
    ShortLivedSleepyTickProducer, SleepyAction, SleepyEvent, SleepyPhase, SleepyTickProducer,
    RECORD_TIMEOUT_MS,
};
use crate::trace::count;
use std::time::Duration;
use vstd::prelude::*;

verus! {

impl SleepyTickProducer {
    /// The producer after it took `events` one by one.
    pub open spec fn after(self, events: Seq<SleepyEvent>) -> SleepyTickProducer
        decreases events.len(),
    {
        if events.len() == 0 {
            self
        } else {
            self.after(events.drop_last()).next(events.last()).0
        }
    }

    /// The actions that the producer asked for while it took `events`, one for each of them.
    pub open spec fn actions(self, events: Seq<SleepyEvent>) -> Seq<SleepyAction>
        decreases events.len(),
    {
        if events.len() == 0 {
            Seq::empty()
        } else {
            self.actions(events.drop_last()).push(
                self.after(events.drop_last()).next(events.last()).1,
            )
        }
    }

    /// Each of `events` answered the action before it.
    pub open spec fn accepts_all(self, events: Seq<SleepyEvent>) -> bool
        decreases events.len(),
    {
        events.len() == 0 || {
            &&& self.accepts_all(events.drop_last())
            &&& self.after(events.drop_last()).accepts(events.last())
        }
    }
}

impl ShortLivedSleepyTickProducer {
    /// The producer after it took `events` one by one.
    pub open spec fn after(self, events: Seq<SleepyEvent>) -> ShortLivedSleepyTickProducer
        decreases events.len(),
    {
        if events.len() == 0 {
            self
        } else {
            self.after(events.drop_last()).next(events.last()).0
        }
    }

    /// The actions that the producer asked for while it took `events`, one for each of them.
    pub open spec fn actions(self, events: Seq<SleepyEvent>) -> Seq<SleepyAction>
        decreases events.len(),
    {
        if events.len() == 0 {
            Seq::empty()
        } else {
            self.actions(events.drop_last()).push(
                self.after(events.drop_last()).next(events.last()).1,
            )
        }
    }

    /// Each of `events` answered the action before it.
    pub open spec fn accepts_all(self, events: Seq<SleepyEvent>) -> bool
        decreases events.len(),
    {
        events.len() == 0 || {
            &&& self.accepts_all(events.drop_last())
            &&& self.after(events.drop_last()).accepts(events.last())
        }
    }
}

/// Whether `action` is a sleep of another length than `duration`.
pub open spec fn is_other_sleep(action: SleepyAction, duration: Duration) -> bool {
    action matches SleepyAction::Sleep(slept) && slept != duration
}

/// Whether `action` waits for requests.
pub open spec fn is_wait(action: SleepyAction) -> bool {
    action matches SleepyAction::ReadRecordReceiverAndProcess { timeout_ms } && timeout_ms != 0
}

/// The producer that runs until it is told to exit ends when the exit flag is found set, and only
/// then. It makes one tick for each time that it finds the flag not set, each after a look at the
/// requests and a sleep of the length of a tick. It looks at the flag once for each answer, which is
/// once more than it makes rounds.
pub proof fn law_sleepy_ticks_until_exit(start: SleepyTickProducer, events: Seq<SleepyEvent>)
    requires
        start.phase is Entering,
        start.accepts_all(events),
    ensures
        !(start.after(events).phase is Warning),
        start.after(events).phase is Finished <==> events.len() > 0 && events.last()
            == SleepyEvent::Exit(true),
        start.after(events).target_tick_duration == start.target_tick_duration,
        start.actions(events).len() == events.len(),
        count(start.actions(events), |action: SleepyAction| action is Finish) == (if start.after(
            events,
        ).phase is Finished {
            1nat
        } else {
            0nat
        }),
        count(start.actions(events), |action: SleepyAction| action is CheckExit) == count(
            events,
            |event: SleepyEvent| event is Exit,
        ) + (if start.after(events).phase is CheckingExit {
            1nat
        } else {
            0nat
        }),
        count(events, |event: SleepyEvent| event is Exit) == count(
            events,
            |event: SleepyEvent| event == SleepyEvent::Exit(false),
        ) + (if start.after(events).phase is Finished {
            1nat
        } else {
            0nat
        }),
        count(events, |event: SleepyEvent| event == SleepyEvent::Exit(false)) == count(
            start.actions(events),
            |action: SleepyAction|
                action == (SleepyAction::ReadRecordReceiverAndProcess {
                    timeout_ms: RECORD_TIMEOUT_MS,
                }),
        ),
        count(events, |event: SleepyEvent| event == SleepyEvent::Exit(false)) == count(
            start.actions(events),
            |action: SleepyAction| action == SleepyAction::Sleep(start.target_tick_duration),
        ) + (if start.after(events).phase is Processing {
            1nat
        } else {
            0nat
        }),
        count(events, |event: SleepyEvent| event == SleepyEvent::Exit(false)) == count(
            start.actions(events),
            |action: SleepyAction| action is Tick,
        ) + (if start.after(events).phase is Processing || start.after(events).phase is Sleeping {
            1nat
        } else {
            0nat
        }),
        count(
            start.actions(events),
            |action: SleepyAction| is_other_sleep(action, start.target_tick_duration),
        ) == 0,
        count(start.actions(events), |action: SleepyAction| is_wait(action)) == 0,
    decreases events.len(),
{
    if events.len() > 0 {
        let before = events.drop_last();
        law_sleepy_ticks_until_exit(start, before);
        assert(start.actions(events).drop_last() =~= start.actions(before));
    }
}

/// A round of the producer that runs until it is told to exit: one look at the requests, which
/// waits for nothing, then the sleep, then the tick, and then the exit flag again.
pub proof fn law_sleepy_round(producer: SleepyTickProducer)
    requires
        producer.phase is CheckingExit,
    ensures
        ({
            let events = seq![
                SleepyEvent::Exit(false),
                SleepyEvent::Processed,
                SleepyEvent::Slept,
                SleepyEvent::Ticked,
            ];
            &&& producer.accepts_all(events)
            &&& producer.after(events) == producer
            &&& producer.actions(events) == seq![
                SleepyAction::ReadRecordReceiverAndProcess { timeout_ms: 0 },
                SleepyAction::Sleep(producer.target_tick_duration),
                SleepyAction::Tick,
                SleepyAction::CheckExit,
            ]
        }),
{
    reveal_with_fuel(SleepyTickProducer::after, 5);
    reveal_with_fuel(SleepyTickProducer::actions, 5);
    reveal_with_fuel(SleepyTickProducer::accepts_all, 5);
    let events = seq![
        SleepyEvent::Exit(false),
        SleepyEvent::Processed,
        SleepyEvent::Slept,
        SleepyEvent::Ticked,
    ];
    let first = events.drop_last().drop_last().drop_last();
    assert(first =~= seq![SleepyEvent::Exit(false)]);
    assert(first.drop_last() =~= Seq::<SleepyEvent>::empty());
}

/// The producer of a number of ticks makes that number of ticks, whatever the exit flag says: at
/// any time the ticks made and the ticks left add up to it, none is left at the end, and there is
/// no end before that. Each tick comes after one look at the requests, which waits for nothing, and
/// one sleep of the length of a tick. The flag is looked at after each tick.
pub proof fn law_short_lived_makes_all_ticks(
    target_tick_duration: Duration,
    target_tick_count: u64,
    events: Seq<SleepyEvent>,
)
    requires
        ShortLivedSleepyTickProducer::initial(
            target_tick_duration,
            target_tick_count,
        ).accepts_all(events),
    ensures
        ({
            let start = ShortLivedSleepyTickProducer::initial(
                target_tick_duration,
                target_tick_count,
            );
            let now = start.after(events);
            let actions = start.actions(events);
            let ticked = count(events, |event: SleepyEvent| event is Ticked);
            let ticks = count(actions, |action: SleepyAction| action is Tick);
            &&& now.well_formed()
            &&& now.target_tick_duration == target_tick_duration
            &&& actions.len() == events.len()
            &&& ticked + now.ticks_left == target_tick_count
            &&& ticks == ticked + (if now.phase is Ticking {
                1nat
            } else {
                0nat
            })
            &&& ticks <= target_tick_count
            &&& count(
                actions,
                |action: SleepyAction| action == SleepyAction::Sleep(target_tick_duration),
            ) == ticks + (if now.phase is Sleeping {
                1nat
            } else {
                0nat
            })
            &&& count(
                actions,
                |action: SleepyAction|
                    action == (SleepyAction::ReadRecordReceiverAndProcess { timeout_ms: 0 }),
            ) == ticks + (if now.phase is Processing || now.phase is Sleeping {
                1nat
            } else {
                0nat
            })
            &&& now.phase is Finished ==> ticks == target_tick_count
            &&& count(actions, |action: SleepyAction| action is CheckExit) == ticked
            &&& count(actions, |action: SleepyAction| action is Finish) == (if now.phase is Finished {
                1nat
            } else {
                0nat
            })
            &&& count(
                actions,
                |action: SleepyAction| is_other_sleep(action, target_tick_duration),
            ) == 0
            &&& count(actions, |action: SleepyAction| is_wait(action)) == 0
        }),
    decreases events.len(),
{
    let start = ShortLivedSleepyTickProducer::initial(target_tick_duration, target_tick_count);
    if events.len() > 0 {
        let before = events.drop_last();
        law_short_lived_makes_all_ticks(target_tick_duration, target_tick_count, before);
        assert(start.actions(events).drop_last() =~= start.actions(before));
    }
}

/// The producer of a number of ticks warns once if it ever finds the exit flag set, however often,
/// and otherwise not at all.
pub proof fn law_short_lived_warns_once(
    target_tick_duration: Duration,
    target_tick_count: u64,
    events: Seq<SleepyEvent>,
)
    requires
        ShortLivedSleepyTickProducer::initial(
            target_tick_duration,
            target_tick_count,
        ).accepts_all(events),
    ensures
        ({
            let start = ShortLivedSleepyTickProducer::initial(
                target_tick_duration,
                target_tick_count,
            );
            let signals = count(events, |event: SleepyEvent| event == SleepyEvent::Exit(true));
            &&& start.after(events).warned <==> signals > 0
            &&& count(
                start.actions(events),
                |action: SleepyAction| action is WarnExitIgnored,
            ) == (if signals > 0 {
                1nat
            } else {
                0nat
            })
        }),
    decreases events.len(),
{
    let start = ShortLivedSleepyTickProducer::initial(target_tick_duration, target_tick_count);
    if events.len() > 0 {
        let before = events.drop_last();
        law_short_lived_warns_once(target_tick_duration, target_tick_count, before);
        law_short_lived_makes_all_ticks(target_tick_duration, target_tick_count, before);
        assert(start.actions(events).drop_last() =~= start.actions(before));
    }
}

/// The producer of a number of ticks ends as soon as its last tick is made and the exit flag has
/// been looked at, with or without a warning in between.
pub proof fn law_short_lived_ends_after_last_tick(
    producer: ShortLivedSleepyTickProducer,
    exit: bool,
)
    requires
        producer.phase is Ticking,
        producer.ticks_left == 1,
    ensures
        ({
            let looked = producer.next(SleepyEvent::Ticked).0.next(SleepyEvent::Exit(exit));
            if exit && !producer.warned {
                &&& looked.1 is WarnExitIgnored
                &&& looked.0.next(SleepyEvent::Warned).1 is Finish
            } else {
                looked.1 is Finish
            }
        }),
{
}

/// Whether `event` tells how `action` went.
pub open spec fn answers(action: SleepyAction, event: SleepyEvent) -> bool {
    match action {
        SleepyAction::CheckExit => event is Exit,
        SleepyAction::ReadRecordReceiverAndProcess { .. } => event is Processed,
        SleepyAction::Sleep(_) => event is Slept,
        SleepyAction::Tick => event is Ticked,
        SleepyAction::WarnExitIgnored => event is Warned,
        SleepyAction::Finish => false,
    }
}

/// At any time the producer that runs until it is told to exit takes every answer to the action
/// that it asked for last, and nothing else: at first only the beginning, and after the end nothing
/// at all.
pub proof fn law_sleepy_takes_every_answer(
    start: SleepyTickProducer,
    events: Seq<SleepyEvent>,
    event: SleepyEvent,
)
    requires
        start.phase is Entering,
        start.accepts_all(events),
    ensures
        start.after(events).accepts(event) <==> (if events.len() == 0 {
            event is Begin
        } else {
            answers(start.actions(events).last(), event)
        }),
{
}

/// The producer that runs until it is told to exit begins with a look at the exit flag. When it
/// finds the flag set, it ends, and takes nothing more.
pub proof fn law_sleepy_begins_and_ends(producer: SleepyTickProducer)
    ensures
        producer.phase is Entering ==> {
            let (after, action) = producer.next(SleepyEvent::Begin);
            &&& producer.accepts(SleepyEvent::Begin)
            &&& action is CheckExit
            &&& after.phase is CheckingExit
            &&& after.target_tick_duration == producer.target_tick_duration
        },
        producer.phase is CheckingExit ==> {
            let (after, action) = producer.next(SleepyEvent::Exit(true));
            &&& producer.accepts(SleepyEvent::Exit(true))
            &&& action is Finish
            &&& after.phase is Finished
            &&& forall|event: SleepyEvent| !after.accepts(event)
        },
{
}

/// At any time the producer of a number of ticks takes every answer to the action that it asked for
/// last, and nothing else: at first only the beginning, and after the end nothing at all.
pub proof fn law_short_lived_takes_every_answer(
    start: ShortLivedSleepyTickProducer,
    events: Seq<SleepyEvent>,
    event: SleepyEvent,
)
    requires
        start.phase is Entering,
        start.accepts_all(events),
    ensures
        start.after(events).accepts(event) <==> (if events.len() == 0 {
            event is Begin
        } else {
            answers(start.actions(events).last(), event)
        }),
{
}

/// A round of the producer of a number of ticks, as long as a tick is left to be made: after the
/// look at the requests the sleep, then the tick, and then a look at the exit flag. One tick fewer
/// is left then.
pub proof fn law_short_lived_round(producer: ShortLivedSleepyTickProducer)
    requires
        producer.phase is Processing,
        producer.ticks_left > 0,
    ensures
        ({
            let events = seq![SleepyEvent::Processed, SleepyEvent::Slept, SleepyEvent::Ticked];
            &&& producer.accepts_all(events)
            &&& producer.after(events) == (ShortLivedSleepyTickProducer {
                phase: SleepyPhase::CheckingExit,
                ticks_left: (producer.ticks_left - 1) as u64,
                ..producer
            })
            &&& producer.actions(events) == seq![
                SleepyAction::Sleep(producer.target_tick_duration),
                SleepyAction::Tick,
                SleepyAction::CheckExit,
            ]
        }),
{
    reveal_with_fuel(ShortLivedSleepyTickProducer::after, 4);
    reveal_with_fuel(ShortLivedSleepyTickProducer::actions, 4);
    reveal_with_fuel(ShortLivedSleepyTickProducer::accepts_all, 4);
    let events = seq![SleepyEvent::Processed, SleepyEvent::Slept, SleepyEvent::Ticked];
    let first = events.drop_last().drop_last();
    assert(first =~= seq![SleepyEvent::Processed]);
    assert(first.drop_last() =~= Seq::<SleepyEvent>::empty());
}

/// Whether `action` and `after` are what comes next for a producer of a number of ticks that has
/// `producer.ticks_left` ticks to make: a look at the requests that waits for nothing if there are
/// any, and otherwise the end. Only the phase, and that a warning was given, can have changed.
pub open spec fn goes_on_or_ends(
    producer: ShortLivedSleepyTickProducer,
    warned: bool,
    after: ShortLivedSleepyTickProducer,
    action: SleepyAction,
) -> bool {
    &&& after.ticks_left == producer.ticks_left
    &&& after.target_tick_duration == producer.target_tick_duration
    &&& after.warned == warned
    &&& producer.ticks_left > 0 ==> {
        &&& after.phase is Processing
        &&& action == (SleepyAction::ReadRecordReceiverAndProcess { timeout_ms: 0 })
    }
    &&& producer.ticks_left == 0 ==> {
        &&& after.phase is Finished
        &&& action is Finish
        &&& forall|event: SleepyEvent| !after.accepts(event)
    }
}

/// Before and between the rounds of the producer of a number of ticks: it goes on as long as a tick
/// is left to be made, and ends when none is, whatever the exit flag says. If it finds the flag set
/// for the first time it warns, and then does the same.
pub proof fn law_short_lived_between_rounds(producer: ShortLivedSleepyTickProducer, exit: bool)
    ensures
        producer.phase is Entering ==> {
            let (after, action) = producer.next(SleepyEvent::Begin);
            &&& producer.accepts(SleepyEvent::Begin)
            &&& goes_on_or_ends(producer, producer.warned, after, action)
        },
        producer.phase is CheckingExit ==> {
            let (after, action) = producer.next(SleepyEvent::Exit(exit));
            &&& producer.accepts(SleepyEvent::Exit(exit))
            &&& if exit && !producer.warned {
                let (at_last, next_action) = after.next(SleepyEvent::Warned);
                &&& action is WarnExitIgnored
                &&& after.accepts(SleepyEvent::Warned)
                &&& goes_on_or_ends(producer, true, at_last, next_action)
            } else {
                goes_on_or_ends(producer, producer.warned, after, action)
            }
        },
{
}

} // verus!
