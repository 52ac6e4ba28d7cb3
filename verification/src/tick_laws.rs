//! What holds of every run of the tick producer of a cluster that hashes.
use crate::poh::{law_batches_lead_to_tick, HashCount};
use crate::tick_producer::{
    record_or_hash_step, Action, Event, RecordOrHash, RecordOrHashPhase, TickPhase, TickProducer,
};
use crate::timing::PohTiming;
use crate::trace::count;
use vstd::prelude::*;

verus! {

impl<R> TickProducer<R> {
    /// The producer after it took `events` one by one.
    pub open spec fn after(self, events: Seq<Event<R>>) -> TickProducer<R>
        decreases events.len(),
    {
        if events.len() == 0 {
            self
        } else {
            self.after(events.drop_last()).next(events.last()).0
        }
    }

    /// The actions that the producer asked for while it took `events`, one for each of them.
    pub open spec fn actions(self, events: Seq<Event<R>>) -> Seq<Action<R>>
        decreases events.len(),
    {
        if events.len() == 0 {
            Seq::empty()
        } else {
            self.actions(events.drop_last()).push(
                self.after(events.drop_last()).next(events.last()).1,
            )
        }
    }

    /// Each of `events` answered the action before it.
    pub open spec fn accepts_all(self, events: Seq<Event<R>>) -> bool
        decreases events.len(),
    {
        events.len() == 0 || {
            &&& self.accepts_all(events.drop_last())
            &&& self.after(events.drop_last()).accepts(events.last())
        }
    }
}

/// The requests that came in, in the order in which they came.
pub open spec fn received<R>(events: Seq<Event<R>>) -> Seq<R>
    decreases events.len(),
{
    if events.len() == 0 {
        Seq::empty()
    } else {
        match events.last() {
            Event::Received(Some(record)) => received(events.drop_last()).push(record),
            _ => received(events.drop_last()),
        }
    }
}

/// The requests that were to be recorded, in the order in which they were.
pub open spec fn recorded<R>(actions: Seq<Action<R>>) -> Seq<R>
    decreases actions.len(),
{
    if actions.len() == 0 {
        Seq::empty()
    } else {
        match actions.last() {
            Action::Record(record) => recorded(actions.drop_last()).push(record),
            _ => recorded(actions.drop_last()),
        }
    }
}

/// The request on hold, if there is one.
pub open spec fn on_hold<R>(next_record: Option<R>) -> Seq<R> {
    match next_record {
        Some(record) => seq![record],
        None => Seq::empty(),
    }
}

/// Which lock the producer has asked for and not given back.
pub enum Held {
    Nothing,
    Recorder,
    Poh,
}

/// The lock held after `action`, where `held` was held before it. There is none if the action is
/// not allowed: a lock is asked for while another is held, or something is done without the lock
/// that it takes.
pub open spec fn held_after<R>(held: Held, action: Action<R>) -> Option<Held> {
    match (held, action) {
        (Held::Nothing, Action::LockRecorder) => Some(Held::Recorder),
        (Held::Nothing, Action::LockPoh) => Some(Held::Poh),
        (Held::Nothing, Action::Report(_)) => Some(Held::Nothing),
        (Held::Nothing, Action::CheckExit) => Some(Held::Nothing),
        (Held::Nothing, Action::Finish) => Some(Held::Nothing),
        (Held::Recorder, Action::Record(_)) => Some(Held::Recorder),
        (Held::Recorder, Action::TryReceive) => Some(Held::Recorder),
        (Held::Recorder, Action::StopRecordTimer) => Some(Held::Recorder),
        (Held::Recorder, Action::Tick) => Some(Held::Recorder),
        (Held::Recorder, Action::ReleaseRecorder) => Some(Held::Nothing),
        (Held::Poh, Action::Hash(_)) => Some(Held::Poh),
        (Held::Poh, Action::TryReceive) => Some(Held::Poh),
        (Held::Poh, Action::ReleasePoh) => Some(Held::Nothing),
        _ => None,
    }
}

/// The lock held after all of `actions`, if every one of them was allowed.
pub open spec fn held_after_all<R>(actions: Seq<Action<R>>) -> Option<Held>
    decreases actions.len(),
{
    if actions.len() == 0 {
        Some(Held::Nothing)
    } else {
        match held_after_all(actions.drop_last()) {
            Some(held) => held_after(held, actions.last()),
            None => None,
        }
    }
}

/// The lock that goes with a phase.
pub open spec fn held_in(phase: TickPhase) -> Held {
    match phase {
        TickPhase::RecordOrHash(phase) => match phase {
            RecordOrHashPhase::Entering => Held::Nothing,
            RecordOrHashPhase::LockingRecorder => Held::Recorder,
            RecordOrHashPhase::Recording => Held::Recorder,
            RecordOrHashPhase::PollingAfterRecord => Held::Recorder,
            RecordOrHashPhase::TimingRecords => Held::Recorder,
            RecordOrHashPhase::ReleasingRecorder => Held::Nothing,
            RecordOrHashPhase::LockingPoh => Held::Poh,
            RecordOrHashPhase::Hashing => Held::Poh,
            RecordOrHashPhase::PollingAfterHash => Held::Poh,
            RecordOrHashPhase::ReleasingPoh { .. } => Held::Nothing,
        },
        TickPhase::LockingForTick => Held::Recorder,
        TickPhase::Ticking => Held::Recorder,
        _ => Held::Nothing,
    }
}

/// Every state of a run is well formed, the settings never change, and each event is followed by
/// exactly one action.
pub proof fn law_run<R>(start: TickProducer<R>, events: Seq<Event<R>>)
    requires
        start.well_formed(),
        start.accepts_all(events),
    ensures
        start.after(events).well_formed(),
        start.after(events).ticks_per_slot == start.ticks_per_slot,
        start.after(events).hashes_per_batch == start.hashes_per_batch,
        start.actions(events).len() == events.len(),
    decreases events.len(),
{
    if events.len() > 0 {
        law_run(start, events.drop_last());
    }
}

/// The producer never gets stuck: short of the end, there is an event that it can take. It asks
/// for the end exactly when it gets there.
pub proof fn law_never_stuck<R>(producer: TickProducer<R>)
    requires
        producer.well_formed(),
    ensures
        !(producer.phase is Finished) ==> exists|event: Event<R>| producer.accepts(event),
        forall|event: Event<R>| #[trigger]
            producer.accepts(event) ==> (producer.next(event).0.phase is Finished
                <==> producer.next(event).1 is Finish),
{
    let answer: Event<R> = match producer.phase {
        TickPhase::RecordOrHash(phase) => match phase {
            RecordOrHashPhase::Entering => Event::Begin,
            RecordOrHashPhase::LockingRecorder => Event::Locked { lock_time_ns: 0 },
            RecordOrHashPhase::Recording => Event::Recorded { delivered: true },
            RecordOrHashPhase::PollingAfterRecord => Event::Received(None),
            RecordOrHashPhase::TimingRecords => Event::RecordTimed { record_time_us: 0 },
            RecordOrHashPhase::ReleasingRecorder => Event::Released,
            RecordOrHashPhase::LockingPoh => Event::Locked { lock_time_ns: 0 },
            RecordOrHashPhase::Hashing => Event::Hashed { should_tick: false, hash_time_ns: 0 },
            RecordOrHashPhase::PollingAfterHash => Event::Received(None),
            RecordOrHashPhase::ReleasingPoh { .. } => Event::Released,
        },
        TickPhase::LockingForTick => Event::Locked { lock_time_ns: 0 },
        TickPhase::Ticking => Event::Ticked { tick_time_ns: 0 },
        TickPhase::ReleasingAfterTick => Event::Released,
        TickPhase::Reporting => Event::Reported,
        _ => Event::Exit(false),
    };
    assert(!(producer.phase is Finished) ==> producer.accepts(answer));
}

/// No request is lost, recorded twice or overtaken: the requests that were recorded, followed by
/// the one on hold, are the requests that came in, in the order in which they came.
pub proof fn law_requests_are_recorded_in_order<R>(
    start: TickProducer<R>,
    events: Seq<Event<R>>,
)
    requires
        start.well_formed(),
        start.accepts_all(events),
    ensures
        recorded(start.actions(events)) + on_hold(start.after(events).next_record) == on_hold(
            start.next_record,
        ) + received(events),
    decreases events.len(),
{
    if events.len() == 0 {
        assert(recorded(start.actions(events)) + on_hold(start.after(events).next_record)
            =~= on_hold(start.next_record) + received(events));
    } else {
        let before = events.drop_last();
        law_requests_are_recorded_in_order(start, before);
        law_run(start, before);
        let actions = start.actions(events);
        assert(actions.drop_last() =~= start.actions(before));
        assert(recorded(actions) + on_hold(start.after(events).next_record) =~= on_hold(
            start.next_record,
        ) + received(events)) by {
            let done = recorded(start.actions(before));
            let come = received(before);
            let held = on_hold(start.after(before).next_record);
            assert(done + held =~= on_hold(start.next_record) + come);
            match start.after(before).next_record {
                Some(record) => {
                    assert(done.push(record) =~= done + held);
                },
                None => {
                    assert(done =~= done + held);
                },
            }
            match events.last() {
                Event::Received(Some(record)) => {
                    assert(on_hold(start.next_record) + come.push(record) =~= (on_hold(
                        start.next_record,
                    ) + come).push(record));
                },
                _ => {},
            }
        }
    }
}

/// Locks are kept in order: the recorder and the hash chain are never held together, each is given
/// back before another is asked for, requests are recorded and ticks are made with the recorder
/// locked, and batches are hashed with the hash chain locked. The exit flag is looked at, and the
/// counters are reported, with nothing locked.
pub proof fn law_locks<R>(start: TickProducer<R>, events: Seq<Event<R>>)
    requires
        start.well_formed(),
        start.phase == TickPhase::RecordOrHash(RecordOrHashPhase::Entering),
        start.accepts_all(events),
    ensures
        held_after_all(start.actions(events)) == Some(held_in(start.after(events).phase)),
    decreases events.len(),
{
    if events.len() > 0 {
        let before = events.drop_last();
        law_locks(start, before);
        law_run(start, before);
        assert(start.actions(events).drop_last() =~= start.actions(before));
    }
}

/// A tick is made for each time that the hash chain calls for one, and for nothing else. At most
/// one call is still to be answered.
pub proof fn law_ticks_are_called_for<R>(start: TickProducer<R>, events: Seq<Event<R>>)
    requires
        start.well_formed(),
        start.phase == TickPhase::RecordOrHash(RecordOrHashPhase::Entering),
        start.accepts_all(events),
    ensures
        count(events, |event: Event<R>| event matches Event::Hashed { should_tick: true, .. })
            == count(start.actions(events), |action: Action<R>| action is Tick) + (if start.after(
            events,
        ).phase == TickPhase::RecordOrHash(RecordOrHashPhase::ReleasingPoh { should_tick: true })
            || start.after(events).phase == TickPhase::LockingForTick {
            1nat
        } else {
            0nat
        }),
    decreases events.len(),
{
    if events.len() > 0 {
        let before = events.drop_last();
        law_ticks_are_called_for(start, before);
        law_run(start, before);
        assert(start.actions(events).drop_last() =~= start.actions(before));
    }
}

/// When the hash chain calls for a tick, nothing comes between: the chain is given back, the
/// recorder is locked, and the tick is made.
pub proof fn law_tick_follows_at_once<R>(
    producer: TickProducer<R>,
    hashed: Event<R>,
    released: Event<R>,
    locked: Event<R>,
)
    requires
        producer.accepts_all(seq![hashed, released, locked]),
        hashed matches Event::Hashed { should_tick: true, .. },
    ensures
        producer.actions(seq![hashed, released, locked]) == seq![
            Action::<R>::ReleasePoh,
            Action::<R>::LockRecorder,
            Action::<R>::Tick,
        ],
{
    reveal_with_fuel(TickProducer::after, 4);
    reveal_with_fuel(TickProducer::actions, 4);
    reveal_with_fuel(TickProducer::accepts_all, 4);
    let events = seq![hashed, released, locked];
    assert(events.drop_last() =~= seq![hashed, released]);
    assert(events.drop_last().drop_last() =~= seq![hashed]);
    assert(events.drop_last().drop_last().drop_last() =~= Seq::<Event<R>>::empty());
}

/// When a request is noticed between two batches, no further batch is hashed before it is
/// recorded: the chain is given back, the recorder is locked, and that request is recorded.
pub proof fn law_request_follows_at_once<R>(
    producer: TickProducer<R>,
    record: R,
    released: Event<R>,
    locked: Event<R>,
)
    requires
        producer.accepts_all(seq![Event::Received(Some(record)), released, locked]),
        producer.phase == TickPhase::RecordOrHash(RecordOrHashPhase::PollingAfterHash),
    ensures
        producer.actions(seq![Event::Received(Some(record)), released, locked]) == seq![
            Action::ReleasePoh,
            Action::LockRecorder,
            Action::Record(record),
        ],
{
    reveal_with_fuel(TickProducer::after, 4);
    reveal_with_fuel(TickProducer::actions, 4);
    reveal_with_fuel(TickProducer::accepts_all, 4);
    let noticed = Event::Received(Some(record));
    let events = seq![noticed, released, locked];
    assert(events.drop_last() =~= seq![noticed, released]);
    assert(events.drop_last().drop_last() =~= seq![noticed]);
    assert(events.drop_last().drop_last().drop_last() =~= Seq::<Event<R>>::empty());
}

/// The events of batches that call for no tick, with no request after any of them. A batch took as
/// long as `times` says.
pub open spec fn quiet<R>(times: Seq<u64>) -> Seq<Event<R>>
    decreases times.len(),
{
    if times.len() == 0 {
        Seq::empty()
    } else {
        quiet(times.drop_last()).push(
            Event::Hashed { should_tick: false, hash_time_ns: times.last() },
        ).push(Event::Received(None))
    }
}

/// While there is nothing to record, the producer keeps hashing, and gets to the tick: for as long
/// as the batches leave more than one hash owed of a chain that stands at `start`, the chain calls
/// for no tick, and the producer hashes on; with the batch that leaves only one, the chain calls
/// for the tick, and the producer goes for it.
pub proof fn law_quiet_hashing_reaches_tick<R>(
    producer: TickProducer<R>,
    start: HashCount,
    times: Seq<u64>,
    last_time: u64,
)
    requires
        producer.well_formed(),
        producer.phase == TickPhase::RecordOrHash(RecordOrHashPhase::Hashing),
        start.remaining >= 1,
        times.len() == 0 || times.len() * producer.hashes_per_batch + 1 < start.remaining,
        (times.len() + 1) * producer.hashes_per_batch + 1 >= start.remaining,
    ensures
        forall|batches: nat|
            1 <= batches <= times.len() ==> !(#[trigger] start.after_batches(
                producer.hashes_per_batch,
                batches,
            )).should_tick(),
        start.after_batches(producer.hashes_per_batch, times.len() + 1).should_tick(),
        producer.accepts_all(quiet(times)),
        producer.after(quiet(times)) == producer,
        producer.next(Event::Hashed { should_tick: true, hash_time_ns: last_time }) == (
            producer.at(
                TickPhase::RecordOrHash(RecordOrHashPhase::ReleasingPoh { should_tick: true }),
                None,
            ),
            Action::<R>::ReleasePoh,
        ),
{
    let batch = producer.hashes_per_batch;
    assert forall|batches: nat| 1 <= batches <= times.len() implies !(
    #[trigger] start.after_batches(batch, batches)).should_tick() by {
        law_batches_lead_to_tick(start, batch, batches);
        let all = times.len();
        assert(batches * batch <= all * batch) by (nonlinear_arith)
            requires
                batches <= all,
        ;
    }
    law_batches_lead_to_tick(start, batch, times.len() + 1);
    lemma_quiet_returns(producer, times);
}

proof fn lemma_quiet_returns<R>(producer: TickProducer<R>, times: Seq<u64>)
    requires
        producer.well_formed(),
        producer.phase == TickPhase::RecordOrHash(RecordOrHashPhase::Hashing),
    ensures
        producer.accepts_all(quiet(times)),
        producer.after(quiet(times)) == producer,
    decreases times.len(),
{
    if times.len() > 0 {
        lemma_quiet_returns(producer, times.drop_last());
        let before = quiet::<R>(times.drop_last());
        let hashed = Event::<R>::Hashed { should_tick: false, hash_time_ns: times.last() };
        assert(before.push(hashed).drop_last() =~= before);
        assert(quiet::<R>(times).drop_last() =~= before.push(hashed));
        reveal_with_fuel(TickProducer::after, 3);
        reveal_with_fuel(TickProducer::accepts_all, 3);
    }
}

/// Each tick is followed by one report, and that by one look at the exit flag, and neither happens
/// elsewhere. Each look is answered once. The producer ends when the flag is found set, and only
/// then.
pub proof fn law_exit_after_tick<R>(start: TickProducer<R>, events: Seq<Event<R>>)
    requires
        start.well_formed(),
        start.phase == TickPhase::RecordOrHash(RecordOrHashPhase::Entering),
        start.accepts_all(events),
    ensures
        count(events, |event: Event<R>| event is Ticked) == count(
            start.actions(events),
            |action: Action<R>| action is Report,
        ) + (if start.after(events).phase is ReleasingAfterTick {
            1nat
        } else {
            0nat
        }),
        count(start.actions(events), |action: Action<R>| action is CheckExit) == count(
            events,
            |event: Event<R>| event is Exit,
        ) + (if start.after(events).phase is CheckingExit {
            1nat
        } else {
            0nat
        }),
        count(events, |event: Event<R>| event is Ticked) == count(
            start.actions(events),
            |action: Action<R>| action is CheckExit,
        ) + (if start.after(events).phase is ReleasingAfterTick || start.after(
            events,
        ).phase is Reporting {
            1nat
        } else {
            0nat
        }),
        start.after(events).phase is Finished <==> events.len() > 0 && events.last()
            == Event::<R>::Exit(true),
        count(start.actions(events), |action: Action<R>| action is Finish) == (if start.after(
            events,
        ).phase is Finished {
            1nat
        } else {
            0nat
        }),
    decreases events.len(),
{
    if events.len() > 0 {
        let before = events.drop_last();
        law_exit_after_tick(start, before);
        law_run(start, before);
        assert(start.actions(events).drop_last() =~= start.actions(before));
    }
}

/// What the counters have risen by in a run, if they could hold it and were never reported.
pub struct Sums {
    pub num_ticks: int,
    pub num_hashes: int,
    pub lock_time_ns: int,
    pub hash_time_ns: int,
    pub tick_time_ns: int,
    pub record_time_us: int,
}

impl<R> TickProducer<R> {
    /// The charges of a run, summed up.
    pub open spec fn charged(self, events: Seq<Event<R>>) -> Sums
        decreases events.len(),
    {
        if events.len() == 0 {
            Sums {
                num_ticks: 0,
                num_hashes: 0,
                lock_time_ns: 0,
                hash_time_ns: 0,
                tick_time_ns: 0,
                record_time_us: 0,
            }
        } else {
            let sums = self.charged(events.drop_last());
            let charge = self.after(events.drop_last()).charge_of(events.last());
            Sums {
                num_ticks: sums.num_ticks + charge.num_ticks,
                num_hashes: sums.num_hashes + charge.num_hashes,
                lock_time_ns: sums.lock_time_ns + charge.lock_time_ns,
                hash_time_ns: sums.hash_time_ns + charge.hash_time_ns,
                tick_time_ns: sums.tick_time_ns + charge.tick_time_ns,
                record_time_us: sums.record_time_us + charge.record_time_us,
            }
        }
    }
}

/// The times that `events` tell of, summed up by `of`.
pub open spec fn total<R>(events: Seq<Event<R>>, of: spec_fn(Event<R>) -> int) -> int
    decreases events.len(),
{
    if events.len() == 0 {
        0
    } else {
        total(events.drop_last(), of) + of(events.last())
    }
}

/// What the counters mean: ticks are counted as they are reported, a hash is counted for each
/// request that was recorded and a batch for each that was asked for, and the times are the sums
/// of the times that the events told of.
pub proof fn law_counters<R>(start: TickProducer<R>, events: Seq<Event<R>>)
    requires
        start.well_formed(),
        start.accepts_all(events),
    ensures
        start.charged(events).num_ticks == count(
            start.actions(events),
            |action: Action<R>| action is Report,
        ),
        start.charged(events).num_hashes == count(events, |event: Event<R>| event is Recorded)
            + start.hashes_per_batch * count(
            start.actions(events),
            |action: Action<R>| action is Hash,
        ),
        start.charged(events).lock_time_ns == total(
            events,
            |event: Event<R>|
                match event {
                    Event::Locked { lock_time_ns } => lock_time_ns as int,
                    _ => 0,
                },
        ),
        start.charged(events).hash_time_ns == total(
            events,
            |event: Event<R>|
                match event {
                    Event::Hashed { hash_time_ns, .. } => hash_time_ns as int,
                    _ => 0,
                },
        ),
        start.charged(events).tick_time_ns == total(
            events,
            |event: Event<R>|
                match event {
                    Event::Ticked { tick_time_ns } => tick_time_ns as int,
                    _ => 0,
                },
        ),
        start.charged(events).record_time_us == total(
            events,
            |event: Event<R>|
                match event {
                    Event::RecordTimed { record_time_us } => record_time_us as int,
                    _ => 0,
                },
        ),
    decreases events.len(),
{
    let is_hash = |action: Action<R>| action is Hash;
    if events.len() == 0 {
        assert(start.hashes_per_batch * count(start.actions(events), is_hash) == 0)
            by (nonlinear_arith)
            requires
                count(start.actions(events), is_hash) == 0,
        ;
    } else {
        let before = events.drop_last();
        law_counters(start, before);
        law_run(start, before);
        assert(start.actions(events).drop_last() =~= start.actions(before));
        let batches = count(start.actions(before), is_hash);
        assert(start.hashes_per_batch * (batches + 1) == start.hashes_per_batch * batches
            + start.hashes_per_batch) by (nonlinear_arith);
    }
}

impl<R> TickProducer<R> {
    /// The counters can hold the charges of all of `events`, one after the other.
    pub open spec fn room_for_all(self, timing: PohTiming, events: Seq<Event<R>>) -> bool
        decreases events.len(),
    {
        events.len() == 0 || {
            &&& self.room_for_all(timing, events.drop_last())
            &&& self.timing_after(timing, events.drop_last()).has_room_for(
                self.after(events.drop_last()).charge_of(events.last()),
            )
        }
    }

    /// The counters after a run with no report in between.
    pub open spec fn timing_after(self, timing: PohTiming, events: Seq<Event<R>>) -> PohTiming
        decreases events.len(),
    {
        if events.len() == 0 {
            timing
        } else {
            self.timing_after(timing, events.drop_last()).plus(
                self.after(events.drop_last()).charge_of(events.last()),
            )
        }
    }
}

/// Between two reports, each counter rises by the sum of the charges of the run. The time asleep,
/// and the time of the last report, stay as they are.
pub proof fn law_counters_add_up<R>(
    start: TickProducer<R>,
    timing: PohTiming,
    events: Seq<Event<R>>,
)
    requires
        start.room_for_all(timing, events),
    ensures
        ({
            let now = start.timing_after(timing, events);
            let sums = start.charged(events);
            &&& now.num_ticks == timing.num_ticks + sums.num_ticks
            &&& now.num_hashes == timing.num_hashes + sums.num_hashes
            &&& now.total_lock_time_ns == timing.total_lock_time_ns + sums.lock_time_ns
            &&& now.total_hash_time_ns == timing.total_hash_time_ns + sums.hash_time_ns
            &&& now.total_tick_time_ns == timing.total_tick_time_ns + sums.tick_time_ns
            &&& now.total_record_time_us == timing.total_record_time_us + sums.record_time_us
            &&& now.total_sleep_us == timing.total_sleep_us
            &&& now.last_metric == timing.last_metric
        }),
    decreases events.len(),
{
    if events.len() > 0 {
        law_counters_add_up(start, timing, events.drop_last());
    }
}

/// When a report is asked for, a tick has just been counted: the report has a number of ticks to
/// take the average over.
pub proof fn law_report_has_a_tick<R>(
    producer: TickProducer<R>,
    event: Event<R>,
    timing: PohTiming,
)
    requires
        producer.accepts(event),
        timing.has_room_for(producer.charge_of(event)),
        producer.next(event).1 is Report,
    ensures
        timing.plus(producer.charge_of(event)).num_ticks > 0,
        producer.next(event).1 == Action::<R>::Report(producer.ticks_per_slot),
{
}

/// Whether `event` tells how `action` went.
pub open spec fn answers<R>(action: Action<R>, event: Event<R>) -> bool {
    match action {
        Action::LockRecorder | Action::LockPoh => event is Locked,
        Action::Record(_) => event is Recorded,
        Action::TryReceive => event is Received,
        Action::StopRecordTimer => event is RecordTimed,
        Action::Hash(_) => event is Hashed,
        Action::Tick => event is Ticked,
        Action::ReleaseRecorder | Action::ReleasePoh => event is Released,
        Action::Report(_) => event is Reported,
        Action::CheckExit => event is Exit,
        Action::Finish => false,
    }
}

/// At any time the producer takes every answer to the action that it asked for last, and nothing
/// else: at first only the beginning, and after the end nothing at all.
pub proof fn law_takes_every_answer<R>(
    start: TickProducer<R>,
    events: Seq<Event<R>>,
    event: Event<R>,
)
    requires
        start.phase == TickPhase::RecordOrHash(RecordOrHashPhase::Entering),
        start.accepts_all(events),
    ensures
        start.after(events).accepts(event) <==> (if events.len() == 0 {
            event is Begin
        } else {
            answers(start.actions(events).last(), event)
        }),
{
}

/// Taking one more event: the run so far, then one step.
proof fn lemma_one_more<R>(start: TickProducer<R>, events: Seq<Event<R>>, event: Event<R>)
    ensures
        start.after(events.push(event)) == start.after(events).next(event).0,
        start.actions(events.push(event)) == start.actions(events).push(
            start.after(events).next(event).1,
        ),
        start.accepts_all(events.push(event)) == (start.accepts_all(events) && start.after(
            events,
        ).accepts(event)),
{
    assert(events.push(event).drop_last() =~= events);
}

/// A run of two events.
proof fn lemma_run_of_two<R>(start: TickProducer<R>, a: Event<R>, b: Event<R>)
    ensures
        ({
            let (one, first) = start.next(a);
            let (two, second) = one.next(b);
            let events = seq![a, b];
            &&& start.after(events) == two
            &&& start.actions(events) == seq![first, second]
            &&& start.accepts_all(events) == (start.accepts(a) && one.accepts(b))
        }),
{
    assert(seq![a] =~= Seq::<Event<R>>::empty().push(a));
    assert(seq![a, b] =~= seq![a].push(b));
    lemma_one_more(start, Seq::empty(), a);
    lemma_one_more(start, seq![a], b);
    assert(start.actions(seq![a, b]) =~= seq![start.next(a).1, start.next(a).0.next(b).1]);
}

/// A run of four events.
proof fn lemma_run_of_four<R>(
    start: TickProducer<R>,
    a: Event<R>,
    b: Event<R>,
    c: Event<R>,
    d: Event<R>,
)
    ensures
        ({
            let (one, first) = start.next(a);
            let (two, second) = one.next(b);
            let (three, third) = two.next(c);
            let (four, fourth) = three.next(d);
            let events = seq![a, b, c, d];
            &&& start.after(events) == four
            &&& start.actions(events) == seq![first, second, third, fourth]
            &&& start.accepts_all(events) == (start.accepts(a) && one.accepts(b) && two.accepts(c)
                && three.accepts(d))
        }),
{
    assert(seq![a, b, c] =~= seq![a, b].push(c));
    assert(seq![a, b, c, d] =~= seq![a, b, c].push(d));
    lemma_run_of_two(start, a, b);
    lemma_one_more(start, seq![a, b], c);
    lemma_one_more(start, seq![a, b, c], d);
}

/// The producer begins: with no request on hold it locks the hash chain and hashes a batch, and
/// with one it locks the recorder and records that request.
pub proof fn law_begins<R>(producer: TickProducer<R>, lock_time_ns: u64)
    requires
        producer.phase == TickPhase::RecordOrHash(RecordOrHashPhase::Entering),
    ensures
        ({
            let events = seq![Event::<R>::Begin, Event::<R>::Locked { lock_time_ns }];
            let end = producer.after(events);
            &&& producer.accepts_all(events)
            &&& end.ticks_per_slot == producer.ticks_per_slot
            &&& end.hashes_per_batch == producer.hashes_per_batch
            &&& end.next_record is None
            &&& match producer.next_record {
                None => {
                    &&& end.phase == TickPhase::RecordOrHash(RecordOrHashPhase::Hashing)
                    &&& producer.actions(events) == seq![
                        Action::<R>::LockPoh,
                        Action::<R>::Hash(producer.hashes_per_batch),
                    ]
                },
                Some(record) => {
                    &&& end.phase == TickPhase::RecordOrHash(RecordOrHashPhase::Recording)
                    &&& producer.actions(events) == seq![
                        Action::LockRecorder,
                        Action::Record(record),
                    ]
                },
            }
        }),
{
    lemma_run_of_two(producer, Event::Begin, Event::Locked { lock_time_ns });
}

/// A batch that calls for no tick, with no request after it, is followed by the next batch, and all
/// is as it was before.
pub proof fn law_hashes_on<R>(producer: TickProducer<R>, hash_time_ns: u64)
    requires
        producer.phase == TickPhase::RecordOrHash(RecordOrHashPhase::Hashing),
        producer.next_record is None,
    ensures
        ({
            let events = seq![
                Event::<R>::Hashed { should_tick: false, hash_time_ns },
                Event::<R>::Received(None),
            ];
            &&& producer.accepts_all(events)
            &&& producer.after(events) == producer
            &&& producer.actions(events) == seq![
                Action::<R>::TryReceive,
                Action::<R>::Hash(producer.hashes_per_batch),
            ]
        }),
{
    lemma_run_of_two(
        producer,
        Event::Hashed { should_tick: false, hash_time_ns },
        Event::Received(None),
    );
}

/// A request that is waiting after a batch is recorded: the hash chain is given back, the recorder
/// is locked, and that request is recorded.
pub proof fn law_turns_to_request<R>(
    producer: TickProducer<R>,
    record: R,
    hash_time_ns: u64,
    lock_time_ns: u64,
)
    requires
        producer.phase == TickPhase::RecordOrHash(RecordOrHashPhase::Hashing),
        producer.next_record is None,
    ensures
        ({
            let events = seq![
                Event::Hashed { should_tick: false, hash_time_ns },
                Event::Received(Some(record)),
                Event::Released,
                Event::Locked { lock_time_ns },
            ];
            let end = producer.after(events);
            &&& producer.accepts_all(events)
            &&& end.ticks_per_slot == producer.ticks_per_slot
            &&& end.hashes_per_batch == producer.hashes_per_batch
            &&& end.next_record is None
            &&& end.phase == TickPhase::RecordOrHash(RecordOrHashPhase::Recording)
            &&& producer.actions(events) == seq![
                Action::TryReceive,
                Action::ReleasePoh,
                Action::LockRecorder,
                Action::Record(record),
            ]
        }),
{
    lemma_run_of_four(
        producer,
        Event::Hashed { should_tick: false, hash_time_ns },
        Event::Received(Some(record)),
        Event::Released,
        Event::Locked { lock_time_ns },
    );
}

/// As long as a further request is waiting, it is recorded next, with the recorder still locked,
/// whether the last answer got through or not.
pub proof fn law_records_on<R>(producer: TickProducer<R>, delivered: bool, record: R)
    requires
        producer.phase == TickPhase::RecordOrHash(RecordOrHashPhase::Recording),
        producer.next_record is None,
    ensures
        ({
            let events = seq![Event::Recorded { delivered }, Event::Received(Some(record))];
            &&& producer.accepts_all(events)
            &&& producer.after(events) == producer
            &&& producer.actions(events) == seq![Action::TryReceive, Action::Record(record)]
        }),
{
    lemma_run_of_two(producer, Event::Recorded { delivered }, Event::Received(Some(record)));
}

/// After a request was recorded the producer looks for the next one, and nothing else changes.
pub proof fn law_looks_for_more<R>(producer: TickProducer<R>, delivered: bool)
    requires
        producer.phase == TickPhase::RecordOrHash(RecordOrHashPhase::Recording),
        producer.next_record is None,
    ensures
        producer.accepts(Event::Recorded { delivered }),
        producer.next(Event::Recorded { delivered }).1 is TryReceive,
        producer.next(Event::Recorded { delivered }).0 == (TickProducer {
            phase: TickPhase::RecordOrHash(RecordOrHashPhase::PollingAfterRecord),
            ..producer
        }),
{
}

/// A round of recording ends, and hashing goes on: when no further request is waiting, the record
/// timer is stopped, the recorder is given back, the hash chain is locked, and a batch is hashed.
pub proof fn law_recording_ends<R>(
    producer: TickProducer<R>,
    record_time_us: u64,
    lock_time_ns: u64,
)
    requires
        producer.phase == TickPhase::RecordOrHash(RecordOrHashPhase::PollingAfterRecord),
        producer.next_record is None,
    ensures
        ({
            let events = seq![
                Event::<R>::Received(None),
                Event::<R>::RecordTimed { record_time_us },
                Event::<R>::Released,
                Event::<R>::Locked { lock_time_ns },
            ];
            &&& producer.accepts_all(events)
            &&& producer.after(events) == (TickProducer {
                phase: TickPhase::RecordOrHash(RecordOrHashPhase::Hashing),
                ..producer
            })
            &&& producer.actions(events) == seq![
                Action::<R>::StopRecordTimer,
                Action::<R>::ReleaseRecorder,
                Action::<R>::LockPoh,
                Action::<R>::Hash(producer.hashes_per_batch),
            ]
        }),
{
    lemma_run_of_four(
        producer,
        Event::Received(None),
        Event::RecordTimed { record_time_us },
        Event::Released,
        Event::Locked { lock_time_ns },
    );
}

/// When the hash chain calls for a tick, the chain is given back, the recorder is locked, the tick
/// is made, the recorder is given back, the counters are reported for the ticks per slot, and the
/// exit flag is looked at.
pub proof fn law_ticks_and_reports<R>(
    producer: TickProducer<R>,
    hash_time_ns: u64,
    lock_time_ns: u64,
    tick_time_ns: u64,
)
    requires
        producer.phase == TickPhase::RecordOrHash(RecordOrHashPhase::Hashing),
        producer.next_record is None,
    ensures
        ({
            let events = seq![
                Event::<R>::Hashed { should_tick: true, hash_time_ns },
                Event::<R>::Released,
                Event::<R>::Locked { lock_time_ns },
                Event::<R>::Ticked { tick_time_ns },
                Event::<R>::Released,
                Event::<R>::Reported,
            ];
            &&& producer.accepts_all(events)
            &&& producer.after(events) == (TickProducer {
                phase: TickPhase::CheckingExit,
                ..producer
            })
            &&& producer.actions(events) == seq![
                Action::<R>::ReleasePoh,
                Action::<R>::LockRecorder,
                Action::<R>::Tick,
                Action::<R>::ReleaseRecorder,
                Action::<R>::Report(producer.ticks_per_slot),
                Action::<R>::CheckExit,
            ]
        }),
{
    let hashed = Event::<R>::Hashed { should_tick: true, hash_time_ns };
    let locked = Event::<R>::Locked { lock_time_ns };
    let ticked = Event::<R>::Ticked { tick_time_ns };
    let released = Event::<R>::Released;
    let to_tick = seq![hashed, released, locked, ticked];
    let to_release = seq![hashed, released, locked, ticked, released];
    let to_report = seq![hashed, released, locked, ticked, released, Event::<R>::Reported];
    assert(to_release =~= to_tick.push(released));
    assert(to_report =~= to_release.push(Event::<R>::Reported));
    lemma_run_of_four(producer, hashed, released, locked, ticked);
    lemma_one_more(producer, to_tick, released);
    lemma_one_more(producer, to_release, Event::Reported);
}

/// When the exit flag is not set, the hash chain is locked and hashing goes on. When it is, the
/// producer ends, and takes nothing more.
pub proof fn law_goes_on_or_ends<R>(producer: TickProducer<R>, lock_time_ns: u64)
    requires
        producer.phase == TickPhase::CheckingExit,
        producer.next_record is None,
    ensures
        ({
            let events = seq![Event::<R>::Exit(false), Event::<R>::Locked { lock_time_ns }];
            &&& producer.accepts_all(events)
            &&& producer.after(events) == (TickProducer {
                phase: TickPhase::RecordOrHash(RecordOrHashPhase::Hashing),
                ..producer
            })
            &&& producer.actions(events) == seq![
                Action::<R>::LockPoh,
                Action::<R>::Hash(producer.hashes_per_batch),
            ]
        }),
        producer.accepts(Event::Exit(true)),
        producer.next(Event::Exit(true)).1 is Finish,
        producer.next(Event::Exit(true)).0.phase is Finished,
        forall|event: Event<R>| !producer.next(Event::Exit(true)).0.accepts(event),
{
    lemma_run_of_two(producer, Event::Exit(false), Event::Locked { lock_time_ns });
}

/// A round of recording or hashing and the step of the producer that takes it go together. The
/// round asks for what the producer asks for; it is over exactly when a lock was given back, and
/// the next one is entered. It returns that a tick is needed exactly when the chain called for one,
/// and the producer then locks the recorder for the tick; otherwise it goes for the request on
/// hold, or for the hash chain.
pub proof fn law_round_within_step<R>(
    producer: TickProducer<R>,
    phase: RecordOrHashPhase,
    event: Event<R>,
)
    requires
        producer.phase == TickPhase::RecordOrHash(phase),
        producer.accepts(event),
    ensures
        ({
            let (next_phase, kept, outcome) = record_or_hash_step(
                phase,
                producer.next_record,
                producer.hashes_per_batch,
                event,
            );
            let (after, action) = producer.next(event);
            &&& outcome is Return <==> event is Released
            &&& match outcome {
                RecordOrHash::Continue(asked) => {
                    &&& action == asked
                    &&& after == (TickProducer {
                        phase: TickPhase::RecordOrHash(next_phase),
                        next_record: kept,
                        ..producer
                    })
                },
                RecordOrHash::Return { should_tick } => {
                    &&& next_phase is Entering
                    &&& kept == producer.next_record
                    &&& should_tick <==> phase == (RecordOrHashPhase::ReleasingPoh {
                        should_tick: true,
                    })
                    &&& after.next_record == kept
                    &&& should_tick ==> action is LockRecorder && after.phase is LockingForTick
                    &&& !should_tick && kept is Some ==> action is LockRecorder && after.phase
                        == TickPhase::RecordOrHash(RecordOrHashPhase::LockingRecorder)
                    &&& !should_tick && kept is None ==> action is LockPoh && after.phase
                        == TickPhase::RecordOrHash(RecordOrHashPhase::LockingPoh)
                },
            }
        }),
{
}

} // verus!
