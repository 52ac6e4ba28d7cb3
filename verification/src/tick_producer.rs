//! The tick producer of a cluster that hashes: it hashes without pause, records what it is asked
//! to record as soon as it notices, and ticks when the hash chain calls for it.
//!
//! The producer itself holds no lock and no channel. It names the next thing to do as an
//! [`Action`], and is told how that went by an [`Event`].
use crate::measure::shown_ns;
use crate::poh::{hash_count, hashed};
use crate::timing::{PohCharge, PohTiming};
use solana_entry::poh::Poh;
use solana_measure::measure::Measure;
use vstd::pervasive::unreached;
use vstd::prelude::*;

verus! {

/// What the tick producer wants done next.
#[derive(Debug, PartialEq, Eq)]
pub enum Action<R> {
    /// Lock the recorder, and measure how long that takes. Answered by [`Event::Locked`].
    LockRecorder,
    /// Lock the hash chain, and measure how long that takes. Answered by [`Event::Locked`].
    LockPoh,
    /// Record the request with the locked recorder, and send the outcome to whoever asked.
    /// Answered by [`Event::Recorded`].
    Record(R),
    /// Look for a request to record, without waiting. Answered by [`Event::Received`].
    TryReceive,
    /// Stop the clock that has run since the recorder was locked for recording. Answered by
    /// [`Event::RecordTimed`].
    StopRecordTimer,
    /// Hash so often with the locked hash chain, and measure how long that takes. Answered by
    /// [`Event::Hashed`]; see [`TickProducer::hash`].
    Hash(u64),
    /// Tick with the locked recorder, and measure how long that takes. Answered by
    /// [`Event::Ticked`].
    Tick,
    /// Unlock the recorder. Answered by [`Event::Released`].
    ReleaseRecorder,
    /// Unlock the hash chain. Answered by [`Event::Released`].
    ReleasePoh,
    /// Report the counters for so many ticks per slot. Answered by [`Event::Reported`].
    Report(u64),
    /// Look whether the service is to exit. Answered by [`Event::Exit`].
    CheckExit,
    /// Let everyone know that the service has ended.
    Finish,
}

/// How the last action went.
#[derive(Debug, PartialEq, Eq)]
pub enum Event<R> {
    /// Nothing was done yet.
    Begin,
    Locked { lock_time_ns: u64 },
    /// The request was recorded. Whether the outcome reached whoever asked makes no difference.
    Recorded { delivered: bool },
    /// A request was waiting, or none was.
    Received(Option<R>),
    RecordTimed { record_time_us: u64 },
    /// The batch was hashed, and the hash chain calls for a tick or does not.
    Hashed { should_tick: bool, hash_time_ns: u64 },
    Ticked { tick_time_ns: u64 },
    Released,
    Reported,
    Exit(bool),
}

/// Where a round of recording or hashing stands: what it waits for.
#[derive(Debug, Clone, Copy, PartialEq, Eq)]
pub enum RecordOrHashPhase {
    Entering,
    LockingRecorder,
    Recording,
    PollingAfterRecord,
    TimingRecords,
    ReleasingRecorder,
    LockingPoh,
    Hashing,
    PollingAfterHash,
    ReleasingPoh { should_tick: bool },
}

/// What a round of recording or hashing comes to.
#[derive(Debug, PartialEq, Eq)]
pub enum RecordOrHash<R> {
    /// It goes on with this action.
    Continue(Action<R>),
    /// It is over, and a tick is needed or not.
    Return { should_tick: bool },
}

/// Where the tick producer stands: what it waits for.
#[derive(Debug, Clone, Copy, PartialEq, Eq)]
pub enum TickPhase {
    RecordOrHash(RecordOrHashPhase),
    LockingForTick,
    Ticking,
    ReleasingAfterTick,
    Reporting,
    CheckingExit,
    Finished,
}

/// The tick producer of a cluster that hashes, over requests of type `R`.
#[derive(Debug, PartialEq, Eq)]
pub struct TickProducer<R> {
    pub ticks_per_slot: u64,
    pub hashes_per_batch: u64,
    pub phase: TickPhase,
    /// The request that was noticed while hashing, until it is recorded.
    pub next_record: Option<R>,
}

impl RecordOrHashPhase {
    /// Whether a request is on hold in this phase. A round may be entered with or without one.
    pub open spec fn holds(self, next_record: bool) -> bool {
        match self {
            RecordOrHashPhase::Entering => true,
            RecordOrHashPhase::LockingRecorder => next_record,
            RecordOrHashPhase::ReleasingPoh { should_tick } => next_record == !should_tick,
            _ => !next_record,
        }
    }

    /// Whether `event` is an answer to the action that this phase waits for.
    pub open spec fn accepts<R>(self, event: Event<R>) -> bool {
        match self {
            RecordOrHashPhase::Entering => event is Begin,
            RecordOrHashPhase::LockingRecorder => event is Locked,
            RecordOrHashPhase::Recording => event is Recorded,
            RecordOrHashPhase::PollingAfterRecord => event is Received,
            RecordOrHashPhase::TimingRecords => event is RecordTimed,
            RecordOrHashPhase::ReleasingRecorder => event is Released,
            RecordOrHashPhase::LockingPoh => event is Locked,
            RecordOrHashPhase::Hashing => event is Hashed,
            RecordOrHashPhase::PollingAfterHash => event is Received,
            RecordOrHashPhase::ReleasingPoh { .. } => event is Released,
        }
    }
}

impl TickPhase {
    /// Whether a request is on hold in this phase.
    pub open spec fn holds(self, next_record: bool) -> bool {
        match self {
            TickPhase::RecordOrHash(phase) => phase.holds(next_record),
            _ => !next_record,
        }
    }

    /// Whether `event` is an answer to the action that this phase waits for.
    pub open spec fn accepts<R>(self, event: Event<R>) -> bool {
        match self {
            TickPhase::RecordOrHash(phase) => phase.accepts(event),
            TickPhase::LockingForTick => event is Locked,
            TickPhase::Ticking => event is Ticked,
            TickPhase::ReleasingAfterTick => event is Released,
            TickPhase::Reporting => event is Reported,
            TickPhase::CheckingExit => event is Exit,
            TickPhase::Finished => false,
        }
    }
}

/// One step of a round of recording or hashing: the next phase, the request on hold, and what the
/// round comes to.
///
/// With a request on hold, the recorder is locked, and requests are recorded for as long as more
/// are waiting. With none, the hash chain is locked and batches are hashed, until the chain calls
/// for a tick or a request is waiting, which is then put on hold.
pub open spec fn record_or_hash_step<R>(
    phase: RecordOrHashPhase,
    next_record: Option<R>,
    hashes_per_batch: u64,
    event: Event<R>,
) -> (RecordOrHashPhase, Option<R>, RecordOrHash<R>) {
    match phase {
        RecordOrHashPhase::Entering => if next_record is Some {
            (
                RecordOrHashPhase::LockingRecorder,
                next_record,
                RecordOrHash::Continue(Action::LockRecorder),
            )
        } else {
            (RecordOrHashPhase::LockingPoh, None, RecordOrHash::Continue(Action::LockPoh))
        },
        RecordOrHashPhase::LockingRecorder => (
            RecordOrHashPhase::Recording,
            None,
            RecordOrHash::Continue(Action::Record(next_record->0)),
        ),
        RecordOrHashPhase::Recording => (
            RecordOrHashPhase::PollingAfterRecord,
            None,
            RecordOrHash::Continue(Action::TryReceive),
        ),
        RecordOrHashPhase::PollingAfterRecord => match event->Received_0 {
            Some(record) => (
                RecordOrHashPhase::Recording,
                None,
                RecordOrHash::Continue(Action::Record(record)),
            ),
            None => (
                RecordOrHashPhase::TimingRecords,
                None,
                RecordOrHash::Continue(Action::StopRecordTimer),
            ),
        },
        RecordOrHashPhase::TimingRecords => (
            RecordOrHashPhase::ReleasingRecorder,
            None,
            RecordOrHash::Continue(Action::ReleaseRecorder),
        ),
        RecordOrHashPhase::ReleasingRecorder => (
            RecordOrHashPhase::Entering,
            None,
            RecordOrHash::Return { should_tick: false },
        ),
        RecordOrHashPhase::LockingPoh => (
            RecordOrHashPhase::Hashing,
            None,
            RecordOrHash::Continue(Action::Hash(hashes_per_batch)),
        ),
        RecordOrHashPhase::Hashing => if event->should_tick {
            (
                RecordOrHashPhase::ReleasingPoh { should_tick: true },
                None,
                RecordOrHash::Continue(Action::ReleasePoh),
            )
        } else {
            (
                RecordOrHashPhase::PollingAfterHash,
                None,
                RecordOrHash::Continue(Action::TryReceive),
            )
        },
        RecordOrHashPhase::PollingAfterHash => match event->Received_0 {
            Some(record) => (
                RecordOrHashPhase::ReleasingPoh { should_tick: false },
                Some(record),
                RecordOrHash::Continue(Action::ReleasePoh),
            ),
            None => (
                RecordOrHashPhase::Hashing,
                None,
                RecordOrHash::Continue(Action::Hash(hashes_per_batch)),
            ),
        },
        RecordOrHashPhase::ReleasingPoh { should_tick } => (
            RecordOrHashPhase::Entering,
            next_record,
            RecordOrHash::Return { should_tick },
        ),
    }
}

impl<R> TickProducer<R> {
    /// The producer before anything was done.
    pub open spec fn initial(ticks_per_slot: u64, hashes_per_batch: u64) -> TickProducer<R> {
        TickProducer {
            ticks_per_slot,
            hashes_per_batch,
            phase: TickPhase::RecordOrHash(RecordOrHashPhase::Entering),
            next_record: None,
        }
    }

    /// A request is on hold exactly where the phase says so.
    pub open spec fn well_formed(self) -> bool {
        self.phase.holds(self.next_record is Some)
    }

    /// Whether the producer can take `event`: it is an answer to the last action.
    pub open spec fn accepts(self, event: Event<R>) -> bool {
        self.well_formed() && self.phase.accepts(event)
    }

    /// What `event` adds to the counters. A hash is counted for each request that was recorded,
    /// and the hashes of a batch when the batch is asked for.
    pub open spec fn charge_of(self, event: Event<R>) -> PohCharge {
        match event {
            Event::Locked { lock_time_ns } => PohCharge {
                lock_time_ns,
                num_hashes: if self.phase == TickPhase::RecordOrHash(
                    RecordOrHashPhase::LockingPoh,
                ) {
                    self.hashes_per_batch
                } else {
                    0
                },
                ..PohCharge::zero()
            },
            Event::Recorded { .. } => PohCharge { num_hashes: 1, ..PohCharge::zero() },
            Event::Received(None) => PohCharge {
                num_hashes: if self.phase == TickPhase::RecordOrHash(
                    RecordOrHashPhase::PollingAfterHash,
                ) {
                    self.hashes_per_batch
                } else {
                    0
                },
                ..PohCharge::zero()
            },
            Event::RecordTimed { record_time_us } => PohCharge {
                record_time_us,
                ..PohCharge::zero()
            },
            Event::Hashed { hash_time_ns, .. } => PohCharge { hash_time_ns, ..PohCharge::zero() },
            Event::Ticked { tick_time_ns } => PohCharge { tick_time_ns, ..PohCharge::zero() },
            Event::Released => PohCharge {
                num_ticks: if self.phase == TickPhase::ReleasingAfterTick {
                    1
                } else {
                    0
                },
                ..PohCharge::zero()
            },
            _ => PohCharge::zero(),
        }
    }

    /// The producer in another phase, with another request on hold.
    pub open spec fn at(self, phase: TickPhase, next_record: Option<R>) -> TickProducer<R> {
        TickProducer { phase, next_record, ..self }
    }

    /// The first step of a new round of recording or hashing.
    pub open spec fn next_round(self, next_record: Option<R>) -> (TickProducer<R>, Action<R>) {
        let (phase, kept, outcome) = record_or_hash_step(
            RecordOrHashPhase::Entering,
            next_record,
            self.hashes_per_batch,
            Event::Begin,
        );
        (self.at(TickPhase::RecordOrHash(phase), kept), outcome->Continue_0)
    }

    /// One step of the producer: its next state and the action that it asks for.
    ///
    /// A round of recording or hashing that needs no tick is followed by the next round. One that
    /// needs a tick is followed by the tick, the report and a look at the exit flag.
    pub open spec fn next(self, event: Event<R>) -> (TickProducer<R>, Action<R>) {
        match self.phase {
            TickPhase::RecordOrHash(phase) => {
                let (next_phase, kept, outcome) = record_or_hash_step(
                    phase,
                    self.next_record,
                    self.hashes_per_batch,
                    event,
                );
                match outcome {
                    RecordOrHash::Continue(action) => (
                        self.at(TickPhase::RecordOrHash(next_phase), kept),
                        action,
                    ),
                    RecordOrHash::Return { should_tick } => if should_tick {
                        (self.at(TickPhase::LockingForTick, kept), Action::LockRecorder)
                    } else {
                        self.next_round(kept)
                    },
                }
            },
            TickPhase::LockingForTick => (self.at(TickPhase::Ticking, None), Action::Tick),
            TickPhase::Ticking => (
                self.at(TickPhase::ReleasingAfterTick, None),
                Action::ReleaseRecorder,
            ),
            TickPhase::ReleasingAfterTick => (
                self.at(TickPhase::Reporting, None),
                Action::Report(self.ticks_per_slot),
            ),
            TickPhase::Reporting => (self.at(TickPhase::CheckingExit, None), Action::CheckExit),
            TickPhase::CheckingExit => if event->Exit_0 {
                (self.at(TickPhase::Finished, None), Action::Finish)
            } else {
                self.next_round(None)
            },
            TickPhase::Finished => (self, Action::Finish),
        }
    }

    /// A producer that has done nothing yet. It waits for [`Event::Begin`].
    pub fn new(ticks_per_slot: u64, hashes_per_batch: u64) -> (producer: Self)
        ensures
            producer == Self::initial(ticks_per_slot, hashes_per_batch),
            producer.ticks_per_slot == ticks_per_slot,
            producer.hashes_per_batch == hashes_per_batch,
            producer.phase == TickPhase::RecordOrHash(RecordOrHashPhase::Entering),
            producer.next_record is None,
            producer.well_formed(),
    {
        TickProducer {
            ticks_per_slot,
            hashes_per_batch,
            phase: TickPhase::RecordOrHash(RecordOrHashPhase::Entering),
            next_record: None,
        }
    }

    /// Tells whether the producer can take `event`.
    pub fn is_ready_for(&self, event: &Event<R>) -> (yes: bool)
        ensures
            yes == self.accepts(*event),
    {
        let holding = self.next_record.is_some();
        match self.phase {
            TickPhase::RecordOrHash(phase) => match phase {
                RecordOrHashPhase::Entering => matches!(event, Event::Begin),
                RecordOrHashPhase::LockingRecorder => holding
                    && matches!(event, Event::Locked { .. }),
                RecordOrHashPhase::Recording => !holding
                    && matches!(event, Event::Recorded { .. }),
                RecordOrHashPhase::PollingAfterRecord => !holding
                    && matches!(event, Event::Received(_)),
                RecordOrHashPhase::TimingRecords => !holding
                    && matches!(event, Event::RecordTimed { .. }),
                RecordOrHashPhase::ReleasingRecorder => !holding
                    && matches!(event, Event::Released),
                RecordOrHashPhase::LockingPoh => !holding && matches!(event, Event::Locked { .. }),
                RecordOrHashPhase::Hashing => !holding && matches!(event, Event::Hashed { .. }),
                RecordOrHashPhase::PollingAfterHash => !holding
                    && matches!(event, Event::Received(_)),
                RecordOrHashPhase::ReleasingPoh { should_tick } => holding == !should_tick
                    && matches!(event, Event::Released),
            },
            TickPhase::LockingForTick => !holding && matches!(event, Event::Locked { .. }),
            TickPhase::Ticking => !holding && matches!(event, Event::Ticked { .. }),
            TickPhase::ReleasingAfterTick => !holding && matches!(event, Event::Released),
            TickPhase::Reporting => !holding && matches!(event, Event::Reported),
            TickPhase::CheckingExit => !holding && matches!(event, Event::Exit(_)),
            TickPhase::Finished => false,
        }
    }

    /// What `event` adds to the counters.
    pub fn charge_for(&self, event: &Event<R>) -> (charge: PohCharge)
        ensures
            charge == self.charge_of(*event),
    {
        let mut charge = PohCharge::none();
        match event {
            Event::Locked { lock_time_ns } => {
                charge.lock_time_ns = *lock_time_ns;
                if let TickPhase::RecordOrHash(RecordOrHashPhase::LockingPoh) = self.phase {
                    charge.num_hashes = self.hashes_per_batch;
                }
            },
            Event::Recorded { .. } => {
                // note: may have also ticked inside record
                charge.num_hashes = 1;
            },
            Event::Received(None) => {
                if let TickPhase::RecordOrHash(RecordOrHashPhase::PollingAfterHash) = self.phase {
                    charge.num_hashes = self.hashes_per_batch;
                }
            },
            Event::RecordTimed { record_time_us } => {
                charge.record_time_us = *record_time_us;
            },
            Event::Hashed { hash_time_ns, .. } => {
                charge.hash_time_ns = *hash_time_ns;
            },
            Event::Ticked { tick_time_ns } => {
                charge.tick_time_ns = *tick_time_ns;
            },
            Event::Released => {
                if let TickPhase::ReleasingAfterTick = self.phase {
                    charge.num_ticks = 1;
                }
            },
            _ => {},
        }
        charge
    }

    /// Hashes one batch with the locked hash chain, which is what [`Action::Hash`] asks for, and
    /// gives the event to go on with. The time in it is what a watch that was started and stopped
    /// shows.
    pub fn hash(&self, poh: &mut Poh) -> (event: Event<R>)
        ensures
            event is Hashed,
            *final(poh) == hashed(*old(poh), self.hashes_per_batch),
            hash_count(*old(poh)).remaining >= 1,
            hash_count(*final(poh)) == hash_count(*old(poh)).after_batch(self.hashes_per_batch),
            event->should_tick == hash_count(*final(poh)).should_tick(),
            exists|watch: &mut Measure|
                {
                    &&& call_ensures(Measure::start, ("hash",), *watch)
                    &&& call_ensures(Measure::stop, (watch,), ())
                    &&& event->hash_time_ns == #[trigger] shown_ns(*final(watch))
                },
    {
        let mut hash_time = Measure::start("hash");
        let should_tick = poh.hash(self.hashes_per_batch);
        hash_time.stop();
        Event::Hashed { should_tick, hash_time_ns: hash_time.as_ns() }
    }

    /// One step of a round of recording or hashing. It returns that a tick is needed exactly when
    /// the hash chain called for one.
    pub fn record_or_hash(&mut self, event: Event<R>, timing: &mut PohTiming) -> (outcome:
        RecordOrHash<R>)
        requires
            old(self).accepts(event),
            old(self).phase is RecordOrHash,
            old(timing).has_room_for(old(self).charge_of(event)),
        ensures
            ({
                let (phase, kept, result) = record_or_hash_step(
                    old(self).phase->RecordOrHash_0,
                    old(self).next_record,
                    old(self).hashes_per_batch,
                    event,
                );
                &&& *final(self) == old(self).at(TickPhase::RecordOrHash(phase), kept)
                &&& outcome == result
            }),
            final(self).well_formed(),
            *final(timing) == old(timing).plus(old(self).charge_of(event)),
    {
        let charge = self.charge_for(&event);
        timing.charge(&charge);
        let phase = match self.phase {
            TickPhase::RecordOrHash(phase) => phase,
            _ => unreached(),
        };
        let (next_phase, outcome) = match phase {
            RecordOrHashPhase::Entering => if self.next_record.is_some() {
                (RecordOrHashPhase::LockingRecorder, RecordOrHash::Continue(Action::LockRecorder))
            } else {
                // did not receive instructions to record, so hash until we notice we've been
                // asked to record (or we need to tick) and then remember what to record
                (RecordOrHashPhase::LockingPoh, RecordOrHash::Continue(Action::LockPoh))
            },
            RecordOrHashPhase::LockingRecorder => match self.next_record.take() {
                Some(record) => (
                    RecordOrHashPhase::Recording,
                    RecordOrHash::Continue(Action::Record(record)),
                ),
                None => unreached(),
            },
            RecordOrHashPhase::Recording => (
                RecordOrHashPhase::PollingAfterRecord,
                RecordOrHash::Continue(Action::TryReceive),
            ),
            RecordOrHashPhase::PollingAfterRecord => match event {
                // there is a second request already, so record again while the recorder is locked
                Event::Received(Some(record)) => (
                    RecordOrHashPhase::Recording,
                    RecordOrHash::Continue(Action::Record(record)),
                ),
                _ => (
                    RecordOrHashPhase::TimingRecords,
                    RecordOrHash::Continue(Action::StopRecordTimer),
                ),
            },
            RecordOrHashPhase::TimingRecords => (
                RecordOrHashPhase::ReleasingRecorder,
                RecordOrHash::Continue(Action::ReleaseRecorder),
            ),
            // the recorder would have ticked if it needed to
            RecordOrHashPhase::ReleasingRecorder => (
                RecordOrHashPhase::Entering,
                RecordOrHash::Return { should_tick: false },
            ),
            RecordOrHashPhase::LockingPoh => (
                RecordOrHashPhase::Hashing,
                RecordOrHash::Continue(Action::Hash(self.hashes_per_batch)),
            ),
            RecordOrHashPhase::Hashing => match event {
                // nothing else can be done. tick required.
                Event::Hashed { should_tick: true, .. } => (
                    RecordOrHashPhase::ReleasingPoh { should_tick: true },
                    RecordOrHash::Continue(Action::ReleasePoh),
                ),
                // check to see if a record request has been sent
                _ => (
                    RecordOrHashPhase::PollingAfterHash,
                    RecordOrHash::Continue(Action::TryReceive),
                ),
            },
            RecordOrHashPhase::PollingAfterHash => match event {
                // remember the record we just received as the next record to occur
                Event::Received(Some(record)) => {
                    self.next_record = Some(record);
                    (
                        RecordOrHashPhase::ReleasingPoh { should_tick: false },
                        RecordOrHash::Continue(Action::ReleasePoh),
                    )
                },
                _ => (
                    RecordOrHashPhase::Hashing,
                    RecordOrHash::Continue(Action::Hash(self.hashes_per_batch)),
                ),
            },
            RecordOrHashPhase::ReleasingPoh { should_tick } => (
                RecordOrHashPhase::Entering,
                RecordOrHash::Return { should_tick },
            ),
        };
        self.phase = TickPhase::RecordOrHash(next_phase);
        outcome
    }

    /// One step of the producer: takes the answer to the last action, adds to the counters, and
    /// gives the next action.
    pub fn step(&mut self, event: Event<R>, timing: &mut PohTiming) -> (action: Action<R>)
        requires
            old(self).accepts(event),
            old(timing).has_room_for(old(self).charge_of(event)),
        ensures
            (*final(self), action) == old(self).next(event),
            final(self).well_formed(),
            *final(timing) == old(timing).plus(old(self).charge_of(event)),
    {
        if let TickPhase::RecordOrHash(_) = self.phase {
            match self.record_or_hash(event, timing) {
                RecordOrHash::Continue(action) => action,
                RecordOrHash::Return { should_tick } => if should_tick {
                    self.phase = TickPhase::LockingForTick;
                    Action::LockRecorder
                } else {
                    self.begin_round(timing)
                },
            }
        } else {
            let charge = self.charge_for(&event);
            timing.charge(&charge);
            match self.phase {
                TickPhase::LockingForTick => {
                    self.phase = TickPhase::Ticking;
                    Action::Tick
                },
                TickPhase::Ticking => {
                    self.phase = TickPhase::ReleasingAfterTick;
                    Action::ReleaseRecorder
                },
                TickPhase::ReleasingAfterTick => {
                    self.phase = TickPhase::Reporting;
                    Action::Report(self.ticks_per_slot)
                },
                TickPhase::Reporting => {
                    self.phase = TickPhase::CheckingExit;
                    Action::CheckExit
                },
                TickPhase::CheckingExit => match event {
                    Event::Exit(true) => {
                        self.phase = TickPhase::Finished;
                        Action::Finish
                    },
                    _ => self.begin_round(timing),
                },
                _ => unreached(),
            }
        }
    }

    /// Enters the next round of recording or hashing.
    fn begin_round(&mut self, timing: &mut PohTiming) -> (action: Action<R>)
        ensures
            (*final(self), action) == old(self).next_round(old(self).next_record),
            final(self).well_formed(),
            *final(timing) == *old(timing),
    {
        self.phase = TickPhase::RecordOrHash(RecordOrHashPhase::Entering);
        match self.record_or_hash(Event::Begin, timing) {
            RecordOrHash::Continue(action) => action,
            RecordOrHash::Return { .. } => unreached(),
        }
    }
}

} // verus!
