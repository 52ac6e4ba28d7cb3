//! What the tick producer counts, and the report that it makes of it.
use std::time::Instant;
use vstd::prelude::*;

verus! {

/// The instants of `std::time`. Nothing is known of a value.
#[verifier::external_type_specification]
#[verifier::external_body]
pub struct ExInstant(std::time::Instant);

/// `Instant::now`: the time of the call. Nothing is claimed of it.
pub assume_specification[ std::time::Instant::now ]() -> (now: std::time::Instant);

/// Whether the clock can have shown `at`: a call of `Instant::now` can have returned it.
pub open spec fn is_clock_reading(at: Instant) -> bool {
    call_ensures(std::time::Instant::now, (), at)
}

/// The time from `since` to `at`, in whole nanoseconds: what `at.duration_since(since)` returns.
pub uninterp spec fn ns_between(since: Instant, at: Instant) -> u128;

/// `Instant::duration_since`: the time from `since` to `at`, in whole nanoseconds. It is a matter
/// of the two instants alone. Nothing is said of how long it is.
#[verifier::external_body]
fn ns_since(at: &Instant, since: &Instant) -> (ns: u128)
    ensures
        ns == ns_between(*since, *at),
{
    at.duration_since(*since).as_nanos()
}

/// The counters of the tick producer since its last report.
#[derive(Debug)]
pub struct PohTiming {
    pub num_ticks: u64,
    pub num_hashes: u64,
    pub total_sleep_us: u64,
    pub total_lock_time_ns: u64,
    pub total_hash_time_ns: u64,
    pub total_tick_time_ns: u64,
    pub last_metric: Instant,
    pub total_record_time_us: u64,
}

/// What one step of the tick producer adds to the counters.
#[derive(Debug, Clone, Copy, PartialEq, Eq)]
pub struct PohCharge {
    pub num_ticks: u64,
    pub num_hashes: u64,
    pub lock_time_ns: u64,
    pub hash_time_ns: u64,
    pub tick_time_ns: u64,
    pub record_time_us: u64,
}

/// One report of the tick producer: the point `poh-service` with its fields.
#[derive(Debug, Clone, Copy, PartialEq, Eq)]
pub struct PohReport {
    pub ticks: u64,
    pub hashes: u64,
    /// The time that a slot took on average.
    pub elapsed_us: u64,
    pub total_sleep_us: u64,
    pub total_tick_time_us: u64,
    pub total_lock_time_us: u64,
    pub total_hash_time_us: u64,
    pub total_record_time_us: u64,
}

/// Why a report that is due cannot be made.
#[derive(Debug, Clone, Copy, PartialEq, Eq)]
pub enum ReportError {
    /// No tick was counted, so there is nothing to take the average over.
    NoTicks,
    /// The time since the last report, multiplied by the ticks per slot, passes the range of
    /// `u64`.
    Overflow,
}

/// The whole milliseconds in `ns` nanoseconds.
pub open spec fn whole_millis(ns: u128) -> int {
    ns as int / 1_000_000
}

/// The whole microseconds in `ns` nanoseconds, as far as 64 bits hold them.
pub open spec fn low_micros(ns: u128) -> int {
    (ns as int / 1000) % 0x1_0000_0000_0000_0000
}

/// A report is due once more than a second, counted in whole milliseconds, has gone by.
pub open spec fn report_due(elapsed_ns: u128) -> bool {
    whole_millis(elapsed_ns) > 1000
}

impl PohCharge {
    /// The charge of a step that adds nothing.
    pub open spec fn zero() -> PohCharge {
        PohCharge {
            num_ticks: 0,
            num_hashes: 0,
            lock_time_ns: 0,
            hash_time_ns: 0,
            tick_time_ns: 0,
            record_time_us: 0,
        }
    }

    pub fn none() -> (charge: PohCharge)
        ensures
            charge == PohCharge::zero(),
            charge.num_ticks == 0,
            charge.num_hashes == 0,
            charge.lock_time_ns == 0,
            charge.hash_time_ns == 0,
            charge.tick_time_ns == 0,
            charge.record_time_us == 0,
    {
        PohCharge {
            num_ticks: 0,
            num_hashes: 0,
            lock_time_ns: 0,
            hash_time_ns: 0,
            tick_time_ns: 0,
            record_time_us: 0,
        }
    }
}

impl PohTiming {
    /// Whether every counter can take the charge.
    pub open spec fn has_room_for(self, charge: PohCharge) -> bool {
        &&& self.num_ticks + charge.num_ticks <= u64::MAX
        &&& self.num_hashes + charge.num_hashes <= u64::MAX
        &&& self.total_lock_time_ns + charge.lock_time_ns <= u64::MAX
        &&& self.total_hash_time_ns + charge.hash_time_ns <= u64::MAX
        &&& self.total_tick_time_ns + charge.tick_time_ns <= u64::MAX
        &&& self.total_record_time_us + charge.record_time_us <= u64::MAX
    }

    /// The counters with the charge added.
    pub open spec fn plus(self, charge: PohCharge) -> PohTiming {
        PohTiming {
            num_ticks: (self.num_ticks + charge.num_ticks) as u64,
            num_hashes: (self.num_hashes + charge.num_hashes) as u64,
            total_lock_time_ns: (self.total_lock_time_ns + charge.lock_time_ns) as u64,
            total_hash_time_ns: (self.total_hash_time_ns + charge.hash_time_ns) as u64,
            total_tick_time_ns: (self.total_tick_time_ns + charge.tick_time_ns) as u64,
            total_record_time_us: (self.total_record_time_us + charge.record_time_us) as u64,
            ..self
        }
    }

    /// Nothing has been counted.
    pub open spec fn is_clear(self) -> bool {
        &&& self.num_ticks == 0
        &&& self.num_hashes == 0
        &&& self.total_sleep_us == 0
        &&& self.total_lock_time_ns == 0
        &&& self.total_hash_time_ns == 0
        &&& self.total_tick_time_ns == 0
        &&& self.total_record_time_us == 0
    }

    /// The report of the counters, `elapsed_us` microseconds after the last one.
    pub open spec fn report_of(self, elapsed_us: int, ticks_per_slot: u64) -> PohReport {
        PohReport {
            ticks: self.num_ticks,
            hashes: self.num_hashes,
            elapsed_us: (elapsed_us * ticks_per_slot / self.num_ticks as int) as u64,
            total_sleep_us: self.total_sleep_us,
            total_tick_time_us: self.total_tick_time_ns / 1000,
            total_lock_time_us: self.total_lock_time_ns / 1000,
            total_hash_time_us: self.total_hash_time_ns / 1000,
            total_record_time_us: self.total_record_time_us,
        }
    }

    /// The counters that have nothing counted, since `now`.
    pub open spec fn cleared(now: Instant) -> PohTiming {
        PohTiming {
            num_ticks: 0,
            num_hashes: 0,
            total_sleep_us: 0,
            total_lock_time_ns: 0,
            total_hash_time_ns: 0,
            total_tick_time_ns: 0,
            last_metric: now,
            total_record_time_us: 0,
        }
    }

    /// The counters after a report, and what the report came to. The clock showed `elapsed_ns`
    /// since the last report when it was looked at for whether one is due, `report_elapsed_ns` when
    /// it was looked at for the report, and `now` when the counters were cleared.
    pub open spec fn reported(
        self,
        elapsed_ns: u128,
        report_elapsed_ns: u128,
        now: Instant,
        ticks_per_slot: u64,
    ) -> (PohTiming, Result<Option<PohReport>, ReportError>) {
        if !report_due(elapsed_ns) {
            (self, Ok(None))
        } else if self.num_ticks == 0 {
            (self, Err(ReportError::NoTicks))
        } else if low_micros(report_elapsed_ns) * ticks_per_slot > u64::MAX {
            (self, Err(ReportError::Overflow))
        } else {
            (
                PohTiming::cleared(now),
                Ok(Some(self.report_of(low_micros(report_elapsed_ns), ticks_per_slot))),
            )
        }
    }

    /// Starts to count from zero, at the present time.
    pub fn new() -> (timing: Self)
        ensures
            timing.is_clear(),
            timing.num_ticks == 0,
            timing.num_hashes == 0,
            timing.total_sleep_us == 0,
            timing.total_lock_time_ns == 0,
            timing.total_hash_time_ns == 0,
            timing.total_tick_time_ns == 0,
            timing.total_record_time_us == 0,
            is_clock_reading(timing.last_metric),
            call_ensures(std::time::Instant::now, (), timing.last_metric),
    {
        Self {
            num_ticks: 0,
            num_hashes: 0,
            total_sleep_us: 0,
            total_lock_time_ns: 0,
            total_hash_time_ns: 0,
            total_tick_time_ns: 0,
            last_metric: Instant::now(),
            total_record_time_us: 0,
        }
    }

    /// Tells whether [`PohTiming::charge`] can add `charge`.
    pub fn can_take(&self, charge: &PohCharge) -> (yes: bool)
        ensures
            yes == self.has_room_for(*charge),
            yes <==> {
                &&& self.num_ticks + charge.num_ticks <= u64::MAX
                &&& self.num_hashes + charge.num_hashes <= u64::MAX
                &&& self.total_lock_time_ns + charge.lock_time_ns <= u64::MAX
                &&& self.total_hash_time_ns + charge.hash_time_ns <= u64::MAX
                &&& self.total_tick_time_ns + charge.tick_time_ns <= u64::MAX
                &&& self.total_record_time_us + charge.record_time_us <= u64::MAX
            },
    {
        charge.num_ticks <= u64::MAX - self.num_ticks
            && charge.num_hashes <= u64::MAX - self.num_hashes
            && charge.lock_time_ns <= u64::MAX - self.total_lock_time_ns
            && charge.hash_time_ns <= u64::MAX - self.total_hash_time_ns
            && charge.tick_time_ns <= u64::MAX - self.total_tick_time_ns
            && charge.record_time_us <= u64::MAX - self.total_record_time_us
    }

    /// Adds `charge` to the counters.
    pub fn charge(&mut self, charge: &PohCharge)
        requires
            old(self).has_room_for(*charge),
        ensures
            *final(self) == old(self).plus(*charge),
            final(self).num_ticks == old(self).num_ticks + charge.num_ticks,
            final(self).num_hashes == old(self).num_hashes + charge.num_hashes,
            final(self).total_lock_time_ns == old(self).total_lock_time_ns + charge.lock_time_ns,
            final(self).total_hash_time_ns == old(self).total_hash_time_ns + charge.hash_time_ns,
            final(self).total_tick_time_ns == old(self).total_tick_time_ns + charge.tick_time_ns,
            final(self).total_record_time_us == old(self).total_record_time_us
                + charge.record_time_us,
            final(self).total_sleep_us == old(self).total_sleep_us,
            final(self).last_metric == old(self).last_metric,
    {
        self.num_ticks = self.num_ticks + charge.num_ticks;
        self.num_hashes = self.num_hashes + charge.num_hashes;
        self.total_lock_time_ns = self.total_lock_time_ns + charge.lock_time_ns;
        self.total_hash_time_ns = self.total_hash_time_ns + charge.hash_time_ns;
        self.total_tick_time_ns = self.total_tick_time_ns + charge.tick_time_ns;
        self.total_record_time_us = self.total_record_time_us + charge.record_time_us;
    }

    /// Tells whether a report is due `elapsed_ns` nanoseconds after the last one.
    pub fn is_report_due(elapsed_ns: u128) -> (due: bool)
        ensures
            due == report_due(elapsed_ns),
            due <==> elapsed_ns >= 1_001_000_000,
    {
        elapsed_ns / 1_000_000 > 1000
    }

    /// Makes the report of the counters, `elapsed_ns` nanoseconds after the last one, and starts
    /// to count anew from `now`. Where the report cannot be made, the counters stay.
    pub fn take_report(
        &mut self,
        elapsed_ns: u128,
        now: Instant,
        ticks_per_slot: u64,
    ) -> (report: Result<PohReport, ReportError>)
        ensures
            report is Ok <==> old(self).num_ticks > 0 && low_micros(elapsed_ns) * ticks_per_slot
                <= u64::MAX,
            match report {
                Ok(made) => {
                    &&& made == old(self).report_of(low_micros(elapsed_ns), ticks_per_slot)
                    &&& made.elapsed_us == low_micros(elapsed_ns) * ticks_per_slot
                        / old(self).num_ticks as int
                    &&& made.ticks == old(self).num_ticks
                    &&& made.hashes == old(self).num_hashes
                    &&& made.elapsed_us * old(self).num_ticks <= low_micros(elapsed_ns)
                        * ticks_per_slot < (made.elapsed_us + 1) * old(self).num_ticks
                    &&& made.total_sleep_us == old(self).total_sleep_us
                    &&& made.total_record_time_us == old(self).total_record_time_us
                    &&& 1000 * made.total_tick_time_us <= old(self).total_tick_time_ns < 1000 * (
                    made.total_tick_time_us + 1)
                    &&& 1000 * made.total_lock_time_us <= old(self).total_lock_time_ns < 1000 * (
                    made.total_lock_time_us + 1)
                    &&& 1000 * made.total_hash_time_us <= old(self).total_hash_time_ns < 1000 * (
                    made.total_hash_time_us + 1)
                    &&& final(self).num_ticks == 0
                    &&& final(self).num_hashes == 0
                    &&& final(self).total_sleep_us == 0
                    &&& final(self).total_lock_time_ns == 0
                    &&& final(self).total_hash_time_ns == 0
                    &&& final(self).total_tick_time_ns == 0
                    &&& final(self).total_record_time_us == 0
                    &&& final(self).is_clear()
                    &&& final(self).last_metric == now
                },
                Err(ReportError::NoTicks) => {
                    &&& old(self).num_ticks == 0
                    &&& *final(self) == *old(self)
                },
                Err(ReportError::Overflow) => {
                    &&& old(self).num_ticks > 0
                    &&& *final(self) == *old(self)
                },
            },
    {
        let whole_us: u128 = elapsed_ns / 1000;
        let elapsed_us: u64 = #[verifier::truncate] (whole_us as u64);
        assert(elapsed_us as u128 == whole_us % 0x1_0000_0000_0000_0000u128) by (bit_vector)
            requires
                elapsed_us == whole_us as u64,
        ;
        if self.num_ticks == 0 {
            return Err(ReportError::NoTicks);
        }
        match elapsed_us.checked_mul(ticks_per_slot) {
            None => Err(ReportError::Overflow),
            Some(product) => {
                let us_per_slot: u64 = product / self.num_ticks;
                let report = PohReport {
                    ticks: self.num_ticks,
                    hashes: self.num_hashes,
                    elapsed_us: us_per_slot,
                    total_sleep_us: self.total_sleep_us,
                    total_tick_time_us: self.total_tick_time_ns / 1000,
                    total_lock_time_us: self.total_lock_time_ns / 1000,
                    total_hash_time_us: self.total_hash_time_ns / 1000,
                    total_record_time_us: self.total_record_time_us,
                };
                proof {
                    lemma_average(product as int, self.num_ticks as int);
                }
                self.total_sleep_us = 0;
                self.num_ticks = 0;
                self.num_hashes = 0;
                self.total_tick_time_ns = 0;
                self.total_lock_time_ns = 0;
                self.total_hash_time_ns = 0;
                self.last_metric = now;
                self.total_record_time_us = 0;
                Ok(report)
            },
        }
    }

    /// Makes a report, if one is due `elapsed_ns` nanoseconds after the last one, and starts to
    /// count anew from `now`; otherwise the counters stay. The report speaks of the time
    /// `report_elapsed_ns`.
    pub fn report_at(
        &mut self,
        elapsed_ns: u128,
        report_elapsed_ns: u128,
        now: Instant,
        ticks_per_slot: u64,
    ) -> (report: Result<Option<PohReport>, ReportError>)
        ensures
            (*final(self), report) == old(self).reported(
                elapsed_ns,
                report_elapsed_ns,
                now,
                ticks_per_slot,
            ),
    {
        if Self::is_report_due(elapsed_ns) {
            match self.take_report(report_elapsed_ns, now, ticks_per_slot) {
                Ok(made) => Ok(Some(made)),
                Err(error) => Err(error),
            }
        } else {
            Ok(None)
        }
    }

    /// Counts from `now`, with the counters as they are. This is for when the report has gone out:
    /// the time that it took to send belongs to no period.
    pub fn restart(&mut self, now: Instant)
        ensures
            *final(self) == (PohTiming { last_metric: now, ..*old(self) }),
    {
        self.last_metric = now;
    }

    /// Makes a report, if one is due by the clock, and starts to count anew; otherwise the
    /// counters stay. The clock is read for whether a report is due and, if one is, for the time
    /// that the report speaks of and for the time to count from. Both times are taken since the
    /// last report. What comes of each reading, see [`PohTiming::report_at`].
    pub fn report(&mut self, ticks_per_slot: u64) -> (report: Result<
        Option<PohReport>,
        ReportError,
    >)
        ensures
            exists|checked: Instant, read: Instant, now: Instant|
                {
                    &&& is_clock_reading(checked)
                    &&& is_clock_reading(read)
                    &&& is_clock_reading(now)
                    &&& (*final(self), report) == #[trigger] old(self).reported(
                        ns_between(old(self).last_metric, checked),
                        ns_between(old(self).last_metric, read),
                        now,
                        ticks_per_slot,
                    )
                },
    {
        let checked = Instant::now();
        let elapsed_ns = ns_since(&checked, &self.last_metric);
        if Self::is_report_due(elapsed_ns) {
            let read = Instant::now();
            let report_elapsed_ns = ns_since(&read, &self.last_metric);
            let now = Instant::now();
            self.report_at(elapsed_ns, report_elapsed_ns, now, ticks_per_slot)
        } else {
            // with no report due, the later readings make no difference
            assert((*self, Ok::<Option<PohReport>, ReportError>(None)) == old(self).reported(
                ns_between(old(self).last_metric, checked),
                ns_between(old(self).last_metric, checked),
                checked,
                ticks_per_slot,
            ));
            Ok(None)
        }
    }
}

/// A quotient, multiplied back.
proof fn lemma_average(total: int, ticks: int)
    requires
        0 <= total,
        ticks > 0,
    ensures
        (total / ticks) * ticks <= total < (total / ticks + 1) * ticks,
{
    let average = total / ticks;
    vstd::arithmetic::div_mod::lemma_fundamental_div_mod(total, ticks);
    assert(average * ticks == ticks * average) by (nonlinear_arith);
    assert((average + 1) * ticks == average * ticks + ticks) by (nonlinear_arith);
}

/// An instant is a reading of the clock if a call of `Instant::now` can have returned it.
pub proof fn law_clock_reading(at: Instant)
    ensures
        is_clock_reading(at) <==> call_ensures(std::time::Instant::now, (), at),
{
}

/// When a report is made, and what is in it.
///
/// With less than a thousand and one milliseconds gone by, nothing is reported, and the counters
/// stay. They also stay when the report cannot be made: because no tick was counted, or because
/// the microseconds since the last report, of which 64 bits are kept, times the ticks per slot pass
/// the range. Otherwise each counter is reported, the times in whole microseconds, with the average
/// time of a slot, and all the counters are cleared and run from `now`.
pub proof fn law_report(
    timing: PohTiming,
    elapsed_ns: u128,
    report_elapsed_ns: u128,
    now: Instant,
    ticks_per_slot: u64,
)
    ensures
        ({
            let (after, report) = timing.reported(
                elapsed_ns,
                report_elapsed_ns,
                now,
                ticks_per_slot,
            );
            let total_us = ((report_elapsed_ns as int / 1000) % 0x1_0000_0000_0000_0000)
                * ticks_per_slot;
            if elapsed_ns < 1_001_000_000 {
                after == timing && report == Ok::<Option<PohReport>, ReportError>(None)
            } else if timing.num_ticks == 0 {
                after == timing && report == Err::<Option<PohReport>, ReportError>(
                    ReportError::NoTicks,
                )
            } else if total_us > 0xffff_ffff_ffff_ffff {
                after == timing && report == Err::<Option<PohReport>, ReportError>(
                    ReportError::Overflow,
                )
            } else {
                &&& after.num_ticks == 0
                &&& after.num_hashes == 0
                &&& after.total_sleep_us == 0
                &&& after.total_lock_time_ns == 0
                &&& after.total_hash_time_ns == 0
                &&& after.total_tick_time_ns == 0
                &&& after.total_record_time_us == 0
                &&& after.last_metric == now
                &&& report matches Ok(Some(made))
                &&& made.ticks == timing.num_ticks
                &&& made.hashes == timing.num_hashes
                &&& made.elapsed_us * timing.num_ticks <= total_us < (made.elapsed_us + 1)
                    * timing.num_ticks
                &&& made.total_sleep_us == timing.total_sleep_us
                &&& made.total_record_time_us == timing.total_record_time_us
                &&& 1000 * made.total_tick_time_us <= timing.total_tick_time_ns < 1000 * (
                made.total_tick_time_us + 1)
                &&& 1000 * made.total_lock_time_us <= timing.total_lock_time_ns < 1000 * (
                made.total_lock_time_us + 1)
                &&& 1000 * made.total_hash_time_us <= timing.total_hash_time_ns < 1000 * (
                made.total_hash_time_us + 1)
            }
        }),
{
    let total_us = low_micros(report_elapsed_ns) * ticks_per_slot;
    assert(total_us >= 0) by (nonlinear_arith)
        requires
            total_us == low_micros(report_elapsed_ns) * ticks_per_slot,
            low_micros(report_elapsed_ns) >= 0,
    ;
    if timing.num_ticks > 0 && total_us <= u64::MAX {
        let ticks = timing.num_ticks as int;
        lemma_average(total_us, ticks);
        assert(total_us / ticks <= total_us) by (nonlinear_arith)
            requires
                total_us >= 0,
                ticks > 0,
        ;
        vstd::arithmetic::div_mod::lemma_div_pos_is_pos(total_us, ticks);
    }
}

} // verus!
