use poh_service::timing::{PohCharge, PohReport, PohTiming, ReportError};
use std::time::{Duration, Instant};

fn counted() -> PohTiming {
    PohTiming {
        num_ticks: 160,
        num_hashes: 2_000_000,
        total_sleep_us: 5,
        total_lock_time_ns: 12_345_678,
        total_hash_time_ns: 999,
        total_tick_time_ns: 1_000,
        last_metric: Instant::now(),
        total_record_time_us: 77,
    }
}

fn assert_clear(timing: &PohTiming) {
    assert_eq!(timing.num_ticks, 0);
    assert_eq!(timing.num_hashes, 0);
    assert_eq!(timing.total_sleep_us, 0);
    assert_eq!(timing.total_lock_time_ns, 0);
    assert_eq!(timing.total_hash_time_ns, 0);
    assert_eq!(timing.total_tick_time_ns, 0);
    assert_eq!(timing.total_record_time_us, 0);
}

#[test]
fn new_counts_from_zero_and_now() {
    let before = Instant::now();
    let timing = PohTiming::new();
    assert_clear(&timing);
    assert!(timing.last_metric >= before);
    assert!(timing.last_metric <= Instant::now());
}

#[test]
fn charge_adds_to_each_counter() {
    let mut timing = counted();
    let charge = PohCharge {
        num_ticks: 1,
        num_hashes: 2,
        lock_time_ns: 3,
        hash_time_ns: 4,
        tick_time_ns: 5,
        record_time_us: 6,
    };
    assert!(timing.can_take(&charge));
    timing.charge(&charge);
    assert_eq!(timing.num_ticks, 161);
    assert_eq!(timing.num_hashes, 2_000_002);
    assert_eq!(timing.total_sleep_us, 5);
    assert_eq!(timing.total_lock_time_ns, 12_345_681);
    assert_eq!(timing.total_hash_time_ns, 1_003);
    assert_eq!(timing.total_tick_time_ns, 1_005);
    assert_eq!(timing.total_record_time_us, 83);
}

#[test]
fn no_room_beyond_the_range() {
    let mut timing = PohTiming::new();
    timing.num_hashes = u64::MAX - 1;
    let mut charge = PohCharge::none();
    charge.num_hashes = 1;
    assert!(timing.can_take(&charge));
    charge.num_hashes = 2;
    assert!(!timing.can_take(&charge));
}

#[test]
fn report_is_due_after_more_than_a_second() {
    assert!(!PohTiming::is_report_due(0));
    assert!(!PohTiming::is_report_due(1_000_999_999));
    assert!(PohTiming::is_report_due(1_001_000_000));
}

#[test]
fn take_report_gives_the_counters_and_clears_them() {
    let mut timing = counted();
    let now = Instant::now();
    let report = timing.take_report(1_002_000_999, now, 64);
    assert_eq!(
        report,
        Ok(PohReport {
            ticks: 160,
            hashes: 2_000_000,
            elapsed_us: 400_800,
            total_sleep_us: 5,
            total_tick_time_us: 1,
            total_lock_time_us: 12_345,
            total_hash_time_us: 0,
            total_record_time_us: 77,
        })
    );
    assert_clear(&timing);
    assert_eq!(timing.last_metric, now);
}

#[test]
fn take_report_keeps_the_low_bits_of_the_time() {
    let mut timing = counted();
    let elapsed_ns = ((1u128 << 64) + 320) * 1000;
    let report = timing.take_report(elapsed_ns, Instant::now(), 1).unwrap();
    assert_eq!(report.elapsed_us, 2);
}

#[test]
fn take_report_needs_a_tick() {
    let mut timing = counted();
    timing.num_ticks = 0;
    let last_metric = timing.last_metric;
    assert_eq!(
        timing.take_report(2_000_000_000, Instant::now(), 64),
        Err(ReportError::NoTicks)
    );
    assert_eq!(timing.num_hashes, 2_000_000);
    assert_eq!(timing.last_metric, last_metric);
}

#[test]
fn take_report_tells_of_overflow() {
    let mut timing = counted();
    assert_eq!(
        timing.take_report(2_000_000_000, Instant::now(), u64::MAX),
        Err(ReportError::Overflow)
    );
    assert_eq!(timing.num_ticks, 160);
    let most = u64::MAX / 2_000_000;
    assert!(timing.take_report(2_000_000_000, Instant::now(), most).is_ok());
}

#[test]
fn report_at_goes_by_the_readings() {
    let mut timing = counted();
    let last_metric = timing.last_metric;
    let now = Instant::now();

    // not due by the first reading, whatever the second one
    assert_eq!(timing.report_at(1_000_999_999, 2_000_000_000, now, 64), Ok(None));
    assert_eq!(timing.num_ticks, 160);
    assert_eq!(timing.last_metric, last_metric);

    assert_eq!(
        timing.report_at(1_001_000_000, 2_000_000_000, now, u64::MAX),
        Err(ReportError::Overflow)
    );
    assert_eq!(timing.num_ticks, 160);

    let report = timing.report_at(1_001_000_000, 1_002_000_999, now, 64);
    assert_eq!(report.unwrap().unwrap().elapsed_us, 400_800);
    assert_clear(&timing);
    assert_eq!(timing.last_metric, now);

    assert_eq!(timing.report_at(0, 0, now, 64), Ok(None));
    assert_eq!(
        timing.report_at(1_001_000_000, 0, now, 64),
        Err(ReportError::NoTicks)
    );
}

#[test]
fn restart_moves_only_the_start() {
    let mut timing = counted();
    let now = timing.last_metric + Duration::from_secs(3);
    timing.restart(now);
    assert_eq!(timing.last_metric, now);
    assert_eq!(timing.num_ticks, 160);
    assert_eq!(timing.num_hashes, 2_000_000);
    assert_eq!(timing.total_sleep_us, 5);
    assert_eq!(timing.total_lock_time_ns, 12_345_678);
    assert_eq!(timing.total_hash_time_ns, 999);
    assert_eq!(timing.total_tick_time_ns, 1_000);
    assert_eq!(timing.total_record_time_us, 77);
}

#[test]
fn report_waits_for_the_clock() {
    let mut timing = counted();
    let last_metric = timing.last_metric;
    assert_eq!(timing.report(64), Ok(None));
    assert_eq!(timing.num_ticks, 160);
    assert_eq!(timing.last_metric, last_metric);
}

#[test]
fn report_goes_by_the_clock() {
    let mut timing = counted();
    let start = Instant::now();
    timing.last_metric = start - Duration::from_secs(2);
    let report = timing.report(160).unwrap().unwrap();
    assert_eq!(report.ticks, 160);
    assert_eq!(report.total_lock_time_us, 12_345);
    assert!(report.elapsed_us >= 2_000_000);
    assert!(report.elapsed_us <= 2_000_000 + start.elapsed().as_micros() as u64);
    assert_clear(&timing);
    assert!(timing.last_metric >= start);
    assert_eq!(timing.report(160), Ok(None));
}

#[test]
fn report_that_cannot_be_made() {
    let mut timing = counted();
    timing.last_metric = Instant::now() - Duration::from_secs(2);
    assert_eq!(timing.report(u64::MAX), Err(ReportError::Overflow));
    assert_eq!(timing.num_ticks, 160);
    timing.num_ticks = 0;
    assert_eq!(timing.report(64), Err(ReportError::NoTicks));
}
