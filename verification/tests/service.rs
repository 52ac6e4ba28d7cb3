use poh_service::service::{ExchangeAction, ExchangeEvent, TARGET_SLOT_ADJUSTMENT_NS};
use poh_service::{
    PohConfig, PohService, Producer, DEFAULT_HASHES_PER_BATCH, DEFAULT_PINNED_CPU_CORE,
};
use std::time::Duration;

const TICK: Duration = Duration::from_micros(6250);

fn config(hashes_per_tick: Option<u64>, target_tick_count: Option<u64>) -> PohConfig {
    PohConfig {
        target_tick_duration: TICK,
        target_tick_count,
        hashes_per_tick,
    }
}

#[test]
fn defaults() {
    assert_eq!(DEFAULT_HASHES_PER_BATCH, 64);
    assert_eq!(DEFAULT_PINNED_CPU_CORE, 0);
    assert_eq!(TARGET_SLOT_ADJUSTMENT_NS, 50_000_000);
}

#[test]
fn hashes_per_tick_asks_for_hashing() {
    for target_tick_count in [None, Some(3)] {
        let service = PohService::new(&config(Some(12_500), target_tick_count), 64, 2, 16);
        assert_eq!(
            service.producer,
            Producer::Hashing {
                pinned_cpu_core: 2,
                ticks_per_slot: 64,
                hashes_per_batch: 16
            }
        );
    }
}

#[test]
fn no_hashes_and_no_count_sleeps_without_end() {
    assert_eq!(
        PohService::new(&config(None, None), 64, 2, 16).producer,
        Producer::Sleepy {
            target_tick_duration: TICK
        }
    );
}

#[test]
fn no_hashes_and_a_count_sleeps_for_that_count() {
    assert_eq!(
        PohService::new(&config(None, Some(7)), 64, 2, 16).producer,
        Producer::ShortLivedSleepy {
            target_tick_duration: TICK,
            target_tick_count: 7
        }
    );
}

#[test]
fn pins_to_the_core_at_the_index() {
    let ids = Some(vec![4, 5, 9]);
    assert_eq!(PohService::pinned_core(&ids, 0), Some(4));
    assert_eq!(PohService::pinned_core(&ids, 2), Some(9));
    assert_eq!(PohService::pinned_core(&None, 2), None);
}

#[test]
fn target_leaves_time_for_other_work() {
    // 50 ms over 64 ticks
    assert_eq!(PohService::target_ns_per_tick(64, 6_250_000), 5_468_750);
    assert_eq!(PohService::target_ns_per_tick(3, 100_000_000), 83_333_334);
}

#[test]
fn target_without_ticks_is_the_whole_tick() {
    assert_eq!(PohService::target_ns_per_tick(0, 6_250_000), 6_250_000);
}

#[test]
fn target_stops_at_zero() {
    assert_eq!(PohService::target_ns_per_tick(1, 6_250_000), 0);
    assert_eq!(PohService::target_ns_per_tick(1, 50_000_000), 0);
    assert_eq!(PohService::target_ns_per_tick(1, 50_000_001), 1);
    assert_eq!(PohService::target_ns_per_tick(u64::MAX, 5), 5);
}

#[test]
fn target_fits_slot_and_is_monotonic() {
    let mut last = 0;
    for ticks_per_slot in 1..200 {
        let target = PohService::target_ns_per_tick(ticks_per_slot, 6_250_000);
        assert!(target >= last);
        assert!(ticks_per_slot * (6_250_000 - target) <= TARGET_SLOT_ADJUSTMENT_NS);
        assert!(target <= PohService::target_ns_per_tick(ticks_per_slot, 6_250_001));
        last = target;
    }
}

#[test]
fn a_request_is_recorded_and_answered() {
    assert_eq!(
        PohService::read_record_receiver_and_process::<u8>(TICK, ExchangeEvent::Begin),
        ExchangeAction::Receive(TICK)
    );
    assert_eq!(
        PohService::read_record_receiver_and_process(TICK, ExchangeEvent::Received(Some(7u8))),
        ExchangeAction::RecordAndAnswer(7)
    );
    assert_eq!(
        PohService::read_record_receiver_and_process::<u8>(
            TICK,
            ExchangeEvent::Answered { delivered: true }
        ),
        ExchangeAction::Done
    );
}

#[test]
fn nothing_is_recorded_when_nothing_comes() {
    assert_eq!(
        PohService::read_record_receiver_and_process::<u8>(TICK, ExchangeEvent::Received(None)),
        ExchangeAction::Done
    );
}

#[test]
fn a_lost_answer_is_a_failure() {
    assert_eq!(
        PohService::read_record_receiver_and_process::<u8>(
            TICK,
            ExchangeEvent::Answered { delivered: false }
        ),
        ExchangeAction::Fail
    );
}
