use poh_service::tick_producer::{Action, Event, TickPhase, TickProducer};
use poh_service::timing::PohTiming;
use poh_service::{PohService, Producer, DEFAULT_HASHES_PER_BATCH, DEFAULT_PINNED_CPU_CORE};
use solana_entry::poh::{Poh, PohEntry};
use solana_sdk::clock;
use solana_sdk::hash::hash;

type TestEvent = Event<u32>;

fn locked(lock_time_ns: u64) -> TestEvent {
    Event::Locked { lock_time_ns }
}

fn recorded() -> TestEvent {
    Event::Recorded { delivered: true }
}

fn hashed(should_tick: bool, hash_time_ns: u64) -> TestEvent {
    Event::Hashed {
        should_tick,
        hash_time_ns,
    }
}

fn run(
    producer: &mut TickProducer<u32>,
    timing: &mut PohTiming,
    events: Vec<TestEvent>,
) -> Vec<Action<u32>> {
    let mut actions = Vec::new();
    for event in events {
        assert!(producer.is_ready_for(&event), "{:?}", event);
        assert!(timing.can_take(&producer.charge_for(&event)));
        actions.push(producer.step(event, timing));
    }
    actions
}

#[test]
fn hashes_until_a_tick_is_called_for() {
    let mut producer = TickProducer::new(64, 10);
    let mut timing = PohTiming::new();
    let actions = run(
        &mut producer,
        &mut timing,
        vec![
            Event::Begin,
            locked(5),
            hashed(false, 100),
            Event::Received(None),
            hashed(true, 200),
            Event::Released,
            locked(7),
            Event::Ticked { tick_time_ns: 30 },
            Event::Released,
            Event::Reported,
            Event::Exit(false),
            locked(1),
        ],
    );
    assert_eq!(
        actions,
        vec![
            Action::LockPoh,
            Action::Hash(10),
            Action::TryReceive,
            Action::Hash(10),
            Action::ReleasePoh,
            Action::LockRecorder,
            Action::Tick,
            Action::ReleaseRecorder,
            Action::Report(64),
            Action::CheckExit,
            Action::LockPoh,
            Action::Hash(10),
        ]
    );
    assert_eq!(timing.num_ticks, 1);
    assert_eq!(timing.num_hashes, 30);
    assert_eq!(timing.total_sleep_us, 0);
    assert_eq!(timing.total_lock_time_ns, 13);
    assert_eq!(timing.total_hash_time_ns, 300);
    assert_eq!(timing.total_tick_time_ns, 30);
    assert_eq!(timing.total_record_time_us, 0);
}

#[test]
fn records_as_long_as_requests_are_waiting() {
    let mut producer = TickProducer::new(64, 10);
    let mut timing = PohTiming::new();
    let actions = run(
        &mut producer,
        &mut timing,
        vec![
            Event::Begin,
            locked(5),
            hashed(false, 100),
            Event::Received(Some(1)),
            Event::Released,
            locked(2),
            recorded(),
            Event::Received(Some(2)),
            Event::Recorded { delivered: false },
            Event::Received(None),
            Event::RecordTimed { record_time_us: 9 },
            Event::Released,
            locked(3),
        ],
    );
    assert_eq!(
        actions,
        vec![
            Action::LockPoh,
            Action::Hash(10),
            Action::TryReceive,
            Action::ReleasePoh,
            Action::LockRecorder,
            Action::Record(1),
            Action::TryReceive,
            Action::Record(2),
            Action::TryReceive,
            Action::StopRecordTimer,
            Action::ReleaseRecorder,
            Action::LockPoh,
            Action::Hash(10),
        ]
    );
    assert_eq!(timing.num_ticks, 0);
    assert_eq!(timing.num_hashes, 22);
    assert_eq!(timing.total_lock_time_ns, 10);
    assert_eq!(timing.total_hash_time_ns, 100);
    assert_eq!(timing.total_record_time_us, 9);
    assert_eq!(producer.next_record, None);
}

#[test]
fn a_noticed_request_is_on_hold_until_it_is_recorded() {
    let mut producer = TickProducer::new(64, 10);
    let mut timing = PohTiming::new();
    run(
        &mut producer,
        &mut timing,
        vec![
            Event::Begin,
            locked(0),
            hashed(false, 0),
            Event::Received(Some(42)),
        ],
    );
    assert_eq!(producer.next_record, Some(42));
    run(&mut producer, &mut timing, vec![Event::Released]);
    assert_eq!(producer.next_record, Some(42));
    let actions = run(&mut producer, &mut timing, vec![locked(0)]);
    assert_eq!(actions, vec![Action::Record(42)]);
    assert_eq!(producer.next_record, None);
}

#[test]
fn ends_after_a_tick_when_told_to_exit() {
    let mut producer = TickProducer::new(64, 10);
    let mut timing = PohTiming::new();
    let actions = run(
        &mut producer,
        &mut timing,
        vec![
            Event::Begin,
            locked(0),
            hashed(true, 0),
            Event::Released,
            locked(0),
            Event::Ticked { tick_time_ns: 0 },
            Event::Released,
            Event::Reported,
            Event::Exit(true),
        ],
    );
    assert_eq!(actions.last(), Some(&Action::Finish));
    assert_eq!(producer.phase, TickPhase::Finished);
    assert!(!producer.is_ready_for(&Event::Begin));
    assert!(!producer.is_ready_for(&Event::Exit(false)));
}

#[test]
fn takes_only_answers() {
    let mut producer: TickProducer<u32> = TickProducer::new(64, 10);
    assert!(producer.is_ready_for(&Event::Begin));
    assert!(!producer.is_ready_for(&locked(0)));
    let mut timing = PohTiming::new();
    run(&mut producer, &mut timing, vec![Event::Begin]);
    assert!(!producer.is_ready_for(&Event::Begin));
    assert!(!producer.is_ready_for(&Event::Released));
    assert!(producer.is_ready_for(&locked(0)));
}

#[test]
fn hash_turns_the_chain_by_a_batch() {
    let start = solana_sdk::hash::Hash::default();
    let mut poh = Poh::new(start, Some(10));
    let producer: TickProducer<u32> = TickProducer::new(64, 4);
    let mut expected = start;

    // ten hashes are owed, and the last one is the tick
    for (hashes, call) in [(4, false), (4, false), (1, true), (0, true)] {
        for _ in 0..hashes {
            expected = hash(expected.as_ref());
        }
        match producer.hash(&mut poh) {
            Event::Hashed { should_tick, .. } => assert_eq!(should_tick, call),
            event => panic!("{:?}", event),
        }
        assert_eq!(poh.hash, expected);
    }
    let tick = poh.tick().unwrap();
    assert_eq!(tick.num_hashes, 10);
}

#[test]
fn hash_measures_its_time() {
    let mut poh = Poh::new(solana_sdk::hash::Hash::default(), None);
    let producer: TickProducer<u32> = TickProducer::new(64, 20_000);
    match producer.hash(&mut poh) {
        Event::Hashed {
            should_tick,
            hash_time_ns,
        } => {
            assert!(!should_tick);
            assert!(hash_time_ns > 0);
        }
        event => panic!("{:?}", event),
    }
}

#[derive(Debug, PartialEq)]
enum Held {
    Nothing,
    Recorder,
    Poh,
}

#[test]
fn a_long_run_keeps_order_locks_and_counters() {
    let mut producer: TickProducer<u32> = TickProducer::new(64, 10);
    let mut timing = PohTiming::new();
    let mut event = Event::Begin;
    let mut held = Held::Nothing;
    let mut seed = 12345u32;
    let mut received = Vec::new();
    let mut recorded = Vec::new();
    let (mut batches, mut calls, mut ticks, mut reports, mut looks) = (0, 0, 0, 0, 0);
    let (mut lock_ns, mut hash_ns, mut tick_ns, mut record_us) = (0, 0, 0, 0);
    loop {
        assert!(producer.is_ready_for(&event));
        seed = seed.wrapping_mul(1_664_525).wrapping_add(1_013_904_223);
        let chance = seed >> 24;
        event = match producer.step(event, &mut timing) {
            Action::LockRecorder => {
                assert_eq!(held, Held::Nothing);
                held = Held::Recorder;
                lock_ns += 2;
                Event::Locked { lock_time_ns: 2 }
            }
            Action::LockPoh => {
                assert_eq!(held, Held::Nothing);
                held = Held::Poh;
                lock_ns += 3;
                Event::Locked { lock_time_ns: 3 }
            }
            Action::ReleaseRecorder => {
                assert_eq!(held, Held::Recorder);
                held = Held::Nothing;
                Event::Released
            }
            Action::ReleasePoh => {
                assert_eq!(held, Held::Poh);
                held = Held::Nothing;
                Event::Released
            }
            Action::Record(request) => {
                assert_eq!(held, Held::Recorder);
                recorded.push(request);
                Event::Recorded {
                    delivered: chance % 2 == 0,
                }
            }
            Action::TryReceive => {
                assert_ne!(held, Held::Nothing);
                if chance % 3 == 0 {
                    received.push(seed);
                    Event::Received(Some(seed))
                } else {
                    Event::Received(None)
                }
            }
            Action::StopRecordTimer => {
                assert_eq!(held, Held::Recorder);
                record_us += 5;
                Event::RecordTimed { record_time_us: 5 }
            }
            Action::Hash(batch) => {
                assert_eq!(held, Held::Poh);
                assert_eq!(batch, 10);
                assert_eq!(received, recorded);
                assert_eq!(calls, ticks);
                batches += 1;
                hash_ns += 7;
                let should_tick = chance % 4 == 0;
                if should_tick {
                    calls += 1;
                }
                Event::Hashed {
                    should_tick,
                    hash_time_ns: 7,
                }
            }
            Action::Tick => {
                assert_eq!(held, Held::Recorder);
                ticks += 1;
                assert_eq!(calls, ticks);
                tick_ns += 11;
                Event::Ticked { tick_time_ns: 11 }
            }
            Action::Report(ticks_per_slot) => {
                assert_eq!(held, Held::Nothing);
                assert_eq!(ticks_per_slot, 64);
                reports += 1;
                assert_eq!(reports, ticks);
                assert_eq!(timing.num_ticks, ticks);
                Event::Reported
            }
            Action::CheckExit => {
                assert_eq!(held, Held::Nothing);
                looks += 1;
                assert_eq!(looks, ticks);
                Event::Exit(ticks == 500)
            }
            Action::Finish => break,
        };
    }
    assert_eq!(ticks, 500);
    assert_eq!(received, recorded);
    assert!(recorded.len() > 100);
    assert_eq!(timing.num_hashes, 10 * batches + recorded.len() as u64);
    assert_eq!(timing.total_lock_time_ns, lock_ns);
    assert_eq!(timing.total_hash_time_ns, hash_ns);
    assert_eq!(timing.total_tick_time_ns, tick_ns);
    assert_eq!(timing.total_record_time_us, record_us);
    assert_eq!(timing.total_sleep_us, 0);
}

#[test]
fn quiet_hashing_reaches_the_tick() {
    // of 100 hashes 99 are to be made before the tick: the seventh batch of 15 comes short of 105
    let mut poh = Poh::new(solana_sdk::hash::Hash::default(), Some(100));
    let mut producer: TickProducer<u32> = TickProducer::new(64, 15);
    let mut timing = PohTiming::new();
    let mut event = Event::Begin;
    let mut batches = 0;
    loop {
        event = match producer.step(event, &mut timing) {
            Action::LockPoh => locked(0),
            Action::Hash(_) => {
                batches += 1;
                producer.hash(&mut poh)
            }
            Action::TryReceive => Event::Received(None),
            action => {
                assert_eq!(action, Action::ReleasePoh);
                break;
            }
        };
    }
    assert_eq!(batches, 7);
    assert_eq!(poh.tick().unwrap().num_hashes, 100);
}

/// A recorder that only keeps the entries.
struct Recorder {
    poh: Poh,
    entries: Vec<(bool, PohEntry)>,
}

impl Recorder {
    fn tick(&mut self) {
        if let Some(entry) = self.poh.tick() {
            self.entries.push((true, entry));
        }
    }

    fn record(&mut self, mixin: solana_sdk::hash::Hash) {
        loop {
            if let Some(entry) = self.poh.record(mixin) {
                self.entries.push((false, entry));
                return;
            }
            self.tick();
        }
    }
}

#[test]
fn test_poh_service() {
    let hashes_per_tick = clock::DEFAULT_HASHES_PER_TICK;
    let hashes_per_batch = DEFAULT_HASHES_PER_BATCH;
    let service = PohService::new(
        &poh_service::PohConfig {
            target_tick_duration: std::time::Duration::from_micros(6250),
            target_tick_count: None,
            hashes_per_tick: Some(hashes_per_tick),
        },
        0,
        DEFAULT_PINNED_CPU_CORE,
        hashes_per_batch,
    );
    assert_eq!(
        service.producer,
        Producer::Hashing {
            pinned_cpu_core: DEFAULT_PINNED_CPU_CORE,
            ticks_per_slot: 0,
            hashes_per_batch
        }
    );

    let h1 = hash(b"hello world!");
    let mut recorder = Recorder {
        poh: Poh::new(solana_sdk::hash::Hash::default(), Some(hashes_per_tick)),
        entries: Vec::new(),
    };
    let mut timing = PohTiming::new();
    let mut producer: TickProducer<solana_sdk::hash::Hash> = TickProducer::new(0, hashes_per_batch);
    let mut event = Event::Begin;
    let mut ticks = 0;
    let mut polls = 0;
    loop {
        assert!(producer.is_ready_for(&event));
        event = match producer.step(event, &mut timing) {
            Action::LockRecorder | Action::LockPoh => Event::Locked { lock_time_ns: 1 },
            Action::ReleaseRecorder | Action::ReleasePoh => Event::Released,
            Action::Record(mixin) => {
                recorder.record(mixin);
                Event::Recorded { delivered: true }
            }
            Action::TryReceive => {
                // requests come in now and then, but not in the first ticks
                polls += 1;
                let waiting = ticks >= 2 && polls % 50 == 0;
                Event::Received(if waiting { Some(h1) } else { None })
            }
            Action::StopRecordTimer => Event::RecordTimed { record_time_us: 1 },
            Action::Hash(batch) => {
                assert_eq!(batch, hashes_per_batch);
                producer.hash(&mut recorder.poh)
            }
            Action::Tick => {
                recorder.tick();
                ticks += 1;
                Event::Ticked { tick_time_ns: 1 }
            }
            Action::Report(ticks_per_slot) => {
                assert_eq!(ticks_per_slot, 0);
                assert!(timing.num_ticks > 0);
                timing.report(ticks_per_slot).unwrap();
                Event::Reported
            }
            Action::CheckExit => Event::Exit(ticks == 6),
            Action::Finish => break,
        };
    }

    // get some events
    let mut hashes = 0;
    let mut need_tick = true;
    let mut need_entry = true;
    let mut need_partial = true;
    for (is_tick, entry) in &recorder.entries {
        if *is_tick {
            assert!(
                entry.num_hashes <= hashes_per_tick,
                "{} <= {}",
                entry.num_hashes,
                hashes_per_tick
            );
            if entry.num_hashes == hashes_per_tick {
                need_tick = false;
            } else {
                need_partial = false;
            }
            hashes += entry.num_hashes;
            assert_eq!(hashes, hashes_per_tick);
            hashes = 0;
        } else {
            assert!(entry.num_hashes >= 1);
            need_entry = false;
            hashes += entry.num_hashes;
        }
    }
    assert!(!need_tick && !need_entry && !need_partial);
}
