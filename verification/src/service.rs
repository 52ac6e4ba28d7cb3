//! The service as a whole: which tick producer it runs, and how it deals with one request.
use std::time::Duration;
use vstd::prelude::*;

verus! {

/// Number of hashes to batch together.
/// * If this number is too small, PoH hash rate will suffer.
/// * The larger this number is from 1, the speed of recording transactions will suffer due to lock
///   contention with the PoH hashing of the tick producer.
pub const DEFAULT_HASHES_PER_BATCH: u64 = 64;

/// The CPU core that the hashing tick producer is pinned to unless another is asked for.
pub const DEFAULT_PINNED_CPU_CORE: usize = 0;

/// The time of a slot that is set aside for work outside of PoH.
pub const TARGET_SLOT_ADJUSTMENT_NS: u64 = 50_000_000;

/// How a cluster keeps time.
#[derive(Debug, Clone, Copy, PartialEq, Eq)]
pub struct PohConfig {
    /// The target tick rate of the cluster.
    pub target_tick_duration: Duration,
    /// The target total tick count to be produced; used for testing only.
    pub target_tick_count: Option<u64>,
    /// How many hashes to roll before emitting the next tick entry. `None` stands for the low power
    /// mode: sleep instead of hashing.
    pub hashes_per_tick: Option<u64>,
}

/// The tick producer that a service runs, with what it needs.
#[derive(Debug, Clone, Copy, PartialEq, Eq)]
pub enum Producer {
    /// See [`crate::sleepy::SleepyTickProducer`].
    Sleepy { target_tick_duration: Duration },
    /// See [`crate::sleepy::ShortLivedSleepyTickProducer`].
    ShortLivedSleepy { target_tick_duration: Duration, target_tick_count: u64 },
    /// See [`crate::tick_producer::TickProducer`]. It runs in a tight loop, and one of the CPU
    /// cores is dedicated to it so that it can gain from cache performance.
    Hashing { pinned_cpu_core: usize, ticks_per_slot: u64, hashes_per_batch: u64 },
}

/// A service that records the passing of "ticks", a measure of time in the PoH stream.
#[derive(Debug, Clone, Copy, PartialEq, Eq)]
pub struct PohService {
    pub producer: Producer,
}

/// How far the processing of one request has come, over requests of type `R`.
#[derive(Debug, PartialEq, Eq)]
pub enum ExchangeEvent<R> {
    /// Nothing was done yet.
    Begin,
    /// A request came in time, or none did.
    Received(Option<R>),
    /// The request was recorded, and the outcome was sent to whoever asked: it got there or not.
    Answered { delivered: bool },
}

/// What the processing of one request wants done next.
#[derive(Debug, PartialEq, Eq)]
pub enum ExchangeAction<R> {
    /// Wait for a request, so long at most. Answered by [`ExchangeEvent::Received`].
    Receive(Duration),
    /// Lock the recorder, record the request, and send the outcome to whoever asked. Answered by
    /// [`ExchangeEvent::Answered`].
    RecordAndAnswer(R),
    /// All is done.
    Done,
    /// The outcome could not be returned to whoever asked: the service cannot go on.
    Fail,
}

/// The tick producer for a configuration: one that hashes where the ticks have a number of hashes,
/// and otherwise one that sleeps, for as many ticks as are asked for or without end.
pub open spec fn producer_for(
    poh_config: PohConfig,
    ticks_per_slot: u64,
    pinned_cpu_core: usize,
    hashes_per_batch: u64,
) -> Producer {
    match (poh_config.hashes_per_tick, poh_config.target_tick_count) {
        (Some(_), _) => Producer::Hashing { pinned_cpu_core, ticks_per_slot, hashes_per_batch },
        (None, Some(target_tick_count)) => Producer::ShortLivedSleepy {
            target_tick_duration: poh_config.target_tick_duration,
            target_tick_count,
        },
        (None, None) => Producer::Sleepy { target_tick_duration: poh_config.target_tick_duration },
    }
}

/// The part of each tick that is set aside for work outside of PoH.
pub open spec fn adjustment_per_tick(ticks_per_slot: u64) -> int {
    if ticks_per_slot > 0 {
        TARGET_SLOT_ADJUSTMENT_NS as int / ticks_per_slot as int
    } else {
        0
    }
}

/// The time that is left of a tick of `target_tick_duration_ns` for PoH.
pub open spec fn ns_per_tick(ticks_per_slot: u64, target_tick_duration_ns: u64) -> int {
    if target_tick_duration_ns > adjustment_per_tick(ticks_per_slot) {
        target_tick_duration_ns - adjustment_per_tick(ticks_per_slot)
    } else {
        0
    }
}

/// What the processing of one request does next: it waits until the timeout, and if a request comes it is recorded
/// and answered. That an answer does not get through is a failure.
pub open spec fn exchange<R>(timeout: Duration, event: ExchangeEvent<R>) -> ExchangeAction<R> {
    match event {
        ExchangeEvent::Begin => ExchangeAction::Receive(timeout),
        ExchangeEvent::Received(Some(record)) => ExchangeAction::RecordAndAnswer(record),
        ExchangeEvent::Received(None) => ExchangeAction::Done,
        ExchangeEvent::Answered { delivered: true } => ExchangeAction::Done,
        ExchangeEvent::Answered { delivered: false } => ExchangeAction::Fail,
    }
}

impl PohService {
    /// The service for a cluster: it is settled which tick producer runs.
    pub fn new(
        poh_config: &PohConfig,
        ticks_per_slot: u64,
        pinned_cpu_core: usize,
        hashes_per_batch: u64,
    ) -> (service: Self)
        ensures
            service.producer == producer_for(
                *poh_config,
                ticks_per_slot,
                pinned_cpu_core,
                hashes_per_batch,
            ),
            poh_config.hashes_per_tick is Some ==> service.producer == (Producer::Hashing {
                pinned_cpu_core,
                ticks_per_slot,
                hashes_per_batch,
            }),
            poh_config.hashes_per_tick is None ==> match poh_config.target_tick_count {
                Some(target_tick_count) => service.producer == (Producer::ShortLivedSleepy {
                    target_tick_duration: poh_config.target_tick_duration,
                    target_tick_count,
                }),
                None => service.producer == (Producer::Sleepy {
                    target_tick_duration: poh_config.target_tick_duration,
                }),
            },
    {
        let target_tick_duration = poh_config.target_tick_duration;
        let producer = if poh_config.hashes_per_tick.is_none() {
            match poh_config.target_tick_count {
                None => Producer::Sleepy { target_tick_duration },
                Some(target_tick_count) => Producer::ShortLivedSleepy {
                    target_tick_duration,
                    target_tick_count,
                },
            }
        } else {
            Producer::Hashing { pinned_cpu_core, ticks_per_slot, hashes_per_batch }
        };
        PohService { producer }
    }

    /// The core to pin the hashing tick producer to: the one at `pinned_cpu_core` in the list of
    /// cores, or none where there is no list.
    pub fn pinned_core(core_ids: &Option<Vec<usize>>, pinned_cpu_core: usize) -> (core: Option<
        usize,
    >)
        requires
            core_ids matches Some(ids) ==> pinned_cpu_core < ids@.len(),
        ensures
            core == (match *core_ids {
                Some(ids) => Some(ids@[pinned_cpu_core as int]),
                None => None,
            }),
    {
        match core_ids {
            Some(ids) => Some(ids[pinned_cpu_core]),
            None => None,
        }
    }

    /// The time that each tick has for PoH.
    pub fn target_ns_per_tick(ticks_per_slot: u64, target_tick_duration_ns: u64) -> (target: u64)
        ensures
            target == ns_per_tick(ticks_per_slot, target_tick_duration_ns),
            target <= target_tick_duration_ns,
            ticks_per_slot == 0 ==> target == target_tick_duration_ns,
            target > 0 && ticks_per_slot > 0 ==> ticks_per_slot * (target_tick_duration_ns - target)
                <= 50_000_000 < ticks_per_slot * (target_tick_duration_ns - target + 1),
            target == 0 ==> ticks_per_slot * target_tick_duration_ns <= 50_000_000,
    {
        proof {
            law_target_is_exact(ticks_per_slot, target_tick_duration_ns);
        }
        // Account for some extra time outside of PoH generation to account
        // for processing time outside PoH.
        let adjustment_per_tick: u64 = if ticks_per_slot > 0 {
            TARGET_SLOT_ADJUSTMENT_NS / ticks_per_slot
        } else {
            0
        };
        target_tick_duration_ns.saturating_sub(adjustment_per_tick)
    }

    /// One step in the processing of one request, which is waited for until the timeout.
    pub fn read_record_receiver_and_process<R>(
        timeout: Duration,
        event: ExchangeEvent<R>,
    ) -> (action: ExchangeAction<R>)
        ensures
            action == exchange(timeout, event),
    {
        match event {
            ExchangeEvent::Begin => ExchangeAction::Receive(timeout),
            ExchangeEvent::Received(Some(record)) => ExchangeAction::RecordAndAnswer(record),
            ExchangeEvent::Received(None) => ExchangeAction::Done,
            ExchangeEvent::Answered { delivered } => if delivered {
                ExchangeAction::Done
            } else {
                ExchangeAction::Fail
            },
        }
    }
}

/// The target of a tick is never above the length of the tick, and what is set aside of all the
/// ticks of a slot together is never above what a slot has to set aside. A slot of no ticks sets
/// nothing aside.
pub proof fn law_adjustment_fits_slot(ticks_per_slot: u64, target_tick_duration_ns: u64)
    ensures
        0 <= ns_per_tick(ticks_per_slot, target_tick_duration_ns) <= target_tick_duration_ns,
        ticks_per_slot * (target_tick_duration_ns - ns_per_tick(
            ticks_per_slot,
            target_tick_duration_ns,
        )) <= TARGET_SLOT_ADJUSTMENT_NS,
        ticks_per_slot == 0 ==> ns_per_tick(ticks_per_slot, target_tick_duration_ns)
            == target_tick_duration_ns,
{
    let adjustment = adjustment_per_tick(ticks_per_slot);
    let cut = target_tick_duration_ns - ns_per_tick(ticks_per_slot, target_tick_duration_ns);
    if ticks_per_slot > 0 {
        vstd::arithmetic::div_mod::lemma_fundamental_div_mod(
            TARGET_SLOT_ADJUSTMENT_NS as int,
            ticks_per_slot as int,
        );
        vstd::arithmetic::div_mod::lemma_div_pos_is_pos(
            TARGET_SLOT_ADJUSTMENT_NS as int,
            ticks_per_slot as int,
        );
        assert(ticks_per_slot * cut <= ticks_per_slot * adjustment) by (nonlinear_arith)
            requires
                cut <= adjustment,
                ticks_per_slot > 0,
        ;
    } else {
        assert(ticks_per_slot * cut == 0) by (nonlinear_arith)
            requires
                ticks_per_slot == 0,
        ;
    }
}

/// A tick gives up an even share of the fifty milliseconds that a slot sets aside: the most that
/// all the ticks of the slot together can give up without passing them. A tick that is no longer
/// than its share gives up all of itself.
pub proof fn law_target_is_exact(ticks_per_slot: u64, target_tick_duration_ns: u64)
    ensures
        ({
            let target = ns_per_tick(ticks_per_slot, target_tick_duration_ns);
            let share = target_tick_duration_ns - target;
            &&& 0 <= target <= target_tick_duration_ns
            &&& ticks_per_slot == 0 ==> target == target_tick_duration_ns
            &&& target > 0 && ticks_per_slot > 0 ==> ticks_per_slot * share <= 50_000_000
                < ticks_per_slot * (share + 1)
            &&& target == 0 ==> ticks_per_slot * target_tick_duration_ns <= 50_000_000
        }),
{
    let adjustment = adjustment_per_tick(ticks_per_slot);
    let target = ns_per_tick(ticks_per_slot, target_tick_duration_ns);
    law_adjustment_fits_slot(ticks_per_slot, target_tick_duration_ns);
    if ticks_per_slot > 0 {
        vstd::arithmetic::div_mod::lemma_fundamental_div_mod(
            TARGET_SLOT_ADJUSTMENT_NS as int,
            ticks_per_slot as int,
        );
        assert(ticks_per_slot * (adjustment + 1) == ticks_per_slot * adjustment + ticks_per_slot)
            by (nonlinear_arith);
    }
}

/// The tick producer goes by the configuration: it hashes exactly where the ticks have a number of
/// hashes, and then has the core, the ticks per slot and the size of the batches that were asked
/// for. Otherwise it sleeps for the length of a tick, for as many ticks as are asked for where a
/// number is, and without end where none is.
pub proof fn law_producer_goes_by_config(
    poh_config: PohConfig,
    ticks_per_slot: u64,
    pinned_cpu_core: usize,
    hashes_per_batch: u64,
)
    ensures
        ({
            let producer = producer_for(
                poh_config,
                ticks_per_slot,
                pinned_cpu_core,
                hashes_per_batch,
            );
            &&& producer is Hashing <==> poh_config.hashes_per_tick is Some
            &&& producer is ShortLivedSleepy <==> poh_config.hashes_per_tick is None
                && poh_config.target_tick_count is Some
            &&& producer is Sleepy <==> poh_config.hashes_per_tick is None
                && poh_config.target_tick_count is None
            &&& match producer {
                Producer::Hashing {
                    pinned_cpu_core: core,
                    ticks_per_slot: ticks,
                    hashes_per_batch: batch,
                } => core == pinned_cpu_core && ticks == ticks_per_slot && batch
                    == hashes_per_batch,
                Producer::ShortLivedSleepy { target_tick_duration, target_tick_count } => {
                    &&& target_tick_duration == poh_config.target_tick_duration
                    &&& poh_config.target_tick_count == Some(target_tick_count)
                },
                Producer::Sleepy { target_tick_duration } => target_tick_duration
                    == poh_config.target_tick_duration,
            }
        }),
{
}

/// A longer tick never has less time for PoH, nor has a tick of a slot of more ticks.
pub proof fn law_target_is_monotonic(
    ticks_per_slot: u64,
    more_ticks_per_slot: u64,
    target_tick_duration_ns: u64,
    longer_tick_duration_ns: u64,
)
    requires
        0 < ticks_per_slot <= more_ticks_per_slot,
        target_tick_duration_ns <= longer_tick_duration_ns,
    ensures
        ns_per_tick(ticks_per_slot, target_tick_duration_ns) <= ns_per_tick(
            more_ticks_per_slot,
            longer_tick_duration_ns,
        ),
{
    vstd::arithmetic::div_mod::lemma_div_is_ordered_by_denominator(
        TARGET_SLOT_ADJUSTMENT_NS as int,
        ticks_per_slot as int,
        more_ticks_per_slot as int,
    );
}

/// The processing of a request: it is waited for as long as was asked, what came in is what is
/// recorded, once, and nothing is recorded where nothing came. It fails exactly when the answer
/// does not get through.
pub proof fn law_exchange<R>(timeout: Duration, received: Option<R>, delivered: bool)
    ensures
        exchange(timeout, ExchangeEvent::<R>::Begin) == ExchangeAction::<R>::Receive(timeout),
        exchange(timeout, ExchangeEvent::Received(received)) == (match received {
            Some(record) => ExchangeAction::RecordAndAnswer(record),
            None => ExchangeAction::Done,
        }),
        exchange(timeout, ExchangeEvent::<R>::Answered { delivered }) is Done <==> delivered,
        exchange(timeout, ExchangeEvent::<R>::Answered { delivered }) is Fail <==> !delivered,
{
}

} // verus!
