//! The tick producers of a cluster that does not hash ("low power mode"): they sleep for the time
//! that a tick is to take, and tick.
//!
//! Like the producer that hashes, they name the next thing to do as a [`SleepyAction`], and are
//! told how that went by a [`SleepyEvent`].
use std::time::Duration;
use vstd::pervasive::unreached;
use vstd::prelude::*;

verus! {

/// What a sleepy tick producer wants done next.
#[derive(Debug, Clone, Copy, PartialEq, Eq)]
pub enum SleepyAction {
    /// Look whether the service is to exit. Answered by [`SleepyEvent::Exit`].
    CheckExit,
    /// Wait so long for a request to record, and process it if one comes. Answered by
    /// [`SleepyEvent::Processed`].
    ReadRecordReceiverAndProcess { timeout_ms: u64 },
    /// Sleep so long. Answered by [`SleepyEvent::Slept`].
    Sleep(Duration),
    /// Lock the recorder and tick. Answered by [`SleepyEvent::Ticked`].
    Tick,
    /// Warn that the exit signal is ignored because the service is scheduled to exit soon. Answered
    /// by [`SleepyEvent::Warned`].
    WarnExitIgnored,
    /// Let everyone know that the service has ended.
    Finish,
}

/// How the last action went.
#[derive(Debug, Clone, Copy, PartialEq, Eq)]
pub enum SleepyEvent {
    /// Nothing was done yet.
    Begin,
    Exit(bool),
    Processed,
    Slept,
    Ticked,
    Warned,
}

/// Where a sleepy tick producer stands: what it waits for.
#[derive(Debug, Clone, Copy, PartialEq, Eq)]
pub enum SleepyPhase {
    Entering,
    CheckingExit,
    Processing,
    Sleeping,
    Ticking,
    Warning,
    Finished,
}

/// The sleepy tick producer that runs until it is told to exit.
#[derive(Debug, Clone, Copy, PartialEq, Eq)]
pub struct SleepyTickProducer {
    pub target_tick_duration: Duration,
    pub phase: SleepyPhase,
}

/// The sleepy tick producer that ends by itself after a number of ticks.
#[derive(Debug, Clone, Copy, PartialEq, Eq)]
pub struct ShortLivedSleepyTickProducer {
    pub target_tick_duration: Duration,
    pub phase: SleepyPhase,
    /// The ticks that are still to be made.
    pub ticks_left: u64,
    /// The warning was given.
    pub warned: bool,
}

/// The requests that are waiting are taken as they are: nothing is waited for.
pub const RECORD_TIMEOUT_MS: u64 = 0;

impl SleepyPhase {
    /// Whether `event` is an answer to the action that this phase waits for.
    pub open spec fn accepts(self, event: SleepyEvent) -> bool {
        match self {
            SleepyPhase::Entering => event is Begin,
            SleepyPhase::CheckingExit => event is Exit,
            SleepyPhase::Processing => event is Processed,
            SleepyPhase::Sleeping => event is Slept,
            SleepyPhase::Ticking => event is Ticked,
            SleepyPhase::Warning => event is Warned,
            SleepyPhase::Finished => false,
        }
    }

    /// Tells whether `event` is an answer to the action that this phase waits for.
    pub fn is_ready_for(&self, event: &SleepyEvent) -> (yes: bool)
        ensures
            yes == self.accepts(*event),
    {
        match self {
            SleepyPhase::Entering => matches!(event, SleepyEvent::Begin),
            SleepyPhase::CheckingExit => matches!(event, SleepyEvent::Exit(_)),
            SleepyPhase::Processing => matches!(event, SleepyEvent::Processed),
            SleepyPhase::Sleeping => matches!(event, SleepyEvent::Slept),
            SleepyPhase::Ticking => matches!(event, SleepyEvent::Ticked),
            SleepyPhase::Warning => matches!(event, SleepyEvent::Warned),
            SleepyPhase::Finished => false,
        }
    }
}

impl SleepyTickProducer {
    /// Whether the producer can take `event`. It never warns.
    pub open spec fn accepts(self, event: SleepyEvent) -> bool {
        !(self.phase is Warning) && self.phase.accepts(event)
    }

    /// The producer in another phase.
    pub open spec fn at(self, phase: SleepyPhase) -> SleepyTickProducer {
        SleepyTickProducer { phase, ..self }
    }

    /// One step: a look at the exit flag before each round, and in a round one request at most,
    /// then the sleep, then the tick.
    pub open spec fn next(self, event: SleepyEvent) -> (SleepyTickProducer, SleepyAction) {
        match event {
            SleepyEvent::Exit(true) => (self.at(SleepyPhase::Finished), SleepyAction::Finish),
            SleepyEvent::Exit(false) => (
                self.at(SleepyPhase::Processing),
                SleepyAction::ReadRecordReceiverAndProcess { timeout_ms: RECORD_TIMEOUT_MS },
            ),
            SleepyEvent::Processed => (
                self.at(SleepyPhase::Sleeping),
                SleepyAction::Sleep(self.target_tick_duration),
            ),
            SleepyEvent::Slept => (self.at(SleepyPhase::Ticking), SleepyAction::Tick),
            _ => (self.at(SleepyPhase::CheckingExit), SleepyAction::CheckExit),
        }
    }

    /// A producer that has done nothing yet. It waits for [`SleepyEvent::Begin`].
    pub fn new(target_tick_duration: Duration) -> (producer: Self)
        ensures
            producer == (SleepyTickProducer { target_tick_duration, phase: SleepyPhase::Entering }),
    {
        SleepyTickProducer { target_tick_duration, phase: SleepyPhase::Entering }
    }

    /// Tells whether the producer can take `event`.
    pub fn is_ready_for(&self, event: &SleepyEvent) -> (yes: bool)
        ensures
            yes == self.accepts(*event),
    {
        !matches!(self.phase, SleepyPhase::Warning) && self.phase.is_ready_for(event)
    }

    /// One step of the producer: takes the answer to the last action and gives the next action.
    pub fn step(&mut self, event: SleepyEvent) -> (action: SleepyAction)
        requires
            old(self).accepts(event),
        ensures
            (*final(self), action) == old(self).next(event),
    {
        match self.phase {
            SleepyPhase::CheckingExit => match event {
                SleepyEvent::Exit(true) => {
                    self.phase = SleepyPhase::Finished;
                    SleepyAction::Finish
                },
                _ => {
                    self.phase = SleepyPhase::Processing;
                    SleepyAction::ReadRecordReceiverAndProcess { timeout_ms: RECORD_TIMEOUT_MS }
                },
            },
            SleepyPhase::Processing => {
                self.phase = SleepyPhase::Sleeping;
                SleepyAction::Sleep(self.target_tick_duration)
            },
            SleepyPhase::Sleeping => {
                self.phase = SleepyPhase::Ticking;
                SleepyAction::Tick
            },
            SleepyPhase::Entering | SleepyPhase::Ticking => {
                self.phase = SleepyPhase::CheckingExit;
                SleepyAction::CheckExit
            },
            _ => unreached(),
        }
    }
}

impl ShortLivedSleepyTickProducer {
    /// The producer before anything was done.
    pub open spec fn initial(
        target_tick_duration: Duration,
        target_tick_count: u64,
    ) -> ShortLivedSleepyTickProducer {
        ShortLivedSleepyTickProducer {
            target_tick_duration,
            phase: SleepyPhase::Entering,
            ticks_left: target_tick_count,
            warned: false,
        }
    }

    /// In the middle of a round there is a tick still to be made, and a warning that is being given
    /// counts as given.
    pub open spec fn well_formed(self) -> bool {
        match self.phase {
            SleepyPhase::Processing | SleepyPhase::Sleeping | SleepyPhase::Ticking =>
                self.ticks_left > 0,
            SleepyPhase::Warning => self.warned,
            SleepyPhase::Finished => self.ticks_left == 0,
            _ => true,
        }
    }

    /// Whether the producer can take `event`.
    pub open spec fn accepts(self, event: SleepyEvent) -> bool {
        self.well_formed() && self.phase.accepts(event)
    }

    /// The next round, or the end if no tick is left to be made.
    pub open spec fn next_round(self) -> (ShortLivedSleepyTickProducer, SleepyAction) {
        if self.ticks_left == 0 {
            (
                ShortLivedSleepyTickProducer { phase: SleepyPhase::Finished, ..self },
                SleepyAction::Finish,
            )
        } else {
            (
                ShortLivedSleepyTickProducer { phase: SleepyPhase::Processing, ..self },
                SleepyAction::ReadRecordReceiverAndProcess { timeout_ms: RECORD_TIMEOUT_MS },
            )
        }
    }

    /// One step: in a round one request at most, then the sleep, then the tick, then a look at the
    /// exit flag. The flag ends nothing: it brings a warning when it is first found set.
    pub open spec fn next(self, event: SleepyEvent) -> (
        ShortLivedSleepyTickProducer,
        SleepyAction,
    ) {
        match event {
            SleepyEvent::Processed => (
                ShortLivedSleepyTickProducer { phase: SleepyPhase::Sleeping, ..self },
                SleepyAction::Sleep(self.target_tick_duration),
            ),
            SleepyEvent::Slept => (
                ShortLivedSleepyTickProducer { phase: SleepyPhase::Ticking, ..self },
                SleepyAction::Tick,
            ),
            SleepyEvent::Ticked => (
                ShortLivedSleepyTickProducer {
                    phase: SleepyPhase::CheckingExit,
                    ticks_left: (self.ticks_left - 1) as u64,
                    ..self
                },
                SleepyAction::CheckExit,
            ),
            SleepyEvent::Exit(true) => if self.warned {
                self.next_round()
            } else {
                (
                    ShortLivedSleepyTickProducer {
                        phase: SleepyPhase::Warning,
                        warned: true,
                        ..self
                    },
                    SleepyAction::WarnExitIgnored,
                )
            },
            _ => self.next_round(),
        }
    }

    /// A producer of `target_tick_count` ticks that has done nothing yet. It waits for
    /// [`SleepyEvent::Begin`].
    pub fn new(target_tick_duration: Duration, target_tick_count: u64) -> (producer: Self)
        ensures
            producer == Self::initial(target_tick_duration, target_tick_count),
            producer.target_tick_duration == target_tick_duration,
            producer.ticks_left == target_tick_count,
            producer.phase is Entering,
            !producer.warned,
            producer.well_formed(),
    {
        ShortLivedSleepyTickProducer {
            target_tick_duration,
            phase: SleepyPhase::Entering,
            ticks_left: target_tick_count,
            warned: false,
        }
    }

    /// Tells whether the producer can take `event`.
    pub fn is_ready_for(&self, event: &SleepyEvent) -> (yes: bool)
        ensures
            yes == self.accepts(*event),
    {
        let well_formed = match self.phase {
            SleepyPhase::Processing | SleepyPhase::Sleeping | SleepyPhase::Ticking =>
                self.ticks_left > 0,
            SleepyPhase::Warning => self.warned,
            SleepyPhase::Finished => self.ticks_left == 0,
            _ => true,
        };
        well_formed && self.phase.is_ready_for(event)
    }

    /// One step of the producer: takes the answer to the last action and gives the next action.
    pub fn step(&mut self, event: SleepyEvent) -> (action: SleepyAction)
        requires
            old(self).accepts(event),
        ensures
            (*final(self), action) == old(self).next(event),
            final(self).well_formed(),
    {
        match self.phase {
            SleepyPhase::Processing => {
                self.phase = SleepyPhase::Sleeping;
                SleepyAction::Sleep(self.target_tick_duration)
            },
            SleepyPhase::Sleeping => {
                self.phase = SleepyPhase::Ticking;
                SleepyAction::Tick
            },
            SleepyPhase::Ticking => {
                self.ticks_left = self.ticks_left - 1;
                self.phase = SleepyPhase::CheckingExit;
                SleepyAction::CheckExit
            },
            SleepyPhase::CheckingExit => match event {
                SleepyEvent::Exit(true) if !self.warned => {
                    self.warned = true;
                    self.phase = SleepyPhase::Warning;
                    SleepyAction::WarnExitIgnored
                },
                _ => self.begin_round(),
            },
            _ => self.begin_round(),
        }
    }

    /// Begins the next round, or ends.
    fn begin_round(&mut self) -> (action: SleepyAction)
        ensures
            (*final(self), action) == old(self).next_round(),
            final(self).well_formed(),
    {
        if self.ticks_left == 0 {
            self.phase = SleepyPhase::Finished;
            SleepyAction::Finish
        } else {
            self.phase = SleepyPhase::Processing;
            SleepyAction::ReadRecordReceiverAndProcess { timeout_ms: RECORD_TIMEOUT_MS }
        }
    }
}

} // verus!
