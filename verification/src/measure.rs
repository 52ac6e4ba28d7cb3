//! How the time of a piece of work is measured.
use solana_measure::measure::Measure;
use vstd::prelude::*;

verus! {

/// The stop watch of `solana_measure`. Its fields stay hidden.
#[verifier::external_type_specification]
#[verifier::external_body]
pub struct ExMeasure(solana_measure::measure::Measure);

/// The time that `measure` shows, in nanoseconds: what its `as_ns` returns.
pub uninterp spec fn shown_ns(measure: Measure) -> u64;

/// `Measure::start` of `solana_measure`: a watch that starts to run at the time of the call.
/// Nothing is claimed of it.
pub assume_specification[ solana_measure::measure::Measure::start ](
    name: &'static str,
) -> (measure: solana_measure::measure::Measure);

/// `Measure::stop` of `solana_measure`: the watch now shows the time since it was started. That
/// depends on the clock, and nothing is claimed of it.
pub assume_specification[ solana_measure::measure::Measure::stop ](
    measure: &mut solana_measure::measure::Measure,
);

/// `Measure::as_ns` of `solana_measure`: the time that the watch shows, in nanoseconds. It is a
/// matter of the watch alone; how long it is depends on the clock at which the watch was stopped,
/// and nothing is said of it.
pub assume_specification[ solana_measure::measure::Measure::as_ns ](
    measure: &solana_measure::measure::Measure,
) -> (ns: u64)
    ensures
        ns == shown_ns(*measure),
;

} // verus!
