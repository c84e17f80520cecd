//! Tick arithmetic of the timer, done by `embassy_time` itself so that the
//! deadlines the loop computes are the ones the timer will be given.

use vstd::prelude::*;

verus! {

/// Ticks of the timer in one second.
pub const TICK_HZ: u64 = 1_000_000;

/// The tick count of `embassy_time::Duration::from_micros(micros)`.
///
/// Trusted: at the tick rate of 1 MHz that this crate builds `embassy_time`
/// with, the conversion multiplies by one and divides by one, rounding up,
/// so a duration has as many ticks as microseconds. The rounding adds one
/// before it takes one away, which `u64::MAX` does not survive; that input
/// is left out.
#[verifier::external_body]
pub(crate) fn ticks_from_micros(micros: u64) -> (ticks: u64)
    requires
        micros < u64::MAX,
    ensures
        ticks == micros,
{
    embassy_time::Duration::from_micros(micros).as_ticks()
}

/// The tick count of the instant `duration` ticks after the instant at
/// `instant` ticks, by `Instant + Duration` of `embassy_time`.
///
/// Trusted: the sum of an instant and a duration is the instant whose tick
/// count is the sum of theirs. The addition panics where that sum does not
/// fit in 64 bits, so such inputs are left out.
#[verifier::external_body]
pub(crate) fn instant_after(instant: u64, duration: u64) -> (later: u64)
    requires
        instant + duration <= u64::MAX,
    ensures
        later == instant + duration,
{
    let start = embassy_time::Instant::from_ticks(instant);
    let span = embassy_time::Duration::from_ticks(duration);
    (start + span).as_ticks()
}

} // verus!
