//! The pause kept between two input events so that the peer's input queue
//! is never overrun.
use vstd::prelude::*;

verus! {

/// The pause when no rate is given: 20 ms, a 50 Hz cadence.
pub const DEFAULT_INTERVAL_NANOS: u64 = 20_000_000;

/// Nanoseconds in a thousand seconds: one period of a 1 mHz rate.
pub const NANOS_PER_MILLIHERTZ_PERIOD: u64 = 1_000_000_000_000;

/// A rate that is zero or negative.
#[derive(Clone, Copy, Debug, PartialEq, Eq, Structural)]
pub struct InvalidRate;

/// The pause for a rate given in millihertz (50 Hz is `Some(50_000)`): one
/// period of the rate, in whole nanoseconds rounded down.
pub open spec fn interval_of(rate_mhz: Option<i64>) -> Result<u64, InvalidRate> {
    match rate_mhz {
        None => Ok(DEFAULT_INTERVAL_NANOS),
        Some(r) => if r <= 0 {
            Err(InvalidRate)
        } else {
            Ok((NANOS_PER_MILLIHERTZ_PERIOD as int / r as int) as u64)
        },
    }
}

/// The pause, in nanoseconds, to keep after each input event sent at the
/// rate `rate_mhz` (in millihertz); the default pause when no rate is given.
/// A rate of zero or below is refused, never clamped.
pub fn framerate_to_nanos(rate_mhz: Option<i64>) -> (r: Result<u64, InvalidRate>)
    ensures
        r == interval_of(rate_mhz),
        r matches Ok(n) ==> n <= NANOS_PER_MILLIHERTZ_PERIOD,
{
    match rate_mhz {
        None => Ok(DEFAULT_INTERVAL_NANOS),
        Some(r) => {
            if r <= 0 {
                return Err(InvalidRate);
            }
            Ok(NANOS_PER_MILLIHERTZ_PERIOD / (r as u64))
        },
    }
}

} // verus!
