//! The sampler's cadence: absolute deadlines from a fixed-period
//! accumulator.
//!
//! Each deadline is computed by adding the period to the previous
//! deadline, never by measuring elapsed time and sleeping relatively,
//! so the cadence cannot drift: after `k` steps the deadline is
//! exactly `start + k * period`. The caller waits until each deadline,
//! reads one analog value, and enqueues it on the sample channel.

use vstd::prelude::*;

verus! {

/// The deadline accumulator of the periodic producer.
pub struct Sampler {
    /// Absolute time, in timer ticks, of the next sample deadline.
    pub deadline: u64,
    /// Fixed sampling period in timer ticks.
    pub period: u64,
}

impl Sampler {
    /// A sampler whose first deadline is one period past `start`.
    pub fn new(start: u64, period: u64) -> (s: Sampler)
        ensures
            s.deadline == start,
            s.period == period,
    {
        Sampler { deadline: start, period }
    }

    /// Advance to the next deadline and return it: exactly one period
    /// past the previous one, whatever the current time is.
    pub fn advance(&mut self) -> (d: u64)
        requires
            old(self).deadline + old(self).period <= u64::MAX,
        ensures
            final(self).deadline == old(self).deadline + old(self).period,
            final(self).period == old(self).period,
            d == final(self).deadline,
    {
        self.deadline = self.deadline + self.period;
        self.deadline
    }
}

} // verus!
