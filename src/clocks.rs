use vstd::prelude::*;

verus! {

/// Colour clocks below which the CPU is guaranteed room to run: far beyond
/// any real session (over 40,000 years at the NTSC colour clock rate).
pub const CLOCK_LIMIT: u64 = 0x4000_0000_0000_0000;

/// Type of a count of colour clocks.
pub type ClockType = u64;

/// The machine's clock, counting colour clocks (three per CPU cycle).
pub struct Clock {
    pub ticks: ClockType,
}

impl Clock {
    pub fn new() -> (r: Self)
        ensures
            r.ticks == 0,
    {
        Clock { ticks: 0 }
    }

    /// Advances the clock; the count saturates rather than wrapping, so it
    /// never goes backwards.
    pub fn increment(&mut self, ticks: u32)
        ensures
            final(self).ticks == sat_add(old(self).ticks, ticks as u64),
            final(self).ticks >= old(self).ticks,
    {
        self.ticks = self.ticks.saturating_add(ticks as u64);
    }
}

/// Saturating addition on clock values.
pub open spec fn sat_add(a: u64, b: u64) -> u64 {
    if a + b > u64::MAX {
        u64::MAX
    } else {
        (a + b) as u64
    }
}

} // verus!
