//! From measured frame times to the whole milliseconds that a tick takes.
use vstd::prelude::*;
use crate::geometry::clamp_u32;

verus! {

/// Microseconds in one millisecond.
pub const MICROS_PER_MILLI: u32 = 1000;

/// Turns elapsed time, measured in microseconds, into whole milliseconds
/// and carries the remainder over to the next frame, so that no time is
/// lost to rounding.
#[derive(Clone, Copy, Debug, PartialEq, Eq)]
pub struct FrameClock {
    /// The part of the elapsed time that has not been handed out yet.
    pub carry_micros: u32,
}

impl FrameClock {
    /// A clock that carries nothing.
    pub fn new() -> (c: FrameClock)
        ensures
            c.carry_micros == 0,
    {
        FrameClock { carry_micros: 0 }
    }

    /// Takes note of `elapsed_micros` more microseconds and hands out the
    /// whole milliseconds that have gathered, at most `u32::MAX` of them.
    /// What is less than a millisecond stays in the clock.
    pub fn advance(&mut self, elapsed_micros: u64) -> (millis: u32)
        ensures
            millis == clamp_u32((old(self).carry_micros + elapsed_micros) / 1000),
            final(self).carry_micros == (old(self).carry_micros + elapsed_micros) % 1000,
            final(self).carry_micros < MICROS_PER_MILLI,
            (old(self).carry_micros + elapsed_micros) / 1000 <= u32::MAX ==> millis * 1000
                + final(self).carry_micros == old(self).carry_micros + elapsed_micros,
    {
        let total: u128 = self.carry_micros as u128 + elapsed_micros as u128;
        let whole: u128 = total / (MICROS_PER_MILLI as u128);
        self.carry_micros = (total % (MICROS_PER_MILLI as u128)) as u32;
        if whole > u32::MAX as u128 {
            u32::MAX
        } else {
            whole as u32
        }
    }
}

} // verus!
