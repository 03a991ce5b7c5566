//! The cycle counter of the processor as a clock.
//!
//! The counter advances once per cycle of the system clock and wraps at
//! 2^32. A [`Ticker`] knows the frequency of the system clock and converts
//! between cycles and the units of time.

use crate::timing::{Duration, MicroSeconds, MilliSeconds, Seconds, SysTicks, Time};
use core::marker::PhantomData;
use vstd::prelude::*;

verus! {

/// The frequency of the system clock, and what follows from it.
#[derive(Clone, Copy, Debug)]
pub struct Ticker {
    /// Cycles per second.
    pub frequency: u32,
    /// The length of one cycle in microseconds, times 2^19, rounded to the
    /// nearest: 7282 at 72 MHz.
    pub period_x: u64,
}

/// The length of one cycle of a clock of `frequency` in microseconds, times
/// 2^19, rounded to the nearest and upwards from the middle.
pub open spec fn scaled_period(frequency: int) -> int {
    (524_288_000_000 + frequency / 2) / frequency
}

impl Ticker {
    /// The ticker of a system clock of `frequency` cycles per second.
    pub fn new(frequency: u32) -> (ticker: Ticker)
        requires
            frequency > 0,
        ensures
            ticker.frequency == frequency,
            ticker.period_x == scaled_period(frequency as int),
    {
        let clk: u64 = frequency as u64;
        Ticker { frequency, period_x: (524_288_000_000u64 + clk / 2) / clk }
    }

    /// The time in microseconds at which the counter reads `cycles`, modulo
    /// 2^32.
    pub fn at(&self, cycles: u32) -> (now: Time<MicroSeconds>)
        ensures
            now.instant == ((cycles * self.period_x) / 0x8_0000) % 0x1_0000_0000,
    {
        assert(cycles * self.period_x <= 0xFFFF_FFFF * 0xFFFF_FFFF_FFFF_FFFF) by (nonlinear_arith)
            requires
                cycles <= 0xFFFF_FFFF,
                self.period_x <= 0xFFFF_FFFF_FFFF_FFFF,
        ;
        let scaled: u128 = cycles as u128 * self.period_x as u128;
        let micros: u128 = scaled / 0x8_0000u128;
        Time { instant: (micros % 0x1_0000_0000u128) as u32, unit: PhantomData }
    }

    /// The microseconds that `ticks` cycles take, modulo 2^32.
    pub fn to_us(&self, ticks: Duration<SysTicks>) -> (span: Duration<MicroSeconds>)
        ensures
            span.count == ((ticks.count * self.period_x) / 0x8_0000) % 0x1_0000_0000,
    {
        Duration { count: self.at(ticks.count).instant, unit: PhantomData }
    }

    /// The cycles in a span of seconds.
    pub fn from_s(&self, duration: Duration<Seconds>) -> (ticks: Duration<SysTicks>)
        requires
            duration.count * self.frequency <= u32::MAX,
        ensures
            ticks.count == duration.count * self.frequency,
    {
        Duration { count: duration.count * self.frequency, unit: PhantomData }
    }

    /// The cycles in a span of milliseconds, for a frequency of whole
    /// kilohertz.
    pub fn from_ms(&self, duration: Duration<MilliSeconds>) -> (ticks: Duration<SysTicks>)
        requires
            duration.count * (self.frequency / 1_000) <= u32::MAX,
        ensures
            ticks.count == duration.count * (self.frequency / 1_000),
    {
        Duration { count: duration.count * (self.frequency / 1_000), unit: PhantomData }
    }

    /// The cycles in a span of microseconds, for a frequency of whole
    /// megahertz.
    pub fn from_us(&self, duration: Duration<MicroSeconds>) -> (ticks: Duration<SysTicks>)
        requires
            duration.count * (self.frequency / 1_000_000) <= u32::MAX,
        ensures
            ticks.count == duration.count * (self.frequency / 1_000_000),
    {
        Duration { count: duration.count * (self.frequency / 1_000_000), unit: PhantomData }
    }
}

} // verus!
