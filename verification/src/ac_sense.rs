//! Power drawn by a load on the mains, from samples of its voltage and
//! current.
//!
//! The samples are gathered in windows a little longer than a period of the
//! mains. Each window yields the mean of voltage and of current; the window
//! after it measures the power by the deviations from those means, and yields
//! the least, the mean and the greatest power seen. A reactive load can take
//! the least power below zero.

use crate::timing::Duration;
use core::marker::PhantomData;
use vstd::prelude::*;

verus! {

/// The power over one window.
#[derive(Debug, Copy, Clone, PartialEq, Eq, Structural)]
pub struct Statistics {
    pub min_power: i32,
    pub avg_power: i32,
    pub max_power: i32,
}

/// What an [`AcSense`] holds, as plain numbers.
pub struct Meter {
    /// Whether the current is measured with its sign reversed.
    pub wrong_sign: bool,
    /// The time that a window has to exceed.
    pub period: int,
    /// Time gone by in the window in progress.
    pub window: int,
    /// Sum over the window of current times time.
    pub current_sum: int,
    /// Sum over the window of voltage times time.
    pub voltage_sum: int,
    /// Mean current and mean voltage of the window before, once there was
    /// one.
    pub mean: Option<(int, int)>,
    /// The power over the window in progress so far.
    pub in_progress: Option<Statistics>,
    /// The power over the last window that measured it.
    pub statistics: Option<Statistics>,
}

/// `a / b` rounded towards zero, for a positive `b`.
pub open spec fn quotient(a: int, b: int) -> int {
    if a >= 0 {
        a / b
    } else {
        -((-a) / b)
    }
}

/// The statistics `so_far` with one more sample of `power`, which adds
/// `share` to the mean.
pub open spec fn with_sample(so_far: Option<Statistics>, power: int, share: int) -> Statistics {
    match so_far {
        Some(last) => Statistics {
            min_power: if power < last.min_power {
                power as i32
            } else {
                last.min_power
            },
            avg_power: (last.avg_power + share) as i32,
            max_power: if power > last.max_power {
                power as i32
            } else {
                last.max_power
            },
        },
        None => Statistics {
            min_power: power as i32,
            avg_power: share as i32,
            max_power: power as i32,
        },
    }
}

impl Meter {
    /// A meter that has seen nothing yet.
    pub open spec fn fresh(period: int, wrong_sign: bool) -> Meter {
        Meter {
            wrong_sign,
            period,
            window: 0,
            current_sum: 0,
            voltage_sum: 0,
            mean: None,
            in_progress: None,
            statistics: None,
        }
    }

    /// The power of a sample: the product of the deviations of voltage and
    /// current from their means, with the sign set right.
    pub open spec fn power(self, current: int, voltage: int) -> int
        recommends
            self.mean is Some,
    {
        let (mean_current, mean_voltage) = self.mean->0;
        let product = (voltage - mean_voltage) * (current - mean_current);
        if self.wrong_sign {
            -product
        } else {
            product
        }
    }

    /// What a sample that lasted `dt` adds to the mean power of the window.
    pub open spec fn share(self, current: int, voltage: int, dt: int) -> int
        recommends
            self.mean is Some,
    {
        quotient(self.power(current, voltage) * dt, self.period)
    }

    /// Whether the sample can be taken in with every number in the range
    /// that it is held in: the sums in 32 bits without sign, the power and
    /// what is computed from it in 32 bits with sign.
    pub open spec fn accepts(self, current: int, voltage: int, dt: int) -> bool {
        &&& self.window + dt <= u32::MAX
        &&& self.current_sum + current * dt <= u32::MAX
        &&& self.voltage_sum + voltage * dt <= u32::MAX
        &&& self.mean matches Some((mean_current, mean_voltage)) ==> {
            &&& current <= i32::MAX
            &&& voltage <= i32::MAX
            &&& mean_current <= i32::MAX
            &&& mean_voltage <= i32::MAX
            &&& dt <= i32::MAX
            &&& 0 < self.period <= i32::MAX
            &&& i32::MIN <= (voltage - mean_voltage) * (current - mean_current) <= i32::MAX
            &&& i32::MIN <= self.power(current, voltage) <= i32::MAX
            &&& i32::MIN <= self.power(current, voltage) * dt <= i32::MAX
            &&& self.in_progress matches Some(last) ==> i32::MIN <= last.avg_power + self.share(
                current,
                voltage,
                dt,
            ) <= i32::MAX
        }
    }

    /// The meter after a sample of `current` and `voltage` that lasted `dt`.
    ///
    /// The sample is added to the sums of the window. Where the means of the
    /// window before are known, its power goes into the statistics in
    /// progress. A window that has exceeded the period is closed: its sums
    /// give the new means, the statistics in progress become the ones on
    /// offer, and the next window starts from nothing.
    pub open spec fn after(self, current: int, voltage: int, dt: int) -> Meter {
        let window = self.window + dt;
        let current_sum = self.current_sum + current * dt;
        let voltage_sum = self.voltage_sum + voltage * dt;
        let in_progress = if self.mean is Some {
            Some(
                with_sample(
                    self.in_progress,
                    self.power(current, voltage),
                    self.share(current, voltage, dt),
                ),
            )
        } else {
            self.in_progress
        };
        if window > self.period {
            Meter {
                window: 0,
                current_sum: 0,
                voltage_sum: 0,
                mean: Some((current_sum / window, voltage_sum / window)),
                in_progress: None,
                statistics: in_progress,
                ..self
            }
        } else {
            Meter { window, current_sum, voltage_sum, in_progress, ..self }
        }
    }
}

/// Meter of the power that a load draws from the mains.
pub struct AcSense<UNIT> {
    wrong_sign: bool,
    period: Duration<UNIT>,
    full_duration: Duration<UNIT>,
    current_sum: u32,
    voltage_sum: u32,
    averages: Option<(u32, u32)>,
    in_progress: Option<Statistics>,
    statistics: Option<Statistics>,
}

impl<UNIT> View for AcSense<UNIT> {
    type V = Meter;

    closed spec fn view(&self) -> Meter {
        Meter {
            wrong_sign: self.wrong_sign,
            period: self.period.count as int,
            window: self.full_duration.count as int,
            current_sum: self.current_sum as int,
            voltage_sum: self.voltage_sum as int,
            mean: match self.averages {
                Some((current, voltage)) => Some((current as int, voltage as int)),
                None => None,
            },
            in_progress: self.in_progress,
            statistics: self.statistics,
        }
    }
}

impl<UNIT> AcSense<UNIT> {
    /// A meter with windows that exceed `period`. Set `wrong_sign` where the
    /// current is measured with its sign reversed against the voltage.
    pub fn new(period: Duration<UNIT>, wrong_sign: bool) -> (sense: AcSense<UNIT>)
        ensures
            sense@ == Meter::fresh(period.count as int, wrong_sign),
    {
        AcSense {
            wrong_sign,
            period,
            full_duration: Duration { count: 0, unit: PhantomData },
            current_sum: 0,
            voltage_sum: 0,
            averages: None,
            in_progress: None,
            statistics: None,
        }
    }

    /// Forgets everything measured.
    pub fn reset(&mut self)
        ensures
            final(self)@ == Meter::fresh(old(self)@.period, old(self)@.wrong_sign),
    {
        self.full_duration = Duration { count: 0, unit: PhantomData };
        self.current_sum = 0;
        self.voltage_sum = 0;
        self.averages = None;
        self.in_progress = None;
        self.statistics = None;
    }

    /// Whether [`AcSense::update`] can take the sample in: whether every
    /// number stays in the range that it is held in.
    pub fn accepts(&self, current: u32, voltage: u32, delta: Duration<UNIT>) -> (ok: bool)
        ensures
            ok == self@.accepts(current as int, voltage as int, delta.count as int),
    {
        let dt: u32 = delta.count;
        let full: u64 = self.full_duration.count as u64 + dt as u64;
        let current_area: u64 = product(current, dt);
        let voltage_area: u64 = product(voltage, dt);
        if full > u32::MAX as u64 || current_area > (u32::MAX - self.current_sum) as u64
            || voltage_area > (u32::MAX - self.voltage_sum) as u64 {
            return false;
        }
        match self.averages {
            None => true,
            Some((mean_current, mean_voltage)) => {
                let top: u32 = i32::MAX as u32;
                if current > top || voltage > top || mean_current > top || mean_voltage > top
                    || dt > top || self.period.count == 0 || self.period.count > top {
                    return false;
                }
                let u: i64 = voltage as i64 - mean_voltage as i64;
                let i: i64 = current as i64 - mean_current as i64;
                let raw: i64 = signed_product(u, i);
                if raw < i32::MIN as i64 || raw > i32::MAX as i64 {
                    return false;
                }
                let power: i64 = if self.wrong_sign {
                    -raw
                } else {
                    raw
                };
                if power > i32::MAX as i64 {
                    return false;
                }
                let energy: i64 = signed_product(power, dt as i64);
                if energy < i32::MIN as i64 || energy > i32::MAX as i64 {
                    return false;
                }
                let share: i64 = energy / (self.period.count as i64);
                match self.in_progress {
                    None => true,
                    Some(last) => {
                        let mean: i64 = last.avg_power as i64 + share;
                        mean >= i32::MIN as i64 && mean <= i32::MAX as i64
                    },
                }
            },
        }
    }

    /// Takes in a sample of `current` and `voltage` that lasted `delta`. To be
    /// called many times in a period.
    pub fn update(&mut self, current: u32, voltage: u32, delta: Duration<UNIT>)
        requires
            old(self)@.accepts(current as int, voltage as int, delta.count as int),
        ensures
            final(self)@ == old(self)@.after(current as int, voltage as int, delta.count as int),
    {
        let dt: u32 = delta.count;
        self.full_duration = Duration { count: self.full_duration.count + dt, unit: PhantomData };
        self.current_sum = self.current_sum + current * dt;
        self.voltage_sum = self.voltage_sum + voltage * dt;
        if let Some((mean_current, mean_voltage)) = self.averages {
            let u: i32 = voltage as i32 - mean_voltage as i32;
            let i: i32 = current as i32 - mean_current as i32;
            let power: i32 = u * i;
            let power: i32 = if self.wrong_sign {
                -power
            } else {
                power
            };
            let share: i32 = power * (dt as i32) / (self.period.count as i32);
            self.in_progress = Some(
                match self.in_progress {
                    Some(last) => Statistics {
                        min_power: if power < last.min_power {
                            power
                        } else {
                            last.min_power
                        },
                        avg_power: last.avg_power + share,
                        max_power: if power > last.max_power {
                            power
                        } else {
                            last.max_power
                        },
                    },
                    None => Statistics { min_power: power, avg_power: share, max_power: power },
                },
            );
        }
        if self.full_duration.count > self.period.count {
            let window: u32 = self.full_duration.count;
            self.averages = Some((self.current_sum / window, self.voltage_sum / window));
            self.statistics = self.in_progress;
            self.in_progress = None;
            self.current_sum = 0;
            self.voltage_sum = 0;
            self.full_duration = Duration { count: 0, unit: PhantomData };
        }
    }

    /// The power over the last window that measured it; `None` until two
    /// windows have passed.
    pub fn state(&self) -> (statistics: &Option<Statistics>)
        ensures
            *statistics == self@.statistics,
    {
        &self.statistics
    }
}

/// The product of two numbers of 32 bits, in 64 bits.
fn product(a: u32, b: u32) -> (p: u64)
    ensures
        p == a * b,
{
    assert(a * b <= 0xFFFF_FFFF * 0xFFFF_FFFF) by (nonlinear_arith)
        requires
            a <= 0xFFFF_FFFF,
            b <= 0xFFFF_FFFF,
    ;
    a as u64 * b as u64
}

/// The product of two numbers of 32 bits with sign, in 64 bits.
fn signed_product(a: i64, b: i64) -> (p: i64)
    requires
        -0x8000_0000 <= a <= 0x8000_0000,
        -0x8000_0000 <= b <= 0x8000_0000,
    ensures
        p == a * b,
{
    assert(-0x4000_0000_0000_0000 <= a * b <= 0x4000_0000_0000_0000) by (nonlinear_arith)
        requires
            -0x8000_0000 <= a <= 0x8000_0000,
            -0x8000_0000 <= b <= 0x8000_0000,
    ;
    a * b
}

} // verus!
