//! A wall switch on the mains, read through an optocoupler.
//!
//! While the switch is closed the input is pulled low twice in every period
//! of the mains; while it is open the input stays high. The time for which
//! the input was seen low is added up over a window of one period, and at the
//! end of each window the switch counts as on if that time is not zero.

use crate::timing::Duration;
use core::marker::PhantomData;
use vstd::prelude::*;

verus! {

/// Position of a switch.
#[derive(Copy, Clone, Debug, PartialEq, Eq, Structural)]
pub enum OnOff {
    Off,
    On,
}

/// One reading of the input: the time since the reading before it, and
/// whether the input was low.
pub struct Reading {
    pub delta: int,
    pub low: bool,
}

/// What an [`AcSwitch`] holds, as plain numbers.
pub struct Switch {
    /// Length of a window.
    pub period: int,
    /// Time gone by in the window in progress.
    pub window: int,
    /// How much of that time the input was low.
    pub low_time: int,
    /// Position found by the last window but one, if there were two.
    pub last: Option<OnOff>,
    /// Position found by the last window, if there was one.
    pub current: Option<OnOff>,
}

impl Switch {
    /// A switch of which nothing is known yet.
    pub open spec fn fresh(period: int) -> Switch {
        Switch { period, window: 0, low_time: 0, last: None, current: None }
    }

    /// The switch after one more reading. The reading's time is added to the
    /// window, and to the time low if the input was low. A window that has
    /// reached the period is closed: its finding becomes the current
    /// position, the position before becomes the last one, and the next
    /// window starts from nothing.
    pub open spec fn after(self, reading: Reading) -> Switch {
        let window = self.window + reading.delta;
        let low_time = self.low_time + if reading.low {
            reading.delta
        } else {
            0
        };
        if window >= self.period {
            Switch {
                period: self.period,
                window: 0,
                low_time: 0,
                last: self.current,
                current: Some(
                    if low_time == 0 {
                        OnOff::Off
                    } else {
                        OnOff::On
                    },
                ),
            }
        } else {
            Switch { window, low_time, ..self }
        }
    }

    /// The switch after the readings in turn.
    pub open spec fn fed(self, readings: Seq<Reading>) -> Switch
        decreases readings.len(),
    {
        if readings.len() == 0 {
            self
        } else {
            self.fed(readings.drop_last()).after(readings.last())
        }
    }
}

/// The time that the readings span.
pub open spec fn total(readings: Seq<Reading>) -> int
    decreases readings.len(),
{
    if readings.len() == 0 {
        0
    } else {
        total(readings.drop_last()) + readings.last().delta
    }
}

/// The time for which the readings found the input low.
pub open spec fn total_low(readings: Seq<Reading>) -> int
    decreases readings.len(),
{
    if readings.len() == 0 {
        0
    } else {
        total_low(readings.drop_last()) + if readings.last().low {
            readings.last().delta
        } else {
            0
        }
    }
}

/// Debounced reading of a mains switch.
pub struct AcSwitch<UNIT> {
    period: Duration<UNIT>,
    full_duration: Duration<UNIT>,
    low_duration: Duration<UNIT>,
    last: Option<OnOff>,
    current: Option<OnOff>,
}

impl<UNIT> AcSwitch<UNIT> {
    /// Within a window the time low is part of the time gone by, and the
    /// time gone by has not reached the period.
    #[verifier::type_invariant]
    spec fn well_formed(&self) -> bool {
        &&& self.low_duration.count <= self.full_duration.count
        &&& self.full_duration.count == 0 || self.full_duration.count < self.period.count
    }
}

impl<UNIT> View for AcSwitch<UNIT> {
    type V = Switch;

    closed spec fn view(&self) -> Switch {
        Switch {
            period: self.period.count as int,
            window: self.full_duration.count as int,
            low_time: self.low_duration.count as int,
            last: self.last,
            current: self.current,
        }
    }
}

impl<UNIT> AcSwitch<UNIT> {
    /// A switch with windows of the length `period`, of which nothing is known
    /// yet.
    pub fn new(period: Duration<UNIT>) -> (switch: AcSwitch<UNIT>)
        ensures
            switch@ == Switch::fresh(period.count as int),
    {
        AcSwitch {
            period,
            full_duration: Duration { count: 0, unit: PhantomData },
            low_duration: Duration { count: 0, unit: PhantomData },
            last: None,
            current: None,
        }
    }

    /// Takes a reading of the input: `low` is its level, `delta` the time
    /// since the reading before. To be called far more often than once in a
    /// period.
    pub fn update(&mut self, delta: Duration<UNIT>, low: bool)
        ensures
            final(self)@ == old(self)@.after(Reading { delta: delta.count as int, low }),
    {
        proof {
            use_type_invariant(&*self);
        }
        let full: u64 = self.full_duration.count as u64 + delta.count as u64;
        let low_time: u64 = if low {
            self.low_duration.count as u64 + delta.count as u64
        } else {
            self.low_duration.count as u64
        };
        if full >= self.period.count as u64 {
            let found = if low_time == 0 {
                OnOff::Off
            } else {
                OnOff::On
            };
            self.last = self.current;
            self.current = Some(found);
            self.low_duration = Duration { count: 0, unit: PhantomData };
            self.full_duration = Duration { count: 0, unit: PhantomData };
        } else {
            self.full_duration = Duration { count: full as u32, unit: PhantomData };
            self.low_duration = Duration { count: low_time as u32, unit: PhantomData };
        }
    }

    /// The position found by the last window; `None` until a window has
    /// passed.
    pub fn state(&self) -> (position: Option<OnOff>)
        ensures
            position == self@.current,
    {
        self.current
    }

    /// The position found by the last window but one; `None` until two
    /// windows have passed.
    pub fn last_state(&self) -> (position: Option<OnOff>)
        ensures
            position == self@.last,
    {
        self.last
    }
}

/// Whether no reading goes back in time.
pub open spec fn forward(readings: Seq<Reading>) -> bool {
    forall|i: int| 0 <= i < readings.len() ==> (#[trigger] readings[i]).delta >= 0
}

/// The first readings span no more time than all of them, and the input is
/// low for no more time than they span.
proof fn lemma_totals_grow(readings: Seq<Reading>, n: nat)
    requires
        forward(readings),
        n <= readings.len(),
    ensures
        0 <= total_low(readings.take(n as int)) <= total(readings.take(n as int)) <= total(
            readings,
        ),
        n < readings.len() ==> total(readings.take(n as int + 1)) == total(readings.take(n as int))
            + readings[n as int].delta,
        n < readings.len() ==> total_low(readings.take(n as int + 1)) == total_low(
            readings.take(n as int),
        ) + if readings[n as int].low {
            readings[n as int].delta
        } else {
            0
        },
    decreases readings.len() - n, n,
{
    if n < readings.len() {
        lemma_totals_grow(readings, n + 1);
        assert(readings.take(n as int + 1).drop_last() =~= readings.take(n as int));
        assert(readings.take(n as int + 1).last() == readings[n as int]);
        assert(readings[n as int].delta >= 0);
    } else {
        assert(readings.take(n as int) =~= readings);
    }
    lemma_low_is_part(readings.take(n as int));
}

/// The input is low for no more time than the readings span.
proof fn lemma_low_is_part(readings: Seq<Reading>)
    requires
        forward(readings),
    ensures
        0 <= total_low(readings) <= total(readings),
    decreases readings.len(),
{
    if readings.len() > 0 {
        lemma_low_is_part(readings.drop_last());
        assert(readings[readings.len() - 1].delta >= 0);
    }
}

/// Where the first `n` readings of a window's worth leave the switch.
proof fn lemma_fed_window(start: Switch, readings: Seq<Reading>, n: nat)
    requires
        start.window == 0,
        start.low_time == 0,
        forward(readings),
        total(readings) == start.period,
        n <= readings.len(),
    ensures
        ({
            let seen = readings.take(n as int);
            let switch = start.fed(seen);
            &&& switch.period == start.period
            &&& if n == 0 || total(seen) < start.period {
                &&& switch.window == total(seen)
                &&& switch.low_time == total_low(seen)
                &&& switch.current == start.current
                &&& switch.last == start.last
            } else {
                &&& switch.window == 0
                &&& switch.low_time == 0
                &&& switch.current == Some(
                    if total_low(seen) > 0 {
                        OnOff::On
                    } else {
                        OnOff::Off
                    },
                )
            }
        }),
    decreases n,
{
    if n > 0 {
        let k = (n - 1) as nat;
        lemma_fed_window(start, readings, k);
        lemma_totals_grow(readings, k);
        lemma_totals_grow(readings, n);
        assert(readings.take(n as int).drop_last() =~= readings.take(k as int));
        assert(readings.take(n as int).last() == readings[k as int]);
        assert(readings[k as int].delta >= 0);
    }
}

/// Readings that start with a window and span exactly one period decide the
/// position: on if the input was low for any of the time, off if for none of
/// it.
pub proof fn lemma_window_decides(start: Switch, readings: Seq<Reading>)
    requires
        start.window == 0,
        start.low_time == 0,
        readings.len() > 0,
        forward(readings),
        total(readings) == start.period,
    ensures
        start.fed(readings).current == Some(
            if total_low(readings) > 0 {
                OnOff::On
            } else {
                OnOff::Off
            },
        ),
{
    lemma_fed_window(start, readings, readings.len());
    assert(readings.take(readings.len() as int) =~= readings);
}

/// One reading that finds the input low for some time, among readings that
/// start with a window and span exactly one period, turns the switch on.
pub proof fn lemma_low_reading_turns_on(start: Switch, readings: Seq<Reading>, i: int)
    requires
        start.window == 0,
        start.low_time == 0,
        forward(readings),
        total(readings) == start.period,
        0 <= i < readings.len(),
        readings[i].low,
        readings[i].delta > 0,
    ensures
        start.fed(readings).current == Some(OnOff::On),
{
    lemma_window_decides(start, readings);
    lemma_totals_grow(readings, i as nat);
    lemma_totals_grow(readings, (i + 1) as nat);
    lemma_low_grows(readings, (i + 1) as nat);
}

/// The first readings find the input low for no more time than all of them.
proof fn lemma_low_grows(readings: Seq<Reading>, n: nat)
    requires
        forward(readings),
        n <= readings.len(),
    ensures
        total_low(readings.take(n as int)) <= total_low(readings),
    decreases readings.len() - n,
{
    if n < readings.len() {
        lemma_low_grows(readings, n + 1);
        lemma_totals_grow(readings, n);
        assert(readings[n as int].delta >= 0);
    } else {
        assert(readings.take(n as int) =~= readings);
    }
}

/// Readings that start with a window, span exactly one period and find the
/// input high throughout turn the switch off.
pub proof fn lemma_high_window_turns_off(start: Switch, readings: Seq<Reading>)
    requires
        start.window == 0,
        start.low_time == 0,
        readings.len() > 0,
        forward(readings),
        total(readings) == start.period,
        forall|i: int| 0 <= i < readings.len() ==> !(#[trigger] readings[i]).low,
    ensures
        start.fed(readings).current == Some(OnOff::Off),
{
    lemma_window_decides(start, readings);
    lemma_high_is_never_low(readings);
}

/// Readings that find the input high throughout find it low for no time.
proof fn lemma_high_is_never_low(readings: Seq<Reading>)
    requires
        forall|i: int| 0 <= i < readings.len() ==> !(#[trigger] readings[i]).low,
    ensures
        total_low(readings) == 0,
    decreases readings.len(),
{
    if readings.len() > 0 {
        lemma_high_is_never_low(readings.drop_last());
        assert(!readings[readings.len() - 1].low);
    }
}

} // verus!
