//! Durations and instants that carry their unit in their type.
//!
//! A [`Duration`] is a span and a [`Time`] is a reading of a free-running
//! counter, both counted in 32 bits. The unit is a marker type, so a span in
//! seconds cannot be added to one in ticks. Instants wrap as the counter
//! behind them does: their differences are taken modulo 2^32.

use core::cmp::Ordering;
use core::marker::PhantomData;
use vstd::prelude::*;

verus! {

/// Unit marker: cycles of the system clock.
#[derive(Copy, Clone, Debug, Default)]
pub struct SysTicks;

/// Unit marker: seconds.
#[derive(Copy, Clone, Debug, Default)]
pub struct Seconds;

/// Unit marker: milliseconds.
#[derive(Copy, Clone, Debug, Default)]
pub struct MilliSeconds;

/// Unit marker: microseconds.
#[derive(Copy, Clone, Debug, Default)]
pub struct MicroSeconds;

/// Unit marker: nanoseconds.
#[derive(Copy, Clone, Debug, Default)]
pub struct NanoSeconds;

/// A span of time of `count` units.
#[derive(Debug)]
pub struct Duration<UNIT> {
    pub count: u32,
    pub unit: PhantomData<UNIT>,
}

/// A reading of a counter that advances once per unit and wraps at 2^32.
#[derive(Debug)]
pub struct Time<UNIT> {
    pub instant: u32,
    pub unit: PhantomData<UNIT>,
}

/// `a - b` modulo 2^32.
pub open spec fn wrapping_difference(a: u32, b: u32) -> u32 {
    if a >= b {
        (a - b) as u32
    } else {
        (a - b + 0x1_0000_0000) as u32
    }
}

/// `a + b` modulo 2^32.
pub open spec fn wrapping_sum(a: u32, b: u32) -> u32 {
    if a + b <= u32::MAX {
        (a + b) as u32
    } else {
        (a + b - 0x1_0000_0000) as u32
    }
}

/// Calls `num_traits::WrappingSub::wrapping_sub` on two `u32`, which forwards
/// to `u32::wrapping_sub`: the difference modulo 2^32. Not proved here.
#[verifier::external_body]
pub(crate) fn counter_difference(a: u32, b: u32) -> (d: u32)
    ensures
        d == wrapping_difference(a, b),
{
    num_traits::WrappingSub::wrapping_sub(&a, &b)
}

/// Calls `num_traits::WrappingAdd::wrapping_add` on two `u32`, which forwards
/// to `u32::wrapping_add`: the sum modulo 2^32. Not proved here.
#[verifier::external_body]
pub(crate) fn counter_sum(a: u32, b: u32) -> (s: u32)
    ensures
        s == wrapping_sum(a, b),
{
    num_traits::WrappingAdd::wrapping_add(&a, &b)
}

impl<UNIT> Clone for Duration<UNIT> {
    fn clone(&self) -> (d: Self)
        ensures
            d == *self,
    {
        *self
    }
}

impl<UNIT> Copy for Duration<UNIT> {

}

impl<UNIT> Clone for Time<UNIT> {
    fn clone(&self) -> (t: Self)
        ensures
            t == *self,
    {
        *self
    }
}

impl<UNIT> Copy for Time<UNIT> {

}

impl<UNIT> Default for Duration<UNIT> {
    /// The empty span.
    fn default() -> (d: Self)
        ensures
            d.count == 0,
    {
        Duration { count: 0, unit: PhantomData }
    }
}

impl<UNIT> From<u32> for Duration<UNIT> {
    fn from(count: u32) -> (d: Self) {
        Duration { count, unit: PhantomData }
    }
}

impl<UNIT> vstd::std_specs::convert::FromSpecImpl<u32> for Duration<UNIT> {
    open spec fn obeys_from_spec() -> bool {
        true
    }

    open spec fn from_spec(count: u32) -> Self {
        Duration { count, unit: PhantomData }
    }
}

impl<UNIT> PartialEq for Duration<UNIT> {
    fn eq(&self, other: &Self) -> (r: bool) {
        self.count == other.count
    }
}

impl<UNIT> vstd::std_specs::cmp::PartialEqSpecImpl for Duration<UNIT> {
    open spec fn obeys_eq_spec() -> bool {
        true
    }

    open spec fn eq_spec(&self, other: &Self) -> bool {
        self.count == other.count
    }
}

impl<UNIT> Eq for Duration<UNIT> {

}

impl<UNIT> PartialOrd for Duration<UNIT> {
    fn partial_cmp(&self, other: &Self) -> (r: Option<Ordering>) {
        if self.count < other.count {
            Some(Ordering::Less)
        } else if self.count == other.count {
            Some(Ordering::Equal)
        } else {
            Some(Ordering::Greater)
        }
    }
}

impl<UNIT> vstd::std_specs::cmp::PartialOrdSpecImpl for Duration<UNIT> {
    open spec fn obeys_partial_cmp_spec() -> bool {
        true
    }

    open spec fn partial_cmp_spec(&self, other: &Self) -> Option<Ordering> {
        if self.count < other.count {
            Some(Ordering::Less)
        } else if self.count == other.count {
            Some(Ordering::Equal)
        } else {
            Some(Ordering::Greater)
        }
    }
}

impl<UNIT> core::ops::Add for Duration<UNIT> {
    type Output = Self;

    fn add(self, rhs: Self) -> (sum: Self) {
        Duration { count: self.count + rhs.count, unit: PhantomData }
    }
}

impl<UNIT> vstd::std_specs::ops::AddSpecImpl for Duration<UNIT> {
    open spec fn obeys_add_spec() -> bool {
        true
    }

    open spec fn add_req(self, rhs: Self) -> bool {
        self.count + rhs.count <= u32::MAX
    }

    open spec fn add_spec(self, rhs: Self) -> Self {
        Duration { count: (self.count + rhs.count) as u32, unit: PhantomData }
    }
}

impl<UNIT> core::ops::Sub for Duration<UNIT> {
    type Output = Self;

    fn sub(self, rhs: Self) -> (difference: Self) {
        Duration { count: self.count - rhs.count, unit: PhantomData }
    }
}

impl<UNIT> vstd::std_specs::ops::SubSpecImpl for Duration<UNIT> {
    open spec fn obeys_sub_spec() -> bool {
        true
    }

    open spec fn sub_req(self, rhs: Self) -> bool {
        rhs.count <= self.count
    }

    open spec fn sub_spec(self, rhs: Self) -> Self {
        Duration { count: (self.count - rhs.count) as u32, unit: PhantomData }
    }
}

impl<UNIT> PartialEq for Time<UNIT> {
    fn eq(&self, other: &Self) -> (r: bool) {
        self.instant == other.instant
    }
}

impl<UNIT> vstd::std_specs::cmp::PartialEqSpecImpl for Time<UNIT> {
    open spec fn obeys_eq_spec() -> bool {
        true
    }

    open spec fn eq_spec(&self, other: &Self) -> bool {
        self.instant == other.instant
    }
}

impl<UNIT> PartialOrd for Time<UNIT> {
    /// Orders two readings by their counts, without regard to wrapping.
    fn partial_cmp(&self, other: &Self) -> (r: Option<Ordering>) {
        if self.instant < other.instant {
            Some(Ordering::Less)
        } else if self.instant == other.instant {
            Some(Ordering::Equal)
        } else {
            Some(Ordering::Greater)
        }
    }
}

impl<UNIT> vstd::std_specs::cmp::PartialOrdSpecImpl for Time<UNIT> {
    open spec fn obeys_partial_cmp_spec() -> bool {
        true
    }

    open spec fn partial_cmp_spec(&self, other: &Self) -> Option<Ordering> {
        if self.instant < other.instant {
            Some(Ordering::Less)
        } else if self.instant == other.instant {
            Some(Ordering::Equal)
        } else {
            Some(Ordering::Greater)
        }
    }
}

impl<UNIT> core::ops::Sub for Time<UNIT> {
    type Output = Duration<UNIT>;

    /// The span from `rhs` to `self`, modulo 2^32.
    fn sub(self, rhs: Self) -> (span: Duration<UNIT>) {
        Duration { count: counter_difference(self.instant, rhs.instant), unit: PhantomData }
    }
}

impl<UNIT> vstd::std_specs::ops::SubSpecImpl for Time<UNIT> {
    open spec fn obeys_sub_spec() -> bool {
        true
    }

    open spec fn sub_req(self, rhs: Self) -> bool {
        true
    }

    open spec fn sub_spec(self, rhs: Self) -> Duration<UNIT> {
        Duration { count: wrapping_difference(self.instant, rhs.instant), unit: PhantomData }
    }
}

impl<UNIT> core::ops::Add<Duration<UNIT>> for Time<UNIT> {
    type Output = Self;

    /// The reading `rhs` after `self`, modulo 2^32.
    fn add(self, rhs: Duration<UNIT>) -> (later: Self) {
        Time { instant: counter_sum(self.instant, rhs.count), unit: PhantomData }
    }
}

impl<UNIT> vstd::std_specs::ops::AddSpecImpl<Duration<UNIT>> for Time<UNIT> {
    open spec fn obeys_add_spec() -> bool {
        true
    }

    open spec fn add_req(self, rhs: Duration<UNIT>) -> bool {
        true
    }

    open spec fn add_spec(self, rhs: Duration<UNIT>) -> Self {
        Time { instant: wrapping_sum(self.instant, rhs.count), unit: PhantomData }
    }
}

impl<UNIT> core::ops::Sub<Duration<UNIT>> for Time<UNIT> {
    type Output = Self;

    /// The reading `rhs` before `self`, modulo 2^32.
    fn sub(self, rhs: Duration<UNIT>) -> (earlier: Self) {
        Time { instant: counter_difference(self.instant, rhs.count), unit: PhantomData }
    }
}

impl<UNIT> vstd::std_specs::ops::SubSpecImpl<Duration<UNIT>> for Time<UNIT> {
    open spec fn obeys_sub_spec() -> bool {
        true
    }

    open spec fn sub_req(self, rhs: Duration<UNIT>) -> bool {
        true
    }

    open spec fn sub_spec(self, rhs: Duration<UNIT>) -> Self {
        Time { instant: wrapping_difference(self.instant, rhs.count), unit: PhantomData }
    }
}

impl<UNIT> From<u32> for Time<UNIT> {
    fn from(instant: u32) -> (t: Self) {
        Time { instant, unit: PhantomData }
    }
}

impl<UNIT> vstd::std_specs::convert::FromSpecImpl<u32> for Time<UNIT> {
    open spec fn obeys_from_spec() -> bool {
        true
    }

    open spec fn from_spec(instant: u32) -> Self {
        Time { instant, unit: PhantomData }
    }
}

impl<UNIT> Time<UNIT> {
    /// The span from `self` to the later reading `till`, modulo 2^32.
    pub fn elapsed_till(&self, till: &Self) -> (span: Duration<UNIT>)
        ensures
            span.count == wrapping_difference(till.instant, self.instant),
    {
        Duration { count: counter_difference(till.instant, self.instant), unit: PhantomData }
    }

    /// The span from the earlier reading `since` to `self`, modulo 2^32.
    pub fn elapsed_since(&self, since: &Self) -> (span: Duration<UNIT>)
        ensures
            span.count == wrapping_difference(self.instant, since.instant),
    {
        Duration { count: counter_difference(self.instant, since.instant), unit: PhantomData }
    }

    /// Moves the reading forward by `ticks`, modulo 2^32.
    pub fn shift(&mut self, ticks: u32)
        ensures
            final(self).instant == wrapping_sum(old(self).instant, ticks),
    {
        self.instant = counter_sum(self.instant, ticks);
    }
}

/// The number of seconds in `hours` hours, `minutes` minutes and `seconds`
/// seconds.
pub open spec fn hms_seconds(hours: int, minutes: int, seconds: int) -> int {
    hours * 3600 + minutes * 60 + seconds
}

impl Time<Seconds> {
    /// The reading `days` days, `hours` hours, `minutes` minutes and `seconds`
    /// seconds after the counter's zero.
    pub fn from_dhms(days: u32, hours: u32, minutes: u32, seconds: u32) -> (t: Time<Seconds>)
        requires
            days * 86400 + hms_seconds(hours as int, minutes as int, seconds as int) <= u32::MAX,
        ensures
            t.instant == days * 86400 + hms_seconds(hours as int, minutes as int, seconds as int),
    {
        Time {
            instant: days * 86400u32 + hours * 3600u32 + minutes * 60u32 + seconds,
            unit: PhantomData,
        }
    }
}

impl Duration<Seconds> {
    /// The span of `hours` hours, `minutes` minutes and `seconds` seconds.
    pub fn from_hms(hours: u32, minutes: u32, seconds: u32) -> (d: Duration<Seconds>)
        requires
            hms_seconds(hours as int, minutes as int, seconds as int) <= u32::MAX,
        ensures
            d.count == hms_seconds(hours as int, minutes as int, seconds as int),
    {
        Duration { count: hours * 3600u32 + minutes * 60u32 + seconds, unit: PhantomData }
    }

    /// Splits the span into whole hours, minutes below 60 and seconds below
    /// 60.
    pub fn to_hms(&self) -> (hms: (u32, u32, u32))
        ensures
            hms.0 == self.count / 3600,
            hms.1 == (self.count % 3600) / 60,
            hms.2 == self.count % 60,
            hms.1 < 60,
            hms.2 < 60,
            hms_seconds(hms.0 as int, hms.1 as int, hms.2 as int) == self.count,
    {
        let t: u32 = self.count;
        let hour: u32 = t / 3600u32;
        let t: u32 = t - hour * 3600u32;
        let min: u32 = t / 60u32;
        let sec: u32 = t - min * 60u32;
        (hour, min, sec)
    }
}

/// Wraps a bare count in a [`Duration`] of the unit named.
pub trait TimeExt {
    /// The count as seconds.
    fn s(self) -> Duration<Seconds>;

    /// The count as milliseconds.
    fn ms(self) -> Duration<MilliSeconds>;

    /// The count as microseconds.
    fn us(self) -> Duration<MicroSeconds>;

    /// The count as nanoseconds.
    fn ns(self) -> Duration<NanoSeconds>;
}

impl TimeExt for u32 {
    fn s(self) -> (d: Duration<Seconds>)
        ensures
            d.count == self,
    {
        Duration { count: self, unit: PhantomData }
    }

    fn ms(self) -> (d: Duration<MilliSeconds>)
        ensures
            d.count == self,
    {
        Duration { count: self, unit: PhantomData }
    }

    fn us(self) -> (d: Duration<MicroSeconds>)
        ensures
            d.count == self,
    {
        Duration { count: self, unit: PhantomData }
    }

    fn ns(self) -> (d: Duration<NanoSeconds>)
        ensures
            d.count == self,
    {
        Duration { count: self, unit: PhantomData }
    }
}

/// A time of the week: a weekday from 0 (Monday) to 6 and a time of day.
#[derive(Clone, Copy, Debug, PartialEq, Eq, Structural)]
pub struct WeekTime {
    pub sec: u8,
    pub min: u8,
    pub hour: u8,
    pub weekday: u8,
}

impl Default for WeekTime {
    /// Monday, midnight.
    fn default() -> (w: Self)
        ensures
            w == (WeekTime { sec: 0, min: 0, hour: 0, weekday: 0 }),
    {
        WeekTime { sec: 0, min: 0, hour: 0, weekday: 0 }
    }
}

impl WeekTime {
    /// Whether the fields name a time of the week: a weekday below 7, an hour
    /// below 24, minute and second below 60.
    pub open spec fn is_valid(self) -> bool {
        &&& self.weekday < 7
        &&& self.hour < 24
        &&& self.min < 60
        &&& self.sec < 60
    }

    /// The seconds from Monday 00:00 to this time of the week.
    pub open spec fn seconds(self) -> int {
        self.weekday * 86400 + hms_seconds(self.hour as int, self.min as int, self.sec as int)
    }

    /// The time of the week `t` seconds after a Monday 00:00.
    pub open spec fn at(t: int) -> WeekTime {
        let of_day = t % 86400;
        let of_hour = of_day % 3600;
        WeekTime {
            sec: (of_hour % 60) as u8,
            min: (of_hour / 60) as u8,
            hour: (of_day / 3600) as u8,
            weekday: ((t / 86400) % 7) as u8,
        }
    }
}

impl From<Time<Seconds>> for WeekTime {
    /// The time of the week at `time`, a count of seconds from a Monday 00:00.
    fn from(time: Time<Seconds>) -> (w: Self) {
        let t: u32 = time.instant;
        let day: u32 = t / 86400u32;
        let t: u32 = t - day * 86400u32;
        let hour: u32 = t / 3600u32;
        let t: u32 = t - hour * 3600u32;
        let min: u32 = t / 60u32;
        let sec: u32 = t - min * 60u32;
        let weekday: u32 = day % 7u32;
        WeekTime { sec: sec as u8, min: min as u8, hour: hour as u8, weekday: weekday as u8 }
    }
}

impl vstd::std_specs::convert::FromSpecImpl<Time<Seconds>> for WeekTime {
    open spec fn obeys_from_spec() -> bool {
        true
    }

    open spec fn from_spec(time: Time<Seconds>) -> Self {
        WeekTime::at(time.instant as int)
    }
}

impl From<WeekTime> for Time<Seconds> {
    /// The seconds from Monday 00:00 to `week_time`.
    fn from(week_time: WeekTime) -> (t: Self) {
        Time {
            instant: week_time.weekday as u32 * 86400u32 + week_time.hour as u32 * 3600u32
                + week_time.min as u32 * 60u32 + week_time.sec as u32,
            unit: PhantomData,
        }
    }
}

impl vstd::std_specs::convert::FromSpecImpl<WeekTime> for Time<Seconds> {
    open spec fn obeys_from_spec() -> bool {
        true
    }

    open spec fn from_spec(week_time: WeekTime) -> Self {
        Time { instant: week_time.seconds() as u32, unit: PhantomData }
    }
}

/// A time of the week read off a count of seconds is valid, and counts back
/// to the same second of the week.
pub proof fn lemma_week_time_round_trip(t: u32)
    ensures
        WeekTime::at(t as int).is_valid(),
        WeekTime::at(t as int).seconds() == t % 604800,
{
    let days = t as int / 86400;
    let of_day = t as int % 86400;
    let weeks = days / 7;
    let weekday = days % 7;
    assert(t == 604800 * weeks + (86400 * weekday + of_day));
    vstd::arithmetic::div_mod::lemma_fundamental_div_mod_converse(
        t as int,
        604800,
        weeks,
        86400 * weekday + of_day,
    );
}

/// A valid time of the week is the one read off its own count of seconds.
pub proof fn lemma_week_time_of_seconds(w: WeekTime)
    requires
        w.is_valid(),
    ensures
        0 <= w.seconds() < 604800,
        WeekTime::at(w.seconds()) == w,
{
    let of_hour = w.min * 60 + w.sec;
    let of_day = w.hour * 3600 + of_hour;
    vstd::arithmetic::div_mod::lemma_fundamental_div_mod_converse(
        w.seconds(),
        86400,
        w.weekday as int,
        of_day,
    );
    vstd::arithmetic::div_mod::lemma_fundamental_div_mod_converse(
        of_day,
        3600,
        w.hour as int,
        of_hour,
    );
    vstd::arithmetic::div_mod::lemma_fundamental_div_mod_converse(
        of_hour,
        60,
        w.min as int,
        w.sec as int,
    );
}

} // verus!
