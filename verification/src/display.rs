//! Texts for a character display: fixed-width numbers, times and
//! temperatures, and the names of the days of the week.

use crate::temperature::{magnitude, Temperature};
use crate::timing::{Duration, Seconds};
use vstd::prelude::*;

verus! {

/// The character of the digit `d`.
pub open spec fn digit(d: int) -> u8 {
    (48 + d) as u8
}

/// The name of the day `n` of the week, Monday being day 0.
pub open spec fn weekday_name(n: int) -> Seq<char> {
    if n == 0 {
        "Hetfo"@
    } else if n == 1 {
        "Kedd"@
    } else if n == 2 {
        "Szerda"@
    } else if n == 3 {
        "Csutortok"@
    } else if n == 4 {
        "Pentek"@
    } else if n == 5 {
        "Szombat"@
    } else {
        "Vasarnap"@
    }
}

/// The hundredths of a degree that `fraction` sixteenths come to, rounded to
/// the nearest and upwards from the middle.
pub open spec fn hundredths(fraction: int) -> int {
    (100 * fraction + 8) / 16
}

/// The text of a temperature: a minus sign or a blank, the whole degrees
/// modulo 256 in the way of [`fmt_nn`], a point and two decimals.
pub open spec fn temperature_text(temp: Temperature) -> Seq<u8> {
    let whole = (magnitude(temp@) / 16) % 256;
    let fraction = hundredths(magnitude(temp@) % 16);
    seq![
        if temp@ < 0 {
            45u8
        } else {
            32u8
        },
        digit(whole / 10),
        digit(whole % 10),
        46u8,
        digit(fraction / 10),
        digit(fraction % 10),
    ]
}

/// The name of the day `n` of the week, Monday being day 0.
pub fn fmt_weekday(n: u8) -> (name: &'static str)
    requires
        n < 7,
    ensures
        name@ == weekday_name(n as int),
{
    match n {
        0 => "Hetfo",
        1 => "Kedd",
        2 => "Szerda",
        3 => "Csutortok",
        4 => "Pentek",
        5 => "Szombat",
        _ => "Vasarnap",
    }
}

/// `n` in two characters: its tens, which are a digit where `n` is below
/// 100, and its ones.
pub fn fmt_nn(n: u8) -> (text: [u8; 2])
    ensures
        text@ == seq![digit(n as int / 10), digit(n as int % 10)],
{
    [48u8 + n / 10u8, 48u8 + n % 10u8]
}

/// `n` in three characters: its hundreds modulo 256, which are a digit
/// where `n` is below 1000, its tens and its ones. The character of the
/// hundreds has to fit a byte.
pub fn fmt_nnn(n: u32) -> (text: [u8; 3])
    requires
        (n / 100) % 256 <= 207,
    ensures
        text@ == seq![
            digit((n as int / 100) % 256),
            digit((n as int % 100) / 10),
            digit(n as int % 10),
        ],
{
    let hundreds: u32 = n / 100;
    let rest: u8 = (n - hundreds * 100) as u8;
    [48u8 + (hundreds % 256) as u8, 48u8 + rest / 10u8, 48u8 + rest % 10u8]
}

/// The minutes and seconds of a span as `MM:SS`, the hours left out.
pub fn fmt_duration(duration: &Duration<Seconds>) -> (text: [u8; 5])
    ensures
        text@ == seq![
            digit((duration.count as int % 3600) / 600),
            digit(((duration.count as int % 3600) / 60) % 10),
            58u8,
            digit((duration.count as int % 60) / 10),
            digit(duration.count as int % 10),
        ],
{
    let (_, min, sec) = duration.to_hms();
    let m: u8 = min as u8;
    let s: u8 = sec as u8;
    [48u8 + m / 10u8, 48u8 + m % 10u8, 58u8, 48u8 + s / 10u8, 48u8 + s % 10u8]
}

/// A temperature as sign, two digits, point and two decimals, such as
/// `-05.56`. The decimals are the sixteenths rounded to hundredths.
pub fn fmt_temp(temp: Temperature) -> (text: [u8; 6])
    ensures
        text@ == temperature_text(temp),
{
    let (whole, fraction) = temp.parts();
    let t: u8 = (whole % 256) as u8;
    let decimals: u8 = ((100u16 * fraction as u16 + 8u16) / 16u16) as u8;
    [
        if temp.is_negative() {
            45u8
        } else {
            32u8
        },
        48u8 + t / 10u8,
        48u8 + t % 10u8,
        46u8,
        48u8 + decimals / 10u8,
        48u8 + decimals % 10u8,
    ]
}

} // verus!
