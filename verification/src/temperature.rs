//! Fixed-point temperatures with a resolution of one sixteenth of a degree,
//! as the one-wire thermometers report them.

use core::cmp::Ordering;
use vstd::prelude::*;

verus! {

/// A temperature in degrees Celsius, held as a signed count of sixteenths of
/// a degree.
#[derive(Clone, Copy, Debug)]
pub struct Temperature {
    pub sixteenths: i16,
}

impl View for Temperature {
    type V = int;

    /// The temperature in sixteenths of a degree.
    open spec fn view(&self) -> int {
        self.sixteenths as int
    }
}

/// How far `x` is from zero.
pub open spec fn magnitude(x: int) -> int {
    if x < 0 {
        -x
    } else {
        x
    }
}

/// What `onewire::ds18b20::split_temp` makes of the 16 bits of a reading:
/// the whole degrees and the ten-thousandths of a degree beyond them, both
/// with the sign of the reading.
pub open spec fn split(raw: u16) -> (i16, i16) {
    if raw < 0x8000 {
        ((raw / 16) as i16, ((raw % 16) * 625) as i16)
    } else {
        let abs = 0x1_0000 - raw;
        ((-(abs / 16)) as i16, (-625 * (abs % 16)) as i16)
    }
}

/// Calls `onewire::ds18b20::split_temp`, which takes the 16 bits of a
/// reading as a number in two's complement and returns the whole degrees and
/// the ten-thousandths beyond them, each with the sign of the reading. The
/// one reading that has no positive counterpart in 16 bits is kept from it.
/// Not proved here.
#[verifier::external_body]
fn split_reading(raw: u16) -> (parts: (i16, i16))
    requires
        raw != 0x8000,
    ensures
        parts == split(raw),
{
    onewire::ds18b20::split_temp(raw)
}

impl Temperature {
    /// The temperature of `degree` whole degrees plus `degree_div_16`
    /// sixteenths.
    pub fn from_celsius(degree: i16, degree_div_16: i16) -> (t: Temperature)
        requires
            -2048 <= degree < 2048,
            0 <= degree_div_16 < 16,
        ensures
            t@ == 16 * degree + degree_div_16,
    {
        Temperature { sixteenths: degree * 16 + degree_div_16 }
    }

    /// The temperature that a thermometer reports as the 16 bits `raw`: a
    /// count of sixteenths of a degree in two's complement.
    pub fn from_reading(raw: u16) -> (t: Temperature)
        ensures
            t@ == if raw < 0x8000 {
                raw as int
            } else {
                raw - 0x1_0000
            },
    {
        if raw < 0x8000 {
            Temperature { sixteenths: raw as i16 }
        } else {
            Temperature { sixteenths: (raw as i32 - 0x1_0000) as i16 }
        }
    }

    /// Whether the temperature is below zero.
    pub fn is_negative(&self) -> (negative: bool)
        ensures
            negative == (self@ < 0),
    {
        self.sixteenths < 0
    }

    /// The whole degrees and the sixteenths beyond them, both counted away
    /// from zero.
    pub fn parts(&self) -> (parts: (u16, u8))
        ensures
            parts.0 == magnitude(self@) / 16,
            parts.1 == magnitude(self@) % 16,
            magnitude(self@) == 16 * parts.0 + parts.1,
    {
        if self.sixteenths == i16::MIN {
            (2048, 0)
        } else {
            let raw: u16 = if self.sixteenths >= 0 {
                self.sixteenths as u16
            } else {
                (self.sixteenths as i32 + 0x1_0000) as u16
            };
            let (whole, ten_thousandths) = split_reading(raw);
            if self.sixteenths >= 0 {
                (whole as u16, (ten_thousandths / 625) as u8)
            } else {
                ((-whole) as u16, ((-ten_thousandths) / 625) as u8)
            }
        }
    }

    /// The whole degrees, counted away from zero.
    pub fn whole_degrees(&self) -> (degrees: u16)
        ensures
            degrees == magnitude(self@) / 16,
    {
        self.parts().0
    }

    /// The sixteenths of a degree beyond the whole degrees, from 0 to 15.
    pub fn fraction_degrees(&self) -> (fraction: u8)
        ensures
            fraction == magnitude(self@) % 16,
            fraction < 16,
    {
        self.parts().1
    }

    /// The sum, unless it is out of the range of a temperature.
    pub fn checked_add(self, rhs: Temperature) -> (sum: Option<Temperature>)
        ensures
            match sum {
                Some(t) => t@ == self@ + rhs@,
                None => !(i16::MIN <= self@ + rhs@ <= i16::MAX),
            },
    {
        match self.sixteenths.checked_add(rhs.sixteenths) {
            Some(sixteenths) => Some(Temperature { sixteenths }),
            None => None,
        }
    }

    /// The difference, unless it is out of the range of a temperature.
    pub fn checked_sub(self, rhs: Temperature) -> (difference: Option<Temperature>)
        ensures
            match difference {
                Some(t) => t@ == self@ - rhs@,
                None => !(i16::MIN <= self@ - rhs@ <= i16::MAX),
            },
    {
        match self.sixteenths.checked_sub(rhs.sixteenths) {
            Some(sixteenths) => Some(Temperature { sixteenths }),
            None => None,
        }
    }
}

impl PartialEq for Temperature {
    fn eq(&self, other: &Self) -> (r: bool) {
        self.sixteenths == other.sixteenths
    }
}

impl vstd::std_specs::cmp::PartialEqSpecImpl for Temperature {
    open spec fn obeys_eq_spec() -> bool {
        true
    }

    open spec fn eq_spec(&self, other: &Self) -> bool {
        self.sixteenths == other.sixteenths
    }
}

impl Eq for Temperature {

}

impl PartialOrd for Temperature {
    fn partial_cmp(&self, other: &Self) -> (r: Option<Ordering>) {
        if self.sixteenths < other.sixteenths {
            Some(Ordering::Less)
        } else if self.sixteenths == other.sixteenths {
            Some(Ordering::Equal)
        } else {
            Some(Ordering::Greater)
        }
    }
}

impl vstd::std_specs::cmp::PartialOrdSpecImpl for Temperature {
    open spec fn obeys_partial_cmp_spec() -> bool {
        true
    }

    open spec fn partial_cmp_spec(&self, other: &Self) -> Option<Ordering> {
        if self.sixteenths < other.sixteenths {
            Some(Ordering::Less)
        } else if self.sixteenths == other.sixteenths {
            Some(Ordering::Equal)
        } else {
            Some(Ordering::Greater)
        }
    }
}

impl core::ops::Add for Temperature {
    type Output = Self;

    fn add(self, rhs: Self) -> (sum: Self) {
        Temperature { sixteenths: self.sixteenths + rhs.sixteenths }
    }
}

impl vstd::std_specs::ops::AddSpecImpl for Temperature {
    open spec fn obeys_add_spec() -> bool {
        true
    }

    open spec fn add_req(self, rhs: Self) -> bool {
        i16::MIN <= self.sixteenths + rhs.sixteenths <= i16::MAX
    }

    open spec fn add_spec(self, rhs: Self) -> Self {
        Temperature { sixteenths: (self.sixteenths + rhs.sixteenths) as i16 }
    }
}

impl core::ops::Sub for Temperature {
    type Output = Self;

    fn sub(self, rhs: Self) -> (difference: Self) {
        Temperature { sixteenths: self.sixteenths - rhs.sixteenths }
    }
}

impl vstd::std_specs::ops::SubSpecImpl for Temperature {
    open spec fn obeys_sub_spec() -> bool {
        true
    }

    open spec fn sub_req(self, rhs: Self) -> bool {
        i16::MIN <= self.sixteenths - rhs.sixteenths <= i16::MAX
    }

    open spec fn sub_spec(self, rhs: Self) -> Self {
        Temperature { sixteenths: (self.sixteenths - rhs.sixteenths) as i16 }
    }
}

} // verus!
