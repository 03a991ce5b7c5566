//! The floor-heating unit: what it makes of the keys of the remote control,
//! of the time that has passed and of its four thermometers.

use crate::temperature::Temperature;
use crate::timing::{Duration, Seconds, SysTicks};
use core::marker::PhantomData;
use vstd::prelude::*;

verus! {

/// The readings of the four thermometers. `None` is a thermometer that has
/// nothing to say at present.
#[derive(Clone, Copy, Debug)]
pub struct Sensors {
    pub forward_temperature: Option<Temperature>,
    pub return_temperature: Option<Temperature>,
    pub air_temperature: Option<Temperature>,
    pub floor_temperature: Option<Temperature>,
}

/// The temperature of `degree` whole degrees.
pub open spec fn degrees(degree: int) -> Temperature {
    Temperature { sixteenths: (16 * degree) as i16 }
}

/// What a key does to the target: `Some(Some(d))` sets it to `d` whole
/// degrees, `Some(None)` asks for no heating, `None` leaves it as it is.
/// `code` is the frame without its last byte. The digits 0 to 4 stand for 20
/// to 24 degrees, the digits 5 to 9 for 15 to 19; red, green, yellow and blue
/// stand for 22, 20, 18 and 15 degrees, and the key in their middle for no
/// heating, on either of two remote controls.
pub open spec fn key_target(code: int) -> Option<Option<int>> {
    if code == 0x807F80 {
        Some(Some(20))
    } else if code == 0x807F72 {
        Some(Some(21))
    } else if code == 0x807FB0 {
        Some(Some(22))
    } else if code == 0x807F30 {
        Some(Some(23))
    } else if code == 0x807F52 {
        Some(Some(24))
    } else if code == 0x807F90 {
        Some(Some(15))
    } else if code == 0x807F10 {
        Some(Some(16))
    } else if code == 0x807F62 {
        Some(Some(17))
    } else if code == 0x807FA0 {
        Some(Some(18))
    } else if code == 0x807F20 {
        Some(Some(19))
    } else if code == 0x20F04E || code == 0x807FC2 {
        Some(Some(22))
    } else if code == 0x20F08E || code == 0x807FF0 {
        Some(Some(20))
    } else if code == 0x20F0C6 || code == 0x807F08 {
        Some(Some(18))
    } else if code == 0x20F086 || code == 0x807F18 {
        Some(Some(15))
    } else if code == 0x20F022 || code == 0x807FC8 {
        Some(None)
    } else {
        None
    }
}

/// The target after the frame `data` has come in from a remote control.
pub open spec fn target_after(data: u32, current: Option<Temperature>) -> Option<Temperature> {
    match key_target(data as int / 0x100) {
        Some(Some(degree)) => Some(degrees(degree)),
        Some(None) => None,
        None => current,
    }
}

impl Sensors {
    /// No reading from any thermometer.
    pub fn new() -> (sensors: Sensors)
        ensures
            sensors.forward_temperature is None,
            sensors.return_temperature is None,
            sensors.air_temperature is None,
            sensors.floor_temperature is None,
    {
        Sensors {
            forward_temperature: None,
            return_temperature: None,
            air_temperature: None,
            floor_temperature: None,
        }
    }

    /// Takes the reading of the thermometer found on the wire at place
    /// `index`: the forward pipe at 0, the return pipe at 1, the air at 2
    /// and the floor at 3.
    pub fn set(&mut self, index: usize, reading: Option<Temperature>)
        requires
            index < 4,
        ensures
            *final(self) == (match index {
                0 => Sensors { forward_temperature: reading, ..*old(self) },
                1 => Sensors { return_temperature: reading, ..*old(self) },
                2 => Sensors { air_temperature: reading, ..*old(self) },
                _ => Sensors { floor_temperature: reading, ..*old(self) },
            }),
    {
        match index {
            0 => self.forward_temperature = reading,
            1 => self.return_temperature = reading,
            2 => self.air_temperature = reading,
            _ => self.floor_temperature = reading,
        }
    }
}

/// The target air temperature after the frame `data` has come in from a
/// remote control: what its key stands for, or `current` where it stands for
/// nothing.
pub fn target_for_key(data: u32, current: Option<Temperature>) -> (target: Option<Temperature>)
    ensures
        target == target_after(data, current),
{
    assert(data >> 8 == data / 0x100) by (bit_vector);
    match data >> 8 {
        0x807F80 => Some(Temperature::from_celsius(20, 0)),
        0x807F72 => Some(Temperature::from_celsius(21, 0)),
        0x807FB0 => Some(Temperature::from_celsius(22, 0)),
        0x807F30 => Some(Temperature::from_celsius(23, 0)),
        0x807F52 => Some(Temperature::from_celsius(24, 0)),
        0x807F90 => Some(Temperature::from_celsius(15, 0)),
        0x807F10 => Some(Temperature::from_celsius(16, 0)),
        0x807F62 => Some(Temperature::from_celsius(17, 0)),
        0x807FA0 => Some(Temperature::from_celsius(18, 0)),
        0x807F20 => Some(Temperature::from_celsius(19, 0)),
        0x20F04E | 0x807FC2 => Some(Temperature::from_celsius(22, 0)),
        0x20F08E | 0x807FF0 => Some(Temperature::from_celsius(20, 0)),
        0x20F0C6 | 0x807F08 => Some(Temperature::from_celsius(18, 0)),
        0x20F086 | 0x807F18 => Some(Temperature::from_celsius(15, 0)),
        0x20F022 | 0x807FC8 => None,
        _ => current,
    }
}

/// The whole seconds in `elapsed` cycles of a clock of `frequency`, once
/// there is at least one, and the cycles that they stand for. The control
/// loop runs when this gives a span, and moves its mark of the last run on
/// by those cycles, so that the rest of a second is not lost.
pub fn whole_seconds(elapsed: Duration<SysTicks>, frequency: u32) -> (seconds: Option<
    (Duration<Seconds>, Duration<SysTicks>),
>)
    requires
        frequency > 0,
    ensures
        match seconds {
            Some((span, cycles)) => {
                &&& span.count == elapsed.count / frequency
                &&& span.count >= 1
                &&& cycles.count == span.count * frequency
                &&& elapsed.count - cycles.count == elapsed.count % frequency
            },
            None => elapsed.count < frequency,
        },
{
    if elapsed.count < frequency {
        None
    } else {
        let count: u32 = elapsed.count / frequency;
        assert(count >= 1 && count * frequency <= elapsed.count && elapsed.count - count * frequency
            == elapsed.count % frequency) by (nonlinear_arith)
            requires
                count == elapsed.count / frequency,
                elapsed.count >= frequency,
                frequency > 0,
        ;
        Some(
            (
                Duration { count, unit: PhantomData },
                Duration { count: count * frequency, unit: PhantomData },
            ),
        )
    }
}

} // verus!
