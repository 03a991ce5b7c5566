//! What the units say to each other on the CAN bus: the identifiers of the
//! messages and the timing of the bits.

use vstd::prelude::*;

verus! {

/// Movement seen.
pub const ID_MOVEMENT: u16 = 0x700;

/// Door or window opened.
pub const ID_OPEN: u16 = 0x600;

/// Key of the remote control pressed.
pub const ID_IR: u16 = 0x500;

/// Wall switch changed.
pub const ID_SWITCH: u16 = 0x400;

/// Temperature measured.
pub const ID_TEMPERATURE: u16 = 0x300;

/// Brightness measured.
pub const ID_LUX: u16 = 0x200;

/// Ring the bell.
pub const ID_RING: u16 = 0x100;

/// Set the temperature to hold.
pub const ID_TARGET_TEMP: u16 = 0x080;

/// Drive the roller shutter.
pub const ID_ROLL: u16 = 0x070;

/// Switch the light.
pub const ID_LIGHT: u16 = 0x060;

/// Play a sound.
pub const ID_SOUND: u16 = 0x050;

/// Set the status light.
pub const ID_RGB: u16 = 0x040;

/// Set the signal lamp.
pub const ID_LED: u16 = 0x030;

/// The date.
pub const ID_DATE: u16 = 0x020;

/// The time of day.
pub const ID_TIME: u16 = 0x010;

/// Width of the synchronisation jump, in time quanta.
pub const SYNCHRONISATION_JUMP_WIDTH: u8 = 1;

/// Length of the first bit segment, in time quanta.
pub const BIT_SEGMENT_1: u8 = 5;

/// Length of the second bit segment, in time quanta.
pub const BIT_SEGMENT_2: u8 = 5;

/// Length of a time quantum, in cycles of the bus clock.
pub const TIME_QUANTUM_LENGTH: u16 = 72;

/// The bit timing register of the CAN controller for a synchronisation jump
/// of `jump_width` quanta, bit segments of `segment_1` and `segment_2` quanta
/// and a quantum of `quantum_length` cycles. Each field holds one less than
/// what it stands for: the quantum in bits 0 to 9, the first segment in bits
/// 16 to 19, the second in bits 20 to 22, the jump in bits 24 and 25.
pub fn bit_timing(jump_width: u8, segment_1: u8, segment_2: u8, quantum_length: u16) -> (btr: u32)
    requires
        1 <= jump_width <= 4,
        1 <= segment_1 <= 16,
        1 <= segment_2 <= 8,
        1 <= quantum_length <= 1024,
    ensures
        btr == (jump_width - 1) * 0x100_0000 + (segment_2 - 1) * 0x10_0000 + (segment_1 - 1)
            * 0x1_0000 + (quantum_length - 1),
{
    (jump_width - 1) as u32 * 0x100_0000 + (segment_2 - 1) as u32 * 0x10_0000 + (segment_1
        - 1) as u32 * 0x1_0000 + (quantum_length - 1) as u32
}

} // verus!
