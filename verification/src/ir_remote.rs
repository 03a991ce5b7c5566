//! The keys of the remote control that the units are operated with.

use vstd::prelude::*;

verus! {

/// A key of the remote control.
#[derive(Clone, Copy, Debug, PartialEq, Eq, Structural)]
pub enum IrCommands {
    N0,
    N1,
    N2,
    N3,
    N4,
    N5,
    N6,
    N7,
    N8,
    N9,
    Okay,
    Up,
    Down,
    Left,
    Right,
    Home,
    Back,
    Menu,
    Click,
    Mute,
    Backspace,
    Power,
    Red,
    Green,
    Yellow,
    Blue,
    Power_,
    Set_,
    TVIn_,
    VolDown_,
    VolUp_,
    /// Not a key of this remote control.
    Unknown,
}

/// The address that the remote control sends in the upper 16 bits of each
/// frame.
pub const REMOTE_ADDRESS: u32 = 0x807F;

/// The key with the given data byte.
pub open spec fn key(data: int) -> IrCommands {
    if data == 0x02 {
        IrCommands::Power
    } else if data == 0xAA {
        IrCommands::Power_
    } else if data == 0x9A {
        IrCommands::Set_
    } else if data == 0x1A {
        IrCommands::TVIn_
    } else if data == 0xEA {
        IrCommands::VolDown_
    } else if data == 0x6A {
        IrCommands::VolUp_
    } else if data == 0xC2 {
        IrCommands::Red
    } else if data == 0xF0 {
        IrCommands::Green
    } else if data == 0x08 {
        IrCommands::Yellow
    } else if data == 0x18 {
        IrCommands::Blue
    } else if data == 0x88 {
        IrCommands::Home
    } else if data == 0x98 {
        IrCommands::Back
    } else if data == 0x32 {
        IrCommands::Menu
    } else if data == 0x00 {
        IrCommands::Click
    } else if data == 0xC8 {
        IrCommands::Okay
    } else if data == 0x68 {
        IrCommands::Up
    } else if data == 0x58 {
        IrCommands::Down
    } else if data == 0x8A {
        IrCommands::Left
    } else if data == 0x0A {
        IrCommands::Right
    } else if data == 0x72 {
        IrCommands::N1
    } else if data == 0xB0 {
        IrCommands::N2
    } else if data == 0x30 {
        IrCommands::N3
    } else if data == 0x52 {
        IrCommands::N4
    } else if data == 0x90 {
        IrCommands::N5
    } else if data == 0x10 {
        IrCommands::N6
    } else if data == 0x62 {
        IrCommands::N7
    } else if data == 0xA0 {
        IrCommands::N8
    } else if data == 0x20 {
        IrCommands::N9
    } else if data == 0x82 {
        IrCommands::Mute
    } else if data == 0x80 {
        IrCommands::N0
    } else if data == 0x42 {
        IrCommands::Backspace
    } else {
        IrCommands::Unknown
    }
}

/// The key that a received frame `0xAAAADDNN` stands for: the key with the
/// data byte `DD` where the address `AAAA` is that of the remote control,
/// [`IrCommands::Unknown`] otherwise. The last byte `NN` is not looked at.
pub open spec fn command(frame: u32) -> IrCommands {
    if frame / 0x1_0000 == REMOTE_ADDRESS {
        key(((frame / 0x100) % 0x100) as int)
    } else {
        IrCommands::Unknown
    }
}

/// Names the key that a received data frame stands for.
pub fn translate(data: u32) -> (pressed: IrCommands)
    ensures
        pressed == command(data),
{
    assert(data >> 8 == data / 0x100) by (bit_vector);
    match data >> 8 {
        0x807F02 => IrCommands::Power,
        0x807FAA => IrCommands::Power_,
        0x807F9A => IrCommands::Set_,
        0x807F1A => IrCommands::TVIn_,
        0x807FEA => IrCommands::VolDown_,
        0x807F6A => IrCommands::VolUp_,
        0x807FC2 => IrCommands::Red,
        0x807FF0 => IrCommands::Green,
        0x807F08 => IrCommands::Yellow,
        0x807F18 => IrCommands::Blue,
        0x807F88 => IrCommands::Home,
        0x807F98 => IrCommands::Back,
        0x807F32 => IrCommands::Menu,
        0x807F00 => IrCommands::Click,
        0x807FC8 => IrCommands::Okay,
        0x807F68 => IrCommands::Up,
        0x807F58 => IrCommands::Down,
        0x807F8A => IrCommands::Left,
        0x807F0A => IrCommands::Right,
        0x807F72 => IrCommands::N1,
        0x807FB0 => IrCommands::N2,
        0x807F30 => IrCommands::N3,
        0x807F52 => IrCommands::N4,
        0x807F90 => IrCommands::N5,
        0x807F10 => IrCommands::N6,
        0x807F62 => IrCommands::N7,
        0x807FA0 => IrCommands::N8,
        0x807F20 => IrCommands::N9,
        0x807F82 => IrCommands::Mute,
        0x807F80 => IrCommands::N0,
        0x807F42 => IrCommands::Backspace,
        _ => IrCommands::Unknown,
    }
}

/// No two data bytes stand for the same key of the remote control.
pub proof fn lemma_keys_are_distinct(a: int, b: int)
    requires
        key(a) == key(b),
        key(a) != IrCommands::Unknown,
    ensures
        a == b,
{
}

} // verus!
