use room_pill::ir_remote::{translate, IrCommands};

#[test]
fn every_key_is_known() {
    let keys = [
        (0x02, IrCommands::Power),
        (0xAA, IrCommands::Power_),
        (0x9A, IrCommands::Set_),
        (0x1A, IrCommands::TVIn_),
        (0xEA, IrCommands::VolDown_),
        (0x6A, IrCommands::VolUp_),
        (0xC2, IrCommands::Red),
        (0xF0, IrCommands::Green),
        (0x08, IrCommands::Yellow),
        (0x18, IrCommands::Blue),
        (0x88, IrCommands::Home),
        (0x98, IrCommands::Back),
        (0x32, IrCommands::Menu),
        (0x00, IrCommands::Click),
        (0xC8, IrCommands::Okay),
        (0x68, IrCommands::Up),
        (0x58, IrCommands::Down),
        (0x8A, IrCommands::Left),
        (0x0A, IrCommands::Right),
        (0x72, IrCommands::N1),
        (0xB0, IrCommands::N2),
        (0x30, IrCommands::N3),
        (0x52, IrCommands::N4),
        (0x90, IrCommands::N5),
        (0x10, IrCommands::N6),
        (0x62, IrCommands::N7),
        (0xA0, IrCommands::N8),
        (0x20, IrCommands::N9),
        (0x82, IrCommands::Mute),
        (0x80, IrCommands::N0),
        (0x42, IrCommands::Backspace),
    ];
    for (data, key) in keys {
        let frame = 0x807F_0000u32 | (data << 8) | (!data & 0xFF);
        assert_eq!(translate(frame), key, "data byte {:#x}", data);
    }
}

#[test]
fn all_other_frames_are_unknown() {
    let mut known = 0;
    for data in 0..=255u32 {
        if translate(0x807F_0000 | (data << 8)) != IrCommands::Unknown {
            known += 1;
        }
        assert_eq!(translate(0x807E_0000 | (data << 8)), IrCommands::Unknown);
        assert_eq!(translate(0x20F0_0000 | (data << 8)), IrCommands::Unknown);
    }
    assert_eq!(known, 31);
    assert_eq!(translate(0), IrCommands::Unknown);
    assert_eq!(translate(u32::MAX), IrCommands::Unknown);
}

#[test]
fn last_byte_is_not_looked_at() {
    for low in 0..=255u32 {
        assert_eq!(translate(0x807F_C200 | low), IrCommands::Red);
    }
}
