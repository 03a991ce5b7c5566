use room_pill::floor_unit::{target_for_key, whole_seconds, Sensors};
use room_pill::temperature::Temperature;
use room_pill::timing::{Duration, SysTicks};

fn c(degree: i16) -> Option<Temperature> {
    Some(Temperature::from_celsius(degree, 0))
}

#[test]
fn digits_set_the_target() {
    let keys = [
        (0x807F80u32, 20),
        (0x807F72, 21),
        (0x807FB0, 22),
        (0x807F30, 23),
        (0x807F52, 24),
        (0x807F90, 15),
        (0x807F10, 16),
        (0x807F62, 17),
        (0x807FA0, 18),
        (0x807F20, 19),
    ];
    for (code, degree) in keys {
        assert_eq!(target_for_key(code << 8, None), c(degree));
        assert_eq!(target_for_key((code << 8) | 0xFF, c(3)), c(degree));
    }
}

#[test]
fn colours_set_the_target_on_both_remotes() {
    for (codes, degree) in [
        ([0x20F04Eu32, 0x807FC2], 22),
        ([0x20F08E, 0x807FF0], 20),
        ([0x20F0C6, 0x807F08], 18),
        ([0x20F086, 0x807F18], 15),
    ] {
        for code in codes {
            assert_eq!(target_for_key(code << 8, c(30)), c(degree));
        }
    }
}

#[test]
fn middle_key_asks_for_no_heating() {
    assert_eq!(target_for_key(0x20F022DD, c(20)), None);
    assert_eq!(target_for_key(0x807FC837, c(20)), None);
}

#[test]
fn other_keys_leave_the_target() {
    assert_eq!(target_for_key(0x807F02FD, c(20)), c(20));
    assert_eq!(target_for_key(0x807F02FD, None), None);
    assert_eq!(target_for_key(0, c(7)), c(7));
    assert_eq!(target_for_key(u32::MAX, c(7)), c(7));
}

#[test]
fn seconds_are_counted_in_whole() {
    let ticks = |count: u32| Duration::<SysTicks>::from(count);
    assert_eq!(whole_seconds(ticks(0), 8_000_000), None);
    assert_eq!(whole_seconds(ticks(7_999_999), 8_000_000), None);
    let (span, cycles) = whole_seconds(ticks(8_000_000), 8_000_000).unwrap();
    assert_eq!((span.count, cycles.count), (1, 8_000_000));
    let (span, cycles) = whole_seconds(ticks(20_000_001), 8_000_000).unwrap();
    assert_eq!((span.count, cycles.count), (2, 16_000_000));
    let (span, cycles) = whole_seconds(ticks(u32::MAX), 1).unwrap();
    assert_eq!((span.count, cycles.count), (u32::MAX, u32::MAX));
    let (span, cycles) = whole_seconds(ticks(u32::MAX), u32::MAX).unwrap();
    assert_eq!((span.count, cycles.count), (1, u32::MAX));
}

#[test]
fn readings_go_to_their_places() {
    let mut sensors = Sensors::new();
    assert_eq!(sensors.forward_temperature, None);
    assert_eq!(sensors.return_temperature, None);
    assert_eq!(sensors.air_temperature, None);
    assert_eq!(sensors.floor_temperature, None);
    sensors.set(0, c(40));
    sensors.set(1, c(30));
    sensors.set(2, c(20));
    sensors.set(3, c(25));
    assert_eq!(sensors.forward_temperature, c(40));
    assert_eq!(sensors.return_temperature, c(30));
    assert_eq!(sensors.air_temperature, c(20));
    assert_eq!(sensors.floor_temperature, c(25));
    sensors.set(2, None);
    assert_eq!(sensors.air_temperature, None);
    assert_eq!(sensors.floor_temperature, c(25));
}
