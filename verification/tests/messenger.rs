use room_pill::messenger::{
    bit_timing, BIT_SEGMENT_1, BIT_SEGMENT_2, ID_DATE, ID_IR, ID_LED, ID_LIGHT, ID_LUX,
    ID_MOVEMENT, ID_OPEN, ID_RGB, ID_RING, ID_ROLL, ID_SOUND, ID_SWITCH, ID_TARGET_TEMP,
    ID_TEMPERATURE, ID_TIME, SYNCHRONISATION_JUMP_WIDTH, TIME_QUANTUM_LENGTH,
};

#[test]
fn identifiers_are_standard_and_distinct() {
    let ids = [
        ID_MOVEMENT, ID_OPEN, ID_IR, ID_SWITCH, ID_TEMPERATURE, ID_LUX, ID_RING, ID_TARGET_TEMP,
        ID_ROLL, ID_LIGHT, ID_SOUND, ID_RGB, ID_LED, ID_DATE, ID_TIME,
    ];
    for (i, a) in ids.iter().enumerate() {
        assert!(*a <= 0x7FF);
        for b in &ids[i + 1..] {
            assert!(a > b);
        }
    }
    assert_eq!(ID_MOVEMENT, 0x700);
    assert_eq!(ID_TIME, 0x010);
}

#[test]
fn bit_timing_register() {
    assert_eq!(
        bit_timing(SYNCHRONISATION_JUMP_WIDTH, BIT_SEGMENT_1, BIT_SEGMENT_2, TIME_QUANTUM_LENGTH),
        0x0044_0047
    );
    assert_eq!(bit_timing(1, 1, 1, 1), 0);
    assert_eq!(bit_timing(4, 16, 8, 1024), 0x037F_03FF);
    assert_eq!(bit_timing(1, 13, 2, 4), 0x001C_0003);
}
