use room_pill::dac::{left_mono, right_mono, stereo, word, Level, Line};

fn clock(high: bool) -> Level {
    Level { line: Line::Clock, high }
}

fn data(high: bool) -> Level {
    Level { line: Line::Data, high }
}

fn select(high: bool) -> Level {
    Level { line: Line::WordSelect, high }
}

fn bits(levels: &[Level]) -> u16 {
    // what the converter takes in: the data line at each rising clock edge
    let mut line = false;
    let mut word = 0u16;
    for level in levels {
        match level.line {
            Line::Data => line = level.high,
            Line::Clock if level.high => word = (word << 1) | line as u16,
            _ => {}
        }
    }
    word
}

#[test]
fn word_is_sent_most_significant_bit_first() {
    let levels = word(0x8001);
    assert_eq!(levels.len(), 48);
    assert_eq!(&levels[0..3], &[data(true), clock(true), clock(false)]);
    for k in 1..15 {
        assert_eq!(&levels[3 * k..3 * k + 3], &[data(false), clock(true), clock(false)]);
    }
    assert_eq!(&levels[45..48], &[data(true), clock(true), clock(false)]);
}

#[test]
fn every_word_arrives() {
    for w in [0u16, 1, 2, 0x00FF, 0x1234, 0x8000, 0xA5A5, 0xFFFE, 0xFFFF] {
        assert_eq!(bits(&word(w)), w);
    }
}

#[test]
fn stereo_frame() {
    let levels = stereo(0x1234, 0xFEDC);
    assert_eq!(levels.len(), 99);
    assert_eq!(levels[0], select(true));
    assert_eq!(&levels[1..49], &word(0x1234)[..]);
    assert_eq!(levels[49], select(false));
    assert_eq!(&levels[50..98], &word(0xFEDC)[..]);
    assert_eq!(levels[98], select(true));
}

#[test]
fn mono_frames() {
    let levels = left_mono(0x00FF);
    assert_eq!(levels.len(), 52);
    assert_eq!(levels[0], select(true));
    assert_eq!(&levels[1..49], &word(0x00FF)[..]);
    assert_eq!(&levels[49..52], &[select(false), clock(true), clock(false)]);
    let levels = right_mono(0xFF00);
    assert_eq!(levels.len(), 52);
    assert_eq!(levels[0], select(false));
    assert_eq!(&levels[1..49], &word(0xFF00)[..]);
    assert_eq!(&levels[49..52], &[select(true), clock(true), clock(false)]);
}
