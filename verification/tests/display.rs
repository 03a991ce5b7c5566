use room_pill::display::{fmt_duration, fmt_nn, fmt_nnn, fmt_temp, fmt_weekday};
use room_pill::temperature::Temperature;
use room_pill::timing::{Duration, Seconds};

#[test]
fn weekdays_have_their_names() {
    let names = ["Hetfo", "Kedd", "Szerda", "Csutortok", "Pentek", "Szombat", "Vasarnap"];
    for (n, name) in names.iter().enumerate() {
        assert_eq!(fmt_weekday(n as u8), *name);
    }
}

#[test]
fn two_digits() {
    assert_eq!(&fmt_nn(0), b"00");
    assert_eq!(&fmt_nn(7), b"07");
    assert_eq!(&fmt_nn(42), b"42");
    assert_eq!(&fmt_nn(99), b"99");
    // beyond two digits the tens are no digit any more
    assert_eq!(&fmt_nn(100), b":0");
    assert_eq!(fmt_nn(255), [48 + 25, b'5']);
}

#[test]
fn three_digits() {
    assert_eq!(&fmt_nnn(0), b"000");
    assert_eq!(&fmt_nnn(7), b"007");
    assert_eq!(&fmt_nnn(365), b"365");
    assert_eq!(&fmt_nnn(999), b"999");
    assert_eq!(fmt_nnn(20_799), [255, b'9', b'9']);
    assert_eq!(&fmt_nnn(25_612), b"012");
}

#[test]
fn minutes_and_seconds() {
    let text = |count: u32| fmt_duration(&Duration::<Seconds>::from(count));
    assert_eq!(&text(0), b"00:00");
    assert_eq!(&text(59), b"00:59");
    assert_eq!(&text(60), b"01:00");
    assert_eq!(&text(3_599), b"59:59");
    assert_eq!(&text(3_725), b"02:05");
    assert_eq!(&text(u32::MAX), b"28:15");
}

#[test]
fn temperatures() {
    let text = |sixteenths: i16| fmt_temp(Temperature { sixteenths });
    assert_eq!(&text(0), b" 00.00");
    assert_eq!(&text(344), b" 21.50");
    assert_eq!(&text(-89), b"-05.56");
    assert_eq!(&text(-1), b"-00.06");
    assert_eq!(&text(1_599), b" 99.94");
    assert_eq!(&fmt_temp(Temperature::from_celsius(-4, 0)), b"-04.00");
    // beyond two digits the tens are no digit any more
    assert_eq!(&text(1_600), b" :0.00");
    assert_eq!(&text(i16::MIN), b"-00.00");
    assert_eq!(text(i16::MAX), [b' ', 48 + 25, b'5', b'.', b'9', b'4']);
}

#[test]
fn sixteenths_are_rounded_to_hundredths() {
    let tens = b"0011233455667889";
    let ones = b"0639518406395184";
    for fraction in 0..16 {
        let text = fmt_temp(Temperature::from_celsius(20, fraction));
        assert_eq!(text[4], tens[fraction as usize]);
        assert_eq!(text[5], ones[fraction as usize]);
    }
}
