use room_pill::timing::{
    Duration, MicroSeconds, MilliSeconds, NanoSeconds, Seconds, SysTicks, Time, TimeExt, WeekTime,
};

#[test]
fn durations_add_and_subtract() {
    let a = Duration::<Seconds>::from(40);
    let b = Duration::<Seconds>::from(2);
    assert_eq!((a + b).count, 42);
    assert_eq!((a - b).count, 38);
    assert_eq!(Duration::<SysTicks>::default().count, 0);
}

#[test]
fn durations_compare_by_count() {
    let a = Duration::<MilliSeconds>::from(1);
    let b = Duration::<MilliSeconds>::from(2);
    assert!(a < b);
    assert!(b > a);
    assert!(a <= a);
    assert!(a == a.clone());
    assert!(a != b);
    assert_eq!(a.partial_cmp(&b), Some(core::cmp::Ordering::Less));
    assert_eq!(b.partial_cmp(&a), Some(core::cmp::Ordering::Greater));
    assert_eq!(b.partial_cmp(&b), Some(core::cmp::Ordering::Equal));
}

#[test]
fn counts_are_wrapped_in_units() {
    let s: Duration<Seconds> = 5u32.s();
    let ms: Duration<MilliSeconds> = 6u32.ms();
    let us: Duration<MicroSeconds> = 7u32.us();
    let ns: Duration<NanoSeconds> = 8u32.ns();
    assert_eq!((s.count, ms.count, us.count, ns.count), (5, 6, 7, 8));
}

#[test]
fn differences_of_instants_wrap() {
    let early = Time::<SysTicks>::from(u32::MAX - 4);
    let late = Time::<SysTicks>::from(5);
    assert_eq!((late - early).count, 10);
    assert_eq!((early - late).count, u32::MAX - 9);
    assert_eq!((late - late).count, 0);
    assert_eq!(early.elapsed_till(&late).count, 10);
    assert_eq!(late.elapsed_since(&early).count, 10);
    assert_eq!(late.elapsed_till(&early).count, u32::MAX - 9);
    assert_eq!(Time::<SysTicks>::from(100).elapsed_since(&Time::from(30)).count, 70);
}

#[test]
fn instants_move_by_durations() {
    let t = Time::<MicroSeconds>::from(u32::MAX - 4);
    assert_eq!((t + Duration::from(10)).instant, 5);
    assert_eq!((t + Duration::from(4)).instant, u32::MAX);
    assert_eq!((Time::<MicroSeconds>::from(5) - Duration::from(10)).instant, u32::MAX - 4);
    assert_eq!((Time::<MicroSeconds>::from(50) - Duration::from(10)).instant, 40);
    let mut t = Time::<MicroSeconds>::from(7);
    t.shift(3);
    assert_eq!(t.instant, 10);
    t.shift(u32::MAX);
    assert_eq!(t.instant, 9);
}

#[test]
fn instants_compare_by_count() {
    let a = Time::<Seconds>::from(1);
    let b = Time::<Seconds>::from(2);
    assert!(a < b);
    assert!(a == a);
    assert!(a != b);
    assert_eq!(a.partial_cmp(&b), Some(core::cmp::Ordering::Less));
}

#[test]
fn hours_minutes_seconds() {
    assert_eq!(Duration::from_hms(1, 1, 1).count, 3_661);
    assert_eq!(Duration::from_hms(4, 0, 0).count, 14_400);
    assert_eq!(Duration::from_hms(0, 4, 0).count, 240);
    assert_eq!(Duration::from_hms(0, 90, 90).count, 5_490);
    assert_eq!(Duration::<Seconds>::from(3_661).to_hms(), (1, 1, 1));
    assert_eq!(Duration::<Seconds>::from(5_490).to_hms(), (1, 31, 30));
    assert_eq!(Duration::<Seconds>::from(0).to_hms(), (0, 0, 0));
    assert_eq!(Duration::<Seconds>::from(u32::MAX).to_hms(), (1_193_046, 28, 15));
    assert_eq!(Time::from_dhms(1, 2, 3, 4).instant, 93_784);
    assert_eq!(Time::from_dhms(0, 0, 0, 0).instant, 0);
}

#[test]
fn time_of_the_week() {
    let w = WeekTime::from(Time::from_dhms(1, 2, 3, 4));
    assert_eq!(w, WeekTime { sec: 4, min: 3, hour: 2, weekday: 1 });
    assert_eq!(Time::<Seconds>::from(w).instant, 93_784);
    // the week starts over after seven days
    let w = WeekTime::from(Time::from_dhms(8, 23, 59, 59));
    assert_eq!(w, WeekTime { sec: 59, min: 59, hour: 23, weekday: 1 });
    let w = WeekTime::from(Time::<Seconds>::from(u32::MAX));
    assert_eq!(w, WeekTime { sec: 15, min: 28, hour: 6, weekday: 3 });
    assert_eq!(WeekTime::default(), WeekTime { sec: 0, min: 0, hour: 0, weekday: 0 });
    assert_eq!(
        Time::<Seconds>::from(WeekTime { sec: 255, min: 255, hour: 255, weekday: 255 }).instant,
        255 * 86_400 + 255 * 3_600 + 255 * 60 + 255
    );
}

#[test]
fn week_time_round_trip() {
    for t in (0..604_800u32).step_by(997) {
        let w = WeekTime::from(Time::<Seconds>::from(t));
        assert!(w.weekday < 7 && w.hour < 24 && w.min < 60 && w.sec < 60);
        assert_eq!(Time::<Seconds>::from(w).instant, t);
    }
}
