use room_pill::pump::{Pump, StatefulPump};
use room_pill::rgb::{channels, Colors, Rgb};
use room_pill::valve::{StatefulValve, Valve};

#[derive(Default)]
struct Lamps {
    shown: Vec<(bool, bool, bool)>,
    broken: bool,
}

impl Rgb for Lamps {
    type Error = u8;

    fn set(&mut self, r: bool, g: bool, b: bool) -> Result<(), u8> {
        if self.broken {
            return Err(7);
        }
        self.shown.push((r, g, b));
        Ok(())
    }
}

struct Relay {
    on: Result<bool, u8>,
}

impl Pump for Relay {
    type Error = u8;

    fn start(&mut self) -> Result<(), u8> {
        self.on = Ok(true);
        Ok(())
    }

    fn stop(&mut self) -> Result<(), u8> {
        self.on = Ok(false);
        Ok(())
    }
}

impl StatefulPump for Relay {
    fn started(&self) -> Result<bool, u8> {
        self.on
    }
}

impl Valve for Relay {
    type Error = u8;

    fn open(&mut self) -> Result<(), u8> {
        self.on = Ok(true);
        Ok(())
    }

    fn close(&mut self) -> Result<(), u8> {
        self.on = Ok(false);
        Ok(())
    }
}

impl StatefulValve for Relay {
    fn opened(&self) -> Result<bool, u8> {
        self.on
    }
}

#[test]
fn colours_have_their_codes() {
    assert_eq!(Colors::Black.raw(), 0x000000);
    assert_eq!(Colors::Red.raw(), 0x0000FF);
    assert_eq!(Colors::Green.raw(), 0x00FF00);
    assert_eq!(Colors::Yellow.raw(), 0x00FFFF);
    assert_eq!(Colors::Blue.raw(), 0xFF0000);
    assert_eq!(Colors::Purple.raw(), 0xFF00FF);
    assert_eq!(Colors::Cyan.raw(), 0xFFFF00);
    assert_eq!(Colors::White.raw(), 0xFFFFFF);
}

#[test]
fn top_bit_of_each_byte_lights_a_lamp() {
    assert_eq!(channels(0x000000), (false, false, false));
    assert_eq!(channels(0x7F7F7F), (false, false, false));
    assert_eq!(channels(0x808080), (true, true, true));
    assert_eq!(channels(0x000080), (true, false, false));
    assert_eq!(channels(0x008000), (false, true, false));
    assert_eq!(channels(0x800000), (false, false, true));
    assert_eq!(channels(0xFF00_0000), (false, false, false));
    assert_eq!(channels(0x00FF_00FF), (true, false, true));
}

#[test]
fn light_shows_colours_through_set() {
    let mut lamps = Lamps::default();
    assert_eq!(lamps.color(Colors::Purple), Ok(()));
    assert_eq!(lamps.color(Colors::Green), Ok(()));
    assert_eq!(lamps.color(Colors::Black), Ok(()));
    assert_eq!(lamps.raw_color(0x80_90_10), Ok(()));
    assert_eq!(
        lamps.shown,
        vec![(true, false, true), (false, true, false), (false, false, false), (false, true, true)]
    );
    lamps.broken = true;
    assert_eq!(lamps.color(Colors::White), Err(7));
}

#[test]
fn stopped_is_the_opposite_of_started() {
    let mut pump = Relay { on: Ok(false) };
    assert_eq!(pump.stopped(), Ok(true));
    pump.start().unwrap();
    assert_eq!(pump.stopped(), Ok(false));
    pump.stop().unwrap();
    assert_eq!(pump.stopped(), Ok(true));
    assert_eq!(Relay { on: Err(3) }.stopped(), Err(3));
}

#[test]
fn closed_is_the_opposite_of_opened() {
    let mut valve = Relay { on: Ok(false) };
    assert_eq!(valve.closed(), Ok(true));
    valve.open().unwrap();
    assert_eq!(valve.closed(), Ok(false));
    valve.close().unwrap();
    assert_eq!(valve.closed(), Ok(true));
    assert_eq!(Relay { on: Err(3) }.closed(), Err(3));
}
