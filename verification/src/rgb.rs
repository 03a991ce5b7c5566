//! A status light of a red, a green and a blue lamp.

use vstd::prelude::*;

verus! {

/// The colours that three lamps can show.
#[derive(Clone, Copy, Debug, PartialEq, Eq, Structural)]
pub enum Colors {
    Black,
    Red,
    Green,
    Yellow,
    Blue,
    Purple,
    Cyan,
    White,
}

/// Whether a colour `0xBBGGRR` shows red, green and blue: whether the top
/// bit of each of its three bytes is set.
pub open spec fn lit(col: u32) -> (bool, bool, bool) {
    (col % 0x100 >= 0x80, (col / 0x100) % 0x100 >= 0x80, (col / 0x1_0000) % 0x100 >= 0x80)
}

impl Colors {
    /// The colour as `0xBBGGRR`.
    pub open spec fn code(self) -> u32 {
        match self {
            Colors::Black => 0x000000,
            Colors::Red => 0x0000FF,
            Colors::Green => 0x00FF00,
            Colors::Yellow => 0x00FFFF,
            Colors::Blue => 0xFF0000,
            Colors::Purple => 0xFF00FF,
            Colors::Cyan => 0xFFFF00,
            Colors::White => 0xFFFFFF,
        }
    }

    /// The colour as `0xBBGGRR`.
    pub fn raw(self) -> (col: u32)
        ensures
            col == self.code(),
    {
        match self {
            Colors::Black => 0x000000,
            Colors::Red => 0x0000FF,
            Colors::Green => 0x00FF00,
            Colors::Yellow => 0x00FFFF,
            Colors::Blue => 0xFF0000,
            Colors::Purple => 0xFF00FF,
            Colors::Cyan => 0xFFFF00,
            Colors::White => 0xFFFFFF,
        }
    }
}

/// Which of the lamps red, green and blue a colour `0xBBGGRR` lights.
pub fn channels(col: u32) -> (rgb: (bool, bool, bool))
    ensures
        rgb == lit(col),
{
    assert((col & 0x000080 != 0) == (col % 0x100 >= 0x80)) by (bit_vector);
    assert((col & 0x008000 != 0) == ((col / 0x100) % 0x100 >= 0x80)) by (bit_vector);
    assert((col & 0x800000 != 0) == ((col / 0x1_0000) % 0x100 >= 0x80)) by (bit_vector);
    ((col & 0x000080) != 0, (col & 0x008000) != 0, (col & 0x800000) != 0)
}

/// A light of three lamps.
pub trait Rgb {
    type Error;

    /// Switches the lamps red, green and blue on or off.
    fn set(&mut self, r: bool, g: bool, b: bool) -> Result<(), Self::Error>;

    /// Shows the colour `0xBBGGRR` as far as three lamps can: switches the
    /// lamps once with [`Rgb::set`], to what [`lit`] makes of the colour, and
    /// returns what the switching returned. The light is left as that one
    /// switching left it.
    fn raw_color(&mut self, col: u32) -> (shown: Result<(), Self::Error>)
        ensures
            exists|light: &mut Self|
                {
                    &&& #[trigger] call_ensures(
                        Self::set,
                        (light, lit(col).0, lit(col).1, lit(col).2),
                        shown,
                    )
                    &&& &*light == &*old(self)
                    &&& &*final(light) == &*final(self)
                },
    {
        let (r, g, b) = channels(col);
        self.set(r, g, b)
    }

    /// Shows the colour: switches the lamps once with [`Rgb::set`], to what
    /// [`lit`] makes of the code of the colour, and returns what the
    /// switching returned. The light is left as that one switching left it.
    fn color(&mut self, color: Colors) -> (shown: Result<(), Self::Error>)
        ensures
            exists|light: &mut Self|
                {
                    &&& #[trigger] call_ensures(
                        Self::set,
                        (light, lit(color.code()).0, lit(color.code()).1, lit(color.code()).2),
                        shown,
                    )
                    &&& &*light == &*old(self)
                    &&& &*final(light) == &*final(self)
                },
    {
        self.raw_color(color.raw())
    }
}

/// Every colour lights the lamps that its name says: red is in red, yellow,
/// purple and white, green in green, yellow, cyan and white, blue in blue,
/// purple, cyan and white.
pub proof fn lemma_colors_light_their_lamps(color: Colors)
    ensures
        lit(color.code()).0 <==> (color == Colors::Red || color == Colors::Yellow || color
            == Colors::Purple || color == Colors::White),
        lit(color.code()).1 <==> (color == Colors::Green || color == Colors::Yellow || color
            == Colors::Cyan || color == Colors::White),
        lit(color.code()).2 <==> (color == Colors::Blue || color == Colors::Purple || color
            == Colors::Cyan || color == Colors::White),
{
}

} // verus!
