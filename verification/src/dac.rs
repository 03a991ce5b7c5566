//! The serial frames of the PT8211, a stereo converter of 16 bits with a
//! clock line, a data line and a word-select line.
//!
//! A word is sent most significant bit first; the converter takes each bit
//! in at the rising edge of the clock. The level of the word-select line
//! tells the left word from the right one. The functions here give the
//! levels to put on the lines, in order; putting them there is left to the
//! caller.

use vstd::prelude::*;

verus! {

/// A line of the converter.
#[derive(Clone, Copy, Debug, PartialEq, Eq, Structural)]
pub enum Line {
    Clock,
    Data,
    WordSelect,
}

/// A line and the level to put on it.
#[derive(Clone, Copy, Debug, PartialEq, Eq, Structural)]
pub struct Level {
    pub line: Line,
    pub high: bool,
}

/// Bit `k` of `word`, counted from the most significant, which is bit 0.
pub open spec fn bit(word: u16, k: int) -> bool {
    (word >> ((15 - k) as u16)) & 1 == 1
}

/// One pulse of the clock.
pub open spec fn clock_pulse() -> Seq<Level> {
    seq![Level { line: Line::Clock, high: true }, Level { line: Line::Clock, high: false }]
}

/// The levels that send the first `n` bits of `word`: for each bit its level
/// on the data line, then a pulse of the clock.
pub open spec fn word_levels(word: u16, n: nat) -> Seq<Level>
    decreases n,
{
    if n == 0 {
        Seq::empty()
    } else {
        word_levels(word, (n - 1) as nat).push(Level { line: Line::Data, high: bit(word, n - 1) })
            + clock_pulse()
    }
}

/// The level `high` on the word-select line.
pub open spec fn select(high: bool) -> Seq<Level> {
    seq![Level { line: Line::WordSelect, high }]
}

/// The levels of a frame for both channels: the left word with word select
/// high, the right word with word select low, and word select high again.
pub open spec fn stereo_levels(intensity_left: u16, intensity_right: u16) -> Seq<Level> {
    select(true) + word_levels(intensity_left, 16) + select(false) + word_levels(
        intensity_right,
        16,
    ) + select(true)
}

/// The levels of a frame for the left channel alone: the word with word
/// select high, word select low, and one more pulse of the clock.
pub open spec fn left_levels(intensity: u16) -> Seq<Level> {
    select(true) + word_levels(intensity, 16) + select(false) + clock_pulse()
}

/// The levels of a frame for the right channel alone: the word with word
/// select low, word select high, and one more pulse of the clock.
pub open spec fn right_levels(intensity: u16) -> Seq<Level> {
    select(false) + word_levels(intensity, 16) + select(true) + clock_pulse()
}

/// Adds a pulse of the clock.
fn push_clock_pulse(levels: &mut Vec<Level>)
    ensures
        final(levels)@ == old(levels)@ + clock_pulse(),
{
    levels.push(Level { line: Line::Clock, high: true });
    levels.push(Level { line: Line::Clock, high: false });
    assert(levels@ =~= old(levels)@ + clock_pulse());
}

/// Adds the levels that send `intensity`.
fn push_word(levels: &mut Vec<Level>, intensity: u16)
    ensures
        final(levels)@ == old(levels)@ + word_levels(intensity, 16),
{
    let mut k: u16 = 0;
    assert(levels@ =~= old(levels)@ + word_levels(intensity, 0));
    while k < 16
        invariant
            k <= 16,
            levels@ == old(levels)@ + word_levels(intensity, k as nat),
        decreases 16 - k,
    {
        let high = (intensity >> (15 - k)) & 1 == 1;
        levels.push(Level { line: Line::Data, high });
        push_clock_pulse(levels);
        assert(levels@ =~= old(levels)@ + word_levels(intensity, (k + 1) as nat));
        k = k + 1;
    }
}

/// The levels that send `intensity`, most significant bit first.
pub fn word(intensity: u16) -> (levels: Vec<Level>)
    ensures
        levels@ == word_levels(intensity, 16),
{
    let mut levels: Vec<Level> = Vec::new();
    push_word(&mut levels, intensity);
    assert(levels@ =~= word_levels(intensity, 16));
    levels
}

/// The levels of a frame that sets both channels.
pub fn stereo(intensity_left: u16, intensity_right: u16) -> (levels: Vec<Level>)
    ensures
        levels@ == stereo_levels(intensity_left, intensity_right),
{
    let mut levels: Vec<Level> = Vec::new();
    levels.push(Level { line: Line::WordSelect, high: true });
    push_word(&mut levels, intensity_left);
    levels.push(Level { line: Line::WordSelect, high: false });
    push_word(&mut levels, intensity_right);
    levels.push(Level { line: Line::WordSelect, high: true });
    assert(levels@ =~= stereo_levels(intensity_left, intensity_right));
    levels
}

/// The levels of a frame that sets the left channel.
pub fn left_mono(intensity: u16) -> (levels: Vec<Level>)
    ensures
        levels@ == left_levels(intensity),
{
    let mut levels: Vec<Level> = Vec::new();
    levels.push(Level { line: Line::WordSelect, high: true });
    push_word(&mut levels, intensity);
    levels.push(Level { line: Line::WordSelect, high: false });
    push_clock_pulse(&mut levels);
    assert(levels@ =~= left_levels(intensity));
    levels
}

/// The levels of a frame that sets the right channel.
pub fn right_mono(intensity: u16) -> (levels: Vec<Level>)
    ensures
        levels@ == right_levels(intensity),
{
    let mut levels: Vec<Level> = Vec::new();
    levels.push(Level { line: Line::WordSelect, high: false });
    push_word(&mut levels, intensity);
    levels.push(Level { line: Line::WordSelect, high: true });
    push_clock_pulse(&mut levels);
    assert(levels@ =~= right_levels(intensity));
    levels
}

/// Sending a word takes three levels for each of its 16 bits, and the level
/// on the data line at the pulse of the clock for bit `k` is bit `k`.
pub proof fn lemma_word_is_sent_bit_by_bit(word: u16, n: nat, k: int)
    requires
        0 <= k < n,
    ensures
        word_levels(word, n).len() == 3 * n,
        word_levels(word, n)[3 * k] == (Level { line: Line::Data, high: bit(word, k) }),
        word_levels(word, n)[3 * k + 1] == (Level { line: Line::Clock, high: true }),
        word_levels(word, n)[3 * k + 2] == (Level { line: Line::Clock, high: false }),
    decreases n,
{
    lemma_word_length(word, (n - 1) as nat);
    if k < n - 1 {
        lemma_word_is_sent_bit_by_bit(word, (n - 1) as nat, k);
    }
}

/// Sending `n` bits takes three levels for each.
proof fn lemma_word_length(word: u16, n: nat)
    ensures
        word_levels(word, n).len() == 3 * n,
    decreases n,
{
    if n > 0 {
        lemma_word_length(word, (n - 1) as nat);
    }
}

} // verus!
