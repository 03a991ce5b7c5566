//! Receiver for the NEC infrared remote-control protocol.
//!
//! A transmission is a leading burst of 9 ms and a space of 4.5 ms, then 32
//! bits, most significant first, then a closing burst. Each bit is a burst of
//! 562.5 µs and a space; burst and space together last 1.125 ms for a zero and
//! 2.25 ms for a one. A leading burst with a space of 2.25 ms and nothing
//! after it says that the button is still held.
//!
//! The receiver is fed the level of the line and the time of the reading. It
//! never waits: most readings return [`nb::Error::WouldBlock`], and the
//! reading that completes a transmission returns what was received. It can be
//! fed at every change of the line or polled at any rate that does not miss a
//! change: a reading that finds the line as it was leaves the receiver
//! untouched.

use crate::timing::{wrapping_difference, MicroSeconds, Time};
use vstd::prelude::*;

verus! {

/// Makes `nb::Error` known to the verifier, with the two variants that `nb`
/// declares: `Other(E)`, an error of the operation, and `WouldBlock`, word
/// that there is nothing yet.
#[verifier::external_type_specification]
#[verifier::reject_recursive_types(E)]
pub struct ExNbError<E>(nb::Error<E>);

/// Length of the leading burst, in microseconds.
pub const LEADING_BURST: u32 = 9000;

/// Space after the leading burst of a transmission that carries data.
pub const DATA_SPACE: u32 = 4500;

/// Space after the leading burst of a repeat code.
pub const REPEAT_SPACE: u32 = 2250;

/// Burst and space of a zero bit.
pub const ZERO_PERIOD: u32 = 1125;

/// Burst and space of a one bit.
pub const ONE_PERIOD: u32 = 2250;

/// By how much the leading burst may be off either way: the length of the
/// burst of a bit, to the microsecond below.
pub const LEADING_TOLERANCE: u32 = 562;

/// By how much a whole leading pulse or the whole pulse of a bit may be too
/// long: an eighth of the leading burst.
pub const TOLERANCE: u32 = 1125;

/// What a completed transmission carried.
#[derive(Clone, Copy, Debug, PartialEq, Eq, Structural)]
pub enum NecContent {
    /// A data frame `0xAAAADDNN`: 16 bits of address, 8 bits of data and the
    /// same 8 bits inverted.
    Data(u32),
    /// A repeat code: the button is still held.
    Repeat,
}

/// Where the receiver stands within a transmission. The time held is that of
/// the start of the burst in progress or last seen; the numbers held are the
/// count of bits received and the bits themselves.
#[derive(Clone, Copy, Debug)]
pub enum NecState {
    /// Waiting for the line to be at rest.
    ExpectInactive,
    /// Line at rest, waiting for a leading burst to start.
    ExpectLeadingActive,
    /// In a leading burst, waiting for it to end.
    ExpectLeadingActiveFinish(Time<MicroSeconds>),
    /// In the space after a leading burst, waiting for it to end.
    ExpectLeadingPulseFinish(Time<MicroSeconds>),
    /// In the burst of a bit, waiting for it to end.
    ExpectDataActiveFinish(Time<MicroSeconds>, u32, u32),
    /// In the space of a bit, waiting for it to end.
    ExpectDataPulseFinish(Time<MicroSeconds>, u32, u32),
}

/// Receiver of NEC transmissions.
pub struct IrReceiver {
    nec_state: NecState,
}

/// A receiver that is handed readings of the line and reports transmissions.
pub trait NecReceiver {
    /// Takes a reading: `active` is the level of the line at the time `now`.
    fn receive(&mut self, now: Time<MicroSeconds>, active: bool) -> nb::Result<NecContent, u32>;
}

/// The bits received with one more behind them. Of 33 bits the first is
/// lost.
pub open spec fn with_bit(bits: u32, bit: bool) -> u32 {
    ((bits * 2) % 0x1_0000_0000 + if bit { 1int } else { 0int }) as u32
}

/// Whether the lowest byte of `frame` is the inverse of the byte above it.
pub open spec fn checksum_holds(frame: u32) -> bool {
    frame % 256 + (frame / 256) % 256 == 255
}

/// What a receiver reports when 32 bits are in.
pub open spec fn verdict(frame: u32) -> Result<NecContent, nb::Error<u32>> {
    if checksum_holds(frame) {
        Ok(NecContent::Data(frame))
    } else {
        Err(nb::Error::Other(frame))
    }
}

/// The level that moves a receiver in `state` on: a reading at the other
/// level changes nothing.
pub open spec fn awaited(state: NecState) -> bool {
    match state {
        NecState::ExpectInactive => false,
        NecState::ExpectLeadingActive => true,
        NecState::ExpectLeadingActiveFinish(_) => false,
        NecState::ExpectLeadingPulseFinish(_) => true,
        NecState::ExpectDataActiveFinish(_, _, _) => false,
        NecState::ExpectDataPulseFinish(_, _, _) => true,
    }
}

/// The state after a reading of the level `active` at the time `now`, and
/// what the receiver reports of it.
pub open spec fn step(state: NecState, now: Time<MicroSeconds>, active: bool) -> (
    NecState,
    Result<NecContent, nb::Error<u32>>,
) {
    if active != awaited(state) {
        (state, Err(nb::Error::WouldBlock))
    } else {
        match state {
            NecState::ExpectInactive => (
                NecState::ExpectLeadingActive,
                Err(nb::Error::WouldBlock),
            ),
            NecState::ExpectLeadingActive => (
                NecState::ExpectLeadingActiveFinish(now),
                Err(nb::Error::WouldBlock),
            ),
            NecState::ExpectLeadingActiveFinish(t0) => {
                let burst = wrapping_difference(now.instant, t0.instant);
                if LEADING_BURST - LEADING_TOLERANCE <= burst <= LEADING_BURST + LEADING_TOLERANCE {
                    (NecState::ExpectLeadingPulseFinish(t0), Err(nb::Error::WouldBlock))
                } else {
                    (NecState::ExpectLeadingActive, Err(nb::Error::WouldBlock))
                }
            },
            NecState::ExpectLeadingPulseFinish(t0) => {
                let pulse = wrapping_difference(now.instant, t0.instant);
                if pulse > LEADING_BURST + DATA_SPACE + TOLERANCE {
                    (NecState::ExpectInactive, Err(nb::Error::WouldBlock))
                } else if pulse < LEADING_BURST + (REPEAT_SPACE + DATA_SPACE) / 2 {
                    (NecState::ExpectInactive, Ok(NecContent::Repeat))
                } else {
                    (NecState::ExpectDataActiveFinish(now, 0, 0), Err(nb::Error::WouldBlock))
                }
            },
            NecState::ExpectDataActiveFinish(t0, index, bits) => {
                let burst = wrapping_difference(now.instant, t0.instant);
                if burst < ZERO_PERIOD {
                    (NecState::ExpectDataPulseFinish(t0, index, bits), Err(nb::Error::WouldBlock))
                } else {
                    (NecState::ExpectLeadingActive, Err(nb::Error::WouldBlock))
                }
            },
            NecState::ExpectDataPulseFinish(t0, index, bits) => {
                let pulse = wrapping_difference(now.instant, t0.instant);
                if pulse > ONE_PERIOD + TOLERANCE {
                    (NecState::ExpectInactive, Err(nb::Error::WouldBlock))
                } else {
                    let bits = with_bit(bits, pulse > (ZERO_PERIOD + ONE_PERIOD) / 2);
                    if index < 31 {
                        (
                            NecState::ExpectDataActiveFinish(now, (index + 1) as u32, bits),
                            Err(nb::Error::WouldBlock),
                        )
                    } else {
                        (NecState::ExpectInactive, verdict(bits))
                    }
                }
            },
        }
    }
}

impl IrReceiver {
    /// Where the receiver stands.
    pub closed spec fn state(&self) -> NecState {
        self.nec_state
    }

    /// A receiver that waits for the line to be at rest.
    pub fn new() -> (receiver: IrReceiver)
        ensures
            receiver.state() == NecState::ExpectInactive,
    {
        IrReceiver { nec_state: NecState::ExpectInactive }
    }
}

impl NecReceiver for IrReceiver {
    /// Takes a reading: `active` is the level of the line at the time `now`.
    ///
    /// Returns `WouldBlock` unless the reading completes a transmission. A
    /// repeat code is reported as `Ok(Repeat)`, 32 bits whose last byte is the
    /// inverse of the byte before it as `Ok(Data(..))`, and 32 other bits as
    /// `Err(Other(..))` with the bits as they came. After any of the three the
    /// receiver waits for the next transmission. What is off in its timing
    /// is dropped without a report.
    fn receive(&mut self, now: Time<MicroSeconds>, active: bool) -> (result: Result<
        NecContent,
        nb::Error<u32>,
    >)
        ensures
            (final(self).state(), result) == step(old(self).state(), now, active),
    {
        match self.nec_state {
            NecState::ExpectInactive => {
                if !active {
                    self.nec_state = NecState::ExpectLeadingActive;
                }
            },
            NecState::ExpectLeadingActive => {
                if active {
                    self.nec_state = NecState::ExpectLeadingActiveFinish(now);
                }
            },
            NecState::ExpectLeadingActiveFinish(t0) => {
                if !active {
                    let burst: u32 = now.elapsed_since(&t0).count;
                    self.nec_state = if burst >= LEADING_BURST - LEADING_TOLERANCE && burst
                        <= LEADING_BURST + LEADING_TOLERANCE {
                        NecState::ExpectLeadingPulseFinish(t0)
                    } else {
                        NecState::ExpectLeadingActive
                    };
                }
            },
            NecState::ExpectLeadingPulseFinish(t0) => {
                if active {
                    let pulse: u32 = now.elapsed_since(&t0).count;
                    if pulse <= LEADING_BURST + DATA_SPACE + TOLERANCE {
                        if pulse < LEADING_BURST + (REPEAT_SPACE + DATA_SPACE) / 2 {
                            self.nec_state = NecState::ExpectInactive;
                            return Ok(NecContent::Repeat);
                        } else {
                            self.nec_state = NecState::ExpectDataActiveFinish(now, 0, 0);
                        }
                    } else {
                        self.nec_state = NecState::ExpectInactive;
                    }
                }
            },
            NecState::ExpectDataActiveFinish(t0, index, bits) => {
                if !active {
                    let burst: u32 = now.elapsed_since(&t0).count;
                    if burst < ZERO_PERIOD {
                        self.nec_state = NecState::ExpectDataPulseFinish(t0, index, bits);
                    } else {
                        self.nec_state = NecState::ExpectLeadingActive;
                    }
                }
            },
            NecState::ExpectDataPulseFinish(t0, index, bits) => {
                if active {
                    let pulse: u32 = now.elapsed_since(&t0).count;
                    if pulse <= ONE_PERIOD + TOLERANCE {
                        let bits: u32 = push_bit(bits, pulse > (ZERO_PERIOD + ONE_PERIOD) / 2);
                        if index < 31 {
                            self.nec_state = NecState::ExpectDataActiveFinish(now, index + 1, bits);
                        } else {
                            self.nec_state = NecState::ExpectInactive;
                            return check(bits);
                        }
                    } else {
                        self.nec_state = NecState::ExpectInactive;
                    }
                }
            },
        }
        Err(nb::Error::WouldBlock)
    }
}

/// Shifts one more bit in behind the bits received.
fn push_bit(bits: u32, bit: bool) -> (r: u32)
    ensures
        r == with_bit(bits, bit),
{
    assert((bits << 1) | 1 == ((bits as u64 * 2) % 0x1_0000_0000 + 1) as u32) by (bit_vector);
    assert(bits << 1 == ((bits as u64 * 2) % 0x1_0000_0000) as u32) by (bit_vector);
    if bit {
        (bits << 1) | 1
    } else {
        bits << 1
    }
}

/// Holds 32 received bits to their checksum.
fn check(frame: u32) -> (r: Result<NecContent, nb::Error<u32>>)
    ensures
        r == verdict(frame),
{
    assert(((frame ^ 0xFF) & 0xFF == (frame >> 8) & 0xFF) <==> (frame % 256 + (frame / 256) % 256
        == 255)) by (bit_vector);
    if (frame ^ 0xFF) & 0xFF == (frame >> 8) & 0xFF {
        Ok(NecContent::Data(frame))
    } else {
        Err(nb::Error::Other(frame))
    }
}

/// Whether the count of bits received is one that a frame of 32 bits can
/// have while it is coming in.
pub open spec fn in_frame(state: NecState) -> bool {
    match state {
        NecState::ExpectDataActiveFinish(_, index, _) => index <= 31,
        NecState::ExpectDataPulseFinish(_, index, _) => index <= 31,
        _ => true,
    }
}

/// Whatever a reading finds, a receiver that reports something other than
/// that there is nothing yet goes back to waiting for the line to be at rest:
/// what was received is reported once. And the count of bits received stays
/// within the frame.
pub proof fn lemma_report_ends_the_frame(state: NecState, now: Time<MicroSeconds>, active: bool)
    ensures
        step(state, now, active).1 != Err::<NecContent, nb::Error<u32>>(nb::Error::WouldBlock)
            ==> step(state, now, active).0 == NecState::ExpectInactive,
        in_frame(state) ==> in_frame(step(state, now, active).0),
{
}

/// One reading of the line.
pub struct Sample {
    pub now: Time<MicroSeconds>,
    pub active: bool,
}

/// The reading of the level `active` at the instant `instant`.
pub open spec fn sample(instant: u32, active: bool) -> Sample {
    Sample { now: Time { instant, unit: core::marker::PhantomData }, active }
}

/// The state of a receiver that was in `state` and took the readings in
/// turn, and what it reported on the way, the reports that there is nothing
/// yet left out.
pub open spec fn run(state: NecState, samples: Seq<Sample>) -> (
    NecState,
    Seq<Result<NecContent, nb::Error<u32>>>,
)
    decreases samples.len(),
{
    if samples.len() == 0 {
        (state, Seq::empty())
    } else {
        let (before, reports) = run(state, samples.drop_last());
        let (after, report) = step(before, samples.last().now, samples.last().active);
        if report == Err::<NecContent, nb::Error<u32>>(nb::Error::WouldBlock) {
            (after, reports)
        } else {
            (after, reports.push(report))
        }
    }
}

/// A transmission as it appears on the line: when its leading burst starts,
/// how long that burst and the whole leading pulse last, and for each bit how
/// long its burst and its whole pulse last.
pub struct Frame {
    pub start: u32,
    pub leading_burst: u32,
    pub leading_pulse: u32,
    pub bursts: Seq<u32>,
    pub pulses: Seq<u32>,
}

/// `word` with its lowest `n` bits dropped.
pub open spec fn without_low_bits(word: u32, n: nat) -> u32
    decreases n,
{
    if n == 0 {
        word
    } else {
        without_low_bits(word, (n - 1) as nat) / 2
    }
}

/// The frame with the address in its upper half, then the data byte, then
/// the data byte inverted.
pub open spec fn frame_of(address: u16, data: u8) -> u32 {
    (address * 0x1_0000 + data * 0x100 + (255 - data)) as u32
}

impl Frame {
    /// Whether the receiver takes the timing for that of a data frame: the
    /// leading burst within the tolerance, the leading pulse long enough not
    /// to be a repeat code and within the tolerance, each of 32 bursts
    /// shorter than a zero bit, each pulse within the tolerance of a one bit.
    pub open spec fn well_timed(self) -> bool {
        &&& LEADING_BURST - LEADING_TOLERANCE <= self.leading_burst <= LEADING_BURST
            + LEADING_TOLERANCE
        &&& LEADING_BURST + (REPEAT_SPACE + DATA_SPACE) / 2 <= self.leading_pulse <= LEADING_BURST
            + DATA_SPACE + TOLERANCE
        &&& self.bursts.len() == 32
        &&& self.pulses.len() == 32
        &&& forall|k: int| 0 <= k < 32 ==> #[trigger] self.bursts[k] < ZERO_PERIOD
        &&& forall|k: int| 0 <= k < 32 ==> #[trigger] self.pulses[k] <= ONE_PERIOD + TOLERANCE
    }

    /// The instant at which the burst of bit `k` starts; for `k` = 32, that
    /// of the closing burst.
    pub open spec fn burst_start(self, k: nat) -> u32
        decreases k,
    {
        if k == 0 {
            crate::timing::wrapping_sum(self.start, self.leading_pulse)
        } else {
            crate::timing::wrapping_sum(self.burst_start((k - 1) as nat), self.pulses[k - 1])
        }
    }

    /// The first `n` bits that the frame carries: a pulse longer than the
    /// mean of a zero and a one is a one.
    pub open spec fn bits(self, n: nat) -> u32
        decreases n,
    {
        if n == 0 {
            0
        } else {
            with_bit(self.bits((n - 1) as nat), self.pulses[n - 1] > (ZERO_PERIOD + ONE_PERIOD) / 2)
        }
    }

    /// The changes of the line during the leading pulse, as readings.
    pub open spec fn leading_samples(self) -> Seq<Sample> {
        seq![
            sample(self.start, true),
            sample(crate::timing::wrapping_sum(self.start, self.leading_burst), false),
            sample(self.burst_start(0), true),
        ]
    }

    /// The changes of the line during the first `n` bits, as readings: for
    /// each bit the end of its burst and the start of the next burst.
    pub open spec fn bit_samples(self, n: nat) -> Seq<Sample>
        decreases n,
    {
        if n == 0 {
            Seq::empty()
        } else {
            let k = (n - 1) as nat;
            self.bit_samples(k).push(
                sample(crate::timing::wrapping_sum(self.burst_start(k), self.bursts[k as int]), false),
            ).push(sample(self.burst_start(n), true))
        }
    }

    /// Every change of the line during the frame, as readings.
    pub open spec fn samples(self) -> Seq<Sample> {
        self.leading_samples() + self.bit_samples(32)
    }

    /// The frame that carries `word` with the timing that the protocol
    /// names, to the microsecond, and starts at `start`.
    pub open spec fn carrying(start: u32, word: u32) -> Frame {
        Frame {
            start,
            leading_burst: LEADING_BURST,
            leading_pulse: (LEADING_BURST + DATA_SPACE) as u32,
            bursts: Seq::new(32, |k: int| 562u32),
            pulses: Seq::new(
                32,
                |k: int|
                    if without_low_bits(word, (31 - k) as nat) % 2 == 1 {
                        ONE_PERIOD
                    } else {
                        ZERO_PERIOD
                    },
            ),
        }
    }
}

/// Readings taken one after the other are taken as a whole: the second lot
/// is run from the state that the first lot leaves, and the reports follow
/// each other.
pub proof fn lemma_run_in_parts(state: NecState, first: Seq<Sample>, second: Seq<Sample>)
    ensures
        run(state, first + second).0 == run(run(state, first).0, second).0,
        run(state, first + second).1 == run(state, first).1 + run(run(state, first).0, second).1,
    decreases second.len(),
{
    if second.len() == 0 {
        assert(first + second =~= first);
        assert(run(state, first).1 + Seq::empty() =~= run(state, first).1);
    } else {
        lemma_run_in_parts(state, first, second.drop_last());
        assert((first + second).drop_last() =~= first + second.drop_last());
        assert((first + second).last() == second.last());
        let mid = run(state, first);
        let rest = run(mid.0, second.drop_last());
        let last = step(rest.0, second.last().now, second.last().active);
        assert((mid.1 + rest.1).push(last.1) =~= mid.1 + rest.1.push(last.1));
    }
}

/// A reading that finds the line at the level that the receiver is not
/// waiting for changes nothing and reports nothing. So a receiver that is
/// polled between the changes of the line ends in the same state, with the
/// same reports, as one that is handed the changes alone.
pub proof fn lemma_polling_changes_nothing(
    state: NecState,
    before: Seq<Sample>,
    poll: Sample,
    after: Seq<Sample>,
)
    requires
        poll.active != awaited(run(state, before).0),
    ensures
        run(state, before + seq![poll] + after) == run(state, before + after),
{
    let polled = before + seq![poll];
    assert(polled.drop_last() =~= before);
    assert(polled.last() == poll);
    assert(run(state, polled).0 == run(state, before).0);
    assert(run(state, polled).1 == run(state, before).1);
    lemma_run_in_parts(state, polled, after);
    lemma_run_in_parts(state, before, after);
}

/// Off a well-timed frame the receiver reads the leading pulse as the start
/// of data.
proof fn lemma_leading_pulse(frame: Frame)
    requires
        frame.well_timed(),
    ensures
        run(NecState::ExpectLeadingActive, frame.leading_samples()) == (
            NecState::ExpectDataActiveFinish(sample(frame.burst_start(0), true).now, 0, 0),
            Seq::<Result<NecContent, nb::Error<u32>>>::empty(),
        ),
{
    let s = frame.leading_samples();
    let s2 = s.drop_last();
    let s1 = s2.drop_last();
    assert(s1.drop_last() =~= Seq::<Sample>::empty());
    assert(run(NecState::ExpectLeadingActive, s1.drop_last()).0 == NecState::ExpectLeadingActive);
    assert(run(NecState::ExpectLeadingActive, s1).0 == NecState::ExpectLeadingActiveFinish(
        sample(frame.start, true).now,
    ));
    assert(run(NecState::ExpectLeadingActive, s2).0 == NecState::ExpectLeadingPulseFinish(
        sample(frame.start, true).now,
    ));
}

/// Off a well-timed frame the receiver reads the first `n` bits as they are
/// sent, and reports when the last of 32 is in.
proof fn lemma_bits(frame: Frame, n: nat)
    requires
        frame.well_timed(),
        n <= 32,
    ensures
        run(
            NecState::ExpectDataActiveFinish(sample(frame.burst_start(0), true).now, 0, 0),
            frame.bit_samples(n),
        ) == (if n < 32 {
            (
                NecState::ExpectDataActiveFinish(
                    sample(frame.burst_start(n), true).now,
                    n as u32,
                    frame.bits(n),
                ),
                Seq::<Result<NecContent, nb::Error<u32>>>::empty(),
            )
        } else {
            (NecState::ExpectInactive, seq![verdict(frame.bits(32))])
        }),
    decreases n,
{
    let start = NecState::ExpectDataActiveFinish(sample(frame.burst_start(0), true).now, 0, 0);
    if n > 0 {
        let k = (n - 1) as nat;
        lemma_bits(frame, k);
        let burst_end = sample(
            crate::timing::wrapping_sum(frame.burst_start(k), frame.bursts[k as int]),
            false,
        );
        let next_burst = sample(frame.burst_start(n), true);
        let upto_burst_end = frame.bit_samples(k).push(burst_end);
        assert(frame.bit_samples(n) == upto_burst_end.push(next_burst));
        assert(upto_burst_end.drop_last() =~= frame.bit_samples(k));
        assert(frame.bit_samples(n).drop_last() =~= upto_burst_end);
        assert(frame.bursts[k as int] < ZERO_PERIOD);
        assert(frame.pulses[k as int] <= ONE_PERIOD + TOLERANCE);
        let t0 = sample(frame.burst_start(k), true).now;
        assert(run(start, upto_burst_end).0 == NecState::ExpectDataPulseFinish(
            t0,
            k as u32,
            frame.bits(k),
        ));
        assert(run(start, upto_burst_end).1 =~= Seq::empty());
        if n == 32 {
            assert(run(start, frame.bit_samples(n)).1 =~= seq![verdict(frame.bits(32))]);
        }
    }
}

/// A data frame with any timing that the receiver accepts is reported once,
/// when its closing burst starts: as data where its last byte is the inverse
/// of the byte before, as an error with the bits received otherwise. Nothing
/// else is reported, and the receiver is left waiting for the line to be at
/// rest.
pub proof fn lemma_frame_is_received(frame: Frame)
    requires
        frame.well_timed(),
    ensures
        run(NecState::ExpectLeadingActive, frame.samples()) == (
            NecState::ExpectInactive,
            seq![verdict(frame.bits(32))],
        ),
{
    lemma_leading_pulse(frame);
    lemma_bits(frame, 32);
    lemma_run_in_parts(NecState::ExpectLeadingActive, frame.leading_samples(), frame.bit_samples(32));
    assert(Seq::<Result<NecContent, nb::Error<u32>>>::empty() + seq![verdict(frame.bits(32))]
        =~= seq![verdict(frame.bits(32))]);
}

/// A word of 32 bits has no bits left when 32 are dropped.
proof fn lemma_no_bits_left(word: u32)
    ensures
        without_low_bits(word, 32) == 0,
{
    reveal_with_fuel(without_low_bits, 33);
}

/// The first `n` bits of a frame that carries `word` are the upper `n` bits
/// of `word`.
proof fn lemma_bits_of_word(start: u32, word: u32, n: nat)
    requires
        n <= 32,
    ensures
        Frame::carrying(start, word).bits(n) == without_low_bits(word, (32 - n) as nat),
    decreases n,
{
    if n == 0 {
        lemma_no_bits_left(word);
    } else {
        lemma_bits_of_word(start, word, (n - 1) as nat);
        let rest = without_low_bits(word, (32 - n) as nat);
        assert(without_low_bits(word, (33 - n) as nat) == rest / 2);
        assert(Frame::carrying(start, word).pulses[n - 1] == if rest % 2 == 1 {
            ONE_PERIOD
        } else {
            ZERO_PERIOD
        });
    }
}

/// The frame that carries `word` with the timing that the protocol names is
/// one that the receiver accepts, and the bits that it carries are `word`.
pub proof fn lemma_protocol_timing_is_accepted(start: u32, word: u32)
    ensures
        Frame::carrying(start, word).well_timed(),
        Frame::carrying(start, word).bits(32) == word,
{
    lemma_bits_of_word(start, word, 32);
}

/// A frame made of an address, a data byte and the data byte inverted passes
/// the checksum.
pub proof fn lemma_inverted_byte_passes(address: u16, data: u8)
    ensures
        checksum_holds(frame_of(address, data)),
{
    let frame = frame_of(address, data);
    let low = 255 - data;
    let upper = address * 0x100 + data;
    assert(frame == upper * 256 + low);
    vstd::arithmetic::div_mod::lemma_fundamental_div_mod_converse(frame as int, 256, upper, low);
    vstd::arithmetic::div_mod::lemma_fundamental_div_mod_converse(
        upper,
        256,
        address as int,
        data as int,
    );
}

/// A receiver that is new waits for the line to be at rest, and from the
/// first reading that finds it so takes a frame as a receiver in use does.
pub proof fn lemma_new_receiver_receives(rest: u32, frame: Frame)
    requires
        frame.well_timed(),
    ensures
        run(NecState::ExpectInactive, seq![sample(rest, false)] + frame.samples()) == (
            NecState::ExpectInactive,
            seq![verdict(frame.bits(32))],
        ),
{
    let first = seq![sample(rest, false)];
    assert(first.drop_last() =~= Seq::<Sample>::empty());
    assert(run(NecState::ExpectInactive, first.drop_last()).0 == NecState::ExpectInactive);
    assert(first.last() == sample(rest, false));
    assert(run(NecState::ExpectInactive, first).0 == NecState::ExpectLeadingActive);
    assert(run(NecState::ExpectInactive, first).1 =~= Seq::empty());
    lemma_frame_is_received(frame);
    lemma_run_in_parts(NecState::ExpectInactive, first, frame.samples());
    assert(Seq::<Result<NecContent, nb::Error<u32>>>::empty() + seq![verdict(frame.bits(32))]
        =~= seq![verdict(frame.bits(32))]);
}

/// A data frame sent with the timing that the protocol names, for any
/// address and data byte and from any instant on, is reported once, as the
/// data that was sent, and leaves the receiver waiting for the line to be at
/// rest.
pub proof fn lemma_data_frame_round_trip(start: u32, address: u16, data: u8)
    ensures
        run(
            NecState::ExpectLeadingActive,
            Frame::carrying(start, frame_of(address, data)).samples(),
        ) == (
            NecState::ExpectInactive,
            seq![
                Ok::<NecContent, nb::Error<u32>>(NecContent::Data(frame_of(address, data))),
            ],
        ),
{
    let word = frame_of(address, data);
    lemma_protocol_timing_is_accepted(start, word);
    lemma_inverted_byte_passes(address, data);
    lemma_frame_is_received(Frame::carrying(start, word));
}

/// A frame whose last byte is not the inverse of the byte before it is
/// reported once, as an error that carries the 32 bits received. The receiver
/// is not stuck: when the line has been seen at rest, the frame that follows
/// is received as any other.
pub proof fn lemma_checksum_failure_is_reported(broken: Frame, rest: u32, next: Frame)
    requires
        broken.well_timed(),
        !checksum_holds(broken.bits(32)),
        next.well_timed(),
    ensures
        run(NecState::ExpectLeadingActive, broken.samples()) == (
            NecState::ExpectInactive,
            seq![Err::<NecContent, nb::Error<u32>>(nb::Error::Other(broken.bits(32)))],
        ),
        run(
            NecState::ExpectLeadingActive,
            broken.samples() + seq![sample(rest, false)] + next.samples(),
        ) == (
            NecState::ExpectInactive,
            seq![
                Err::<NecContent, nb::Error<u32>>(nb::Error::Other(broken.bits(32))),
                verdict(next.bits(32)),
            ],
        ),
{
    lemma_frame_is_received(broken);
    lemma_frame_is_received(next);
    let first = broken.samples() + seq![sample(rest, false)];
    assert(first.drop_last() =~= broken.samples());
    assert(first.last() == sample(rest, false));
    assert(run(NecState::ExpectLeadingActive, first).0 == NecState::ExpectLeadingActive);
    lemma_run_in_parts(NecState::ExpectLeadingActive, first, next.samples());
    assert(seq![Err::<NecContent, nb::Error<u32>>(nb::Error::Other(broken.bits(32)))] + seq![
        verdict(next.bits(32)),
    ] =~= seq![
        Err::<NecContent, nb::Error<u32>>(nb::Error::Other(broken.bits(32))),
        verdict(next.bits(32)),
    ]);
}

/// A leading burst within the tolerance, followed by a space that ends
/// before the mean of the repeat space and the data space, is reported as a
/// repeat code when the next burst starts, and leaves the receiver waiting
/// for the line to be at rest.
pub proof fn lemma_repeat_code_is_received(start: u32, burst: u32, pulse: u32)
    requires
        LEADING_BURST - LEADING_TOLERANCE <= burst <= LEADING_BURST + LEADING_TOLERANCE,
        pulse < LEADING_BURST + (REPEAT_SPACE + DATA_SPACE) / 2,
    ensures
        run(
            NecState::ExpectLeadingActive,
            seq![
                sample(start, true),
                sample(crate::timing::wrapping_sum(start, burst), false),
                sample(crate::timing::wrapping_sum(start, pulse), true),
            ],
        ) == (
            NecState::ExpectInactive,
            seq![Ok::<NecContent, nb::Error<u32>>(NecContent::Repeat)],
        ),
{
    let s = seq![
        sample(start, true),
        sample(crate::timing::wrapping_sum(start, burst), false),
        sample(crate::timing::wrapping_sum(start, pulse), true),
    ];
    let s2 = s.drop_last();
    let s1 = s2.drop_last();
    assert(s1.drop_last() =~= Seq::<Sample>::empty());
    assert(run(NecState::ExpectLeadingActive, s1.drop_last()).0 == NecState::ExpectLeadingActive);
    assert(run(NecState::ExpectLeadingActive, s1).0 == NecState::ExpectLeadingActiveFinish(
        sample(start, true).now,
    ));
    assert(run(NecState::ExpectLeadingActive, s2).0 == NecState::ExpectLeadingPulseFinish(
        sample(start, true).now,
    ));
    assert(run(NecState::ExpectLeadingActive, s2).1 =~= Seq::empty());
    assert(run(NecState::ExpectLeadingActive, s).1 =~= seq![
        Ok::<NecContent, nb::Error<u32>>(NecContent::Repeat),
    ]);
}

/// While the line stays at rest, a receiver that waits for a leading burst
/// goes on waiting and reports nothing.
pub proof fn lemma_line_at_rest_is_silent(samples: Seq<Sample>)
    requires
        forall|i: int| 0 <= i < samples.len() ==> !(#[trigger] samples[i]).active,
    ensures
        run(NecState::ExpectLeadingActive, samples) == (
            NecState::ExpectLeadingActive,
            Seq::<Result<NecContent, nb::Error<u32>>>::empty(),
        ),
    decreases samples.len(),
{
    if samples.len() > 0 {
        lemma_line_at_rest_is_silent(samples.drop_last());
        assert(!samples[samples.len() - 1].active);
    }
}

/// A leading burst that is shorter or longer than the tolerance allows is
/// dropped without a report, and so is everything up to the start of the
/// next burst: the receiver waits for that, however long the line then stays
/// at rest.
pub proof fn lemma_bad_leading_burst_is_dropped(start: u32, burst: u32, at_rest: Seq<Sample>)
    requires
        !(LEADING_BURST - LEADING_TOLERANCE <= burst <= LEADING_BURST + LEADING_TOLERANCE),
        forall|i: int| 0 <= i < at_rest.len() ==> !(#[trigger] at_rest[i]).active,
    ensures
        run(
            NecState::ExpectLeadingActive,
            seq![sample(start, true), sample(crate::timing::wrapping_sum(start, burst), false)]
                + at_rest,
        ) == (
            NecState::ExpectLeadingActive,
            Seq::<Result<NecContent, nb::Error<u32>>>::empty(),
        ),
{
    let s = seq![sample(start, true), sample(crate::timing::wrapping_sum(start, burst), false)];
    let s1 = s.drop_last();
    assert(s1.drop_last() =~= Seq::<Sample>::empty());
    assert(run(NecState::ExpectLeadingActive, s1.drop_last()).0 == NecState::ExpectLeadingActive);
    assert(run(NecState::ExpectLeadingActive, s1).0 == NecState::ExpectLeadingActiveFinish(
        sample(start, true).now,
    ));
    assert(run(NecState::ExpectLeadingActive, s).0 == NecState::ExpectLeadingActive);
    assert(run(NecState::ExpectLeadingActive, s).1 =~= Seq::empty());
    lemma_line_at_rest_is_silent(at_rest);
    lemma_run_in_parts(NecState::ExpectLeadingActive, s, at_rest);
    assert(Seq::<Result<NecContent, nb::Error<u32>>>::empty() + Seq::<
        Result<NecContent, nb::Error<u32>>,
    >::empty() =~= Seq::empty());
}

} // verus!
