//! The sample-driven state machine that recovers bits and minute boundaries.
use vstd::prelude::*;

use crate::telegram::bit;

verus! {

/// Samples of continuous low level (10 ms each, 1.8 s) after which a minute gap is recognised.
pub const SILENCE_TICKS: u8 = 180;

/// Samples (200 ms) that make up the window in which a pulse is measured.
pub const PULSE_WINDOW_TICKS: u8 = 20;

/// Samples (100 ms) in the first half of the pulse window.
pub const HALF_WINDOW_TICKS: u8 = 10;

/// Samples (900 ms) after the leading edge at which a bit slot is over.
pub const SLOT_TICKS: u8 = 90;

/// High samples in a half of the pulse window needed to count the pulse as present there.
pub const PULSE_THRESHOLD: u8 = 3;

/// High samples in the quiet tail of a slot above which the slot is counted as noisy.
pub const NOISE_THRESHOLD: u8 = 10;

/// Width of the bit accumulator.
pub const DATA_BITS: usize = 64;

/// Where the decoder stands within the current bit slot.
#[derive(Clone, Copy, Debug, PartialEq, Eq, Structural)]
pub enum SimpleDCF77DecoderState {
    WaitingForPhase,
    PhaseFound,
    BitReceived,
    FaultyBit,
    EndOfCycle,
    Idle,
}

/// The decoder's state as mathematical values.
pub ghost struct DecoderModel {
    pub state: SimpleDCF77DecoderState,
    pub scancount: nat,
    pub lowcount: nat,
    pub highcount: nat,
    pub idlecount: nat,
    pub data: u64,
    pub datapos: nat,
}

impl DecoderModel {
    /// The bounds that every reachable state keeps; they keep all counters within a byte.
    pub open spec fn wf(self) -> bool {
        &&& self.datapos <= usize::MAX
        &&& match self.state {
            SimpleDCF77DecoderState::PhaseFound => {
                &&& 1 <= self.scancount <= PULSE_WINDOW_TICKS
                &&& self.lowcount <= self.scancount
                &&& self.highcount <= self.scancount
                &&& self.idlecount <= NOISE_THRESHOLD
            },
            SimpleDCF77DecoderState::BitReceived | SimpleDCF77DecoderState::Idle => {
                &&& PULSE_WINDOW_TICKS + 1 <= self.scancount <= SLOT_TICKS
                &&& self.idlecount + PULSE_WINDOW_TICKS + 1 <= self.scancount + NOISE_THRESHOLD
                &&& self.lowcount <= 255
                &&& self.highcount <= 255
            },
            _ => {
                &&& self.scancount <= SILENCE_TICKS + 1
                &&& self.idlecount <= NOISE_THRESHOLD
                &&& self.lowcount <= 255
                &&& self.highcount <= 255
            },
        }
    }
}

/// The state of a freshly created decoder.
pub open spec fn initial_model() -> DecoderModel {
    DecoderModel {
        state: SimpleDCF77DecoderState::WaitingForPhase,
        scancount: 0,
        lowcount: 0,
        highcount: 0,
        idlecount: 0,
        data: 0,
        datapos: 0,
    }
}

/// `data` with bit `pos` set to `value`; positions outside the accumulator leave it as it is.
pub open spec fn write_bit(data: u64, pos: nat, value: bool) -> u64 {
    if pos >= DATA_BITS {
        data
    } else if value {
        data | (1u64 << (pos as u64))
    } else {
        data & !(1u64 << (pos as u64))
    }
}

/// The cursor moved on by one position (it stays put only at the largest `usize`).
pub open spec fn advance(pos: nat) -> nat {
    if pos < usize::MAX {
        pos + 1
    } else {
        pos
    }
}

/// The transition taken on one sample, before the slot counter ticks.
pub open spec fn transition(s: DecoderModel, sample: bool) -> DecoderModel {
    match s.state {
        SimpleDCF77DecoderState::WaitingForPhase
        | SimpleDCF77DecoderState::EndOfCycle
        | SimpleDCF77DecoderState::FaultyBit => {
            if sample {
                DecoderModel {
                    state: SimpleDCF77DecoderState::PhaseFound,
                    lowcount: 1,
                    highcount: 0,
                    scancount: 0,
                    ..s
                }
            } else if s.scancount > SILENCE_TICKS {
                DecoderModel {
                    state: SimpleDCF77DecoderState::EndOfCycle,
                    datapos: 0,
                    scancount: 0,
                    ..s
                }
            } else {
                DecoderModel { state: SimpleDCF77DecoderState::WaitingForPhase, ..s }
            }
        },
        SimpleDCF77DecoderState::PhaseFound => {
            if s.scancount < PULSE_WINDOW_TICKS {
                if sample && s.scancount < HALF_WINDOW_TICKS {
                    DecoderModel { lowcount: s.lowcount + 1, ..s }
                } else if sample {
                    DecoderModel { highcount: s.highcount + 1, ..s }
                } else {
                    s
                }
            } else if s.highcount > PULSE_THRESHOLD {
                DecoderModel {
                    state: SimpleDCF77DecoderState::BitReceived,
                    data: write_bit(s.data, s.datapos, true),
                    datapos: advance(s.datapos),
                    ..s
                }
            } else if s.lowcount > PULSE_THRESHOLD {
                DecoderModel {
                    state: SimpleDCF77DecoderState::BitReceived,
                    data: write_bit(s.data, s.datapos, false),
                    datapos: advance(s.datapos),
                    ..s
                }
            } else {
                DecoderModel {
                    state: SimpleDCF77DecoderState::FaultyBit,
                    datapos: advance(s.datapos),
                    ..s
                }
            }
        },
        SimpleDCF77DecoderState::BitReceived | SimpleDCF77DecoderState::Idle => {
            let idle = if sample { s.idlecount + 1 } else { s.idlecount };
            if s.scancount >= SLOT_TICKS && idle > NOISE_THRESHOLD {
                DecoderModel {
                    state: SimpleDCF77DecoderState::WaitingForPhase,
                    idlecount: 0,
                    scancount: 0,
                    ..s
                }
            } else if s.scancount >= SLOT_TICKS {
                DecoderModel {
                    state: SimpleDCF77DecoderState::WaitingForPhase,
                    idlecount: idle,
                    ..s
                }
            } else {
                DecoderModel { state: SimpleDCF77DecoderState::Idle, idlecount: idle, ..s }
            }
        },
    }
}

/// The state after one sample: the transition, then one tick of the slot counter.
pub open spec fn step(s: DecoderModel, sample: bool) -> DecoderModel {
    let t = transition(s, sample);
    DecoderModel { scancount: t.scancount + 1, ..t }
}

/// Every sample keeps the decoder's bounds.
pub proof fn step_preserves_wf(s: DecoderModel, sample: bool)
    requires
        s.wf(),
    ensures
        step(s, sample).wf(),
{
}

proof fn lemma_write_bit(data: u64, pos: u64, j: u64)
    by (bit_vector)
    requires
        pos < 64,
        j < 64,
    ensures
        bit(data | (1u64 << pos), j) == (j == pos || bit(data, j)),
        bit(data & !(1u64 << pos), j) == (j != pos && bit(data, j)),
{
}

/// At the end of the 200 ms window the pulse shape decides the bit: four or more
/// high samples in the second half write a 1, else four or more in the first half
/// write a 0, else the slot is faulty and the accumulator is left alone. Either
/// way the position moves on and no other bit changes.
pub proof fn pulse_shape_law(s: DecoderModel, sample: bool)
    requires
        s.wf(),
        s.state == SimpleDCF77DecoderState::PhaseFound,
        s.scancount == PULSE_WINDOW_TICKS,
        s.datapos < DATA_BITS,
    ensures
        ({
            let t = step(s, sample);
            &&& t.datapos == s.datapos + 1
            &&& s.highcount > PULSE_THRESHOLD ==> t.state == SimpleDCF77DecoderState::BitReceived
                && bit(t.data, s.datapos as u64)
            &&& s.highcount <= PULSE_THRESHOLD && s.lowcount > PULSE_THRESHOLD ==> t.state
                == SimpleDCF77DecoderState::BitReceived && !bit(t.data, s.datapos as u64)
            &&& s.highcount <= PULSE_THRESHOLD && s.lowcount <= PULSE_THRESHOLD ==> t.state
                == SimpleDCF77DecoderState::FaultyBit && t.data == s.data
            &&& forall|j: u64| j < 64 && j != s.datapos ==> #[trigger] bit(t.data, j) == bit(s.data, j)
        }),
{
    let t = step(s, sample);
    assert forall|j: u64| j < 64 implies (#[trigger] bit(t.data, j) == bit(s.data, j)) || j
        == s.datapos by {
        lemma_write_bit(s.data, s.datapos as u64, j);
    }
    lemma_write_bit(s.data, s.datapos as u64, s.datapos as u64);
}

/// The state after `n` low samples in a row.
pub open spec fn feed_lows(s: DecoderModel, n: nat) -> DecoderModel
    decreases n,
{
    if n == 0 {
        s
    } else {
        step(feed_lows(s, (n - 1) as nat), false)
    }
}

proof fn lemma_silence_counts(s: DecoderModel, n: nat)
    requires
        s.wf(),
        s.state == SimpleDCF77DecoderState::WaitingForPhase,
        s.scancount + n <= SILENCE_TICKS + 1,
    ensures
        feed_lows(s, n) == (DecoderModel { scancount: s.scancount + n, ..s }),
    decreases n,
{
    if n > 0 {
        lemma_silence_counts(s, (n - 1) as nat);
    }
}

/// A decoder waiting for a pulse that sees only low samples keeps waiting and
/// keeps its bits until the silence passes 1.8 s; the next low sample then marks
/// the end of the minute and resets the bit position to 0.
pub proof fn silence_ends_cycle_law(s: DecoderModel)
    requires
        s.wf(),
        s.state == SimpleDCF77DecoderState::WaitingForPhase,
    ensures
        forall|n: nat|
            n <= SILENCE_TICKS + 1 - s.scancount ==> #[trigger] feed_lows(s, n).state
                == SimpleDCF77DecoderState::WaitingForPhase && feed_lows(s, n).datapos
                == s.datapos && feed_lows(s, n).data == s.data,
        feed_lows(s, (SILENCE_TICKS + 2 - s.scancount) as nat).state
            == SimpleDCF77DecoderState::EndOfCycle,
        feed_lows(s, (SILENCE_TICKS + 2 - s.scancount) as nat).datapos == 0,
{
    assert forall|n: nat| n <= SILENCE_TICKS + 1 - s.scancount implies #[trigger] feed_lows(
        s,
        n,
    ).state == SimpleDCF77DecoderState::WaitingForPhase && feed_lows(s, n).datapos == s.datapos
        && feed_lows(s, n).data == s.data by {
        lemma_silence_counts(s, n);
    }
    let m = (SILENCE_TICKS + 1 - s.scancount) as nat;
    lemma_silence_counts(s, m);
    assert(feed_lows(s, (m + 1) as nat) == step(feed_lows(s, m), false));
}

/// A timeslot based DCF77 decoder, fed one sample of the receiver's output every 10 ms.
pub struct SimpleDCF77Decoder {
    scancount: u8,
    lowcount: u8,
    highcount: u8,
    idlecount: u8,
    state: SimpleDCF77DecoderState,
    data: u64,
    datapos: usize,
}

impl View for SimpleDCF77Decoder {
    type V = DecoderModel;

    closed spec fn view(&self) -> DecoderModel {
        DecoderModel {
            state: self.state,
            scancount: self.scancount as nat,
            lowcount: self.lowcount as nat,
            highcount: self.highcount as nat,
            idlecount: self.idlecount as nat,
            data: self.data,
            datapos: self.datapos as nat,
        }
    }
}

impl SimpleDCF77Decoder {
    #[verifier::type_invariant]
    spec fn inv(self) -> bool {
        self@.wf()
    }

    /// A decoder waiting for the first pulse, with an empty accumulator.
    pub fn new() -> (r: Self)
        ensures
            r@ == initial_model(),
    {
        Self {
            scancount: 0,
            lowcount: 0,
            highcount: 0,
            idlecount: 0,
            state: SimpleDCF77DecoderState::WaitingForPhase,
            data: 0,
            datapos: 0,
        }
    }

    /// The accumulated telegram bits.
    pub fn raw_data(&self) -> (r: u64)
        ensures
            r == self@.data,
    {
        self.data
    }

    /// Whether the latest sample completed a bit.
    pub fn bit_complete(&self) -> (r: bool)
        ensures
            r == (self@.state == SimpleDCF77DecoderState::BitReceived),
    {
        match self.state {
            SimpleDCF77DecoderState::BitReceived => true,
            _ => false,
        }
    }

    /// Whether the latest sample ended a bit slot whose pulse could not be told apart.
    pub fn bit_faulty(&self) -> (r: bool)
        ensures
            r == (self@.state == SimpleDCF77DecoderState::FaultyBit),
    {
        match self.state {
            SimpleDCF77DecoderState::FaultyBit => true,
            _ => false,
        }
    }

    /// Whether the latest sample recognised the gap that ends a minute.
    pub fn end_of_cycle(&self) -> (r: bool)
        ensures
            r == (self@.state == SimpleDCF77DecoderState::EndOfCycle),
    {
        match self.state {
            SimpleDCF77DecoderState::EndOfCycle => true,
            _ => false,
        }
    }

    /// The value of the bit written last, at position `seconds() - 1`.
    pub fn latest_bit(&self) -> (r: bool)
        requires
            1 <= self@.datapos <= DATA_BITS,
        ensures
            r == bit(self@.data, (self@.datapos - 1) as u64),
    {
        (self.data >> (self.datapos - 1) as u64) & 1 == 1
    }

    /// The number of bit slots since the last minute gap: the second of the minute.
    pub fn seconds(&self) -> (r: usize)
        ensures
            r == self@.datapos,
    {
        self.datapos
    }

    /// Takes in one sample of the receiver's output (`true` for high level).
    pub fn read_bit(&mut self, bit: bool)
        ensures
            final(self)@ == step(old(self)@, bit),
    {
        proof {
            use_type_invariant(&*self);
        }
        let mut scancount = self.scancount;
        let mut lowcount = self.lowcount;
        let mut highcount = self.highcount;
        let mut idlecount = self.idlecount;
        let mut data = self.data;
        let mut datapos = self.datapos;
        let state = match self.state {
            SimpleDCF77DecoderState::EndOfCycle
            | SimpleDCF77DecoderState::WaitingForPhase
            | SimpleDCF77DecoderState::FaultyBit => {
                if bit {
                    lowcount = 1;
                    highcount = 0;
                    scancount = 0;
                    SimpleDCF77DecoderState::PhaseFound
                } else if scancount > SILENCE_TICKS {
                    datapos = 0;
                    scancount = 0;
                    SimpleDCF77DecoderState::EndOfCycle
                } else {
                    SimpleDCF77DecoderState::WaitingForPhase
                }
            },
            SimpleDCF77DecoderState::PhaseFound => {
                if scancount < PULSE_WINDOW_TICKS {
                    if bit {
                        if scancount < HALF_WINDOW_TICKS {
                            lowcount = lowcount + 1;
                        } else {
                            highcount = highcount + 1;
                        }
                    }
                    SimpleDCF77DecoderState::PhaseFound
                } else {
                    let pos = datapos;
                    if datapos < usize::MAX {
                        datapos = datapos + 1;
                    }
                    if highcount > PULSE_THRESHOLD {
                        if pos < DATA_BITS {
                            data = data | (1u64 << pos as u64);
                        }
                        SimpleDCF77DecoderState::BitReceived
                    } else if lowcount > PULSE_THRESHOLD {
                        if pos < DATA_BITS {
                            data = data & !(1u64 << pos as u64);
                        }
                        SimpleDCF77DecoderState::BitReceived
                    } else {
                        SimpleDCF77DecoderState::FaultyBit
                    }
                }
            },
            SimpleDCF77DecoderState::BitReceived | SimpleDCF77DecoderState::Idle => {
                if bit {
                    idlecount = idlecount + 1;
                }
                if scancount >= SLOT_TICKS {
                    if idlecount > NOISE_THRESHOLD {
                        idlecount = 0;
                        scancount = 0;
                    }
                    SimpleDCF77DecoderState::WaitingForPhase
                } else {
                    SimpleDCF77DecoderState::Idle
                }
            },
        };
        *self = SimpleDCF77Decoder {
            scancount: scancount + 1,
            lowcount,
            highcount,
            idlecount,
            state,
            data,
            datapos,
        };
    }
}

} // verus!
