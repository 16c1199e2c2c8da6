//! One FM channel: four operators, their wiring, and their frequencies.

use vstd::prelude::*;
use crate::bits;
use crate::operator;
use crate::operator::{EnvelopeMove, OpOutput, Operator, OperatorState, Pitch};

verus! {

/// Operators (slots) of a channel.
pub const NUM_OP: usize = 4;

/// How the operators of a channel are wired.
#[derive(Clone, Copy, PartialEq, Eq, Debug)]
pub struct Routing {
    /// `inputs[to][from]`: operator `from` modulates the phase of operator `to`.
    pub inputs: [[bool; 4]; 4],
    /// The operators whose sum is the output of the channel.
    pub carriers: [bool; 4],
    /// The number by which that sum is divided.
    pub norm: u8,
}

/// What one operator does during one sample.
#[derive(Clone, Copy, PartialEq, Eq, Structural, Debug)]
pub struct SlotPlan {
    pub restart: bool,
    pub pitch: Pitch,
    pub output: Option<OpOutput>,
    pub envelope: EnvelopeMove,
}

/// What a channel does during one sample.
#[derive(Clone, Copy, PartialEq, Eq, Debug)]
pub struct ChannelPlan {
    /// The mean of the last two outputs of the first operator, times this
    /// number over 128, modulates that operator.
    pub feedback_num: u8,
    pub routing: Routing,
    pub slots: [SlotPlan; 4],
}

/// One FM channel.
#[derive(Clone, Copy, PartialEq, Eq, Debug)]
pub struct Channel {
    ops: [Operator; 4],
    algorithm: u8,  // 0..=7
    feedback: u8,  // 0..=7
    fnum: u16,
    block: u8,
    // Channel-3 "special mode" per-operator frequencies (slots S1,S2,S3;
    // S4 keeps using the normal fnum/block above).
    special_fnum: [u16; 3],
    special_block: [u8; 3],
    special_mode: bool,
}

/// Model of a channel.
#[verifier::ext_equal]
pub struct ChannelState {
    pub ops: Seq<OperatorState>,
    pub algorithm: u8,
    pub feedback: u8,
    pub fnum: u16,
    pub block: u8,
    pub special_fnum: Seq<u16>,
    pub special_block: Seq<u8>,
    pub special_mode: bool,
}

impl View for Channel {
    type V = ChannelState;

    closed spec fn view(&self) -> ChannelState {
        ChannelState {
            ops: Seq::new(4, |slot: int| self.ops[slot]@),
            algorithm: self.algorithm,
            feedback: self.feedback,
            fnum: self.fnum,
            block: self.block,
            special_fnum: self.special_fnum@,
            special_block: self.special_block@,
            special_mode: self.special_mode,
        }
    }
}

/// Whether operator `from` modulates operator `to` under an algorithm.
pub open spec fn modulates(algorithm: u8, from: int, to: int) -> bool {
    if algorithm == 0 {
        to == from + 1
    } else if algorithm == 1 {
        (from == 0 && to == 2) || (from == 1 && to == 2) || (from == 2 && to == 3)
    } else if algorithm == 2 {
        (from == 0 && to == 3) || (from == 1 && to == 2) || (from == 2 && to == 3)
    } else if algorithm == 3 {
        (from == 0 && to == 1) || (from == 1 && to == 3) || (from == 2 && to == 3)
    } else if algorithm == 4 {
        (from == 0 && to == 1) || (from == 2 && to == 3)
    } else if algorithm == 5 {
        from == 0 && to != 0
    } else if algorithm == 6 {
        from == 0 && to == 1
    } else {
        false
    }
}

/// Whether an operator is heard directly under an algorithm.
pub open spec fn is_carrier(algorithm: u8, slot: int) -> bool {
    if algorithm <= 3 {
        slot == 3
    } else if algorithm == 4 {
        slot == 1 || slot == 3
    } else if algorithm <= 6 {
        slot != 0
    } else {
        true
    }
}

/// How many operators are carriers under an algorithm.
pub open spec fn carrier_count(algorithm: u8) -> int {
    let one = |slot: int|
        if is_carrier(algorithm, slot) {
            1int
        } else {
            0int
        };
    one(0) + one(1) + one(2) + one(3)
}

impl Routing {
    /// Whether this is the wiring of an algorithm.
    pub open spec fn implements(self, algorithm: u8) -> bool {
        &&& forall|from: int, to: int|
            0 <= from < 4 && 0 <= to < 4 ==> #[trigger] self.inputs[to][from] == modulates(
                algorithm,
                from,
                to,
            )
        &&& forall|slot: int|
            0 <= slot < 4 ==> #[trigger] self.carriers[slot] == is_carrier(algorithm, slot)
        &&& self.norm == carrier_count(algorithm)
    }
}

/// The wiring of an algorithm. Numbers above 7 wire like 7.
pub fn routing(algorithm: u8) -> (wiring: Routing)
    ensures
        wiring.implements(algorithm),
{
    let none = [false, false, false, false];
    let s1 = [true, false, false, false];
    let s2 = [false, true, false, false];
    let s3 = [false, false, true, false];
    let s1_s2 = [true, true, false, false];
    let s1_s3 = [true, false, true, false];
    let s2_s3 = [false, true, true, false];
    let last = [false, false, false, true];
    let pairs = [false, true, false, true];
    let all_but_first = [false, true, true, true];
    let all = [true, true, true, true];
    match algorithm {
        0 => Routing { inputs: [none, s1, s2, s3], carriers: last, norm: 1 },
        1 => Routing { inputs: [none, none, s1_s2, s3], carriers: last, norm: 1 },
        2 => Routing { inputs: [none, none, s2, s1_s3], carriers: last, norm: 1 },
        3 => Routing { inputs: [none, s1, none, s2_s3], carriers: last, norm: 1 },
        4 => Routing { inputs: [none, s1, none, s3], carriers: pairs, norm: 2 },
        5 => Routing { inputs: [none, s1, s1, s1], carriers: all_but_first, norm: 3 },
        6 => Routing { inputs: [none, s1, none, none], carriers: all_but_first, norm: 3 },
        _ => Routing { inputs: [none, none, none, none], carriers: all, norm: 4 },
    }
}

/// An F-Number with a new low byte.
pub open spec fn low_byte_set(fnum: u16, data: u8) -> u16 {
    (((fnum / 256) % 8) * 256 + data) as u16
}

/// An F-Number with new bits 8 to 10.
pub open spec fn high_bits_set(fnum: u16, data: u8) -> u16 {
    ((data % 8) * 256 + fnum % 256) as u16
}

impl ChannelState {
    /// Every register field holds a value of its width.
    pub open spec fn wf(self) -> bool {
        &&& self.ops.len() == 4
        &&& forall|slot: int| 0 <= slot < 4 ==> (#[trigger] self.ops[slot]).wf()
        &&& self.algorithm <= 7
        &&& self.feedback <= 7
        &&& self.fnum <= 0x7FF
        &&& self.block <= 7
        &&& self.special_fnum.len() == 3
        &&& self.special_block.len() == 3
        &&& forall|slot: int| 0 <= slot < 3 ==> #[trigger] self.special_fnum[slot] <= 0x7FF
        &&& forall|slot: int| 0 <= slot < 3 ==> #[trigger] self.special_block[slot] <= 7
    }

    /// Every operator has the pitch that the registers and the clock ask for.
    pub open spec fn in_tune(self, clock: u32) -> bool {
        forall|slot: int|
            0 <= slot < 4 ==> (#[trigger] self.ops[slot]).pitch == self.ops[slot].pitch_at(
                self.slot_fnum(slot),
                self.slot_block(slot),
                clock,
            )
    }

    /// A channel after power-up.
    pub open spec fn initial() -> ChannelState {
        ChannelState {
            ops: Seq::new(4, |slot: int| OperatorState::initial()),
            algorithm: 0,
            feedback: 0,
            fnum: 0,
            block: 0,
            special_fnum: Seq::new(3, |slot: int| 0u16),
            special_block: Seq::new(3, |slot: int| 0u8),
            special_mode: false,
        }
    }

    /// The F-Number that an operator follows: its own in special mode, except
    /// for the last operator, else the channel's.
    pub open spec fn slot_fnum(self, slot: int) -> u16 {
        if self.special_mode && slot < 3 {
            self.special_fnum[slot]
        } else {
            self.fnum
        }
    }

    /// The block that an operator follows.
    pub open spec fn slot_block(self, slot: int) -> u8 {
        if self.special_mode && slot < 3 {
            self.special_block[slot]
        } else {
            self.block
        }
    }

    pub open spec fn slot_keycode(self, slot: int) -> u8 {
        operator::keycode_of(self.slot_block(slot), self.slot_fnum(slot))
    }

    /// This channel with every operator brought to its pitch.
    pub open spec fn tuned(self, clock: u32) -> ChannelState {
        ChannelState {
            ops: Seq::new(
                4,
                |slot: int|
                    self.ops[slot].tuned(self.slot_fnum(slot), self.slot_block(slot), clock),
            ),
            ..self
        }
    }

    /// This channel after a write to an operator register of bank `bank`.
    pub open spec fn op_written(self, slot: int, bank: u8, data: u8, clock: u32) -> ChannelState {
        let changed = ChannelState {
            ops: self.ops.update(slot, self.ops[slot].written(bank, data)),
            ..self
        };
        if bank == 3 {
            changed.tuned(clock)
        } else {
            changed
        }
    }

    /// This channel after a write of the low byte of its F-Number.
    pub open spec fn fnum_low_written(self, data: u8, clock: u32) -> ChannelState {
        ChannelState { fnum: low_byte_set(self.fnum, data), ..self }.tuned(clock)
    }

    /// This channel after a write of its block and the high bits of its F-Number.
    pub open spec fn fnum_high_written(self, data: u8, clock: u32) -> ChannelState {
        ChannelState {
            fnum: high_bits_set(self.fnum, data),
            block: (data / 8) % 8,
            ..self
        }.tuned(clock)
    }

    /// This channel after a write of the low byte of an operator's own F-Number.
    pub open spec fn special_low_written(self, slot: int, data: u8, clock: u32) -> ChannelState {
        ChannelState {
            special_fnum: self.special_fnum.update(
                slot,
                low_byte_set(self.special_fnum[slot], data),
            ),
            ..self
        }.tuned(clock)
    }

    /// This channel after a write of an operator's own block and the high
    /// bits of its own F-Number.
    pub open spec fn special_high_written(self, slot: int, data: u8, clock: u32) -> ChannelState {
        ChannelState {
            special_fnum: self.special_fnum.update(
                slot,
                high_bits_set(self.special_fnum[slot], data),
            ),
            special_block: self.special_block.update(slot, (data / 8) % 8),
            ..self
        }.tuned(clock)
    }

    /// This channel after a write of its algorithm and feedback.
    pub open spec fn algorithm_written(self, data: u8) -> ChannelState {
        ChannelState { algorithm: data % 8, feedback: (data / 8) % 8, ..self }
    }

    /// This channel with its operators' own frequencies turned on or off.
    pub open spec fn special(self, enabled: bool, clock: u32) -> ChannelState {
        ChannelState { special_mode: enabled, ..self }.tuned(clock)
    }

    /// This channel after a write to the key register: bit 4 + `slot` is the
    /// new key of each operator.
    pub open spec fn keyed(self, data: u8) -> ChannelState {
        ChannelState {
            ops: Seq::new(
                4,
                |slot: int|
                    if bits::bit(data, (4 + slot) as u8) {
                        self.ops[slot].keyed_on()
                    } else {
                        self.ops[slot].keyed_off()
                    },
            ),
            ..self
        }
    }

    /// This channel after a key-on and key-off pulse on every operator.
    pub open spec fn pulsed(self) -> ChannelState {
        ChannelState {
            ops: Seq::new(4, |slot: int| self.ops[slot].keyed_on().keyed_off()),
            ..self
        }
    }

    pub open spec fn slot_plan(self, slot: int) -> SlotPlan {
        SlotPlan {
            restart: self.ops[slot].restart,
            pitch: self.ops[slot].pitch,
            output: self.ops[slot].sounding(),
            envelope: self.ops[slot].envelope_moving(self.slot_keycode(slot)),
        }
    }

    /// This channel after one sample, where `reached[slot]` says whether the
    /// attenuation of that operator got to the end of its move.
    pub open spec fn advanced(self, reached: Seq<bool>) -> ChannelState {
        ChannelState {
            ops: Seq::new(
                4,
                |slot: int|
                    OperatorState {
                        restart: false,
                        ..self.ops[slot].enveloped(self.slot_keycode(slot), reached[slot])
                    },
            ),
            ..self
        }
    }

    /// The attenuations that this sample sets.
    pub open spec fn advanced_levels(self, reached: Seq<bool>) -> Seq<Option<u8>> {
        Seq::new(
            4,
            |slot: int| self.ops[slot].enveloped_level(self.slot_keycode(slot), reached[slot]),
        )
    }
}

/// A channel after power-up is in tune with any clock.
pub proof fn lemma_initial_in_tune(clock: u32)
    ensures
        ChannelState::initial().in_tune(clock),
{
    assert(0u16 * clock * bits::pow2(0) == 0) by (nonlinear_arith);
}

impl ChannelPlan {
    /// Whether this is the plan of a channel.
    pub open spec fn follows(self, channel: ChannelState) -> bool {
        &&& self.feedback_num == if channel.feedback == 0 {
            0
        } else {
            bits::pow2(channel.feedback as int)
        }
        &&& self.routing.implements(channel.algorithm)
        &&& forall|slot: int|
            0 <= slot < 4 ==> #[trigger] self.slots[slot] == channel.slot_plan(slot)
    }
}

impl Channel {
    pub fn new() -> (channel: Self)
        ensures
            channel@ == ChannelState::initial(),
            channel@.wf(),
    {
        let channel = Channel {
            ops: [Operator::new(), Operator::new(), Operator::new(), Operator::new()],
            algorithm: 0,
            feedback: 0,
            fnum: 0,
            block: 0,
            special_fnum: [0, 0, 0],
            special_block: [0, 0, 0],
            special_mode: false,
        };
        assert(channel@ =~= ChannelState::initial());
        channel
    }

    /// The registers and the running state of an operator.
    pub fn op(&self, slot: usize) -> (state: OperatorState)
        requires
            slot < 4,
        ensures
            state == self@.ops[slot as int],
    {
        self.ops[slot].state()
    }

    pub fn algorithm(&self) -> (algorithm: u8)
        ensures
            algorithm == self@.algorithm,
    {
        self.algorithm
    }

    pub fn feedback(&self) -> (feedback: u8)
        ensures
            feedback == self@.feedback,
    {
        self.feedback
    }

    /// Turns the operators' own frequencies on or off.
    pub fn set_special_mode(&mut self, enabled: bool, clock: u32)
        requires
            old(self)@.wf(),
        ensures
            final(self)@ == old(self)@.special(enabled, clock),
            final(self)@.wf(),
            final(self)@.in_tune(clock),
    {
        self.special_mode = enabled;
        self.update_freqs(clock);
    }

    /// Gives every operator the key that its bit of the key register asks for.
    pub fn key_control(&mut self, data: u8)
        requires
            old(self)@.wf(),
        ensures
            final(self)@ == old(self)@.keyed(data),
            final(self)@.wf(),
    {
        let ghost before = self@;
        for slot in 0..4usize
            invariant
                before.wf(),
                self@ == (ChannelState { ops: self@.ops, ..before }),
                forall|s: int|
                    0 <= s < slot ==> #[trigger] self.ops[s]@ == before.keyed(data).ops[s],
                forall|s: int| slot <= s < 4 ==> #[trigger] self.ops[s]@ == before.ops[s],
                self@.wf(),
        {
            assert(self@.ops[slot as int].wf());
            if bits::test_bit(data, 4 + slot as u8) {
                self.ops[slot].key_on();
            } else {
                self.ops[slot].key_off();
            }
        }
        assert(self@ =~= before.keyed(data));
    }

    /// The F-Number and the block that an operator follows.
    pub fn op_freq_source(&self, slot: usize) -> (source: (u16, u8))
        requires
            self@.wf(),
        ensures
            source == (self@.slot_fnum(slot as int), self@.slot_block(slot as int)),
    {
        if self.special_mode && slot < 3 {
            (self.special_fnum[slot], self.special_block[slot])
        } else {
            (self.fnum, self.block)
        }
    }

    /// Brings every operator to the pitch that the registers ask for.
    pub fn update_freqs(&mut self, clock: u32)
        requires
            old(self)@.wf(),
        ensures
            final(self)@ == old(self)@.tuned(clock),
            final(self)@.wf(),
            final(self)@.in_tune(clock),
    {
        let ghost before = self@;
        for slot in 0..4usize
            invariant
                before.wf(),
                self@ == (ChannelState { ops: self@.ops, ..before }),
                forall|s: int|
                    0 <= s < slot ==> #[trigger] self.ops[s]@ == before.ops[s].tuned(
                        before.slot_fnum(s),
                        before.slot_block(s),
                        clock,
                    ),
                forall|s: int| slot <= s < 4 ==> #[trigger] self.ops[s]@ == before.ops[s],
                self@.wf(),
        {
            let (fnum, block) = self.op_freq_source(slot);
            assert(self@.ops[slot as int].wf());
            self.ops[slot].set_freq(fnum, block, clock);
        }
        assert(self@ =~= before.tuned(clock));
    }

    /// Writes the operator register of bank `bank`. Bank 3 also changes the pitch.
    pub fn write_op(&mut self, slot: usize, bank: u8, data: u8, clock: u32)
        requires
            old(self)@.wf(),
            slot < 4,
        ensures
            final(self)@ == old(self)@.op_written(slot as int, bank, data, clock),
            final(self)@.wf(),
            old(self)@.in_tune(clock) ==> final(self)@.in_tune(clock),
    {
        let ghost before = self@;
        assert(before.ops[slot as int].wf());
        self.ops[slot].write(bank, data);
        assert(self@ =~= (ChannelState {
            ops: before.ops.update(slot as int, before.ops[slot as int].written(bank, data)),
            ..before
        }));
        if bank == 3 {
            self.update_freqs(clock);
        }
    }

    /// Writes the low byte of the F-Number.
    pub fn write_fnum_low(&mut self, data: u8, clock: u32)
        requires
            old(self)@.wf(),
        ensures
            final(self)@ == old(self)@.fnum_low_written(data, clock),
            final(self)@.wf(),
            final(self)@.in_tune(clock),
    {
        proof {
            bits::lemma_fnum_halves(self.fnum, data as u16, 0);
        }
        self.fnum = (self.fnum & 0x0700) | data as u16;
        self.update_freqs(clock);
    }

    /// Writes the block and the high bits of the F-Number.
    pub fn write_fnum_high(&mut self, data: u8, clock: u32)
        requires
            old(self)@.wf(),
        ensures
            final(self)@ == old(self)@.fnum_high_written(data, clock),
            final(self)@.wf(),
            final(self)@.in_tune(clock),
    {
        let high: u16 = (data & 0x07) as u16;
        proof {
            bits::lemma_byte_fields(data);
            bits::lemma_fnum_halves(self.fnum, 0, high);
        }
        self.fnum = (self.fnum & 0x00FF) | (high << 8u16);
        self.block = (data >> 3) & 0x07;
        self.update_freqs(clock);
    }

    /// Writes the low byte of an operator's own F-Number.
    pub fn write_special_low(&mut self, slot: usize, data: u8, clock: u32)
        requires
            old(self)@.wf(),
            slot < 3,
        ensures
            final(self)@ == old(self)@.special_low_written(slot as int, data, clock),
            final(self)@.wf(),
            final(self)@.in_tune(clock),
    {
        let ghost before = self@;
        let fnum: u16 = self.special_fnum[slot];
        proof {
            bits::lemma_fnum_halves(fnum, data as u16, 0);
        }
        self.special_fnum[slot] = (fnum & 0x0700) | data as u16;
        assert(self@ =~= (ChannelState {
            special_fnum: before.special_fnum.update(slot as int, low_byte_set(fnum, data)),
            ..before
        }));
        self.update_freqs(clock);
    }

    /// Writes an operator's own block and the high bits of its own F-Number.
    pub fn write_special_high(&mut self, slot: usize, data: u8, clock: u32)
        requires
            old(self)@.wf(),
            slot < 3,
        ensures
            final(self)@ == old(self)@.special_high_written(slot as int, data, clock),
            final(self)@.wf(),
            final(self)@.in_tune(clock),
    {
        let ghost before = self@;
        let fnum: u16 = self.special_fnum[slot];
        let high: u16 = (data & 0x07) as u16;
        proof {
            bits::lemma_byte_fields(data);
            bits::lemma_fnum_halves(fnum, 0, high);
        }
        self.special_fnum[slot] = (fnum & 0x00FF) | (high << 8u16);
        self.special_block[slot] = (data >> 3) & 0x07;
        assert(self@ =~= (ChannelState {
            special_fnum: before.special_fnum.update(slot as int, high_bits_set(fnum, data)),
            special_block: before.special_block.update(slot as int, (data / 8) % 8),
            ..before
        }));
        self.update_freqs(clock);
    }

    /// Writes the algorithm and the feedback.
    pub fn write_algorithm(&mut self, data: u8)
        requires
            old(self)@.wf(),
        ensures
            final(self)@ == old(self)@.algorithm_written(data),
            final(self)@.wf(),
    {
        proof {
            bits::lemma_byte_fields(data);
        }
        self.algorithm = data & 0x07;
        self.feedback = (data >> 3) & 0x07;
    }

    pub fn keycodes(&self) -> (codes: [u8; 4])
        requires
            self@.wf(),
        ensures
            forall|slot: int| 0 <= slot < 4 ==> #[trigger] codes[slot] == self@.slot_keycode(slot),
    {
        let mut codes = [0u8; 4];
        for slot in 0..4usize
            invariant
                self@.wf(),
                forall|s: int| 0 <= s < slot ==> #[trigger] codes[s] == self@.slot_keycode(s),
        {
            let (fnum, block) = self.op_freq_source(slot);
            codes[slot] = Operator::keycode(block, fnum);
        }
        codes
    }

    /// What this channel does during the next sample.
    pub fn render(&self) -> (plan: ChannelPlan)
        requires
            self@.wf(),
        ensures
            plan.follows(self@),
    {
        proof {
            bits::lemma_shl_one();
        }
        let feedback_num: u8 = if self.feedback == 0 {
            0
        } else {
            1u8 << self.feedback
        };
        let codes = self.keycodes();
        let slots = [
            self.plan_slot(0, codes[0]),
            self.plan_slot(1, codes[1]),
            self.plan_slot(2, codes[2]),
            self.plan_slot(3, codes[3]),
        ];
        ChannelPlan { feedback_num, routing: routing(self.algorithm), slots }
    }

    fn plan_slot(&self, slot: usize, keycode: u8) -> (plan: SlotPlan)
        requires
            self@.wf(),
            slot < 4,
            keycode == self@.slot_keycode(slot as int),
        ensures
            plan == self@.slot_plan(slot as int),
    {
        let op = &self.ops[slot];
        assert(op@ == self@.ops[slot as int]);
        let state = op.state();
        SlotPlan {
            restart: state.restart,
            pitch: state.pitch,
            output: op.output(),
            envelope: op.envelope_move(keycode),
        }
    }

    /// Ends one sample. `reached[slot]` says whether the attenuation of that
    /// operator got to the end of the move that the plan gave. Returns the
    /// attenuations, in dB, that are set.
    pub fn advance(&mut self, reached: [bool; 4]) -> (levels: [Option<u8>; 4])
        requires
            old(self)@.wf(),
        ensures
            final(self)@ == old(self)@.advanced(reached@),
            levels@ == old(self)@.advanced_levels(reached@),
            final(self)@.wf(),
    {
        let ghost before = self@;
        let codes = self.keycodes();
        let mut levels: [Option<u8>; 4] = [None, None, None, None];
        for slot in 0..4usize
            invariant
                before.wf(),
                forall|s: int| 0 <= s < 4 ==> #[trigger] codes[s] == before.slot_keycode(s),
                self@ == (ChannelState { ops: self@.ops, ..before }),
                forall|s: int|
                    0 <= s < slot ==> #[trigger] self.ops[s]@ == before.advanced(reached@).ops[s],
                forall|s: int|
                    0 <= s < slot ==> #[trigger] levels[s] == before.advanced_levels(reached@)[s],
                forall|s: int| slot <= s < 4 ==> #[trigger] self.ops[s]@ == before.ops[s],
                self@.wf(),
        {
            assert(self@.ops[slot as int].wf());
            let level = self.ops[slot].update_envelope(codes[slot], reached[slot]);
            levels[slot] = level;
            self.ops[slot].clear_restart();
        }
        assert(self@ =~= before.advanced(reached@));
        assert(levels@ =~= before.advanced_levels(reached@));
        levels
    }

    /// Fires a key-on and key-off pulse on all four operators. Timer A does
    /// so on channel 3 in CSM mode.
    pub fn csm_trigger(&mut self)
        requires
            old(self)@.wf(),
        ensures
            final(self)@ == old(self)@.pulsed(),
            final(self)@.wf(),
    {
        let ghost before = self@;
        for slot in 0..4usize
            invariant
                before.wf(),
                self@ == (ChannelState { ops: self@.ops, ..before }),
                forall|s: int|
                    0 <= s < slot ==> #[trigger] self.ops[s]@ == before.ops[s].keyed_on().keyed_off(),
                forall|s: int| slot <= s < 4 ==> #[trigger] self.ops[s]@ == before.ops[s],
                self@.wf(),
        {
            assert(self@.ops[slot as int].wf());
            self.ops[slot].key_on();
            self.ops[slot].key_off();
        }
        assert(self@ =~= before.pulsed());
    }
}

/// Modulation runs forward only, a carrier modulates nothing, and every
/// operator is heard: as a carrier or through one that it modulates.
pub proof fn law_routing_sound(algorithm: u8, from: int, to: int)
    requires
        0 <= from < 4,
        0 <= to < 4,
    ensures
        modulates(algorithm, from, to) ==> from < to,
        modulates(algorithm, from, to) ==> !is_carrier(algorithm, from),
        is_carrier(algorithm, from) || exists|next: int|
            from < next < 4 && modulates(algorithm, from, next),
        is_carrier(algorithm, 3),
        1 <= carrier_count(algorithm) <= 4,
{
    if !is_carrier(algorithm, from) {
        if from == 0 {
            assert(modulates(algorithm, 0, 1) || modulates(algorithm, 0, 2) || modulates(
                algorithm,
                0,
                3,
            ));
        } else if from == 1 {
            assert(modulates(algorithm, 1, 2) || modulates(algorithm, 1, 3));
        } else {
            assert(modulates(algorithm, 2, 3));
        }
    }
}

/// Tuning twice is tuning once, and a channel that is in tune stays as it is.
pub proof fn law_tuning_settles(channel: ChannelState, clock: u32)
    requires
        channel.wf(),
    ensures
        channel.tuned(clock).in_tune(clock),
        channel.tuned(clock).tuned(clock) == channel.tuned(clock),
        channel.in_tune(clock) ==> channel.tuned(clock) == channel,
{
    assert(channel.tuned(clock).tuned(clock) =~= channel.tuned(clock));
    if channel.in_tune(clock) {
        assert(channel.tuned(clock) =~= channel);
    }
}

/// The two halves of an F-Number can be written in either order: what counts
/// is the last value of each.
pub proof fn law_fnum_halves(channel: ChannelState, low: u8, high: u8, clock: u32)
    requires
        channel.wf(),
    ensures
        channel.fnum_high_written(high, clock).fnum_low_written(low, clock).fnum == (high % 8) * 256
            + low,
        channel.fnum_high_written(high, clock).block == (high / 8) % 8,
        channel.fnum_high_written(high, clock).fnum_low_written(low, clock)
            == channel.fnum_low_written(low, clock).fnum_high_written(high, clock),
{
    assert(channel.fnum_high_written(high, clock).fnum_low_written(low, clock)
        =~= channel.fnum_low_written(low, clock).fnum_high_written(high, clock));
}

/// In special mode the last operator still follows the channel's own
/// frequency, and in normal mode every operator does.
pub proof fn law_special_mode(channel: ChannelState, slot: int)
    requires
        channel.wf(),
        0 <= slot < 4,
    ensures
        channel.slot_fnum(3) == channel.fnum && channel.slot_block(3) == channel.block,
        !channel.special_mode ==> channel.slot_fnum(slot) == channel.fnum && channel.slot_block(
            slot,
        ) == channel.block,
        channel.special_mode && slot < 3 ==> channel.slot_fnum(slot) == channel.special_fnum[slot]
            && channel.slot_block(slot) == channel.special_block[slot],
{
}

/// Outside special mode a write of an operator's own frequency is not heard:
/// every operator stays as it is.
pub proof fn law_special_write_unheard(channel: ChannelState, slot: int, data: u8, clock: u32)
    requires
        channel.wf(),
        channel.in_tune(clock),
        !channel.special_mode,
        0 <= slot < 3,
    ensures
        channel.special_low_written(slot, data, clock).ops == channel.ops,
        channel.special_high_written(slot, data, clock).ops == channel.ops,
{
    assert(channel.special_low_written(slot, data, clock).ops =~= channel.ops);
    assert(channel.special_high_written(slot, data, clock).ops =~= channel.ops);
}

/// A write to a register of one operator leaves the others as they are.
pub proof fn law_operators_independent(
    channel: ChannelState,
    slot: int,
    other: int,
    bank: u8,
    data: u8,
    clock: u32,
)
    requires
        channel.wf(),
        channel.in_tune(clock),
        0 <= slot < 4,
        0 <= other < 4,
        other != slot,
    ensures
        channel.op_written(slot, bank, data, clock).ops[other] == channel.ops[other],
{
}

/// A key-on and key-off pulse leaves no key held; every operator that was not
/// held starts its waveform again, and all but those held in silence release.
pub proof fn law_pulse_releases(channel: ChannelState, slot: int)
    requires
        channel.wf(),
        0 <= slot < 4,
    ensures
        !channel.pulsed().ops[slot].key_on,
        !channel.ops[slot].key_on ==> channel.pulsed().ops[slot].restart
            && channel.pulsed().ops[slot].eg_phase == operator::EgPhase::Release,
        channel.ops[slot].key_on && !channel.ops[slot].silent()
            ==> channel.pulsed().ops[slot].eg_phase == operator::EgPhase::Release,
{
}

/// A restart of the waveform lasts for one sample.
pub proof fn law_restart_once(channel: ChannelState, reached: Seq<bool>, slot: int)
    requires
        0 <= slot < 4,
    ensures
        !channel.advanced(reached).ops[slot].restart,
{
}

/// Writing an operator register twice with the same value is writing it once.
pub proof fn law_op_write_idempotent(
    channel: ChannelState,
    slot: int,
    bank: u8,
    data: u8,
    clock: u32,
)
    requires
        channel.wf(),
        0 <= slot < 4,
    ensures
        channel.op_written(slot, bank, data, clock).op_written(slot, bank, data, clock)
            == channel.op_written(slot, bank, data, clock),
{
    let once = channel.op_written(slot, bank, data, clock);
    let twice = once.op_written(slot, bank, data, clock);
    assert forall|s: int| 0 <= s < 4 implies twice.ops[s] == once.ops[s] by {
        operator::law_operator_write_idempotent(
            channel.ops[s],
            bank,
            data,
            channel.slot_fnum(s),
            channel.slot_block(s),
            clock,
        );
    }
    assert(twice.ops =~= once.ops);
}

/// Writing a frequency register twice with the same value is writing it once.
pub proof fn law_fnum_write_idempotent(channel: ChannelState, data: u8, clock: u32)
    requires
        channel.wf(),
    ensures
        channel.fnum_low_written(data, clock).fnum_low_written(data, clock)
            == channel.fnum_low_written(data, clock),
        channel.fnum_high_written(data, clock).fnum_high_written(data, clock)
            == channel.fnum_high_written(data, clock),
{
    let low = channel.fnum_low_written(data, clock);
    assert(low.fnum_low_written(data, clock).ops =~= low.ops);
    let high = channel.fnum_high_written(data, clock);
    assert(high.fnum_high_written(data, clock).ops =~= high.ops);
}

/// Writing a register of an operator's own frequency twice with the same
/// value is writing it once.
pub proof fn law_special_write_idempotent(channel: ChannelState, slot: int, data: u8, clock: u32)
    requires
        channel.wf(),
        0 <= slot < 3,
    ensures
        channel.special_low_written(slot, data, clock).special_low_written(slot, data, clock)
            == channel.special_low_written(slot, data, clock),
        channel.special_high_written(slot, data, clock).special_high_written(slot, data, clock)
            == channel.special_high_written(slot, data, clock),
{
    let low = channel.special_low_written(slot, data, clock);
    assert(low.special_low_written(slot, data, clock).special_fnum =~= low.special_fnum);
    assert(low.special_low_written(slot, data, clock).ops =~= low.ops);
    let high = channel.special_high_written(slot, data, clock);
    assert(high.special_high_written(slot, data, clock).special_fnum =~= high.special_fnum);
    assert(high.special_high_written(slot, data, clock).special_block =~= high.special_block);
    assert(high.special_high_written(slot, data, clock).ops =~= high.ops);
}

/// The eight wirings, row by row: which operators modulate each operator,
/// which are heard, and by how many the sum is divided.
pub proof fn law_algorithms(wiring: Routing, algorithm: u8)
    requires
        wiring.implements(algorithm),
    ensures
        algorithm == 0 ==> {
            &&& wiring.inputs[0]@ == seq![false, false, false, false]
            &&& wiring.inputs[1]@ == seq![true, false, false, false]
            &&& wiring.inputs[2]@ == seq![false, true, false, false]
            &&& wiring.inputs[3]@ == seq![false, false, true, false]
            &&& wiring.carriers@ == seq![false, false, false, true]
            &&& wiring.norm == 1
        },
        algorithm == 1 ==> {
            &&& wiring.inputs[0]@ == seq![false, false, false, false]
            &&& wiring.inputs[1]@ == seq![false, false, false, false]
            &&& wiring.inputs[2]@ == seq![true, true, false, false]
            &&& wiring.inputs[3]@ == seq![false, false, true, false]
            &&& wiring.carriers@ == seq![false, false, false, true]
            &&& wiring.norm == 1
        },
        algorithm == 2 ==> {
            &&& wiring.inputs[0]@ == seq![false, false, false, false]
            &&& wiring.inputs[1]@ == seq![false, false, false, false]
            &&& wiring.inputs[2]@ == seq![false, true, false, false]
            &&& wiring.inputs[3]@ == seq![true, false, true, false]
            &&& wiring.carriers@ == seq![false, false, false, true]
            &&& wiring.norm == 1
        },
        algorithm == 3 ==> {
            &&& wiring.inputs[0]@ == seq![false, false, false, false]
            &&& wiring.inputs[1]@ == seq![true, false, false, false]
            &&& wiring.inputs[2]@ == seq![false, false, false, false]
            &&& wiring.inputs[3]@ == seq![false, true, true, false]
            &&& wiring.carriers@ == seq![false, false, false, true]
            &&& wiring.norm == 1
        },
        algorithm == 4 ==> {
            &&& wiring.inputs[0]@ == seq![false, false, false, false]
            &&& wiring.inputs[1]@ == seq![true, false, false, false]
            &&& wiring.inputs[2]@ == seq![false, false, false, false]
            &&& wiring.inputs[3]@ == seq![false, false, true, false]
            &&& wiring.carriers@ == seq![false, true, false, true]
            &&& wiring.norm == 2
        },
        algorithm == 5 ==> {
            &&& wiring.inputs[0]@ == seq![false, false, false, false]
            &&& wiring.inputs[1]@ == seq![true, false, false, false]
            &&& wiring.inputs[2]@ == seq![true, false, false, false]
            &&& wiring.inputs[3]@ == seq![true, false, false, false]
            &&& wiring.carriers@ == seq![false, true, true, true]
            &&& wiring.norm == 3
        },
        algorithm == 6 ==> {
            &&& wiring.inputs[0]@ == seq![false, false, false, false]
            &&& wiring.inputs[1]@ == seq![true, false, false, false]
            &&& wiring.inputs[2]@ == seq![false, false, false, false]
            &&& wiring.inputs[3]@ == seq![false, false, false, false]
            &&& wiring.carriers@ == seq![false, true, true, true]
            &&& wiring.norm == 3
        },
        algorithm >= 7 ==> {
            &&& wiring.inputs[0]@ == seq![false, false, false, false]
            &&& wiring.inputs[1]@ == seq![false, false, false, false]
            &&& wiring.inputs[2]@ == seq![false, false, false, false]
            &&& wiring.inputs[3]@ == seq![false, false, false, false]
            &&& wiring.carriers@ == seq![true, true, true, true]
            &&& wiring.norm == 4
        },
{
    assert forall|from: int, to: int| 0 <= from < 4 && 0 <= to < 4 implies
        #[trigger] wiring.inputs[to]@[from] == modulates(algorithm, from, to) by {
        assert(wiring.inputs[to][from] == modulates(algorithm, from, to));
    }
    assert forall|slot: int| 0 <= slot < 4 implies #[trigger] wiring.carriers@[slot] == is_carrier(
        algorithm,
        slot,
    ) by {
        assert(wiring.carriers[slot] == is_carrier(algorithm, slot));
    }
}

/// A plan hands on what the channel holds: the wiring of its algorithm, the
/// feedback (zero for none, else two to its number), and for every operator
/// its restart, its pitch, its output, and its envelope move at the keycode of
/// the frequency that it follows.
pub proof fn law_plan(plan: ChannelPlan, channel: ChannelState, slot: int)
    requires
        channel.wf(),
        plan.follows(channel),
        0 <= slot < 4,
    ensures
        plan.routing.implements(channel.algorithm),
        channel.feedback == 0 ==> plan.feedback_num == 0,
        channel.feedback != 0 ==> plan.feedback_num == 1u8 << channel.feedback,
        plan.slots[slot].restart == channel.ops[slot].restart,
        plan.slots[slot].pitch == channel.ops[slot].pitch,
        plan.slots[slot].output == channel.ops[slot].sounding(),
        channel.special_mode && slot < 3 ==> plan.slots[slot].envelope
            == channel.ops[slot].envelope_moving(
            operator::keycode_of(channel.special_block[slot], channel.special_fnum[slot]),
        ),
        !channel.special_mode || slot == 3 ==> plan.slots[slot].envelope
            == channel.ops[slot].envelope_moving(
            operator::keycode_of(channel.block, channel.fnum),
        ),
{
    bits::lemma_shl_one();
    assert(plan.slots[slot] == channel.slot_plan(slot));
}

/// Every operator follows one frequency: its own in special mode, but for the
/// last operator, else the channel's. Tuning brings each to it and changes
/// nothing else.
pub proof fn law_tuning(channel: ChannelState, clock: u32, slot: int)
    requires
        channel.wf(),
        0 <= slot < 4,
    ensures
        channel.special_mode && slot < 3 ==> channel.tuned(clock).ops[slot]
            == channel.ops[slot].tuned(
            channel.special_fnum[slot],
            channel.special_block[slot],
            clock,
        ),
        !channel.special_mode || slot == 3 ==> channel.tuned(clock).ops[slot]
            == channel.ops[slot].tuned(channel.fnum, channel.block, clock),
        channel.tuned(clock).ops.len() == 4,
        channel.tuned(clock) == (ChannelState { ops: channel.tuned(clock).ops, ..channel }),
{
}

/// An operator register reaches its operator alone, which also takes on its
/// new pitch if the register holds MUL and DT.
pub proof fn law_op_write(channel: ChannelState, slot: int, bank: u8, data: u8, clock: u32)
    requires
        channel.wf(),
        channel.in_tune(clock),
        0 <= slot < 4,
    ensures
        ({
            let later = channel.op_written(slot, bank, data, clock);
            &&& bank != 3 ==> later.ops == channel.ops.update(
                slot,
                channel.ops[slot].written(bank, data),
            )
            &&& bank == 3 ==> later.ops == channel.ops.update(
                slot,
                channel.ops[slot].written(bank, data).tuned(
                    channel.slot_fnum(slot),
                    channel.slot_block(slot),
                    clock,
                ),
            )
            &&& later == (ChannelState { ops: later.ops, ..channel })
        }),
{
    if bank == 3 {
        assert(channel.op_written(slot, bank, data, clock).ops =~= channel.ops.update(
            slot,
            channel.ops[slot].written(bank, data).tuned(
                channel.slot_fnum(slot),
                channel.slot_block(slot),
                clock,
            ),
        ));
    }
}

/// The low byte of the F-Number is replaced by a write of the low half, its
/// high bits and the block by one of the high half; the rest of the frequency
/// stays, and the operators take on the new pitch.
pub proof fn law_fnum_write(
    channel: ChannelState,
    data: u8,
    block: u8,
    high: u8,
    spare: u8,
    clock: u32,
)
    requires
        channel.wf(),
        block < 8,
        high < 8,
        spare < 4,
    ensures
        ({
            let low = channel.fnum_low_written(data, clock);
            &&& low.fnum % 256 == data
            &&& low.fnum / 256 == channel.fnum / 256
            &&& low == (ChannelState { fnum: low.fnum, ..channel }).tuned(clock)
        }),
        ({
            let top = channel.fnum_high_written((64 * spare + 8 * block + high) as u8, clock);
            &&& top.fnum % 256 == channel.fnum % 256
            &&& top.fnum / 256 == high
            &&& top.block == block
            &&& top == (ChannelState { fnum: top.fnum, block, ..channel }).tuned(clock)
        }),
{
    bits::lemma_packed(block, high, spare);
}

/// The same of an operator's own frequency; those of the other operators stay.
pub proof fn law_special_write(
    channel: ChannelState,
    slot: int,
    data: u8,
    block: u8,
    high: u8,
    spare: u8,
    clock: u32,
)
    requires
        channel.wf(),
        0 <= slot < 3,
        block < 8,
        high < 8,
        spare < 4,
    ensures
        ({
            let low = channel.special_low_written(slot, data, clock);
            let fnum = low.special_fnum[slot];
            &&& fnum % 256 == data
            &&& fnum / 256 == channel.special_fnum[slot] / 256
            &&& low == (ChannelState {
                special_fnum: channel.special_fnum.update(slot, fnum),
                ..channel
            }).tuned(clock)
        }),
        ({
            let top = channel.special_high_written(
                slot,
                (64 * spare + 8 * block + high) as u8,
                clock,
            );
            let fnum = top.special_fnum[slot];
            &&& fnum % 256 == channel.special_fnum[slot] % 256
            &&& fnum / 256 == high
            &&& top == (ChannelState {
                special_fnum: channel.special_fnum.update(slot, fnum),
                special_block: channel.special_block.update(slot, block),
                ..channel
            }).tuned(clock)
        }),
{
    bits::lemma_packed(block, high, spare);
    assert(channel.special_fnum[slot] <= 0x7FF);
}

/// The low three bits are the algorithm, the next three the feedback, and
/// nothing else changes.
pub proof fn law_algorithm_write(channel: ChannelState, algorithm: u8, feedback: u8, spare: u8)
    requires
        algorithm < 8,
        feedback < 8,
        spare < 4,
    ensures
        channel.algorithm_written((64 * spare + 8 * feedback + algorithm) as u8) == (ChannelState {
            algorithm,
            feedback,
            ..channel
        }),
{
    bits::lemma_packed(feedback, algorithm, spare);
}

/// Turning the operators' own frequencies on or off is heard at once, and
/// changes nothing but that and the pitches.
pub proof fn law_special_switch(channel: ChannelState, enabled: bool, clock: u32)
    requires
        channel.wf(),
    ensures
        channel.special(enabled, clock).special_mode == enabled,
        channel.special(enabled, clock) == (ChannelState { special_mode: enabled, ..channel }).tuned(
            clock,
        ),
{
}

/// The high four bits of the key register press or let go the four operators,
/// the lowest one the first; nothing else of the channel changes.
pub proof fn law_keys(channel: ChannelState, data: u8)
    requires
        channel.wf(),
    ensures
        channel.keyed(data).ops == seq![
            if data & 0x10 != 0 {
                channel.ops[0].keyed_on()
            } else {
                channel.ops[0].keyed_off()
            },
            if data & 0x20 != 0 {
                channel.ops[1].keyed_on()
            } else {
                channel.ops[1].keyed_off()
            },
            if data & 0x40 != 0 {
                channel.ops[2].keyed_on()
            } else {
                channel.ops[2].keyed_off()
            },
            if data & 0x80 != 0 {
                channel.ops[3].keyed_on()
            } else {
                channel.ops[3].keyed_off()
            },
        ],
        channel.keyed(data) == (ChannelState { ops: channel.keyed(data).ops, ..channel }),
{
    bits::law_bits_are_masks(data);
    assert(channel.keyed(data).ops =~= seq![
        if data & 0x10 != 0 {
            channel.ops[0].keyed_on()
        } else {
            channel.ops[0].keyed_off()
        },
        if data & 0x20 != 0 {
            channel.ops[1].keyed_on()
        } else {
            channel.ops[1].keyed_off()
        },
        if data & 0x40 != 0 {
            channel.ops[2].keyed_on()
        } else {
            channel.ops[2].keyed_off()
        },
        if data & 0x80 != 0 {
            channel.ops[3].keyed_on()
        } else {
            channel.ops[3].keyed_off()
        },
    ]);
}

/// A pulse presses every key and lets it go again, in one; nothing but the
/// operators changes.
pub proof fn law_pulse(channel: ChannelState, slot: int)
    requires
        channel.wf(),
        0 <= slot < 4,
    ensures
        channel.pulsed().ops.len() == 4,
        channel.pulsed().ops[slot] == channel.ops[slot].keyed_on().keyed_off(),
        channel.pulsed() == channel.keyed(0xF0).keyed(0x00),
        channel.pulsed() == (ChannelState { ops: channel.pulsed().ops, ..channel }),
{
    assert(channel.pulsed() =~= channel.keyed(0xF0).keyed(0x00));
}

/// A sample steps every operator by its own report, at the keycode of the
/// frequency that it follows, hands its level on, and ends its restart.
pub proof fn law_sample(channel: ChannelState, reached: Seq<bool>, slot: int)
    requires
        channel.wf(),
        reached.len() == 4,
        0 <= slot < 4,
    ensures
        ({
            let own = channel.special_mode && slot < 3;
            let keycode = operator::keycode_of(
                if own {
                    channel.special_block[slot]
                } else {
                    channel.block
                },
                if own {
                    channel.special_fnum[slot]
                } else {
                    channel.fnum
                },
            );
            let later = channel.advanced(reached);
            &&& later.ops.len() == 4
            &&& later.ops[slot] == (OperatorState {
                restart: false,
                ..channel.ops[slot].enveloped(keycode, reached[slot])
            })
            &&& later == (ChannelState { ops: later.ops, ..channel })
            &&& channel.advanced_levels(reached).len() == 4
            &&& channel.advanced_levels(reached)[slot] == channel.ops[slot].enveloped_level(
                keycode,
                reached[slot],
            )
        }),
{
}

/// After power-up a channel has no frequency, algorithm or feedback, no
/// operator of it has a frequency of its own, and all four are as after power-up.
pub proof fn law_power_up(slot: int)
    requires
        0 <= slot < 4,
    ensures
        ({
            let channel = ChannelState::initial();
            &&& channel.wf()
            &&& channel.ops[slot] == OperatorState::initial()
            &&& channel.fnum == 0 && channel.block == 0
            &&& channel.algorithm == 0 && channel.feedback == 0
            &&& !channel.special_mode
            &&& slot < 3 ==> channel.special_fnum[slot] == 0 && channel.special_block[slot] == 0
        }),
{
}

} // verus!
