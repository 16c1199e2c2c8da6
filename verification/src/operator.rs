//! One FM operator: its registers, its pitch, and its envelope generator.

use vstd::prelude::*;
use crate::bits;

verus! {

/// Attenuation, in dB, at which an operator counts as silent.
pub const MAX_ATTEN_DB: u8 = 96;

/// Phase of the envelope generator.
#[derive(Clone, Copy, PartialEq, Eq, Structural, Debug)]
pub enum EgPhase {
    Attack,
    Decay,
    Sustain,
    Release,
    /// At full volume, where SSG-EG holds the envelope while it is enabled.
    Hold,
    Off,
}

/// Frequency of an operator, as an exact multiple and a detune in cents:
/// `base * mul_x2 / (2 * 144 * 2^20)` Hz, raised by `cents`.
#[derive(Clone, Copy, PartialEq, Eq, Structural, Debug)]
pub struct Pitch {
    pub base: u64,
    pub mul_x2: u8,
    pub cents: i8,
}

/// What the attenuation of an operator does during one sample.
#[derive(Clone, Copy, PartialEq, Eq, Structural, Debug)]
pub enum EnvelopeMove {
    /// It keeps its value.
    Frozen,
    /// It falls towards full volume.
    Fall { rate: u8 },
    /// It rises until it reaches `target_db`.
    Rise { rate: u8, target_db: u8 },
}

/// How loud an operator sounds beside its envelope.
#[derive(Clone, Copy, PartialEq, Eq, Structural, Debug)]
pub struct OpOutput {
    /// Attenuation by the total level, in quarters of a dB.
    pub level_quarter_db: u16,
    /// Whether the waveform is turned upside down.
    pub invert: bool,
}

/// Registers and running state of an operator.
#[derive(Clone, Copy, PartialEq, Eq, Structural, Debug)]
pub struct OperatorState {
    // ---- register-controlled parameters ----
    pub mul: u8,  // 0..=15  (0 => x0.5)
    pub dt: u8,  // 0..=7   (detune, bit2 = sign)
    pub tl: u8,  // 0..=127 total level (0.75dB/step)
    pub ks: u8,  // 0..=3   key scale (rate scaling amount)
    pub ar: u8,  // 0..=31  attack rate
    pub dr: u8,  // 0..=31  decay rate (D1R)
    pub sr: u8,  // 0..=31  sustain rate (D2R)
    pub sl: u8,  // 0..=15  sustain level (D1L)
    pub rr: u8,  // 0..=15  release rate
    pub ssg_eg: u8,  // 0..=15  SSG-EG register (bit3 = enable, bits0-2 = mode)
    // ---- runtime state ----
    pub pitch: Pitch,
    pub eg_phase: EgPhase,
    pub key_on: bool,
    pub ssg_invert: bool,
    /// The waveform starts again from phase zero with the next sample.
    pub restart: bool,
}

/// One FM operator.
#[derive(Clone, Copy, PartialEq, Eq, Debug)]
pub struct Operator {
    state: OperatorState,
}

impl View for Operator {
    type V = OperatorState;

    closed spec fn view(&self) -> OperatorState {
        self.state
    }
}

/// Note group of the top four bits of an F-Number, for rate scaling: the
/// standard OPN keycode table.
pub open spec fn note_group(fnum: u16) -> u8 {
    let note = (fnum / 128) % 16;
    if note < 7 {
        0
    } else if note == 7 {
        1
    } else if note == 8 {
        2
    } else {
        3
    }
}

/// Keycode of a block and an F-Number: the octave, then the note group.
pub open spec fn keycode_of(block: u8, fnum: u16) -> u8 {
    (4 * (block % 8) + note_group(fnum)) as u8
}

/// Detune in cents: the two low bits of `dt` give the size, bit 2 the sign.
pub open spec fn detune_cents(dt: u8) -> i8 {
    let size: i8 = if dt % 4 == 0 {
        0
    } else if dt % 4 == 1 {
        6
    } else if dt % 4 == 2 {
        12
    } else {
        24
    };
    if bits::bit(dt, 2) {
        (-size) as i8
    } else {
        size
    }
}

impl OperatorState {
    /// Every register field holds a value of its width, and the envelope phase
    /// fits the key: a held key never releases, a released key only releases or rests.
    pub open spec fn wf(self) -> bool {
        &&& self.mul <= 15
        &&& self.dt <= 7
        &&& self.tl <= 127
        &&& self.ks <= 3
        &&& self.ar <= 31
        &&& self.dr <= 31
        &&& self.sr <= 31
        &&& self.sl <= 15
        &&& self.rr <= 15
        &&& self.ssg_eg <= 15
        &&& self.key_on ==> self.eg_phase != EgPhase::Release
        &&& !self.key_on ==> self.eg_phase == EgPhase::Release || self.eg_phase == EgPhase::Off
    }

    /// An operator after power-up: silent, with every register but the total level at zero.
    pub open spec fn initial() -> OperatorState {
        OperatorState {
            mul: 0,
            dt: 0,
            tl: 127,
            ks: 0,
            ar: 0,
            dr: 0,
            sr: 0,
            sl: 0,
            rr: 0,
            ssg_eg: 0,
            pitch: Pitch { base: 0, mul_x2: 1, cents: 0 },
            eg_phase: EgPhase::Off,
            key_on: false,
            ssg_invert: false,
            restart: false,
        }
    }

    /// This operator after a write to its register of bank `bank`, the high
    /// digit of the register address. Banks 3 to 9 hold operator registers.
    pub open spec fn written(self, bank: u8, data: u8) -> OperatorState {
        if bank == 3 {
            OperatorState { dt: (data / 16) % 8, mul: data % 16, ..self }
        } else if bank == 4 {
            OperatorState { tl: data % 128, ..self }
        } else if bank == 5 {
            OperatorState { ks: data / 64, ar: data % 32, ..self }
        } else if bank == 6 {
            OperatorState { dr: data % 32, ..self }
        } else if bank == 7 {
            OperatorState { sr: data % 32, ..self }
        } else if bank == 8 {
            OperatorState { sl: data / 16, rr: data % 16, ..self }
        } else if bank == 9 {
            OperatorState { ssg_eg: data % 16, ..self }
        } else {
            self
        }
    }

    /// Pitch of this operator at an F-Number, a block and a clock.
    pub open spec fn pitch_at(self, fnum: u16, block: u8, clock: u32) -> Pitch {
        Pitch {
            base: (fnum * clock * bits::pow2((block % 8) as int)) as u64,
            mul_x2: if self.mul == 0 {
                1
            } else {
                (2 * self.mul) as u8
            },
            cents: detune_cents(self.dt),
        }
    }

    pub open spec fn tuned(self, fnum: u16, block: u8, clock: u32) -> OperatorState {
        OperatorState { pitch: self.pitch_at(fnum, block, clock), ..self }
    }

    pub open spec fn keyed_on(self) -> OperatorState {
        if self.key_on {
            self
        } else {
            OperatorState {
                key_on: true,
                eg_phase: EgPhase::Attack,
                ssg_invert: false,
                restart: true,
                ..self
            }
        }
    }

    pub open spec fn keyed_off(self) -> OperatorState {
        if self.key_on {
            OperatorState {
                key_on: false,
                eg_phase: if self.silent() {
                    EgPhase::Off
                } else {
                    EgPhase::Release
                },
                ..self
            }
        } else {
            self
        }
    }

    /// A rate after rate scaling: twice the register value, plus the keycode
    /// divided by 8, 4, 2 or 1 as key scale asks, at most 63. Rate 0 stays 0.
    pub open spec fn scaled_rate(self, base_rate: u8, keycode: u8) -> u8 {
        let scale = if self.ks == 0 {
            keycode / 8
        } else if self.ks == 1 {
            keycode / 4
        } else if self.ks == 2 {
            keycode / 2
        } else {
            keycode
        };
        if base_rate == 0 {
            0
        } else if 2 * base_rate + scale < 63 {
            (2 * base_rate + scale) as u8
        } else {
            63
        }
    }

    /// Attenuation at which the decay ends: 3 dB per step, 93 dB at the last.
    pub open spec fn sustain_db(self) -> u8 {
        if self.sl == 15 {
            93
        } else {
            (3 * self.sl) as u8
        }
    }

    /// Rate at which the attenuation moves in the present phase.
    pub open spec fn envelope_rate(self, keycode: u8) -> u8 {
        match self.eg_phase {
            EgPhase::Attack => self.scaled_rate(self.ar, keycode),
            EgPhase::Decay => self.scaled_rate(self.dr, keycode),
            EgPhase::Sustain => self.scaled_rate(self.sr, keycode),
            EgPhase::Release => self.scaled_rate((2 * self.rr + 1) as u8, keycode),
            EgPhase::Hold | EgPhase::Off => 0,
        }
    }

    /// How the attenuation moves during one sample of the present phase.
    pub open spec fn envelope_moving(self, keycode: u8) -> EnvelopeMove {
        let rate = self.envelope_rate(keycode);
        if rate == 0 {
            EnvelopeMove::Frozen
        } else {
            match self.eg_phase {
                EgPhase::Attack => EnvelopeMove::Fall { rate },
                EgPhase::Decay => EnvelopeMove::Rise { rate, target_db: self.sustain_db() },
                _ => EnvelopeMove::Rise { rate, target_db: MAX_ATTEN_DB },
            }
        }
    }

    /// Whether the SSG-EG acts when the envelope has run out.
    pub open spec fn ssg_active(self) -> bool {
        bits::bit(self.ssg_eg, 3) && self.key_on
    }

    /// Whether the SSG-EG then holds the envelope instead of starting it again.
    pub open spec fn ssg_holds(self) -> bool {
        bits::bit(self.ssg_eg, 0) && !bits::bit(self.ssg_eg, 1)
    }

    /// This operator after the SSG-EG has seen an envelope that ran out. It
    /// holds at full volume with the attack bit (2), else at silence.
    pub open spec fn looped(self) -> OperatorState {
        if !self.ssg_active() {
            self
        } else if self.ssg_holds() {
            OperatorState {
                eg_phase: if bits::bit(self.ssg_eg, 2) {
                    EgPhase::Hold
                } else {
                    EgPhase::Off
                },
                ..self
            }
        } else {
            OperatorState {
                eg_phase: EgPhase::Attack,
                ssg_invert: self.ssg_invert != bits::bit(self.ssg_eg, 1),
                ..self
            }
        }
    }

    /// The attenuation that the SSG-EG then sets, if any.
    pub open spec fn loop_level(self) -> Option<u8> {
        if !self.ssg_active() {
            None
        } else if self.ssg_holds() && !bits::bit(self.ssg_eg, 2) {
            Some(MAX_ATTEN_DB)
        } else {
            Some(0)
        }
    }

    /// Whether SSG-EG was turned off while it held the envelope at full volume.
    pub open spec fn hold_lost(self) -> bool {
        self.eg_phase == EgPhase::Hold && !bits::bit(self.ssg_eg, 3)
    }

    /// Whether nothing sounds: the envelope is off, or nothing holds it any more.
    pub open spec fn silent(self) -> bool {
        self.eg_phase == EgPhase::Off || self.hold_lost()
    }

    /// Whether the envelope has run through, so that SSG-EG decides.
    pub open spec fn ran_out(self) -> bool {
        self.eg_phase == EgPhase::Off || self.eg_phase == EgPhase::Hold
    }

    /// This operator after one sample, where `reached` says whether the
    /// attenuation got to the end of its move.
    pub open spec fn enveloped(self, keycode: u8, reached: bool) -> OperatorState {
        if self.hold_lost() {
            OperatorState { eg_phase: EgPhase::Off, ..self }
        } else if self.ran_out() {
            self.looped()
        } else if self.envelope_moving(keycode) == EnvelopeMove::Frozen || !reached {
            self
        } else {
            match self.eg_phase {
                EgPhase::Attack => OperatorState { eg_phase: EgPhase::Decay, ..self },
                EgPhase::Decay => OperatorState { eg_phase: EgPhase::Sustain, ..self },
                _ => OperatorState { eg_phase: EgPhase::Off, ..self }.looped(),
            }
        }
    }

    /// The attenuation that this sample sets, if any.
    pub open spec fn enveloped_level(self, keycode: u8, reached: bool) -> Option<u8> {
        if self.hold_lost() {
            Some(MAX_ATTEN_DB)
        } else if self.ran_out() {
            self.loop_level()
        } else if self.envelope_moving(keycode) == EnvelopeMove::Frozen || !reached {
            None
        } else {
            match self.eg_phase {
                EgPhase::Attack => Some(0),
                EgPhase::Decay => Some(self.sustain_db()),
                _ => if self.ssg_active() {
                    self.loop_level()
                } else {
                    Some(MAX_ATTEN_DB)
                },
            }
        }
    }

    /// What the operator adds to its envelope, `None` while it is silent.
    pub open spec fn sounding(self) -> Option<OpOutput> {
        if self.silent() {
            None
        } else {
            Some(OpOutput { level_quarter_db: (3 * self.tl) as u16, invert: self.ssg_invert })
        }
    }
}

impl Operator {
    pub fn new() -> (op: Self)
        ensures
            op@ == OperatorState::initial(),
            op@.wf(),
    {
        Operator {
            state: OperatorState {
                mul: 0,
                dt: 0,
                tl: 127,
                ks: 0,
                ar: 0,
                dr: 0,
                sr: 0,
                sl: 0,
                rr: 0,
                ssg_eg: 0,
                pitch: Pitch { base: 0, mul_x2: 1, cents: 0 },
                eg_phase: EgPhase::Off,
                key_on: false,
                ssg_invert: false,
                restart: false,
            },
        }
    }

    /// The registers and the running state of this operator.
    pub fn state(&self) -> (state: OperatorState)
        ensures
            state == self@,
    {
        self.state
    }

    /// Writes the register of bank `bank`.
    pub fn write(&mut self, bank: u8, data: u8)
        requires
            old(self)@.wf(),
        ensures
            final(self)@ == old(self)@.written(bank, data),
            final(self)@.wf(),
    {
        proof {
            bits::lemma_byte_fields(data);
        }
        match bank {
            3 => {
                self.state.dt = (data >> 4) & 0x07;
                self.state.mul = data & 0x0F;
            },
            4 => {
                self.state.tl = data & 0x7F;
            },
            5 => {
                self.state.ks = (data >> 6) & 0x03;
                self.state.ar = data & 0x1F;
            },
            6 => {
                // bit7 = AM enable; the YM2203 has no LFO, so AM has no
                // audible effect here and is accepted but ignored.
                self.state.dr = data & 0x1F;
            },
            7 => {
                self.state.sr = data & 0x1F;
            },
            8 => {
                self.state.sl = (data >> 4) & 0x0F;
                self.state.rr = data & 0x0F;
            },
            9 => {
                self.state.ssg_eg = data & 0x0F;
            },
            _ => {},
        }
    }

    /// Keycode used for envelope rate scaling.
    pub fn keycode(block: u8, fnum: u16) -> (code: u8)
        ensures
            code == keycode_of(block, fnum),
            code <= 31,
    {
        proof {
            bits::lemma_byte_fields(block);
            bits::lemma_fnum_note(fnum);
        }
        let note4: u16 = (fnum >> 7) & 0xF;
        let group: u8 = if note4 < 7 {
            0
        } else if note4 == 7 {
            1
        } else if note4 == 8 {
            2
        } else {
            3
        };
        let octave: u8 = block & 7;
        proof {
            bits::lemma_keycode(octave, group);
        }
        (octave << 2) | group
    }

    /// Recomputes the pitch from the channel's F-Number and block and from
    /// this operator's own MUL and DT, by the OPN frequency formula
    /// `f = fnum * clock * 2^block / (144 * 2^20)`.
    pub fn set_freq(&mut self, fnum: u16, block: u8, clock: u32)
        requires
            old(self)@.wf(),
        ensures
            final(self)@ == old(self)@.tuned(fnum, block, clock),
            final(self)@.pitch.base == fnum * clock * bits::pow2((block % 8) as int),
            final(self)@.wf(),
    {
        let octave: u8 = block & 7;
        proof {
            bits::lemma_byte_fields(block);
            bits::lemma_byte_fields(self.state.dt);
            bits::lemma_shl_one();
            assert(fnum * clock <= 0xFFFF * 0xFFFF_FFFF) by (nonlinear_arith)
                requires
                    fnum <= 0xFFFF,
                    clock <= 0xFFFF_FFFF,
            ;
            assert(fnum * clock * bits::pow2(octave as int) <= 0xFFFF * 0xFFFF_FFFF * 128)
                by (nonlinear_arith)
                requires
                    0 <= fnum * clock <= 0xFFFF * 0xFFFF_FFFF,
                    0 <= bits::pow2(octave as int) <= 128,
            ;
        }
        let base: u64 = (fnum as u64) * (clock as u64) * (1u64 << octave);
        let mul_x2: u8 = if self.state.mul == 0 {
            1
        } else {
            self.state.mul * 2
        };
        let size: i8 = match self.state.dt & 3 {
            0 => 0,
            1 => 6,
            2 => 12,
            _ => 24,
        };
        let cents: i8 = if bits::test_bit(self.state.dt, 2) {
            -size
        } else {
            size
        };
        self.state.pitch = Pitch { base, mul_x2, cents };
    }

    /// Presses the key: the attack begins and the waveform starts again from
    /// phase zero. A key that is already held stays as it is.
    pub fn key_on(&mut self)
        requires
            old(self)@.wf(),
        ensures
            final(self)@ == old(self)@.keyed_on(),
            final(self)@.wf(),
    {
        if !self.state.key_on {
            self.state.key_on = true;
            self.state.eg_phase = EgPhase::Attack;
            self.state.ssg_invert = false;
            self.state.restart = true;
        }
    }

    /// Lets the key go: the release begins, unless the operator is already silent.
    pub fn key_off(&mut self)
        requires
            old(self)@.wf(),
        ensures
            final(self)@ == old(self)@.keyed_off(),
            final(self)@.wf(),
    {
        if self.state.key_on {
            self.state.key_on = false;
            self.state.eg_phase = if self.is_silent() {
                EgPhase::Off
            } else {
                EgPhase::Release
            };
        }
    }

    /// Whether SSG-EG was turned off while it held the envelope at full volume.
    fn has_lost_hold(&self) -> (lost: bool)
        ensures
            lost == self@.hold_lost(),
    {
        self.state.eg_phase == EgPhase::Hold && !bits::test_bit(self.state.ssg_eg, 3)
    }

    fn is_silent(&self) -> (silent: bool)
        ensures
            silent == self@.silent(),
    {
        self.state.eg_phase == EgPhase::Off || self.has_lost_hold()
    }

    pub fn effective_rate(&self, base_rate: u8, keycode: u8) -> (rate: u8)
        requires
            self@.wf(),
        ensures
            rate == self@.scaled_rate(base_rate, keycode),
    {
        if base_rate == 0 {
            return 0;
        }
        let ks_shift: u8 = 3 - self.state.ks;
        proof {
            bits::lemma_rate_shift(keycode);
        }
        let ks_scale: u8 = keycode >> ks_shift;
        let rate: u16 = (base_rate as u16) * 2 + (ks_scale as u16);
        if rate < 63 {
            rate as u8
        } else {
            63
        }
    }

    pub fn sustain_level_db(&self) -> (db: u8)
        requires
            self@.wf(),
        ensures
            db == self@.sustain_db(),
    {
        if self.state.sl == 15 {
            93
        } else {
            self.state.sl * 3
        }
    }

    /// The move of the attenuation that the next sample makes.
    pub fn envelope_move(&self, keycode: u8) -> (next: EnvelopeMove)
        requires
            self@.wf(),
        ensures
            next == self@.envelope_moving(keycode),
    {
        let rate: u8 = match self.state.eg_phase {
            EgPhase::Attack => self.effective_rate(self.state.ar, keycode),
            EgPhase::Decay => self.effective_rate(self.state.dr, keycode),
            EgPhase::Sustain => self.effective_rate(self.state.sr, keycode),
            // The release always progresses, at rate 2 * RR + 1 before scaling.
            EgPhase::Release => self.effective_rate(self.state.rr * 2 + 1, keycode),
            EgPhase::Hold | EgPhase::Off => 0,
        };
        if rate == 0 {
            return EnvelopeMove::Frozen;
        }
        match self.state.eg_phase {
            EgPhase::Attack => EnvelopeMove::Fall { rate },
            EgPhase::Decay => EnvelopeMove::Rise { rate, target_db: self.sustain_level_db() },
            _ => EnvelopeMove::Rise { rate, target_db: MAX_ATTEN_DB },
        }
    }

    /// SSG-EG envelope looping. When the envelope reaches silence while the
    /// key is held and SSG-EG is enabled, the envelope starts again, upside
    /// down every other time if the alternate bit is set. With hold and
    /// without alternate it is held instead, at full volume or at silence
    /// depending on the attack polarity. Returns the attenuation, in dB, that
    /// is set, if any.
    pub fn handle_ssg_eg_loop(&mut self) -> (level: Option<u8>)
        requires
            old(self)@.wf(),
        ensures
            final(self)@ == old(self)@.looped(),
            level == old(self)@.loop_level(),
            old(self)@.ssg_active() && old(self)@.ssg_holds() && bits::bit(old(self)@.ssg_eg, 2)
                ==> level == Some(0u8) && final(self)@.sounding() is Some,
            final(self)@.wf(),
    {
        let enable = bits::test_bit(self.state.ssg_eg, 3);
        if !enable || !self.state.key_on {
            return None;
        }
        let attack = bits::test_bit(self.state.ssg_eg, 2);
        let alternate = bits::test_bit(self.state.ssg_eg, 1);
        let hold = bits::test_bit(self.state.ssg_eg, 0);
        if hold && !alternate {
            if attack {
                self.state.eg_phase = EgPhase::Hold;
                return Some(0);
            }
            self.state.eg_phase = EgPhase::Off;
            return Some(MAX_ATTEN_DB);
        }
        if alternate {
            self.state.ssg_invert = !self.state.ssg_invert;
        }
        self.state.eg_phase = EgPhase::Attack;
        Some(0)
    }

    /// Ends one sample of the envelope. `reached` says whether the move that
    /// [`Operator::envelope_move`] gave has reached its end: full volume for a
    /// fall, the target for a rise. Returns the attenuation, in dB, that is
    /// set, if any.
    pub fn update_envelope(&mut self, keycode: u8, reached: bool) -> (level: Option<u8>)
        requires
            old(self)@.wf(),
        ensures
            final(self)@ == old(self)@.enveloped(keycode, reached),
            level == old(self)@.enveloped_level(keycode, reached),
            final(self)@.wf(),
    {
        if self.has_lost_hold() {
            self.state.eg_phase = EgPhase::Off;
            return Some(MAX_ATTEN_DB);
        }
        if self.state.eg_phase == EgPhase::Off || self.state.eg_phase == EgPhase::Hold {
            return self.handle_ssg_eg_loop();
        }
        if self.envelope_move(keycode) == EnvelopeMove::Frozen || !reached {
            return None;
        }
        match self.state.eg_phase {
            EgPhase::Attack => {
                self.state.eg_phase = EgPhase::Decay;
                Some(0)
            },
            EgPhase::Decay => {
                self.state.eg_phase = EgPhase::Sustain;
                Some(self.sustain_level_db())
            },
            _ => {
                self.state.eg_phase = EgPhase::Off;
                match self.handle_ssg_eg_loop() {
                    Some(level) => Some(level),
                    None => Some(MAX_ATTEN_DB),
                }
            },
        }
    }

    /// How this operator sounds: silent when its envelope is off or no longer
    /// held, else attenuated by 0.75 dB per step of the total level.
    pub fn output(&self) -> (out: Option<OpOutput>)
        ensures
            out == self@.sounding(),
    {
        if self.is_silent() {
            return None;
        }
        Some(OpOutput { level_quarter_db: (self.state.tl as u16) * 3, invert: self.state.ssg_invert })
    }

    /// Ends the sample in which the waveform started again.
    pub fn clear_restart(&mut self)
        ensures
            final(self)@ == (OperatorState { restart: false, ..old(self)@ }),
            old(self)@.wf() ==> final(self)@.wf(),
    {
        self.state.restart = false;
    }
}

/// Writing a register twice with the same value is writing it once, also
/// when the operator is tuned in between.
pub proof fn law_operator_write_idempotent(
    op: OperatorState,
    bank: u8,
    data: u8,
    fnum: u16,
    block: u8,
    clock: u32,
)
    ensures
        op.written(bank, data).written(bank, data) == op.written(bank, data),
        op.written(bank, data).tuned(fnum, block, clock).written(bank, data) == op.written(
            bank,
            data,
        ).tuned(fnum, block, clock),
        op.tuned(fnum, block, clock).tuned(fnum, block, clock) == op.tuned(fnum, block, clock),
{
}

/// A detune of the other sign shifts the pitch by as many cents the other
/// way, and a larger size never shifts it by less.
pub proof fn law_detune_symmetric(dt: u8)
    requires
        dt < 4,
    ensures
        detune_cents((dt + 4) as u8) == -detune_cents(dt),
        detune_cents(dt) >= 0,
        dt > 0 ==> detune_cents((dt - 1) as u8) < detune_cents(dt),
{
}

/// One block higher is one octave higher, exactly.
pub proof fn law_octave(op: OperatorState, fnum: u16, block: u8, clock: u32)
    requires
        block < 7,
    ensures
        op.pitch_at(fnum, (block + 1) as u8, clock).base == 2 * op.pitch_at(
            fnum,
            block,
            clock,
        ).base,
{
    lemma_base_exact(op, fnum, block, clock);
    lemma_base_exact(op, fnum, (block + 1) as u8, clock);
    assert(fnum * clock * (2 * bits::pow2(block as int)) == 2 * (fnum * clock * bits::pow2(
        block as int,
    ))) by (nonlinear_arith);
}

/// The base of a pitch fits its word, so it is the exact product.
pub proof fn lemma_base_exact(op: OperatorState, fnum: u16, block: u8, clock: u32)
    ensures
        op.pitch_at(fnum, block, clock).base == fnum * clock * bits::pow2((block % 8) as int),
{
    let octave = bits::pow2((block % 8) as int);
    assert(0 <= fnum * clock * octave <= 0xFFFF * 0xFFFF_FFFF * 128) by (nonlinear_arith)
        requires
            fnum <= 0xFFFF,
            clock <= 0xFFFF_FFFF,
            0 <= octave <= 128,
    ;
}

/// The pitch is proportional to the F-Number and to the clock.
pub proof fn law_pitch_proportional(op: OperatorState, fnum: u16, block: u8, clock: u32, k: nat)
    ensures
        k * fnum <= u16::MAX ==> op.pitch_at((k * fnum) as u16, block, clock).base == k
            * op.pitch_at(fnum, block, clock).base,
        k * clock <= u32::MAX ==> op.pitch_at(fnum, block, (k * clock) as u32).base == k
            * op.pitch_at(fnum, block, clock).base,
{
    let octave = bits::pow2((block % 8) as int);
    lemma_base_exact(op, fnum, block, clock);
    if k * fnum <= u16::MAX {
        lemma_base_exact(op, (k * fnum) as u16, block, clock);
        assert((k * fnum) * clock * octave == k * (fnum * clock * octave)) by (nonlinear_arith);
    }
    if k * clock <= u32::MAX {
        lemma_base_exact(op, fnum, block, (k * clock) as u32);
        assert(fnum * (k * clock) * octave == k * (fnum * clock * octave)) by (nonlinear_arith);
    }
}

/// A rate of zero stays zero, any other is at least 2 and at most 63, and a
/// larger rate or a higher key never makes the envelope slower.
pub proof fn law_rate_scaling(op: OperatorState, rate: u8, faster: u8, key: u8, higher: u8)
    requires
        op.wf(),
        rate <= faster,
        key <= higher,
    ensures
        op.scaled_rate(rate, key) == 0 <==> rate == 0,
        rate != 0 ==> 2 <= op.scaled_rate(rate, key) <= 63,
        op.scaled_rate(rate, key) <= op.scaled_rate(faster, higher),
{
}

/// The release always progresses, and it ends in silence.
pub proof fn law_release_progresses(op: OperatorState, keycode: u8)
    requires
        op.wf(),
        op.eg_phase == EgPhase::Release,
    ensures
        op.envelope_moving(keycode) matches EnvelopeMove::Rise { rate, target_db } && rate >= 2
            && target_db == MAX_ATTEN_DB,
        op.enveloped(keycode, false) == op,
        op.enveloped(keycode, true) == (OperatorState { eg_phase: EgPhase::Off, ..op }),
        op.enveloped_level(keycode, true) == Some(MAX_ATTEN_DB),
{
}

/// An operator after one sample for each entry of `reached`, at the keycodes
/// that its channel has in those samples.
pub open spec fn enveloped_run(
    op: OperatorState,
    keycodes: Seq<u8>,
    reached: Seq<bool>,
) -> OperatorState
    recommends
        keycodes.len() == reached.len(),
    decreases reached.len(),
{
    if reached.len() == 0 {
        op
    } else {
        enveloped_run(op, keycodes.drop_last(), reached.drop_last()).enveloped(
            keycodes.last(),
            reached.last(),
        )
    }
}

/// After a key is let go, the operator releases until its attenuation has
/// once reached silence, and is off from then on, whatever frequencies its
/// channel takes on meanwhile.
pub proof fn law_key_off_ends_in_silence(
    op: OperatorState,
    keycodes: Seq<u8>,
    reached: Seq<bool>,
)
    requires
        op.wf(),
        keycodes.len() == reached.len(),
    ensures
        ({
            let later = enveloped_run(op.keyed_off(), keycodes, reached);
            &&& later.wf()
            &&& !later.key_on
            &&& reached.contains(true) ==> later.eg_phase == EgPhase::Off && later.sounding() is None
            &&& !reached.contains(true) ==> later == op.keyed_off()
        }),
    decreases reached.len(),
{
    if reached.len() > 0 {
        let front = reached.drop_last();
        law_key_off_ends_in_silence(op, keycodes.drop_last(), front);
        if front.contains(true) {
            let i = front.index_of(true);
            assert(reached[i]);
        }
        if reached.last() {
            assert(reached[reached.len() - 1]);
        }
        if reached.contains(true) && !reached.last() {
            let i = reached.index_of(true);
            assert(front[i]);
        }
    }
}

/// An operator that is silent and not keyed stays as it is.
pub proof fn law_silence_lasts(op: OperatorState, keycode: u8, reached: bool)
    requires
        op.eg_phase == EgPhase::Off,
        !op.key_on,
    ensures
        op.sounding() is None,
        op.enveloped(keycode, reached) == op,
        op.enveloped_level(keycode, reached) is None,
{
}

/// With attack rate zero the attack never progresses.
pub proof fn law_zero_attack_never_ends(op: OperatorState, keycode: u8, reached: bool)
    requires
        op.eg_phase == EgPhase::Attack,
        op.ar == 0,
    ensures
        op.envelope_moving(keycode) == EnvelopeMove::Frozen,
        op.enveloped(keycode, reached) == op,
        op.enveloped_level(keycode, reached) is None,
{
}

/// Pressing a held key or letting go a free one changes nothing.
pub proof fn law_key_idempotent(op: OperatorState)
    ensures
        op.keyed_on().keyed_on() == op.keyed_on(),
        op.keyed_off().keyed_off() == op.keyed_off(),
        op.keyed_on().key_on,
        !op.keyed_off().key_on,
{
}

/// While the key is held and SSG-EG is on, unless it holds, an envelope that
/// reaches silence starts again: silence does not last.
pub proof fn law_ssg_eg_loops(op: OperatorState, keycode: u8)
    requires
        op.wf(),
        op.key_on,
        bits::bit(op.ssg_eg, 3),
        !op.ssg_holds(),
        (op.eg_phase == EgPhase::Sustain && op.sr != 0) || op.ran_out(),
    ensures
        op.enveloped(keycode, true).eg_phase == EgPhase::Attack,
        op.enveloped(keycode, true).ssg_invert == (op.ssg_invert != bits::bit(op.ssg_eg, 1)),
        op.enveloped_level(keycode, true) == Some(0u8),
{
}

/// While the key is held and SSG-EG holds, an envelope that reaches silence
/// comes to rest: at full volume, where it sounds until the key is let go,
/// with the attack bit, else at silence.
pub proof fn law_ssg_eg_holds(op: OperatorState, keycode: u8, next_keycode: u8, reached: bool)
    requires
        op.wf(),
        op.ssg_active(),
        op.ssg_holds(),
        (op.eg_phase == EgPhase::Sustain && op.sr != 0) || op.ran_out(),
    ensures
        ({
            let held = op.enveloped(keycode, true);
            let level = if bits::bit(op.ssg_eg, 2) {
                0u8
            } else {
                MAX_ATTEN_DB
            };
            &&& op.enveloped_level(keycode, true) == Some(level)
            &&& held.sounding() is Some <==> bits::bit(op.ssg_eg, 2)
            &&& held.envelope_moving(next_keycode) == EnvelopeMove::Frozen
            &&& held.enveloped(next_keycode, reached) == held
            &&& held.enveloped_level(next_keycode, reached) == Some(level)
            &&& bits::bit(op.ssg_eg, 2) ==> held.keyed_off().eg_phase == EgPhase::Release
        }),
{
}

/// An operator that SSG-EG holds stays as it is for any number of samples,
/// whatever frequencies its channel takes on meanwhile.
pub proof fn law_hold_lasts(op: OperatorState, keycodes: Seq<u8>, reached: Seq<bool>)
    requires
        op.ssg_active(),
        op.ssg_holds(),
        op.eg_phase == (if bits::bit(op.ssg_eg, 2) {
            EgPhase::Hold
        } else {
            EgPhase::Off
        }),
        keycodes.len() == reached.len(),
    ensures
        enveloped_run(op, keycodes, reached) == op,
    decreases reached.len(),
{
    if reached.len() > 0 {
        law_hold_lasts(op, keycodes.drop_last(), reached.drop_last());
    }
}

/// The hold at full volume lasts no longer than SSG-EG: with the enable bit
/// cleared the operator is silent at once and off after the next sample, also
/// if the key is let go first.
pub proof fn law_hold_ends_with_ssg_eg(op: OperatorState, data: u8, keycode: u8, reached: bool)
    requires
        op.wf(),
        op.eg_phase == EgPhase::Hold,
        !bits::bit(data, 3),
    ensures
        ({
            let cleared = op.written(9, data);
            &&& cleared.sounding() is None
            &&& cleared.enveloped(keycode, reached) == (OperatorState {
                eg_phase: EgPhase::Off,
                ..cleared
            })
            &&& cleared.enveloped_level(keycode, reached) == Some(MAX_ATTEN_DB)
            &&& cleared.keyed_off().eg_phase == EgPhase::Off
        }),
{
}

/// A pressed key sounds: the operator has an output, and unless its attack
/// rate is zero its attenuation falls.
pub proof fn law_key_on_sounds(op: OperatorState, keycode: u8)
    requires
        op.wf(),
        !op.key_on,
    ensures
        op.keyed_on().sounding() is Some,
        op.keyed_on().restart,
        op.ar != 0 ==> (op.keyed_on().envelope_moving(keycode) matches EnvelopeMove::Fall { rate }
            && rate >= 2),
{
}

/// The phases follow each other in order: attack, decay, sustain, and from
/// there, as from release, silence or, under SSG-EG alone, the next attack or
/// the hold at full volume, which ends in silence once SSG-EG is turned off.
/// The key and the registers stay as they are.
pub proof fn law_phase_order(op: OperatorState, keycode: u8, reached: bool)
    requires
        op.wf(),
    ensures
        ({
            let next = op.enveloped(keycode, reached);
            let restarts = next.eg_phase == EgPhase::Attack && op.ssg_active() && !op.ssg_holds();
            let holds_full = next.eg_phase == EgPhase::Hold && op.ssg_active() && op.ssg_holds()
                && bits::bit(op.ssg_eg, 2);
            let silent = next.eg_phase == EgPhase::Off;
            &&& next == (OperatorState {
                eg_phase: next.eg_phase,
                ssg_invert: next.ssg_invert,
                ..op
            })
            &&& next.ssg_invert != op.ssg_invert ==> restarts && bits::bit(op.ssg_eg, 1)
            &&& op.hold_lost() ==> silent
            &&& next.eg_phase != op.eg_phase ==> match op.eg_phase {
                EgPhase::Attack => next.eg_phase == EgPhase::Decay,
                EgPhase::Decay => next.eg_phase == EgPhase::Sustain,
                EgPhase::Sustain => silent || restarts || holds_full,
                EgPhase::Release => silent,
                EgPhase::Hold => restarts || (silent && (op.hold_lost() || (op.ssg_holds()
                    && !bits::bit(op.ssg_eg, 2)))),
                EgPhase::Off => restarts || holds_full,
            }
        }),
{
}

/// The note group is the chip's own. With F11 the top one of the F-Number's
/// eleven bits, its high bit is F11, and its low bit is set when F11 stands
/// beside any of F10, F9 and F8, or when these three stand without F11.
pub proof fn law_standard_note_group(fnum: u16)
    ensures
        ({
            let f11 = (fnum / 1024) % 2 == 1;
            let f10 = (fnum / 512) % 2 == 1;
            let f9 = (fnum / 256) % 2 == 1;
            let f8 = (fnum / 128) % 2 == 1;
            let n4 = f11;
            let n3 = (f11 && (f10 || f9 || f8)) || (!f11 && f10 && f9 && f8);
            note_group(fnum) == (if n4 {
                2int
            } else {
                0
            }) + (if n3 {
                1int
            } else {
                0
            })
        }),
{
    let note = (fnum / 128) % 16;
    assert((fnum / 1024) % 2 == note / 8 && (fnum / 512) % 2 == (note / 4) % 2 && (fnum / 256) % 2
        == (note / 2) % 2 && (fnum / 128) % 2 == note % 2) by (bit_vector)
        requires
            note == (fnum / 128) % 16,
    ;
}

/// The keycode grows with the block, and within a block with the F-Number.
pub proof fn law_keycode_ordered(block: u8, fnum: u16, other_block: u8, other_fnum: u16)
    requires
        block <= 7,
        other_block <= 7,
        fnum <= 0x7FF,
        other_fnum <= 0x7FF,
        block < other_block || (block == other_block && fnum <= other_fnum),
    ensures
        keycode_of(block, fnum) <= keycode_of(other_block, other_fnum) <= 31,
{
}

/// An operator sounds in every phase but silence, at three quarters of a dB
/// per step of its total level and upside down as SSG-EG has left it. A hold
/// sounds for as long as SSG-EG is enabled.
pub proof fn law_sounds_unless_off(op: OperatorState)
    requires
        op.wf(),
    ensures
        op.sounding() is None <==> op.eg_phase == EgPhase::Off || (op.eg_phase == EgPhase::Hold
            && op.ssg_eg & 0x08 == 0),
        op.eg_phase == EgPhase::Attack ==> op.sounding() is Some,
        op.eg_phase == EgPhase::Decay ==> op.sounding() is Some,
        op.eg_phase == EgPhase::Sustain ==> op.sounding() is Some,
        op.eg_phase == EgPhase::Release ==> op.sounding() is Some,
        op.sounding() matches Some(out) ==> out.level_quarter_db == op.tl + op.tl + op.tl
            && out.invert == op.ssg_invert,
{
    bits::law_bits_are_masks(op.ssg_eg);
}

/// Tuning sets the pitch alone. The frequency is proportional to MUL, with
/// one half for zero: `mul_x2` is twice the multiple, whatever the note.
pub proof fn law_multiple(op: OperatorState, fnum: u16, block: u8, clock: u32)
    requires
        op.wf(),
    ensures
        op.tuned(fnum, block, clock) == (OperatorState {
            pitch: op.tuned(fnum, block, clock).pitch,
            ..op
        }),
        op.mul == 0 ==> op.tuned(fnum, block, clock).pitch.mul_x2 == 1,
        op.mul != 0 ==> op.tuned(fnum, block, clock).pitch.mul_x2 == op.mul + op.mul,
{
}

/// Block zero gives the F-Number times the clock, every further block twice
/// the one below, and only the low three bits of the block count.
pub proof fn law_frequency(op: OperatorState, fnum: u16, block: u8, clock: u32)
    ensures
        op.tuned(fnum, 0, clock).pitch.base == fnum * clock,
        block < 7 ==> op.tuned(fnum, (block + 1) as u8, clock).pitch.base == op.tuned(
            fnum,
            block,
            clock,
        ).pitch.base + op.tuned(fnum, block, clock).pitch.base,
        block < 248 ==> op.tuned(fnum, (block + 8) as u8, clock).pitch == op.tuned(
            fnum,
            block,
            clock,
        ).pitch,
{
    lemma_base_exact(op, fnum, 0, clock);
    assert(fnum * clock * 1 == fnum * clock) by (nonlinear_arith);
    if block < 7 {
        law_octave(op, fnum, block, clock);
    }
    if block < 248 {
        assert((block + 8) % 8 == block % 8);
    }
}

/// The detune shifts by 0, 6, 12 or 24 cents as its low two bits grow, down
/// if its third bit is set and up if not, whatever the note.
pub proof fn law_detune(op: OperatorState, fnum: u16, block: u8, clock: u32)
    requires
        op.wf(),
    ensures
        ({
            let cents = op.tuned(fnum, block, clock).pitch.cents;
            &&& op.dt == 0 || op.dt == 4 ==> cents == 0
            &&& op.dt == 1 ==> cents == 6
            &&& op.dt == 2 ==> cents == 12
            &&& op.dt == 3 ==> cents == 24
            &&& op.dt == 5 ==> cents == -6
            &&& op.dt == 6 ==> cents == -12
            &&& op.dt == 7 ==> cents == -24
        }),
{
}

/// Pressing a key that is held changes nothing at all. Pressing a free one
/// begins the attack, starts the waveform again and undoes any inversion,
/// and leaves the registers and the pitch alone.
pub proof fn law_key_on(op: OperatorState)
    ensures
        op.key_on ==> op.keyed_on() == op,
        !op.key_on ==> op.keyed_on().key_on && op.keyed_on().eg_phase == EgPhase::Attack
            && op.keyed_on().restart && !op.keyed_on().ssg_invert,
        op.keyed_on() == (OperatorState {
            key_on: op.keyed_on().key_on,
            eg_phase: op.keyed_on().eg_phase,
            restart: op.keyed_on().restart,
            ssg_invert: op.keyed_on().ssg_invert,
            ..op
        }),
{
}

/// Letting go a key that is free changes nothing at all. Letting go a held
/// one begins the release if the operator sounds and leaves it off if not,
/// and leaves all but the key and the phase alone.
pub proof fn law_key_off(op: OperatorState)
    requires
        op.wf(),
    ensures
        !op.key_on ==> op.keyed_off() == op,
        op.key_on ==> !op.keyed_off().key_on,
        op.key_on && (op.eg_phase == EgPhase::Attack || op.eg_phase == EgPhase::Decay
            || op.eg_phase == EgPhase::Sustain) ==> op.keyed_off().eg_phase == EgPhase::Release,
        op.key_on && op.eg_phase == EgPhase::Hold ==> op.keyed_off().eg_phase == if op.ssg_eg & 0x08
            != 0 {
            EgPhase::Release
        } else {
            EgPhase::Off
        },
        op.eg_phase == EgPhase::Off ==> op.keyed_off().eg_phase == EgPhase::Off,
        op.keyed_off() == (OperatorState {
            key_on: op.keyed_off().key_on,
            eg_phase: op.keyed_off().eg_phase,
            ..op
        }),
{
    bits::law_bits_are_masks(op.ssg_eg);
}

/// A register takes its fields from their places in the byte, ignores the
/// bits beside them, and leaves every other field as it is.
pub proof fn law_register_fields(op: OperatorState, hi: u8, lo: u8, spare: u8)
    ensures
        hi < 8 && lo < 16 && spare < 2 ==> op.written(3, (128 * spare + 16 * hi + lo) as u8) == (
        OperatorState { dt: hi, mul: lo, ..op }),
        lo < 128 && spare < 2 ==> op.written(4, (128 * spare + lo) as u8) == (OperatorState {
            tl: lo,
            ..op
        }),
        hi < 4 && lo < 32 && spare < 2 ==> op.written(5, (64 * hi + 32 * spare + lo) as u8) == (
        OperatorState { ks: hi, ar: lo, ..op }),
        lo < 32 && spare < 8 ==> op.written(6, (32 * spare + lo) as u8) == (OperatorState {
            dr: lo,
            ..op
        }),
        lo < 32 && spare < 8 ==> op.written(7, (32 * spare + lo) as u8) == (OperatorState {
            sr: lo,
            ..op
        }),
        hi < 16 && lo < 16 ==> op.written(8, (16 * hi + lo) as u8) == (OperatorState {
            sl: hi,
            rr: lo,
            ..op
        }),
        lo < 16 && spare < 16 ==> op.written(9, (16 * spare + lo) as u8) == (OperatorState {
            ssg_eg: lo,
            ..op
        }),
{
    bits::lemma_packed(hi, lo, spare);
    bits::lemma_packed(spare, lo, 0);
}

/// A bank that holds no operator registers changes nothing.
pub proof fn law_other_banks(op: OperatorState, bank: u8, data: u8)
    requires
        bank < 3 || bank > 9,
    ensures
        op.written(bank, data) == op,
{
}

/// A rate other than zero is twice its register value plus the keycode
/// shifted down by three less the key scale, and 63 where that is more.
pub proof fn law_rate_formula(op: OperatorState, rate: u8, keycode: u8)
    requires
        op.wf(),
    ensures
        rate == 0 ==> op.scaled_rate(rate, keycode) == 0,
        rate != 0 ==> ({
            let sum = rate + rate + (keycode >> ((3 - op.ks) as u8));
            &&& sum <= 63 ==> op.scaled_rate(rate, keycode) == sum
            &&& sum > 63 ==> op.scaled_rate(rate, keycode) == 63
        }),
{
    bits::lemma_rate_shift(keycode);
}

/// The attack falls at its rate, the decay rises at its rate to three dB per
/// step of the sustain level (93 dB at the last), the sustain and the release
/// rise at theirs to silence, and a register of zero freezes all but the
/// release. What has run out does not move.
pub proof fn law_envelope_moves(op: OperatorState, keycode: u8)
    requires
        op.wf(),
    ensures
        ({
            let next = op.envelope_moving(keycode);
            &&& op.eg_phase == EgPhase::Attack ==> next == if op.ar == 0 {
                EnvelopeMove::Frozen
            } else {
                EnvelopeMove::Fall { rate: op.scaled_rate(op.ar, keycode) }
            }
            &&& op.eg_phase == EgPhase::Decay ==> next == if op.dr == 0 {
                EnvelopeMove::Frozen
            } else {
                EnvelopeMove::Rise {
                    rate: op.scaled_rate(op.dr, keycode),
                    target_db: if op.sl < 15 {
                        (op.sl + op.sl + op.sl) as u8
                    } else {
                        93
                    },
                }
            }
            &&& op.eg_phase == EgPhase::Sustain ==> next == if op.sr == 0 {
                EnvelopeMove::Frozen
            } else {
                EnvelopeMove::Rise { rate: op.scaled_rate(op.sr, keycode), target_db: 96 }
            }
            &&& op.eg_phase == EgPhase::Release ==> next == (EnvelopeMove::Rise {
                rate: op.scaled_rate((op.rr + op.rr + 1) as u8, keycode),
                target_db: 96,
            })
            &&& op.eg_phase == EgPhase::Hold || op.eg_phase == EgPhase::Off ==> next
                == EnvelopeMove::Frozen
        }),
{
}

/// The sustain level is three dB per step, but 93 dB at the last.
pub proof fn law_sustain_level(op: OperatorState)
    requires
        op.wf(),
    ensures
        op.sl < 15 ==> op.sustain_db() == op.sl + op.sl + op.sl,
        op.sl == 15 ==> op.sustain_db() == 93,
{
}

/// What SSG-EG does with a held key whose envelope has run out, shape by
/// shape: 8 and 12 begin again, 10, 11, 14 and 15 begin again upside down, 9
/// rests at silence and 13 at full volume. Without SSG-EG, or without the
/// key, it does nothing.
pub proof fn law_ssg_eg_shapes(op: OperatorState)
    requires
        op.wf(),
    ensures
        op.ssg_eg < 8 || !op.key_on ==> op.looped() == op && op.loop_level() is None,
        op.key_on && (op.ssg_eg == 8 || op.ssg_eg == 12) ==> op.looped() == (OperatorState {
            eg_phase: EgPhase::Attack,
            ..op
        }) && op.loop_level() == Some(0u8),
        op.key_on && (op.ssg_eg == 10 || op.ssg_eg == 11 || op.ssg_eg == 14 || op.ssg_eg == 15)
            ==> op.looped() == (OperatorState {
            eg_phase: EgPhase::Attack,
            ssg_invert: !op.ssg_invert,
            ..op
        }) && op.loop_level() == Some(0u8),
        op.key_on && op.ssg_eg == 9 ==> op.looped() == (OperatorState {
            eg_phase: EgPhase::Off,
            ..op
        }) && op.loop_level() == Some(96u8),
        op.key_on && op.ssg_eg == 13 ==> op.looped() == (OperatorState {
            eg_phase: EgPhase::Hold,
            ..op
        }) && op.loop_level() == Some(0u8),
{
}

/// A move that has not come to its end changes nothing, nor does a phase
/// whose register is zero.
pub proof fn law_unfinished_move(op: OperatorState, keycode: u8, reached: bool)
    requires
        op.wf(),
        op.eg_phase != EgPhase::Off,
        op.eg_phase != EgPhase::Hold,
        !reached || (op.eg_phase == EgPhase::Attack && op.ar == 0) || (op.eg_phase == EgPhase::Decay
            && op.dr == 0) || (op.eg_phase == EgPhase::Sustain && op.sr == 0),
    ensures
        op.enveloped(keycode, reached) == op,
        op.enveloped_level(keycode, reached) is None,
{
}

/// A move that has come to its end leads on: the attack to the decay at full
/// volume, the decay to the sustain at the sustain level, the sustain and the
/// release to silence, unless SSG-EG then takes the held key on.
pub proof fn law_finished_move(op: OperatorState, keycode: u8)
    requires
        op.wf(),
    ensures
        op.eg_phase == EgPhase::Attack && op.ar != 0 ==> op.enveloped(keycode, true) == (
        OperatorState { eg_phase: EgPhase::Decay, ..op }) && op.enveloped_level(keycode, true)
            == Some(0u8),
        op.eg_phase == EgPhase::Decay && op.dr != 0 ==> op.enveloped(keycode, true) == (
        OperatorState { eg_phase: EgPhase::Sustain, ..op }) && op.enveloped_level(keycode, true)
            == Some(
            if op.sl < 15 {
                (op.sl + op.sl + op.sl) as u8
            } else {
                93u8
            },
        ),
        op.eg_phase == EgPhase::Sustain && op.sr != 0 && op.ssg_eg < 8 ==> op.enveloped(
            keycode,
            true,
        ) == (OperatorState { eg_phase: EgPhase::Off, ..op }) && op.enveloped_level(keycode, true)
            == Some(96u8),
        op.eg_phase == EgPhase::Release ==> op.enveloped(keycode, true) == (OperatorState {
            eg_phase: EgPhase::Off,
            ..op
        }) && op.enveloped_level(keycode, true) == Some(96u8),
        op.eg_phase == EgPhase::Sustain && op.sr != 0 && op.ssg_eg >= 8 ==> op.enveloped(
            keycode,
            true,
        ) == op.looped() && op.enveloped_level(keycode, true) == op.loop_level(),
{
    bits::law_bits_are_masks(op.ssg_eg);
}

/// What has run out is left to SSG-EG in every sample, whatever the signal
/// does, but for a hold whose SSG-EG was turned off: it falls silent.
pub proof fn law_run_out(op: OperatorState, keycode: u8, reached: bool)
    requires
        op.wf(),
    ensures
        op.eg_phase == EgPhase::Off || (op.eg_phase == EgPhase::Hold && op.ssg_eg >= 8)
            ==> op.enveloped(keycode, reached) == op.looped() && op.enveloped_level(keycode, reached)
            == op.loop_level(),
        op.eg_phase == EgPhase::Hold && op.ssg_eg < 8 ==> op.enveloped(keycode, reached) == (
        OperatorState { eg_phase: EgPhase::Off, ..op }) && op.enveloped_level(keycode, reached)
            == Some(96u8),
{
}

/// The keycode counts four to a block. Within a block it changes at the
/// F-Numbers 0x380, 0x400 and 0x480.
pub proof fn law_keycode_thresholds(block: u8, fnum: u16)
    requires
        block <= 7,
        fnum <= 0x7FF,
    ensures
        fnum < 0x380 ==> keycode_of(block, fnum) == 4 * block,
        0x380 <= fnum < 0x400 ==> keycode_of(block, fnum) == 4 * block + 1,
        0x400 <= fnum < 0x480 ==> keycode_of(block, fnum) == 4 * block + 2,
        0x480 <= fnum ==> keycode_of(block, fnum) == 4 * block + 3,
{
}

/// After power-up an operator is off, with its key free, at the lowest total
/// level, and with every other register at zero.
pub proof fn law_power_up()
    ensures
        ({
            let op = OperatorState::initial();
            &&& op.sounding() is None
            &&& op.eg_phase == EgPhase::Off
            &&& !op.key_on
            &&& !op.ssg_invert
            &&& !op.restart
            &&& op.tl == 127
            &&& op.mul == 0 && op.dt == 0 && op.ks == 0 && op.ar == 0 && op.dr == 0
            &&& op.sr == 0 && op.sl == 0 && op.rr == 0 && op.ssg_eg == 0
            &&& op.pitch.base == 0
        }),
{
}

} // verus!
