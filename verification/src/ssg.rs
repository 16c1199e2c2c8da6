//! SSG section: three square-wave channels with a shared noise generator and
//! a shared envelope generator, behind registers 0x00 to 0x0D.

use vstd::prelude::*;
use crate::bits;

verus! {

/// The envelope generator: a position from 0 to 15 that moves up or down.
#[derive(Clone, Copy, PartialEq, Eq, Structural, Debug)]
pub struct Envelope {
    pub pos: i32,  // 0..=15
    pub dir: i32,  // +1 / -1
    pub holding: bool,
}

/// What one channel puts out: an amplitude level and its sign.
#[derive(Clone, Copy, PartialEq, Eq, Structural, Debug)]
pub struct SsgVoice {
    pub positive: bool,
    pub level: u8,
}

/// The SSG section.
#[derive(PartialEq, Eq, Debug)]
pub struct Ssg {
    regs: [u8; 14],
    /// 17-bit shift register of the noise generator.
    noise_lfsr: u32,
    envelope: Envelope,
    /// The envelope clock starts again from zero with the next sample.
    env_restart: bool,
}

/// Model of the SSG section.
#[verifier::ext_equal]
pub struct SsgState {
    pub regs: Seq<u8>,
    pub noise_lfsr: u32,
    pub envelope: Envelope,
    pub env_restart: bool,
}

impl View for Ssg {
    type V = SsgState;

    closed spec fn view(&self) -> SsgState {
        SsgState {
            regs: self.regs@,
            noise_lfsr: self.noise_lfsr,
            envelope: self.envelope,
            env_restart: self.env_restart,
        }
    }
}

impl Envelope {
    pub open spec fn wf(self) -> bool {
        &&& 0 <= self.pos <= 15
        &&& self.dir == 1 || self.dir == -1
    }

    /// The envelope at the beginning of a shape: at the bottom and rising if
    /// the attack bit is set, else at the top and falling.
    pub open spec fn start(shape: u8) -> Envelope {
        if bits::bit(shape, 2) {
            Envelope { pos: 0, dir: 1, holding: false }
        } else {
            Envelope { pos: 15, dir: -1i32, holding: false }
        }
    }

    /// The envelope one step later. Within the ramp it moves on. At the end
    /// of the ramp it drops to zero for good without the continue bit (3),
    /// stays at one end for good with the hold bit (0), turns round with the
    /// alternate bit (1), and else begins the same ramp again.
    pub open spec fn stepped(self, shape: u8) -> Envelope {
        if self.holding {
            self
        } else if 0 <= self.pos + self.dir <= 15 {
            Envelope { pos: (self.pos + self.dir) as i32, ..self }
        } else if !bits::bit(shape, 3) {
            Envelope { pos: 0, holding: true, ..self }
        } else if bits::bit(shape, 0) {
            Envelope {
                pos: if bits::bit(shape, 2) != bits::bit(shape, 1) {
                    15
                } else {
                    0
                },
                holding: true,
                ..self
            }
        } else if bits::bit(shape, 1) {
            if self.dir == 1 {
                Envelope { pos: 15, dir: -1i32, ..self }
            } else {
                Envelope { pos: 0, dir: 1, ..self }
            }
        } else {
            Envelope { pos: Envelope::start(shape).pos, ..self }
        }
    }

    /// The envelope `n` steps later.
    pub open spec fn after(self, shape: u8, n: nat) -> Envelope
        decreases n,
    {
        if n == 0 {
            self
        } else {
            self.after(shape, (n - 1) as nat).stepped(shape)
        }
    }
}

/// The noise shift register one step later: it moves down by one bit, and the
/// bit that enters at the top says whether bits 0 and 3 differed.
pub open spec fn noise_stepped(lfsr: u32) -> u32 {
    if lfsr % 2 != (lfsr / 8) % 2 {
        (lfsr / 2 + 0x1_0000) as u32
    } else {
        lfsr / 2
    }
}

/// The noise shift register `n` steps later.
pub open spec fn noise_after(lfsr: u32, n: nat) -> u32
    decreases n,
{
    if n == 0 {
        lfsr
    } else {
        noise_stepped(noise_after(lfsr, (n - 1) as nat))
    }
}

/// A period of at least one.
pub open spec fn at_least_one(period: int) -> int {
    if period < 1 {
        1
    } else {
        period
    }
}

impl SsgState {
    pub open spec fn wf(self) -> bool {
        &&& self.regs.len() == 14
        &&& 0 < self.noise_lfsr < 0x2_0000
        &&& self.envelope.wf()
    }

    pub open spec fn initial() -> SsgState {
        SsgState {
            regs: Seq::new(14, |addr: int| 0u8),
            noise_lfsr: 1,
            envelope: Envelope { pos: 0, dir: 1, holding: false },
            env_restart: false,
        }
    }

    /// This section after a register write. The envelope shape register
    /// restarts the envelope.
    pub open spec fn written(self, addr: u8, data: u8) -> SsgState {
        if addr >= 14 {
            self
        } else if addr == 13 {
            SsgState {
                regs: self.regs.update(13, data),
                envelope: Envelope::start(data),
                env_restart: true,
                ..self
            }
        } else {
            SsgState { regs: self.regs.update(addr as int, data), ..self }
        }
    }

    pub open spec fn reg(self, addr: u8) -> u8 {
        if addr < 14 {
            self.regs[addr as int]
        } else {
            0
        }
    }

    pub open spec fn tone_period(self, ch: int) -> int {
        at_least_one(self.regs[2 * ch] + 256 * (self.regs[2 * ch + 1] % 16))
    }

    pub open spec fn noise_period(self) -> int {
        at_least_one((self.regs[6] % 32) as int)
    }

    pub open spec fn envelope_period(self) -> int {
        at_least_one(self.regs[11] + 256 * self.regs[12])
    }

    /// The level of a channel: that of the envelope if bit 4 of its volume
    /// register is set, else the low four bits of that register.
    pub open spec fn level(self, ch: int) -> int {
        let volume = self.regs[8 + ch];
        if bits::bit(volume, 4) {
            self.envelope.pos as int
        } else {
            (volume % 16) as int
        }
    }

    /// Whether the output of a channel is high. Each mixer bit that is set
    /// takes the tone (bit `ch`) or the noise (bit `ch + 3`) out of account.
    pub open spec fn is_high(self, ch: int, tone: bool) -> bool {
        let mixer = self.regs[7];
        &&& bits::bit(mixer, ch as u8) || tone
        &&& bits::bit(mixer, (ch + 3) as u8) || self.noise_lfsr % 2 == 1
    }

    pub open spec fn voice(self, ch: int, tone: bool) -> SsgVoice {
        SsgVoice { positive: self.is_high(ch, tone), level: self.level(ch) as u8 }
    }

    /// This section after the noise and the envelope have made some steps.
    pub open spec fn advanced(self, noise_steps: nat, env_steps: nat) -> SsgState {
        SsgState {
            noise_lfsr: noise_after(self.noise_lfsr, noise_steps),
            envelope: self.envelope.after(self.regs[13], env_steps),
            env_restart: false,
            ..self
        }
    }
}

impl Ssg {
    pub fn new() -> (ssg: Self)
        ensures
            ssg@ == SsgState::initial(),
            ssg@.wf(),
    {
        let ssg = Ssg {
            regs: [0; 14],
            noise_lfsr: 1,
            envelope: Envelope { pos: 0, dir: 1, holding: false },
            env_restart: false,
        };
        assert(ssg@ =~= SsgState::initial());
        ssg
    }

    /// Writes a register. Writing the envelope shape register always restarts
    /// the envelope from the beginning; other addresses than 0x00 to 0x0D are
    /// ignored.
    pub fn write(&mut self, addr: u8, data: u8)
        requires
            old(self)@.wf(),
        ensures
            final(self)@ == old(self)@.written(addr, data),
            final(self)@.wf(),
    {
        let ghost before = self@;
        let idx: usize = addr as usize;
        if idx >= 14 {
            return;
        }
        self.regs[idx] = data;
        if idx == 13 {
            let attack = bits::test_bit(data, 2);
            self.envelope = Envelope {
                pos: if attack {
                    0
                } else {
                    15
                },
                dir: if attack {
                    1
                } else {
                    -1
                },
                holding: false,
            };
            self.env_restart = true;
        }
        assert(self@ =~= before.written(addr, data));
    }

    /// Reads a register back; other addresses than 0x00 to 0x0D give 0.
    pub fn read(&self, addr: u8) -> (data: u8)
        requires
            self@.wf(),
        ensures
            data == self@.reg(addr),
    {
        if addr < 14 {
            self.regs[addr as usize]
        } else {
            0
        }
    }

    /// State of the noise shift register.
    pub fn noise_lfsr(&self) -> (lfsr: u32)
        ensures
            lfsr == self@.noise_lfsr,
    {
        self.noise_lfsr
    }

    /// State of the envelope generator.
    pub fn envelope(&self) -> (envelope: Envelope)
        ensures
            envelope == self@.envelope,
    {
        self.envelope
    }

    /// Whether the envelope clock starts again from zero with the next sample.
    pub fn env_restart(&self) -> (restart: bool)
        ensures
            restart == self@.env_restart,
    {
        self.env_restart
    }

    pub fn tone_period(&self, ch: usize) -> (period: u32)
        requires
            self@.wf(),
            ch < 7,
        ensures
            period == self@.tone_period(ch as int),
    {
        let fine: u32 = self.regs[ch * 2] as u32;
        let coarse: u32 = (self.regs[ch * 2 + 1] & 0x0F) as u32;
        proof {
            bits::lemma_byte_fields(self.regs[ch * 2 + 1]);
            bits::lemma_period(fine, coarse);
        }
        let period: u32 = fine | (coarse << 8u32);
        if period < 1 {
            1
        } else {
            period
        }
    }

    pub fn noise_period(&self) -> (period: u32)
        requires
            self@.wf(),
        ensures
            period == self@.noise_period(),
    {
        proof {
            bits::lemma_byte_fields(self.regs[6]);
        }
        let period: u32 = (self.regs[6] & 0x1F) as u32;
        if period < 1 {
            1
        } else {
            period
        }
    }

    pub fn envelope_period(&self) -> (period: u32)
        requires
            self@.wf(),
        ensures
            period == self@.envelope_period(),
    {
        let fine: u32 = self.regs[11] as u32;
        let coarse: u32 = self.regs[12] as u32;
        proof {
            bits::lemma_period(fine, coarse);
        }
        let period: u32 = fine | (coarse << 8u32);
        if period < 1 {
            1
        } else {
            period
        }
    }

    pub fn mixer(&self) -> (mixer: u8)
        requires
            self@.wf(),
        ensures
            mixer == self@.regs[7],
    {
        self.regs[7]
    }

    pub fn channel_volume_reg(&self, ch: usize) -> (volume: u8)
        requires
            self@.wf(),
            ch < 6,
        ensures
            volume == self@.regs[8 + ch],
    {
        self.regs[8 + ch]
    }

    /// Moves the envelope by one step of its shape.
    pub fn tick_envelope_step(&mut self)
        requires
            old(self)@.wf(),
        ensures
            final(self)@ == (SsgState {
                envelope: old(self)@.envelope.stepped(old(self)@.regs[13]),
                ..old(self)@
            }),
            final(self)@.wf(),
    {
        let shape: u8 = self.regs[13];
        let hold = bits::test_bit(shape, 0);
        let alternate = bits::test_bit(shape, 1);
        let attack = bits::test_bit(shape, 2);
        let continues = bits::test_bit(shape, 3);
        if self.envelope.holding {
            return;
        }
        let pos: i32 = self.envelope.pos + self.envelope.dir;
        if pos > 15 || pos < 0 {
            if !continues {
                self.envelope.pos = 0;
                self.envelope.holding = true;
            } else if hold {
                self.envelope.pos = if attack != alternate {
                    15
                } else {
                    0
                };
                self.envelope.holding = true;
            } else if alternate {
                self.envelope.dir = -self.envelope.dir;
                self.envelope.pos = if self.envelope.dir == 1 {
                    0
                } else {
                    15
                };
            } else {
                self.envelope.pos = if attack {
                    0
                } else {
                    15
                };
            }
        } else {
            self.envelope.pos = pos;
        }
    }

    /// Moves the noise generator by one step.
    pub fn tick_noise_step(&mut self)
        requires
            old(self)@.wf(),
        ensures
            final(self)@ == (SsgState {
                noise_lfsr: noise_stepped(old(self)@.noise_lfsr),
                ..old(self)@
            }),
            final(self)@.wf(),
    {
        let lfsr: u32 = self.noise_lfsr;
        proof {
            bits::lemma_noise_step(lfsr);
        }
        let bit: u32 = (lfsr ^ (lfsr >> 3)) & 1;
        self.noise_lfsr = (lfsr >> 1) | (bit << 16);
    }

    pub fn envelope_level(&self) -> (level: u8)
        requires
            self@.wf(),
        ensures
            level == self@.envelope.pos,
    {
        self.envelope.pos as u8
    }

    fn voice(&self, ch: usize, tone: bool) -> (voice: SsgVoice)
        requires
            self@.wf(),
            ch < 3,
        ensures
            voice == self@.voice(ch as int, tone),
    {
        let mixer: u8 = self.mixer();
        let tone_disabled = bits::test_bit(mixer, ch as u8);
        let noise_disabled = bits::test_bit(mixer, ch as u8 + 3);
        proof {
            bits::lemma_noise_step(self.noise_lfsr);
        }
        let noise = self.noise_lfsr & 1 != 0;
        let volume: u8 = self.channel_volume_reg(ch);
        proof {
            bits::lemma_byte_fields(volume);
        }
        let level: u8 = if bits::test_bit(volume, 4) {
            self.envelope_level()
        } else {
            volume & 0x0F
        };
        SsgVoice { positive: (tone_disabled || tone) && (noise_disabled || noise), level }
    }

    /// Advances the section by one sample and gives what each channel puts
    /// out. `tones` holds the outputs of the three tone generators in this
    /// sample, `noise_steps` and `env_steps` how often the noise and the
    /// envelope generator were clocked in it.
    pub fn render(&mut self, tones: [bool; 3], noise_steps: u64, env_steps: u64) -> (voices: [SsgVoice;
        3])
        requires
            old(self)@.wf(),
        ensures
            final(self)@ == old(self)@.advanced(noise_steps as nat, env_steps as nat),
            forall|ch: int|
                0 <= ch < 3 ==> #[trigger] voices[ch] == final(self)@.voice(ch, tones[ch]),
            final(self)@.wf(),
    {
        let ghost before = self@;
        self.env_restart = false;
        for n in 0..noise_steps
            invariant
                self@.wf(),
                self@ == (SsgState {
                    noise_lfsr: noise_after(before.noise_lfsr, n as nat),
                    env_restart: false,
                    ..before
                }),
        {
            self.tick_noise_step();
        }
        let ghost noise = self.noise_lfsr;
        for n in 0..env_steps
            invariant
                self@.wf(),
                self@ == (SsgState {
                    noise_lfsr: noise,
                    envelope: before.envelope.after(before.regs[13], n as nat),
                    env_restart: false,
                    ..before
                }),
        {
            self.tick_envelope_step();
        }
        [self.voice(0, tones[0]), self.voice(1, tones[1]), self.voice(2, tones[2])]
    }
}

/// The level of a shape `n` steps after its start: a ramp of sixteen levels,
/// then zero (no continue), one end of the ramp (hold), the ramp back and
/// forth (alternate), or the same ramp again.
pub open spec fn shape_level(shape: u8, n: nat) -> int {
    let attack = bits::bit(shape, 2);
    let alternate = bits::bit(shape, 1);
    let k = (n % 16) as int;
    let ramp = if attack {
        k
    } else {
        15 - k
    };
    if n < 16 {
        ramp
    } else if !bits::bit(shape, 3) {
        0
    } else if bits::bit(shape, 0) {
        if attack != alternate {
            15
        } else {
            0
        }
    } else if alternate && (n / 16) % 2 == 1 {
        15 - ramp
    } else {
        ramp
    }
}

/// Whether a shape comes to rest after its first ramp.
pub open spec fn shape_rests(shape: u8) -> bool {
    !bits::bit(shape, 3) || bits::bit(shape, 0)
}

/// The envelope follows its shape: `n` steps after a write of the shape
/// register it stands at the level of the shape, and it holds from the end of
/// the first ramp on if the shape comes to rest, else never.
pub proof fn law_envelope_follows_shape(shape: u8, n: nat)
    ensures
        Envelope::start(shape).after(shape, n).pos == shape_level(shape, n),
        Envelope::start(shape).after(shape, n).holding == (n >= 16 && shape_rests(shape)),
        !(n >= 16 && shape_rests(shape)) ==> Envelope::start(shape).after(shape, n).dir == if (
        bits::bit(shape, 1) && (n / 16) % 2 == 1) != bits::bit(shape, 2) {
            1i32
        } else {
            -1i32
        },
    decreases n,
{
    if n > 0 {
        law_envelope_follows_shape(shape, (n - 1) as nat);
    }
}

/// An envelope that holds stays where it is.
pub proof fn law_holding_is_final(envelope: Envelope, shape: u8, n: nat)
    requires
        envelope.holding,
    ensures
        envelope.after(shape, n) == envelope,
    decreases n,
{
    if n > 0 {
        law_holding_is_final(envelope, shape, (n - 1) as nat);
    }
}

/// The noise generator never runs dry: its register stays nonzero and within
/// seventeen bits.
pub proof fn law_noise_never_stops(lfsr: u32, n: nat)
    requires
        0 < lfsr < 0x2_0000,
    ensures
        0 < noise_after(lfsr, n) < 0x2_0000,
    decreases n,
{
    if n > 0 {
        law_noise_never_stops(lfsr, (n - 1) as nat);
    }
}

/// No two states of the noise generator lead to the same state.
pub proof fn law_noise_reversible(x: u32, y: u32)
    requires
        x < 0x2_0000,
        y < 0x2_0000,
        noise_stepped(x) == noise_stepped(y),
    ensures
        x == y,
{
    assert(x / 2 == y / 2);
    assert(x / 8 == (x / 2) / 4 && y / 8 == (y / 2) / 4);
    assert(x % 2 == y % 2);
}

/// What was written to a register is read back, and no other register changes.
pub proof fn law_read_back(ssg: SsgState, addr: u8, data: u8, other: u8)
    requires
        ssg.wf(),
        addr < 14,
    ensures
        ssg.written(addr, data).reg(addr) == data,
        other != addr ==> ssg.written(addr, data).reg(other) == ssg.reg(other),
{
}

/// Writes to two different registers can be exchanged.
pub proof fn law_writes_commute(ssg: SsgState, a: u8, x: u8, b: u8, y: u8)
    requires
        ssg.wf(),
        a != b,
    ensures
        ssg.written(a, x).written(b, y) == ssg.written(b, y).written(a, x),
{
    assert(ssg.written(a, x).written(b, y) =~= ssg.written(b, y).written(a, x));
}

/// The last write to a register counts.
pub proof fn law_last_write_counts(ssg: SsgState, addr: u8, x: u8, y: u8)
    requires
        ssg.wf(),
    ensures
        ssg.written(addr, x).written(addr, y) == ssg.written(addr, y),
{
    assert(ssg.written(addr, x).written(addr, y) =~= ssg.written(addr, y));
}

/// A channel with its tone enabled and its noise disabled follows the tone,
/// one with the noise alone follows the noise, one with both is high when
/// both are, and one with neither is high.
pub proof fn law_mixer(ssg: SsgState, ch: int, tone: bool)
    requires
        ssg.wf(),
        0 <= ch < 3,
    ensures
        ({
            let tone_off = bits::bit(ssg.regs[7], ch as u8);
            let noise_off = bits::bit(ssg.regs[7], (ch + 3) as u8);
            &&& !tone_off && noise_off ==> ssg.is_high(ch, tone) == tone
            &&& tone_off && !noise_off ==> ssg.is_high(ch, tone) == (ssg.noise_lfsr % 2 == 1)
            &&& tone_off && noise_off ==> ssg.is_high(ch, tone)
            &&& !tone_off && !noise_off ==> ssg.is_high(ch, tone) == (tone && ssg.noise_lfsr % 2
                == 1)
        }),
{
}

/// Every period is at least one, and every level fits the sixteen steps of
/// the amplitude curve.
pub proof fn law_ranges(ssg: SsgState, ch: int)
    requires
        ssg.wf(),
        0 <= ch < 3,
    ensures
        1 <= ssg.tone_period(ch) <= 4095,
        1 <= ssg.noise_period() <= 31,
        1 <= ssg.envelope_period() <= 65535,
        0 <= ssg.level(ch) <= 15,
{
}

/// What the three channels put out, bit by bit of the mixer: bits 0 to 2 take
/// the tones out of account, bits 3 to 5 the noise, and a channel is positive
/// when all that is left in account is high.
pub proof fn law_voices(ssg: SsgState, tone: bool)
    requires
        ssg.wf(),
    ensures
        ({
            let mixer = ssg.regs[7];
            let noise = ssg.noise_lfsr & 1 == 1;
            &&& ssg.voice(0, tone).positive == ((tone || mixer & 0x01 != 0) && (noise || mixer & 0x08
                != 0))
            &&& ssg.voice(1, tone).positive == ((tone || mixer & 0x02 != 0) && (noise || mixer & 0x10
                != 0))
            &&& ssg.voice(2, tone).positive == ((tone || mixer & 0x04 != 0) && (noise || mixer & 0x20
                != 0))
        }),
{
    bits::law_bits_are_masks(ssg.regs[7]);
    bits::lemma_noise_feedback(ssg.noise_lfsr);
}

/// A channel is as loud as the low four bits of its volume register say, or,
/// with the next bit set, as the envelope stands. The high bits do not count.
pub proof fn law_volume(ssg: SsgState, ch: int, tone: bool, volume: u8, spare: u8)
    requires
        ssg.wf(),
        0 <= ch < 3,
        volume < 16,
        spare < 8,
    ensures
        ({
            let fixed = ssg.written((8 + ch) as u8, (32 * spare + volume) as u8);
            let shaped = ssg.written((8 + ch) as u8, (32 * spare + 16 + volume) as u8);
            &&& fixed.voice(ch, tone).level == volume
            &&& shaped.voice(ch, tone).level == ssg.envelope.pos
            &&& fixed.voice(ch, tone).positive == ssg.voice(ch, tone).positive
            &&& shaped.voice(ch, tone).positive == ssg.voice(ch, tone).positive
        }),
{
    let fixed: u8 = (32 * spare + volume) as u8;
    let shaped: u8 = (32 * spare + 16 + volume) as u8;
    assert(fixed == 32 * spare + volume);
    assert(shaped == 32 * spare + 16 + volume);
    assert(fixed % 16 == volume);
    assert(!bits::bit(fixed, 4)) by {
        assert(fixed / 16 == 2 * spare);
    }
    assert(bits::bit(shaped, 4)) by {
        assert(shaped / 16 == 2 * spare + 1);
    }
}

/// A tone has a period of twelve bits: eight from the even register of its
/// channel, four from the odd one. Zero counts as one.
pub proof fn law_tone_period(ssg: SsgState, ch: int, fine: u8, coarse: u8, spare: u8)
    requires
        ssg.wf(),
        0 <= ch < 3,
        coarse < 16,
        spare < 16,
    ensures
        ({
            let later = ssg.written((2 * ch) as u8, fine).written(
                (2 * ch + 1) as u8,
                (16 * spare + coarse) as u8,
            );
            &&& fine == 0 && coarse == 0 ==> later.tone_period(ch) == 1
            &&& fine != 0 || coarse != 0 ==> later.tone_period(ch) == 256 * coarse + fine
        }),
{
    bits::lemma_packed(spare, coarse, 0);
}

/// The noise has a period of five bits and the envelope one of sixteen, low
/// byte first. Zero counts as one.
pub proof fn law_shared_periods(ssg: SsgState, noise: u8, spare: u8, fine: u8, coarse: u8)
    requires
        ssg.wf(),
        noise < 32,
        spare < 8,
    ensures
        noise == 0 ==> ssg.written(6, (32 * spare + noise) as u8).noise_period() == 1,
        noise != 0 ==> ssg.written(6, (32 * spare + noise) as u8).noise_period() == noise,
        ({
            let later = ssg.written(11, fine).written(12, coarse);
            &&& fine == 0 && coarse == 0 ==> later.envelope_period() == 1
            &&& fine != 0 || coarse != 0 ==> later.envelope_period() == 256 * coarse + fine
        }),
{
    bits::lemma_packed(0, noise, spare);
}

/// A write keeps to its register. Only one of the shape register touches the
/// envelope, and it starts it anew: rising from the bottom if bit 2 is set,
/// else falling from the top. None touches the noise.
pub proof fn law_write_scope(ssg: SsgState, addr: u8, data: u8)
    requires
        ssg.wf(),
    ensures
        ({
            let later = ssg.written(addr, data);
            &&& addr < 14 ==> later.regs == ssg.regs.update(addr as int, data)
            &&& addr >= 14 ==> later == ssg
            &&& later.noise_lfsr == ssg.noise_lfsr
            &&& addr != 13 ==> later.envelope == ssg.envelope && later.env_restart
                == ssg.env_restart
            &&& addr == 13 ==> later.env_restart && !later.envelope.holding
            &&& addr == 13 && data & 0x04 != 0 ==> later.envelope.pos == 0 && later.envelope.dir
                == 1
            &&& addr == 13 && data & 0x04 == 0 ==> later.envelope.pos == 15 && later.envelope.dir
                == -1
        }),
{
    bits::law_bits_are_masks(data);
}

/// The noise register shifts down by one bit and takes in, at its top, the
/// exclusive or of its bits 0 and 3.
pub proof fn law_noise_step(lfsr: u32)
    requires
        0 < lfsr < 0x2_0000,
    ensures
        noise_stepped(lfsr) == (lfsr >> 1) | (((lfsr ^ (lfsr >> 3)) & 1) << 16),
{
    bits::lemma_noise_feedback(lfsr);
}

/// The sixteen shapes by their number, `n` steps after their start: one ramp
/// down or up and then rest at zero or at the top, ramps one after the other,
/// or ramps back and forth. The high bits of the shape do not count.
pub proof fn law_sixteen_shapes(shape: u8, n: nat)
    ensures
        ({
            let pos = Envelope::start(shape).after(shape, n).pos;
            let kind = shape % 16;
            let k = n % 16;
            let back = (n / 16) % 2 == 1;
            let falls = kind < 4 || 8 <= kind < 12;
            &&& n < 16 && falls ==> pos == 15 - k
            &&& n < 16 && !falls ==> pos == k
            &&& n >= 16 && (kind < 8 || kind == 9 || kind == 15) ==> pos == 0
            &&& n >= 16 && (kind == 11 || kind == 13) ==> pos == 15
            &&& kind == 8 ==> pos == 15 - k
            &&& kind == 12 ==> pos == k
            &&& kind == 10 ==> pos == if back {
                k as int
            } else {
                15 - k
            }
            &&& kind == 14 ==> pos == if back {
                15 - k
            } else {
                k as int
            }
        }),
{
    law_envelope_follows_shape(shape, n);
    lemma_shape_bits(shape);
}

/// The four low bits of a shape, by its number.
proof fn lemma_shape_bits(shape: u8)
    ensures
        bits::bit(shape, 0) == ((shape % 16) % 2 == 1),
        bits::bit(shape, 1) == (((shape % 16) / 2) % 2 == 1),
        bits::bit(shape, 2) == (((shape % 16) / 4) % 2 == 1),
        bits::bit(shape, 3) == ((shape % 16) >= 8),
{
}

/// After power-up the envelope rises once to the top and then rests at zero,
/// if no shape is written.
pub proof fn law_first_ramp(n: nat)
    ensures
        ({
            let envelope = SsgState::initial().envelope.after(SsgState::initial().regs[13], n);
            &&& n < 16 ==> envelope.pos == n && envelope.dir == 1 && !envelope.holding
            &&& n >= 16 ==> envelope.pos == 0 && envelope.holding
        }),
    decreases n,
{
    if n > 0 {
        law_first_ramp((n - 1) as nat);
    }
}

/// Steps add up: some steps of the noise and the envelope and then some more
/// are as many steps in one, no step leaves both where they are, and the
/// registers stay. A step of the envelope follows the shape register.
pub proof fn law_steps_add_up(ssg: SsgState, a: nat, b: nat, c: nat, d: nat)
    requires
        ssg.wf(),
    ensures
        ssg.advanced(a, c).advanced(b, d) == ssg.advanced(a + b, c + d),
        ssg.advanced(0, 0) == (SsgState { env_restart: false, ..ssg }),
        ssg.advanced(1, 0) == (SsgState {
            noise_lfsr: noise_stepped(ssg.noise_lfsr),
            env_restart: false,
            ..ssg
        }),
        ssg.advanced(0, 1) == (SsgState {
            envelope: ssg.envelope.stepped(ssg.regs[13]),
            env_restart: false,
            ..ssg
        }),
{
    lemma_noise_adds(ssg.noise_lfsr, a, b);
    lemma_envelope_adds(ssg.envelope, ssg.regs[13], c, d);
    reveal_with_fuel(noise_after, 2);
    reveal_with_fuel(Envelope::after, 2);
}

proof fn lemma_noise_adds(lfsr: u32, a: nat, b: nat)
    ensures
        noise_after(noise_after(lfsr, a), b) == noise_after(lfsr, a + b),
    decreases b,
{
    if b > 0 {
        lemma_noise_adds(lfsr, a, (b - 1) as nat);
    }
}

proof fn lemma_envelope_adds(envelope: Envelope, shape: u8, a: nat, b: nat)
    ensures
        envelope.after(shape, a).after(shape, b) == envelope.after(shape, a + b),
    decreases b,
{
    if b > 0 {
        lemma_envelope_adds(envelope, shape, a, (b - 1) as nat);
    }
}

/// After power-up every register is zero, the noise register holds a one, and
/// the envelope stands at the bottom.
pub proof fn law_power_up(addr: u8)
    ensures
        SsgState::initial().reg(addr) == 0,
        SsgState::initial().regs.len() == 14,
        SsgState::initial().noise_lfsr == 1,
        SsgState::initial().envelope.pos == 0,
        SsgState::initial().envelope.dir == 1,
        !SsgState::initial().envelope.holding,
        !SsgState::initial().env_restart,
{
}

} // verus!
