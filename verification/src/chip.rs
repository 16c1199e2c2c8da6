//! The whole chip: FM section, SSG section, timers, prescaler and bus.

use vstd::prelude::*;
use crate::bits;
use crate::channel;
use crate::channel::ChannelState;
use crate::fm;
use crate::fm::{FmCore, FmState};
use crate::operator;
use crate::ssg;
use crate::ssg::{Ssg, SsgState, SsgVoice};

verus! {

/// Chip mode selected by register 0x27 bits 6-7.
#[derive(Clone, Copy, PartialEq, Eq, Structural, Debug)]
pub enum ChipMode {
    Normal,
    Csm,
    Special3Ch,
}

/// Period of a timer: `count * divider` cycles of the FM clock.
#[derive(Clone, Copy, PartialEq, Eq, Structural, Debug)]
pub struct TimerPeriod {
    pub count: u32,
    pub divider: u32,
}

/// A complete YM2203 chip instance.
#[derive(PartialEq, Eq, Debug)]
pub struct Ym2203 {
    fm: FmCore,
    ssg: Ssg,
    clock: u32,
    sample_rate: u32,
    prescaler_div: u32,  // 2, 3, or 6 (default 6)
    // --- timers ---
    timer_a_reg: u16,  // 10-bit reload value
    timer_b_reg: u8,  // 8-bit reload value
    timer_a_running: bool,
    timer_b_running: bool,
    timer_a_irq_enable: bool,
    timer_b_irq_enable: bool,
    mode: ChipMode,
    status: u8,
    addr_latch: u8,
}

/// Model of the chip.
#[verifier::ext_equal]
pub struct ChipState {
    pub fm: FmState,
    pub ssg: SsgState,
    pub clock: u32,
    pub sample_rate: u32,
    pub prescaler_div: u32,
    pub timer_a_reg: u16,
    pub timer_b_reg: u8,
    pub timer_a_running: bool,
    pub timer_b_running: bool,
    pub timer_a_irq_enable: bool,
    pub timer_b_irq_enable: bool,
    pub mode: ChipMode,
    pub status: u8,
    pub addr_latch: u8,
}

impl View for Ym2203 {
    type V = ChipState;

    closed spec fn view(&self) -> ChipState {
        ChipState {
            fm: self.fm@,
            ssg: self.ssg@,
            clock: self.clock,
            sample_rate: self.sample_rate,
            prescaler_div: self.prescaler_div,
            timer_a_reg: self.timer_a_reg,
            timer_b_reg: self.timer_b_reg,
            timer_a_running: self.timer_a_running,
            timer_b_running: self.timer_b_running,
            timer_a_irq_enable: self.timer_a_irq_enable,
            timer_b_irq_enable: self.timer_b_irq_enable,
            mode: self.mode,
            status: self.status,
            addr_latch: self.addr_latch,
        }
    }
}

/// The FM clock that an input clock and a prescaler give, in 32 bits. The
/// frequency formula holds for prescaler 6; a smaller one makes it faster.
pub open spec fn prescaled(clock: u32, prescaler_div: u32) -> u32 {
    (((clock * 6) / (prescaler_div as int)) % 0x1_0000_0000) as u32
}

/// Every sample twice: once for each of two channels.
pub open spec fn interleaved(mono: Seq<i16>) -> Seq<i16> {
    Seq::new(2 * mono.len(), |i: int| mono[i / 2])
}

/// The status byte of the overflow flags of the two timers.
pub open spec fn status_byte(timer_a: bool, timer_b: bool) -> u8 {
    if timer_a && timer_b {
        3
    } else if timer_b {
        2
    } else if timer_a {
        1
    } else {
        0
    }
}

pub open spec fn mode_of(data: u8) -> ChipMode {
    if data / 64 == 2 {
        ChipMode::Csm
    } else if data / 64 == 3 {
        ChipMode::Special3Ch
    } else {
        ChipMode::Normal
    }
}

impl ChipState {
    /// Both sections are valid, the FM section runs at the prescaled clock,
    /// only channel 3 can have frequencies of its own, and it has them in
    /// special mode alone.
    pub open spec fn wf(self) -> bool {
        &&& self.fm.wf()
        &&& self.ssg.wf()
        &&& self.prescaler_div == 2 || self.prescaler_div == 3 || self.prescaler_div == 6
        &&& self.fm.clock == prescaled(self.clock, self.prescaler_div)
        &&& self.timer_a_reg <= 1023
        &&& self.status <= 3
        &&& !self.fm.channels[0].special_mode
        &&& !self.fm.channels[1].special_mode
        &&& self.fm.channels[2].special_mode == (self.mode == ChipMode::Special3Ch)
    }

    pub open spec fn initial(clock: u32, sample_rate: u32) -> ChipState {
        ChipState {
            fm: FmState::initial(clock),
            ssg: SsgState::initial(),
            clock,
            sample_rate,
            prescaler_div: 6,
            timer_a_reg: 0,
            timer_b_reg: 0,
            timer_a_running: false,
            timer_b_running: false,
            timer_a_irq_enable: false,
            timer_b_irq_enable: false,
            mode: ChipMode::Normal,
            status: 0,
            addr_latch: 0,
        }
    }

    /// This chip with another prescaler.
    pub open spec fn rescaled(self, prescaler_div: u32) -> ChipState {
        ChipState {
            prescaler_div,
            fm: self.fm.clocked(prescaled(self.clock, prescaler_div)),
            ..self
        }
    }

    /// This chip after a write to the timer and mode register: bits 0 and 1
    /// run the timers, bits 2 and 3 let them set their flags, bits 4 and 5
    /// reset those flags, bits 6 and 7 select the mode.
    pub open spec fn mode_written(self, data: u8) -> ChipState {
        ChipState {
            timer_a_running: bits::bit(data, 0),
            timer_b_running: bits::bit(data, 1),
            timer_a_irq_enable: bits::bit(data, 2),
            timer_b_irq_enable: bits::bit(data, 3),
            status: status_byte(
                bits::bit(self.status, 0) && !bits::bit(data, 4),
                bits::bit(self.status, 1) && !bits::bit(data, 5),
            ),
            mode: mode_of(data),
            fm: self.fm.special(mode_of(data) == ChipMode::Special3Ch),
            ..self
        }
    }

    /// This chip after a register write, but for the latched address.
    pub open spec fn register_written(self, addr: u8, data: u8) -> ChipState {
        if addr <= 0x0D {
            ChipState { ssg: self.ssg.written(addr, data), ..self }
        } else if addr == 0x24 {
            ChipState { timer_a_reg: (self.timer_a_reg % 4 + 4 * data) as u16, ..self }
        } else if addr == 0x25 {
            ChipState {
                timer_a_reg: ((self.timer_a_reg / 4) * 4 + data % 4) as u16,
                ..self
            }
        } else if addr == 0x26 {
            ChipState { timer_b_reg: data, ..self }
        } else if addr == 0x27 {
            self.mode_written(data)
        } else if addr == 0x28 {
            ChipState { fm: self.fm.keyed(data), ..self }
        } else if addr == 0x2D {
            self.rescaled(2)
        } else if addr == 0x2E {
            self.rescaled(3)
        } else if addr == 0x2F {
            self.rescaled(6)
        } else if 0x30 <= addr <= 0xB7 {
            ChipState { fm: self.fm.written(addr, data), ..self }
        } else {
            self
        }
    }

    /// This chip after a register write, which also latches the address.
    pub open spec fn written(self, addr: u8, data: u8) -> ChipState {
        ChipState { addr_latch: addr, ..self }.register_written(addr, data)
    }

    /// Cycles of the FM clock from one overflow of Timer A to the next.
    pub open spec fn timer_a_cycles(self) -> int {
        72 * (1024 - self.timer_a_reg)
    }

    /// Cycles of the FM clock from one overflow of Timer B to the next.
    pub open spec fn timer_b_cycles(self) -> int {
        288 * (256 - self.timer_b_reg)
    }

    /// This chip after one sample of the timers, where each flag says whether
    /// the period of that timer has run out. An overflow of a running timer
    /// sets its flag where that is enabled, and one of Timer A fires the CSM
    /// pulse in CSM mode.
    pub open spec fn ticked(self, a_expired: bool, b_expired: bool) -> ChipState {
        let a_overflow = self.timer_a_running && a_expired;
        let b_overflow = self.timer_b_running && b_expired;
        ChipState {
            status: status_byte(
                bits::bit(self.status, 0) || (a_overflow && self.timer_a_irq_enable),
                bits::bit(self.status, 1) || (b_overflow && self.timer_b_irq_enable),
            ),
            fm: if a_overflow && self.mode == ChipMode::Csm {
                self.fm.csm_pulsed()
            } else {
                self.fm
            },
            ..self
        }
    }

    /// This chip after one sample of both sections.
    pub open spec fn advanced(
        self,
        reached: Seq<[bool; 4]>,
        noise_steps: nat,
        env_steps: nat,
    ) -> ChipState {
        ChipState {
            fm: self.fm.advanced(reached),
            ssg: self.ssg.advanced(noise_steps, env_steps),
            ..self
        }
    }
}

impl Ym2203 {
    /// Create a new chip instance.
    ///
    /// `clock` is the chip's input oscillator frequency in Hz (common
    /// real-world values: 3,993,600 Hz or 4,000,000 Hz for PC-88/PC-98
    /// era hardware; 1,500,000 Hz-3,000,000 Hz on various arcade boards).
    /// `sample_rate` is the desired output PCM sample rate in Hz.
    pub fn new(clock: u32, sample_rate: u32) -> (chip: Self)
        ensures
            chip@ == ChipState::initial(clock, sample_rate),
            chip@.wf(),
    {
        Ym2203 {
            fm: FmCore::new(clock),
            ssg: Ssg::new(),
            clock,
            sample_rate,
            prescaler_div: 6,
            timer_a_reg: 0,
            timer_b_reg: 0,
            timer_a_running: false,
            timer_b_running: false,
            timer_a_irq_enable: false,
            timer_b_irq_enable: false,
            mode: ChipMode::Normal,
            status: 0,
            addr_latch: 0,
        }
    }

    /// The FM clock: the input clock, scaled up when a faster prescaler than
    /// the default is selected.
    pub fn effective_clock(&self) -> (clock: u32)
        requires
            self@.wf(),
        ensures
            clock == prescaled(self@.clock, self@.prescaler_div),
            clock == self@.fm.clock,
    {
        Ym2203::prescale(self.clock, self.prescaler_div)
    }

    fn prescale(clock: u32, prescaler_div: u32) -> (scaled: u32)
        requires
            prescaler_div > 0,
        ensures
            scaled == prescaled(clock, prescaler_div),
    {
        let cycles: u64 = ((clock as u64) * 6) / (prescaler_div as u64);
        proof {
            bits::lemma_low_word(cycles);
        }
        cycles as u32
    }

    /// The FM section.
    pub fn fm(&self) -> (fm: &FmCore)
        ensures
            fm@ == self@.fm,
            self@.wf() ==> fm@.wf(),
    {
        &self.fm
    }

    /// The SSG section.
    pub fn ssg(&self) -> (ssg: &Ssg)
        ensures
            ssg@ == self@.ssg,
            self@.wf() ==> ssg@.wf(),
    {
        &self.ssg
    }

    /// The input clock in Hz.
    pub fn clock(&self) -> (clock: u32)
        ensures
            clock == self@.clock,
    {
        self.clock
    }

    /// The output sample rate in Hz.
    pub fn sample_rate(&self) -> (rate: u32)
        ensures
            rate == self@.sample_rate,
    {
        self.sample_rate
    }

    pub fn mode(&self) -> (mode: ChipMode)
        ensures
            mode == self@.mode,
    {
        self.mode
    }

    pub fn timer_a_running(&self) -> (running: bool)
        ensures
            running == self@.timer_a_running,
    {
        self.timer_a_running
    }

    pub fn timer_b_running(&self) -> (running: bool)
        ensures
            running == self@.timer_b_running,
    {
        self.timer_b_running
    }

    /// Two-step register write, as on the real bus: latch the address,
    /// then write data to it. Equivalent to `write(addr, data)`.
    pub fn write_addr(&mut self, addr: u8)
        ensures
            final(self)@ == (ChipState { addr_latch: addr, ..old(self)@ }),
            old(self)@.wf() ==> final(self)@.wf(),
    {
        self.addr_latch = addr;
    }

    /// Two-step register write (data half). See [`Ym2203::write_addr`].
    pub fn write_data(&mut self, data: u8)
        requires
            old(self)@.wf(),
        ensures
            final(self)@ == old(self)@.written(old(self)@.addr_latch, data),
            final(self)@.wf(),
    {
        let addr: u8 = self.addr_latch;
        self.write(addr, data);
    }

    /// Selects a prescaler; the FM section follows.
    fn set_prescaler(&mut self, prescaler_div: u32)
        requires
            old(self)@.wf(),
            prescaler_div == 2 || prescaler_div == 3 || prescaler_div == 6,
        ensures
            final(self)@ == old(self)@.rescaled(prescaler_div),
            final(self)@.wf(),
    {
        self.prescaler_div = prescaler_div;
        let clock: u32 = Ym2203::prescale(self.clock, prescaler_div);
        self.fm.set_clock(clock);
    }

    /// The status register once bits 4-5 of register 0x27 have taken the
    /// timer flags back.
    fn acknowledge(status: u8, data: u8) -> (left: u8)
        requires
            status <= 3,
        ensures
            left == status_byte(
                bits::bit(status, 0) && !bits::bit(data, 4),
                bits::bit(status, 1) && !bits::bit(data, 5),
            ),
    {
        let mut left: u8 = status;
        if bits::test_bit(data, 4) {
            proof {
                bits::lemma_status(left);
            }
            left = left & !0x01;
        }
        if bits::test_bit(data, 5) {
            proof {
                bits::lemma_status(left);
            }
            left = left & !0x02;
        }
        left
    }

    /// The mode that bits 6-7 of register 0x27 select.
    fn decode_mode(data: u8) -> (mode: ChipMode)
        ensures
            mode == mode_of(data),
    {
        proof {
            bits::lemma_byte_fields(data);
        }
        match (data >> 6) & 0x03 {
            2 => ChipMode::Csm,
            3 => ChipMode::Special3Ch,
            _ => ChipMode::Normal,
        }
    }

    /// Register 0x27: timer control and chip mode.
    fn write_mode(&mut self, data: u8)
        requires
            old(self)@.wf(),
        ensures
            final(self)@ == old(self)@.mode_written(data),
            final(self)@.wf(),
    {
        self.timer_a_running = bits::test_bit(data, 0);
        self.timer_b_running = bits::test_bit(data, 1);
        self.timer_a_irq_enable = bits::test_bit(data, 2);
        self.timer_b_irq_enable = bits::test_bit(data, 3);
        self.status = Ym2203::acknowledge(self.status, data);
        self.mode = Ym2203::decode_mode(data);
        self.fm.set_special_mode(self.mode == ChipMode::Special3Ch);
    }

    /// Write a single YM2203 register directly.
    #[verifier::rlimit(40)]
    pub fn write(&mut self, addr: u8, data: u8)
        requires
            old(self)@.wf(),
        ensures
            final(self)@ == old(self)@.written(addr, data),
            final(self)@.wf(),
    {
        self.addr_latch = addr;
        match addr {
            0x00..=0x0D => {
                self.ssg.write(addr, data);
            },
            0x24 => {
                proof {
                    bits::lemma_timer_a(self.timer_a_reg, data as u16, 0);
                }
                self.timer_a_reg = (self.timer_a_reg & 0x0003) | ((data as u16) << 2u16);
            },
            0x25 => {
                proof {
                    bits::lemma_timer_a(self.timer_a_reg, 0, data as u16);
                }
                self.timer_a_reg = (self.timer_a_reg & !0x0003) | (data as u16 & 0x03);
            },
            0x26 => {
                self.timer_b_reg = data;
            },
            0x27 => {
                self.write_mode(data);
            },
            0x28 => {
                self.fm.key_control(data);
            },
            0x2D => {
                self.set_prescaler(2);
            },
            0x2E => {
                self.set_prescaler(3);
            },
            0x2F => {
                self.set_prescaler(6);
            },
            0x30..=0xB7 => {
                self.fm.write(addr, data);
            },
            _ => {
                // unused/reserved on the YM2203
            },
        }
    }

    /// Read the chip status register (Timer A/B overflow flags in bits
    /// 0/1; busy flag in bit 7, always 0 since register writes are applied
    /// instantaneously).
    pub fn read_status(&self) -> (status: u8)
        requires
            self@.wf(),
        ensures
            status == self@.status,
            status == status_byte(bits::bit(status, 0), bits::bit(status, 1)),
    {
        self.status
    }

    /// Read back the value of an SSG register (0x00-0x0D), as real
    /// YM2203 hardware allows. Other addresses return 0.
    pub fn read_ssg(&self, addr: u8) -> (data: u8)
        requires
            self@.wf(),
        ensures
            data == self@.ssg.reg(addr),
    {
        if addr <= 0x0D {
            self.ssg.read(addr)
        } else {
            0
        }
    }

    /// Period of Timer A: it counts up from its reload value to 1024, once
    /// in 72 cycles.
    pub fn timer_a_period(&self) -> (period: TimerPeriod)
        requires
            self@.wf(),
        ensures
            period == (TimerPeriod { count: (1024 - self@.timer_a_reg) as u32, divider: 72 }),
            period.count * period.divider == self@.timer_a_cycles(),
            period.count >= 1,
    {
        TimerPeriod { count: 1024 - self.timer_a_reg as u32, divider: 72 }
    }

    /// Period of Timer B: it counts up from its reload value to 256, once in
    /// 288 cycles.
    pub fn timer_b_period(&self) -> (period: TimerPeriod)
        ensures
            period == (TimerPeriod { count: (256 - self@.timer_b_reg) as u32, divider: 288 }),
            period.count * period.divider == self@.timer_b_cycles(),
            period.count >= 1,
    {
        TimerPeriod { count: 256 - self.timer_b_reg as u32, divider: 288 }
    }

    /// Advances the timers by one sample. Each argument says whether the
    /// period of that timer has run out in this sample.
    pub fn tick_timers(&mut self, a_expired: bool, b_expired: bool)
        requires
            old(self)@.wf(),
        ensures
            final(self)@ == old(self)@.ticked(a_expired, b_expired),
            final(self)@.wf(),
    {
        if self.timer_a_running && a_expired {
            if self.timer_a_irq_enable {
                proof {
                    bits::lemma_status(self.status);
                }
                self.status = self.status | 0x01;
            }
            if self.mode == ChipMode::Csm {
                self.fm.csm_trigger();
            }
        }
        if self.timer_b_running && b_expired {
            if self.timer_b_irq_enable {
                proof {
                    bits::lemma_status(self.status);
                }
                self.status = self.status | 0x02;
            }
        }
    }

    /// Ends one sample of both sections; see [`FmCore::advance`] and
    /// [`Ssg::render`] for the arguments and the results.
    pub fn advance(
        &mut self,
        reached: [[bool; 4]; 3],
        tones: [bool; 3],
        noise_steps: u64,
        env_steps: u64,
    ) -> (sample: ([[Option<u8>; 4]; 3], [SsgVoice; 3]))
        requires
            old(self)@.wf(),
        ensures
            final(self)@ == old(self)@.advanced(reached@, noise_steps as nat, env_steps as nat),
            forall|ch: int|
                0 <= ch < 3 ==> (#[trigger] sample.0[ch])@ == old(self)@.fm.advanced_levels(
                    reached@,
                    ch,
                ),
            forall|ch: int|
                0 <= ch < 3 ==> #[trigger] sample.1[ch] == final(self)@.ssg.voice(ch, tones[ch]),
            final(self)@.wf(),
    {
        let levels = self.fm.advance(reached);
        let voices = self.ssg.render(tones, noise_steps, env_steps);
        (levels, voices)
    }

    /// Interleaved stereo from mono samples (the YM2203 itself is mono; both
    /// channels receive the same signal).
    pub fn generate_stereo(mono: &Vec<i16>) -> (stereo: Vec<i16>)
        ensures
            stereo@.len() == 2 * mono@.len(),
            forall|i: int|
                0 <= i < mono@.len() ==> stereo@[2 * i] == #[trigger] mono@[i] && stereo@[2 * i + 1]
                    == mono@[i],
            stereo@ == interleaved(mono@),
    {
        let mut stereo: Vec<i16> = Vec::new();
        for n in 0..mono.len()
            invariant
                stereo@.len() == 2 * n,
                forall|i: int|
                    0 <= i < n ==> stereo@[2 * i] == #[trigger] mono@[i] && stereo@[2 * i + 1]
                        == mono@[i],
        {
            let sample: i16 = mono[n];
            stereo.push(sample);
            stereo.push(sample);
        }
        assert forall|i: int| 0 <= i < 2 * mono@.len() implies #[trigger] stereo@[i] == interleaved(
            mono@,
        )[i] by {
            let n = i / 2;
            assert(stereo@[2 * n] == mono@[n] && stereo@[2 * n + 1] == mono@[n]);
        }
        assert(stereo@ =~= interleaved(mono@));
        stereo
    }
}

/// What one sample of the signal generators tells the chip.
pub struct SampleInput {
    pub a_expired: bool,
    pub b_expired: bool,
    pub reached: Seq<[bool; 4]>,
    pub noise_steps: nat,
    pub env_steps: nat,
}

impl ChipState {
    /// This chip after one sample: the timers, then both sections.
    pub open spec fn sampled(self, input: SampleInput) -> ChipState {
        self.ticked(input.a_expired, input.b_expired).advanced(
            input.reached,
            input.noise_steps,
            input.env_steps,
        )
    }

    /// This chip after a number of samples.
    pub open spec fn sampled_all(self, inputs: Seq<SampleInput>) -> ChipState
        decreases inputs.len(),
    {
        if inputs.len() == 0 {
            self
        } else {
            self.sampled_all(inputs.drop_last()).sampled(inputs.last())
        }
    }

    /// Whether nothing can sound: every FM operator is off and not keyed,
    /// every SSG volume is zero, and Timer A does not run.
    pub open spec fn idle(self) -> bool {
        &&& forall|ch: int, slot: int|
            0 <= ch < 3 && 0 <= slot < 4 ==> (#[trigger] self.fm.channels[ch].ops[slot]).eg_phase
                == operator::EgPhase::Off && !self.fm.channels[ch].ops[slot].key_on
        &&& forall|ch: int| 0 <= ch < 3 ==> #[trigger] self.ssg.regs[8 + ch] == 0
        &&& !self.timer_a_running
    }

    /// Whether no FM operator has an output and every SSG channel has level
    /// zero, whatever its tone generator does.
    pub open spec fn silent(self) -> bool {
        &&& forall|ch: int, slot: int|
            0 <= ch < 3 && 0 <= slot < 4 ==> (#[trigger] self.fm.channels[ch].slot_plan(
                slot,
            )).output is None
        &&& forall|ch: int, tone: bool|
            0 <= ch < 3 ==> (#[trigger] self.ssg.voice(ch, tone)).level == 0
    }
}

/// An idle chip is silent, and one more sample leaves it idle, whatever its
/// signal generators do.
pub proof fn law_idle_lasts(chip: ChipState, input: SampleInput)
    requires
        chip.idle(),
    ensures
        chip.silent(),
        chip.sampled(input).idle(),
{
    assert forall|ch: int, tone: bool| 0 <= ch < 3 implies (#[trigger] chip.ssg.voice(
        ch,
        tone,
    )).level == 0 by {
        assert(chip.ssg.regs[8 + ch] == 0);
    }
    let later = chip.sampled(input);
    assert forall|ch: int, slot: int| 0 <= ch < 3 && 0 <= slot < 4 implies (
    #[trigger] later.fm.channels[ch].ops[slot]).eg_phase == operator::EgPhase::Off
        && !later.fm.channels[ch].ops[slot].key_on by {
        operator::law_silence_lasts(
            chip.fm.channels[ch].ops[slot],
            chip.fm.channels[ch].slot_keycode(slot),
            input.reached[ch]@[slot],
        );
    }
    assert forall|ch: int| 0 <= ch < 3 implies #[trigger] later.ssg.regs[8 + ch] == 0 by {
        assert(chip.ssg.regs[8 + ch] == 0);
    }
}

/// A new chip is silent for as long as no register is written.
pub proof fn law_new_chip_is_silent(clock: u32, sample_rate: u32, inputs: Seq<SampleInput>)
    ensures
        ChipState::initial(clock, sample_rate).sampled_all(inputs).idle(),
        ChipState::initial(clock, sample_rate).sampled_all(inputs).silent(),
    decreases inputs.len(),
{
    let start = ChipState::initial(clock, sample_rate);
    if inputs.len() > 0 {
        law_new_chip_is_silent(clock, sample_rate, inputs.drop_last());
        law_idle_lasts(start.sampled_all(inputs.drop_last()), inputs.last());
        law_idle_lasts(start.sampled_all(inputs), inputs.last());
    } else {
        law_idle_lasts(
            start,
            SampleInput {
                a_expired: false,
                b_expired: false,
                reached: Seq::empty(),
                noise_steps: 0,
                env_steps: 0,
            },
        );
    }
}

/// Every operator always has the pitch that the registers ask for: the
/// F-Number times the prescaled clock times two to the block.
pub proof fn law_pitch_follows_registers(chip: ChipState, ch: int, slot: int)
    requires
        chip.wf(),
        0 <= ch < 3,
        0 <= slot < 4,
    ensures
        ({
            let channel = chip.fm.channels[ch];
            let clock = prescaled(chip.clock, chip.prescaler_div);
            channel.ops[slot].pitch.base == channel.slot_fnum(slot) * clock * bits::pow2(
                channel.slot_block(slot) as int,
            )
        }),
        ch != 2 || chip.mode != ChipMode::Special3Ch || slot == 3
            ==> chip.fm.channels[ch].slot_fnum(slot) == chip.fm.channels[ch].fnum,
{
    let channel = chip.fm.channels[ch];
    assert(channel.wf());
    assert(channel.in_tune(chip.fm.clock));
    operator::lemma_base_exact(
        channel.ops[slot],
        channel.slot_fnum(slot),
        channel.slot_block(slot),
        chip.fm.clock,
    );
    if channel.special_mode && slot < 3 {
        assert(channel.special_block[slot] <= 7);
    }
}

/// Rendering a sample changes no register: what was written stays, in both
/// sections, in the timers and in the mode.
pub proof fn law_sampling_keeps_registers(chip: ChipState, input: SampleInput, ch: int, slot: int)
    requires
        chip.wf(),
        0 <= ch < 3,
        0 <= slot < 4,
    ensures
        ({
            let later = chip.sampled(input);
            let op = chip.fm.channels[ch].ops[slot];
            let later_op = later.fm.channels[ch].ops[slot];
            &&& later == (ChipState {
                fm: later.fm,
                ssg: later.ssg,
                status: later.status,
                ..chip
            })
            &&& later.ssg.regs == chip.ssg.regs
            &&& later.fm.clock == chip.fm.clock
            &&& later.fm.channels[ch] == (ChannelState {
                ops: later.fm.channels[ch].ops,
                ..chip.fm.channels[ch]
            })
            &&& later_op == (operator::OperatorState {
                eg_phase: later_op.eg_phase,
                key_on: later_op.key_on,
                ssg_invert: later_op.ssg_invert,
                restart: later_op.restart,
                ..op
            })
        }),
{
    assert(chip.fm.channels[ch].wf());
    let ticked = chip.ticked(input.a_expired, input.b_expired);
    assert(ticked.fm.channels[ch].ops[slot].wf());
    operator::law_phase_order(
        ticked.fm.channels[ch].ops[slot],
        ticked.fm.channels[ch].slot_keycode(slot),
        input.reached[ch]@[slot],
    );
}

/// Latching the address and then writing the data is writing the register.
pub proof fn law_two_step_write(chip: ChipState, addr: u8, data: u8)
    ensures
        ({
            let latched = ChipState { addr_latch: addr, ..chip };
            latched.written(latched.addr_latch, data) == chip.written(addr, data)
        }),
{
}

/// An address without a register changes nothing but the latched address.
pub proof fn law_reserved_address(chip: ChipState, addr: u8, data: u8)
    requires
        0x0E <= addr <= 0x23 || 0x29 <= addr <= 0x2C || addr >= 0xB3 || (addr >= 0x30 && addr % 4
            == 3),
    ensures
        chip.written(addr, data) == (ChipState { addr_latch: addr, ..chip }),
{
}

/// An SSG register reads back what was last written to it, whatever is
/// written elsewhere; other addresses always read 0.
pub proof fn law_ssg_read_back(chip: ChipState, addr: u8, data: u8, read: u8)
    requires
        chip.wf(),
    ensures
        chip.written(addr, data).ssg.reg(read) == if read > 0x0D {
            0
        } else if read == addr {
            data
        } else {
            chip.ssg.reg(read)
        },
{
}

/// A write reaches one part of the chip: SSG registers leave the FM section,
/// the timers and the mode alone, all others leave the SSG section alone, and
/// none changes the input clock or the sample rate.
pub proof fn law_sections_independent(chip: ChipState, addr: u8, data: u8)
    ensures
        addr <= 0x0D ==> chip.written(addr, data) == (ChipState {
            addr_latch: addr,
            ssg: chip.ssg.written(addr, data),
            ..chip
        }),
        addr > 0x0D ==> chip.written(addr, data).ssg == chip.ssg,
        chip.written(addr, data).clock == chip.clock,
        chip.written(addr, data).sample_rate == chip.sample_rate,
        chip.written(addr, data).addr_latch == addr,
{
}

/// The two registers of Timer A can be written in either order.
pub proof fn law_timer_a_halves(chip: ChipState, high: u8, low: u8)
    requires
        chip.wf(),
    ensures
        chip.written(0x24, high).written(0x25, low).timer_a_reg == 4 * high + low % 4,
        chip.written(0x25, low).written(0x24, high).timer_a_reg == 4 * high + low % 4,
{
}

/// No write sets a status flag, and only a write to 0x27 resets one: that of
/// Timer A by bit 4, that of Timer B by bit 5.
pub proof fn law_status_reset(chip: ChipState, addr: u8, data: u8)
    requires
        chip.wf(),
    ensures
        bits::bit(chip.written(addr, data).status, 0) == (bits::bit(chip.status, 0) && !(addr == 0x27
            && bits::bit(data, 4))),
        bits::bit(chip.written(addr, data).status, 1) == (bits::bit(chip.status, 1) && !(addr == 0x27
            && bits::bit(data, 5))),
        chip.written(addr, data).status <= 3,
{
}

/// A timer flag is set by an overflow of that timer, if it runs and may set
/// it, and stays set while the timers run on. The busy flag is never set.
pub proof fn law_status_set(chip: ChipState, a_expired: bool, b_expired: bool)
    requires
        chip.wf(),
    ensures
        bits::bit(chip.ticked(a_expired, b_expired).status, 0) == (bits::bit(chip.status, 0) || (
        a_expired && chip.timer_a_running && chip.timer_a_irq_enable)),
        bits::bit(chip.ticked(a_expired, b_expired).status, 1) == (bits::bit(chip.status, 1) || (
        b_expired && chip.timer_b_running && chip.timer_b_irq_enable)),
        !bits::bit(chip.ticked(a_expired, b_expired).status, 7),
{
}

/// The timers touch the FM section only in CSM mode, and there only channel 3.
pub proof fn law_csm_pulse(chip: ChipState, a_expired: bool, b_expired: bool, ch: int)
    requires
        chip.wf(),
        0 <= ch < 3,
    ensures
        chip.mode != ChipMode::Csm ==> chip.ticked(a_expired, b_expired).fm == chip.fm,
        ch != 2 ==> chip.ticked(a_expired, b_expired).fm.channels[ch] == chip.fm.channels[ch],
        chip.mode == ChipMode::Csm && chip.timer_a_running && a_expired ==> chip.ticked(
            a_expired,
            b_expired,
        ).fm.channels[2] == chip.fm.channels[2].pulsed(),
{
}

/// The three prescalers run the FM section at once, twice and three times the
/// input clock.
pub proof fn law_prescaler(chip: ChipState, data: u8)
    ensures
        chip.written(0x2F, data).fm.clock == chip.clock,
        2 * chip.clock <= u32::MAX ==> chip.written(0x2E, data).fm.clock == 2 * chip.clock,
        3 * chip.clock <= u32::MAX ==> chip.written(0x2D, data).fm.clock == 3 * chip.clock,
{
}

/// Writing a register twice with the same value is writing it once.
#[verifier::rlimit(40)]
pub proof fn law_write_idempotent(chip: ChipState, addr: u8, data: u8)
    requires
        chip.wf(),
    ensures
        chip.written(addr, data).written(addr, data) == chip.written(addr, data),
{
    fm::law_write_idempotent(chip.fm, addr, data);
    ssg::law_last_write_counts(chip.ssg, addr, data, data);
    let once = chip.written(addr, data);
    if addr == 0x27 {
        let channel = ChannelState {
            special_mode: mode_of(data) == ChipMode::Special3Ch,
            ..chip.fm.channels[2]
        };
        channel::law_tuning_settles(channel, chip.fm.clock);
        assert(once.written(addr, data).fm =~= once.fm);
    } else if 0x2D <= addr <= 0x2F {
        assert forall|ch: int| 0 <= ch < 3 implies once.written(addr, data).fm.channels[ch]
            == once.fm.channels[ch] by {
            assert(chip.fm.channels[ch].wf());
            channel::law_tuning_settles(chip.fm.channels[ch], once.fm.clock);
        }
        assert(once.written(addr, data).fm =~= once.fm);
    }
}

/// Register 0x27, bit by bit: bits 0 and 1 run the timers, bits 2 and 3 let
/// Timer A and Timer B set their flags, bits 4 and 5 take those flags back,
/// and the two high bits select CSM mode (2), special mode (3) or neither.
pub proof fn law_mode_register(chip: ChipState, data: u8)
    requires
        chip.wf(),
    ensures
        ({
            let later = chip.written(0x27, data);
            &&& later.timer_a_running == (data & 0x01 != 0)
            &&& later.timer_b_running == (data & 0x02 != 0)
            &&& later.timer_a_irq_enable == (data & 0x04 != 0)
            &&& later.timer_b_irq_enable == (data & 0x08 != 0)
            &&& data & 0x10 == 0 && data & 0x20 == 0 ==> later.status == chip.status
            &&& data & 0x10 != 0 && data & 0x20 == 0 ==> later.status == chip.status & 0x02
            &&& data & 0x10 == 0 && data & 0x20 != 0 ==> later.status == chip.status & 0x01
            &&& data & 0x10 != 0 && data & 0x20 != 0 ==> later.status == 0
            &&& data < 0x80 ==> later.mode == ChipMode::Normal
            &&& 0x80 <= data < 0xC0 ==> later.mode == ChipMode::Csm
            &&& 0xC0 <= data ==> later.mode == ChipMode::Special3Ch
            &&& later.fm == chip.fm.special(data >= 0xC0)
        }),
{
    bits::law_bits_are_masks(data);
    let status = chip.status;
    assert(status & 0x01 == status % 2 && status & 0x02 == 2 * (status / 2)) by (bit_vector)
        requires
            status <= 3,
    ;
}

/// After a write of register 0x27 an overflow sets the flag of its timer
/// exactly if that timer runs and has its own enable bit, whatever the bits of
/// the other timer are.
pub proof fn law_overflow_flags(chip: ChipState, data: u8, a_expired: bool, b_expired: bool)
    requires
        chip.wf(),
        data & 0x30 == 0x30,
    ensures
        ({
            let status = chip.written(0x27, data).ticked(a_expired, b_expired).status;
            &&& (status & 0x01 != 0) == (a_expired && data & 0x01 != 0 && data & 0x04 != 0)
            &&& (status & 0x02 != 0) == (b_expired && data & 0x02 != 0 && data & 0x08 != 0)
            &&& status & 0xFC == 0
        }),
{
    assert(data & 0x10 != 0 && data & 0x20 != 0) by (bit_vector)
        requires
            data & 0x30 == 0x30,
    ;
    law_mode_register(chip, data);
    let later = chip.written(0x27, data);
    law_ticks(later, a_expired, b_expired);
    bits::law_bits_are_masks(later.ticked(a_expired, b_expired).status);
    bits::law_bits_are_masks(later.status);
}

/// A sample of the timers only adds to the status: Timer A its bit 0, Timer B
/// its bit 1, each on an overflow while it runs and may. Beside the status
/// only the FM section can change, by a CSM pulse: in CSM mode, on an overflow
/// of a running Timer A, whether or not that may set its flag.
pub proof fn law_ticks(chip: ChipState, a_expired: bool, b_expired: bool)
    requires
        chip.wf(),
    ensures
        ({
            let later = chip.ticked(a_expired, b_expired);
            let a_flag = a_expired && chip.timer_a_running && chip.timer_a_irq_enable;
            let b_flag = b_expired && chip.timer_b_running && chip.timer_b_irq_enable;
            let pulse = a_expired && chip.timer_a_running && chip.mode == ChipMode::Csm;
            &&& !a_flag && !b_flag ==> later.status == chip.status
            &&& a_flag && !b_flag ==> later.status == chip.status | 0x01
            &&& !a_flag && b_flag ==> later.status == chip.status | 0x02
            &&& a_flag && b_flag ==> later.status == 0x03
            &&& later.status & 0xFC == 0
            &&& !pulse ==> later.fm == chip.fm
            &&& pulse ==> later.fm == (FmState {
                channels: chip.fm.channels.update(2, chip.fm.channels[2].pulsed()),
                ..chip.fm
            })
            &&& later == (ChipState { status: later.status, fm: later.fm, ..chip })
        }),
{
    bits::lemma_status(chip.status);
    let status = chip.ticked(a_expired, b_expired).status;
    assert(status & 0xFC == 0) by (bit_vector)
        requires
            status <= 3,
    ;
}

/// The reload values: 0x24 holds the high eight bits of Timer A, 0x25 the low
/// two, each leaving the other as it is, and 0x26 holds that of Timer B.
pub proof fn law_timer_registers(chip: ChipState, data: u8, low: u8, spare: u8)
    requires
        chip.wf(),
        low < 4,
        spare < 64,
    ensures
        chip.written(0x24, data).timer_a_reg / 4 == data,
        chip.written(0x24, data).timer_a_reg % 4 == chip.timer_a_reg % 4,
        chip.written(0x25, (4 * spare + low) as u8).timer_a_reg % 4 == low,
        chip.written(0x25, (4 * spare + low) as u8).timer_a_reg / 4 == chip.timer_a_reg / 4,
        chip.written(0x26, data).timer_b_reg == data,
{
    assert((4 * spare + low) as u8 % 4 == low);
}

/// A timer overflows after one tick at its highest reload value, and one tick
/// later for each value below it. A tick is 72 cycles of Timer A and 288 of
/// Timer B.
pub proof fn law_timer_cycles(chip: ChipState, other: ChipState)
    requires
        chip.wf(),
        other.wf(),
    ensures
        chip.timer_a_reg == 1023 ==> chip.timer_a_cycles() == 72,
        chip.timer_b_reg == 255 ==> chip.timer_b_cycles() == 288,
        chip.timer_a_reg == other.timer_a_reg + 1 ==> other.timer_a_cycles()
            == chip.timer_a_cycles() + 72,
        chip.timer_b_reg == other.timer_b_reg + 1 ==> other.timer_b_cycles()
            == chip.timer_b_cycles() + 288,
{
}

/// Which write reaches what: each part of the chip but the latched address
/// stays as it is under every write that is not meant for it.
pub proof fn law_write_scope(chip: ChipState, addr: u8, data: u8)
    requires
        chip.wf(),
    ensures
        ({
            let later = chip.written(addr, data);
            &&& later.addr_latch == addr
            &&& later.clock == chip.clock && later.sample_rate == chip.sample_rate
            &&& addr != 0x24 && addr != 0x25 ==> later.timer_a_reg == chip.timer_a_reg
            &&& addr != 0x26 ==> later.timer_b_reg == chip.timer_b_reg
            &&& addr != 0x27 ==> later.timer_a_running == chip.timer_a_running
                && later.timer_b_running == chip.timer_b_running && later.timer_a_irq_enable
                == chip.timer_a_irq_enable && later.timer_b_irq_enable == chip.timer_b_irq_enable
                && later.status == chip.status && later.mode == chip.mode
            &&& !(0x2D <= addr <= 0x2F) ==> later.prescaler_div == chip.prescaler_div
                && later.fm.clock == chip.fm.clock
            &&& addr <= 0x0D ==> later.ssg == chip.ssg.written(addr, data)
            &&& addr > 0x0D ==> later.ssg == chip.ssg
            &&& addr == 0x28 ==> later.fm == chip.fm.keyed(data)
            &&& 0x30 <= addr ==> later.fm == chip.fm.written(addr, data)
            &&& addr < 0x27 || 0x28 < addr < 0x2D ==> later.fm == chip.fm
        }),
{
}

/// The addresses 0x2D, 0x2E and 0x2F select the prescalers 2, 3 and 6, and
/// run the FM section at three times, twice and once the input clock, in 32
/// bits. What is written does not matter.
pub proof fn law_prescaler_select(chip: ChipState, data: u8)
    ensures
        chip.written(0x2D, data).prescaler_div == 2,
        chip.written(0x2E, data).prescaler_div == 3,
        chip.written(0x2F, data).prescaler_div == 6,
        chip.written(0x2D, data).fm.clock == (3 * chip.clock) % 0x1_0000_0000,
        chip.written(0x2E, data).fm.clock == (2 * chip.clock) % 0x1_0000_0000,
        chip.written(0x2F, data).fm.clock == chip.clock,
{
    let clock = chip.clock;
    assert((clock * 6) / 2 == 3 * clock);
    assert((clock * 6) / 3 == 2 * clock);
    assert((clock * 6) / 6 == clock);
}

/// Selecting a prescaler tunes every channel to the new clock.
pub proof fn law_prescaler_tunes(chip: ChipState, addr: u8, data: u8, ch: int)
    requires
        0x2D <= addr <= 0x2F,
        0 <= ch < 3,
    ensures
        chip.written(addr, data).fm.channels.len() == 3,
        chip.written(addr, data).fm.channels[ch] == chip.fm.channels[ch].tuned(
            chip.written(addr, data).fm.clock,
        ),
{
}

/// A sample of both sections steps each by its own report and leaves the
/// rest of the chip as it is.
pub proof fn law_sample(
    chip: ChipState,
    reached: Seq<[bool; 4]>,
    noise_steps: nat,
    env_steps: nat,
)
    ensures
        chip.advanced(reached, noise_steps, env_steps) == (ChipState {
            fm: chip.fm.advanced(reached),
            ssg: chip.ssg.advanced(noise_steps, env_steps),
            ..chip
        }),
{
}

/// After power-up the timers stand still with nothing in their registers, the
/// status is zero, the mode is normal, and the FM section runs at the input
/// clock.
pub proof fn law_power_up(clock: u32, sample_rate: u32)
    ensures
        ({
            let chip = ChipState::initial(clock, sample_rate);
            &&& chip.clock == clock && chip.sample_rate == sample_rate
            &&& chip.fm == FmState::initial(clock)
            &&& chip.ssg == SsgState::initial()
            &&& chip.prescaler_div == 6
            &&& chip.timer_a_reg == 0 && chip.timer_b_reg == 0
            &&& !chip.timer_a_running && !chip.timer_b_running
            &&& !chip.timer_a_irq_enable && !chip.timer_b_irq_enable
            &&& chip.mode == ChipMode::Normal
            &&& chip.status == 0
            &&& chip.addr_latch == 0
        }),
{
}

/// Both stereo channels carry the mono signal, sample by sample.
pub proof fn law_stereo(mono: Seq<i16>, n: int)
    requires
        0 <= n < mono.len(),
    ensures
        interleaved(mono).len() == mono.len() + mono.len(),
        interleaved(mono)[n + n] == mono[n],
        interleaved(mono)[n + n + 1] == mono[n],
{
}

/// Where the slots of a channel stand in a bank of operator registers.
pub open spec fn slot_offset(slot: int) -> int {
    if slot == 0 {
        0
    } else if slot == 1 {
        8
    } else if slot == 2 {
        4
    } else {
        12
    }
}

/// A total level written to the register of an operator is heard in every
/// phase of its note, three quarters of a dB per step, and moves nothing else.
pub proof fn law_total_level_heard(chip: ChipState, ch: u8, slot: int, tl: u8)
    requires
        chip.wf(),
        ch < 3,
        0 <= slot < 4,
        tl < 128,
    ensures
        ({
            let op = chip.fm.channels[ch as int].ops[slot];
            let later = chip.written((0x40 + slot_offset(slot) + ch) as u8, tl);
            let out = later.fm.channels[ch as int].slot_plan(slot).output;
            &&& op.eg_phase == operator::EgPhase::Attack || op.eg_phase == operator::EgPhase::Decay
                || op.eg_phase == operator::EgPhase::Sustain || op.eg_phase
                == operator::EgPhase::Release ==> out == Some(
                operator::OpOutput {
                    level_quarter_db: (tl + tl + tl) as u16,
                    invert: op.ssg_invert,
                },
            )
            &&& op.eg_phase == operator::EgPhase::Off ==> out is None
            &&& later.fm.channels[ch as int].ops[slot] == (operator::OperatorState { tl, ..op })
        }),
{
    let addr = (0x40 + slot_offset(slot) + ch) as u8;
    assert(chip.fm.channels[ch as int].wf());
    assert(chip.fm.channels[ch as int].in_tune(chip.fm.clock));
    fm::law_operator_address(chip.fm, 4, ch, slot, tl);
    channel::law_op_write(chip.fm.channels[ch as int], slot, 4, tl, chip.fm.clock);
    operator::law_register_fields(chip.fm.channels[ch as int].ops[slot], 0, tl, 0);
    assert(0x30 <= addr <= 0xB7);
}

/// MUL and DT written to the register of an operator are heard at once: the
/// frequency is the multiple (one half for zero) of the note that it follows.
pub proof fn law_multiple_heard(chip: ChipState, ch: u8, slot: int, dt: u8, mul: u8)
    requires
        chip.wf(),
        ch < 3,
        0 <= slot < 4,
        dt < 8,
        mul < 16,
    ensures
        ({
            let op = chip.fm.channels[ch as int].ops[slot];
            let addr = (0x30 + slot_offset(slot) + ch) as u8;
            let later = chip.written(addr, (16 * dt + mul) as u8);
            let pitch = later.fm.channels[ch as int].slot_plan(slot).pitch;
            &&& mul == 0 ==> pitch.mul_x2 == 1
            &&& mul != 0 ==> pitch.mul_x2 == mul + mul
            &&& pitch.base == op.pitch.base
            &&& dt % 4 == 0 ==> pitch.cents == 0
            &&& 0 < dt < 4 ==> pitch.cents > 0
            &&& 4 < dt ==> pitch.cents < 0
        }),
{
    let channel = chip.fm.channels[ch as int];
    let addr = (0x30 + slot_offset(slot) + ch) as u8;
    let data = (16 * dt + mul) as u8;
    assert(channel.wf());
    assert(channel.in_tune(chip.fm.clock));
    fm::law_operator_address(chip.fm, 3, ch, slot, data);
    channel::law_op_write(channel, slot, 3, data, chip.fm.clock);
    operator::law_register_fields(channel.ops[slot], dt, mul, 0);
    assert(0x30 <= addr <= 0xB7);
}

/// Pressing keys that are all held already changes nothing but the latched
/// address, and letting go keys that are all free does not either.
pub proof fn law_keys_hold_on(chip: ChipState, ch: u8)
    requires
        chip.wf(),
        ch < 3,
    ensures
        (forall|slot: int|
            0 <= slot < 4 ==> (#[trigger] chip.fm.channels[ch as int].ops[slot]).key_on)
            ==> chip.written(0x28, (0xF0 + ch) as u8).fm == chip.fm,
        (forall|slot: int|
            0 <= slot < 4 ==> !(#[trigger] chip.fm.channels[ch as int].ops[slot]).key_on)
            ==> chip.written(0x28, ch).fm == chip.fm,
{
    let channel = chip.fm.channels[ch as int];
    let press = (0xF0 + ch) as u8;
    assert(channel.wf());
    assert(press % 4 == ch);
    if forall|slot: int| 0 <= slot < 4 ==> (#[trigger] channel.ops[slot]).key_on {
        assert(channel.keyed(press) =~= channel);
        assert(chip.fm.keyed(press) =~= chip.fm);
    }
    if forall|slot: int| 0 <= slot < 4 ==> !(#[trigger] channel.ops[slot]).key_on {
        assert(channel.keyed(ch) =~= channel);
        assert(chip.fm.keyed(ch) =~= chip.fm);
    }
}

} // verus!
