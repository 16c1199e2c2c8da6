//! The chip as it sounds: the register-level model driving signal generators
//! in floating point.

use std::f64::consts::TAU;

use ym2203::channel::{ChannelPlan, NUM_OP};
use ym2203::chip::TimerPeriod;
use ym2203::fm::NUM_CH;
use ym2203::operator::{EnvelopeMove, OpOutput, Pitch, MAX_ATTEN_DB};
use ym2203::ssg::{Ssg, SsgVoice};
use ym2203::Ym2203;

/// Running state of one operator's waveform.
#[derive(Clone, Copy)]
struct OperatorSignal {
    phase: f64,    // 0..1 (turns)
    atten_db: f64, // current envelope attenuation (0 = full volume)
}

impl OperatorSignal {
    fn new() -> Self {
        OperatorSignal { phase: 0.0, atten_db: MAX_ATTEN_DB as f64 }
    }

    fn freq_hz(pitch: &Pitch) -> f64 {
        let base = pitch.base as f64 / (144.0 * (1u64 << 20) as f64);
        base * (pitch.mul_x2 as f64 / 2.0) * 2f64.powf(pitch.cents as f64 / 1200.0)
    }

    fn rate_to_db_per_sample(rate: u8, sample_rate: f64) -> f64 {
        const K: f64 = 1.5;
        K * 2f64.powf(rate as f64 / 4.0) / sample_rate
    }

    fn rate_to_attack_coeff(rate: u8, sample_rate: f64) -> f64 {
        const KA: f64 = 5.0;
        (KA * 2f64.powf(rate as f64 / 4.0) / sample_rate).min(1.0)
    }

    fn advance_phase(&mut self, pitch: &Pitch, sample_rate: f64) {
        self.phase += Self::freq_hz(pitch) / sample_rate;
        self.phase -= self.phase.floor();
    }

    fn move_envelope(&mut self, envelope: EnvelopeMove, sample_rate: f64) -> bool {
        match envelope {
            EnvelopeMove::Frozen => false,
            EnvelopeMove::Fall { rate } => {
                let coeff = Self::rate_to_attack_coeff(rate, sample_rate);
                self.atten_db -= self.atten_db * coeff + 0.001;
                self.atten_db <= 0.02
            }
            EnvelopeMove::Rise { rate, target_db } => {
                self.atten_db += Self::rate_to_db_per_sample(rate, sample_rate);
                self.atten_db >= target_db as f64
            }
        }
    }

    fn output(&self, out: Option<OpOutput>, modulation: f64) -> f64 {
        let out = match out {
            Some(out) => out,
            None => return 0.0,
        };
        let amp_db = self.atten_db + out.level_quarter_db as f64 * 0.25;
        let amp = 10f64.powf(-amp_db / 20.0);
        let mut phase = self.phase + modulation;
        phase -= phase.floor();
        let s = (phase * TAU).sin() * amp;
        if out.invert {
            -s
        } else {
            s
        }
    }
}

/// Running state of one FM channel's waveforms.
#[derive(Clone, Copy)]
struct ChannelSignal {
    ops: [OperatorSignal; NUM_OP],
    fb_hist: [f64; 2],
}

impl ChannelSignal {
    fn new() -> Self {
        ChannelSignal { ops: [OperatorSignal::new(); NUM_OP], fb_hist: [0.0; 2] }
    }

    fn render(&mut self, plan: &ChannelPlan, sample_rate: f64) -> (f64, [bool; NUM_OP]) {
        for slot in 0..NUM_OP {
            if plan.slots[slot].restart {
                self.ops[slot].phase = 0.0;
            }
        }

        let fb_scale = plan.feedback_num as f64 / 128.0;
        let fb_in = (self.fb_hist[0] + self.fb_hist[1]) * 0.5 * fb_scale;
        let mut outs = [0.0; NUM_OP];
        for slot in 0..NUM_OP {
            let mut modulation = if slot == 0 { fb_in } else { 0.0 };
            for from in 0..slot {
                if plan.routing.inputs[slot][from] {
                    modulation += outs[from];
                }
            }
            outs[slot] = self.ops[slot].output(plan.slots[slot].output, modulation);
        }
        let mut mix = 0.0;
        for slot in 0..NUM_OP {
            if plan.routing.carriers[slot] {
                mix += outs[slot];
            }
        }

        self.fb_hist[1] = self.fb_hist[0];
        self.fb_hist[0] = outs[0];

        let mut reached = [false; NUM_OP];
        for slot in 0..NUM_OP {
            let plan = &plan.slots[slot];
            self.ops[slot].advance_phase(&plan.pitch, sample_rate);
            reached[slot] = self.ops[slot].move_envelope(plan.envelope, sample_rate);
        }
        (mix / plan.routing.norm as f64, reached)
    }

    fn set_levels(&mut self, levels: &[Option<u8>; NUM_OP]) {
        for slot in 0..NUM_OP {
            if let Some(level) = levels[slot] {
                self.ops[slot].atten_db = level as f64;
            }
        }
    }
}

/// Running state of the SSG clocks.
struct SsgSignal {
    tone_phase: [f64; NUM_CH],
    noise_phase: f64,
    env_phase: f64,
}

impl SsgSignal {
    fn new() -> Self {
        SsgSignal { tone_phase: [0.0; NUM_CH], noise_phase: 0.0, env_phase: 0.0 }
    }

    fn advance(&mut self, ssg: &Ssg, clock: f64, sample_rate: f64) -> ([bool; NUM_CH], u64, u64) {
        let mut tones = [false; NUM_CH];
        for ch in 0..NUM_CH {
            let freq = clock / (16.0 * ssg.tone_period(ch) as f64);
            self.tone_phase[ch] += freq / sample_rate;
            self.tone_phase[ch] -= self.tone_phase[ch].floor();
            tones[ch] = self.tone_phase[ch] < 0.5;
        }

        let freq = clock / (16.0 * ssg.noise_period() as f64);
        self.noise_phase += freq / sample_rate;
        let mut noise_steps = 0;
        while self.noise_phase >= 1.0 {
            self.noise_phase -= 1.0;
            noise_steps += 1;
        }

        if ssg.env_restart() {
            self.env_phase = 0.0;
        }
        let freq = clock / (16.0 * ssg.envelope_period() as f64);
        self.env_phase += freq / sample_rate;
        let mut env_steps = 0;
        while self.env_phase >= 1.0 {
            self.env_phase -= 1.0;
            env_steps += 1;
        }
        (tones, noise_steps, env_steps)
    }

    /// Logarithmic 16-step DAC curve approximation (~consistent with the
    /// AY-3-8910's roughly-3dB-per-two-steps volume table).
    fn level_to_amplitude(level: u8) -> f64 {
        if level == 0 {
            0.0
        } else {
            2f64.powf((level as f64 - 15.0) / 4.0)
        }
    }

    fn mix(voices: &[SsgVoice; NUM_CH]) -> f64 {
        let mut out = 0.0;
        for voice in voices {
            let amp = Self::level_to_amplitude(voice.level);
            out += if voice.positive { amp } else { -amp };
        }
        out / NUM_CH as f64
    }
}

/// A YM2203 that renders PCM samples.
struct Player {
    chip: Ym2203,
    channels: [ChannelSignal; NUM_CH],
    ssg: SsgSignal,
    timer_a_acc: f64, // samples accumulated toward next overflow
    timer_b_acc: f64,

    /// Relative SSG/FM mix (SSG amplitude scale). 0.0..=2.0ish, default 1.0.
    ssg_mix: f32,
    /// Relative FM mix (FM amplitude scale). 0.0..=2.0ish, default 1.0.
    fm_mix: f32,
}

impl Player {
    /// Create a new chip instance; see [`Ym2203::new`].
    fn new(clock: u32, sample_rate: u32) -> Self {
        Player {
            chip: Ym2203::new(clock, sample_rate),
            channels: [ChannelSignal::new(); NUM_CH],
            ssg: SsgSignal::new(),
            timer_a_acc: 0.0,
            timer_b_acc: 0.0,
            ssg_mix: 1.0,
            fm_mix: 1.0,
        }
    }

    fn write(&mut self, addr: u8, data: u8) {
        self.chip.write(addr, data);
    }

    fn read_status(&self) -> u8 {
        self.chip.read_status()
    }

    fn count(acc: &mut f64, period: TimerPeriod, fm_clock: f64, sample_rate: f64) -> bool {
        let period_sec = period.count as f64 / (fm_clock / period.divider as f64);
        let period_samples = (period_sec * sample_rate).max(1.0);
        *acc += 1.0;
        if *acc >= period_samples {
            *acc -= period_samples;
            true
        } else {
            false
        }
    }

    fn tick_timers(&mut self) {
        let fm_clock = self.chip.effective_clock() as f64;
        let rate = self.chip.sample_rate() as f64;
        let a_expired = self.chip.timer_a_running()
            && Self::count(&mut self.timer_a_acc, self.chip.timer_a_period(), fm_clock, rate);
        let b_expired = self.chip.timer_b_running()
            && Self::count(&mut self.timer_b_acc, self.chip.timer_b_period(), fm_clock, rate);
        self.chip.tick_timers(a_expired, b_expired);
    }

    fn generate_sample_f32(&mut self) -> f32 {
        self.tick_timers();
        let sample_rate = self.chip.sample_rate() as f64;

        let plans = self.chip.fm().render();
        let mut reached = [[false; NUM_OP]; NUM_CH];
        let mut fm_sum = 0.0;
        for ch in 0..NUM_CH {
            let (out, ends) = self.channels[ch].render(&plans[ch], sample_rate);
            fm_sum += out;
            reached[ch] = ends;
        }

        let clock = self.chip.clock() as f64;
        let (tones, noise_steps, env_steps) = self.ssg.advance(self.chip.ssg(), clock, sample_rate);
        let (levels, voices) = self.chip.advance(reached, tones, noise_steps, env_steps);
        for ch in 0..NUM_CH {
            self.channels[ch].set_levels(&levels[ch]);
        }

        let fm_out = fm_sum / NUM_CH as f64 * self.fm_mix as f64;
        let ssg_out = SsgSignal::mix(&voices) * self.ssg_mix as f64;
        (fm_out * 0.66 + ssg_out * 0.55).clamp(-1.0, 1.0) as f32
    }

    /// Render `n` samples as mono 16-bit signed PCM.
    fn generate(&mut self, n: usize) -> Vec<i16> {
        let mut out = Vec::with_capacity(n);
        for _ in 0..n {
            let s = self.generate_sample_f32();
            out.push((s * 32767.0) as i16);
        }
        out
    }

    /// Render `n` samples as interleaved stereo 16-bit PCM (the YM2203
    /// itself is mono; both channels receive the same signal).
    fn generate_stereo(&mut self, n: usize) -> Vec<i16> {
        let mono = self.generate(n);
        Ym2203::generate_stereo(&mono)
    }
}

#[test]
fn silent_when_idle() {
    let mut chip = Player::new(3_993_600, 44_100);
    let samples = chip.generate(1000);
    assert!(samples.iter().all(|&s| s == 0), "chip should be silent with no notes/tone enabled and no key-on");
}

#[test]
fn produces_finite_nonsilent_output_on_key_on() {
    // Algorithm 7 (all operators are independent carriers): every
    // slot must be configured since all 4 are audible outputs.
    let mut chip = Player::new(3_993_600, 44_100);
    for slot_off in [0u8, 8, 4, 12] {
        chip.write(0x30 + slot_off, 0x01); // MUL=1
        chip.write(0x40 + slot_off, 0x00); // TL=0 (loudest)
        chip.write(0x50 + slot_off, 0x1F); // AR=31 (fastest attack)
        chip.write(0x80 + slot_off, 0x00); // SL=0 RR=0
    }
    chip.write(0xB0, 0x07); // algorithm 7, feedback 0
    chip.write(0xA4, 0x22);
    chip.write(0xA0, 0x69);
    chip.write(0x28, 0xF0);
    let samples = chip.generate(4410);
    assert!(samples.iter().any(|&s| s != 0));
}

#[test]
fn ssg_tone_produces_output() {
    let mut chip = Player::new(3_993_600, 44_100);
    chip.write(0x07, 0b111110); // tone A enabled only
    chip.write(0x08, 0x0F);
    chip.write(0x00, 0x37);
    chip.write(0x01, 0x02);
    let samples = chip.generate(4410);
    assert!(samples.iter().any(|&s| s != 0));
}

#[test]
fn key_off_eventually_decays_to_silence() {
    let mut chip = Player::new(3_993_600, 44_100);
    chip.write(0x30, 0x01);
    chip.write(0x40, 0x00);
    chip.write(0x50, 0x1F);
    chip.write(0x80, 0x0F); // RR = 15, fast release
    chip.write(0xB0, 0x00);
    chip.write(0xA4, 0x22);
    chip.write(0xA0, 0x69);
    chip.write(0x28, 0xF0);
    let _ = chip.generate(2000);
    chip.write(0x28, 0x00); // key off
    let tail = chip.generate(44_100 * 3);
    let last_1000: i32 = tail[tail.len() - 1000..].iter().map(|&s| s.unsigned_abs() as i32).sum();
    assert!(last_1000 < 1000, "expected near-silence after release, got sum={}", last_1000);
}

#[test]
fn timer_a_overflow_sets_status_flag() {
    let mut chip = Player::new(3_993_600, 44_100);
    chip.write(0x24, 0xFF); // Timer A high bits -> near-max reload (short period)
    chip.write(0x25, 0x03);
    chip.write(0x27, 0b0000_0101); // start Timer A + enable IRQ
    let _ = chip.generate(1000);
    assert_eq!(chip.read_status() & 0x01, 0x01, "Timer A should have overflowed");
}

#[test]
fn no_nan_or_inf_in_output() {
    let mut chip = Player::new(3_993_600, 44_100);
    chip.write(0x30, 0x01);
    chip.write(0x40, 0x00);
    chip.write(0x50, 0x1F);
    chip.write(0xB0, 0x07);
    chip.write(0xA4, 0x22);
    chip.write(0xA0, 0x69);
    chip.write(0x28, 0xF0);
    for _ in 0..20 {
        let v = chip.generate_sample_f32();
        assert!(v.is_finite());
    }
}

#[test]
fn stereo_doubles_every_mono_sample() {
    let mut left = Player::new(3_993_600, 44_100);
    let mut both = Player::new(3_993_600, 44_100);
    for chip in [&mut left, &mut both] {
        chip.write(0x07, 0b111110);
        chip.write(0x08, 0x0F);
        chip.write(0x00, 0x37);
    }
    let mono = left.generate(300);
    let stereo = both.generate_stereo(300);
    assert_eq!(stereo.len(), 600);
    for i in 0..300 {
        assert_eq!(stereo[2 * i], mono[i]);
        assert_eq!(stereo[2 * i + 1], mono[i]);
    }
}

#[test]
fn two_ssg_volume_steps_are_about_3_db() {
    for level in 3..16u8 {
        let ratio = SsgSignal::level_to_amplitude(level) / SsgSignal::level_to_amplitude(level - 2);
        assert!((20.0 * ratio.log10() - 3.01).abs() < 0.01, "{}", ratio);
    }
    assert_eq!(SsgSignal::level_to_amplitude(15), 1.0);
    assert_eq!(SsgSignal::level_to_amplitude(0), 0.0);
}

/// The peak of a held note in its second second, long after its envelope ran out.
fn held_peak(ssg_eg: u8) -> (Player, u16) {
    let mut chip = Player::new(3_993_600, 44_100);
    chip.write(0x3C, 0x01);
    chip.write(0x4C, 0x00);
    chip.write(0x5C, 0x1F);
    chip.write(0x6C, 0x1F);
    chip.write(0x7C, 0x1F);
    chip.write(0x8C, 0x0F);
    chip.write(0x9C, ssg_eg);
    chip.write(0xA4, 0x22);
    chip.write(0xA0, 0x69);
    chip.write(0x28, 0x80);
    let _ = chip.generate(44_100);
    let held = chip.generate(44_100);
    let peak = held.iter().map(|s| s.unsigned_abs()).max().unwrap();
    (chip, peak)
}

#[test]
fn ssg_eg_holds_at_full_volume_or_at_silence() {
    let (mut full, peak) = held_peak(0x0D);
    // One carrier of one of three channels at full volume.
    assert!(peak > 7150 && peak <= 7209, "{}", peak);
    full.write(0x28, 0x00);
    let tail = full.generate(44_100);
    assert!(tail[44_000..].iter().all(|&s| s == 0));
    let (mut cleared, _) = held_peak(0x0D);
    cleared.write(0x9C, 0x00);
    assert!(cleared.generate(1000).iter().all(|&s| s == 0));
    let (_, peak) = held_peak(0x09);
    assert_eq!(peak, 0);
}

#[test]
fn a4_has_the_pitch_of_440_hz() {
    let mut chip = Player::new(3_993_600, 44_100);
    chip.write(0x30, 0x01);
    // F-Number 1040 in block 4 is the nearest to 440 Hz at this clock.
    chip.write(0xA4, (4 << 3) | 4);
    chip.write(0xA0, 1040u16.to_le_bytes()[0]);
    let hz = OperatorSignal::freq_hz(&chip.chip.fm().channel(0).op(0).pitch);
    assert!((hz - 440.0).abs() < 0.3, "{}", hz);
}
