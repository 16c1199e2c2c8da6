//! The SSG section: periods, noise, envelope shapes and mixing.

use ym2203::ssg::{Envelope, Ssg, SsgVoice};

#[test]
fn periods() {
    let mut ssg = Ssg::new();
    assert_eq!((ssg.tone_period(0), ssg.noise_period(), ssg.envelope_period()), (1, 1, 1));
    ssg.write(2, 0x37);
    ssg.write(3, 0xF2);
    assert_eq!(ssg.tone_period(1), 0x237);
    ssg.write(6, 0xE8);
    assert_eq!(ssg.noise_period(), 8);
    ssg.write(11, 0x34);
    ssg.write(12, 0xF2);
    assert_eq!(ssg.envelope_period(), 0xF234);
    ssg.write(7, 0x3E);
    ssg.write(10, 0x1F);
    assert_eq!((ssg.mixer(), ssg.channel_volume_reg(2)), (0x3E, 0x1F));
}

#[test]
fn registers_outside_the_section() {
    let mut ssg = Ssg::new();
    ssg.write(14, 0xFF);
    for addr in 0..=14u8 {
        assert_eq!(ssg.read(addr), 0);
    }
    assert_eq!(ssg, Ssg::new());
}

#[test]
fn writes_commute_and_the_last_counts() {
    let mut a = Ssg::new();
    a.write(13, 0x0C);
    a.write(8, 1);
    a.write(8, 2);
    let mut b = Ssg::new();
    b.write(8, 2);
    b.write(13, 0x0C);
    assert_eq!(a, b);
}

#[test]
fn noise_register_steps() {
    let mut ssg = Ssg::new();
    ssg.tick_noise_step();
    assert_eq!(ssg.noise_lfsr(), 0x1_0000);
    ssg.tick_noise_step();
    assert_eq!(ssg.noise_lfsr(), 0x0_8000);
    for _ in 0..12 {
        ssg.tick_noise_step();
    }
    assert_eq!(ssg.noise_lfsr(), 0x0_0008);
    ssg.tick_noise_step();
    assert_eq!(ssg.noise_lfsr(), 0x1_0004);
    // Bits 0 and 3 together feed back nothing.
    let mut both = 0;
    for _ in 0..1000 {
        let lfsr = ssg.noise_lfsr();
        ssg.tick_noise_step();
        if lfsr & 0b1001 == 0b1001 {
            both += 1;
            assert_eq!(ssg.noise_lfsr(), lfsr / 2);
        }
    }
    assert!(both > 0);
}

#[test]
fn noise_never_stops() {
    let mut ssg = Ssg::new();
    let mut ones = 0;
    for _ in 0..0x1_FFFF {
        ssg.tick_noise_step();
        assert!(ssg.noise_lfsr() != 0 && ssg.noise_lfsr() < 0x2_0000);
        ones += ssg.noise_lfsr() & 1;
    }
    assert!(ones > 0x8000);
}

fn levels(shape: u8, n: usize) -> Vec<u8> {
    let mut ssg = Ssg::new();
    ssg.write(13, shape);
    let mut out = vec![ssg.envelope_level()];
    for _ in 1..n {
        ssg.tick_envelope_step();
        out.push(ssg.envelope_level());
    }
    out
}

#[test]
fn envelope_shapes() {
    let up: Vec<u8> = (0..16).collect();
    let down: Vec<u8> = (0..16).rev().collect();
    let flat = |level: u8| vec![level; 16];
    let shapes: Vec<(u8, Vec<Vec<u8>>)> = vec![
        (0x00, vec![down.clone(), flat(0), flat(0)]),
        (0x03, vec![down.clone(), flat(0), flat(0)]),
        (0x04, vec![up.clone(), flat(0), flat(0)]),
        (0x07, vec![up.clone(), flat(0), flat(0)]),
        (0x08, vec![down.clone(), down.clone(), down.clone()]),
        (0x09, vec![down.clone(), flat(0), flat(0)]),
        (0x0A, vec![down.clone(), up.clone(), down.clone()]),
        (0x0B, vec![down.clone(), flat(15), flat(15)]),
        (0x0C, vec![up.clone(), up.clone(), up.clone()]),
        (0x0D, vec![up.clone(), flat(15), flat(15)]),
        (0x0E, vec![up.clone(), down.clone(), up.clone()]),
        (0x0F, vec![up.clone(), flat(0), flat(0)]),
    ];
    for (shape, runs) in shapes {
        assert_eq!(levels(shape, 48), runs.concat(), "{:#x}", shape);
    }
}

#[test]
fn shape_write_restarts_the_envelope() {
    let mut ssg = Ssg::new();
    ssg.write(13, 0x0D);
    for _ in 0..20 {
        ssg.tick_envelope_step();
    }
    assert_eq!(ssg.envelope(), Envelope { pos: 15, dir: 1, holding: true });
    ssg.write(13, 0x09);
    assert_eq!(ssg.envelope(), Envelope { pos: 15, dir: -1, holding: false });
    assert!(ssg.env_restart());
    ssg.render([false; 3], 0, 1);
    assert!(!ssg.env_restart());
    assert_eq!(ssg.envelope_level(), 14);
}

#[test]
fn new_envelope_rises_once() {
    let mut ssg = Ssg::new();
    for _ in 0..15 {
        ssg.tick_envelope_step();
    }
    assert_eq!(ssg.envelope_level(), 15);
    ssg.tick_envelope_step();
    assert_eq!(ssg.envelope(), Envelope { pos: 0, dir: 1, holding: true });
}

#[test]
fn mixer_enables_tone_and_noise() {
    let mut ssg = Ssg::new();
    ssg.write(8, 0x0F);
    ssg.write(9, 0x03);
    ssg.write(10, 0x10);
    ssg.write(13, 0x0C);
    // Noise output is high at first, then low after one step.
    ssg.write(7, 0b111_110);
    let voices = ssg.render([false, false, false], 1, 5);
    assert_eq!(voices[0], SsgVoice { positive: false, level: 15 });
    assert_eq!(voices[1], SsgVoice { positive: true, level: 3 });
    assert_eq!(voices[2], SsgVoice { positive: true, level: 5 });
    assert!(ssg.render([true, false, false], 0, 0)[0].positive);
    ssg.write(7, 0b110_111);
    assert!(!ssg.render([true, true, true], 0, 0)[0].positive);
    // While the noise output is high, tone and noise together give the tone.
    let mut ssg = Ssg::new();
    ssg.write(7, 0b000_000);
    assert_eq!(ssg.noise_lfsr(), 1);
    assert_eq!(ssg.render([true, false, true], 0, 0).map(|v| v.positive), [true, false, true]);
}
