//! The register map, the timers and the bus.

use ym2203::channel::Channel;
use ym2203::chip::{ChipMode, TimerPeriod};
use ym2203::fm::decode_op_addr;
use ym2203::operator::{EgPhase, OperatorState, Pitch};
use ym2203::Ym2203;

const CLOCK: u32 = 3_993_600;

fn chip() -> Ym2203 {
    Ym2203::new(CLOCK, 44_100)
}

fn channels(c: &Ym2203) -> [Channel; 3] {
    [*c.fm().channel(0), *c.fm().channel(1), *c.fm().channel(2)]
}

fn ops(c: &Ym2203, ch: usize) -> [OperatorState; 4] {
    [0, 1, 2, 3].map(|slot| c.fm().channel(ch).op(slot))
}

#[test]
fn two_step_write_is_a_write() {
    for addr in 0..=255u8 {
        let mut direct = chip();
        let mut two_step = chip();
        direct.write(addr, 0xB6);
        two_step.write_addr(addr);
        two_step.write_data(0xB6);
        assert_eq!(direct, two_step, "{:#x}", addr);
    }
}

#[test]
fn writing_twice_is_writing_once() {
    for addr in 0..=255u8 {
        for data in [0x00u8, 0x5A, 0xF2, 0xFF] {
            let mut once = chip();
            let mut twice = chip();
            once.write(addr, data);
            twice.write(addr, data);
            twice.write(addr, data);
            assert_eq!(once, twice, "{:#x}", addr);
        }
    }
}

#[test]
fn addresses_without_a_register_change_only_the_latch() {
    for addr in [0x0Eu8, 0x23, 0x29, 0x2C, 0x33, 0x47, 0x9F, 0xA3, 0xA7, 0xAB, 0xAF, 0xB3, 0xB7, 0xB8, 0xFF] {
        let mut written = chip();
        written.write(addr, 0xFF);
        let mut latched = chip();
        latched.write_addr(addr);
        assert_eq!(written, latched, "{:#x}", addr);
    }
}

#[test]
fn ssg_registers_read_back() {
    let mut c = chip();
    for addr in 0..=0x0Du8 {
        c.write(addr, 0xF0 | addr);
    }
    c.write(0x30, 0x11);
    c.write(0x27, 0x22);
    for addr in 0..=0x0Du8 {
        assert_eq!(c.read_ssg(addr), 0xF0 | addr);
    }
    assert_eq!(c.read_ssg(0x0E), 0);
    assert_eq!(c.read_ssg(0xFF), 0);
}

#[test]
fn operator_addresses_decode_in_the_order_1_3_2_4() {
    assert_eq!(decode_op_addr(0x30, 0x30), Some((0, 0)));
    assert_eq!(decode_op_addr(0x34, 0x30), Some((0, 2)));
    assert_eq!(decode_op_addr(0x38, 0x30), Some((0, 1)));
    assert_eq!(decode_op_addr(0x3E, 0x30), Some((2, 3)));
    assert_eq!(decode_op_addr(0x33, 0x30), None);
    assert_eq!(decode_op_addr(0x3F, 0x30), None);
    assert_eq!(decode_op_addr(0x2F, 0x30), None);
    assert_eq!(decode_op_addr(0x40, 0x30), None);
    assert_eq!(decode_op_addr(0x10, 0xFF), None);
}

#[test]
fn every_operator_has_one_register_per_bank() {
    let mut seen = vec![0; 12];
    for off in 0..16u8 {
        if let Some((ch, slot)) = decode_op_addr(0x50 + off, 0x50) {
            seen[ch * 4 + slot] += 1;
        }
    }
    assert_eq!(seen, vec![1; 12]);
}

#[test]
fn operator_fields() {
    let mut c = chip();
    // 0x39 and so on: channel 2, second operator.
    for (addr, data) in [(0x39u8, 0xEDu8), (0x49, 0xFF), (0x59, 0xBF), (0x69, 0xF3), (0x79, 0xE7), (0x89, 0xC5), (0x99, 0xFA)] {
        c.write(addr, data);
    }
    let op = c.fm().channel(1).op(1);
    assert_eq!((op.dt, op.mul), (6, 13));
    assert_eq!(op.tl, 127);
    assert_eq!((op.ks, op.ar), (2, 31));
    assert_eq!(op.dr, 0x13);
    assert_eq!(op.sr, 0x07);
    assert_eq!((op.sl, op.rr), (12, 5));
    assert_eq!(op.ssg_eg, 10);
    let untouched = chip();
    assert_eq!(c.fm().channel(0), untouched.fm().channel(0));
    assert_eq!(c.fm().channel(2), untouched.fm().channel(2));
    for slot in [0, 2, 3] {
        assert_eq!(c.fm().channel(1).op(slot), untouched.fm().channel(1).op(slot));
    }
}

#[test]
fn frequency_formula() {
    let mut c = chip();
    c.write(0x30, 0x01);
    c.write(0x34, 0x00);
    c.write(0x38, 0x55);
    c.write(0xA4, 0x22);
    c.write(0xA0, 0x69);
    let channel = c.fm().channel(0);
    assert_eq!(channel.op_freq_source(3), (0x269, 4));
    let base = 0x269 * CLOCK as u64 * 16;
    assert_eq!(channel.op(0).pitch, Pitch { base, mul_x2: 2, cents: 0 });
    assert_eq!(channel.op(2).pitch, Pitch { base, mul_x2: 1, cents: 0 });
    assert_eq!(channel.op(1).pitch, Pitch { base, mul_x2: 10, cents: -6 });
}

#[test]
fn frequency_halves_in_either_order() {
    let mut a = chip();
    a.write(0xA6, 0x3D);
    a.write(0xA2, 0xC3);
    let mut b = chip();
    b.write(0xA2, 0xC3);
    b.write(0xA6, 0x3D);
    assert_eq!(channels(&a), channels(&b));
    assert_eq!(a.fm().channel(2).op_freq_source(3), (0x5C3, 7));
}

#[test]
fn detune_is_symmetric() {
    let mut c = chip();
    let mut cents = Vec::new();
    for dt in 0..8u8 {
        c.write(0x31, dt << 4);
        cents.push(c.fm().channel(1).op(0).pitch.cents);
    }
    assert_eq!(cents, vec![0, 6, 12, 24, 0, -6, -12, -24]);
}

#[test]
fn one_block_is_one_octave() {
    let mut c = chip();
    c.write(0xA0, 0x55);
    c.write(0xA4, 0x12);
    let low = c.fm().channel(0).op(3).pitch.base;
    c.write(0xA4, 0x1A);
    assert_eq!(c.fm().channel(0).op(3).pitch.base, 2 * low);
}

#[test]
fn prescaler_scales_the_fm_clock() {
    let mut c = chip();
    assert_eq!(c.effective_clock(), CLOCK);
    c.write(0xA0, 100);
    assert_eq!(c.fm().channel(0).op(0).pitch.base, 100 * CLOCK as u64);
    c.write(0x2D, 0);
    assert_eq!(c.effective_clock(), 3 * CLOCK);
    assert_eq!(c.fm().channel(0).op(0).pitch.base, 300 * CLOCK as u64);
    c.write(0x2E, 0);
    assert_eq!(c.effective_clock(), 2 * CLOCK);
    c.write(0x2F, 0);
    assert_eq!(c.effective_clock(), CLOCK);
    assert_eq!(c.fm().clock(), CLOCK);
}

#[test]
fn prescaled_clock_keeps_its_low_32_bits() {
    let mut c = Ym2203::new(2_000_000_001, 44_100);
    c.write(0x2D, 0);
    assert_eq!(c.effective_clock(), 1_705_032_707);
}

#[test]
fn special_mode_gives_three_operators_their_own_frequency() {
    let mut c = chip();
    c.write(0xA6, 0x08);
    c.write(0xA2, 50);
    c.write(0xAC, 0x11);
    c.write(0xA8, 0x20);
    c.write(0xAE, 0x3F);
    c.write(0xAA, 0xFF);
    let normal = 50 * CLOCK as u64 * 2;
    for slot in 0..4 {
        assert_eq!(c.fm().channel(2).op(slot).pitch.base, normal);
    }
    c.write(0x27, 0xC0);
    assert_eq!(c.mode(), ChipMode::Special3Ch);
    let bases = ops(&c, 2).map(|op| op.pitch.base);
    assert_eq!(bases, [0x120 * CLOCK as u64 * 4, 0, 0x7FF * CLOCK as u64 * 128, normal]);
    assert_eq!(c.fm().channel(2).op_freq_source(0), (0x120, 2));
    assert_eq!(c.fm().channel(2).op_freq_source(3), (50, 1));
    assert_eq!(c.fm().channel(2).keycodes(), [8, 0, 31, 4]);
    c.write(0x27, 0x40);
    assert_eq!(c.mode(), ChipMode::Normal);
    for slot in 0..4 {
        assert_eq!(c.fm().channel(2).op(slot).pitch.base, normal);
    }
}

#[test]
fn algorithm_and_feedback() {
    let mut c = chip();
    c.write(0xB1, 0x2C);
    assert_eq!((c.fm().channel(1).algorithm(), c.fm().channel(1).feedback()), (4, 5));
    c.write(0xB1, 0xFF);
    assert_eq!((c.fm().channel(1).algorithm(), c.fm().channel(1).feedback()), (7, 7));
}

#[test]
fn key_register_sets_the_keys_of_one_channel() {
    let mut c = chip();
    c.write(0x28, 0x51);
    let keys = ops(&c, 1).map(|op| op.key_on);
    assert_eq!(keys, [true, false, true, false]);
    assert!(c.fm().channel(1).op(0).restart);
    assert_eq!(c.fm().channel(1).op(0).eg_phase, EgPhase::Attack);
    assert!(ops(&c, 0).iter().all(|op| !op.key_on));
    c.write(0x28, 0xA1);
    let keys = ops(&c, 1).map(|op| op.key_on);
    assert_eq!(keys, [false, true, false, true]);
    assert_eq!(c.fm().channel(1).op(0).eg_phase, EgPhase::Release);
    let before = channels(&c);
    c.write(0x28, 0xF3);
    assert_eq!(channels(&c), before);
}

#[test]
fn timer_registers_and_periods() {
    let mut c = chip();
    assert_eq!(c.timer_a_period(), TimerPeriod { count: 1024, divider: 72 });
    assert_eq!(c.timer_b_period(), TimerPeriod { count: 256, divider: 288 });
    c.write(0x25, 0xFE);
    c.write(0x24, 0x81);
    assert_eq!(c.timer_a_period(), TimerPeriod { count: 1024 - 0x206, divider: 72 });
    c.write(0x25, 0x01);
    c.write(0x26, 0xF0);
    assert_eq!(c.timer_a_period(), TimerPeriod { count: 507, divider: 72 });
    assert_eq!(c.timer_b_period(), TimerPeriod { count: 16, divider: 288 });
}

#[test]
fn status_flags_are_set_by_overflow_and_reset_by_the_mode_register() {
    let mut c = chip();
    c.tick_timers(true, true);
    assert_eq!(c.read_status(), 0); // neither runs
    c.write(0x27, 0x03);
    c.tick_timers(true, true);
    assert_eq!(c.read_status(), 0); // neither may set its flag
    c.write(0x27, 0x0F);
    c.tick_timers(false, false);
    assert_eq!(c.read_status(), 0);
    c.tick_timers(false, true);
    assert_eq!(c.read_status(), 2);
    c.tick_timers(true, false);
    assert_eq!(c.read_status(), 3);
    c.write(0x27, 0x1F);
    assert_eq!(c.read_status(), 2);
    c.write(0x27, 0x2F);
    assert_eq!(c.read_status(), 0);
}

#[test]
fn csm_pulse_keys_channel_3_on_and_off() {
    let mut c = chip();
    c.write(0x27, 0x81);
    assert_eq!(c.mode(), ChipMode::Csm);
    c.write(0x28, 0x12);
    let others = [*c.fm().channel(0), *c.fm().channel(1)];
    c.tick_timers(false, true);
    assert!(c.fm().channel(2).op(0).key_on);
    c.tick_timers(true, false);
    for op in ops(&c, 2) {
        assert!(!op.key_on);
        assert!(op.restart);
        assert_eq!(op.eg_phase, EgPhase::Release);
    }
    assert_eq!([*c.fm().channel(0), *c.fm().channel(1)], others);
    assert_eq!(c.read_status(), 0);
}

#[test]
fn no_csm_pulse_outside_csm_mode() {
    let mut c = chip();
    c.write(0x27, 0x01);
    let before = channels(&c);
    c.tick_timers(true, false);
    assert_eq!(channels(&c), before);
}

#[test]
fn new_chip_stays_idle() {
    let mut c = chip();
    for _ in 0..50 {
        c.tick_timers(true, true);
        for plan in c.fm().render() {
            for slot in plan.slots {
                assert_eq!(slot.output, None);
            }
        }
        let (levels, voices) = c.advance([[true; 4]; 3], [true, false, true], 3, 2);
        assert_eq!(levels, [[None; 4]; 3]);
        assert!(voices.iter().all(|v| v.level == 0));
    }
}

#[test]
fn stereo_interleaves() {
    assert_eq!(Ym2203::generate_stereo(&vec![1, -2, 3]), vec![1, 1, -2, -2, 3, 3]);
    assert_eq!(Ym2203::generate_stereo(&vec![]), Vec::<i16>::new());
}
