//! FM operators: rates, envelope phases, SSG-EG, and channel wiring.

use ym2203::channel::{routing, Channel};
use ym2203::operator::{EgPhase, EnvelopeMove, OpOutput, Operator};

#[test]
fn keycodes() {
    assert_eq!(Operator::keycode(0, 0), 0);
    let groups: Vec<u8> = (0..16u16).map(|note| Operator::keycode(0, note << 7)).collect();
    assert_eq!(groups, vec![0, 0, 0, 0, 0, 0, 0, 1, 2, 3, 3, 3, 3, 3, 3, 3]);
    assert_eq!(Operator::keycode(0, 0x400), 2);
    assert_eq!(Operator::keycode(0, 0x480), 3);
    assert_eq!(Operator::keycode(0, 0x500), 3);
    assert_eq!(Operator::keycode(4, 0x269), 16);
    assert_eq!(Operator::keycode(5, 0x3FF), 21);
    assert_eq!(Operator::keycode(15, 0x7FF), 31);
}

#[test]
fn rates_scale_with_the_keycode() {
    let mut op = Operator::new();
    assert_eq!(op.effective_rate(0, 31), 0);
    for (ks, rate) in [(0u8, 23), (1, 27), (2, 35), (3, 51)] {
        op.write(5, ks << 6);
        assert_eq!(op.effective_rate(10, 31), rate);
    }
    assert_eq!(op.effective_rate(31, 31), 63);
    assert_eq!(op.effective_rate(1, 0), 2);
}

#[test]
fn sustain_levels() {
    let mut op = Operator::new();
    op.write(8, 0x00);
    assert_eq!(op.sustain_level_db(), 0);
    op.write(8, 0xE0);
    assert_eq!(op.sustain_level_db(), 42);
    op.write(8, 0xF0);
    assert_eq!(op.sustain_level_db(), 93);
}

#[test]
fn a_note_runs_through_its_phases() {
    let mut op = Operator::new();
    op.write(5, 0x1F);
    op.write(6, 0x05);
    op.write(7, 0x02);
    op.write(8, 0x23);
    assert_eq!(op.output(), None);
    op.key_on();
    assert_eq!(op.envelope_move(8), EnvelopeMove::Fall { rate: 63 });
    assert_eq!(op.update_envelope(8, false), None);
    assert_eq!(op.state().eg_phase, EgPhase::Attack);
    assert_eq!(op.update_envelope(8, true), Some(0));
    assert_eq!(op.envelope_move(8), EnvelopeMove::Rise { rate: 11, target_db: 6 });
    assert_eq!(op.update_envelope(8, true), Some(6));
    assert_eq!(op.envelope_move(8), EnvelopeMove::Rise { rate: 5, target_db: 96 });
    op.key_off();
    assert_eq!(op.envelope_move(8), EnvelopeMove::Rise { rate: 15, target_db: 96 });
    assert_eq!(op.update_envelope(8, true), Some(96));
    assert_eq!(op.state().eg_phase, EgPhase::Off);
    for _ in 0..5 {
        assert_eq!(op.update_envelope(8, true), None);
        assert_eq!(op.output(), None);
    }
}

#[test]
fn sustain_runs_out_into_silence() {
    let mut op = Operator::new();
    op.write(5, 0x1F);
    op.write(6, 0x1F);
    op.write(7, 0x1F);
    op.key_on();
    op.update_envelope(0, true);
    op.update_envelope(0, true);
    assert_eq!(op.state().eg_phase, EgPhase::Sustain);
    assert_eq!(op.update_envelope(0, true), Some(96));
    assert_eq!(op.state().eg_phase, EgPhase::Off);
    assert!(op.state().key_on);
    op.key_off();
    assert_eq!(op.state().eg_phase, EgPhase::Off);
}

#[test]
fn zero_rates_freeze_all_but_the_release() {
    let mut op = Operator::new();
    op.key_on();
    assert_eq!(op.envelope_move(31), EnvelopeMove::Frozen);
    assert_eq!(op.update_envelope(31, true), None);
    assert_eq!(op.state().eg_phase, EgPhase::Attack);
    op.key_off();
    assert_eq!(op.envelope_move(0), EnvelopeMove::Rise { rate: 2, target_db: 96 });
}

#[test]
fn keys_are_idempotent() {
    let mut op = Operator::new();
    op.key_on();
    let held = op;
    op.key_on();
    assert_eq!(op, held);
    op.key_off();
    let released = op;
    op.key_off();
    assert_eq!(op, released);
}

#[test]
fn total_level_and_inversion() {
    let mut op = Operator::new();
    op.write(4, 0x23);
    op.key_on();
    assert_eq!(op.output(), Some(OpOutput { level_quarter_db: 105, invert: false }));
    let (mut op, _) = run_out(0x0A);
    op.write(4, 0x23);
    assert_eq!(op.output(), Some(OpOutput { level_quarter_db: 105, invert: true }));
}

fn run_out(ssg_eg: u8) -> (Operator, Option<u8>) {
    let mut op = Operator::new();
    op.write(5, 0x1F);
    op.write(6, 0x1F);
    op.write(7, 0x1F);
    op.write(9, ssg_eg);
    op.key_on();
    op.update_envelope(0, true);
    op.update_envelope(0, true);
    let level = op.update_envelope(0, true);
    (op, level)
}

#[test]
fn ssg_eg_loops_alternates_and_holds() {
    // disabled
    let (op, level) = run_out(0x07);
    assert_eq!((op.state().eg_phase, op.state().ssg_invert, level), (EgPhase::Off, false, Some(96)));
    // repeat
    let (op, level) = run_out(0x08);
    assert_eq!((op.state().eg_phase, op.state().ssg_invert, level), (EgPhase::Attack, false, Some(0)));
    // alternate
    let (op, level) = run_out(0x0A);
    assert_eq!((op.state().eg_phase, op.state().ssg_invert, level), (EgPhase::Attack, true, Some(0)));
    // alternate wins over hold
    let (op, level) = run_out(0x0B);
    assert_eq!((op.state().eg_phase, op.state().ssg_invert, level), (EgPhase::Attack, true, Some(0)));
    // hold
    let (mut op, level) = run_out(0x09);
    assert_eq!((op.state().eg_phase, op.state().ssg_invert, level), (EgPhase::Off, false, Some(96)));
    assert_eq!(op.update_envelope(0, false), Some(96));
    assert_eq!(op.output(), None);
    // hold with attack
    let (op, level) = run_out(0x0D);
    assert_eq!((op.state().eg_phase, op.state().ssg_invert, level), (EgPhase::Hold, false, Some(0)));
}

#[test]
fn ssg_eg_holds_full_volume_until_the_key_is_let_go() {
    let (mut op, _) = run_out(0x0D);
    op.write(4, 0x10);
    for keycode in 0..32u8 {
        assert_eq!(op.envelope_move(keycode), EnvelopeMove::Frozen);
        assert_eq!(op.update_envelope(keycode, false), Some(0));
        assert_eq!(op.output(), Some(OpOutput { level_quarter_db: 48, invert: false }));
    }
    op.key_off();
    assert_eq!(op.state().eg_phase, EgPhase::Release);
    assert_eq!(op.update_envelope(0, true), Some(96));
    assert_eq!(op.output(), None);
    assert_eq!(op.update_envelope(0, false), None);
}

#[test]
fn ssg_eg_hold_follows_its_register() {
    // from full volume to silence and back
    let (mut op, _) = run_out(0x0D);
    op.write(9, 0x09);
    assert_eq!(op.update_envelope(0, false), Some(96));
    assert_eq!(op.output(), None);
    op.write(9, 0x0D);
    assert_eq!(op.update_envelope(0, false), Some(0));
    assert!(op.output().is_some());
    // from the hold into the loop
    op.write(9, 0x0E);
    assert_eq!(op.update_envelope(0, false), Some(0));
    assert_eq!((op.state().eg_phase, op.state().ssg_invert), (EgPhase::Attack, true));
}

#[test]
fn ssg_eg_hold_ends_when_ssg_eg_is_turned_off() {
    let (mut op, _) = run_out(0x0D);
    assert!(op.output().is_some());
    op.write(9, 0x00);
    assert_eq!(op.output(), None);
    assert_eq!(op.envelope_move(0), EnvelopeMove::Frozen);
    assert_eq!(op.handle_ssg_eg_loop(), None);
    assert_eq!(op.update_envelope(0, false), Some(96));
    assert_eq!(op.state().eg_phase, EgPhase::Off);
    for _ in 0..3 {
        assert_eq!(op.update_envelope(0, false), None);
        assert_eq!(op.output(), None);
    }
    op.key_off();
    assert_eq!(op.state().eg_phase, EgPhase::Off);
    // the key let go before the next sample
    let (mut op, _) = run_out(0x0D);
    op.write(9, 0x05);
    op.key_off();
    assert_eq!(op.state().eg_phase, EgPhase::Off);
    assert_eq!(op.update_envelope(0, false), None);
    assert_eq!(op.output(), None);
}

#[test]
fn a_release_ends_in_silence_while_the_pitch_changes() {
    let mut op = Operator::new();
    op.write(5, 0x1F);
    op.key_on();
    op.key_off();
    for keycode in [0u8, 31, 7, 12] {
        assert_eq!(op.update_envelope(keycode, false), None);
        assert_eq!(op.state().eg_phase, EgPhase::Release);
    }
    assert_eq!(op.update_envelope(3, true), Some(96));
    for keycode in [30u8, 2] {
        assert_eq!(op.update_envelope(keycode, false), None);
        assert_eq!(op.state().eg_phase, EgPhase::Off);
    }
}

#[test]
fn ssg_eg_needs_a_held_key() {
    let (mut op, _) = run_out(0x0A);
    op.key_off();
    assert_eq!(op.update_envelope(0, true), Some(96));
    assert_eq!(op.handle_ssg_eg_loop(), None);
    assert_eq!(op.state().eg_phase, EgPhase::Off);
}

#[test]
fn algorithms_are_wired() {
    let wires: Vec<Vec<(usize, usize)>> = vec![
        vec![(0, 1), (1, 2), (2, 3)],
        vec![(0, 2), (1, 2), (2, 3)],
        vec![(0, 3), (1, 2), (2, 3)],
        vec![(0, 1), (1, 3), (2, 3)],
        vec![(0, 1), (2, 3)],
        vec![(0, 1), (0, 2), (0, 3)],
        vec![(0, 1)],
        vec![],
        vec![],
    ];
    let carriers = [
        vec![3],
        vec![3],
        vec![3],
        vec![3],
        vec![1, 3],
        vec![1, 2, 3],
        vec![1, 2, 3],
        vec![0, 1, 2, 3],
        vec![0, 1, 2, 3],
    ];
    for algorithm in 0..9usize {
        let wiring = routing(algorithm as u8);
        for from in 0..4 {
            for to in 0..4 {
                assert_eq!(wiring.inputs[to][from], wires[algorithm].contains(&(from, to)));
            }
            assert_eq!(wiring.carriers[from], carriers[algorithm].contains(&from));
        }
        assert_eq!(wiring.norm as usize, carriers[algorithm].len());
    }
}

#[test]
fn plans_carry_feedback_and_restart() {
    let mut channel = Channel::new();
    assert_eq!(channel.render().feedback_num, 0);
    for (feedback, num) in [(1u8, 2u8), (3, 8), (7, 128)] {
        channel.write_algorithm(feedback << 3);
        assert_eq!(channel.render().feedback_num, num);
    }
    channel.key_control(0x40);
    let plan = channel.render();
    assert_eq!(plan.slots.map(|s| s.restart), [false, false, true, false]);
    assert_eq!(plan.slots[2].output, Some(OpOutput { level_quarter_db: 381, invert: false }));
    assert_eq!(plan.slots[2].envelope, EnvelopeMove::Frozen);
    let levels = channel.advance([false; 4]);
    assert_eq!(levels, [None; 4]);
    assert_eq!(channel.render().slots.map(|s| s.restart), [false; 4]);
}

#[test]
fn pulse_leaves_no_key_held() {
    let mut channel = Channel::new();
    channel.key_control(0x20);
    channel.csm_trigger();
    for slot in 0..4 {
        assert!(!channel.op(slot).key_on);
        assert_eq!(channel.op(slot).eg_phase, EgPhase::Release);
    }
}
