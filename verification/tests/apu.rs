use nes_rs::apu::dmc::dmc_rate;
use nes_rs::apu::envelope::Envelope;
use nes_rs::apu::length::{length_table, LengthCounter};
use nes_rs::apu::noise::{noise_period, Noise};
use nes_rs::apu::pulse::duty_on;
use nes_rs::apu::sequencer::FrameSequencer;
use nes_rs::apu::sweep::Sweep;
use nes_rs::apu::triangle::{triangle_level, Triangle};
use nes_rs::apu::{Apu, TickOutput};
use nes_rs::region::Region;

#[test]
fn length_table_values() {
    assert_eq!(length_table(0), 10);
    assert_eq!(length_table(1), 254);
    assert_eq!(length_table(31), 30);
    assert_eq!(length_table(0x21), 254);
}

#[test]
fn period_tables() {
    assert_eq!(noise_period(0), 4);
    assert_eq!(noise_period(15), 4068);
    assert_eq!(dmc_rate(0), 428);
    assert_eq!(dmc_rate(15), 54);
}

#[test]
fn duty_patterns() {
    // Duty 0 (12.5%) is high at step 1 only.
    let high: Vec<u8> = (0..8).filter(|&s| duty_on(0, s)).collect();
    assert_eq!(high, vec![1]);
    // Duty 2 (50%) is high at steps 1–4.
    let high: Vec<u8> = (0..8).filter(|&s| duty_on(2, s)).collect();
    assert_eq!(high, vec![1, 2, 3, 4]);
}

#[test]
fn triangle_sequence_is_a_ramp() {
    assert_eq!(triangle_level(0), 15);
    assert_eq!(triangle_level(15), 0);
    assert_eq!(triangle_level(16), 0);
    assert_eq!(triangle_level(31), 15);
}

#[test]
fn length_counter_counts_down_unless_halted() {
    let mut l = LengthCounter::new();
    l.set_enabled(true);
    l.load(3);
    assert_eq!(l.value(), 2);
    l.clock();
    assert_eq!(l.value(), 1);
    l.clock();
    l.clock();
    assert_eq!(l.value(), 0);
    assert!(!l.active());
    l.load(3);
    l.halted = true;
    l.clock();
    assert_eq!(l.value(), 2);
}

#[test]
fn disabled_length_counter_ignores_loads() {
    let mut l = LengthCounter::new();
    l.load(1);
    assert_eq!(l.value(), 0);
    l.set_enabled(true);
    l.load(1);
    l.set_enabled(false);
    assert_eq!(l.value(), 0);
}

#[test]
fn envelope_decays_then_stops() {
    let mut e = Envelope::new();
    e.write(0x00);
    e.restart();
    assert_eq!(e.output(), 15);
    for _ in 0..15 {
        e.clock();
    }
    assert_eq!(e.output(), 0);
    e.clock();
    assert_eq!(e.output(), 0);
}

#[test]
fn looping_envelope_wraps_to_fifteen() {
    let mut e = Envelope::new();
    e.write(0x20);
    e.restart();
    for _ in 0..16 {
        e.clock();
    }
    assert_eq!(e.output(), 15);
}

#[test]
fn constant_volume_envelope() {
    let mut e = Envelope::new();
    e.write(0x17);
    assert_eq!(e.output(), 7);
}

#[test]
fn sweep_mutes_low_periods_and_keeps_them() {
    let mut s = Sweep::new(false);
    s.write(0x81);
    let mut period: u16 = 4;
    assert!(s.muting(period));
    s.clock(&mut period);
    assert_eq!(period, 4);
}

#[test]
fn sweep_mutes_when_target_falls_below_eight() {
    let mut s = Sweep::new(false);
    s.write(0x88); // negate, shift 0: the target is zero
    assert_eq!(s.target_period(0x100), 0);
    assert!(s.muting(0x100));
}

#[test]
fn sweep_mutes_when_target_exceeds_7ff() {
    let mut s = Sweep::new(false);
    s.write(0x81); // shift 1: 0x600 + 0x300
    assert!(s.muting(0x600));
    assert!(!s.muting(0x500));
}

#[test]
fn sweep_judges_the_target_not_the_current_period() {
    let mut s = Sweep::new(false);
    s.write(0x80); // shift 0: the target is twice the period
    assert_eq!(s.target_period(4), 8);
    assert!(!s.muting(4));
}

#[test]
fn sweep_target_adds_shifted_period() {
    let mut s = Sweep::new(false);
    s.write(0x81); // enabled, shift 1
    assert_eq!(s.target_period(0x100), 0x180);
    s.write(0x89); // negate
    assert_eq!(s.target_period(0x100), 0x080);
    let mut ones = Sweep::new(true);
    ones.write(0x89);
    assert_eq!(ones.target_period(0x100), 0x07F);
}

#[test]
fn noise_shift_register_never_empties() {
    let mut n = Noise::new();
    for _ in 0..1000 {
        n.clock_shift_register();
        assert_ne!(n.shift_register, 0);
        assert!(n.shift_register < 0x8000);
    }
}

#[test]
fn silenced_triangle_holds_its_step() {
    let mut t = Triangle::new();
    t.timer_period = 4;
    let before = t.sequence_pos;
    for _ in 0..50 {
        t.tick();
    }
    assert_eq!(t.sequence_pos, before);
}

#[test]
fn four_step_sequencer_raises_irq() {
    let mut s = FrameSequencer::new();
    s.set_step_cycles(10);
    for _ in 0..40 {
        let _ = s.tick();
    }
    assert!(s.irq_pending);
}

#[test]
fn five_step_or_inhibited_sequencer_stays_quiet() {
    let mut s = FrameSequencer::new();
    s.set_step_cycles(10);
    s.write_control(0x80);
    for _ in 0..100 {
        assert!(!s.tick().irq);
    }
    let mut s = FrameSequencer::new();
    s.set_step_cycles(10);
    s.write_control(0x40);
    for _ in 0..100 {
        assert!(!s.tick().irq);
    }
    assert!(!s.irq_pending);
}

#[test]
fn apu_frame_irq_is_reported_and_read_clears_it() {
    let mut apu = Apu::new();
    apu.set_region(Region::Ntsc);
    let mut saw_irq = false;
    for _ in 0..(4 * 7457) {
        if apu.tick() == TickOutput::Irq {
            saw_irq = true;
        }
    }
    assert!(saw_irq);
    assert_eq!(apu.read_status() & 0x40, 0x40);
    assert_eq!(apu.read_status() & 0x40, 0);
}

#[test]
fn status_reports_and_disable_clears_length() {
    let mut apu = Apu::new();
    apu.write_register(0x4015, 0x0F);
    apu.write_register(0x4003, 0x08); // pulse 1 length index 1
    apu.write_register(0x400F, 0x08); // noise length index 1
    assert_eq!(apu.read_status() & 0x0F, 0x09);
    apu.write_register(0x4015, 0x00);
    assert_eq!(apu.read_status() & 0x0F, 0x00);
    assert_eq!(apu.pulse1.length.value(), 0);
}

#[test]
fn pal_region_lengthens_sequencer_steps() {
    let mut apu = Apu::new();
    apu.set_region(Region::Pal);
    assert_eq!(apu.sequencer.step_cycles, 8313);
}
