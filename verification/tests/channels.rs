use nes_apu::apu::envelope::Envelope;
use nes_apu::apu::pulse::{Pulse, PulseRegister};
use nes_apu::apu::noise::{Noise, NoiseRegister};
use nes_apu::apu::triangle::{Triangle, TriangleRegister};
use nes_apu::apu::dmc::{DMC, DMCRegister};
use nes_apu::apu::memory::Memory;

#[test]
fn envelope_constant_volume() {
    let mut e = Envelope::new();
    assert_eq!(e.volume(), 0);
    e.load_register(0x1F);
    assert_eq!(e.volume(), 15);
    e.load_register(0x17);
    assert_eq!(e.volume(), 7);
    e.clock();
    assert_eq!(e.volume(), 7);
}

#[test]
fn envelope_decays_and_stops() {
    let mut e = Envelope::new();
    // decay mode, no loop, divider period 0: one step per clock
    e.load_register(0x00);
    e.set_start();
    e.clock();
    assert_eq!(e.volume(), 15);
    for expected in (0..15).rev() {
        e.clock();
        assert_eq!(e.volume(), expected);
    }
    e.clock();
    assert_eq!(e.volume(), 0);
}

#[test]
fn envelope_loops_back_to_15() {
    let mut e = Envelope::new();
    e.load_register(0x20);
    e.set_start();
    e.clock();
    for _ in 0..15 {
        e.clock();
    }
    assert_eq!(e.volume(), 0);
    e.clock();
    assert_eq!(e.volume(), 15);
}

#[test]
fn envelope_divider_slows_decay() {
    let mut e = Envelope::new();
    e.load_register(0x02);
    e.set_start();
    e.clock();
    assert_eq!(e.volume(), 15);
    e.clock();
    e.clock();
    assert_eq!(e.volume(), 15);
    e.clock();
    assert_eq!(e.volume(), 14);
}

fn playing_pulse() -> Pulse {
    let mut p = Pulse::new(true);
    p.set_enabled(true);
    p.load_register(PulseRegister::R0, 0x9F);
    p.load_register(PulseRegister::R2, 0xFD);
    p.load_register(PulseRegister::R3, 0xB0);
    p
}

#[test]
fn pulse_plays_duty_waveform() {
    let mut p = playing_pulse();
    // duty 50 %: steps 0-3 low, 4-7 high; the sequencer counts down from 0
    assert_eq!(p.output(), 0);
    let mut levels = Vec::new();
    for _ in 0..8 {
        for _ in 0..0xFE {
            p.clock_timer();
        }
        levels.push(p.output());
    }
    assert_eq!(levels, vec![15, 15, 15, 15, 0, 0, 0, 0]);
}

#[test]
fn pulse_disabled_is_silent() {
    let mut p = playing_pulse();
    p.clock_timer();
    assert_eq!(p.output(), 15);
    p.set_enabled(false);
    assert_eq!(p.output(), 0);
    p.load_register(PulseRegister::R3, 0xB0);
    p.clock_timer();
    assert_eq!(p.output(), 0);
}

#[test]
fn pulse_length_counter_runs_out() {
    let mut p = Pulse::new(true);
    p.set_enabled(true);
    p.load_register(PulseRegister::R0, 0x9F);
    p.load_register(PulseRegister::R2, 0xFD);
    // length index 3: 2 half-frames
    p.load_register(PulseRegister::R3, 0x18);
    p.clock_timer();
    assert_eq!(p.output(), 15);
    p.clock_length();
    assert_eq!(p.output(), 15);
    p.clock_length();
    assert_eq!(p.output(), 0);
}

#[test]
fn pulse_halted_length_counter_keeps_playing() {
    let mut p = Pulse::new(true);
    p.set_enabled(true);
    p.load_register(PulseRegister::R0, 0xBF);
    p.load_register(PulseRegister::R2, 0xFD);
    p.load_register(PulseRegister::R3, 0x18);
    p.clock_timer();
    for _ in 0..10 {
        p.clock_length();
    }
    assert_eq!(p.output(), 15);
}

#[test]
fn pulse_short_period_is_muted() {
    let mut p = Pulse::new(true);
    p.set_enabled(true);
    p.load_register(PulseRegister::R0, 0x9F);
    p.load_register(PulseRegister::R2, 0x07);
    p.load_register(PulseRegister::R3, 0xB0);
    for _ in 0..20 {
        p.clock_timer();
        assert_eq!(p.output(), 0);
    }
}

#[test]
fn pulse_sweep_target_overflow_mutes() {
    let mut p = Pulse::new(true);
    p.set_enabled(true);
    p.load_register(PulseRegister::R0, 0x9F);
    // period 0x700; a sweep with shift 0 adds the period to the target
    p.load_register(PulseRegister::R2, 0x00);
    p.load_register(PulseRegister::R3, 0xB7);
    p.clock_timer();
    assert_eq!(p.output(), 15);
    p.load_register(PulseRegister::R1, 0x00);
    // target is now 0x700 + 0x700 > 0x7FF
    assert_eq!(p.output(), 0);
}

#[test]
fn pulse_sweep_negate_lowers_period() {
    let mut p = Pulse::new(false);
    p.set_enabled(true);
    p.load_register(PulseRegister::R0, 0x9F);
    p.load_register(PulseRegister::R2, 0x00);
    p.load_register(PulseRegister::R3, 0xB1);
    // sweep enabled, period 0 (divider), negate, shift 1: target 0x100 - 0x80
    p.load_register(PulseRegister::R1, 0x89);
    // the divider is at 0, so the first half-frame clock applies the sweep
    p.clock_sweep();
    let debug = format!("{:?}", p);
    assert!(debug.contains("period_value: 128"));
    assert!(debug.contains("sweep_target_period: 64"));
}

#[test]
fn pulse_can_load_register_detects_overflow() {
    let mut p = Pulse::new(true);
    p.load_register(PulseRegister::R3, 0x07);
    p.load_register(PulseRegister::R2, 0xFF);
    // shift 0 adds the whole period to the target at every write
    let mut writes = 0;
    while p.can_load_register(&PulseRegister::R2, 0xFF) {
        p.load_register(PulseRegister::R2, 0xFF);
        writes += 1;
    }
    // the target, 0xEFF + 0x7FF * writes, would pass 0xFFFF at the next write
    assert_eq!(writes, 30);
    assert!(p.can_load_register(&PulseRegister::R0, 0xFF));
}

#[test]
fn pulse_load_registers_in_order() {
    let mut a = Pulse::new(true);
    a.set_enabled(true);
    a.load_registers([0x9F, 0x08, 0xFD, 0xB0]);
    let mut b = Pulse::new(true);
    b.set_enabled(true);
    b.load_register(PulseRegister::R0, 0x9F);
    b.load_register(PulseRegister::R1, 0x08);
    b.load_register(PulseRegister::R2, 0xFD);
    b.load_register(PulseRegister::R3, 0xB0);
    assert_eq!(format!("{:?}", a), format!("{:?}", b));
}

fn lfsr_model(shift: u16, mode: bool) -> u16 {
    let b0 = shift & 1;
    let b1 = if mode { (shift >> 6) & 1 } else { (shift >> 1) & 1 };
    (shift >> 1) | ((b0 ^ b1) << 14)
}

#[test]
fn noise_follows_shift_register() {
    let mut n = Noise::new();
    n.set_enabled(true);
    n.load_register(NoiseRegister::R0, 0x1F);
    n.load_register(NoiseRegister::R3, 0x08);
    // rate index 0: period 4, so the register steps every 5 clocks
    n.load_register(NoiseRegister::R2, 0x00);
    let mut shift: u16 = 1;
    assert_eq!(n.output(), 15);
    for _ in 0..200 {
        for _ in 0..5 {
            n.clock_timer();
        }
        shift = lfsr_model(shift, false);
        assert_ne!(shift, 0);
        assert_eq!(n.output(), 15 * (shift & 1) as u8);
    }
}

#[test]
fn noise_first_step_from_one() {
    let mut n = Noise::new();
    n.clock_timer();
    assert!(format!("{:?}", n).contains("shift_register: 16384"));
}

#[test]
fn noise_short_mode_uses_bit_six() {
    let mut n = Noise::new();
    n.set_enabled(true);
    n.load_register(NoiseRegister::R0, 0x1F);
    n.load_register(NoiseRegister::R3, 0x08);
    n.load_register(NoiseRegister::R2, 0x80);
    let mut shift: u16 = 1;
    for _ in 0..100 {
        for _ in 0..5 {
            n.clock_timer();
        }
        shift = lfsr_model(shift, true);
        assert_eq!(n.output(), 15 * (shift & 1) as u8);
    }
}

#[test]
fn noise_disabled_is_silent() {
    let mut n = Noise::new();
    n.set_enabled(true);
    n.load_registers([0x1F, 0x00, 0x00, 0x08]);
    assert_eq!(n.output(), 15);
    n.set_enabled(false);
    assert_eq!(n.output(), 0);
    n.load_register(NoiseRegister::R3, 0x08);
    assert_eq!(n.output(), 0);
    n.clock_length();
    n.clock_envelop();
    assert_eq!(n.output(), 0);
}

#[test]
fn triangle_holds_without_linear_counter() {
    let mut t = Triangle::new();
    t.set_enabled(true);
    assert_eq!(t.output(), 15);
    t.load_register(TriangleRegister::R3, 0x08);
    for _ in 0..10 {
        t.clock_timer();
    }
    assert_eq!(t.output(), 15);
}

#[test]
fn triangle_walks_its_sequence() {
    let mut t = Triangle::new();
    t.set_enabled(true);
    t.load_registers([0x7F, 0x00, 0x00, 0x08]);
    t.clock_linear();
    let mut levels = Vec::new();
    for _ in 0..32 {
        t.clock_timer();
        levels.push(t.output());
    }
    let mut expected: Vec<u8> = (0..15).rev().collect();
    expected.extend(0..16);
    expected.push(15);
    assert_eq!(levels, expected);
}

#[test]
fn triangle_length_counter_stops_sequencer() {
    let mut t = Triangle::new();
    t.set_enabled(true);
    t.load_register(TriangleRegister::R0, 0x7F);
    t.load_register(TriangleRegister::R3, 0x18);
    t.clock_linear();
    t.clock_timer();
    assert_eq!(t.output(), 14);
    t.clock_length();
    t.clock_length();
    t.clock_timer();
    assert_eq!(t.output(), 14);
    t.set_enabled(false);
    assert_eq!(t.output(), 14);
}

#[test]
fn dmc_new_is_silent() {
    let mut d = DMC::new();
    assert_eq!(d.output(), 0);
    d.load_register(DMCRegister::R1, 0x40);
    assert_eq!(d.output(), 0);
}

#[test]
fn dmc_register_formulas() {
    let mut d = DMC::new();
    d.load_register(DMCRegister::R0, 0xCF);
    d.load_register(DMCRegister::R1, 0xFF);
    d.load_register(DMCRegister::R2, 0x01);
    d.load_register(DMCRegister::R3, 0x02);
    let s = format!("{:?}", d);
    assert!(s.contains("irq_enabled: true"));
    assert!(s.contains("loop_flag: true"));
    assert!(s.contains("rate_value: 54"));
    assert!(s.contains("current_level: 127"));
    assert!(s.contains("start_address: 49216"));
    assert!(s.contains("length_value: 33"));
}

#[test]
fn dmc_plays_sample_bits() {
    let mut mem = Memory::new();
    mem.load_byte(0xC000, 0b0000_0101);
    let mut d = DMC::new();
    d.load_registers([0x0F, 0x40, 0x00, 0x00]);
    d.set_enabled(true);
    assert!(d.request_fetch);
    d.fetch_sample(&mem);
    assert!(!d.request_fetch);
    // eight silent steps, then the fetched byte enters the shift register
    for _ in 0..8 * 54 {
        d.clock_timer();
    }
    assert_eq!(d.output(), 64);
    let mut levels = Vec::new();
    for _ in 0..4 {
        for _ in 0..54 {
            d.clock_timer();
        }
        levels.push(d.output());
    }
    assert_eq!(levels, vec![66, 64, 66, 64]);
}

#[test]
fn dmc_level_saturates() {
    let mut mem = Memory::new();
    mem.load_byte(0xC000, 0xFF);
    let mut d = DMC::new();
    d.load_registers([0x0F, 0x7C, 0x00, 0x00]);
    d.set_enabled(true);
    d.fetch_sample(&mem);
    for _ in 0..15 * 54 {
        d.clock_timer();
    }
    assert_eq!(d.output(), 126);
}

#[test]
fn dmc_address_wraps_to_8000() {
    let mut mem = Memory::new();
    mem.load_byte(0xFFFF, 0x11);
    mem.load_byte(0x8000, 0x22);
    let mut d = DMC::new();
    // start $FFC0, 4081 bytes
    d.load_registers([0x00, 0x00, 0xFF, 0xFF]);
    d.set_enabled(true);
    for _ in 0..63 {
        d.fetch_sample(&mem);
    }
    assert!(format!("{:?}", d).contains("address_pointer: 65535"));
    d.fetch_sample(&mem);
    let s = format!("{:?}", d);
    assert!(s.contains("sample_buffer: 17"));
    assert!(s.contains("address_pointer: 32768"));
    d.fetch_sample(&mem);
    assert!(format!("{:?}", d).contains("sample_buffer: 34"));
}

#[test]
fn dmc_sample_end_raises_interrupt_or_loops() {
    let mem = Memory::new();
    let mut d = DMC::new();
    d.load_registers([0x80, 0x00, 0x00, 0x00]);
    d.set_enabled(true);
    d.load_register(DMCRegister::R0, 0x80);
    d.fetch_sample(&mem);
    assert!(format!("{:?}", d).contains("irq_interrupt: true"));

    let mut l = DMC::new();
    l.load_registers([0x40, 0x00, 0x00, 0x00]);
    l.set_enabled(true);
    l.fetch_sample(&mem);
    // the one-byte sample ended and restarted: one byte left again
    assert!(format!("{:?}", l).contains("length_counter: 1,"));
    assert!(format!("{:?}", l).contains("irq_interrupt: false"));
}

#[test]
fn dmc_disable_ends_sample() {
    let mut d = DMC::new();
    d.load_registers([0x00, 0x00, 0x00, 0x10]);
    d.set_enabled(true);
    assert!(format!("{:?}", d).contains("length_counter: 257"));
    d.set_enabled(false);
    assert!(format!("{:?}", d).contains("length_counter: 0,"));
}

#[test]
fn pulse_timer_repeats_every_eight_periods() {
    let mut p = Pulse::new(true);
    p.set_enabled(true);
    p.load_register(PulseRegister::R0, 0x9F);
    p.load_register(PulseRegister::R2, 0xFD);
    p.load_register(PulseRegister::R3, 0xB0);
    for _ in 0..37 {
        p.clock_timer();
    }
    let before = format!("{:?}", p);
    let mut changed = false;
    for _ in 0..8 * (0xFD + 1) {
        p.clock_timer();
        if format!("{:?}", p) != before {
            changed = true;
        }
    }
    assert!(changed);
    assert_eq!(format!("{:?}", p), before);
}

#[test]
fn pulse_checkers_for_batch_and_sweep() {
    let mut p = Pulse::new(true);
    assert!(p.can_load_registers([0x00, 0x00, 0xFF, 0x07]));
    assert!(p.can_update_sweep_target_period());
    p.load_registers([0x00, 0x00, 0xFF, 0x07]);
    // the target is now 0xFF + 0x7FF; every further batch adds 0x7FF three times
    let mut batches = 0;
    while p.can_load_registers([0x00, 0x00, 0xFF, 0x07]) {
        p.load_registers([0x00, 0x00, 0xFF, 0x07]);
        batches += 1;
    }
    assert_eq!(batches, 10);
    // a negating sweep never overflows
    assert!(p.can_load_registers([0x00, 0x08, 0xFF, 0x07]));
    let mut updates = 0;
    while p.can_update_sweep_target_period() {
        p.update_sweep_target_period();
        updates += 1;
    }
    assert!(updates <= 1);
}

#[test]
fn dmc_steps_once_per_rate_period() {
    let mut mem = Memory::new();
    mem.load_byte(0xC000, 0xFF);
    let mut d = DMC::new();
    // rate index 0: 428 ticks per step
    d.load_registers([0x00, 0x40, 0x00, 0x00]);
    d.set_enabled(true);
    d.fetch_sample(&mem);
    for _ in 0..8 * 428 {
        d.clock_timer();
    }
    assert_eq!(d.output(), 64);
    for _ in 0..427 {
        d.clock_timer();
    }
    assert_eq!(d.output(), 64);
    d.clock_timer();
    assert_eq!(d.output(), 66);
}
