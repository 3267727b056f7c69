use nes_apu::apu::{Channel, APU, MAIN_FREQ};
use nes_apu::apu::frame_counter::{FrameCounter, FrameCounterClocks, FRAME_DIVIDER};
use nes_apu::apu::memory::Memory;
use nes_apu::apu::registers::{MappedAddress, Registers};
use nes_apu::apu::pulse::PulseRegister;
use nes_apu::apu::noise::NoiseRegister;
use nes_apu::apu::dmc::DMCRegister;
use nes_apu::apu::triangle::TriangleRegister;
use nes_apu::util::pack_dm_bits;
use nes_apu::resample::resample_phase_step;

#[test]
fn memory_starts_zeroed_and_reads_back() {
    let mut m = Memory::new();
    assert_eq!(m.get_byte(0x1234), 0);
    m.load_byte(0x1234, 0xAB);
    assert_eq!(m.get_byte(0x1234), 0xAB);
    assert_eq!(m.get_byte(0x1235), 0);
    m.load_byte(0xFFFF, 7);
    assert_eq!(m.get_byte(0xFFFF), 7);
}

#[test]
fn memory_load_bytes_reads_back() {
    let mut m = Memory::new();
    m.load_byte(0xC003, 9);
    m.load_bytes(0xC000, &vec![1, 2, 3]);
    assert_eq!(m.get_byte(0xC000), 1);
    assert_eq!(m.get_byte(0xC001), 2);
    assert_eq!(m.get_byte(0xC002), 3);
    assert_eq!(m.get_byte(0xC003), 9);
    assert_eq!(m.get_byte(0xBFFF), 0);
    m.load_bytes(0xFFFE, &vec![5, 6]);
    assert_eq!(m.get_byte(0xFFFF), 6);
    m.load_bytes(0x10, &vec![]);
    assert_eq!(m.get_byte(0x10), 0);
}

#[test]
fn registers_map_addresses() {
    let mut r = Registers::new();
    assert!(matches!(r.write_register(0x00, 1), MappedAddress::Pulse1(PulseRegister::R0)));
    assert!(matches!(r.write_register(0x07, 1), MappedAddress::Pulse2(PulseRegister::R3)));
    assert!(matches!(r.write_register(0x0A, 1), MappedAddress::Triangle(TriangleRegister::R2)));
    assert!(matches!(r.write_register(0x0D, 1), MappedAddress::Noise(NoiseRegister::R1)));
    assert!(matches!(r.write_register(0x10, 1), MappedAddress::DMC(DMCRegister::R0)));
    assert!(matches!(r.write_register(0x11, 1), MappedAddress::DMC(DMCRegister::R1)));
    assert!(matches!(r.write_register(0x13, 1), MappedAddress::DMC(DMCRegister::R3)));
    assert!(matches!(r.write_register(0x14, 1), MappedAddress::NotUsed));
    assert!(matches!(r.write_register(0x15, 1), MappedAddress::StatusRegister));
    assert!(matches!(r.write_register(0x16, 1), MappedAddress::NotUsed));
    assert!(matches!(r.write_register(0x17, 1), MappedAddress::FrameRegister));
    assert_eq!(r.memory[0x13], 1);
}

#[test]
fn registers_channel_round_trip() {
    let mut r = Registers::new();
    r.set_channel_registers(Channel::Noise, [1, 2, 3, 4]);
    assert_eq!(r.get_channel_registers(Channel::Noise), [1, 2, 3, 4]);
    assert_eq!(r.get_channel_registers(Channel::Triangle), [0, 0, 0, 0]);
    assert_eq!(r.memory[0x0C], 1);
    r.set_channel_registers(Channel::DMC, [9, 8, 7, 6]);
    assert_eq!(r.get_channel_registers(Channel::DMC), [9, 8, 7, 6]);
    assert_eq!(r.get_channel_registers(Channel::Noise), [1, 2, 3, 4]);
    r.write_register(0x05, 0x55);
    assert_eq!(r.get_channel_registers(Channel::Pulse2), [0, 0x55, 0, 0]);
}

#[test]
fn registers_status_and_frame() {
    let mut r = Registers::new();
    r.set_status_register(0x1F);
    r.set_frame_register(0x40);
    assert_eq!(r.get_status_register(), 0x1F);
    assert_eq!(r.get_frame_register(), 0x40);
    r.write_register(0x15, 0x03);
    assert_eq!(r.get_status_register(), 0x03);
}

#[test]
fn frame_counter_period() {
    assert_eq!(FRAME_DIVIDER, 14915);
    let mut f = FrameCounter::new();
    let mut fired = Vec::new();
    for i in 0..3 * (FRAME_DIVIDER + 1) {
        if f.clock() {
            fired.push(i);
        }
    }
    assert_eq!(fired, vec![14915, 29831, 44747]);
}

#[test]
fn frame_counter_four_step_signals() {
    let mut f = FrameCounter::new();
    let mut signals = Vec::new();
    for _ in 0..4 {
        f.clock_sequencer();
        let s = &f.sequencer_signals;
        signals.push((s.envelope_clock, s.length_clock, s.interrupt));
    }
    assert_eq!(
        signals,
        vec![(true, true, false), (true, false, false), (true, true, true), (true, false, false)]
    );
}

#[test]
fn frame_counter_five_step_signals() {
    let mut f = FrameCounter::new();
    // bit 7 clear selects five-step mode and steps at once; bit 6 inhibits
    f.load_reguister(0x40);
    let s = &f.sequencer_signals;
    assert_eq!((s.envelope_clock, s.length_clock, s.interrupt), (true, false, false));
    let mut signals = Vec::new();
    for _ in 0..5 {
        f.clock_sequencer();
        let s = &f.sequencer_signals;
        signals.push((s.envelope_clock, s.length_clock, s.interrupt));
    }
    assert_eq!(
        signals,
        vec![
            (true, true, false),
            (true, false, false),
            (false, false, false),
            (true, true, false),
            (true, false, false),
        ]
    );
}

#[test]
fn frame_counter_inhibit_and_reload() {
    let mut f = FrameCounter::new();
    f.load_reguister(0xC0);
    // four-step mode, interrupt inhibited, one clock before the next step
    assert!(!f.clock());
    assert!(f.clock());
    f.clock_sequencer();
    f.clock_sequencer();
    assert!(!f.sequencer_signals.interrupt);
    assert!(f.sequencer_signals.length_clock);
}

#[test]
fn frame_counter_clocks_any() {
    let c = FrameCounterClocks { length_clock: false, envelope_clock: false, interrupt: false };
    assert!(!c.any());
    let c = FrameCounterClocks { length_clock: false, envelope_clock: false, interrupt: true };
    assert!(c.any());
    let c = FrameCounterClocks { length_clock: true, envelope_clock: false, interrupt: false };
    assert!(c.any());
}

#[test]
fn apu_main_frequency() {
    assert_eq!(MAIN_FREQ, 3_579_545);
}

fn program_square(apu: &mut APU) {
    apu.write_opp(0x4015, 0b0000_0001);
    apu.write_opp(0x4017, 0b0000_0000);
    apu.write_opp(0x4000, 0b1001_1111);
    apu.write_opp(0x4001, 0b0000_1000);
    apu.write_opp(0x4002, 0xFD);
    apu.write_opp(0x4003, 0x16 << 3);
}

#[test]
fn apu_plays_square_wave() {
    let mut apu = APU::new();
    program_square(&mut apu);
    assert_eq!(apu.pulse1.output(), 0);
    // the pulse timer ticks every fourth clock
    for _ in 0..4 {
        apu.clock();
    }
    assert_eq!(apu.pulse1.output(), 15);
    assert_eq!(apu.pulse2.output(), 0);
    // each duty step lasts 0xFE timer ticks of four clocks
    let mut levels = Vec::new();
    for _ in 0..8 {
        for _ in 0..4 * 0xFE {
            apu.clock();
        }
        levels.push(apu.pulse1.output());
    }
    assert_eq!(levels, vec![15, 15, 15, 0, 0, 0, 0, 15]);
}

#[test]
fn apu_status_write_disables_channels() {
    let mut apu = APU::new();
    program_square(&mut apu);
    apu.write_opp(0x400C, 0x1F);
    apu.write_opp(0x400F, 0x08);
    for _ in 0..4 {
        apu.clock();
    }
    assert_eq!(apu.pulse1.output(), 15);
    // the noise channel was disabled when its length was written
    assert_eq!(apu.noise.output(), 0);
    assert!(format!("{:?}", apu.noise).contains("length_counter: 0,"));
    apu.write_opp(0x4015, 0x08);
    apu.write_opp(0x400F, 0x08);
    assert!(format!("{:?}", apu.noise).contains("length_counter: 254,"));
    assert_eq!(apu.pulse1.output(), 0);
    apu.write_opp(0x4015, 0x00);
    assert_eq!(apu.noise.output(), 0);
    assert!(format!("{:?}", apu.noise).contains("length_counter: 0,"));
}

#[test]
fn apu_dmc_registers_are_wired() {
    let mut apu = APU::new();
    apu.write_opp(0x4011, 0x40);
    assert!(format!("{:?}", apu.dmc).contains("current_level: 64,"));
    apu.write_opp(0x4010, 0xCF);
    apu.write_opp(0x4012, 0x01);
    apu.write_opp(0x4013, 0x02);
    let s = format!("{:?}", apu.dmc);
    assert!(s.contains("irq_enabled: true"));
    assert!(s.contains("loop_flag: true"));
    assert!(s.contains("rate_value: 54"));
    assert!(s.contains("start_address: 49216"));
    assert!(s.contains("length_value: 33"));
    assert!(apu.can_write(0x4010, 0xFF));
    assert!(apu.can_write(0x4013, 0xFF));
}

#[test]
fn apu_plays_dmc_sample() {
    let mut apu = APU::new();
    apu.write_opp(0xC000, 0xFF);
    apu.write_opp(0x4010, 0x0F);
    apu.write_opp(0x4011, 0x40);
    apu.write_opp(0x4012, 0x00);
    apu.write_opp(0x4013, 0x00);
    // enabling the channel starts the sample and fetches its byte at once
    apu.write_opp(0x4015, 0x10);
    assert!(!apu.dmc.request_fetch);
    // a level step every 54 timer ticks, a timer tick every second clock
    for _ in 0..2 * 54 * 9 {
        apu.clock();
    }
    assert_eq!(apu.dmc.output(), 66);
}

#[test]
fn apu_load_sample_reaches_dmc() {
    let mut apu = APU::new();
    apu.load_sample(0xC000, &vec![0x00, 0x00]);
    apu.dmc.load_registers([0x0F, 0x40, 0x00, 0x00]);
    apu.write_opp(0x4015, 0x10);
    for _ in 0..2 * 54 * 9 {
        apu.clock();
    }
    assert_eq!(apu.dmc.output(), 62);
}

#[test]
fn apu_frame_sequencer_clocks_length() {
    let mut apu = APU::new();
    apu.write_opp(0x4015, 0x01);
    apu.write_opp(0x4000, 0x9F);
    apu.write_opp(0x4002, 0xFD);
    // length index 3: two half-frames
    apu.write_opp(0x4003, 0x18);
    assert!(format!("{:?}", apu.pulse1).contains("length_counter: 2,"));
    let mut silent_at = None;
    for i in 0..4 * 14916 {
        apu.clock();
        if silent_at.is_none() && format!("{:?}", apu.pulse1).contains("length_counter: 0,") {
            silent_at = Some(i);
        }
    }
    // half-frames at the first and third sequencer steps
    assert_eq!(silent_at, Some(3 * 14916 - 1));
}

#[test]
fn apu_can_write_checks() {
    let apu = APU::new();
    assert!(apu.can_write(0x4000, 0));
    assert!(apu.can_write(0x4017, 0));
    assert!(apu.can_write(0xC000, 0));
    assert!(apu.can_write(0xCFFF, 0));
    assert!(!apu.can_write(0x4018, 0));
    assert!(!apu.can_write(0x3FFF, 0));
    assert!(!apu.can_write(0xD000, 0));
}

#[test]
fn pack_bits_least_significant_first() {
    assert_eq!(pack_dm_bits(&vec![true, false, true], false), vec![0b0000_0101]);
    assert_eq!(pack_dm_bits(&vec![true, false, true], true), vec![0b1111_1101]);
    assert_eq!(pack_dm_bits(&vec![], true), vec![0xFF]);
    let bits = vec![false, true, true, false, false, false, false, true, true];
    assert_eq!(pack_dm_bits(&bits, false), vec![0b1000_0110, 0b0000_0001]);
}

#[test]
fn pack_bits_full_byte_gets_padding_byte() {
    let bits = vec![true; 8];
    assert_eq!(pack_dm_bits(&bits, false), vec![0xFF, 0x00]);
    assert_eq!(pack_dm_bits(&bits, true), vec![0xFF, 0xFF]);
}

#[test]
fn dmc_plays_packed_bits_in_order() {
    let bits = vec![true, true, false, true, false, false, true, false, true, true, true];
    let packed = pack_dm_bits(&bits, false);
    assert_eq!(packed.len(), 2);
    let mut apu = APU::new();
    apu.load_sample(0xC000, &packed);
    // rate 54, level 64, sample at $C000, 17 bytes (only two are fetched)
    apu.dmc.load_registers([0x0F, 0x40, 0x00, 0x01]);
    apu.write_opp(0x4015, 0x10);
    // eight silent level steps before the first byte enters the shifter
    for _ in 0..2 * 54 * 8 {
        apu.clock();
    }
    let mut level = apu.dmc.output() as i32;
    assert_eq!(level, 64);
    for bit in bits.iter().chain([false; 5].iter()) {
        for _ in 0..2 * 54 {
            apu.clock();
        }
        let next = apu.dmc.output() as i32;
        assert_eq!(next - level, if *bit { 2 } else { -2 });
        level = next;
    }
}

#[test]
fn apu_disabled_channels_stay_silent() {
    let mut apu = APU::new();
    apu.write_opp(0x4000, 0x9F);
    apu.write_opp(0x4002, 0xFD);
    apu.write_opp(0x4003, 0xB0);
    apu.write_opp(0x400C, 0x1F);
    apu.write_opp(0x400F, 0x08);
    for _ in 0..40_000 {
        apu.clock();
        assert_eq!(apu.pulse1.output(), 0);
        assert_eq!(apu.noise.output(), 0);
    }
}

#[test]
fn resample_phase_steps() {
    assert_eq!(resample_phase_step(0, 1, 3), (1, false));
    assert_eq!(resample_phase_step(2, 1, 3), (0, true));
    assert_eq!(resample_phase_step(5, 4, 3), (6, true));
    let mut counter = 0;
    let mut outputs = 0;
    for _ in 0..300 {
        let (c, due) = resample_phase_step(counter, 2, 3);
        counter = c;
        assert!(counter < 3);
        if due {
            outputs += 1;
        }
    }
    assert_eq!(outputs, 200);
}

#[test]
fn apu_writes_program_dmc_sample() {
    let mut apu = APU::new();
    apu.write_opp(0xC040, 0x00);
    apu.write_opp(0x4010, 0x0F);
    apu.write_opp(0x4011, 0x40);
    apu.write_opp(0x4012, 0x01);
    apu.write_opp(0x4013, 0x00);
    apu.write_opp(0x4015, 0x10);
    assert!(format!("{:?}", apu.dmc).contains("address_pointer: 49217"));
    for _ in 0..2 * 54 * 9 {
        apu.clock();
    }
    assert_eq!(apu.dmc.output(), 62);
}
