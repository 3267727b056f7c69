pub mod envelope;
pub mod pulse;
pub mod noise;
pub mod triangle;
pub mod dmc;
pub mod memory;
pub mod frame_counter;
pub mod registers;

use vstd::prelude::*;
use crate::bits::lemma_byte_fields;
use crate::apu::frame_counter::{FrameCounter, FrameCounterState};
use crate::apu::registers::{MappedAddress, Registers, mapped_address};
use crate::apu::memory::{Memory, bytes_loaded};
use crate::apu::pulse::{Pulse, PulseRegister, PulseState};
use crate::apu::triangle::{Triangle, TriangleRegister, TriangleState};
use crate::apu::noise::{Noise, NoiseRegister, NoiseState};
use crate::apu::dmc::{DMC, DMCRegister, DmcState};

verus! {

/// The APU's clock rate in Hz: twice the CPU clock of 1.789773 MHz, because
/// the pulse timers run at half of it.
pub const MAIN_FREQ: u32 = 21_477_270 / 6;

/// Length-counter load values, indexed by bits 3-7 of a channel's fourth
/// register.
pub const LENGTH_TABLE: [u8; 32] = [
     10, 254,  20,   2,  40,   4,  80,   6,
    160,   8,  60,  10,  14,  12,  26,  14,
     12,  16,  24,  18,  48,  20,  96,  22,
    192,  24,  72,  26,  16,  28,  32,  30,
];

/// The five channels of the APU.
pub enum Channel {
    Pulse1,
    Pulse2,
    Triangle,
    Noise,
    DMC,
}

/// The bit of the status register ($4015) that enables `channel`.
pub open spec fn channel_mask(channel: Channel) -> u8 {
    match channel {
        Channel::Pulse1 => 0x01,
        Channel::Pulse2 => 0x02,
        Channel::Triangle => 0x04,
        Channel::Noise => 0x08,
        Channel::DMC => 0x10,
    }
}

/// The whole audio unit: register file, sample memory, frame sequencer and
/// the five channels.
pub struct APU {
    registers: Registers,
    sample_memory: Memory,
    frame_counter: FrameCounter,
    pub pulse1: Pulse,
    pub pulse2: Pulse,
    pub triangle: Triangle,
    pub noise: Noise,
    pub dmc: DMC,
    clock_counter: u32,
}

/// The plain values an [`APU`] holds.
pub struct ApuState {
    pub registers: Seq<u8>,
    pub sample_memory: Seq<u8>,
    pub frame_counter: FrameCounterState,
    pub pulse1: PulseState,
    pub pulse2: PulseState,
    pub triangle: TriangleState,
    pub noise: NoiseState,
    pub dmc: DmcState,
    pub clock_counter: u32,
}

impl View for APU {
    type V = ApuState;

    closed spec fn view(&self) -> ApuState {
        ApuState {
            registers: self.registers.memory@,
            sample_memory: self.sample_memory.memory@,
            frame_counter: self.frame_counter@,
            pulse1: self.pulse1@,
            pulse2: self.pulse2@,
            triangle: self.triangle@,
            noise: self.noise@,
            dmc: self.dmc@,
            clock_counter: self.clock_counter,
        }
    }
}

/// The addresses the CPU may write: the registers $4000-$4017 and the sample
/// memory $C000-$CFFF.
pub open spec fn valid_write_address(address: u16) -> bool {
    (0x4000 <= address <= 0x4017) || (0xC000 <= address <= 0xCFFF)
}

impl ApuState {
    /// The invariant every reachable APU satisfies.
    pub open spec fn wf(self) -> bool {
        &&& self.registers.len() == 0x18
        &&& self.sample_memory.len() == 0x10000
        &&& self.frame_counter.wf()
        &&& self.pulse1.wf()
        &&& self.pulse2.wf()
        &&& self.triangle.wf()
        &&& self.noise.wf()
        &&& self.dmc.wf()
        &&& self.clock_counter < 6 * MAIN_FREQ
    }

    /// A freshly built APU: zeroed memories, pulse 1 with one's complement
    /// sweep, pulse 2 with two's complement sweep.
    pub open spec fn initial() -> ApuState {
        ApuState {
            registers: Seq::new(0x18, |i: int| 0u8),
            sample_memory: Seq::new(0x10000, |i: int| 0u8),
            frame_counter: FrameCounterState::initial(),
            pulse1: PulseState::initial(true),
            pulse2: PulseState::initial(false),
            triangle: TriangleState::initial(),
            noise: NoiseState::initial(),
            dmc: DmcState::initial(),
            clock_counter: 0,
        }
    }

    /// Serving a pending fetch request of the delta-modulation channel.
    pub open spec fn dmc_fetched(self) -> ApuState {
        if self.dmc.request_fetch {
            ApuState { dmc: self.dmc.fetched(self.sample_memory), ..self }
        } else {
            self
        }
    }

    /// A write of `byte` to the register at offset `offset` from $4000.
    pub open spec fn register_written(self, offset: u8, byte: u8) -> ApuState {
        let s = ApuState { registers: self.registers.update(offset as int, byte), ..self };
        match mapped_address(offset) {
            MappedAddress::Pulse1(r) => ApuState { pulse1: s.pulse1.loaded(r, byte), ..s },
            MappedAddress::Pulse2(r) => ApuState { pulse2: s.pulse2.loaded(r, byte), ..s },
            MappedAddress::Triangle(r) => ApuState { triangle: s.triangle.loaded(r, byte), ..s },
            MappedAddress::Noise(r) => ApuState { noise: s.noise.loaded(r, byte), ..s },
            MappedAddress::DMC(r) => ApuState { dmc: s.dmc.loaded(r, byte), ..s },
            MappedAddress::FrameRegister => ApuState {
                frame_counter: s.frame_counter.loaded(byte),
                ..s
            },
            MappedAddress::StatusRegister => ApuState {
                pulse1: s.pulse1.enabled_set(byte % 2 == 1),
                pulse2: s.pulse2.enabled_set((byte / 0x02) % 2 == 1),
                triangle: s.triangle.enabled_set((byte / 0x04) % 2 == 1),
                noise: s.noise.enabled_set((byte / 0x08) % 2 == 1),
                dmc: s.dmc.enabled_set((byte / 0x10) % 2 == 1),
                ..s
            }.dmc_fetched(),
            MappedAddress::NotUsed => s,
        }
    }

    /// A write can be made without overflowing a pulse channel's sweep
    /// target.
    pub open spec fn write_safe(self, address: u16, byte: u8) -> bool {
        0x4000 <= address <= 0x4017 ==> match mapped_address((address - 0x4000) as u8) {
            MappedAddress::Pulse1(r) => self.pulse1.load_safe(r, byte),
            MappedAddress::Pulse2(r) => self.pulse2.load_safe(r, byte),
            _ => true,
        }
    }

    /// A CPU write of `byte` to `address`.
    pub open spec fn written(self, address: u16, byte: u8) -> ApuState {
        if 0x4000 <= address <= 0x4017 {
            self.register_written((address - 0x4000) as u8, byte)
        } else {
            ApuState { sample_memory: self.sample_memory.update(address as int, byte), ..self }
        }
    }

    /// One APU clock: the pulse timers tick every fourth clock, the other
    /// timers every second clock; when the frame sequencer steps, its
    /// quarter-frame signal clocks the envelopes and the linear counter and
    /// its half-frame signal the length counters and sweeps; finally a
    /// pending sample fetch is served.
    pub open spec fn clocked(self) -> ApuState {
        let counter = ((self.clock_counter + 1) % (6 * MAIN_FREQ)) as u32;
        let pulse_tick = counter % 4 == 0;
        let tick = counter % 2 == 0;
        let p1 = if pulse_tick { self.pulse1.timer_clocked() } else { self.pulse1 };
        let p2 = if pulse_tick { self.pulse2.timer_clocked() } else { self.pulse2 };
        let tr = if tick { self.triangle.timer_clocked() } else { self.triangle };
        let ns = if tick { self.noise.timer_clocked() } else { self.noise };
        let dm = if tick { self.dmc.timer_clocked() } else { self.dmc };
        let fc = self.frame_counter.clocked();
        let quarter = self.frame_counter.fires() && fc.envelope_clock;
        let half = self.frame_counter.fires() && fc.length_clock;
        let p1 = if quarter { p1.envelope_clocked() } else { p1 };
        let p2 = if quarter { p2.envelope_clocked() } else { p2 };
        let tr = if quarter { tr.linear_clocked() } else { tr };
        let ns = if quarter { ns.envelope_clocked() } else { ns };
        let p1 = if half { p1.length_clocked().sweep_clocked() } else { p1 };
        let p2 = if half { p2.length_clocked().sweep_clocked() } else { p2 };
        let tr = if half { tr.length_clocked() } else { tr };
        let ns = if half { ns.length_clocked() } else { ns };
        ApuState {
            clock_counter: counter,
            frame_counter: fc,
            pulse1: p1,
            pulse2: p2,
            triangle: tr,
            noise: ns,
            dmc: dm,
            ..self
        }.dmc_fetched()
    }
}

/// Law: a write to the status register with a channel's enable bit clear
/// silences the pulse and noise channels and empties the length counters of
/// the triangle channel; the delta-modulation channel's sample ends too,
/// unless a fetch was pending with the loop flag set, which restarts it.
pub proof fn lemma_status_write_disables(s: ApuState, byte: u8)
    requires
        s.wf(),
    ensures
        ({
            let t = s.register_written(0x15, byte);
            &&& byte % 2 == 0 ==> !t.pulse1.enabled && t.pulse1.output() == 0
            &&& (byte / 0x02) % 2 == 0 ==> !t.pulse2.enabled && t.pulse2.output() == 0
            &&& (byte / 0x04) % 2 == 0 ==> !t.triangle.enabled && t.triangle.length_counter == 0
            &&& (byte / 0x08) % 2 == 0 ==> !t.noise.enabled && t.noise.output() == 0
            &&& (byte / 0x10) % 2 == 0 ==> !t.dmc.enabled
            &&& (byte / 0x10) % 2 == 0 && !(s.dmc.request_fetch && s.dmc.loop_flag)
                ==> t.dmc.length_counter == 0
        }),
{
}

/// Law: a CPU write to $4000-$4013 acts as the write to the matching
/// register of the matching channel: four registers each for pulse 1, pulse
/// 2, triangle, noise and the delta-modulation channel, in that order.
pub proof fn lemma_write_dispatch(s: ApuState, byte: u8)
    ensures
        s.register_written(0x00, byte).pulse1 == s.pulse1.loaded(PulseRegister::R0, byte),
        s.register_written(0x01, byte).pulse1 == s.pulse1.loaded(PulseRegister::R1, byte),
        s.register_written(0x02, byte).pulse1 == s.pulse1.loaded(PulseRegister::R2, byte),
        s.register_written(0x03, byte).pulse1 == s.pulse1.loaded(PulseRegister::R3, byte),
        s.register_written(0x04, byte).pulse2 == s.pulse2.loaded(PulseRegister::R0, byte),
        s.register_written(0x05, byte).pulse2 == s.pulse2.loaded(PulseRegister::R1, byte),
        s.register_written(0x06, byte).pulse2 == s.pulse2.loaded(PulseRegister::R2, byte),
        s.register_written(0x07, byte).pulse2 == s.pulse2.loaded(PulseRegister::R3, byte),
        s.register_written(0x08, byte).triangle == s.triangle.loaded(TriangleRegister::R0, byte),
        s.register_written(0x09, byte).triangle == s.triangle.loaded(TriangleRegister::R1, byte),
        s.register_written(0x0A, byte).triangle == s.triangle.loaded(TriangleRegister::R2, byte),
        s.register_written(0x0B, byte).triangle == s.triangle.loaded(TriangleRegister::R3, byte),
        s.register_written(0x0C, byte).noise == s.noise.loaded(NoiseRegister::R0, byte),
        s.register_written(0x0D, byte).noise == s.noise.loaded(NoiseRegister::R1, byte),
        s.register_written(0x0E, byte).noise == s.noise.loaded(NoiseRegister::R2, byte),
        s.register_written(0x0F, byte).noise == s.noise.loaded(NoiseRegister::R3, byte),
        s.register_written(0x10, byte).dmc == s.dmc.loaded(DMCRegister::R0, byte),
        s.register_written(0x11, byte).dmc == s.dmc.loaded(DMCRegister::R1, byte),
        s.register_written(0x12, byte).dmc == s.dmc.loaded(DMCRegister::R2, byte),
        s.register_written(0x13, byte).dmc == s.dmc.loaded(DMCRegister::R3, byte),
        s.register_written(0x17, byte).frame_counter == s.frame_counter.loaded(byte),
{
}

/// Law: a write to the status register ($4015) enables exactly the channels
/// whose bits are set (bit 0 pulse 1, bit 1 pulse 2, bit 2 triangle, bit 3
/// noise, bit 4 delta modulation) and disables the others.
pub proof fn lemma_status_write_enables(s: ApuState, byte: u8)
    requires
        s.wf(),
    ensures
        ({
            let t = s.register_written(0x15, byte);
            &&& t.pulse1.enabled == (byte % 2 == 1)
            &&& t.pulse2.enabled == ((byte / 2) % 2 == 1)
            &&& t.triangle.enabled == ((byte / 4) % 2 == 1)
            &&& t.noise.enabled == ((byte / 8) % 2 == 1)
            &&& t.dmc.enabled == ((byte / 16) % 2 == 1)
            &&& t.frame_counter == s.frame_counter
            &&& t.registers[0x15] == byte
        }),
{
}

/// Law: a write to one channel's register leaves every other channel and the
/// frame sequencer unchanged.
pub proof fn lemma_register_write_isolated(s: ApuState, offset: u8, byte: u8)
    requires
        offset < 0x14,
    ensures
        ({
            let t = s.register_written(offset, byte);
            &&& t.frame_counter == s.frame_counter
            &&& t.sample_memory == s.sample_memory
            &&& offset < 0x10 ==> t.dmc == s.dmc
            &&& offset < 0x04 ==> t.pulse2 == s.pulse2 && t.triangle == s.triangle && t.noise == s.noise
            &&& 0x04 <= offset < 0x08 ==> t.pulse1 == s.pulse1 && t.triangle == s.triangle && t.noise == s.noise
            &&& 0x08 <= offset < 0x0C ==> t.pulse1 == s.pulse1 && t.pulse2 == s.pulse2 && t.noise == s.noise
            &&& 0x0C <= offset < 0x10 ==> t.pulse1 == s.pulse1 && t.pulse2 == s.pulse2 && t.triangle == s.triangle
            &&& 0x10 <= offset ==> t.pulse1 == s.pulse1 && t.pulse2 == s.pulse2 && t.triangle == s.triangle
                && t.noise == s.noise
        }),
{
}

/// Law: every write is recorded: a register write is kept in the register
/// file and a sample-memory write in the sample memory, and nothing else of
/// either changes.
pub proof fn lemma_write_recorded(s: ApuState, address: u16, byte: u8)
    requires
        s.wf(),
        valid_write_address(address),
    ensures
        ({
            let t = s.written(address, byte);
            &&& 0x4000 <= address <= 0x4017 ==> t.registers == s.registers.update(address - 0x4000, byte)
                && t.sample_memory == s.sample_memory
            &&& 0xC000 <= address ==> t.sample_memory == s.sample_memory.update(address as int, byte)
                && t.registers == s.registers
        }),
{
}

/// Law: the APU clock never enables a channel, so a pulse or noise channel
/// that is disabled stays silent however long the APU runs.
pub proof fn lemma_clock_keeps_disabled(s: ApuState)
    requires
        s.wf(),
    ensures
        !s.pulse1.enabled ==> !s.clocked().pulse1.enabled && s.clocked().pulse1.output() == 0,
        !s.pulse2.enabled ==> !s.clocked().pulse2.enabled && s.clocked().pulse2.output() == 0,
        !s.noise.enabled ==> !s.clocked().noise.enabled && s.clocked().noise.output() == 0,
        !s.triangle.enabled ==> !s.clocked().triangle.enabled,
        !s.dmc.enabled ==> !s.clocked().dmc.enabled,
{
}

/// Law: what one APU clock does to the channels. The frame sequencer
/// advances by one clock. When it steps with its quarter-frame signal, the
/// envelopes are clocked and the triangle's linear counter is clocked (so a
/// raised reload flag loads it with the reload value); otherwise envelopes
/// and linear counter are untouched. When it steps with its half-frame
/// signal, the length counters count down; otherwise they are untouched.
pub proof fn lemma_clock_frame_signals(s: ApuState)
    requires
        s.wf(),
    ensures
        ({
            let t = s.clocked();
            let fc = s.frame_counter.clocked();
            let quarter = s.frame_counter.fires() && fc.envelope_clock;
            let half = s.frame_counter.fires() && fc.length_clock;
            &&& t.frame_counter == fc
            &&& quarter && s.triangle.linear_counter_reload ==> t.triangle.linear_counter
                == s.triangle.linear_counter_value
            &&& quarter ==> t.pulse1.envelope == s.pulse1.envelope.clocked()
                && t.pulse2.envelope == s.pulse2.envelope.clocked()
                && t.noise.envelope == s.noise.envelope.clocked()
                && t.triangle.linear_counter_reload == (s.triangle.linear_counter_reload
                && s.triangle.control_flag)
            &&& !quarter ==> t.pulse1.envelope == s.pulse1.envelope && t.pulse2.envelope
                == s.pulse2.envelope && t.noise.envelope == s.noise.envelope
                && t.triangle.linear_counter == s.triangle.linear_counter
                && t.triangle.linear_counter_reload == s.triangle.linear_counter_reload
            &&& half ==> t.pulse1.length_counter == s.pulse1.length_clocked().length_counter
                && t.pulse2.length_counter == s.pulse2.length_clocked().length_counter
                && t.triangle.length_counter == s.triangle.length_clocked().length_counter
                && t.noise.length_counter == s.noise.length_clocked().length_counter
            &&& !half ==> t.pulse1.length_counter == s.pulse1.length_counter && t.pulse2.length_counter
                == s.pulse2.length_counter && t.triangle.length_counter == s.triangle.length_counter
                && t.noise.length_counter == s.noise.length_counter
                && t.pulse1.period_value == s.pulse1.period_value
                && t.pulse2.period_value == s.pulse2.period_value
        }),
{
}

/// Law: the timers of one APU clock. The clock counter advances by one
/// modulo `6 * MAIN_FREQ`; the pulse timers tick when the new count is a
/// multiple of 4, the triangle and noise timers when it is even.
pub proof fn lemma_clock_timers(s: ApuState)
    requires
        s.wf(),
    ensures
        ({
            let t = s.clocked();
            let c = (s.clock_counter + 1) % (6 * MAIN_FREQ);
            &&& t.clock_counter == c
            &&& t.pulse1.period_counter == if c % 4 == 0 {
                s.pulse1.timer_clocked().period_counter
            } else {
                s.pulse1.period_counter
            }
            &&& t.pulse1.duty_sequencer == if c % 4 == 0 {
                s.pulse1.timer_clocked().duty_sequencer
            } else {
                s.pulse1.duty_sequencer
            }
            &&& t.triangle.sequence_counter == if c % 2 == 0 {
                s.triangle.timer_clocked().sequence_counter
            } else {
                s.triangle.sequence_counter
            }
            &&& t.noise.shift_register == if c % 2 == 0 {
                s.noise.timer_clocked().shift_register
            } else {
                s.noise.shift_register
            }
        }),
{
}

impl APU {
    pub fn new() -> (r: APU)
        ensures
            r@ == ApuState::initial(),
            r@.wf(),
    {
        APU {
            registers: Registers::new(),
            sample_memory: Memory::new(),
            frame_counter: FrameCounter::new(),
            pulse1: Pulse::new(true),
            pulse2: Pulse::new(false),
            triangle: Triangle::new(),
            noise: Noise::new(),
            dmc: DMC::new(),
            clock_counter: 0,
        }
    }

    pub fn write_opp(&mut self, address: u16, byte: u8)
        requires
            old(self)@.wf(),
            valid_write_address(address),
            old(self)@.write_safe(address, byte),
        ensures
            final(self)@ == old(self)@.written(address, byte),
            final(self)@.wf(),
    {
        if 0x4000 <= address && address <= 0x4017 {
            let addr = (address - 0x4000) as u8;
            let mapped_addr = self.registers.write_register(addr, byte);
            match mapped_addr {
                MappedAddress::Pulse1(reg) => {
                    self.pulse1.load_register(reg, byte);
                },
                MappedAddress::Pulse2(reg) => {
                    self.pulse2.load_register(reg, byte);
                },
                MappedAddress::Triangle(reg) => {
                    self.triangle.load_register(reg, byte);
                },
                MappedAddress::Noise(reg) => {
                    self.noise.load_register(reg, byte);
                },
                MappedAddress::DMC(reg) => {
                    self.dmc.load_register(reg, byte);
                },
                MappedAddress::FrameRegister => {
                    self.frame_counter.load_reguister(byte);
                },
                MappedAddress::StatusRegister => {
                    proof {
                        lemma_byte_fields(byte);
                    }
                    self.pulse1.set_enabled(byte & 0b0000_0001 > 0);
                    self.pulse2.set_enabled(byte & 0b0000_0010 > 0);
                    self.triangle.set_enabled(byte & 0b0000_0100 > 0);
                    self.noise.set_enabled(byte & 0b0000_1000 > 0);
                    self.dmc.set_enabled(byte & 0b0001_0000 > 0);
                    self.dmc_fetch();
                },
                MappedAddress::NotUsed => {},
            }
        } else {
            self.sample_memory.load_byte(address, byte);
        }
    }

    /// Whether [`APU::write_opp`] accepts a write of `byte` to `address`: the
    /// address is a register or sample-memory address, and a pulse channel's
    /// sweep target stays within 16 bits.
    pub fn can_write(&self, address: u16, byte: u8) -> (r: bool)
        requires
            self@.wf(),
        ensures
            r == (valid_write_address(address) && self@.write_safe(address, byte)),
    {
        if 0x4000 <= address && address <= 0x4017 {
            match address - 0x4000 {
                0x00 => self.pulse1.can_load_register(&PulseRegister::R0, byte),
                0x01 => self.pulse1.can_load_register(&PulseRegister::R1, byte),
                0x02 => self.pulse1.can_load_register(&PulseRegister::R2, byte),
                0x03 => self.pulse1.can_load_register(&PulseRegister::R3, byte),
                0x04 => self.pulse2.can_load_register(&PulseRegister::R0, byte),
                0x05 => self.pulse2.can_load_register(&PulseRegister::R1, byte),
                0x06 => self.pulse2.can_load_register(&PulseRegister::R2, byte),
                0x07 => self.pulse2.can_load_register(&PulseRegister::R3, byte),
                _ => true,
            }
        } else {
            0xC000 <= address && address <= 0xCFFF
        }
    }

    pub fn load_sample(&mut self, address: u16, sample: &Vec<u8>)
        requires
            old(self)@.wf(),
            address + sample.len() <= 0x10000,
        ensures
            final(self)@ == (ApuState {
                sample_memory: bytes_loaded(old(self)@.sample_memory, address as int, sample@),
                ..old(self)@
            }),
            final(self)@.wf(),
    {
        self.sample_memory.load_bytes(address, sample);
    }

    pub fn clock(&mut self)
        requires
            old(self)@.wf(),
        ensures
            final(self)@ == old(self)@.clocked(),
            final(self)@.wf(),
    {
        self.clock_counter += 1;
        self.clock_counter %= 6 * MAIN_FREQ;
        if self.clock_counter % 4 == 0 {
            self.pulse1.clock_timer();
            self.pulse2.clock_timer();
        }
        if self.clock_counter % 2 == 0 {
            self.triangle.clock_timer();
            self.noise.clock_timer();
            self.dmc.clock_timer();
        }
        if self.frame_counter.clock() {
            if self.frame_counter.envelope_clock() {
                self.pulse1.clock_envelop();
                self.pulse2.clock_envelop();
                self.triangle.clock_linear();
                self.noise.clock_envelop();
            }
            if self.frame_counter.length_clock() {
                self.pulse1.clock_length();
                self.pulse2.clock_length();
                self.triangle.clock_length();
                self.noise.clock_length();
                self.pulse1.clock_sweep();
                self.pulse2.clock_sweep();
            }
        };
        self.dmc_fetch();
    }

    #[allow(dead_code)]
    fn is_channel_enabled(&self, channel: Channel) -> (r: bool)
        ensures
            r == ((self@.registers[0x15] / channel_mask(channel)) % 2 == 1),
    {
        let status = self.registers.get_status_register();
        proof {
            lemma_byte_fields(status);
        }
        match channel {
            Channel::Pulse1 => status & 0b0000_0001 > 0,
            Channel::Pulse2 => status & 0b0000_0010 > 0,
            Channel::Triangle => status & 0b0000_0100 > 0,
            Channel::Noise => status & 0b0000_1000 > 0,
            Channel::DMC => status & 0b0001_0000 > 0,
        }
    }

    fn dmc_fetch(&mut self)
        requires
            old(self)@.wf(),
        ensures
            final(self)@ == old(self)@.dmc_fetched(),
            final(self)@.wf(),
    {
        if self.dmc.fetch_requested() {
            self.dmc.fetch_sample(&self.sample_memory);
        }
    }
}

} // verus!
