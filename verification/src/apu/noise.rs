use vstd::prelude::*;
use crate::bits::lemma_byte_fields;
use crate::apu::LENGTH_TABLE;
use crate::apu::envelope::{Envelope, EnvelopeState};

verus! {

/// The four registers of the noise channel.
pub enum NoiseRegister {
    R0,
    R1,
    R2,
    R3,
}

/// Timer periods of the noise channel, indexed by the low nibble of its
/// third register (first row NTSC, second row PAL).
pub const NOISE_RATE_TABLE: [[u16; 16]; 2] = [
    [4, 8, 16, 32, 64, 96, 128, 160, 202, 254, 380, 508, 762, 1016, 2034, 4068],
    [4, 8, 14, 30, 60, 88, 118, 148, 188, 236, 354, 472, 708, 944, 1890, 3778],
];

/// The noise channel: a 15-bit linear feedback shift register clocked by a
/// period timer, scaled by an envelope and gated by a length counter.
#[derive(Debug)]
pub struct Noise {
    enabled: bool,
    length_counter_halt: bool,
    envelope: Envelope,
    mode_flag: bool,
    period_value: u16,
    length_value: u8,
    length_counter: u8,
    period_counter: u16,
    shift_register: u16,
}

/// The plain values a [`Noise`] holds.
pub struct NoiseState {
    pub enabled: bool,
    pub length_counter_halt: bool,
    pub envelope: EnvelopeState,
    pub mode_flag: bool,
    pub period_value: u16,
    pub length_value: u8,
    pub length_counter: u8,
    pub period_counter: u16,
    pub shift_register: u16,
}

impl View for Noise {
    type V = NoiseState;

    closed spec fn view(&self) -> NoiseState {
        NoiseState {
            enabled: self.enabled,
            length_counter_halt: self.length_counter_halt,
            envelope: self.envelope@,
            mode_flag: self.mode_flag,
            period_value: self.period_value,
            length_value: self.length_value,
            length_counter: self.length_counter,
            period_counter: self.period_counter,
            shift_register: self.shift_register,
        }
    }
}

/// One step of the 15-bit feedback shift register: the feedback bit is bit
/// 0 exclusive-or bit 6 (mode flag set) or bit 1 (mode flag clear); the
/// register shifts right and the feedback enters at bit 14.
pub open spec fn lfsr_step(shift: u16, mode_flag: bool) -> u16 {
    let b0 = shift % 2;
    let b1 = if mode_flag {
        (shift / 0x40) % 2
    } else {
        (shift / 0x02) % 2
    };
    (shift / 2 + if b0 != b1 {
        0x4000int
    } else {
        0
    }) as u16
}

/// Law: the shift register is never zero and never leaves 15 bits, so the
/// channel never locks up in silence.
pub proof fn lemma_lfsr_step(shift: u16, mode_flag: bool)
    requires
        shift != 0,
        shift < 0x8000,
    ensures
        lfsr_step(shift, mode_flag) != 0,
        lfsr_step(shift, mode_flag) < 0x8000,
{
}

/// Law: a shift-register step moves bits 1-14 down to bits 0-13 and puts
/// into bit 14 the exclusive-or of bit 0 with bit 6 (short mode) or bit 1
/// (long mode).
pub proof fn lemma_lfsr_bits_move(shift: u16, mode_flag: bool)
    requires
        shift < 0x8000,
    ensures
        lfsr_step(shift, mode_flag) % 0x4000 == shift / 2,
        (lfsr_step(shift, mode_flag) / 0x4000 == 1) == (shift % 2 != if mode_flag {
            (shift / 0x40) % 2
        } else {
            (shift / 0x02) % 2
        }),
{
}

/// Law: register 2 selects the mode (bit 7) and the timer period from the
/// rate table (bits 0-3) and restarts the timer; register 3 loads the length
/// counter when enabled and restarts the envelope; register 0 sets the halt
/// flag (bit 5) and the envelope control.
pub proof fn lemma_noise_registers(s: NoiseState, byte: u8)
    ensures
        s.loaded(NoiseRegister::R2, byte).mode_flag == (byte >= 128),
        s.loaded(NoiseRegister::R2, byte).period_value == NOISE_RATE_TABLE[0][(byte % 16) as int],
        s.loaded(NoiseRegister::R2, byte).period_counter == NOISE_RATE_TABLE[0][(byte % 16) as int],
        s.enabled ==> s.loaded(NoiseRegister::R3, byte).length_counter == LENGTH_TABLE[(byte / 8) as int],
        s.loaded(NoiseRegister::R3, byte).envelope.start_flag,
        s.loaded(NoiseRegister::R0, byte).length_counter_halt == ((byte / 32) % 2 == 1),
        s.loaded(NoiseRegister::R0, byte).envelope == s.envelope.loaded(byte),
        s.loaded(NoiseRegister::R1, byte) == s,
{
}

/// Law: the noise channel outputs its envelope volume when bit 0 of the
/// shift register is set and the length counter runs, else silence; its
/// timer steps the shift register when it runs out and otherwise counts
/// down.
pub proof fn lemma_noise_output_and_timer(s: NoiseState)
    requires
        s.wf(),
    ensures
        s.length_counter > 0 && s.shift_register % 2 == 1 ==> s.output() == s.envelope.volume(),
        s.length_counter == 0 || s.shift_register % 2 == 0 ==> s.output() == 0,
        s.period_counter == 0 ==> s.timer_clocked().shift_register == lfsr_step(s.shift_register, s.mode_flag)
            && s.timer_clocked().period_counter == s.period_value,
        s.period_counter > 0 ==> s.timer_clocked().shift_register == s.shift_register
            && s.timer_clocked().period_counter == s.period_counter - 1,
{
    assert(s.shift_register % 2 <= 1);
    assert(s.envelope.volume() * 1 == s.envelope.volume()) by (nonlinear_arith);
}

/// The register arithmetic of `lfsr_step` is the masks and shifts that the
/// channel computes.
proof fn lemma_lfsr_bits(shift: u16, mode_flag: bool)
    requires
        shift < 0x8000,
    ensures
        ({
            let b0 = shift & 0x0001;
            let b1 = if mode_flag {
                (shift & 0x0040) >> 6
            } else {
                (shift & 0x0002) >> 1
            };
            (shift >> 1) | ((b0 ^ b1) << 14)
        }) == lfsr_step(shift, mode_flag),
{
    assert(shift < 0x8000 ==> ((shift >> 1) | (((shift & 0x0001) ^ ((shift & 0x0040) >> 6)) << 14))
        == (shift / 2 + if shift % 2 != (shift / 0x40) % 2 {
        0x4000u16
    } else {
        0
    })) by (bit_vector);
    assert(shift < 0x8000 ==> ((shift >> 1) | (((shift & 0x0001) ^ ((shift & 0x0002) >> 1)) << 14))
        == (shift / 2 + if shift % 2 != (shift / 0x02) % 2 {
        0x4000u16
    } else {
        0
    })) by (bit_vector);
}

impl NoiseState {
    /// The invariant every reachable noise channel satisfies.
    pub open spec fn wf(self) -> bool {
        &&& self.envelope.wf()
        &&& self.length_value < 32
        &&& self.shift_register != 0
        &&& self.shift_register < 0x8000
        &&& (!self.enabled ==> self.length_counter == 0)
    }

    /// A freshly built channel: the shift register holds 1.
    pub open spec fn initial() -> NoiseState {
        NoiseState {
            enabled: false,
            length_counter_halt: false,
            envelope: EnvelopeState::initial(),
            mode_flag: false,
            period_value: 0,
            length_value: 0,
            length_counter: 0,
            period_counter: 0,
            shift_register: 1,
        }
    }

    /// The channel after a write of `byte` to `register`.
    pub open spec fn loaded(self, register: NoiseRegister, byte: u8) -> NoiseState {
        match register {
            NoiseRegister::R0 => NoiseState {
                length_counter_halt: (byte / 0x20) % 2 == 1,
                envelope: self.envelope.loaded(byte),
                ..self
            },
            NoiseRegister::R1 => self,
            NoiseRegister::R2 => NoiseState {
                mode_flag: byte >= 0x80,
                period_value: NOISE_RATE_TABLE[0][(byte % 0x10) as int],
                period_counter: NOISE_RATE_TABLE[0][(byte % 0x10) as int],
                ..self
            },
            NoiseRegister::R3 => NoiseState {
                length_value: byte / 0x08,
                length_counter: if self.enabled {
                    LENGTH_TABLE[(byte / 0x08) as int]
                } else {
                    0
                },
                envelope: self.envelope.started(),
                ..self
            },
        }
    }

    /// The channel after writing the four registers in order.
    pub open spec fn all_loaded(self, bytes: Seq<u8>) -> NoiseState {
        self.loaded(NoiseRegister::R0, bytes[0]).loaded(NoiseRegister::R1, bytes[1]).loaded(
            NoiseRegister::R2,
            bytes[2],
        ).loaded(NoiseRegister::R3, bytes[3])
    }

    /// Enabling or disabling the channel; disabling clears the length counter.
    pub open spec fn enabled_set(self, enabled: bool) -> NoiseState {
        NoiseState {
            enabled,
            length_counter: if enabled {
                self.length_counter
            } else {
                0
            },
            ..self
        }
    }

    /// One tick of the period timer; on reload the shift register steps.
    pub open spec fn timer_clocked(self) -> NoiseState {
        if self.period_counter == 0 {
            NoiseState {
                period_counter: self.period_value,
                shift_register: lfsr_step(self.shift_register, self.mode_flag),
                ..self
            }
        } else {
            NoiseState { period_counter: (self.period_counter - 1) as u16, ..self }
        }
    }

    /// One half-frame clock of the length counter.
    pub open spec fn length_clocked(self) -> NoiseState {
        if !self.length_counter_halt && self.length_counter > 0 {
            NoiseState { length_counter: (self.length_counter - 1) as u8, ..self }
        } else {
            self
        }
    }

    /// One quarter-frame clock of the envelope.
    pub open spec fn envelope_clocked(self) -> NoiseState {
        NoiseState { envelope: self.envelope.clocked(), ..self }
    }

    /// The current output level: the envelope volume when bit 0 of the shift
    /// register is set and the length counter is running, else 0.
    pub open spec fn output(self) -> u8 {
        if self.length_counter == 0 {
            0
        } else {
            (self.envelope.volume() * (self.shift_register % 2)) as u8
        }
    }
}

/// Law: a disabled noise channel is silent and stays disabled through every
/// clock and every register write.
pub proof fn lemma_disabled_noise_silent(s: NoiseState, register: NoiseRegister, byte: u8)
    requires
        s.wf(),
        !s.enabled,
    ensures
        s.output() == 0,
        !s.timer_clocked().enabled,
        !s.length_clocked().enabled,
        !s.envelope_clocked().enabled,
        !s.loaded(register, byte).enabled,
{
}

impl Noise {
    pub fn new() -> (r: Noise)
        ensures
            r@ == NoiseState::initial(),
            r@.wf(),
    {
        Noise {
            enabled: false,
            length_counter_halt: false,
            envelope: Envelope::new(),
            mode_flag: false,
            period_value: 0,
            length_value: 0,
            length_counter: 0,
            period_counter: 0,
            shift_register: 1,
        }
    }

    pub fn load_registers(&mut self, bytes: [u8; 4])
        requires
            old(self)@.wf(),
        ensures
            final(self)@ == old(self)@.all_loaded(bytes@),
            final(self)@.wf(),
    {
        self.load_register(NoiseRegister::R0, bytes[0]);
        self.load_register(NoiseRegister::R1, bytes[1]);
        self.load_register(NoiseRegister::R2, bytes[2]);
        self.load_register(NoiseRegister::R3, bytes[3]);
    }

    pub fn load_register(&mut self, register: NoiseRegister, byte: u8)
        requires
            old(self)@.wf(),
        ensures
            final(self)@ == old(self)@.loaded(register, byte),
            final(self)@.wf(),
    {
        match register {
            NoiseRegister::R0 => {
                proof {
                    lemma_byte_fields(byte);
                }
                self.length_counter_halt = byte & 0b0010_0000 > 0;
                self.envelope.load_register(byte);
            },
            NoiseRegister::R1 => {},
            NoiseRegister::R2 => {
                proof {
                    lemma_byte_fields(byte);
                }
                self.mode_flag = byte & 0b1000_0000 > 0;
                let index = (byte & 0b0000_1111) as usize;
                self.period_value = NOISE_RATE_TABLE[0][index];
                self.period_counter = self.period_value
            },
            NoiseRegister::R3 => {
                proof {
                    lemma_byte_fields(byte);
                }
                self.length_value = byte >> 3;
                self.length_counter = if self.enabled {
                    LENGTH_TABLE[self.length_value as usize]
                } else {
                    0
                };
                self.envelope.set_start();
            },
        }
    }

    pub fn set_enabled(&mut self, enabled: bool)
        requires
            old(self)@.wf(),
        ensures
            final(self)@ == old(self)@.enabled_set(enabled),
            final(self)@.wf(),
    {
        self.enabled = enabled;
        if !enabled {
            self.length_counter = 0;
        }
    }

    pub fn clock_timer(&mut self)
        requires
            old(self)@.wf(),
        ensures
            final(self)@ == old(self)@.timer_clocked(),
            final(self)@.wf(),
    {
        if self.period_counter == 0 {
            self.period_counter = self.period_value;
            proof {
                lemma_lfsr_step(self.shift_register, self.mode_flag);
                lemma_lfsr_bits(self.shift_register, self.mode_flag);
            }
            let b0 = self.shift_register & 0b0000_0001;
            let b1 = if self.mode_flag {
                (self.shift_register & 0b0100_0000) >> 6
            } else {
                (self.shift_register & 0b0000_0010) >> 1
            };
            let feedback = b0 ^ b1;
            self.shift_register = (self.shift_register >> 1) | (feedback << 14)
        } else {
            self.period_counter -= 1;
        }
    }

    pub fn clock_length(&mut self)
        requires
            old(self)@.wf(),
        ensures
            final(self)@ == old(self)@.length_clocked(),
            final(self)@.wf(),
    {
        if !self.length_counter_halt && self.length_counter > 0 {
            self.length_counter -= 1
        }
    }

    pub fn clock_envelop(&mut self)
        requires
            old(self)@.wf(),
        ensures
            final(self)@ == old(self)@.envelope_clocked(),
            final(self)@.wf(),
    {
        self.envelope.clock();
    }

    pub fn output(&self) -> (r: u8)
        requires
            self@.wf(),
        ensures
            r == self@.output(),
            r <= 15,
    {
        if self.length_counter == 0 {
            0
        } else {
            let volume = self.envelope.volume();
            let shift = self.shift_register;
            assert(shift & 0x0001 == shift % 2) by (bit_vector);
            let bit = (shift & 0b0000_0001) as u8;
            assert(volume * bit <= 15) by (nonlinear_arith)
                requires
                    volume <= 15,
                    bit <= 1,
            ;
            volume * bit
        }
    }
}

} // verus!
