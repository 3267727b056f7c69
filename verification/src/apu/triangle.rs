use vstd::prelude::*;
use crate::bits::{lemma_byte_fields, lemma_period_fields};
use crate::apu::LENGTH_TABLE;

verus! {

/// The four registers of the triangle channel.
pub enum TriangleRegister {
    R0,
    R1,
    R2,
    R3,
}

/// The 32-step triangle waveform: 15 down to 0, then 0 up to 15.
pub const TRIANGLE_SEQUENCE: [u8; 32] = [
    15, 14, 13, 12, 11, 10,  9,  8,  7,  6,  5,  4,  3,  2,  1,  0,
     0,  1,  2,  3,  4,  5,  6,  7,  8,  9, 10, 11, 12, 13, 14, 15,
];

/// The triangle channel: a 32-step sequencer clocked by a period timer and
/// gated by a linear counter and a length counter.
#[derive(Debug)]
pub struct Triangle {
    enabled: bool,
    control_flag: bool,
    linear_counter_value: u8,
    period_value: u16,
    length_value: u8,
    linear_counter_reload: bool,
    period_counter: u16,
    linear_counter: u8,
    sequence_counter: u8,
    length_counter: u8,
}

/// The plain values a [`Triangle`] holds.
pub struct TriangleState {
    pub enabled: bool,
    pub control_flag: bool,
    pub linear_counter_value: u8,
    pub period_value: u16,
    pub length_value: u8,
    pub linear_counter_reload: bool,
    pub period_counter: u16,
    pub linear_counter: u8,
    pub sequence_counter: u8,
    pub length_counter: u8,
}

impl View for Triangle {
    type V = TriangleState;

    closed spec fn view(&self) -> TriangleState {
        TriangleState {
            enabled: self.enabled,
            control_flag: self.control_flag,
            linear_counter_value: self.linear_counter_value,
            period_value: self.period_value,
            length_value: self.length_value,
            linear_counter_reload: self.linear_counter_reload,
            period_counter: self.period_counter,
            linear_counter: self.linear_counter,
            sequence_counter: self.sequence_counter,
            length_counter: self.length_counter,
        }
    }
}

/// Every step of the triangle waveform is at most 15.
pub proof fn lemma_triangle_levels(step: int)
    requires
        0 <= step < 32,
    ensures
        TRIANGLE_SEQUENCE[step] <= 15,
{
    assert(forall|j: int| 0 <= j < 32 ==> #[trigger] TRIANGLE_SEQUENCE[j] <= 15);
}

impl TriangleState {
    /// The invariant every reachable triangle channel satisfies.
    pub open spec fn wf(self) -> bool {
        &&& self.sequence_counter < 32
        &&& self.period_value <= 0x7FF
        &&& self.linear_counter_value < 128
        &&& self.linear_counter < 128
        &&& self.length_value < 32
        &&& (!self.enabled ==> self.length_counter == 0)
    }

    /// A freshly built channel: everything cleared.
    pub open spec fn initial() -> TriangleState {
        TriangleState {
            enabled: false,
            control_flag: false,
            linear_counter_value: 0,
            period_value: 0,
            length_value: 0,
            linear_counter_reload: false,
            period_counter: 0,
            linear_counter: 0,
            sequence_counter: 0,
            length_counter: 0,
        }
    }

    /// The channel after a write of `byte` to `register`.
    pub open spec fn loaded(self, register: TriangleRegister, byte: u8) -> TriangleState {
        match register {
            TriangleRegister::R0 => TriangleState {
                control_flag: byte >= 0x80,
                linear_counter_value: byte % 0x80,
                ..self
            },
            TriangleRegister::R1 => self,
            TriangleRegister::R2 => TriangleState {
                period_value: ((self.period_value / 0x100) * 0x100 + byte) as u16,
                ..self
            },
            TriangleRegister::R3 => TriangleState {
                period_value: (self.period_value % 0x100 + (byte % 0x08) * 0x100) as u16,
                length_value: byte / 0x08,
                length_counter: if self.enabled {
                    LENGTH_TABLE[(byte / 0x08) as int]
                } else {
                    0
                },
                linear_counter_reload: true,
                ..self
            },
        }
    }

    /// The channel after writing the four registers in order.
    pub open spec fn all_loaded(self, bytes: Seq<u8>) -> TriangleState {
        self.loaded(TriangleRegister::R0, bytes[0]).loaded(TriangleRegister::R1, bytes[1]).loaded(
            TriangleRegister::R2,
            bytes[2],
        ).loaded(TriangleRegister::R3, bytes[3])
    }

    /// Enabling or disabling the channel; disabling clears the length counter.
    pub open spec fn enabled_set(self, enabled: bool) -> TriangleState {
        TriangleState {
            enabled,
            length_counter: if enabled {
                self.length_counter
            } else {
                0
            },
            ..self
        }
    }

    /// One tick of the period timer; on reload the sequencer advances when
    /// both the linear and the length counter are running.
    pub open spec fn timer_clocked(self) -> TriangleState {
        if self.period_counter == 0 {
            TriangleState {
                period_counter: self.period_value,
                sequence_counter: if self.linear_counter > 0 && self.length_counter > 0 {
                    ((self.sequence_counter + 1) % 32) as u8
                } else {
                    self.sequence_counter
                },
                ..self
            }
        } else {
            TriangleState { period_counter: (self.period_counter - 1) as u16, ..self }
        }
    }

    /// One quarter-frame clock of the linear counter: with the reload flag
    /// set the counter takes the register value, otherwise the register
    /// value itself counts down; the reload flag clears unless the control
    /// flag is set.
    pub open spec fn linear_clocked(self) -> TriangleState {
        let s = if self.linear_counter_reload {
            TriangleState { linear_counter: self.linear_counter_value, ..self }
        } else {
            TriangleState {
                linear_counter_value: if self.linear_counter_value > 0 {
                    (self.linear_counter_value - 1) as u8
                } else {
                    0
                },
                ..self
            }
        };
        if !s.control_flag {
            TriangleState { linear_counter_reload: false, ..s }
        } else {
            s
        }
    }

    /// One half-frame clock of the length counter, halted by the control flag.
    pub open spec fn length_clocked(self) -> TriangleState {
        if !self.control_flag && self.length_counter > 0 {
            TriangleState { length_counter: (self.length_counter - 1) as u8, ..self }
        } else {
            self
        }
    }

    /// The current output level: the waveform at the sequencer position.
    pub open spec fn output(self) -> u8 {
        TRIANGLE_SEQUENCE[self.sequence_counter as int]
    }
}

/// Law: when the linear counter or the length counter is zero the sequencer
/// stops, so the triangle holds its current level instead of falling to 0.
pub proof fn lemma_triangle_holds(s: TriangleState)
    requires
        s.linear_counter == 0 || s.length_counter == 0,
    ensures
        s.timer_clocked().sequence_counter == s.sequence_counter,
        s.timer_clocked().output() == s.output(),
{
}

/// Law: the timer period of the triangle is 11 bits: register 2 gives its
/// low byte and bits 0-2 of register 3 its high bits, each write keeping the
/// other part; writing both sets the period whatever it was.
pub proof fn lemma_triangle_period_registers(s: TriangleState, lo: u8, hi: u8)
    requires
        s.wf(),
    ensures
        s.loaded(TriangleRegister::R2, lo).period_value % 0x100 == lo,
        s.loaded(TriangleRegister::R2, lo).period_value / 0x100 == s.period_value / 0x100,
        s.loaded(TriangleRegister::R3, hi).period_value % 0x100 == s.period_value % 0x100,
        s.loaded(TriangleRegister::R3, hi).period_value / 0x100 == hi % 8,
        s.loaded(TriangleRegister::R2, lo).loaded(TriangleRegister::R3, hi).period_value == lo + (hi
            % 8) * 0x100,
{
}

/// Law: register 0 sets the control flag (bit 7) and the linear counter
/// reload value (bits 0-6); register 3 loads the length counter from the
/// table when enabled and raises the reload flag.
pub proof fn lemma_triangle_control_registers(s: TriangleState, byte: u8)
    ensures
        s.loaded(TriangleRegister::R0, byte).control_flag == (byte >= 0x80),
        s.loaded(TriangleRegister::R0, byte).linear_counter_value == byte % 0x80,
        s.loaded(TriangleRegister::R3, byte).linear_counter_reload,
        s.enabled ==> s.loaded(TriangleRegister::R3, byte).length_counter == LENGTH_TABLE[(byte / 8) as int],
        !s.enabled ==> s.loaded(TriangleRegister::R3, byte).length_counter == 0,
{
}

/// Law: a linear-counter clock with the reload flag set loads the linear
/// counter with the reload value; the flag then stays set only under the
/// control flag.
pub proof fn lemma_triangle_linear_reload(s: TriangleState)
    ensures
        s.linear_counter_reload ==> s.linear_clocked().linear_counter == s.linear_counter_value,
        !s.linear_counter_reload ==> s.linear_clocked().linear_counter == s.linear_counter,
        s.linear_clocked().linear_counter_reload == (s.linear_counter_reload && s.control_flag),
{
}

/// Law: when the timer runs out with both counters running, the sequencer
/// moves one step along the 32-step waveform, and the timer reloads with
/// the period.
pub proof fn lemma_triangle_steps(s: TriangleState)
    requires
        s.wf(),
        s.period_counter == 0,
        s.linear_counter > 0,
        s.length_counter > 0,
    ensures
        s.timer_clocked().sequence_counter == (s.sequence_counter + 1) % 32,
        s.timer_clocked().period_counter == s.period_value,
{
}

impl Triangle {
    pub fn new() -> (r: Triangle)
        ensures
            r@ == TriangleState::initial(),
            r@.wf(),
    {
        Triangle {
            enabled: false,
            control_flag: false,
            linear_counter_value: 0,
            period_value: 0,
            length_value: 0,
            linear_counter_reload: false,
            period_counter: 0,
            linear_counter: 0,
            sequence_counter: 0,
            length_counter: 0,
        }
    }

    pub fn load_registers(&mut self, bytes: [u8; 4])
        requires
            old(self)@.wf(),
        ensures
            final(self)@ == old(self)@.all_loaded(bytes@),
            final(self)@.wf(),
    {
        self.load_register(TriangleRegister::R0, bytes[0]);
        self.load_register(TriangleRegister::R1, bytes[1]);
        self.load_register(TriangleRegister::R2, bytes[2]);
        self.load_register(TriangleRegister::R3, bytes[3]);
    }

    pub fn load_register(&mut self, register: TriangleRegister, byte: u8)
        requires
            old(self)@.wf(),
        ensures
            final(self)@ == old(self)@.loaded(register, byte),
            final(self)@.wf(),
    {
        match register {
            TriangleRegister::R0 => {
                proof {
                    lemma_byte_fields(byte);
                }
                self.control_flag = byte & 0b1000_0000 > 0;
                self.linear_counter_value = byte & 0b0111_1111;
            },
            TriangleRegister::R1 => {},
            TriangleRegister::R2 => {
                proof {
                    lemma_period_fields(self.period_value, byte);
                }
                self.period_value = (self.period_value & 0xFF00) + (byte as u16);
            },
            TriangleRegister::R3 => {
                proof {
                    lemma_byte_fields(byte);
                    lemma_period_fields(self.period_value, byte);
                }
                self.period_value = (self.period_value & 0x00FF) + (((byte & 0b0000_0111) as u16) << 8);
                self.length_value = byte >> 3;
                self.length_counter = if self.enabled {
                    LENGTH_TABLE[self.length_value as usize]
                } else {
                    0
                };
                self.linear_counter_reload = true;
            },
        }
    }

    pub fn set_enabled(&mut self, enabled: bool)
        requires
            old(self)@.wf(),
        ensures
            final(self)@ == old(self)@.enabled_set(enabled),
            final(self)@.wf(),
    {
        self.enabled = enabled;
        if !enabled {
            self.length_counter = 0;
        }
    }

    pub fn clock_timer(&mut self)
        requires
            old(self)@.wf(),
        ensures
            final(self)@ == old(self)@.timer_clocked(),
            final(self)@.wf(),
    {
        if self.period_counter == 0 {
            self.period_counter = self.period_value;
            if self.linear_counter > 0 && self.length_counter > 0 {
                self.sequence_counter = (self.sequence_counter + 1) % 32;
            }
        } else {
            self.period_counter -= 1;
        }
    }

    pub fn clock_linear(&mut self)
        requires
            old(self)@.wf(),
        ensures
            final(self)@ == old(self)@.linear_clocked(),
            final(self)@.wf(),
    {
        if self.linear_counter_reload {
            self.linear_counter = self.linear_counter_value;
        } else {
            self.linear_counter_value = self.linear_counter_value.saturating_sub(1);
        }
        if !self.control_flag {
            self.linear_counter_reload = false;
        }
    }

    pub fn clock_length(&mut self)
        requires
            old(self)@.wf(),
        ensures
            final(self)@ == old(self)@.length_clocked(),
            final(self)@.wf(),
    {
        if !self.control_flag && self.length_counter > 0 {
            self.length_counter -= 1
        }
    }

    pub fn output(&self) -> (r: u8)
        requires
            self@.wf(),
        ensures
            r == self@.output(),
            r <= 15,
    {
        proof {
            lemma_triangle_levels(self.sequence_counter as int);
        }
        TRIANGLE_SEQUENCE[self.sequence_counter as usize]
    }
}

} // verus!
