use vstd::prelude::*;
use crate::bits::{lemma_byte_fields, lemma_byte_scaled};
use crate::apu::memory::Memory;

verus! {

/// The four registers of the delta-modulation channel.
pub enum DMCRegister {
    R0,
    R1,
    R2,
    R3,
}

/// Timer periods of the delta-modulation channel, indexed by the low nibble
/// of its first register (first row NTSC, second row PAL).
pub const DMC_RATE_TABLE: [[u16; 16]; 2] = [
    [428, 380, 340, 320, 286, 254, 226, 214, 190, 160, 142, 128, 106, 84, 72, 54],
    [398, 354, 316, 298, 276, 236, 210, 198, 176, 148, 132, 118, 98, 78, 66, 50],
];

/// The delta-modulation channel: it fetches 1-bit delta samples from memory
/// and moves a 7-bit output level up or down by 2 for each bit.
#[derive(Debug)]
pub struct DMC {
    enabled: bool,
    irq_enabled: bool,
    loop_flag: bool,
    rate_value: u16,
    length_value: u16,
    start_address: u16,
    current_level: u8,
    irq_interrupt: bool,
    rate_counter: u16,
    length_counter: u16,
    address_pointer: u16,
    sample_buffer: u8,
    sample_buffer_empty: bool,
    shift_register: u8,
    bits_counter: u8,
    silence_flag: bool,
    pub request_fetch: bool,
}

/// The plain values a [`DMC`] holds.
pub struct DmcState {
    pub enabled: bool,
    pub irq_enabled: bool,
    pub loop_flag: bool,
    pub rate_value: u16,
    pub length_value: u16,
    pub start_address: u16,
    pub current_level: u8,
    pub irq_interrupt: bool,
    pub rate_counter: u16,
    pub length_counter: u16,
    pub address_pointer: u16,
    pub sample_buffer: u8,
    pub sample_buffer_empty: bool,
    pub shift_register: u8,
    pub bits_counter: u8,
    pub silence_flag: bool,
    pub request_fetch: bool,
}

impl View for DMC {
    type V = DmcState;

    closed spec fn view(&self) -> DmcState {
        DmcState {
            enabled: self.enabled,
            irq_enabled: self.irq_enabled,
            loop_flag: self.loop_flag,
            rate_value: self.rate_value,
            length_value: self.length_value,
            start_address: self.start_address,
            current_level: self.current_level,
            irq_interrupt: self.irq_interrupt,
            rate_counter: self.rate_counter,
            length_counter: self.length_counter,
            address_pointer: self.address_pointer,
            sample_buffer: self.sample_buffer,
            sample_buffer_empty: self.sample_buffer_empty,
            shift_register: self.shift_register,
            bits_counter: self.bits_counter,
            silence_flag: self.silence_flag,
            request_fetch: self.request_fetch,
        }
    }
}

/// Every NTSC rate is positive.
pub proof fn lemma_dmc_rates(index: int)
    requires
        0 <= index < 16,
    ensures
        DMC_RATE_TABLE[0][index] >= 54,
{
    assert(forall|j: int| 0 <= j < 16 ==> #[trigger] DMC_RATE_TABLE[0][j] >= 54);
}

/// The address that follows `addr` when reading samples: addresses wrap
/// from $FFFF around to $8000.
pub open spec fn next_sample_address(addr: u16) -> u16 {
    if addr == 0xFFFF {
        0x8000
    } else {
        (addr + 1) as u16
    }
}

impl DmcState {
    /// The invariant every reachable delta-modulation channel satisfies.
    pub open spec fn wf(self) -> bool {
        &&& self.current_level <= 127
        &&& self.rate_value >= 1
        &&& self.rate_counter >= 1
        &&& 1 <= self.bits_counter <= 8
    }

    /// A freshly built channel: silent, with the slowest rate loaded.
    pub open spec fn initial() -> DmcState {
        DmcState {
            enabled: false,
            irq_enabled: false,
            loop_flag: false,
            rate_value: 428,
            length_value: 0,
            start_address: 0,
            current_level: 0,
            irq_interrupt: false,
            rate_counter: 428,
            length_counter: 0,
            address_pointer: 0,
            sample_buffer: 0,
            sample_buffer_empty: true,
            shift_register: 0,
            bits_counter: 8,
            silence_flag: true,
            request_fetch: false,
        }
    }

    /// The channel after a write of `byte` to `register`: R0 holds the IRQ
    /// and loop flags and the rate index, R1 the output level, R2 the sample
    /// address ($C000 + 64 * byte), R3 the sample length (16 * byte + 1).
    pub open spec fn loaded(self, register: DMCRegister, byte: u8) -> DmcState {
        match register {
            DMCRegister::R0 => DmcState {
                irq_enabled: byte >= 0x80,
                loop_flag: (byte / 0x40) % 2 == 1,
                rate_value: DMC_RATE_TABLE[0][(byte % 0x10) as int],
                rate_counter: DMC_RATE_TABLE[0][(byte % 0x10) as int],
                ..self
            },
            DMCRegister::R1 => DmcState { current_level: byte % 0x80, ..self },
            DMCRegister::R2 => DmcState { start_address: (0xC000 + 64 * byte) as u16, ..self },
            DMCRegister::R3 => DmcState { length_value: (16 * byte + 1) as u16, ..self },
        }
    }

    /// The channel after writing the four registers in order.
    pub open spec fn all_loaded(self, bytes: Seq<u8>) -> DmcState {
        self.loaded(DMCRegister::R0, bytes[0]).loaded(DMCRegister::R1, bytes[1]).loaded(
            DMCRegister::R2,
            bytes[2],
        ).loaded(DMCRegister::R3, bytes[3])
    }

    /// Restarting the sample when the previous one has ended: the address
    /// and remaining length reload, and a fetch is requested if the sample
    /// buffer is empty.
    pub open spec fn sample_started(self) -> DmcState {
        if self.length_counter == 0 {
            DmcState {
                address_pointer: self.start_address,
                length_counter: self.length_value,
                request_fetch: if self.sample_buffer_empty {
                    true
                } else {
                    self.request_fetch
                },
                ..self
            }
        } else {
            self
        }
    }

    /// Enabling or disabling the channel; this clears the IRQ enable flag,
    /// and disabling ends the sample while enabling starts one.
    pub open spec fn enabled_set(self, enabled: bool) -> DmcState {
        let s = DmcState { enabled, irq_enabled: false, ..self };
        if !enabled {
            DmcState { length_counter: 0, ..s }
        } else {
            s.sample_started()
        }
    }

    /// One step of the output unit: unless silenced, the level moves up by 2
    /// (bit 0 of the shift register set, level below 126) or down by 2 (bit
    /// clear, level above 1); after 8 bits the shift register takes the
    /// sample buffer, or the unit falls silent when the buffer is empty.
    pub open spec fn level_clocked(self) -> DmcState {
        let bit = self.shift_register % 2;
        let level = if !self.silence_flag && bit == 1 && self.current_level < 126 {
            (self.current_level + 2) as u8
        } else if !self.silence_flag && bit == 0 && self.current_level > 1 {
            (self.current_level - 2) as u8
        } else {
            self.current_level
        };
        let bits = (self.bits_counter - 1) as u8;
        let s = DmcState {
            current_level: level,
            shift_register: self.shift_register / 2,
            bits_counter: bits,
            ..self
        };
        if bits == 0 {
            if !s.sample_buffer_empty {
                DmcState {
                    bits_counter: 8,
                    silence_flag: false,
                    shift_register: s.sample_buffer,
                    sample_buffer_empty: true,
                    request_fetch: true,
                    ..s
                }
            } else {
                DmcState { bits_counter: 8, silence_flag: true, ..s }
            }
        } else {
            s
        }
    }

    /// One tick of the rate timer; when it runs out it reloads and the
    /// output unit steps.
    pub open spec fn timer_clocked(self) -> DmcState {
        if self.rate_counter == 1 {
            DmcState { rate_counter: self.rate_value, ..self }.level_clocked()
        } else {
            DmcState { rate_counter: (self.rate_counter - 1) as u16, ..self }
        }
    }

    /// The channel after `n` ticks of the rate timer.
    pub open spec fn timer_clocked_n(self, n: nat) -> DmcState
        decreases n,
    {
        if n == 0 {
            self
        } else {
            self.timer_clocked().timer_clocked_n((n - 1) as nat)
        }
    }

    /// Serving a fetch request from memory `mem`: while the sample has bytes
    /// left, the next byte fills the sample buffer; when the sample ends it
    /// restarts (loop flag) or raises the interrupt (IRQ enabled).
    pub open spec fn fetched(self, mem: Seq<u8>) -> DmcState {
        let s = DmcState { request_fetch: false, ..self };
        let s2 = if s.length_counter > 0 {
            DmcState {
                sample_buffer: mem[s.address_pointer as int],
                sample_buffer_empty: false,
                address_pointer: next_sample_address(s.address_pointer),
                length_counter: (s.length_counter - 1) as u16,
                ..s
            }
        } else {
            s
        };
        if s2.length_counter == 0 {
            if s2.loop_flag {
                s2.sample_started()
            } else if s2.irq_enabled {
                DmcState { irq_interrupt: true, ..s2 }
            } else {
                s2
            }
        } else {
            s2
        }
    }

    /// The current output level, 0 to 127.
    pub open spec fn output(self) -> u8 {
        if self.silence_flag {
            0
        } else {
            self.current_level
        }
    }
}

/// Law: the output unit steps once every `rate_counter` timer ticks, and
/// then the counter reloads with the rate, so from then on once every
/// `rate_value` ticks: before that many ticks only the counter has moved,
/// and the tick that runs it out reloads it and makes exactly one step.
pub proof fn lemma_dmc_rate(s: DmcState, k: nat)
    requires
        1 <= s.rate_counter,
        k <= s.rate_counter,
    ensures
        k < s.rate_counter ==> s.timer_clocked_n(k) == (DmcState {
            rate_counter: (s.rate_counter - k) as u16,
            ..s
        }),
        k == s.rate_counter ==> s.timer_clocked_n(k) == (DmcState {
            rate_counter: s.rate_value,
            ..s
        }).level_clocked(),
    decreases k,
{
    if k > 0 {
        let t = s.timer_clocked();
        if s.rate_counter == 1 {
            assert(t.timer_clocked_n(0) == t);
        } else {
            assert(t == (DmcState { rate_counter: (s.rate_counter - 1) as u16, ..s }));
            lemma_dmc_rate(t, (k - 1) as nat);
            if k == s.rate_counter {
                assert((DmcState { rate_counter: t.rate_value, ..t }) == (DmcState {
                    rate_counter: s.rate_value,
                    ..s
                }));
            }
        }
    }
}

/// Law: an output step keeps the level within 7 bits and moves it by 2 at
/// most; it rises by 2 on a 1 bit (below 126), falls by 2 on a 0 bit (above
/// 1), holds while silenced; every 8 steps the shift register takes the
/// sample buffer and asks for the next byte, or the unit falls silent.
pub proof fn lemma_level_step(s: DmcState)
    requires
        s.wf(),
    ensures
        s.level_clocked().wf(),
        s.silence_flag ==> s.level_clocked().current_level == s.current_level,
        !s.silence_flag && s.shift_register % 2 == 1 && s.current_level < 126
            ==> s.level_clocked().current_level == s.current_level + 2,
        !s.silence_flag && s.shift_register % 2 == 0 && s.current_level > 1
            ==> s.level_clocked().current_level == s.current_level - 2,
        s.bits_counter > 1 ==> s.level_clocked().bits_counter == s.bits_counter - 1
            && s.level_clocked().shift_register == s.shift_register / 2,
        s.bits_counter == 1 && !s.sample_buffer_empty ==> s.level_clocked().bits_counter == 8
            && s.level_clocked().shift_register == s.sample_buffer && !s.level_clocked().silence_flag
            && s.level_clocked().request_fetch && s.level_clocked().sample_buffer_empty,
        s.bits_counter == 1 && s.sample_buffer_empty ==> s.level_clocked().bits_counter == 8
            && s.level_clocked().silence_flag,
{
}

/// Law: register 0 gives the IRQ enable (bit 7), loop flag (bit 6) and the
/// rate from the table (bits 0-3), restarting the rate timer; register 1
/// sets the 7-bit output level; register 2 puts the sample at $C000 + 64 *
/// byte; register 3 makes it 16 * byte + 1 bytes long.
pub proof fn lemma_dmc_registers(s: DmcState, byte: u8)
    ensures
        s.loaded(DMCRegister::R0, byte).irq_enabled == (byte >= 128),
        s.loaded(DMCRegister::R0, byte).loop_flag == ((byte / 64) % 2 == 1),
        s.loaded(DMCRegister::R0, byte).rate_value == DMC_RATE_TABLE[0][(byte % 16) as int],
        s.loaded(DMCRegister::R0, byte).rate_counter == DMC_RATE_TABLE[0][(byte % 16) as int],
        s.loaded(DMCRegister::R1, byte).current_level == byte % 128,
        s.loaded(DMCRegister::R2, byte).start_address == 0xC000 + 64 * byte,
        s.loaded(DMCRegister::R3, byte).length_value == 16 * byte + 1,
        s.loaded(DMCRegister::R2, byte).address_pointer == s.address_pointer,
        s.loaded(DMCRegister::R3, byte).length_counter == s.length_counter,
{
}

/// Law: enabling the channel while its sample still has bytes left leaves
/// the sample playing where it is; enabling it when no bytes are left starts
/// the sample over from its start address and length. Disabling it ends the
/// sample. Either way the interrupt enable flag clears.
pub proof fn lemma_dmc_enable(s: DmcState)
    ensures
        s.length_counter > 0 ==> s.enabled_set(true).length_counter == s.length_counter
            && s.enabled_set(true).address_pointer == s.address_pointer
            && s.enabled_set(true).request_fetch == s.request_fetch,
        s.length_counter == 0 ==> s.enabled_set(true).length_counter == s.length_value
            && s.enabled_set(true).address_pointer == s.start_address,
        s.length_counter == 0 && s.sample_buffer_empty ==> s.enabled_set(true).request_fetch,
        s.enabled_set(false).length_counter == 0,
        s.enabled_set(true).enabled && !s.enabled_set(false).enabled,
        !s.enabled_set(true).irq_enabled && !s.enabled_set(false).irq_enabled,
        s.enabled_set(true).current_level == s.current_level,
{
}

/// Law: serving a fetch while bytes are left puts the byte at the current
/// address into the sample buffer, moves to the next address ($FFFF wraps
/// to $8000) and counts one byte off; the request is always cleared unless
/// the sample restarts.
pub proof fn lemma_dmc_fetch(s: DmcState, mem: Seq<u8>)
    requires
        s.length_counter > 1,
    ensures
        s.fetched(mem).sample_buffer == mem[s.address_pointer as int],
        !s.fetched(mem).sample_buffer_empty,
        s.fetched(mem).length_counter == s.length_counter - 1,
        s.address_pointer < 0xFFFF ==> s.fetched(mem).address_pointer == s.address_pointer + 1,
        s.address_pointer == 0xFFFF ==> s.fetched(mem).address_pointer == 0x8000,
        !s.fetched(mem).request_fetch,
{
}

impl DMC {
    pub fn new() -> (r: DMC)
        ensures
            r@ == DmcState::initial(),
            r@.wf(),
    {
        DMC {
            enabled: false,
            irq_enabled: false,
            loop_flag: false,
            rate_value: DMC_RATE_TABLE[0][0],
            length_value: 0,
            start_address: 0,
            current_level: 0,
            irq_interrupt: false,
            rate_counter: DMC_RATE_TABLE[0][0],
            length_counter: 0,
            address_pointer: 0,
            sample_buffer: 0,
            sample_buffer_empty: true,
            shift_register: 0,
            bits_counter: 8,
            silence_flag: true,
            request_fetch: false,
        }
    }

    /// Whether the channel waits for a sample byte.
    pub(crate) fn fetch_requested(&self) -> (r: bool)
        ensures
            r == self@.request_fetch,
    {
        self.request_fetch
    }

    pub fn load_registers(&mut self, bytes: [u8; 4])
        requires
            old(self)@.wf(),
        ensures
            final(self)@ == old(self)@.all_loaded(bytes@),
            final(self)@.wf(),
    {
        self.load_register(DMCRegister::R0, bytes[0]);
        self.load_register(DMCRegister::R1, bytes[1]);
        self.load_register(DMCRegister::R2, bytes[2]);
        self.load_register(DMCRegister::R3, bytes[3]);
    }

    pub fn load_register(&mut self, register: DMCRegister, byte: u8)
        requires
            old(self)@.wf(),
        ensures
            final(self)@ == old(self)@.loaded(register, byte),
            final(self)@.wf(),
    {
        match register {
            DMCRegister::R0 => {
                self.irq_enabled = byte & 0b1000_0000 > 0;
                self.loop_flag = byte & 0b0100_0000 > 0;
                proof {
                    lemma_byte_fields(byte);
                    lemma_dmc_rates((byte % 0x10) as int);
                }
                self.rate_value = DMC_RATE_TABLE[0][(byte & 0x0F) as usize];
                self.rate_counter = self.rate_value;
            },
            DMCRegister::R1 => {
                proof {
                    lemma_byte_fields(byte);
                }
                self.current_level = byte & 0x7F;
            },
            DMCRegister::R2 => {
                proof {
                    lemma_byte_scaled(byte);
                }
                self.start_address = 0xC000 + ((byte as u16) << 6)
            },
            DMCRegister::R3 => {
                proof {
                    lemma_byte_scaled(byte);
                }
                self.length_value = ((byte as u16) << 4) + 1;
            },
        }
    }

    pub fn set_enabled(&mut self, enabled: bool)
        requires
            old(self)@.wf(),
        ensures
            final(self)@ == old(self)@.enabled_set(enabled),
            final(self)@.wf(),
    {
        self.enabled = enabled;
        self.irq_enabled = false;
        if !enabled {
            self.length_counter = 0;
        } else {
            self.start_sample();
        }
    }

    pub fn clock_timer(&mut self)
        requires
            old(self)@.wf(),
        ensures
            final(self)@ == old(self)@.timer_clocked(),
            final(self)@.wf(),
    {
        self.rate_counter -= 1;
        if self.rate_counter == 0 {
            self.rate_counter = self.rate_value;
            self.clock_level();
        }
    }

    fn start_sample(&mut self)
        requires
            old(self)@.wf(),
        ensures
            final(self)@ == old(self)@.sample_started(),
            final(self)@.wf(),
    {
        if self.length_counter == 0 {
            self.address_pointer = self.start_address;
            self.length_counter = self.length_value;
            if self.sample_buffer_empty {
                self.request_fetch = true;
            }
        }
    }

    pub fn fetch_sample(&mut self, memory: &Memory)
        requires
            old(self)@.wf(),
        ensures
            final(self)@ == old(self)@.fetched(memory.memory@),
            final(self)@.wf(),
    {
        self.request_fetch = false;
        if self.length_counter > 0 {
            self.sample_buffer = memory.get_byte(self.address_pointer);
            self.sample_buffer_empty = false;
            self.address_pointer = if self.address_pointer == 0xFFFF {
                0x8000
            } else {
                self.address_pointer + 1
            };
            self.length_counter -= 1;
        }
        if self.length_counter == 0 {
            if self.loop_flag {
                self.start_sample();
            } else if self.irq_enabled {
                self.irq_interrupt = true;
            }
        }
    }

    fn clock_level(&mut self)
        requires
            old(self)@.wf(),
        ensures
            final(self)@ == old(self)@.level_clocked(),
            final(self)@.wf(),
    {
        proof {
            lemma_byte_fields(self.shift_register);
        }
        if !self.silence_flag {
            if self.shift_register & 0x01 == 1 && self.current_level < 126 {
                self.current_level += 2
            }
            if self.shift_register & 0x01 == 0 && self.current_level > 1 {
                self.current_level -= 2
            }
        }
        self.shift_register >>= 1;
        self.bits_counter -= 1;
        if self.bits_counter == 0 {
            self.bits_counter = 8;
            if !self.sample_buffer_empty {
                self.silence_flag = false;
                self.shift_register = self.sample_buffer;
                self.sample_buffer_empty = true;
                self.request_fetch = true;
            } else {
                self.silence_flag = true;
            }
        }
    }

    pub fn output(&self) -> (r: u8)
        requires
            self@.wf(),
        ensures
            r == self@.output(),
            r <= 127,
    {
        if self.silence_flag {
            0
        } else {
            self.current_level
        }
    }
}

} // verus!
