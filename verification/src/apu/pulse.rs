use vstd::prelude::*;
use crate::bits::{lemma_byte_fields, lemma_period_fields, lemma_shift_right, shift_factor};
use crate::apu::LENGTH_TABLE;
use crate::apu::envelope::{Envelope, EnvelopeState};

verus! {

/// The four registers of a pulse channel.
pub enum PulseRegister {
    R0,
    R1,
    R2,
    R3,
}

/// The waveform of each duty cycle (12.5 %, 25 %, 50 %, 25 % negated),
/// read from step 7 down to step 0.
pub const DUTY_SEQUENCE: [[u8; 8]; 4] = [
    [0, 0, 0, 0, 0, 0, 0, 1],
    [0, 0, 0, 0, 0, 0, 1, 1],
    [0, 0, 0, 0, 1, 1, 1, 1],
    [1, 1, 1, 1, 1, 1, 0, 0],
];

/// One of the two square-wave channels, with its envelope, its length
/// counter and its sweep unit.
#[derive(Debug)]
pub struct Pulse {
    enabled: bool,
    duty_cycle: u8,
    length_counter_halt: bool,
    constant_flag: bool,
    envelope_divider: u8,
    sweep_enabled: bool,
    sweep_period_value: u8,
    sweep_negate: bool,
    sweep_shift: u8,
    period_value: u16,
    length_value: u8,
    envelope: Envelope,
    period_counter: u16,
    duty_sequencer: u8,
    length_counter: u8,
    sweep_counter: u8,
    sweep_target_period: u16,
    sweep_use_two_complemet: bool,
    sweep_reload: bool,
}

/// The plain values a [`Pulse`] holds.
pub struct PulseState {
    pub enabled: bool,
    pub duty_cycle: u8,
    pub length_counter_halt: bool,
    pub constant_flag: bool,
    pub envelope_divider: u8,
    pub sweep_enabled: bool,
    pub sweep_period_value: u8,
    pub sweep_negate: bool,
    pub sweep_shift: u8,
    pub period_value: u16,
    pub length_value: u8,
    pub envelope: EnvelopeState,
    pub period_counter: u16,
    pub duty_sequencer: u8,
    pub length_counter: u8,
    pub sweep_counter: u8,
    pub sweep_target_period: u16,
    pub sweep_use_two_complemet: bool,
    pub sweep_reload: bool,
}

impl View for Pulse {
    type V = PulseState;

    closed spec fn view(&self) -> PulseState {
        PulseState {
            enabled: self.enabled,
            duty_cycle: self.duty_cycle,
            length_counter_halt: self.length_counter_halt,
            constant_flag: self.constant_flag,
            envelope_divider: self.envelope_divider,
            sweep_enabled: self.sweep_enabled,
            sweep_period_value: self.sweep_period_value,
            sweep_negate: self.sweep_negate,
            sweep_shift: self.sweep_shift,
            period_value: self.period_value,
            length_value: self.length_value,
            envelope: self.envelope@,
            period_counter: self.period_counter,
            duty_sequencer: self.duty_sequencer,
            length_counter: self.length_counter,
            sweep_counter: self.sweep_counter,
            sweep_target_period: self.sweep_target_period,
            sweep_use_two_complemet: self.sweep_use_two_complemet,
            sweep_reload: self.sweep_reload,
        }
    }
}

impl PulseState {
    /// The invariant every reachable pulse channel satisfies.
    pub open spec fn wf(self) -> bool {
        &&& self.envelope.wf()
        &&& self.duty_cycle < 4
        &&& self.duty_sequencer < 8
        &&& self.envelope_divider <= 15
        &&& self.sweep_period_value < 8
        &&& self.sweep_shift < 8
        &&& self.period_value <= 0x7FF
        &&& self.length_value < 32
        &&& (!self.enabled ==> self.length_counter == 0)
    }

    /// A freshly built channel; channel 1 subtracts with one's complement in
    /// its sweep unit, channel 2 with two's complement.
    pub open spec fn initial(is_channel_1: bool) -> PulseState {
        PulseState {
            enabled: false,
            duty_cycle: 0,
            length_counter_halt: false,
            constant_flag: false,
            envelope_divider: 0,
            sweep_enabled: false,
            sweep_period_value: 0,
            sweep_negate: false,
            sweep_shift: 0,
            period_value: 0,
            length_value: 0,
            envelope: EnvelopeState::initial(),
            period_counter: 0,
            duty_sequencer: 0,
            length_counter: 0,
            sweep_counter: 0,
            sweep_target_period: 0,
            sweep_use_two_complemet: !is_channel_1,
            sweep_reload: false,
        }
    }

    /// The change amount of the sweep unit: the period shifted right.
    pub open spec fn sweep_delta(self) -> u16 {
        (self.period_value / shift_factor(self.sweep_shift)) as u16
    }

    /// The sweep target update adds the change amount to the previous target
    /// unless the negate flag is set; this says that the sum fits in 16 bits.
    pub open spec fn update_safe(self) -> bool {
        self.sweep_negate || self.sweep_target_period + self.sweep_delta() <= u16::MAX
    }

    /// Recomputes the sweep target period.
    pub open spec fn target_updated(self) -> PulseState {
        PulseState {
            sweep_target_period: if self.sweep_negate {
                if !self.sweep_use_two_complemet {
                    if self.period_value >= 1 {
                        (self.period_value - 1) as u16
                    } else {
                        0
                    }
                } else if self.period_value >= self.sweep_delta() {
                    (self.period_value - self.sweep_delta()) as u16
                } else {
                    0
                }
            } else {
                (self.sweep_target_period + self.sweep_delta()) as u16
            },
            ..self
        }
    }

    /// The field writes that a register write makes before the sweep target
    /// is recomputed.
    pub open spec fn fields_written(self, register: PulseRegister, byte: u8) -> PulseState {
        match register {
            PulseRegister::R0 => PulseState {
                duty_cycle: byte / 0x40,
                length_counter_halt: (byte / 0x20) % 2 == 1,
                constant_flag: (byte / 0x10) % 2 == 1,
                envelope_divider: byte % 0x10,
                envelope: self.envelope.loaded(byte),
                ..self
            },
            PulseRegister::R1 => PulseState {
                sweep_enabled: byte >= 0x80,
                sweep_period_value: (byte / 0x10) % 0x08,
                sweep_negate: (byte / 0x08) % 2 == 1,
                sweep_shift: byte % 0x08,
                ..self
            },
            PulseRegister::R2 => PulseState {
                period_value: ((self.period_value / 0x100) * 0x100 + byte) as u16,
                ..self
            },
            PulseRegister::R3 => PulseState {
                period_value: (self.period_value % 0x100 + (byte % 0x08) * 0x100) as u16,
                length_value: byte / 0x08,
                length_counter: if self.enabled {
                    LENGTH_TABLE[(byte / 0x08) as int]
                } else {
                    0
                },
                duty_sequencer: 0,
                ..self
            },
        }
    }

    /// A register write can be made without the sweep target overflowing.
    pub open spec fn load_safe(self, register: PulseRegister, byte: u8) -> bool {
        match register {
            PulseRegister::R0 => true,
            _ => self.fields_written(register, byte).update_safe(),
        }
    }

    /// The channel after a write of `byte` to `register`.
    pub open spec fn loaded(self, register: PulseRegister, byte: u8) -> PulseState {
        let w = self.fields_written(register, byte);
        match register {
            PulseRegister::R0 => w,
            PulseRegister::R1 => {
                let u = w.target_updated();
                PulseState { sweep_counter: u.sweep_period_value, sweep_reload: true, ..u }
            },
            PulseRegister::R2 => w.target_updated(),
            PulseRegister::R3 => {
                let u = w.target_updated();
                PulseState { envelope: u.envelope.started(), ..u }
            },
        }
    }

    /// Writing the four registers in order can be done without overflow.
    pub open spec fn all_load_safe(self, bytes: Seq<u8>) -> bool {
        let s1 = self.loaded(PulseRegister::R0, bytes[0]);
        let s2 = s1.loaded(PulseRegister::R1, bytes[1]);
        let s3 = s2.loaded(PulseRegister::R2, bytes[2]);
        &&& s1.load_safe(PulseRegister::R1, bytes[1])
        &&& s2.load_safe(PulseRegister::R2, bytes[2])
        &&& s3.load_safe(PulseRegister::R3, bytes[3])
    }

    /// The channel after writing the four registers in order.
    pub open spec fn all_loaded(self, bytes: Seq<u8>) -> PulseState {
        self.loaded(PulseRegister::R0, bytes[0]).loaded(PulseRegister::R1, bytes[1]).loaded(
            PulseRegister::R2,
            bytes[2],
        ).loaded(PulseRegister::R3, bytes[3])
    }

    /// Enabling or disabling the channel; disabling clears the length counter.
    pub open spec fn enabled_set(self, enabled: bool) -> PulseState {
        PulseState {
            enabled,
            length_counter: if enabled {
                self.length_counter
            } else {
                0
            },
            ..self
        }
    }

    /// One tick of the period timer; on reload the duty sequencer steps back
    /// one position, modulo 8.
    pub open spec fn timer_clocked(self) -> PulseState {
        if self.period_counter == 0 {
            PulseState {
                period_counter: self.period_value,
                duty_sequencer: ((self.duty_sequencer + 7) % 8) as u8,
                ..self
            }
        } else {
            PulseState { period_counter: (self.period_counter - 1) as u16, ..self }
        }
    }

    /// The channel after `n` ticks of the period timer.
    pub open spec fn timer_clocked_n(self, n: nat) -> PulseState
        decreases n,
    {
        if n == 0 {
            self
        } else {
            self.timer_clocked().timer_clocked_n((n - 1) as nat)
        }
    }

    /// One half-frame clock of the length counter.
    pub open spec fn length_clocked(self) -> PulseState {
        if !self.length_counter_halt && self.length_counter > 0 {
            PulseState { length_counter: (self.length_counter - 1) as u8, ..self }
        } else {
            self
        }
    }

    /// The sweep unit silences the channel: the period is too small or the
    /// target period overflows 11 bits.
    pub open spec fn mute_sweep(self) -> bool {
        self.period_value < 8 || self.sweep_target_period > 0x7FF
    }

    /// The channel outputs silence.
    pub open spec fn muted(self) -> bool {
        !self.enabled || self.length_counter == 0 || self.mute_sweep()
    }

    /// One half-frame clock of the sweep unit.
    pub open spec fn sweep_clocked(self) -> PulseState {
        if self.sweep_counter == 0 {
            let s = PulseState { sweep_counter: self.sweep_period_value, ..self };
            if s.sweep_enabled && s.sweep_shift > 0 && !s.mute_sweep() {
                PulseState { period_value: s.sweep_target_period, ..s }.target_updated()
            } else {
                s
            }
        } else if self.sweep_reload {
            PulseState { sweep_counter: self.sweep_period_value, sweep_reload: false, ..self }
        } else {
            PulseState { sweep_counter: (self.sweep_counter - 1) as u8, ..self }
        }
    }

    /// One quarter-frame clock of the envelope.
    pub open spec fn envelope_clocked(self) -> PulseState {
        PulseState { envelope: self.envelope.clocked(), ..self }
    }

    /// The current output level, 0 to 15.
    pub open spec fn output(self) -> u8 {
        if self.muted() {
            0
        } else {
            (self.envelope.volume() * DUTY_SEQUENCE[self.duty_cycle as int][self.duty_sequencer as int]) as u8
        }
    }
}

/// Every step of every duty waveform is 0 or 1.
pub proof fn lemma_duty_bits(cycle: int, step: int)
    requires
        0 <= cycle < 4,
        0 <= step < 8,
    ensures
        DUTY_SEQUENCE[cycle][step] <= 1,
{
    assert(forall|j: int| 0 <= j < 8 ==> #[trigger] DUTY_SEQUENCE[0][j] <= 1);
    assert(forall|j: int| 0 <= j < 8 ==> #[trigger] DUTY_SEQUENCE[1][j] <= 1);
    assert(forall|j: int| 0 <= j < 8 ==> #[trigger] DUTY_SEQUENCE[2][j] <= 1);
    assert(forall|j: int| 0 <= j < 8 ==> #[trigger] DUTY_SEQUENCE[3][j] <= 1);
}

/// Law: a disabled pulse channel is silent, and stays disabled (hence
/// silent) through every clock and every register write; only enabling it
/// again can make it sound.
pub proof fn lemma_disabled_pulse_silent(s: PulseState, register: PulseRegister, byte: u8)
    requires
        s.wf(),
        !s.enabled,
    ensures
        s.output() == 0,
        !s.timer_clocked().enabled,
        !s.length_clocked().enabled,
        !s.sweep_clocked().enabled,
        !s.envelope_clocked().enabled,
        !s.loaded(register, byte).enabled,
{
}

/// Law: the sweep unit mutes the channel whenever the period is below 8 or
/// the target period leaves 11 bits, whatever the other settings.
pub proof fn lemma_sweep_mutes(s: PulseState)
    requires
        s.period_value < 8 || s.sweep_target_period > 0x7FF,
    ensures
        s.output() == 0,
{
}

/// Law: register 0 gives the duty cycle (bits 6-7), the length-counter halt
/// flag (bit 5) and the envelope control (bits 0-5); register 1 gives the
/// sweep enable (bit 7), divider period (bits 4-6), negate flag (bit 3) and
/// shift (bits 0-2), reloads the sweep divider and raises its reload flag.
pub proof fn lemma_pulse_control_registers(s: PulseState, byte: u8)
    requires
        s.wf(),
        s.load_safe(PulseRegister::R1, byte),
    ensures
        s.loaded(PulseRegister::R0, byte).duty_cycle == byte / 64,
        s.loaded(PulseRegister::R0, byte).length_counter_halt == ((byte / 32) % 2 == 1),
        s.loaded(PulseRegister::R0, byte).envelope == s.envelope.loaded(byte),
        s.loaded(PulseRegister::R1, byte).sweep_enabled == (byte >= 128),
        s.loaded(PulseRegister::R1, byte).sweep_period_value == (byte / 16) % 8,
        s.loaded(PulseRegister::R1, byte).sweep_negate == ((byte / 8) % 2 == 1),
        s.loaded(PulseRegister::R1, byte).sweep_shift == byte % 8,
        s.loaded(PulseRegister::R1, byte).sweep_counter == (byte / 16) % 8,
        s.loaded(PulseRegister::R1, byte).sweep_reload,
        s.loaded(PulseRegister::R1, byte).period_value == s.period_value,
{
}

/// Law: the channel sounds exactly when it is enabled, its length counter
/// runs, the sweep does not mute it and the current duty step is high; it
/// then outputs the envelope volume.
pub proof fn lemma_pulse_output(s: PulseState)
    requires
        s.wf(),
    ensures
        s.muted() ==> s.output() == 0,
        !s.muted() && DUTY_SEQUENCE[s.duty_cycle as int][s.duty_sequencer as int] == 1 ==> s.output()
            == s.envelope.volume(),
        DUTY_SEQUENCE[s.duty_cycle as int][s.duty_sequencer as int] == 0 ==> s.output() == 0,
        s.muted() == (!s.enabled || s.length_counter == 0 || s.period_value < 8
            || s.sweep_target_period > 0x7FF),
{
    lemma_duty_bits(s.duty_cycle as int, s.duty_sequencer as int);
}

/// Law: the sweep unit moves the period only when it is enabled, its shift
/// is nonzero, its divider has run out and the channel is not muted by the
/// sweep; it then moves the period to the target. A disabled sweep never
/// changes the pitch.
pub proof fn lemma_sweep_moves_period(s: PulseState)
    ensures
        !s.sweep_enabled ==> s.sweep_clocked().period_value == s.period_value,
        s.sweep_shift == 0 ==> s.sweep_clocked().period_value == s.period_value,
        s.sweep_counter != 0 ==> s.sweep_clocked().period_value == s.period_value
            && s.sweep_clocked().sweep_target_period == s.sweep_target_period,
        s.sweep_counter == 0 && s.sweep_enabled && s.sweep_shift > 0 && !s.mute_sweep()
            ==> s.sweep_clocked().period_value == s.sweep_target_period,
        s.sweep_clocked().sweep_counter == if s.sweep_counter == 0 || s.sweep_reload {
            s.sweep_period_value
        } else {
            (s.sweep_counter - 1) as u8
        },
{
}

/// Law: recomputing the sweep target adds the period shifted right to the
/// target, or (negate flag) sets it to the period minus that amount for
/// channel 2 and to the period minus 1 for channel 1, never below 0; the
/// period itself is kept.
pub proof fn lemma_sweep_target(s: PulseState)
    requires
        s.sweep_shift < 8,
        s.update_safe(),
    ensures
        !s.sweep_negate ==> s.target_updated().sweep_target_period == s.sweep_target_period
            + s.period_value / shift_factor(s.sweep_shift),
        s.sweep_negate && s.sweep_use_two_complemet ==> s.target_updated().sweep_target_period
            == s.period_value - s.period_value / shift_factor(s.sweep_shift),
        s.sweep_negate && !s.sweep_use_two_complemet && s.period_value > 0
            ==> s.target_updated().sweep_target_period == s.period_value - 1,
        s.target_updated().period_value == s.period_value,
{
}

/// Law: the timer period of a pulse channel is 11 bits: register 2 gives
/// its low byte and bits 0-2 of register 3 its high bits, each write keeping
/// the other part; writing both sets the period whatever it was.
pub proof fn lemma_pulse_period_registers(s: PulseState, lo: u8, hi: u8)
    requires
        s.wf(),
        s.load_safe(PulseRegister::R2, lo),
        s.loaded(PulseRegister::R2, lo).load_safe(PulseRegister::R3, hi),
    ensures
        s.loaded(PulseRegister::R2, lo).period_value % 0x100 == lo,
        s.loaded(PulseRegister::R2, lo).period_value / 0x100 == s.period_value / 0x100,
        s.loaded(PulseRegister::R3, hi).period_value % 0x100 == s.period_value % 0x100,
        s.loaded(PulseRegister::R3, hi).period_value / 0x100 == hi % 8,
        s.loaded(PulseRegister::R2, lo).loaded(PulseRegister::R3, hi).period_value == lo + (hi % 8)
            * 0x100,
{
}

/// Law: register 3 loads the length counter from the table at index
/// `byte / 8` when the channel is enabled, and restarts the envelope and the
/// duty sequence; a length clock counts it down by one unless halted or 0.
pub proof fn lemma_pulse_length(s: PulseState, byte: u8)
    requires
        s.wf(),
    ensures
        s.enabled ==> s.loaded(PulseRegister::R3, byte).length_counter == LENGTH_TABLE[(byte / 8) as int],
        s.loaded(PulseRegister::R3, byte).duty_sequencer == 0,
        s.loaded(PulseRegister::R3, byte).envelope.start_flag,
        !s.length_counter_halt && s.length_counter > 0 ==> s.length_clocked().length_counter
            == s.length_counter - 1,
        s.length_counter_halt || s.length_counter == 0 ==> s.length_clocked().length_counter
            == s.length_counter,
{
}

/// Ticking `a + b` times is ticking `a` times, then `b` times.
proof fn lemma_timer_n_add(s: PulseState, a: nat, b: nat)
    ensures
        s.timer_clocked_n(a + b) == s.timer_clocked_n(a).timer_clocked_n(b),
    decreases a,
{
    if a > 0 {
        lemma_timer_n_add(s.timer_clocked(), (a - 1) as nat, b);
        assert((a + b - 1) as nat == (a - 1) as nat + b);
    }
}

/// While the period counter has not run out, ticks only count it down.
proof fn lemma_timer_countdown(s: PulseState, k: nat)
    requires
        k <= s.period_counter,
    ensures
        s.timer_clocked_n(k) == (PulseState { period_counter: (s.period_counter - k) as u16, ..s }),
    decreases k,
{
    if k > 0 {
        let t = s.timer_clocked();
        assert(t == (PulseState { period_counter: (s.period_counter - 1) as u16, ..s }));
        lemma_timer_countdown(t, (k - 1) as nat);
    }
}

/// `period_counter + 1` ticks reload the counter and step the duty
/// sequencer once.
proof fn lemma_timer_one_step(s: PulseState)
    ensures
        s.timer_clocked_n((s.period_counter + 1) as nat) == (PulseState {
            period_counter: s.period_value,
            duty_sequencer: ((s.duty_sequencer + 7) % 8) as u8,
            ..s
        }),
{
    let c = s.period_counter as nat;
    lemma_timer_countdown(s, c);
    lemma_timer_n_add(s, c, 1);
    let t = s.timer_clocked_n(c);
    assert(t.timer_clocked_n(1) == t.timer_clocked().timer_clocked_n(0));
}

/// Law: the period timer and the duty sequencer repeat with period
/// `8 * (period_value + 1)` ticks: that many ticks bring them back to where
/// they were (the waveform's frequency is the timer rate divided by
/// `8 * (period_value + 1)`).
pub proof fn lemma_duty_period(s: PulseState)
    requires
        s.duty_sequencer < 8,
        s.period_counter <= s.period_value,
    ensures
        s.timer_clocked_n((8 * (s.period_value + 1)) as nat) == s,
{
    let p = s.period_value as nat;
    let c = s.period_counter as nat;
    lemma_timer_one_step(s);
    let t1 = s.timer_clocked_n(c + 1);
    lemma_timer_one_step(t1);
    let t2 = t1.timer_clocked_n(p + 1);
    lemma_timer_one_step(t2);
    let t3 = t2.timer_clocked_n(p + 1);
    lemma_timer_one_step(t3);
    let t4 = t3.timer_clocked_n(p + 1);
    lemma_timer_one_step(t4);
    let t5 = t4.timer_clocked_n(p + 1);
    lemma_timer_one_step(t5);
    let t6 = t5.timer_clocked_n(p + 1);
    lemma_timer_one_step(t6);
    let t7 = t6.timer_clocked_n(p + 1);
    lemma_timer_one_step(t7);
    let t8 = t7.timer_clocked_n(p + 1);
    assert(t8.period_counter == p && t8.duty_sequencer == s.duty_sequencer);
    lemma_timer_countdown(t8, (p - c) as nat);
    assert(t8.timer_clocked_n((p - c) as nat) == s);
    lemma_timer_n_add(t7, p + 1, (p - c) as nat);
    lemma_timer_n_add(t6, p + 1, (2 * (p + 1) - c - 1) as nat);
    lemma_timer_n_add(t5, p + 1, (3 * (p + 1) - c - 1) as nat);
    lemma_timer_n_add(t4, p + 1, (4 * (p + 1) - c - 1) as nat);
    lemma_timer_n_add(t3, p + 1, (5 * (p + 1) - c - 1) as nat);
    lemma_timer_n_add(t2, p + 1, (6 * (p + 1) - c - 1) as nat);
    lemma_timer_n_add(t1, p + 1, (7 * (p + 1) - c - 1) as nat);
    lemma_timer_n_add(s, c + 1, (8 * (p + 1) - c - 1) as nat);
}

impl Pulse {
    pub fn new(is_channel_1: bool) -> (r: Pulse)
        ensures
            r@ == PulseState::initial(is_channel_1),
            r@.wf(),
    {
        Pulse {
            enabled: false,
            duty_cycle: 0,
            length_counter_halt: false,
            constant_flag: false,
            envelope_divider: 0,
            sweep_enabled: false,
            sweep_period_value: 0,
            sweep_negate: false,
            sweep_shift: 0,
            period_value: 0,
            length_value: 0,
            length_counter: 0,
            envelope: Envelope::new(),
            period_counter: 0,
            duty_sequencer: 0,
            sweep_counter: 0,
            sweep_target_period: 0,
            sweep_use_two_complemet: !is_channel_1,
            sweep_reload: false,
        }
    }

    pub fn load_registers(&mut self, bytes: [u8; 4])
        requires
            old(self)@.wf(),
            old(self)@.all_load_safe(bytes@),
        ensures
            final(self)@ == old(self)@.all_loaded(bytes@),
            final(self)@.wf(),
    {
        self.load_register(PulseRegister::R0, bytes[0]);
        self.load_register(PulseRegister::R1, bytes[1]);
        self.load_register(PulseRegister::R2, bytes[2]);
        self.load_register(PulseRegister::R3, bytes[3]);
    }

    #[verifier::rlimit(40)]
    pub fn load_register(&mut self, register: PulseRegister, byte: u8)
        requires
            old(self)@.wf(),
            old(self)@.load_safe(register, byte),
        ensures
            final(self)@ == old(self)@.loaded(register, byte),
            final(self)@.wf(),
    {
        match register {
            PulseRegister::R0 => {
                self.duty_cycle = byte >> 6;
                self.length_counter_halt = byte & 0b0010_0000 > 0;
                self.constant_flag = byte & 0b0001_0000 > 0;
                self.envelope_divider = byte & 0b0000_1111;
                proof {
                    lemma_byte_fields(byte);
                }
                self.envelope.load_register(byte);
            },
            PulseRegister::R1 => {
                self.sweep_enabled = byte & 0b1000_0000 > 0;
                self.sweep_period_value = (byte & 0b0111_0000) >> 4;
                self.sweep_negate = byte & 0b0000_1000 > 0;
                self.sweep_shift = byte & 0b0000_0111;
                proof {
                    lemma_byte_fields(byte);
                }
                self.update_sweep_target_period();
                self.sweep_counter = self.sweep_period_value;
                self.sweep_reload = true
            },
            PulseRegister::R2 => {
                proof {
                    lemma_period_fields(self.period_value, byte);
                }
                self.period_value = (self.period_value & 0xFF00) + (byte as u16);
                self.update_sweep_target_period();
            },
            PulseRegister::R3 => {
                proof {
                    lemma_byte_fields(byte);
                    lemma_period_fields(self.period_value, byte);
                }
                self.period_value = (self.period_value & 0x00FF) + (((byte & 0b0000_0111) as u16) << 8);
                self.length_value = byte >> 3;
                self.length_counter = if self.enabled {
                    LENGTH_TABLE[self.length_value as usize]
                } else {
                    0
                };
                self.duty_sequencer = 0;
                self.update_sweep_target_period();
                self.envelope.set_start();
            },
        }
    }

    /// Whether a write of `byte` to `register` keeps the sweep target within
    /// 16 bits, which [`Pulse::load_register`] requires.
    pub fn can_load_register(&self, register: &PulseRegister, byte: u8) -> (r: bool)
        requires
            self@.wf(),
        ensures
            r == self@.load_safe(*register, byte),
    {
        proof {
            lemma_byte_fields(byte);
            lemma_period_fields(self.period_value, byte);
        }
        match register {
            PulseRegister::R0 => true,
            PulseRegister::R1 => {
                let shift = byte & 0b0000_0111;
                proof {
                    lemma_shift_right(self.period_value, shift);
                }
                byte & 0b0000_1000 > 0 || self.sweep_target_period as u32 + (self.period_value
                    >> shift) as u32 <= 0xFFFF
            },
            PulseRegister::R2 => {
                let period = (self.period_value & 0xFF00) + (byte as u16);
                proof {
                    lemma_shift_right(period, self.sweep_shift);
                }
                self.sweep_negate || self.sweep_target_period as u32 + (period >> self.sweep_shift) as u32
                    <= 0xFFFF
            },
            PulseRegister::R3 => {
                let period = (self.period_value & 0x00FF) + (((byte & 0b0000_0111) as u16) << 8);
                proof {
                    lemma_shift_right(period, self.sweep_shift);
                }
                self.sweep_negate || self.sweep_target_period as u32 + (period >> self.sweep_shift) as u32
                    <= 0xFFFF
            },
        }
    }

    /// Whether writing `bytes` to the four registers in order keeps the
    /// sweep target within 16 bits, which [`Pulse::load_registers`] requires.
    pub fn can_load_registers(&self, bytes: [u8; 4]) -> (r: bool)
        requires
            self@.wf(),
        ensures
            r == self@.all_load_safe(bytes@),
    {
        let b1 = bytes[1];
        let b2 = bytes[2];
        let b3 = bytes[3];
        proof {
            lemma_byte_fields(b1);
            lemma_byte_fields(b3);
            lemma_period_fields(self.period_value, b2);
        }
        if b1 & 0b0000_1000 > 0 {
            return true;
        }
        let shift = b1 & 0b0000_0111;
        let p1 = self.period_value;
        proof {
            lemma_shift_right(p1, shift);
        }
        let t1 = self.sweep_target_period as u32 + (p1 >> shift) as u32;
        if t1 > 0xFFFF {
            return false;
        }
        let p2 = (p1 & 0xFF00) + (b2 as u16);
        proof {
            lemma_shift_right(p2, shift);
            lemma_period_fields(p2, b3);
        }
        let t2 = t1 + (p2 >> shift) as u32;
        if t2 > 0xFFFF {
            return false;
        }
        let p3 = (p2 & 0x00FF) + (((b3 & 0b0000_0111) as u16) << 8);
        proof {
            lemma_shift_right(p3, shift);
        }
        t2 + (p3 >> shift) as u32 <= 0xFFFF
    }

    /// Whether recomputing the sweep target keeps it within 16 bits, which
    /// [`Pulse::update_sweep_target_period`] requires.
    pub fn can_update_sweep_target_period(&self) -> (r: bool)
        requires
            self@.wf(),
        ensures
            r == self@.update_safe(),
    {
        proof {
            lemma_shift_right(self.period_value, self.sweep_shift);
        }
        self.sweep_negate || self.sweep_target_period as u32 + (self.period_value >> self.sweep_shift) as u32
            <= 0xFFFF
    }

    pub fn set_enabled(&mut self, enabled: bool)
        requires
            old(self)@.wf(),
        ensures
            final(self)@ == old(self)@.enabled_set(enabled),
            final(self)@.wf(),
    {
        self.enabled = enabled;
        if !enabled {
            self.length_counter = 0;
        }
    }

    pub fn clock_timer(&mut self)
        requires
            old(self)@.wf(),
        ensures
            final(self)@ == old(self)@.timer_clocked(),
            final(self)@.wf(),
    {
        if self.period_counter == 0 {
            self.period_counter = self.period_value;
            self.duty_sequencer = self.duty_sequencer.wrapping_sub(1) % 8
        } else {
            self.period_counter -= 1;
        }
    }

    pub fn clock_length(&mut self)
        requires
            old(self)@.wf(),
        ensures
            final(self)@ == old(self)@.length_clocked(),
            final(self)@.wf(),
    {
        if !self.length_counter_halt && self.length_counter > 0 {
            self.length_counter -= 1
        }
    }

    pub fn clock_sweep(&mut self)
        requires
            old(self)@.wf(),
        ensures
            final(self)@ == old(self)@.sweep_clocked(),
            final(self)@.wf(),
    {
        if self.sweep_counter == 0 {
            self.sweep_counter = self.sweep_period_value;
            if self.sweep_enabled && self.sweep_shift > 0 && !self.is_mute_sweep() {
                self.period_value = self.sweep_target_period;
                self.update_sweep_target_period();
            }
        } else if self.sweep_reload {
            self.sweep_counter = self.sweep_period_value;
            self.sweep_reload = false;
        } else {
            self.sweep_counter -= 1;
        }
    }

    pub fn clock_envelop(&mut self)
        requires
            old(self)@.wf(),
        ensures
            final(self)@ == old(self)@.envelope_clocked(),
            final(self)@.wf(),
    {
        self.envelope.clock();
    }

    pub fn update_sweep_target_period(&mut self)
        requires
            old(self)@.wf(),
            old(self)@.update_safe(),
        ensures
            final(self)@ == old(self)@.target_updated(),
            final(self)@.wf(),
    {
        proof {
            lemma_shift_right(self.period_value, self.sweep_shift);
        }
        let delta: u16 = self.period_value >> self.sweep_shift;
        if self.sweep_negate {
            self.sweep_target_period = self.period_value.saturating_sub(delta);
            if !self.sweep_use_two_complemet {
                self.sweep_target_period = self.period_value.saturating_sub(1);
            }
        } else {
            self.sweep_target_period += delta;
        }
    }

    fn is_mute_sweep(&self) -> (r: bool)
        ensures
            r == self@.mute_sweep(),
    {
        self.period_value < 8 || self.sweep_target_period > 0x7FF
    }

    fn is_mute(&self) -> (r: bool)
        ensures
            r == self@.muted(),
    {
        !self.enabled || self.length_counter == 0 || self.is_mute_sweep()
    }

    pub fn output(&self) -> (r: u8)
        requires
            self@.wf(),
        ensures
            r == self@.output(),
            r <= 15,
    {
        if self.is_mute() {
            0
        } else {
            let volume = self.envelope.volume();
            let level = DUTY_SEQUENCE[self.duty_cycle as usize][self.duty_sequencer as usize];
            proof {
                lemma_duty_bits(self.duty_cycle as int, self.duty_sequencer as int);
            }
            assert(volume * level <= 15) by (nonlinear_arith)
                requires
                    volume <= 15,
                    level <= 1,
            ;
            volume * level
        }
    }
}

} // verus!
