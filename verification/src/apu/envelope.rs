use vstd::prelude::*;
use crate::bits::lemma_byte_fields;

verus! {

/// The envelope generator shared by the pulse and noise channels.
///
/// It either outputs a constant volume (the low nibble of the control
/// register) or a decaying level that starts at 15 and steps down once per
/// period of its divider, optionally looping back to 15.
#[derive(Debug)]
pub struct Envelope {
    loop_flag: bool,
    constant_vol_flag: bool,
    volume_value: u8,
    divider_counter: u8,
    decay_counter: u8,
    start_flag: bool,
}

/// The plain values an [`Envelope`] holds.
pub struct EnvelopeState {
    pub loop_flag: bool,
    pub constant_vol_flag: bool,
    pub volume_value: u8,
    pub divider_counter: u8,
    pub decay_counter: u8,
    pub start_flag: bool,
}

impl View for Envelope {
    type V = EnvelopeState;

    closed spec fn view(&self) -> EnvelopeState {
        EnvelopeState {
            loop_flag: self.loop_flag,
            constant_vol_flag: self.constant_vol_flag,
            volume_value: self.volume_value,
            divider_counter: self.divider_counter,
            decay_counter: self.decay_counter,
            start_flag: self.start_flag,
        }
    }
}

impl EnvelopeState {
    /// Every counter of the envelope is a 4-bit quantity.
    pub open spec fn wf(self) -> bool {
        &&& self.volume_value <= 15
        &&& self.divider_counter <= 15
        &&& self.decay_counter <= 15
    }

    /// The state of a freshly built envelope: everything cleared.
    pub open spec fn initial() -> EnvelopeState {
        EnvelopeState {
            loop_flag: false,
            constant_vol_flag: false,
            volume_value: 0,
            divider_counter: 0,
            decay_counter: 0,
            start_flag: false,
        }
    }

    /// Writing the channel's control byte: bit 5 is the loop flag, bit 4
    /// selects constant volume, bits 0-3 are the volume / divider period.
    pub open spec fn loaded(self, byte: u8) -> EnvelopeState {
        EnvelopeState {
            loop_flag: (byte / 0x20) % 2 == 1,
            constant_vol_flag: (byte / 0x10) % 2 == 1,
            volume_value: byte % 0x10,
            ..self
        }
    }

    /// Raising the start flag, which restarts the decay at the next clock.
    pub open spec fn started(self) -> EnvelopeState {
        EnvelopeState { start_flag: true, ..self }
    }

    /// One quarter-frame clock of the envelope.
    pub open spec fn clocked(self) -> EnvelopeState {
        if self.start_flag {
            EnvelopeState {
                start_flag: false,
                decay_counter: 15,
                divider_counter: self.volume_value,
                ..self
            }
        } else if self.divider_counter == 0 {
            EnvelopeState {
                divider_counter: self.volume_value,
                decay_counter: if self.decay_counter == 0 && self.loop_flag {
                    15
                } else if self.decay_counter == 0 {
                    0
                } else {
                    (self.decay_counter - 1) as u8
                },
                ..self
            }
        } else {
            EnvelopeState { divider_counter: (self.divider_counter - 1) as u8, ..self }
        }
    }

    /// The envelope after `n` clocks.
    pub open spec fn clocked_n(self, n: nat) -> EnvelopeState
        decreases n,
    {
        if n == 0 {
            self
        } else {
            self.clocked().clocked_n((n - 1) as nat)
        }
    }

    /// The volume the envelope currently outputs.
    pub open spec fn volume(self) -> u8 {
        if self.constant_vol_flag {
            self.volume_value
        } else {
            self.decay_counter
        }
    }
}

/// Law: a well-formed envelope never outputs more than 15, and in constant
/// volume mode it outputs exactly the volume written to its register.
pub proof fn lemma_envelope_volume(s: EnvelopeState)
    requires
        s.wf(),
    ensures
        s.volume() <= 15,
        s.constant_vol_flag ==> s.volume() == s.volume_value,
{
}

/// Law: after a restart, the first clock sets the decay level to 15.
pub proof fn lemma_envelope_restart(s: EnvelopeState)
    ensures
        s.started().clocked().decay_counter == 15,
        !s.constant_vol_flag ==> s.started().clocked().volume() == 15,
{
}

/// Law: the control byte selects the mode and the volume: bit 4 set gives a
/// constant volume equal to bits 0-3, bit 5 loops the decay; a write keeps
/// the decay level and divider.
pub proof fn lemma_envelope_register(s: EnvelopeState, byte: u8)
    ensures
        s.loaded(byte).volume_value == byte % 16,
        s.loaded(byte).constant_vol_flag == ((byte / 16) % 2 == 1),
        s.loaded(byte).loop_flag == ((byte / 32) % 2 == 1),
        (byte / 16) % 2 == 1 ==> s.loaded(byte).volume() == byte % 16,
        (byte / 16) % 2 == 0 ==> s.loaded(byte).volume() == s.decay_counter,
        s.loaded(byte).divider_counter == s.divider_counter,
        s.started().start_flag,
{
}

/// Law: once started, a divider that runs out is reloaded with the period
/// (the volume value) and the decay level steps once; a divider that has
/// not run out only counts down.
pub proof fn lemma_envelope_divider(s: EnvelopeState)
    requires
        !s.start_flag,
    ensures
        s.divider_counter == 0 ==> s.clocked().divider_counter == s.volume_value,
        s.divider_counter == 0 && s.decay_counter > 0 ==> s.clocked().decay_counter == s.decay_counter - 1,
        s.divider_counter == 0 && s.decay_counter == 0 ==> s.clocked().decay_counter == (if s.loop_flag {
            15u8
        } else {
            0u8
        }),
        s.divider_counter > 0 ==> s.clocked().divider_counter == s.divider_counter - 1
            && s.clocked().decay_counter == s.decay_counter,
        !s.clocked().start_flag,
{
}

/// Clocking `a + b` times is clocking `a` times, then `b` times.
proof fn lemma_envelope_n_add(s: EnvelopeState, a: nat, b: nat)
    ensures
        s.clocked_n(a + b) == s.clocked_n(a).clocked_n(b),
    decreases a,
{
    if a > 0 {
        lemma_envelope_n_add(s.clocked(), (a - 1) as nat, b);
        assert((a + b - 1) as nat == (a - 1) as nat + b);
    }
}

/// While the divider has not run out, clocks only count it down.
proof fn lemma_envelope_countdown(s: EnvelopeState, k: nat)
    requires
        !s.start_flag,
        k <= s.divider_counter,
    ensures
        s.clocked_n(k) == (EnvelopeState { divider_counter: (s.divider_counter - k) as u8, ..s }),
    decreases k,
{
    if k > 0 {
        let t = s.clocked();
        assert(t == (EnvelopeState { divider_counter: (s.divider_counter - 1) as u8, ..s }));
        lemma_envelope_countdown(t, (k - 1) as nat);
    }
}

/// Law: without looping, a started envelope whose divider holds the period
/// `V` steps its decay level down by one every `V + 1` clocks, stopping at 0:
/// after `k * (V + 1)` clocks the level is `D - k` (or 0) and the divider
/// again holds `V`.
pub proof fn lemma_envelope_decay_rate(s: EnvelopeState, k: nat)
    requires
        !s.start_flag,
        !s.loop_flag,
        s.divider_counter == s.volume_value,
    ensures
        s.clocked_n(k * (s.volume_value + 1) as nat).decay_counter == (if s.decay_counter >= k {
            s.decay_counter - k
        } else {
            0
        }),
        s.clocked_n(k * (s.volume_value + 1) as nat).divider_counter == s.volume_value,
        !s.clocked_n(k * (s.volume_value + 1) as nat).start_flag,
    decreases k,
{
    let v = (s.volume_value + 1) as nat;
    if k == 0 {
        assert(k * v == 0);
    } else {
        lemma_envelope_decay_rate(s, (k - 1) as nat);
        let t = s.clocked_n(((k - 1) * v) as nat);
        assert(k * v == (k - 1) * v + v) by (nonlinear_arith);
        lemma_envelope_n_add(s, ((k - 1) * v) as nat, v);
        assert(t.loop_flag == s.loop_flag && t.volume_value == s.volume_value) by {
            lemma_envelope_keeps_settings(s, ((k - 1) * v) as nat);
        }
        lemma_envelope_countdown(t, s.volume_value as nat);
        let u = t.clocked_n(s.volume_value as nat);
        lemma_envelope_n_add(t, s.volume_value as nat, 1);
        assert(u.clocked_n(1) == u.clocked().clocked_n(0));
    }
}

/// Clocks never change the loop flag, the mode or the volume value.
proof fn lemma_envelope_keeps_settings(s: EnvelopeState, n: nat)
    ensures
        s.clocked_n(n).loop_flag == s.loop_flag,
        s.clocked_n(n).volume_value == s.volume_value,
        s.clocked_n(n).constant_vol_flag == s.constant_vol_flag,
    decreases n,
{
    if n > 0 {
        lemma_envelope_keeps_settings(s.clocked(), (n - 1) as nat);
    }
}

impl Envelope {
    pub fn new() -> (r: Envelope)
        ensures
            r@ == EnvelopeState::initial(),
            r@.wf(),
    {
        Envelope {
            loop_flag: false,
            constant_vol_flag: false,
            volume_value: 0,
            divider_counter: 0,
            decay_counter: 0,
            start_flag: false,
        }
    }

    pub fn load_register(&mut self, byte: u8)
        requires
            old(self)@.wf(),
        ensures
            final(self)@ == old(self)@.loaded(byte),
            final(self)@.wf(),
    {
        self.loop_flag = byte & 0b0010_0000 > 0;
        self.constant_vol_flag = byte & 0b0001_0000 > 0;
        self.volume_value = byte & 0b0000_1111;
        proof {
            lemma_byte_fields(byte);
        }
    }

    pub fn set_start(&mut self)
        ensures
            final(self)@ == old(self)@.started(),
    {
        self.start_flag = true
    }

    pub fn clock(&mut self)
        requires
            old(self)@.wf(),
        ensures
            final(self)@ == old(self)@.clocked(),
            final(self)@.wf(),
    {
        if self.start_flag {
            self.start_flag = false;
            self.decay_counter = 15;
            self.divider_counter = self.volume_value;
        } else {
            if self.divider_counter == 0 {
                self.divider_counter = self.volume_value;
                if self.decay_counter == 0 && self.loop_flag {
                    self.decay_counter = 15;
                } else {
                    self.decay_counter = self.decay_counter.saturating_sub(1);
                }
            } else {
                self.divider_counter -= 1
            }
        }
    }

    pub fn volume(&self) -> (r: u8)
        requires
            self@.wf(),
        ensures
            r == self@.volume(),
            r <= 15,
    {
        if self.constant_vol_flag {
            self.volume_value
        } else {
            self.decay_counter
        }
    }
}

} // verus!
