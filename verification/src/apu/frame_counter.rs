use vstd::prelude::*;
use crate::bits::lemma_byte_fields;

verus! {

enum Mode {
    FourStep,
    FiveStep,
}

/// The number of APU clocks between two steps of the frame sequencer, less
/// one: the sequencer steps when the divider, counting up from 0, has reached
/// this value.
pub const FRAME_DIVIDER: u32 = 89_490 / 6;

/// The frame sequencer, which produces the quarter-frame (envelope, linear
/// counter) and half-frame (length counter, sweep) clocks.
pub struct FrameCounter {
    mode: Mode,
    interrupt_inhibit: bool,
    divider_counter: u32,
    sequence_counter: u8,
    pub sequencer_signals: FrameCounterClocks,
}

/// The signals of the last sequencer step.
pub struct FrameCounterClocks {
    pub length_clock: bool,
    pub envelope_clock: bool,
    pub interrupt: bool,
}

impl FrameCounterClocks {
    pub fn any(&self) -> (r: bool)
        ensures
            r == (self.envelope_clock || self.length_clock || self.interrupt),
    {
        self.envelope_clock || self.length_clock || self.interrupt
    }
}

/// The plain values a [`FrameCounter`] holds; `five_step` tells the mode.
pub struct FrameCounterState {
    pub five_step: bool,
    pub interrupt_inhibit: bool,
    pub divider_counter: u32,
    pub sequence_counter: u8,
    pub length_clock: bool,
    pub envelope_clock: bool,
    pub interrupt: bool,
}

impl View for FrameCounter {
    type V = FrameCounterState;

    closed spec fn view(&self) -> FrameCounterState {
        FrameCounterState {
            five_step: self.mode is FiveStep,
            interrupt_inhibit: self.interrupt_inhibit,
            divider_counter: self.divider_counter,
            sequence_counter: self.sequence_counter,
            length_clock: self.sequencer_signals.length_clock,
            envelope_clock: self.sequencer_signals.envelope_clock,
            interrupt: self.sequencer_signals.interrupt,
        }
    }
}

impl FrameCounterState {
    /// The invariant every reachable frame counter satisfies.
    pub open spec fn wf(self) -> bool {
        &&& self.divider_counter <= FRAME_DIVIDER
        &&& self.sequence_counter < 5
    }

    /// A freshly built frame counter: four-step mode, all signals low.
    pub open spec fn initial() -> FrameCounterState {
        FrameCounterState {
            five_step: false,
            interrupt_inhibit: false,
            divider_counter: 0,
            sequence_counter: 0,
            length_clock: false,
            envelope_clock: false,
            interrupt: false,
        }
    }

    /// One step of the sequencer. In four-step mode every step clocks the
    /// envelopes, steps 1 and 3 clock the length counters, and step 3 raises
    /// the interrupt unless inhibited; in five-step mode steps 0-3 clock the
    /// envelopes, steps 0 and 2 the length counters, and there is no
    /// interrupt.
    pub open spec fn sequencer_clocked(self) -> FrameCounterState {
        if !self.five_step {
            let seq = ((self.sequence_counter + 1) % 4) as u8;
            FrameCounterState {
                sequence_counter: seq,
                envelope_clock: true,
                length_clock: seq == 1 || seq == 3,
                interrupt: !self.interrupt_inhibit && seq == 3,
                ..self
            }
        } else {
            let seq = ((self.sequence_counter + 1) % 5) as u8;
            FrameCounterState {
                sequence_counter: seq,
                envelope_clock: seq < 4,
                length_clock: seq == 0 || seq == 2,
                interrupt: false,
                ..self
            }
        }
    }

    /// A write to the frame counter register: bit 7 set selects four-step
    /// mode and clear selects five-step mode, bit 6 inhibits the interrupt;
    /// the divider restarts one clock before its next step, and in five-step
    /// mode the sequencer steps at once.
    pub open spec fn loaded(self, byte: u8) -> FrameCounterState {
        let s = FrameCounterState {
            five_step: byte < 0x80,
            interrupt_inhibit: (byte / 0x40) % 2 == 1,
            divider_counter: (FRAME_DIVIDER - 1) as u32,
            sequence_counter: 0,
            ..self
        };
        if s.five_step {
            s.sequencer_clocked()
        } else {
            s
        }
    }

    /// Whether the next clock steps the sequencer.
    pub open spec fn fires(self) -> bool {
        self.divider_counter == FRAME_DIVIDER
    }

    /// One APU clock of the frame counter.
    pub open spec fn clocked(self) -> FrameCounterState {
        if self.fires() {
            FrameCounterState { divider_counter: 0, ..self }.sequencer_clocked()
        } else {
            FrameCounterState { divider_counter: (self.divider_counter + 1) as u32, ..self }
        }
    }

    /// The frame counter after `n` clocks.
    pub open spec fn clocked_n(self, n: nat) -> FrameCounterState
        decreases n,
    {
        if n == 0 {
            self
        } else {
            self.clocked().clocked_n((n - 1) as nat)
        }
    }
}

/// While the divider has not reached its top, clocks only count it up.
proof fn lemma_divider_counts(s: FrameCounterState, n: nat)
    requires
        s.divider_counter + n <= FRAME_DIVIDER,
    ensures
        s.clocked_n(n) == (FrameCounterState { divider_counter: (s.divider_counter + n) as u32, ..s }),
    decreases n,
{
    if n > 0 {
        let t = s.clocked();
        assert(t == (FrameCounterState { divider_counter: (s.divider_counter + 1) as u32, ..s }));
        lemma_divider_counts(t, (n - 1) as nat);
    }
}

/// Law: once the sequencer has stepped, it steps again after exactly
/// `FRAME_DIVIDER + 1` clocks and at no clock in between.
pub proof fn lemma_frame_period(s: FrameCounterState, k: nat)
    requires
        s.wf(),
        s.fires(),
        k <= FRAME_DIVIDER,
    ensures
        s.clocked().clocked_n(k).fires() == (k == FRAME_DIVIDER),
{
    let t = s.clocked();
    assert(t.divider_counter == 0);
    lemma_divider_counts(t, k);
}

/// Clocking `a + b` times is clocking `a` times, then `b` times.
proof fn lemma_clocked_n_add(s: FrameCounterState, a: nat, b: nat)
    ensures
        s.clocked_n(a + b) == s.clocked_n(a).clocked_n(b),
    decreases a,
{
    if a > 0 {
        lemma_clocked_n_add(s.clocked(), (a - 1) as nat, b);
        assert((a + b - 1) as nat == (a - 1) as nat + b);
    }
}

/// Law: from any state, the sequencer steps exactly once in every
/// `FRAME_DIVIDER + 1` consecutive clocks: among the clocks numbered 0 to
/// `FRAME_DIVIDER`, it is clock `FRAME_DIVIDER - divider_counter` that fires.
pub proof fn lemma_frame_window(s: FrameCounterState, k: nat)
    requires
        s.wf(),
        k <= FRAME_DIVIDER,
    ensures
        s.clocked_n(k).fires() == (k == FRAME_DIVIDER - s.divider_counter),
{
    let j = (FRAME_DIVIDER - s.divider_counter) as nat;
    if k <= j {
        lemma_divider_counts(s, k);
    } else {
        lemma_divider_counts(s, j);
        let t = s.clocked_n(j);
        assert(t.fires() && t.wf());
        lemma_clocked_n_add(s, j, 1);
        assert(t.clocked_n(1) == t.clocked().clocked_n(0));
        lemma_clocked_n_add(s, j + 1, (k - j - 1) as nat);
        assert(j + 1 + (k - j - 1) as nat == k);
        lemma_frame_period(t, (k - j - 1) as nat);
    }
}

/// Law: a write to the frame counter register selects four-step mode with
/// bit 7 set and five-step mode with it clear, inhibits the interrupt with
/// bit 6, and restarts the divider so that the sequencer steps at the second
/// clock after the write; in five-step mode it also steps at once.
pub proof fn lemma_frame_load(s: FrameCounterState, byte: u8)
    ensures
        s.loaded(byte).five_step == (byte < 128),
        s.loaded(byte).interrupt_inhibit == ((byte / 64) % 2 == 1),
        !s.loaded(byte).fires(),
        s.loaded(byte).clocked().fires(),
        byte < 128 ==> s.loaded(byte).sequence_counter == 1,
        byte >= 128 ==> s.loaded(byte).sequence_counter == 0,
{
}

/// Law: the sequencer raises the interrupt only in four-step mode, only at
/// step 3 and only when not inhibited; five-step mode has a step (4) that
/// clocks nothing.
pub proof fn lemma_frame_interrupt(s: FrameCounterState)
    requires
        s.wf(),
    ensures
        s.sequencer_clocked().interrupt == (!s.five_step && !s.interrupt_inhibit
            && s.sequencer_clocked().sequence_counter == 3),
        s.five_step && s.sequencer_clocked().sequence_counter == 4 ==> !s.sequencer_clocked().envelope_clock
            && !s.sequencer_clocked().length_clock,
        !s.five_step ==> s.sequencer_clocked().envelope_clock,
        s.sequencer_clocked().sequence_counter == (if s.five_step {
            (s.sequence_counter + 1) % 5
        } else {
            (s.sequence_counter + 1) % 4
        }),
{
}

/// Law: four sequencer steps in four-step mode bring the sequence back to
/// where it was, with two half-frame clocks and four quarter-frame clocks.
pub proof fn lemma_four_step_cycle(s: FrameCounterState)
    requires
        s.wf(),
        !s.five_step,
        s.sequence_counter < 4,
    ensures
        s.sequencer_clocked().sequencer_clocked().sequencer_clocked().sequencer_clocked().sequence_counter
            == s.sequence_counter,
        s.sequencer_clocked().envelope_clock,
        s.sequencer_clocked().length_clock != s.sequencer_clocked().sequencer_clocked().length_clock,
{
}

impl FrameCounter {
    pub fn new() -> (r: Self)
        ensures
            r@ == FrameCounterState::initial(),
            r@.wf(),
    {
        FrameCounter {
            mode: Mode::FourStep,
            interrupt_inhibit: false,
            divider_counter: 0,
            sequence_counter: 0,
            sequencer_signals: FrameCounterClocks {
                length_clock: false,
                envelope_clock: false,
                interrupt: false,
            },
        }
    }

    /// Whether the last sequencer step clocked the envelopes.
    pub(crate) fn envelope_clock(&self) -> (r: bool)
        ensures
            r == self@.envelope_clock,
    {
        self.sequencer_signals.envelope_clock
    }

    /// Whether the last sequencer step clocked the length counters.
    pub(crate) fn length_clock(&self) -> (r: bool)
        ensures
            r == self@.length_clock,
    {
        self.sequencer_signals.length_clock
    }

    pub fn load_reguister(&mut self, byte: u8)
        requires
            old(self)@.wf(),
        ensures
            final(self)@ == old(self)@.loaded(byte),
            final(self)@.wf(),
    {
        proof {
            lemma_byte_fields(byte);
        }
        self.mode = if byte & 0b1000_0000 > 0 {
            Mode::FourStep
        } else {
            Mode::FiveStep
        };
        self.interrupt_inhibit = byte & 0b0100_0000 > 0;
        self.divider_counter = FRAME_DIVIDER - 1;
        self.sequence_counter = 0;
        if let Mode::FiveStep = self.mode {
            self.clock_sequencer();
        }
    }

    pub fn clock(&mut self) -> (r: bool)
        requires
            old(self)@.wf(),
        ensures
            r == old(self)@.fires(),
            final(self)@ == old(self)@.clocked(),
            final(self)@.wf(),
    {
        if self.divider_counter == FRAME_DIVIDER {
            self.divider_counter = 0;
            self.clock_sequencer();
            true
        } else {
            self.divider_counter += 1;
            false
        }
    }

    pub fn clock_sequencer(&mut self)
        requires
            old(self)@.wf(),
        ensures
            final(self)@ == old(self)@.sequencer_clocked(),
            final(self)@.wf(),
    {
        self.sequence_counter += 1;
        match self.mode {
            Mode::FourStep => {
                self.sequence_counter %= 4;
                self.sequencer_signals.envelope_clock = true;
                self.sequencer_signals.length_clock = self.sequence_counter == 1
                    || self.sequence_counter == 3;
                self.sequencer_signals.interrupt = !self.interrupt_inhibit && self.sequence_counter
                    == 3;
            },
            Mode::FiveStep => {
                self.sequence_counter %= 5;
                self.sequencer_signals.envelope_clock = self.sequence_counter < 4;
                self.sequencer_signals.length_clock = self.sequence_counter == 0
                    || self.sequence_counter == 2;
                self.sequencer_signals.interrupt = false;
            },
        };
    }
}

} // verus!
