//! Cycle-level model of the NES audio processing unit (APU): the two pulse
//! channels, the triangle, the noise generator, the delta-modulation channel,
//! the frame sequencer that drives them, and the memory-mapped register file
//! through which a CPU programs them.
//!
//! Every channel is an integer state machine. Each type has a view (its
//! fields as plain values), a well-formedness predicate over that view, and
//! spec functions that say what each operation does to the view; the
//! executable methods are proved to follow those spec functions exactly.
pub mod apu;
pub mod bits;
pub mod util;
pub mod resample;
