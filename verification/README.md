# nes_apu

A verified model of the NES audio processing unit.

`src/` is the library, verified with Verus:

- `apu.rs` — the `APU`: CPU writes to the registers ($4000-$4017) and to the
  sample memory ($C000-$CFFF), and the clock that drives all channels.
- `apu/pulse.rs`, `apu/triangle.rs`, `apu/noise.rs`, `apu/dmc.rs` — the five
  channels; `apu/envelope.rs` — the envelope shared by pulse and noise;
  `apu/frame_counter.rs` — the frame sequencer; `apu/registers.rs` and
  `apu/memory.rs` — the register file and the sample memory.
- `util.rs` — packing of delta-modulation bits into sample bytes.
- `resample.rs` — the phase step of the rational resampler.
- `bits.rs` — bit-level facts the proofs use.

Each state machine has a view of plain values, a well-formedness invariant
and spec functions for its operations; every executable method is proved to
perform its spec function and to keep the invariant. Laws about the whole
library (silenced channels stay silent, the noise register never locks up,
the frame sequencer's period, the duty-cycle and DMC rate periods, read-back of register and memory writes, the
order in which the delta-modulation channel plays packed bits) are proof
functions beside the types they speak of.

`app/` is the program around the library: the floating-point mixer, the
resampler and filters that turn APU output into audio, the delta-modulation
encoder's floating-point half, WAV file I/O with `hound`, and a live-playback
demo with `cpal`.
