# sonido_effects

The discrete control logic of the Sonido audio effects, verified with Verus.

The effects themselves run on `f32` samples; what decides *how* they run is
integer and table logic, and that is what this crate states and proves:

| module | contents |
|--------|----------|
| `params` | per-effect parameter tables: stable ids, string ids, names, ranges, defaults and steps (as `f32` bit patterns), units, display scales, stepped / read-only flags, smoothing styles, initial values |
| `ring` | the capture ring of the granular effects, the tuner's analysis frame, the limiter's lookahead delay and its peak window |
| `grains` | grain-slot bookkeeping: lowest free slot, live-grain count, spawn guard |
| `rng` | the xorshift64 generator of the granular effects |
| `decimate` | the coefficient-update decimator (one update every 32 samples) |
| `modes` | wah mode, tremolo waveform, ring-modulator carrier, stage channel routing, phaser stage counts |
| `order` | order keys: `u32` images of `f32` bit patterns that compare like the values |
| `pitch` | lag selection of the YIN pitch detector, on order keys |

Each public function carries a contract over spec functions; the laws that
relate several calls (ids unique and in their block, defaults inside their
ranges, discrete parameters never smoothed, read-after-write on the rings,
decimation counts, generator never stuck at zero, order keys monotone and
invertible, the lookahead output lagging by exactly the reported latency and
lying inside the peak window) are public proof functions next to the code they speak of.

`app/` holds the `f32` signal processing that builds on these parts (filters,
LFOs, gain computation) on top of the `sonido_core` framework: one module per
kernel (multiband compressor, phaser, plate reverb, preamp, reverb, ring
modulator, shelving EQ, spring reverb, stage, stereo widener, tape, texture,
time stretch, transient shaper, tremolo, tuner, wah), `limiter`, and `classic`
with the clean preamp, multi-vibrato, phaser and parametric EQ. Descriptors are
built from the library's tables (ids, names, ranges, steps, defaults, units,
scales, flags, smoothing).
