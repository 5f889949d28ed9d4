//! Discrete selections made by the effects: modes, waveforms, channel
//! routing and allpass stage counts.

use vstd::prelude::*;
use crate::decimate::CoeffDecimator;

verus! {

/// Wah operating mode.
///
/// Stored as an index (0 = Auto, 1 = Manual) in the wah's mode parameter.
#[derive(Debug, Clone, Copy, PartialEq, Eq, Default)]
pub enum WahMode {
    /// Auto-wah: envelope follower controls filter frequency.
    #[default]
    Auto,
    /// Manual: frequency controlled directly by the frequency parameter.
    Manual,
}

/// LFO waveform selected by the tremolo's waveform parameter.
#[derive(Debug, Clone, Copy, PartialEq, Eq)]
pub enum LfoWaveform {
    Sine,
    Triangle,
    Square,
    SampleAndHold,
}

/// Tremolo waveform for a waveform index: 0 sine, 1 triangle, 2 square,
/// anything else sample-and-hold.
pub open spec fn spec_tremolo_waveform(index: u8) -> LfoWaveform {
    if index == 0 {
        LfoWaveform::Sine
    } else if index == 1 {
        LfoWaveform::Triangle
    } else if index == 2 {
        LfoWaveform::Square
    } else {
        LfoWaveform::SampleAndHold
    }
}

/// Map a tremolo waveform index (0–3) to its LFO waveform.
pub fn waveform_from_index(index: u8) -> (r: LfoWaveform)
    ensures
        r == spec_tremolo_waveform(index),
{
    match index {
        0 => LfoWaveform::Sine,
        1 => LfoWaveform::Triangle,
        2 => LfoWaveform::Square,
        _ => LfoWaveform::SampleAndHold,
    }
}

/// Ring-modulator carrier shape.
#[derive(Debug, Clone, Copy, PartialEq, Eq)]
pub enum CarrierShape {
    Sine,
    Triangle,
    Square,
}

/// Carrier for a waveform index: 0 sine, 1 triangle, 2 or higher square.
pub open spec fn spec_carrier_shape(waveform: u8) -> CarrierShape {
    if waveform == 0 {
        CarrierShape::Sine
    } else if waveform == 1 {
        CarrierShape::Triangle
    } else {
        CarrierShape::Square
    }
}

/// Select the ring-modulator carrier shape for a waveform index.
pub fn carrier_shape(waveform: u8) -> (r: CarrierShape)
    ensures
        r == spec_carrier_shape(waveform),
{
    match waveform {
        0 => CarrierShape::Sine,
        1 => CarrierShape::Triangle,
        _ => CarrierShape::Square,
    }
}

/// Channel routing of the stage utility for a channel-mode index:
/// 0 normal, 1 swap, 2 both channels take the left input, anything else both
/// take the right input.
pub open spec fn spec_route_channels<T>(mode: u8, l: T, r: T) -> (T, T) {
    if mode == 0 {
        (l, r)
    } else if mode == 1 {
        (r, l)
    } else if mode == 2 {
        (l, l)
    } else {
        (r, r)
    }
}

/// Apply the stage utility's channel mode to a stereo pair.
pub fn route_channels<T: Copy>(mode: u8, l: T, r: T) -> (out: (T, T))
    ensures
        out == spec_route_channels(mode, l, r),
{
    match mode {
        0 => (l, r),
        1 => (r, l),
        2 => (l, l),
        _ => (r, r),
    }
}

/// Maximum number of allpass stages in the phasers.
pub const MAX_STAGES: usize = 12;

/// Minimum number of allpass stages in the phasers.
pub const MIN_STAGES: usize = 2;

/// `n` clamped to `MIN_STAGES..=MAX_STAGES`.
pub open spec fn spec_clamp_stages(n: int) -> int {
    if n < MIN_STAGES { MIN_STAGES as int } else if n > MAX_STAGES { MAX_STAGES as int } else { n }
}

/// Clamp a stage count to `2..=12`.
pub fn clamp_stages(stages: usize) -> (r: usize)
    ensures
        r == spec_clamp_stages(stages as int),
        MIN_STAGES <= r <= MAX_STAGES,
{
    if stages < MIN_STAGES {
        MIN_STAGES
    } else if stages > MAX_STAGES {
        MAX_STAGES
    } else {
        stages
    }
}

/// Stage count chosen by the phaser's stages knob once the knob has been
/// quantised to a step `raw` (0–5): `(raw + 1) * 2`, clamped to `2..=12`.
pub fn stages_from_step(raw: u32) -> (r: u32)
    requires
        raw < 0x7FFF_FFFF,
    ensures
        r == spec_clamp_stages((raw + 1) * 2),
        r % 2 == 0,
{
    let n = (raw + 1) * 2;
    if n < 2 {
        2
    } else if n > 12 {
        12
    } else {
        n
    }
}

/// Discrete state of the classic phaser: the number of active allpass stages
/// and the coefficient-update decimator.
pub struct Phaser {
    stages: usize,
    decimator: CoeffDecimator,
}

impl Phaser {
    /// Number of active stages.
    pub closed spec fn stage_count(&self) -> int {
        self.stages as int
    }

    /// The decimator.
    pub closed spec fn decimator(&self) -> CoeffDecimator {
        self.decimator
    }

    /// Stage count in range and decimator consistent.
    pub open spec fn wf(&self) -> bool {
        &&& MIN_STAGES <= self.stage_count() <= MAX_STAGES
        &&& self.decimator().wf()
    }

    /// Six stages; the first sample updates the coefficients.
    pub fn new() -> (r: Self)
        ensures
            r.wf(),
            r.stage_count() == 6,
            r.decimator().remaining() == 1,
    {
        Phaser { stages: 6, decimator: CoeffDecimator::new() }
    }

    /// Set number of allpass stages, clamped to 2–12.
    pub fn set_stages(&mut self, stages: usize)
        requires
            old(self).wf(),
        ensures
            final(self).wf(),
            final(self).stage_count() == spec_clamp_stages(stages as int),
            final(self).decimator() == old(self).decimator(),
    {
        self.stages = clamp_stages(stages);
    }

    /// Current number of stages.
    pub fn stages(&self) -> (r: usize)
        ensures
            r == self.stage_count(),
    {
        self.stages
    }

    /// Advance one sample; `true` when the allpass coefficients must be
    /// recomputed.
    pub fn tick(&mut self) -> (fire: bool)
        requires
            old(self).wf(),
        ensures
            final(self).wf(),
            final(self).stage_count() == old(self).stage_count(),
            fire == (old(self).decimator().remaining() == 1),
            final(self).decimator().remaining() == crate::decimate::next_counter(
                old(self).decimator().remaining(),
            ),
    {
        self.decimator.tick()
    }

    /// Reset: the next sample updates the coefficients; the stage count stays.
    pub fn reset(&mut self)
        requires
            old(self).wf(),
        ensures
            final(self).wf(),
            final(self).stage_count() == old(self).stage_count(),
            final(self).decimator().remaining() == 1,
    {
        self.decimator.reset();
    }
}

/// Setting the stage count and reading it back gives the request clamped to
/// `2..=12`; a request inside that range is kept as it is.
pub proof fn lemma_stages_roundtrip(n: int)
    ensures
        MIN_STAGES <= spec_clamp_stages(n) <= MAX_STAGES,
        (MIN_STAGES <= n <= MAX_STAGES) ==> spec_clamp_stages(n) == n,
        spec_clamp_stages(spec_clamp_stages(n)) == spec_clamp_stages(n),
{
}

/// Mode 0 passes the pair through, swapping twice (mode 1) restores it, and every
/// other mode makes the output mono from one input.
pub proof fn lemma_route_channels<T>(mode: u8, l: T, r: T)
    ensures
        spec_route_channels(1u8, spec_route_channels(1u8, l, r).0, spec_route_channels(1u8, l, r).1)
            == (l, r),
        spec_route_channels(0u8, l, r) == (l, r),
        mode >= 2 ==> spec_route_channels(mode, l, r).0 == spec_route_channels(mode, l, r).1,
{
}

} // verus!
