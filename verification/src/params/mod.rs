//! Parameter tables.
//!
//! Every effect exposes its parameters by index. Hosts persist automation and
//! presets by the parameter's stable numeric id ([`ParamId`]) and string id, and
//! the adapter picks a smoothing style per index. The tables here hold these
//! facts, the ranges, defaults and steps that the descriptors spell out (held as
//! `f32` bit patterns), their units and display scales, and for the classic
//! effects the values a freshly constructed effect reports.

use vstd::prelude::*;
use crate::order::sign_magnitude;

pub mod multiband_comp;
pub mod phaser;
pub mod plate_reverb;
pub mod preamp;
pub mod reverb;
pub mod ringmod;
pub mod shelving_eq;
pub mod spring_reverb;
pub mod stage;
pub mod stereo_widener;
pub mod tape;
pub mod texture;
pub mod time_stretch;
pub mod transient_shaper;
pub mod tremolo;
pub mod tuner;
pub mod wah;
pub mod parametric_eq;
pub mod clean_preamp;
pub mod multi_vibrato;
pub mod classic_phaser;
pub mod limiter;

verus! {

/// Stable numeric identifier of a parameter, part of the plugin host API.
#[derive(Debug, Clone, Copy, PartialEq, Eq, Structural)]
pub struct ParamId(pub u32);

/// How the adapter smooths changes of a parameter.
#[derive(Debug, Clone, Copy, PartialEq, Eq, Structural)]
pub enum SmoothingStyle {
    /// No smoothing: snap to the new value (stepped or read-only parameters).
    Snap,
    /// Short ramp (about 5 ms).
    Fast,
    /// Default ramp (about 10 ms).
    Standard,
    /// Long ramp for filter coefficients (about 20 ms).
    Slow,
    /// Interpolated ramp for delay times (about 50 ms).
    Interpolated,
}

/// Unit in which a parameter's value is shown.
#[derive(Debug, Clone, Copy, PartialEq, Eq, Structural)]
pub enum ParamUnit {
    /// A plain number (an index, a ratio of times, a normalised amount).
    Unitless,
    /// Decibels.
    Decibels,
    /// Hertz.
    Hertz,
    /// Milliseconds.
    Milliseconds,
    /// Percent.
    Percent,
    /// A ratio such as a compression ratio.
    Ratio,
}

/// How a control maps its travel onto a parameter's range.
#[derive(Debug, Clone, Copy, PartialEq, Eq, Structural)]
pub enum ParamScale {
    /// Equal travel for equal differences.
    Linear,
    /// Equal travel for equal ratios (frequencies).
    Logarithmic,
}

/// Labels a stepped control shows for its steps.
#[derive(Debug, Clone)]
pub enum StepLabels {
    /// No labels: the control shows numbers.
    Unlabelled,
    /// One label per step, lowest step first.
    Listed(Vec<&'static str>),
    /// The framework's note-division names (whole note down to triplet
    /// sixteenth), one per division index.
    NoteDivisions,
}

/// Step labels as plain values.
pub enum LabelSpec {
    Unlabelled,
    Listed(Seq<Seq<char>>),
    NoteDivisions,
}

/// View of a step-label choice: each listed label by its characters.
pub open spec fn labels_view(l: StepLabels) -> LabelSpec {
    match l {
        StepLabels::Unlabelled => LabelSpec::Unlabelled,
        StepLabels::Listed(v) => LabelSpec::Listed(v@.map_values(|s: &'static str| s@)),
        StepLabels::NoteDivisions => LabelSpec::NoteDivisions,
    }
}

/// `s` ends with `t`.
pub open spec fn id_ends_with(s: Seq<char>, t: Seq<char>) -> bool {
    s.len() >= t.len() && s.subrange(s.len() - t.len(), s.len() as int) =~= t
}

/// Bit pattern of the `f32` holding the whole number `n`, for `0 <= n <= 15`
/// (the step values of stepped controls).
pub open spec fn whole_f32_bits(n: int) -> u32 {
    if n == 0 {
        0x0000_0000
    } else if n == 1 {
        0x3F80_0000
    } else if n == 2 {
        0x4000_0000
    } else if n == 3 {
        0x4040_0000
    } else if n == 4 {
        0x4080_0000
    } else if n == 5 {
        0x40A0_0000
    } else if n == 6 {
        0x40C0_0000
    } else if n == 7 {
        0x40E0_0000
    } else if n == 8 {
        0x4100_0000
    } else if n == 9 {
        0x4110_0000
    } else if n == 10 {
        0x4120_0000
    } else if n == 11 {
        0x4130_0000
    } else if n == 12 {
        0x4140_0000
    } else if n == 13 {
        0x4150_0000
    } else if n == 14 {
        0x4160_0000
    } else if n == 15 {
        0x4170_0000
    } else {
        0
    }
}

/// Range of a parameter: minimum, maximum and default value, each held as the
/// bit pattern of its `f32` value (`f32::from_bits` gives the value back).
#[derive(Debug, Clone, Copy, PartialEq, Eq, Structural)]
pub struct ParamRange {
    pub min: u32,
    pub max: u32,
    pub default: u32,
}

/// The range is ordered as `f32` values: `min <= default <= max`.
pub open spec fn range_ordered(r: ParamRange) -> bool {
    sign_magnitude(r.min) <= sign_magnitude(r.default) <= sign_magnitude(r.max)
}

/// View of an optional string.
pub open spec fn opt_view(s: Option<&str>) -> Option<Seq<char>> {
    match s {
        Some(t) => Some(t@),
        None => None,
    }
}

/// Descriptor of one parameter as far as its table fixes it: numeric id,
/// string id, display names, range, step, default, unit and display scale, and
/// the flags that make it discrete (stepped) or a read-only, hidden diagnostic.
/// `default` is the descriptor default (equal to `range.default` where the range
/// is fixed). Names, range, step, default or unit are `None` where the
/// descriptor takes them from a shared preset of the framework (mix, depth,
/// feedback, output level) whose values this library does not fix, unless the
/// effect's documentation gives them (the phaser's feedback range); `scale` is
/// `None` where the descriptor keeps its constructor's scale.
#[derive(Debug, Clone, Copy)]
pub struct ParamInfo {
    pub id: ParamId,
    pub string_id: &'static str,
    pub name: Option<&'static str>,
    pub short_name: Option<&'static str>,
    pub range: Option<ParamRange>,
    pub step: Option<u32>,
    pub default: Option<u32>,
    pub unit: Option<ParamUnit>,
    pub scale: Option<ParamScale>,
    pub stepped: bool,
    pub read_only: bool,
}

/// Descriptor of a parameter of the classic effects, whose descriptors carry no
/// host ids: display names, range, step, default, unit and display scale, with
/// `None` as in [`ParamInfo`].
#[derive(Debug, Clone, Copy)]
pub struct ClassicParamInfo {
    pub name: Option<&'static str>,
    pub short_name: Option<&'static str>,
    pub range: Option<ParamRange>,
    pub step: Option<u32>,
    pub default: Option<u32>,
    pub unit: Option<ParamUnit>,
    pub scale: Option<ParamScale>,
}

/// The id blocks of the effects are pairwise disjoint: every block starts at a
/// multiple of 100 and no two effects share a start, so together with each
/// table's own lemma no two parameters of the library share an id.
pub proof fn lemma_id_blocks_disjoint()
    ensures
        multiband_comp::MULTIBAND_COMP_ID_BASE % 100 == 0,
        phaser::PHASER_ID_BASE % 100 == 0,
        plate_reverb::PLATE_REVERB_ID_BASE % 100 == 0,
        preamp::PREAMP_ID_BASE % 100 == 0,
        reverb::REVERB_ID_BASE % 100 == 0,
        ringmod::RINGMOD_ID_BASE % 100 == 0,
        shelving_eq::SHELVING_EQ_ID_BASE % 100 == 0,
        spring_reverb::SPRING_REVERB_ID_BASE % 100 == 0,
        stage::STAGE_ID_BASE % 100 == 0,
        stereo_widener::STEREO_WIDENER_ID_BASE % 100 == 0,
        tape::TAPE_ID_BASE % 100 == 0,
        texture::TEXTURE_ID_BASE % 100 == 0,
        time_stretch::TIME_STRETCH_ID_BASE % 100 == 0,
        transient_shaper::TRANSIENT_SHAPER_ID_BASE % 100 == 0,
        tremolo::TREMOLO_ID_BASE % 100 == 0,
        tuner::TUNER_ID_BASE % 100 == 0,
        wah::WAH_ID_BASE % 100 == 0,
        limiter::LIMITER_ID_BASE % 100 == 0,
        seq![
            multiband_comp::MULTIBAND_COMP_ID_BASE,
            phaser::PHASER_ID_BASE,
            plate_reverb::PLATE_REVERB_ID_BASE,
            preamp::PREAMP_ID_BASE,
            reverb::REVERB_ID_BASE,
            ringmod::RINGMOD_ID_BASE,
            shelving_eq::SHELVING_EQ_ID_BASE,
            spring_reverb::SPRING_REVERB_ID_BASE,
            stage::STAGE_ID_BASE,
            stereo_widener::STEREO_WIDENER_ID_BASE,
            tape::TAPE_ID_BASE,
            texture::TEXTURE_ID_BASE,
            time_stretch::TIME_STRETCH_ID_BASE,
            transient_shaper::TRANSIENT_SHAPER_ID_BASE,
            tremolo::TREMOLO_ID_BASE,
            tuner::TUNER_ID_BASE,
            wah::WAH_ID_BASE,
            limiter::LIMITER_ID_BASE,
        ].no_duplicates(),
{
    let s = seq![
        multiband_comp::MULTIBAND_COMP_ID_BASE,
        phaser::PHASER_ID_BASE,
        plate_reverb::PLATE_REVERB_ID_BASE,
        preamp::PREAMP_ID_BASE,
        reverb::REVERB_ID_BASE,
        ringmod::RINGMOD_ID_BASE,
        shelving_eq::SHELVING_EQ_ID_BASE,
        spring_reverb::SPRING_REVERB_ID_BASE,
        stage::STAGE_ID_BASE,
        stereo_widener::STEREO_WIDENER_ID_BASE,
        tape::TAPE_ID_BASE,
        texture::TEXTURE_ID_BASE,
        time_stretch::TIME_STRETCH_ID_BASE,
        transient_shaper::TRANSIENT_SHAPER_ID_BASE,
        tremolo::TREMOLO_ID_BASE,
        tuner::TUNER_ID_BASE,
        wah::WAH_ID_BASE,
        limiter::LIMITER_ID_BASE,
    ];
    assert forall|i: int, j: int| 0 <= i < s.len() && 0 <= j < s.len() && i != j implies s[i] != s[j] by {
        assert(s[i] % 100 == 0 && s[j] % 100 == 0);
    }
}

} // verus!
