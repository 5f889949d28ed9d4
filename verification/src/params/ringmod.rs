//! Parameter table of the ring modulator.

use vstd::prelude::*;
use super::{id_ends_with, labels_view, opt_view, range_ordered, whole_f32_bits, LabelSpec, ParamId, ParamInfo, ParamRange, ParamScale, ParamUnit, SmoothingStyle, StepLabels};

verus! {

/// Number of ring modulator parameters.
pub const RINGMOD_PARAM_COUNT: usize = 5;

/// First identifier of the ring modulator's block of parameter ids.
pub const RINGMOD_ID_BASE: u32 = 1800;

/// Host identifier of ring modulator parameter `index` (0 outside the table).
pub open spec fn ringmod_param_id(index: int) -> u32 {
    if index == 0 {
        1800
    } else if index == 1 {
        1801
    } else if index == 2 {
        1802
    } else if index == 3 {
        1803
    } else if index == 4 {
        1804
    } else {
        0
    }
}

/// Stable string identifier of ring modulator parameter `index` (empty outside the table).
pub open spec fn ringmod_string_id(index: int) -> Seq<char> {
    if index == 0 {
        "ring_freq"@
    } else if index == 1 {
        "ring_depth"@
    } else if index == 2 {
        "ring_wave"@
    } else if index == 3 {
        "ring_mix"@
    } else if index == 4 {
        "ring_output"@
    } else {
        Seq::empty()
    }
}

/// Display name of ring modulator parameter `index`, where this table fixes it.
pub open spec fn ringmod_name(index: int) -> Option<Seq<char>> {
    if index == 0 {
        Some("Frequency"@)
    } else if index == 1 {
        None
    } else if index == 2 {
        Some("Waveform"@)
    } else if index == 3 {
        None
    } else if index == 4 {
        Some("Output"@)
    } else {
        None
    }
}

/// Short display name of ring modulator parameter `index`, where this table fixes it.
pub open spec fn ringmod_short_name(index: int) -> Option<Seq<char>> {
    if index == 0 {
        Some("Freq"@)
    } else if index == 1 {
        None
    } else if index == 2 {
        Some("Wave"@)
    } else if index == 3 {
        None
    } else if index == 4 {
        None
    } else {
        None
    }
}

/// Range and default of ring modulator parameter `index` as `f32` bit patterns, where
/// this table fixes them.
pub open spec fn ringmod_range(index: int) -> Option<ParamRange> {
    if index == 0 {
        Some(ParamRange { min: 0x41A0_0000, max: 0x44FA_0000, default: 0x435C_0000 })
    } else if index == 1 {
        None
    } else if index == 2 {
        Some(ParamRange { min: 0x0000_0000, max: 0x4000_0000, default: 0x0000_0000 })
    } else if index == 3 {
        None
    } else if index == 4 {
        None
    } else {
        None
    }
}

/// Step of ring modulator parameter `index` as an `f32` bit pattern, where this table
/// fixes it.
pub open spec fn ringmod_step(index: int) -> Option<u32> {
    if index == 0 {
        None
    } else if index == 1 {
        None
    } else if index == 2 {
        Some(0x3F80_0000)
    } else if index == 3 {
        None
    } else if index == 4 {
        None
    } else {
        None
    }
}

/// Descriptor default of ring modulator parameter `index` as an `f32` bit pattern,
/// where this table fixes it (also where the range comes from a preset).
pub open spec fn ringmod_default(index: int) -> Option<u32> {
    if index == 0 {
        Some(0x435C_0000)
    } else if index == 1 {
        None
    } else if index == 2 {
        Some(0x0000_0000)
    } else if index == 3 {
        None
    } else if index == 4 {
        Some(0x0000_0000)
    } else {
        None
    }
}

/// Unit of ring modulator parameter `index`, where this table fixes it.
pub open spec fn ringmod_unit(index: int) -> Option<ParamUnit> {
    if index == 0 {
        Some(ParamUnit::Hertz)
    } else if index == 1 {
        None
    } else if index == 2 {
        None
    } else if index == 3 {
        None
    } else if index == 4 {
        None
    } else {
        None
    }
}

/// Display scale of ring modulator parameter `index`, where this table sets one.
pub open spec fn ringmod_scale(index: int) -> Option<ParamScale> {
    if index == 0 {
        Some(ParamScale::Logarithmic)
    } else if index == 1 {
        None
    } else if index == 2 {
        None
    } else if index == 3 {
        None
    } else if index == 4 {
        None
    } else {
        None
    }
}

/// Labels of the steps of ring modulator parameter `index`.
pub open spec fn ringmod_step_labels(index: int) -> LabelSpec {
    if index == 0 {
        LabelSpec::Unlabelled
    } else if index == 1 {
        LabelSpec::Unlabelled
    } else if index == 2 {
        LabelSpec::Listed(seq!["Sine"@, "Triangle"@, "Square"@])
    } else if index == 3 {
        LabelSpec::Unlabelled
    } else if index == 4 {
        LabelSpec::Unlabelled
    } else {
        LabelSpec::Unlabelled
    }
}

/// Value the ring modulator's parameter struct takes by default at `index`, as an
/// `f32` bit pattern (0 outside the table).
pub open spec fn ringmod_default_value(index: int) -> u32 {
    if index == 0 {
        0x435C_0000
    } else if index == 1 {
        0x42C8_0000
    } else if index == 2 {
        0x0000_0000
    } else if index == 3 {
        0x4248_0000
    } else if index == 4 {
        0x0000_0000
    } else {
        0
    }
}

/// Whether ring modulator parameter `index` is stepped (takes whole-step values).
pub open spec fn ringmod_stepped(index: int) -> bool {
    index == 2
}

/// Whether ring modulator parameter `index` is a read-only, hidden diagnostic.
pub open spec fn ringmod_read_only(index: int) -> bool {
    false
}

/// Smoothing style of ring modulator parameter `index`.
pub open spec fn ringmod_smoothing(index: int) -> SmoothingStyle {
    if index == 0 {
        SmoothingStyle::Fast
    } else if index == 1 {
        SmoothingStyle::Standard
    } else if index == 2 {
        SmoothingStyle::Snap
    } else if index == 3 {
        SmoothingStyle::Standard
    } else if index == 4 {
        SmoothingStyle::Standard
    } else {
        SmoothingStyle::Standard
    }
}

/// Parameter table of the ring modulator.
pub struct RingModParamTable;

impl RingModParamTable {
    /// Number of parameters.
    pub fn count() -> (r: usize)
        ensures
            r == RINGMOD_PARAM_COUNT,
    {
        RINGMOD_PARAM_COUNT
    }

    /// Descriptor of parameter `index`: `Some` exactly for the 5 parameters.
    pub fn descriptor(index: usize) -> (r: Option<ParamInfo>)
        ensures
            r is Some <==> index < RINGMOD_PARAM_COUNT,
            r matches Some(p) ==> {
                &&& p.id.0 == ringmod_param_id(index as int)
                &&& p.string_id@ == ringmod_string_id(index as int)
                &&& opt_view(p.name) == ringmod_name(index as int)
                &&& opt_view(p.short_name) == ringmod_short_name(index as int)
                &&& p.range == ringmod_range(index as int)
                &&& p.step == ringmod_step(index as int)
                &&& p.default == ringmod_default(index as int)
                &&& p.unit == ringmod_unit(index as int)
                &&& p.scale == ringmod_scale(index as int)
                &&& p.stepped == ringmod_stepped(index as int)
                &&& p.read_only == ringmod_read_only(index as int)
            },
    {
        match index {
            0 => Some(ParamInfo {
                id: ParamId(1800),
                string_id: "ring_freq",
                name: Some("Frequency"),
                short_name: Some("Freq"),
                range: Some(ParamRange { min: 0x41A0_0000 /* 20.0 */, max: 0x44FA_0000 /* 2000.0 */, default: 0x435C_0000 /* 220.0 */ }),
                step: None,
                default: Some(0x435C_0000 /* 220.0 */),
                unit: Some(ParamUnit::Hertz),
                scale: Some(ParamScale::Logarithmic),
                stepped: false,
                read_only: false,
            }),
            1 => Some(ParamInfo {
                id: ParamId(1801),
                string_id: "ring_depth",
                name: None,
                short_name: None,
                range: None,
                step: None,
                default: None,
                unit: None,
                scale: None,
                stepped: false,
                read_only: false,
            }),
            2 => Some(ParamInfo {
                id: ParamId(1802),
                string_id: "ring_wave",
                name: Some("Waveform"),
                short_name: Some("Wave"),
                range: Some(ParamRange { min: 0x0000_0000 /* 0.0 */, max: 0x4000_0000 /* 2.0 */, default: 0x0000_0000 /* 0.0 */ }),
                step: Some(0x3F80_0000 /* 1.0 */),
                default: Some(0x0000_0000 /* 0.0 */),
                unit: None,
                scale: None,
                stepped: true,
                read_only: false,
            }),
            3 => Some(ParamInfo {
                id: ParamId(1803),
                string_id: "ring_mix",
                name: None,
                short_name: None,
                range: None,
                step: None,
                default: None,
                unit: None,
                scale: None,
                stepped: false,
                read_only: false,
            }),
            4 => Some(ParamInfo {
                id: ParamId(1804),
                string_id: "ring_output",
                name: Some("Output"),
                short_name: None,
                range: None,
                step: None,
                default: Some(0x0000_0000 /* 0.0 */),
                unit: None,
                scale: None,
                stepped: false,
                read_only: false,
            }),
            _ => None,
        }
    }

    /// Labels of the steps of parameter `index`.
    pub fn step_labels(index: usize) -> (r: StepLabels)
        ensures
            labels_view(r) == ringmod_step_labels(index as int),
    {
        match index {
            2 => {
                let v = vec!["Sine", "Triangle", "Square"];
                assert(v@.map_values(|s: &'static str| s@) =~= seq!["Sine"@, "Triangle"@, "Square"@]);
                StepLabels::Listed(v)
            },
            _ => StepLabels::Unlabelled,
        }
    }

    /// Smoothing style of parameter `index` (`Standard` outside the table).
    pub fn smoothing(index: usize) -> (r: SmoothingStyle)
        ensures
            r == ringmod_smoothing(index as int),
    {
        match index {
            0 => SmoothingStyle::Fast,
            1 => SmoothingStyle::Standard,
            2 => SmoothingStyle::Snap,
            3 => SmoothingStyle::Standard,
            4 => SmoothingStyle::Standard,
            _ => SmoothingStyle::Standard,
        }
    }

    /// Default value of parameter `index` as an `f32` bit pattern: `Some`
    /// exactly for the 5 parameters.
    pub fn default_value(index: usize) -> (r: Option<u32>)
        ensures
            r is Some <==> index < RINGMOD_PARAM_COUNT,
            r matches Some(v) ==> v == ringmod_default_value(index as int),
    {
        match index {
            0 => Some(0x435C_0000), // 220.0 (freq_hz)
            1 => Some(0x42C8_0000), // 100.0 (depth_pct)
            2 => Some(0x0000_0000), // 0.0 (waveform)
            3 => Some(0x4248_0000), // 50.0 (mix_pct)
            4 => Some(0x0000_0000), // 0.0 (output_db)
            _ => None,
        }
    }
}

/// The parameter struct's default value agrees with the descriptor's default
/// wherever this table fixes one, and lies inside the range wherever this table
/// fixes a range.
pub proof fn lemma_ringmod_defaults_match_descriptors()
    ensures
        forall|i: int|
            0 <= i < RINGMOD_PARAM_COUNT ==> (#[trigger] ringmod_range(i) matches Some(r) ==> r.default
                == ringmod_default_value(i) && range_ordered(r)),
        forall|i: int|
            0 <= i < RINGMOD_PARAM_COUNT ==> (#[trigger] ringmod_default(i) matches Some(d) ==> d
                == ringmod_default_value(i)),
{
}

/// The ring modulator's parameter ids are pairwise distinct and all lie in its block
/// `1800..1900`.
pub proof fn lemma_ringmod_ids_unique()
    ensures
        forall|i: int, j: int|
            0 <= i < RINGMOD_PARAM_COUNT && 0 <= j < RINGMOD_PARAM_COUNT && i != j ==> ringmod_param_id(i)
                != ringmod_param_id(j),
        forall|i: int|
            0 <= i < RINGMOD_PARAM_COUNT ==> RINGMOD_ID_BASE <= #[trigger] ringmod_param_id(i) < RINGMOD_ID_BASE + 100,
{
}

/// Every range this table fixes is ordered, `min <= default <= max`, its default
/// is the descriptor default, and every step it fixes is positive.
pub proof fn lemma_ringmod_ranges_ordered()
    ensures
        forall|i: int|
            0 <= i < RINGMOD_PARAM_COUNT ==> (#[trigger] ringmod_range(i) matches Some(r) ==> range_ordered(r)
                && ringmod_default(i) == Some(r.default)),
        forall|i: int|
            0 <= i < RINGMOD_PARAM_COUNT ==> (#[trigger] ringmod_step(i) matches Some(s) ==> crate::order::sign_magnitude(s) > 0),
{
}

/// Stepped and read-only ring modulator parameters are never smoothed: the adapter
/// snaps them to each new value.
pub proof fn lemma_ringmod_discrete_params_snap()
    ensures
        forall|i: int|
            0 <= i < RINGMOD_PARAM_COUNT && (ringmod_stepped(i) || ringmod_read_only(i)) ==> #[trigger] ringmod_smoothing(i)
                == SmoothingStyle::Snap,
{
}

/// What a parameter's string id names fixes how it is shown: ids ending in `freq` name frequencies in hertz on a logarithmic scale, ids ending in `output` name output levels, where the table fixes their range, in decibels.
pub proof fn lemma_ringmod_units_follow_ids()
    ensures
        forall|i: int|
            0 <= i < RINGMOD_PARAM_COUNT && id_ends_with(#[trigger] ringmod_string_id(i), "freq"@) ==> ringmod_unit(i) == Some(ParamUnit::Hertz) && ringmod_scale(i) == Some(ParamScale::Logarithmic),
        forall|i: int|
            0 <= i < RINGMOD_PARAM_COUNT && id_ends_with(#[trigger] ringmod_string_id(i), "output"@) ==> (ringmod_range(i) is Some ==> ringmod_unit(i) == Some(ParamUnit::Decibels)),
{
    reveal_strlit("freq");
    reveal_strlit("output");
    reveal_strlit("ring_freq");
    reveal_strlit("ring_depth");
    reveal_strlit("ring_wave");
    reveal_strlit("ring_mix");
    reveal_strlit("ring_output");
    assert(!id_ends_with(ringmod_string_id(1), "freq"@)) by {
        assert(ringmod_string_id(1).subrange(6, 10)[0] == 'e');
    }
    assert(!id_ends_with(ringmod_string_id(2), "freq"@)) by {
        assert(ringmod_string_id(2).subrange(5, 9)[0] == 'w');
    }
    assert(!id_ends_with(ringmod_string_id(3), "freq"@)) by {
        assert(ringmod_string_id(3).subrange(4, 8)[0] == '_');
    }
    assert(!id_ends_with(ringmod_string_id(4), "freq"@)) by {
        assert(ringmod_string_id(4).subrange(7, 11)[0] == 't');
    }
    assert(!id_ends_with(ringmod_string_id(0), "output"@)) by {
        assert(ringmod_string_id(0).subrange(3, 9)[0] == 'g');
    }
    assert(!id_ends_with(ringmod_string_id(1), "output"@)) by {
        assert(ringmod_string_id(1).subrange(4, 10)[0] == '_');
    }
    assert(!id_ends_with(ringmod_string_id(2), "output"@)) by {
        assert(ringmod_string_id(2).subrange(3, 9)[0] == 'g');
    }
    assert(!id_ends_with(ringmod_string_id(3), "output"@)) by {
        assert(ringmod_string_id(3).subrange(2, 8)[0] == 'n');
    }
}

/// Every ring modulator parameter in hertz whose range starts at an audible frequency
/// (20 Hz or more) is shown on a logarithmic scale.
pub proof fn lemma_ringmod_audio_frequencies_logarithmic()
    ensures
        forall|i: int|
            0 <= i < RINGMOD_PARAM_COUNT && #[trigger] ringmod_unit(i) == Some(ParamUnit::Hertz) && (ringmod_range(i) matches Some(r)
                && 0x41A0_0000 <= r.min < 0x8000_0000) ==> ringmod_scale(i) == Some(ParamScale::Logarithmic),
{
}

/// The labels of a ring modulator parameter name its steps: a listed label per whole
/// step from 0 (step 1.0), the framework's twelve note divisions for a division
/// index; and an on/off toggle reads "Off" at step 0 and "On" at step 1 and
/// starts off.
pub proof fn lemma_ringmod_labels_name_steps()
    ensures
        forall|i: int|
            0 <= i < RINGMOD_PARAM_COUNT ==> (#[trigger] ringmod_step_labels(i) matches LabelSpec::Listed(l) ==> ringmod_stepped(i)
                && ringmod_step(i) == Some(0x3F80_0000u32) && (ringmod_range(i) matches Some(r) && r.min == 0
                && r.max == whole_f32_bits(l.len() - 1)) && l.no_duplicates()),
        forall|i: int|
            0 <= i < RINGMOD_PARAM_COUNT && #[trigger] ringmod_step_labels(i) is NoteDivisions ==> ringmod_stepped(i)
                && ringmod_step(i) == Some(0x3F80_0000u32) && (ringmod_range(i) matches Some(r) && r.min == 0
                && r.max == whole_f32_bits(11)),
        forall|i: int|
            0 <= i < RINGMOD_PARAM_COUNT ==> (#[trigger] ringmod_step_labels(i) matches LabelSpec::Listed(l) ==> (l.contains("On"@)
                ==> l == seq!["Off"@, "On"@] && (ringmod_range(i) matches Some(r) && r.default == 0))),
{
    reveal_strlit("On");
    reveal_strlit("Off");
    assert("Off"@.len() != "On"@.len());
    reveal_strlit("Sine");
    assert("Sine"@.len() != "On"@.len());
    reveal_strlit("Triangle");
    assert("Triangle"@.len() != "On"@.len());
    reveal_strlit("Square");
    assert("Square"@.len() != "On"@.len());
    assert(ringmod_step_labels(2) matches LabelSpec::Listed(l) && !l.contains("On"@));
    assert("Sine"@.len() != "Triangle"@.len());
    assert("Sine"@.len() != "Square"@.len());
    assert("Triangle"@.len() != "Square"@.len());
}

/// Every ring modulator parameter that labels its steps is stepped.
pub proof fn lemma_ringmod_labelled_params_stepped()
    ensures
        forall|i: int|
            0 <= i < RINGMOD_PARAM_COUNT && !(#[trigger] ringmod_step_labels(i) is Unlabelled) ==> ringmod_stepped(i),
{
}

} // verus!
