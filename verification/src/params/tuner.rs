//! Parameter table of the tuner.

use vstd::prelude::*;
use super::{id_ends_with, labels_view, opt_view, range_ordered, whole_f32_bits, LabelSpec, ParamId, ParamInfo, ParamRange, ParamScale, ParamUnit, SmoothingStyle, StepLabels};

verus! {

/// Number of tuner parameters.
pub const TUNER_PARAM_COUNT: usize = 5;

/// First identifier of the tuner's block of parameter ids.
pub const TUNER_ID_BASE: u32 = 2300;

/// Host identifier of tuner parameter `index` (0 outside the table).
pub open spec fn tuner_param_id(index: int) -> u32 {
    if index == 0 {
        2300
    } else if index == 1 {
        2301
    } else if index == 2 {
        2302
    } else if index == 3 {
        2303
    } else if index == 4 {
        2304
    } else {
        0
    }
}

/// Stable string identifier of tuner parameter `index` (empty outside the table).
pub open spec fn tuner_string_id(index: int) -> Seq<char> {
    if index == 0 {
        "tuner_reference"@
    } else if index == 1 {
        "tuner_mute"@
    } else if index == 2 {
        "tuner_output"@
    } else if index == 3 {
        "tuner_detected_hz"@
    } else if index == 4 {
        "tuner_cents"@
    } else {
        Seq::empty()
    }
}

/// Display name of tuner parameter `index`, where this table fixes it.
pub open spec fn tuner_name(index: int) -> Option<Seq<char>> {
    if index == 0 {
        Some("Reference"@)
    } else if index == 1 {
        Some("Mute"@)
    } else if index == 2 {
        Some("Output"@)
    } else if index == 3 {
        Some("Detected Hz"@)
    } else if index == 4 {
        Some("Cents"@)
    } else {
        None
    }
}

/// Short display name of tuner parameter `index`, where this table fixes it.
pub open spec fn tuner_short_name(index: int) -> Option<Seq<char>> {
    if index == 0 {
        Some("Ref"@)
    } else if index == 1 {
        Some("Mute"@)
    } else if index == 2 {
        None
    } else if index == 3 {
        Some("Det Hz"@)
    } else if index == 4 {
        Some("Cents"@)
    } else {
        None
    }
}

/// Range and default of tuner parameter `index` as `f32` bit patterns, where
/// this table fixes them.
pub open spec fn tuner_range(index: int) -> Option<ParamRange> {
    if index == 0 {
        Some(ParamRange { min: 0x43CF_8000, max: 0x43E8_8000, default: 0x43DC_0000 })
    } else if index == 1 {
        Some(ParamRange { min: 0x0000_0000, max: 0x3F80_0000, default: 0x0000_0000 })
    } else if index == 2 {
        None
    } else if index == 3 {
        Some(ParamRange { min: 0x0000_0000, max: 0x459C_4000, default: 0x0000_0000 })
    } else if index == 4 {
        Some(ParamRange { min: 0xC248_0000, max: 0x4248_0000, default: 0x0000_0000 })
    } else {
        None
    }
}

/// Step of tuner parameter `index` as an `f32` bit pattern, where this table
/// fixes it.
pub open spec fn tuner_step(index: int) -> Option<u32> {
    if index == 0 {
        None
    } else if index == 1 {
        Some(0x3F80_0000)
    } else if index == 2 {
        None
    } else if index == 3 {
        None
    } else if index == 4 {
        None
    } else {
        None
    }
}

/// Descriptor default of tuner parameter `index` as an `f32` bit pattern,
/// where this table fixes it (also where the range comes from a preset).
pub open spec fn tuner_default(index: int) -> Option<u32> {
    if index == 0 {
        Some(0x43DC_0000)
    } else if index == 1 {
        Some(0x0000_0000)
    } else if index == 2 {
        Some(0x0000_0000)
    } else if index == 3 {
        Some(0x0000_0000)
    } else if index == 4 {
        Some(0x0000_0000)
    } else {
        None
    }
}

/// Unit of tuner parameter `index`, where this table fixes it.
pub open spec fn tuner_unit(index: int) -> Option<ParamUnit> {
    if index == 0 {
        Some(ParamUnit::Hertz)
    } else if index == 1 {
        Some(ParamUnit::Unitless)
    } else if index == 2 {
        None
    } else if index == 3 {
        Some(ParamUnit::Hertz)
    } else if index == 4 {
        Some(ParamUnit::Unitless)
    } else {
        None
    }
}

/// Display scale of tuner parameter `index`, where this table sets one.
pub open spec fn tuner_scale(index: int) -> Option<ParamScale> {
    if index == 0 {
        Some(ParamScale::Logarithmic)
    } else if index == 1 {
        None
    } else if index == 2 {
        None
    } else if index == 3 {
        None
    } else if index == 4 {
        None
    } else {
        None
    }
}

/// Labels of the steps of tuner parameter `index`.
pub open spec fn tuner_step_labels(index: int) -> LabelSpec {
    if index == 0 {
        LabelSpec::Unlabelled
    } else if index == 1 {
        LabelSpec::Listed(seq!["Off"@, "On"@])
    } else if index == 2 {
        LabelSpec::Unlabelled
    } else if index == 3 {
        LabelSpec::Unlabelled
    } else if index == 4 {
        LabelSpec::Unlabelled
    } else {
        LabelSpec::Unlabelled
    }
}

/// Value the tuner's parameter struct takes by default at `index`, as an
/// `f32` bit pattern (0 outside the table).
pub open spec fn tuner_default_value(index: int) -> u32 {
    if index == 0 {
        0x43DC_0000
    } else if index == 1 {
        0x0000_0000
    } else if index == 2 {
        0x0000_0000
    } else if index == 3 {
        0x0000_0000
    } else if index == 4 {
        0x0000_0000
    } else {
        0
    }
}

/// Whether tuner parameter `index` is stepped (takes whole-step values).
pub open spec fn tuner_stepped(index: int) -> bool {
    index == 1
}

/// Whether tuner parameter `index` is a read-only, hidden diagnostic.
pub open spec fn tuner_read_only(index: int) -> bool {
    index == 3 || index == 4
}

/// Smoothing style of tuner parameter `index`.
pub open spec fn tuner_smoothing(index: int) -> SmoothingStyle {
    if index == 0 {
        SmoothingStyle::Snap
    } else if index == 1 {
        SmoothingStyle::Snap
    } else if index == 2 {
        SmoothingStyle::Fast
    } else if index == 3 {
        SmoothingStyle::Snap
    } else if index == 4 {
        SmoothingStyle::Snap
    } else {
        SmoothingStyle::Standard
    }
}

/// Parameter table of the tuner.
pub struct TunerParamTable;

impl TunerParamTable {
    /// Number of parameters.
    pub fn count() -> (r: usize)
        ensures
            r == TUNER_PARAM_COUNT,
    {
        TUNER_PARAM_COUNT
    }

    /// Descriptor of parameter `index`: `Some` exactly for the 5 parameters.
    pub fn descriptor(index: usize) -> (r: Option<ParamInfo>)
        ensures
            r is Some <==> index < TUNER_PARAM_COUNT,
            r matches Some(p) ==> {
                &&& p.id.0 == tuner_param_id(index as int)
                &&& p.string_id@ == tuner_string_id(index as int)
                &&& opt_view(p.name) == tuner_name(index as int)
                &&& opt_view(p.short_name) == tuner_short_name(index as int)
                &&& p.range == tuner_range(index as int)
                &&& p.step == tuner_step(index as int)
                &&& p.default == tuner_default(index as int)
                &&& p.unit == tuner_unit(index as int)
                &&& p.scale == tuner_scale(index as int)
                &&& p.stepped == tuner_stepped(index as int)
                &&& p.read_only == tuner_read_only(index as int)
            },
    {
        match index {
            0 => Some(ParamInfo {
                id: ParamId(2300),
                string_id: "tuner_reference",
                name: Some("Reference"),
                short_name: Some("Ref"),
                range: Some(ParamRange { min: 0x43CF_8000 /* 415.0 */, max: 0x43E8_8000 /* 465.0 */, default: 0x43DC_0000 /* 440.0 */ }),
                step: None,
                default: Some(0x43DC_0000 /* 440.0 */),
                unit: Some(ParamUnit::Hertz),
                scale: Some(ParamScale::Logarithmic),
                stepped: false,
                read_only: false,
            }),
            1 => Some(ParamInfo {
                id: ParamId(2301),
                string_id: "tuner_mute",
                name: Some("Mute"),
                short_name: Some("Mute"),
                range: Some(ParamRange { min: 0x0000_0000 /* 0.0 */, max: 0x3F80_0000 /* 1.0 */, default: 0x0000_0000 /* 0.0 */ }),
                step: Some(0x3F80_0000 /* 1.0 */),
                default: Some(0x0000_0000 /* 0.0 */),
                unit: Some(ParamUnit::Unitless),
                scale: None,
                stepped: true,
                read_only: false,
            }),
            2 => Some(ParamInfo {
                id: ParamId(2302),
                string_id: "tuner_output",
                name: Some("Output"),
                short_name: None,
                range: None,
                step: None,
                default: Some(0x0000_0000 /* 0.0 */),
                unit: None,
                scale: None,
                stepped: false,
                read_only: false,
            }),
            3 => Some(ParamInfo {
                id: ParamId(2303),
                string_id: "tuner_detected_hz",
                name: Some("Detected Hz"),
                short_name: Some("Det Hz"),
                range: Some(ParamRange { min: 0x0000_0000 /* 0.0 */, max: 0x459C_4000 /* 5000.0 */, default: 0x0000_0000 /* 0.0 */ }),
                step: None,
                default: Some(0x0000_0000 /* 0.0 */),
                unit: Some(ParamUnit::Hertz),
                scale: None,
                stepped: false,
                read_only: true,
            }),
            4 => Some(ParamInfo {
                id: ParamId(2304),
                string_id: "tuner_cents",
                name: Some("Cents"),
                short_name: Some("Cents"),
                range: Some(ParamRange { min: 0xC248_0000 /* -50.0 */, max: 0x4248_0000 /* 50.0 */, default: 0x0000_0000 /* 0.0 */ }),
                step: None,
                default: Some(0x0000_0000 /* 0.0 */),
                unit: Some(ParamUnit::Unitless),
                scale: None,
                stepped: false,
                read_only: true,
            }),
            _ => None,
        }
    }

    /// Labels of the steps of parameter `index`.
    pub fn step_labels(index: usize) -> (r: StepLabels)
        ensures
            labels_view(r) == tuner_step_labels(index as int),
    {
        match index {
            1 => {
                let v = vec!["Off", "On"];
                assert(v@.map_values(|s: &'static str| s@) =~= seq!["Off"@, "On"@]);
                StepLabels::Listed(v)
            },
            _ => StepLabels::Unlabelled,
        }
    }

    /// Smoothing style of parameter `index` (`Standard` outside the table).
    pub fn smoothing(index: usize) -> (r: SmoothingStyle)
        ensures
            r == tuner_smoothing(index as int),
    {
        match index {
            0 => SmoothingStyle::Snap,
            1 => SmoothingStyle::Snap,
            2 => SmoothingStyle::Fast,
            3 => SmoothingStyle::Snap,
            4 => SmoothingStyle::Snap,
            _ => SmoothingStyle::Standard,
        }
    }

    /// Default value of parameter `index` as an `f32` bit pattern: `Some`
    /// exactly for the 5 parameters.
    pub fn default_value(index: usize) -> (r: Option<u32>)
        ensures
            r is Some <==> index < TUNER_PARAM_COUNT,
            r matches Some(v) ==> v == tuner_default_value(index as int),
    {
        match index {
            0 => Some(0x43DC_0000), // 440.0 (reference_hz)
            1 => Some(0x0000_0000), // 0.0 (mute)
            2 => Some(0x0000_0000), // 0.0 (output_db)
            3 => Some(0x0000_0000), // 0.0 (detected_hz)
            4 => Some(0x0000_0000), // 0.0 (cents)
            _ => None,
        }
    }
}

/// The parameter struct's default value agrees with the descriptor's default
/// wherever this table fixes one, and lies inside the range wherever this table
/// fixes a range.
pub proof fn lemma_tuner_defaults_match_descriptors()
    ensures
        forall|i: int|
            0 <= i < TUNER_PARAM_COUNT ==> (#[trigger] tuner_range(i) matches Some(r) ==> r.default
                == tuner_default_value(i) && range_ordered(r)),
        forall|i: int|
            0 <= i < TUNER_PARAM_COUNT ==> (#[trigger] tuner_default(i) matches Some(d) ==> d
                == tuner_default_value(i)),
{
}

/// The tuner's parameter ids are pairwise distinct and all lie in its block
/// `2300..2400`.
pub proof fn lemma_tuner_ids_unique()
    ensures
        forall|i: int, j: int|
            0 <= i < TUNER_PARAM_COUNT && 0 <= j < TUNER_PARAM_COUNT && i != j ==> tuner_param_id(i)
                != tuner_param_id(j),
        forall|i: int|
            0 <= i < TUNER_PARAM_COUNT ==> TUNER_ID_BASE <= #[trigger] tuner_param_id(i) < TUNER_ID_BASE + 100,
{
}

/// Every range this table fixes is ordered, `min <= default <= max`, its default
/// is the descriptor default, and every step it fixes is positive.
pub proof fn lemma_tuner_ranges_ordered()
    ensures
        forall|i: int|
            0 <= i < TUNER_PARAM_COUNT ==> (#[trigger] tuner_range(i) matches Some(r) ==> range_ordered(r)
                && tuner_default(i) == Some(r.default)),
        forall|i: int|
            0 <= i < TUNER_PARAM_COUNT ==> (#[trigger] tuner_step(i) matches Some(s) ==> crate::order::sign_magnitude(s) > 0),
{
}

/// Stepped and read-only tuner parameters are never smoothed: the adapter
/// snaps them to each new value.
pub proof fn lemma_tuner_discrete_params_snap()
    ensures
        forall|i: int|
            0 <= i < TUNER_PARAM_COUNT && (tuner_stepped(i) || tuner_read_only(i)) ==> #[trigger] tuner_smoothing(i)
                == SmoothingStyle::Snap,
{
}

/// What a parameter's string id names fixes how it is shown: ids ending in `output` name output levels, where the table fixes their range, in decibels.
pub proof fn lemma_tuner_units_follow_ids()
    ensures
        forall|i: int|
            0 <= i < TUNER_PARAM_COUNT && id_ends_with(#[trigger] tuner_string_id(i), "output"@) ==> (tuner_range(i) is Some ==> tuner_unit(i) == Some(ParamUnit::Decibels)),
{
    reveal_strlit("output");
    reveal_strlit("tuner_reference");
    reveal_strlit("tuner_mute");
    reveal_strlit("tuner_output");
    reveal_strlit("tuner_detected_hz");
    reveal_strlit("tuner_cents");
    assert(!id_ends_with(tuner_string_id(0), "output"@)) by {
        assert(tuner_string_id(0).subrange(9, 15)[0] == 'e');
    }
    assert(!id_ends_with(tuner_string_id(1), "output"@)) by {
        assert(tuner_string_id(1).subrange(4, 10)[0] == 'r');
    }
    assert(!id_ends_with(tuner_string_id(3), "output"@)) by {
        assert(tuner_string_id(3).subrange(11, 17)[0] == 't');
    }
    assert(!id_ends_with(tuner_string_id(4), "output"@)) by {
        assert(tuner_string_id(4).subrange(5, 11)[0] == '_');
    }
}

/// Every tuner parameter in hertz whose range starts at an audible frequency
/// (20 Hz or more) is shown on a logarithmic scale.
pub proof fn lemma_tuner_audio_frequencies_logarithmic()
    ensures
        forall|i: int|
            0 <= i < TUNER_PARAM_COUNT && #[trigger] tuner_unit(i) == Some(ParamUnit::Hertz) && (tuner_range(i) matches Some(r)
                && 0x41A0_0000 <= r.min < 0x8000_0000) ==> tuner_scale(i) == Some(ParamScale::Logarithmic),
{
}

/// The labels of a tuner parameter name its steps: a listed label per whole
/// step from 0 (step 1.0), the framework's twelve note divisions for a division
/// index; and an on/off toggle reads "Off" at step 0 and "On" at step 1 and
/// starts off.
pub proof fn lemma_tuner_labels_name_steps()
    ensures
        forall|i: int|
            0 <= i < TUNER_PARAM_COUNT ==> (#[trigger] tuner_step_labels(i) matches LabelSpec::Listed(l) ==> tuner_stepped(i)
                && tuner_step(i) == Some(0x3F80_0000u32) && (tuner_range(i) matches Some(r) && r.min == 0
                && r.max == whole_f32_bits(l.len() - 1)) && l.no_duplicates()),
        forall|i: int|
            0 <= i < TUNER_PARAM_COUNT && #[trigger] tuner_step_labels(i) is NoteDivisions ==> tuner_stepped(i)
                && tuner_step(i) == Some(0x3F80_0000u32) && (tuner_range(i) matches Some(r) && r.min == 0
                && r.max == whole_f32_bits(11)),
        forall|i: int|
            0 <= i < TUNER_PARAM_COUNT ==> (#[trigger] tuner_step_labels(i) matches LabelSpec::Listed(l) ==> (l.contains("On"@)
                ==> l == seq!["Off"@, "On"@] && (tuner_range(i) matches Some(r) && r.default == 0))),
{
    reveal_strlit("On");
    reveal_strlit("Off");
    assert("Off"@.len() != "On"@.len());
    assert("Off"@.len() != "On"@.len());
}

/// Every tuner parameter that labels its steps is stepped.
pub proof fn lemma_tuner_labelled_params_stepped()
    ensures
        forall|i: int|
            0 <= i < TUNER_PARAM_COUNT && !(#[trigger] tuner_step_labels(i) is Unlabelled) ==> tuner_stepped(i),
{
}

} // verus!
