//! Parameter table of the time stretch.

use vstd::prelude::*;
use super::{id_ends_with, labels_view, opt_view, range_ordered, whole_f32_bits, LabelSpec, ParamId, ParamInfo, ParamRange, ParamScale, ParamUnit, SmoothingStyle, StepLabels};

verus! {

/// Number of time stretch parameters.
pub const TIME_STRETCH_PARAM_COUNT: usize = 8;

/// First identifier of the time stretch's block of parameter ids.
pub const TIME_STRETCH_ID_BASE: u32 = 3600;

/// Host identifier of time stretch parameter `index` (0 outside the table).
pub open spec fn time_stretch_param_id(index: int) -> u32 {
    if index == 0 {
        3600
    } else if index == 1 {
        3601
    } else if index == 2 {
        3602
    } else if index == 3 {
        3603
    } else if index == 4 {
        3604
    } else if index == 5 {
        3605
    } else if index == 6 {
        3606
    } else if index == 7 {
        3607
    } else {
        0
    }
}

/// Stable string identifier of time stretch parameter `index` (empty outside the table).
pub open spec fn time_stretch_string_id(index: int) -> Seq<char> {
    if index == 0 {
        "ts_time_ratio"@
    } else if index == 1 {
        "ts_pitch_ratio"@
    } else if index == 2 {
        "ts_grain_size"@
    } else if index == 3 {
        "ts_density"@
    } else if index == 4 {
        "ts_randomize"@
    } else if index == 5 {
        "ts_freeze"@
    } else if index == 6 {
        "ts_sync"@
    } else if index == 7 {
        "ts_output"@
    } else {
        Seq::empty()
    }
}

/// Display name of time stretch parameter `index`, where this table fixes it.
pub open spec fn time_stretch_name(index: int) -> Option<Seq<char>> {
    if index == 0 {
        Some("Time Ratio"@)
    } else if index == 1 {
        Some("Pitch Ratio"@)
    } else if index == 2 {
        Some("Grain Size"@)
    } else if index == 3 {
        Some("Density"@)
    } else if index == 4 {
        Some("Randomize"@)
    } else if index == 5 {
        Some("Freeze"@)
    } else if index == 6 {
        Some("Sync"@)
    } else if index == 7 {
        Some("Output"@)
    } else {
        None
    }
}

/// Short display name of time stretch parameter `index`, where this table fixes it.
pub open spec fn time_stretch_short_name(index: int) -> Option<Seq<char>> {
    if index == 0 {
        Some("Time"@)
    } else if index == 1 {
        Some("Pitch"@)
    } else if index == 2 {
        Some("Grain"@)
    } else if index == 3 {
        Some("Density"@)
    } else if index == 4 {
        Some("Random"@)
    } else if index == 5 {
        Some("Freeze"@)
    } else if index == 6 {
        Some("Sync"@)
    } else if index == 7 {
        Some("Out"@)
    } else {
        None
    }
}

/// Range and default of time stretch parameter `index` as `f32` bit patterns, where
/// this table fixes them.
pub open spec fn time_stretch_range(index: int) -> Option<ParamRange> {
    if index == 0 {
        Some(ParamRange { min: 0x3E80_0000, max: 0x4080_0000, default: 0x3F80_0000 })
    } else if index == 1 {
        Some(ParamRange { min: 0x3E80_0000, max: 0x4080_0000, default: 0x3F80_0000 })
    } else if index == 2 {
        Some(ParamRange { min: 0x4120_0000, max: 0x42C8_0000, default: 0x4248_0000 })
    } else if index == 3 {
        None
    } else if index == 4 {
        None
    } else if index == 5 {
        Some(ParamRange { min: 0x0000_0000, max: 0x3F80_0000, default: 0x0000_0000 })
    } else if index == 6 {
        Some(ParamRange { min: 0x0000_0000, max: 0x3F80_0000, default: 0x0000_0000 })
    } else if index == 7 {
        Some(ParamRange { min: 0xC270_0000, max: 0x40C0_0000, default: 0x0000_0000 })
    } else {
        None
    }
}

/// Step of time stretch parameter `index` as an `f32` bit pattern, where this table
/// fixes it.
pub open spec fn time_stretch_step(index: int) -> Option<u32> {
    if index == 0 {
        None
    } else if index == 1 {
        None
    } else if index == 2 {
        None
    } else if index == 3 {
        None
    } else if index == 4 {
        None
    } else if index == 5 {
        Some(0x3F80_0000)
    } else if index == 6 {
        Some(0x3F80_0000)
    } else if index == 7 {
        None
    } else {
        None
    }
}

/// Descriptor default of time stretch parameter `index` as an `f32` bit pattern,
/// where this table fixes it (also where the range comes from a preset).
pub open spec fn time_stretch_default(index: int) -> Option<u32> {
    if index == 0 {
        Some(0x3F80_0000)
    } else if index == 1 {
        Some(0x3F80_0000)
    } else if index == 2 {
        Some(0x4248_0000)
    } else if index == 3 {
        None
    } else if index == 4 {
        Some(0x41A0_0000)
    } else if index == 5 {
        Some(0x0000_0000)
    } else if index == 6 {
        Some(0x0000_0000)
    } else if index == 7 {
        Some(0x0000_0000)
    } else {
        None
    }
}

/// Unit of time stretch parameter `index`, where this table fixes it.
pub open spec fn time_stretch_unit(index: int) -> Option<ParamUnit> {
    if index == 0 {
        Some(ParamUnit::Unitless)
    } else if index == 1 {
        Some(ParamUnit::Unitless)
    } else if index == 2 {
        Some(ParamUnit::Milliseconds)
    } else if index == 3 {
        None
    } else if index == 4 {
        None
    } else if index == 5 {
        Some(ParamUnit::Unitless)
    } else if index == 6 {
        Some(ParamUnit::Unitless)
    } else if index == 7 {
        Some(ParamUnit::Decibels)
    } else {
        None
    }
}

/// Display scale of time stretch parameter `index`, where this table sets one.
pub open spec fn time_stretch_scale(index: int) -> Option<ParamScale> {
    None
}

/// Labels of the steps of time stretch parameter `index`.
pub open spec fn time_stretch_step_labels(index: int) -> LabelSpec {
    if index == 0 {
        LabelSpec::Unlabelled
    } else if index == 1 {
        LabelSpec::Unlabelled
    } else if index == 2 {
        LabelSpec::Unlabelled
    } else if index == 3 {
        LabelSpec::Unlabelled
    } else if index == 4 {
        LabelSpec::Unlabelled
    } else if index == 5 {
        LabelSpec::Listed(seq!["Off"@, "On"@])
    } else if index == 6 {
        LabelSpec::Listed(seq!["Off"@, "On"@])
    } else if index == 7 {
        LabelSpec::Unlabelled
    } else {
        LabelSpec::Unlabelled
    }
}

/// Value the time stretch's parameter struct takes by default at `index`, as an
/// `f32` bit pattern (0 outside the table).
pub open spec fn time_stretch_default_value(index: int) -> u32 {
    if index == 0 {
        0x3F80_0000
    } else if index == 1 {
        0x3F80_0000
    } else if index == 2 {
        0x4248_0000
    } else if index == 3 {
        0x4248_0000
    } else if index == 4 {
        0x41A0_0000
    } else if index == 5 {
        0x0000_0000
    } else if index == 6 {
        0x0000_0000
    } else if index == 7 {
        0x0000_0000
    } else {
        0
    }
}

/// Whether time stretch parameter `index` is stepped (takes whole-step values).
pub open spec fn time_stretch_stepped(index: int) -> bool {
    index == 5 || index == 6
}

/// Whether time stretch parameter `index` is a read-only, hidden diagnostic.
pub open spec fn time_stretch_read_only(index: int) -> bool {
    false
}

/// Smoothing style of time stretch parameter `index`.
pub open spec fn time_stretch_smoothing(index: int) -> SmoothingStyle {
    if index == 0 {
        SmoothingStyle::Interpolated
    } else if index == 1 {
        SmoothingStyle::Interpolated
    } else if index == 2 {
        SmoothingStyle::Slow
    } else if index == 3 {
        SmoothingStyle::Standard
    } else if index == 4 {
        SmoothingStyle::Standard
    } else if index == 5 {
        SmoothingStyle::Snap
    } else if index == 6 {
        SmoothingStyle::Snap
    } else if index == 7 {
        SmoothingStyle::Fast
    } else {
        SmoothingStyle::Standard
    }
}

/// Parameter table of the time stretch.
pub struct TimeStretchParamTable;

impl TimeStretchParamTable {
    /// Number of parameters.
    pub fn count() -> (r: usize)
        ensures
            r == TIME_STRETCH_PARAM_COUNT,
    {
        TIME_STRETCH_PARAM_COUNT
    }

    /// Descriptor of parameter `index`: `Some` exactly for the 8 parameters.
    pub fn descriptor(index: usize) -> (r: Option<ParamInfo>)
        ensures
            r is Some <==> index < TIME_STRETCH_PARAM_COUNT,
            r matches Some(p) ==> {
                &&& p.id.0 == time_stretch_param_id(index as int)
                &&& p.string_id@ == time_stretch_string_id(index as int)
                &&& opt_view(p.name) == time_stretch_name(index as int)
                &&& opt_view(p.short_name) == time_stretch_short_name(index as int)
                &&& p.range == time_stretch_range(index as int)
                &&& p.step == time_stretch_step(index as int)
                &&& p.default == time_stretch_default(index as int)
                &&& p.unit == time_stretch_unit(index as int)
                &&& p.scale == time_stretch_scale(index as int)
                &&& p.stepped == time_stretch_stepped(index as int)
                &&& p.read_only == time_stretch_read_only(index as int)
            },
    {
        match index {
            0 => Some(ParamInfo {
                id: ParamId(3600),
                string_id: "ts_time_ratio",
                name: Some("Time Ratio"),
                short_name: Some("Time"),
                range: Some(ParamRange { min: 0x3E80_0000 /* 0.25 */, max: 0x4080_0000 /* 4.0 */, default: 0x3F80_0000 /* 1.0 */ }),
                step: None,
                default: Some(0x3F80_0000 /* 1.0 */),
                unit: Some(ParamUnit::Unitless),
                scale: None,
                stepped: false,
                read_only: false,
            }),
            1 => Some(ParamInfo {
                id: ParamId(3601),
                string_id: "ts_pitch_ratio",
                name: Some("Pitch Ratio"),
                short_name: Some("Pitch"),
                range: Some(ParamRange { min: 0x3E80_0000 /* 0.25 */, max: 0x4080_0000 /* 4.0 */, default: 0x3F80_0000 /* 1.0 */ }),
                step: None,
                default: Some(0x3F80_0000 /* 1.0 */),
                unit: Some(ParamUnit::Unitless),
                scale: None,
                stepped: false,
                read_only: false,
            }),
            2 => Some(ParamInfo {
                id: ParamId(3602),
                string_id: "ts_grain_size",
                name: Some("Grain Size"),
                short_name: Some("Grain"),
                range: Some(ParamRange { min: 0x4120_0000 /* 10.0 */, max: 0x42C8_0000 /* 100.0 */, default: 0x4248_0000 /* 50.0 */ }),
                step: None,
                default: Some(0x4248_0000 /* 50.0 */),
                unit: Some(ParamUnit::Milliseconds),
                scale: None,
                stepped: false,
                read_only: false,
            }),
            3 => Some(ParamInfo {
                id: ParamId(3603),
                string_id: "ts_density",
                name: Some("Density"),
                short_name: Some("Density"),
                range: None,
                step: None,
                default: None,
                unit: None,
                scale: None,
                stepped: false,
                read_only: false,
            }),
            4 => Some(ParamInfo {
                id: ParamId(3604),
                string_id: "ts_randomize",
                name: Some("Randomize"),
                short_name: Some("Random"),
                range: None,
                step: None,
                default: Some(0x41A0_0000 /* 20.0 */),
                unit: None,
                scale: None,
                stepped: false,
                read_only: false,
            }),
            5 => Some(ParamInfo {
                id: ParamId(3605),
                string_id: "ts_freeze",
                name: Some("Freeze"),
                short_name: Some("Freeze"),
                range: Some(ParamRange { min: 0x0000_0000 /* 0.0 */, max: 0x3F80_0000 /* 1.0 */, default: 0x0000_0000 /* 0.0 */ }),
                step: Some(0x3F80_0000 /* 1.0 */),
                default: Some(0x0000_0000 /* 0.0 */),
                unit: Some(ParamUnit::Unitless),
                scale: None,
                stepped: true,
                read_only: false,
            }),
            6 => Some(ParamInfo {
                id: ParamId(3606),
                string_id: "ts_sync",
                name: Some("Sync"),
                short_name: Some("Sync"),
                range: Some(ParamRange { min: 0x0000_0000 /* 0.0 */, max: 0x3F80_0000 /* 1.0 */, default: 0x0000_0000 /* 0.0 */ }),
                step: Some(0x3F80_0000 /* 1.0 */),
                default: Some(0x0000_0000 /* 0.0 */),
                unit: Some(ParamUnit::Unitless),
                scale: None,
                stepped: true,
                read_only: false,
            }),
            7 => Some(ParamInfo {
                id: ParamId(3607),
                string_id: "ts_output",
                name: Some("Output"),
                short_name: Some("Out"),
                range: Some(ParamRange { min: 0xC270_0000 /* -60.0 */, max: 0x40C0_0000 /* 6.0 */, default: 0x0000_0000 /* 0.0 */ }),
                step: None,
                default: Some(0x0000_0000 /* 0.0 */),
                unit: Some(ParamUnit::Decibels),
                scale: None,
                stepped: false,
                read_only: false,
            }),
            _ => None,
        }
    }

    /// Labels of the steps of parameter `index`.
    pub fn step_labels(index: usize) -> (r: StepLabels)
        ensures
            labels_view(r) == time_stretch_step_labels(index as int),
    {
        match index {
            5 => {
                let v = vec!["Off", "On"];
                assert(v@.map_values(|s: &'static str| s@) =~= seq!["Off"@, "On"@]);
                StepLabels::Listed(v)
            },
            6 => {
                let v = vec!["Off", "On"];
                assert(v@.map_values(|s: &'static str| s@) =~= seq!["Off"@, "On"@]);
                StepLabels::Listed(v)
            },
            _ => StepLabels::Unlabelled,
        }
    }

    /// Smoothing style of parameter `index` (`Standard` outside the table).
    pub fn smoothing(index: usize) -> (r: SmoothingStyle)
        ensures
            r == time_stretch_smoothing(index as int),
    {
        match index {
            0 => SmoothingStyle::Interpolated,
            1 => SmoothingStyle::Interpolated,
            2 => SmoothingStyle::Slow,
            3 => SmoothingStyle::Standard,
            4 => SmoothingStyle::Standard,
            5 => SmoothingStyle::Snap,
            6 => SmoothingStyle::Snap,
            7 => SmoothingStyle::Fast,
            _ => SmoothingStyle::Standard,
        }
    }

    /// Default value of parameter `index` as an `f32` bit pattern: `Some`
    /// exactly for the 8 parameters.
    pub fn default_value(index: usize) -> (r: Option<u32>)
        ensures
            r is Some <==> index < TIME_STRETCH_PARAM_COUNT,
            r matches Some(v) ==> v == time_stretch_default_value(index as int),
    {
        match index {
            0 => Some(0x3F80_0000), // 1.0 (time_ratio)
            1 => Some(0x3F80_0000), // 1.0 (pitch_ratio)
            2 => Some(0x4248_0000), // 50.0 (grain_size)
            3 => Some(0x4248_0000), // 50.0 (density)
            4 => Some(0x41A0_0000), // 20.0 (randomize)
            5 => Some(0x0000_0000), // 0.0 (freeze)
            6 => Some(0x0000_0000), // 0.0 (sync)
            7 => Some(0x0000_0000), // 0.0 (output_db)
            _ => None,
        }
    }
}

/// The parameter struct's default value agrees with the descriptor's default
/// wherever this table fixes one, and lies inside the range wherever this table
/// fixes a range.
pub proof fn lemma_time_stretch_defaults_match_descriptors()
    ensures
        forall|i: int|
            0 <= i < TIME_STRETCH_PARAM_COUNT ==> (#[trigger] time_stretch_range(i) matches Some(r) ==> r.default
                == time_stretch_default_value(i) && range_ordered(r)),
        forall|i: int|
            0 <= i < TIME_STRETCH_PARAM_COUNT ==> (#[trigger] time_stretch_default(i) matches Some(d) ==> d
                == time_stretch_default_value(i)),
{
}

/// The time stretch's parameter ids are pairwise distinct and all lie in its block
/// `3600..3700`.
pub proof fn lemma_time_stretch_ids_unique()
    ensures
        forall|i: int, j: int|
            0 <= i < TIME_STRETCH_PARAM_COUNT && 0 <= j < TIME_STRETCH_PARAM_COUNT && i != j ==> time_stretch_param_id(i)
                != time_stretch_param_id(j),
        forall|i: int|
            0 <= i < TIME_STRETCH_PARAM_COUNT ==> TIME_STRETCH_ID_BASE <= #[trigger] time_stretch_param_id(i) < TIME_STRETCH_ID_BASE + 100,
{
}

/// Every range this table fixes is ordered, `min <= default <= max`, its default
/// is the descriptor default, and every step it fixes is positive.
pub proof fn lemma_time_stretch_ranges_ordered()
    ensures
        forall|i: int|
            0 <= i < TIME_STRETCH_PARAM_COUNT ==> (#[trigger] time_stretch_range(i) matches Some(r) ==> range_ordered(r)
                && time_stretch_default(i) == Some(r.default)),
        forall|i: int|
            0 <= i < TIME_STRETCH_PARAM_COUNT ==> (#[trigger] time_stretch_step(i) matches Some(s) ==> crate::order::sign_magnitude(s) > 0),
{
}

/// Stepped and read-only time stretch parameters are never smoothed: the adapter
/// snaps them to each new value.
pub proof fn lemma_time_stretch_discrete_params_snap()
    ensures
        forall|i: int|
            0 <= i < TIME_STRETCH_PARAM_COUNT && (time_stretch_stepped(i) || time_stretch_read_only(i)) ==> #[trigger] time_stretch_smoothing(i)
                == SmoothingStyle::Snap,
{
}

/// What a parameter's string id names fixes how it is shown: ids ending in `output` name output levels, where the table fixes their range, in decibels.
pub proof fn lemma_time_stretch_units_follow_ids()
    ensures
        forall|i: int|
            0 <= i < TIME_STRETCH_PARAM_COUNT && id_ends_with(#[trigger] time_stretch_string_id(i), "output"@) ==> (time_stretch_range(i) is Some ==> time_stretch_unit(i) == Some(ParamUnit::Decibels)),
{
    reveal_strlit("output");
    reveal_strlit("ts_time_ratio");
    reveal_strlit("ts_pitch_ratio");
    reveal_strlit("ts_grain_size");
    reveal_strlit("ts_density");
    reveal_strlit("ts_randomize");
    reveal_strlit("ts_freeze");
    reveal_strlit("ts_sync");
    reveal_strlit("ts_output");
    assert(!id_ends_with(time_stretch_string_id(0), "output"@)) by {
        assert(time_stretch_string_id(0).subrange(7, 13)[0] == '_');
    }
    assert(!id_ends_with(time_stretch_string_id(1), "output"@)) by {
        assert(time_stretch_string_id(1).subrange(8, 14)[0] == '_');
    }
    assert(!id_ends_with(time_stretch_string_id(2), "output"@)) by {
        assert(time_stretch_string_id(2).subrange(7, 13)[0] == 'n');
    }
    assert(!id_ends_with(time_stretch_string_id(3), "output"@)) by {
        assert(time_stretch_string_id(3).subrange(4, 10)[0] == 'e');
    }
    assert(!id_ends_with(time_stretch_string_id(4), "output"@)) by {
        assert(time_stretch_string_id(4).subrange(6, 12)[0] == 'd');
    }
    assert(!id_ends_with(time_stretch_string_id(5), "output"@)) by {
        assert(time_stretch_string_id(5).subrange(3, 9)[0] == 'f');
    }
    assert(!id_ends_with(time_stretch_string_id(6), "output"@)) by {
        assert(time_stretch_string_id(6).subrange(1, 7)[0] == 's');
    }
}

/// The labels of a time stretch parameter name its steps: a listed label per whole
/// step from 0 (step 1.0), the framework's twelve note divisions for a division
/// index; and an on/off toggle reads "Off" at step 0 and "On" at step 1 and
/// starts off.
pub proof fn lemma_time_stretch_labels_name_steps()
    ensures
        forall|i: int|
            0 <= i < TIME_STRETCH_PARAM_COUNT ==> (#[trigger] time_stretch_step_labels(i) matches LabelSpec::Listed(l) ==> time_stretch_stepped(i)
                && time_stretch_step(i) == Some(0x3F80_0000u32) && (time_stretch_range(i) matches Some(r) && r.min == 0
                && r.max == whole_f32_bits(l.len() - 1)) && l.no_duplicates()),
        forall|i: int|
            0 <= i < TIME_STRETCH_PARAM_COUNT && #[trigger] time_stretch_step_labels(i) is NoteDivisions ==> time_stretch_stepped(i)
                && time_stretch_step(i) == Some(0x3F80_0000u32) && (time_stretch_range(i) matches Some(r) && r.min == 0
                && r.max == whole_f32_bits(11)),
        forall|i: int|
            0 <= i < TIME_STRETCH_PARAM_COUNT ==> (#[trigger] time_stretch_step_labels(i) matches LabelSpec::Listed(l) ==> (l.contains("On"@)
                ==> l == seq!["Off"@, "On"@] && (time_stretch_range(i) matches Some(r) && r.default == 0))),
{
    reveal_strlit("On");
    reveal_strlit("Off");
    assert("Off"@.len() != "On"@.len());
    assert("Off"@.len() != "On"@.len());
    assert("Off"@.len() != "On"@.len());
}

/// Every time stretch parameter that labels its steps is stepped.
pub proof fn lemma_time_stretch_labelled_params_stepped()
    ensures
        forall|i: int|
            0 <= i < TIME_STRETCH_PARAM_COUNT && !(#[trigger] time_stretch_step_labels(i) is Unlabelled) ==> time_stretch_stepped(i),
{
}

} // verus!
