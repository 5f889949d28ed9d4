//! Parameter table of the preamp kernel.

use vstd::prelude::*;
use super::{id_ends_with, labels_view, opt_view, range_ordered, whole_f32_bits, LabelSpec, ParamId, ParamInfo, ParamRange, ParamScale, ParamUnit, SmoothingStyle, StepLabels};

verus! {

/// Number of preamp kernel parameters.
pub const PREAMP_PARAM_COUNT: usize = 3;

/// First identifier of the preamp kernel's block of parameter ids.
pub const PREAMP_ID_BASE: u32 = 100;

/// Host identifier of preamp kernel parameter `index` (0 outside the table).
pub open spec fn preamp_param_id(index: int) -> u32 {
    if index == 0 {
        100
    } else if index == 1 {
        101
    } else if index == 2 {
        102
    } else {
        0
    }
}

/// Stable string identifier of preamp kernel parameter `index` (empty outside the table).
pub open spec fn preamp_string_id(index: int) -> Seq<char> {
    if index == 0 {
        "pre_gain"@
    } else if index == 1 {
        "pre_tone"@
    } else if index == 2 {
        "pre_output"@
    } else {
        Seq::empty()
    }
}

/// Display name of preamp kernel parameter `index`, where this table fixes it.
pub open spec fn preamp_name(index: int) -> Option<Seq<char>> {
    if index == 0 {
        Some("Gain"@)
    } else if index == 1 {
        Some("Tone"@)
    } else if index == 2 {
        Some("Output"@)
    } else {
        None
    }
}

/// Short display name of preamp kernel parameter `index`, where this table fixes it.
pub open spec fn preamp_short_name(index: int) -> Option<Seq<char>> {
    if index == 0 {
        Some("Gain"@)
    } else if index == 1 {
        Some("Tone"@)
    } else if index == 2 {
        None
    } else {
        None
    }
}

/// Range and default of preamp kernel parameter `index` as `f32` bit patterns, where
/// this table fixes them.
pub open spec fn preamp_range(index: int) -> Option<ParamRange> {
    if index == 0 {
        Some(ParamRange { min: 0x0000_0000, max: 0x4220_0000, default: 0x0000_0000 })
    } else if index == 1 {
        Some(ParamRange { min: 0xC140_0000, max: 0x4140_0000, default: 0x0000_0000 })
    } else if index == 2 {
        None
    } else {
        None
    }
}

/// Step of preamp kernel parameter `index` as an `f32` bit pattern, where this table
/// fixes it.
pub open spec fn preamp_step(index: int) -> Option<u32> {
    if index == 0 {
        None
    } else if index == 1 {
        Some(0x3F00_0000)
    } else if index == 2 {
        None
    } else {
        None
    }
}

/// Descriptor default of preamp kernel parameter `index` as an `f32` bit pattern,
/// where this table fixes it (also where the range comes from a preset).
pub open spec fn preamp_default(index: int) -> Option<u32> {
    if index == 0 {
        Some(0x0000_0000)
    } else if index == 1 {
        Some(0x0000_0000)
    } else if index == 2 {
        Some(0x0000_0000)
    } else {
        None
    }
}

/// Unit of preamp kernel parameter `index`, where this table fixes it.
pub open spec fn preamp_unit(index: int) -> Option<ParamUnit> {
    if index == 0 {
        Some(ParamUnit::Decibels)
    } else if index == 1 {
        Some(ParamUnit::Decibels)
    } else if index == 2 {
        None
    } else {
        None
    }
}

/// Display scale of preamp kernel parameter `index`, where this table sets one.
pub open spec fn preamp_scale(index: int) -> Option<ParamScale> {
    None
}

/// Labels of the steps of preamp kernel parameter `index`.
pub open spec fn preamp_step_labels(index: int) -> LabelSpec {
    LabelSpec::Unlabelled
}

/// Value the preamp kernel's parameter struct takes by default at `index`, as an
/// `f32` bit pattern (0 outside the table).
pub open spec fn preamp_default_value(index: int) -> u32 {
    if index == 0 {
        0x0000_0000
    } else if index == 1 {
        0x0000_0000
    } else if index == 2 {
        0x0000_0000
    } else {
        0
    }
}

/// Whether preamp kernel parameter `index` is stepped (takes whole-step values).
pub open spec fn preamp_stepped(index: int) -> bool {
    false
}

/// Whether preamp kernel parameter `index` is a read-only, hidden diagnostic.
pub open spec fn preamp_read_only(index: int) -> bool {
    false
}

/// Smoothing style of preamp kernel parameter `index`.
pub open spec fn preamp_smoothing(index: int) -> SmoothingStyle {
    if index == 0 {
        SmoothingStyle::Standard
    } else if index == 1 {
        SmoothingStyle::Slow
    } else if index == 2 {
        SmoothingStyle::Standard
    } else {
        SmoothingStyle::Standard
    }
}

/// Parameter table of the preamp kernel.
pub struct PreampParamTable;

impl PreampParamTable {
    /// Number of parameters.
    pub fn count() -> (r: usize)
        ensures
            r == PREAMP_PARAM_COUNT,
    {
        PREAMP_PARAM_COUNT
    }

    /// Descriptor of parameter `index`: `Some` exactly for the 3 parameters.
    pub fn descriptor(index: usize) -> (r: Option<ParamInfo>)
        ensures
            r is Some <==> index < PREAMP_PARAM_COUNT,
            r matches Some(p) ==> {
                &&& p.id.0 == preamp_param_id(index as int)
                &&& p.string_id@ == preamp_string_id(index as int)
                &&& opt_view(p.name) == preamp_name(index as int)
                &&& opt_view(p.short_name) == preamp_short_name(index as int)
                &&& p.range == preamp_range(index as int)
                &&& p.step == preamp_step(index as int)
                &&& p.default == preamp_default(index as int)
                &&& p.unit == preamp_unit(index as int)
                &&& p.scale == preamp_scale(index as int)
                &&& p.stepped == preamp_stepped(index as int)
                &&& p.read_only == preamp_read_only(index as int)
            },
    {
        match index {
            0 => Some(ParamInfo {
                id: ParamId(100),
                string_id: "pre_gain",
                name: Some("Gain"),
                short_name: Some("Gain"),
                range: Some(ParamRange { min: 0x0000_0000 /* 0.0 */, max: 0x4220_0000 /* 40.0 */, default: 0x0000_0000 /* 0.0 */ }),
                step: None,
                default: Some(0x0000_0000 /* 0.0 */),
                unit: Some(ParamUnit::Decibels),
                scale: None,
                stepped: false,
                read_only: false,
            }),
            1 => Some(ParamInfo {
                id: ParamId(101),
                string_id: "pre_tone",
                name: Some("Tone"),
                short_name: Some("Tone"),
                range: Some(ParamRange { min: 0xC140_0000 /* -12.0 */, max: 0x4140_0000 /* 12.0 */, default: 0x0000_0000 /* 0.0 */ }),
                step: Some(0x3F00_0000 /* 0.5 */),
                default: Some(0x0000_0000 /* 0.0 */),
                unit: Some(ParamUnit::Decibels),
                scale: None,
                stepped: false,
                read_only: false,
            }),
            2 => Some(ParamInfo {
                id: ParamId(102),
                string_id: "pre_output",
                name: Some("Output"),
                short_name: None,
                range: None,
                step: None,
                default: Some(0x0000_0000 /* 0.0 */),
                unit: None,
                scale: None,
                stepped: false,
                read_only: false,
            }),
            _ => None,
        }
    }

    /// Labels of the steps of parameter `index`.
    pub fn step_labels(index: usize) -> (r: StepLabels)
        ensures
            labels_view(r) == preamp_step_labels(index as int),
    {
        match index {
            _ => StepLabels::Unlabelled,
        }
    }

    /// Smoothing style of parameter `index` (`Standard` outside the table).
    pub fn smoothing(index: usize) -> (r: SmoothingStyle)
        ensures
            r == preamp_smoothing(index as int),
    {
        match index {
            0 => SmoothingStyle::Standard,
            1 => SmoothingStyle::Slow,
            2 => SmoothingStyle::Standard,
            _ => SmoothingStyle::Standard,
        }
    }

    /// Default value of parameter `index` as an `f32` bit pattern: `Some`
    /// exactly for the 3 parameters.
    pub fn default_value(index: usize) -> (r: Option<u32>)
        ensures
            r is Some <==> index < PREAMP_PARAM_COUNT,
            r matches Some(v) ==> v == preamp_default_value(index as int),
    {
        match index {
            0 => Some(0x0000_0000), // 0.0 (gain_db)
            1 => Some(0x0000_0000), // 0.0 (tone_db)
            2 => Some(0x0000_0000), // 0.0 (output_db)
            _ => None,
        }
    }
}

/// The parameter struct's default value agrees with the descriptor's default
/// wherever this table fixes one, and lies inside the range wherever this table
/// fixes a range.
pub proof fn lemma_preamp_defaults_match_descriptors()
    ensures
        forall|i: int|
            0 <= i < PREAMP_PARAM_COUNT ==> (#[trigger] preamp_range(i) matches Some(r) ==> r.default
                == preamp_default_value(i) && range_ordered(r)),
        forall|i: int|
            0 <= i < PREAMP_PARAM_COUNT ==> (#[trigger] preamp_default(i) matches Some(d) ==> d
                == preamp_default_value(i)),
{
}

/// The preamp kernel's parameter ids are pairwise distinct and all lie in its block
/// `100..200`.
pub proof fn lemma_preamp_ids_unique()
    ensures
        forall|i: int, j: int|
            0 <= i < PREAMP_PARAM_COUNT && 0 <= j < PREAMP_PARAM_COUNT && i != j ==> preamp_param_id(i)
                != preamp_param_id(j),
        forall|i: int|
            0 <= i < PREAMP_PARAM_COUNT ==> PREAMP_ID_BASE <= #[trigger] preamp_param_id(i) < PREAMP_ID_BASE + 100,
{
}

/// Every range this table fixes is ordered, `min <= default <= max`, its default
/// is the descriptor default, and every step it fixes is positive.
pub proof fn lemma_preamp_ranges_ordered()
    ensures
        forall|i: int|
            0 <= i < PREAMP_PARAM_COUNT ==> (#[trigger] preamp_range(i) matches Some(r) ==> range_ordered(r)
                && preamp_default(i) == Some(r.default)),
        forall|i: int|
            0 <= i < PREAMP_PARAM_COUNT ==> (#[trigger] preamp_step(i) matches Some(s) ==> crate::order::sign_magnitude(s) > 0),
{
}

/// Stepped and read-only preamp kernel parameters are never smoothed: the adapter
/// snaps them to each new value.
pub proof fn lemma_preamp_discrete_params_snap()
    ensures
        forall|i: int|
            0 <= i < PREAMP_PARAM_COUNT && (preamp_stepped(i) || preamp_read_only(i)) ==> #[trigger] preamp_smoothing(i)
                == SmoothingStyle::Snap,
{
}

/// What a parameter's string id names fixes how it is shown: ids ending in `gain` name gains in decibels, ids ending in `output` name output levels, where the table fixes their range, in decibels.
pub proof fn lemma_preamp_units_follow_ids()
    ensures
        forall|i: int|
            0 <= i < PREAMP_PARAM_COUNT && id_ends_with(#[trigger] preamp_string_id(i), "gain"@) ==> preamp_unit(i) == Some(ParamUnit::Decibels),
        forall|i: int|
            0 <= i < PREAMP_PARAM_COUNT && id_ends_with(#[trigger] preamp_string_id(i), "output"@) ==> (preamp_range(i) is Some ==> preamp_unit(i) == Some(ParamUnit::Decibels)),
{
    reveal_strlit("gain");
    reveal_strlit("output");
    reveal_strlit("pre_gain");
    reveal_strlit("pre_tone");
    reveal_strlit("pre_output");
    assert(!id_ends_with(preamp_string_id(1), "gain"@)) by {
        assert(preamp_string_id(1).subrange(4, 8)[0] == 't');
    }
    assert(!id_ends_with(preamp_string_id(2), "gain"@)) by {
        assert(preamp_string_id(2).subrange(6, 10)[0] == 't');
    }
    assert(!id_ends_with(preamp_string_id(0), "output"@)) by {
        assert(preamp_string_id(0).subrange(2, 8)[0] == 'e');
    }
    assert(!id_ends_with(preamp_string_id(1), "output"@)) by {
        assert(preamp_string_id(1).subrange(2, 8)[0] == 'e');
    }
}

} // verus!
