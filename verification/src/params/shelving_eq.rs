//! Parameter table of the shelving EQ.

use vstd::prelude::*;
use super::{id_ends_with, labels_view, opt_view, range_ordered, whole_f32_bits, LabelSpec, ParamId, ParamInfo, ParamRange, ParamScale, ParamUnit, SmoothingStyle, StepLabels};

verus! {

/// Number of shelving EQ parameters.
pub const SHELVING_EQ_PARAM_COUNT: usize = 5;

/// First identifier of the shelving EQ's block of parameter ids.
pub const SHELVING_EQ_ID_BASE: u32 = 2500;

/// Host identifier of shelving EQ parameter `index` (0 outside the table).
pub open spec fn shelving_eq_param_id(index: int) -> u32 {
    if index == 0 {
        2500
    } else if index == 1 {
        2501
    } else if index == 2 {
        2502
    } else if index == 3 {
        2503
    } else if index == 4 {
        2504
    } else {
        0
    }
}

/// Stable string identifier of shelving EQ parameter `index` (empty outside the table).
pub open spec fn shelving_eq_string_id(index: int) -> Seq<char> {
    if index == 0 {
        "shelf_low_freq"@
    } else if index == 1 {
        "shelf_low_gain"@
    } else if index == 2 {
        "shelf_high_freq"@
    } else if index == 3 {
        "shelf_high_gain"@
    } else if index == 4 {
        "shelf_output"@
    } else {
        Seq::empty()
    }
}

/// Display name of shelving EQ parameter `index`, where this table fixes it.
pub open spec fn shelving_eq_name(index: int) -> Option<Seq<char>> {
    if index == 0 {
        Some("Low Freq"@)
    } else if index == 1 {
        Some("Low Gain"@)
    } else if index == 2 {
        Some("High Freq"@)
    } else if index == 3 {
        Some("High Gain"@)
    } else if index == 4 {
        Some("Output"@)
    } else {
        None
    }
}

/// Short display name of shelving EQ parameter `index`, where this table fixes it.
pub open spec fn shelving_eq_short_name(index: int) -> Option<Seq<char>> {
    if index == 0 {
        Some("LowFrq"@)
    } else if index == 1 {
        Some("LowGn"@)
    } else if index == 2 {
        Some("HiFrq"@)
    } else if index == 3 {
        Some("HiGn"@)
    } else if index == 4 {
        None
    } else {
        None
    }
}

/// Range and default of shelving EQ parameter `index` as `f32` bit patterns, where
/// this table fixes them.
pub open spec fn shelving_eq_range(index: int) -> Option<ParamRange> {
    if index == 0 {
        Some(ParamRange { min: 0x41A0_0000, max: 0x43FA_0000, default: 0x42C8_0000 })
    } else if index == 1 {
        Some(ParamRange { min: 0xC170_0000, max: 0x4170_0000, default: 0x0000_0000 })
    } else if index == 2 {
        Some(ParamRange { min: 0x447A_0000, max: 0x469C_4000, default: 0x45FA_0000 })
    } else if index == 3 {
        Some(ParamRange { min: 0xC170_0000, max: 0x4170_0000, default: 0x0000_0000 })
    } else if index == 4 {
        None
    } else {
        None
    }
}

/// Step of shelving EQ parameter `index` as an `f32` bit pattern, where this table
/// fixes it.
pub open spec fn shelving_eq_step(index: int) -> Option<u32> {
    if index == 0 {
        Some(0x3F80_0000)
    } else if index == 1 {
        None
    } else if index == 2 {
        Some(0x42C8_0000)
    } else if index == 3 {
        None
    } else if index == 4 {
        None
    } else {
        None
    }
}

/// Descriptor default of shelving EQ parameter `index` as an `f32` bit pattern,
/// where this table fixes it (also where the range comes from a preset).
pub open spec fn shelving_eq_default(index: int) -> Option<u32> {
    if index == 0 {
        Some(0x42C8_0000)
    } else if index == 1 {
        Some(0x0000_0000)
    } else if index == 2 {
        Some(0x45FA_0000)
    } else if index == 3 {
        Some(0x0000_0000)
    } else if index == 4 {
        Some(0x0000_0000)
    } else {
        None
    }
}

/// Unit of shelving EQ parameter `index`, where this table fixes it.
pub open spec fn shelving_eq_unit(index: int) -> Option<ParamUnit> {
    if index == 0 {
        Some(ParamUnit::Hertz)
    } else if index == 1 {
        Some(ParamUnit::Decibels)
    } else if index == 2 {
        Some(ParamUnit::Hertz)
    } else if index == 3 {
        Some(ParamUnit::Decibels)
    } else if index == 4 {
        None
    } else {
        None
    }
}

/// Display scale of shelving EQ parameter `index`, where this table sets one.
pub open spec fn shelving_eq_scale(index: int) -> Option<ParamScale> {
    if index == 0 {
        Some(ParamScale::Logarithmic)
    } else if index == 1 {
        None
    } else if index == 2 {
        Some(ParamScale::Logarithmic)
    } else if index == 3 {
        None
    } else if index == 4 {
        None
    } else {
        None
    }
}

/// Labels of the steps of shelving EQ parameter `index`.
pub open spec fn shelving_eq_step_labels(index: int) -> LabelSpec {
    LabelSpec::Unlabelled
}

/// Value the shelving EQ's parameter struct takes by default at `index`, as an
/// `f32` bit pattern (0 outside the table).
pub open spec fn shelving_eq_default_value(index: int) -> u32 {
    if index == 0 {
        0x42C8_0000
    } else if index == 1 {
        0x0000_0000
    } else if index == 2 {
        0x45FA_0000
    } else if index == 3 {
        0x0000_0000
    } else if index == 4 {
        0x0000_0000
    } else {
        0
    }
}

/// Whether shelving EQ parameter `index` is stepped (takes whole-step values).
pub open spec fn shelving_eq_stepped(index: int) -> bool {
    false
}

/// Whether shelving EQ parameter `index` is a read-only, hidden diagnostic.
pub open spec fn shelving_eq_read_only(index: int) -> bool {
    false
}

/// Smoothing style of shelving EQ parameter `index`.
pub open spec fn shelving_eq_smoothing(index: int) -> SmoothingStyle {
    if index == 0 {
        SmoothingStyle::Slow
    } else if index == 1 {
        SmoothingStyle::Slow
    } else if index == 2 {
        SmoothingStyle::Slow
    } else if index == 3 {
        SmoothingStyle::Slow
    } else if index == 4 {
        SmoothingStyle::Fast
    } else {
        SmoothingStyle::Standard
    }
}

/// Parameter table of the shelving EQ.
pub struct ShelvingEqParamTable;

impl ShelvingEqParamTable {
    /// Number of parameters.
    pub fn count() -> (r: usize)
        ensures
            r == SHELVING_EQ_PARAM_COUNT,
    {
        SHELVING_EQ_PARAM_COUNT
    }

    /// Descriptor of parameter `index`: `Some` exactly for the 5 parameters.
    pub fn descriptor(index: usize) -> (r: Option<ParamInfo>)
        ensures
            r is Some <==> index < SHELVING_EQ_PARAM_COUNT,
            r matches Some(p) ==> {
                &&& p.id.0 == shelving_eq_param_id(index as int)
                &&& p.string_id@ == shelving_eq_string_id(index as int)
                &&& opt_view(p.name) == shelving_eq_name(index as int)
                &&& opt_view(p.short_name) == shelving_eq_short_name(index as int)
                &&& p.range == shelving_eq_range(index as int)
                &&& p.step == shelving_eq_step(index as int)
                &&& p.default == shelving_eq_default(index as int)
                &&& p.unit == shelving_eq_unit(index as int)
                &&& p.scale == shelving_eq_scale(index as int)
                &&& p.stepped == shelving_eq_stepped(index as int)
                &&& p.read_only == shelving_eq_read_only(index as int)
            },
    {
        match index {
            0 => Some(ParamInfo {
                id: ParamId(2500),
                string_id: "shelf_low_freq",
                name: Some("Low Freq"),
                short_name: Some("LowFrq"),
                range: Some(ParamRange { min: 0x41A0_0000 /* 20.0 */, max: 0x43FA_0000 /* 500.0 */, default: 0x42C8_0000 /* 100.0 */ }),
                step: Some(0x3F80_0000 /* 1.0 */),
                default: Some(0x42C8_0000 /* 100.0 */),
                unit: Some(ParamUnit::Hertz),
                scale: Some(ParamScale::Logarithmic),
                stepped: false,
                read_only: false,
            }),
            1 => Some(ParamInfo {
                id: ParamId(2501),
                string_id: "shelf_low_gain",
                name: Some("Low Gain"),
                short_name: Some("LowGn"),
                range: Some(ParamRange { min: 0xC170_0000 /* -15.0 */, max: 0x4170_0000 /* 15.0 */, default: 0x0000_0000 /* 0.0 */ }),
                step: None,
                default: Some(0x0000_0000 /* 0.0 */),
                unit: Some(ParamUnit::Decibels),
                scale: None,
                stepped: false,
                read_only: false,
            }),
            2 => Some(ParamInfo {
                id: ParamId(2502),
                string_id: "shelf_high_freq",
                name: Some("High Freq"),
                short_name: Some("HiFrq"),
                range: Some(ParamRange { min: 0x447A_0000 /* 1000.0 */, max: 0x469C_4000 /* 20000.0 */, default: 0x45FA_0000 /* 8000.0 */ }),
                step: Some(0x42C8_0000 /* 100.0 */),
                default: Some(0x45FA_0000 /* 8000.0 */),
                unit: Some(ParamUnit::Hertz),
                scale: Some(ParamScale::Logarithmic),
                stepped: false,
                read_only: false,
            }),
            3 => Some(ParamInfo {
                id: ParamId(2503),
                string_id: "shelf_high_gain",
                name: Some("High Gain"),
                short_name: Some("HiGn"),
                range: Some(ParamRange { min: 0xC170_0000 /* -15.0 */, max: 0x4170_0000 /* 15.0 */, default: 0x0000_0000 /* 0.0 */ }),
                step: None,
                default: Some(0x0000_0000 /* 0.0 */),
                unit: Some(ParamUnit::Decibels),
                scale: None,
                stepped: false,
                read_only: false,
            }),
            4 => Some(ParamInfo {
                id: ParamId(2504),
                string_id: "shelf_output",
                name: Some("Output"),
                short_name: None,
                range: None,
                step: None,
                default: Some(0x0000_0000 /* 0.0 */),
                unit: None,
                scale: None,
                stepped: false,
                read_only: false,
            }),
            _ => None,
        }
    }

    /// Labels of the steps of parameter `index`.
    pub fn step_labels(index: usize) -> (r: StepLabels)
        ensures
            labels_view(r) == shelving_eq_step_labels(index as int),
    {
        match index {
            _ => StepLabels::Unlabelled,
        }
    }

    /// Smoothing style of parameter `index` (`Standard` outside the table).
    pub fn smoothing(index: usize) -> (r: SmoothingStyle)
        ensures
            r == shelving_eq_smoothing(index as int),
    {
        match index {
            0 => SmoothingStyle::Slow,
            1 => SmoothingStyle::Slow,
            2 => SmoothingStyle::Slow,
            3 => SmoothingStyle::Slow,
            4 => SmoothingStyle::Fast,
            _ => SmoothingStyle::Standard,
        }
    }

    /// Default value of parameter `index` as an `f32` bit pattern: `Some`
    /// exactly for the 5 parameters.
    pub fn default_value(index: usize) -> (r: Option<u32>)
        ensures
            r is Some <==> index < SHELVING_EQ_PARAM_COUNT,
            r matches Some(v) ==> v == shelving_eq_default_value(index as int),
    {
        match index {
            0 => Some(0x42C8_0000), // 100.0 (low_freq_hz)
            1 => Some(0x0000_0000), // 0.0 (low_gain_db)
            2 => Some(0x45FA_0000), // 8000.0 (high_freq_hz)
            3 => Some(0x0000_0000), // 0.0 (high_gain_db)
            4 => Some(0x0000_0000), // 0.0 (output_db)
            _ => None,
        }
    }
}

/// The parameter struct's default value agrees with the descriptor's default
/// wherever this table fixes one, and lies inside the range wherever this table
/// fixes a range.
pub proof fn lemma_shelving_eq_defaults_match_descriptors()
    ensures
        forall|i: int|
            0 <= i < SHELVING_EQ_PARAM_COUNT ==> (#[trigger] shelving_eq_range(i) matches Some(r) ==> r.default
                == shelving_eq_default_value(i) && range_ordered(r)),
        forall|i: int|
            0 <= i < SHELVING_EQ_PARAM_COUNT ==> (#[trigger] shelving_eq_default(i) matches Some(d) ==> d
                == shelving_eq_default_value(i)),
{
}

/// The shelving EQ's parameter ids are pairwise distinct and all lie in its block
/// `2500..2600`.
pub proof fn lemma_shelving_eq_ids_unique()
    ensures
        forall|i: int, j: int|
            0 <= i < SHELVING_EQ_PARAM_COUNT && 0 <= j < SHELVING_EQ_PARAM_COUNT && i != j ==> shelving_eq_param_id(i)
                != shelving_eq_param_id(j),
        forall|i: int|
            0 <= i < SHELVING_EQ_PARAM_COUNT ==> SHELVING_EQ_ID_BASE <= #[trigger] shelving_eq_param_id(i) < SHELVING_EQ_ID_BASE + 100,
{
}

/// Every range this table fixes is ordered, `min <= default <= max`, its default
/// is the descriptor default, and every step it fixes is positive.
pub proof fn lemma_shelving_eq_ranges_ordered()
    ensures
        forall|i: int|
            0 <= i < SHELVING_EQ_PARAM_COUNT ==> (#[trigger] shelving_eq_range(i) matches Some(r) ==> range_ordered(r)
                && shelving_eq_default(i) == Some(r.default)),
        forall|i: int|
            0 <= i < SHELVING_EQ_PARAM_COUNT ==> (#[trigger] shelving_eq_step(i) matches Some(s) ==> crate::order::sign_magnitude(s) > 0),
{
}

/// Stepped and read-only shelving EQ parameters are never smoothed: the adapter
/// snaps them to each new value.
pub proof fn lemma_shelving_eq_discrete_params_snap()
    ensures
        forall|i: int|
            0 <= i < SHELVING_EQ_PARAM_COUNT && (shelving_eq_stepped(i) || shelving_eq_read_only(i)) ==> #[trigger] shelving_eq_smoothing(i)
                == SmoothingStyle::Snap,
{
}

/// What a parameter's string id names fixes how it is shown: ids ending in `freq` name frequencies in hertz on a logarithmic scale, ids ending in `gain` name gains in decibels, ids ending in `output` name output levels, where the table fixes their range, in decibels.
pub proof fn lemma_shelving_eq_units_follow_ids()
    ensures
        forall|i: int|
            0 <= i < SHELVING_EQ_PARAM_COUNT && id_ends_with(#[trigger] shelving_eq_string_id(i), "freq"@) ==> shelving_eq_unit(i) == Some(ParamUnit::Hertz) && shelving_eq_scale(i) == Some(ParamScale::Logarithmic),
        forall|i: int|
            0 <= i < SHELVING_EQ_PARAM_COUNT && id_ends_with(#[trigger] shelving_eq_string_id(i), "gain"@) ==> shelving_eq_unit(i) == Some(ParamUnit::Decibels),
        forall|i: int|
            0 <= i < SHELVING_EQ_PARAM_COUNT && id_ends_with(#[trigger] shelving_eq_string_id(i), "output"@) ==> (shelving_eq_range(i) is Some ==> shelving_eq_unit(i) == Some(ParamUnit::Decibels)),
{
    reveal_strlit("freq");
    reveal_strlit("gain");
    reveal_strlit("output");
    reveal_strlit("shelf_low_freq");
    reveal_strlit("shelf_low_gain");
    reveal_strlit("shelf_high_freq");
    reveal_strlit("shelf_high_gain");
    reveal_strlit("shelf_output");
    assert(!id_ends_with(shelving_eq_string_id(1), "freq"@)) by {
        assert(shelving_eq_string_id(1).subrange(10, 14)[0] == 'g');
    }
    assert(!id_ends_with(shelving_eq_string_id(3), "freq"@)) by {
        assert(shelving_eq_string_id(3).subrange(11, 15)[0] == 'g');
    }
    assert(!id_ends_with(shelving_eq_string_id(4), "freq"@)) by {
        assert(shelving_eq_string_id(4).subrange(8, 12)[0] == 't');
    }
    assert(!id_ends_with(shelving_eq_string_id(0), "gain"@)) by {
        assert(shelving_eq_string_id(0).subrange(10, 14)[0] == 'f');
    }
    assert(!id_ends_with(shelving_eq_string_id(2), "gain"@)) by {
        assert(shelving_eq_string_id(2).subrange(11, 15)[0] == 'f');
    }
    assert(!id_ends_with(shelving_eq_string_id(4), "gain"@)) by {
        assert(shelving_eq_string_id(4).subrange(8, 12)[0] == 't');
    }
    assert(!id_ends_with(shelving_eq_string_id(0), "output"@)) by {
        assert(shelving_eq_string_id(0).subrange(8, 14)[0] == 'w');
    }
    assert(!id_ends_with(shelving_eq_string_id(1), "output"@)) by {
        assert(shelving_eq_string_id(1).subrange(8, 14)[0] == 'w');
    }
    assert(!id_ends_with(shelving_eq_string_id(2), "output"@)) by {
        assert(shelving_eq_string_id(2).subrange(9, 15)[0] == 'h');
    }
    assert(!id_ends_with(shelving_eq_string_id(3), "output"@)) by {
        assert(shelving_eq_string_id(3).subrange(9, 15)[0] == 'h');
    }
}

/// Every shelving EQ parameter in hertz whose range starts at an audible frequency
/// (20 Hz or more) is shown on a logarithmic scale.
pub proof fn lemma_shelving_eq_audio_frequencies_logarithmic()
    ensures
        forall|i: int|
            0 <= i < SHELVING_EQ_PARAM_COUNT && #[trigger] shelving_eq_unit(i) == Some(ParamUnit::Hertz) && (shelving_eq_range(i) matches Some(r)
                && 0x41A0_0000 <= r.min < 0x8000_0000) ==> shelving_eq_scale(i) == Some(ParamScale::Logarithmic),
{
}

} // verus!
