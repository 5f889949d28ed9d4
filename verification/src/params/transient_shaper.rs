//! Parameter table of the transient shaper.

use vstd::prelude::*;
use super::{id_ends_with, labels_view, opt_view, range_ordered, whole_f32_bits, LabelSpec, ParamId, ParamInfo, ParamRange, ParamScale, ParamUnit, SmoothingStyle, StepLabels};

verus! {

/// Number of transient shaper parameters.
pub const TRANSIENT_SHAPER_PARAM_COUNT: usize = 5;

/// First identifier of the transient shaper's block of parameter ids.
pub const TRANSIENT_SHAPER_ID_BASE: u32 = 2900;

/// Host identifier of transient shaper parameter `index` (0 outside the table).
pub open spec fn transient_shaper_param_id(index: int) -> u32 {
    if index == 0 {
        2900
    } else if index == 1 {
        2901
    } else if index == 2 {
        2902
    } else if index == 3 {
        2903
    } else if index == 4 {
        2904
    } else {
        0
    }
}

/// Stable string identifier of transient shaper parameter `index` (empty outside the table).
pub open spec fn transient_shaper_string_id(index: int) -> Seq<char> {
    if index == 0 {
        "ts_attack"@
    } else if index == 1 {
        "ts_sustain"@
    } else if index == 2 {
        "ts_sensitivity"@
    } else if index == 3 {
        "ts_mix"@
    } else if index == 4 {
        "ts_output"@
    } else {
        Seq::empty()
    }
}

/// Display name of transient shaper parameter `index`, where this table fixes it.
pub open spec fn transient_shaper_name(index: int) -> Option<Seq<char>> {
    if index == 0 {
        Some("Attack"@)
    } else if index == 1 {
        Some("Sustain"@)
    } else if index == 2 {
        Some("Sensitivity"@)
    } else if index == 3 {
        None
    } else if index == 4 {
        Some("Output"@)
    } else {
        None
    }
}

/// Short display name of transient shaper parameter `index`, where this table fixes it.
pub open spec fn transient_shaper_short_name(index: int) -> Option<Seq<char>> {
    if index == 0 {
        Some("Attack"@)
    } else if index == 1 {
        Some("Sustain"@)
    } else if index == 2 {
        Some("Sens"@)
    } else if index == 3 {
        None
    } else if index == 4 {
        None
    } else {
        None
    }
}

/// Range and default of transient shaper parameter `index` as `f32` bit patterns, where
/// this table fixes them.
pub open spec fn transient_shaper_range(index: int) -> Option<ParamRange> {
    if index == 0 {
        Some(ParamRange { min: 0xC2C8_0000, max: 0x42C8_0000, default: 0x0000_0000 })
    } else if index == 1 {
        Some(ParamRange { min: 0xC2C8_0000, max: 0x42C8_0000, default: 0x0000_0000 })
    } else if index == 2 {
        Some(ParamRange { min: 0x0000_0000, max: 0x42C8_0000, default: 0x4248_0000 })
    } else if index == 3 {
        None
    } else if index == 4 {
        None
    } else {
        None
    }
}

/// Step of transient shaper parameter `index` as an `f32` bit pattern, where this table
/// fixes it.
pub open spec fn transient_shaper_step(index: int) -> Option<u32> {
    if index == 0 {
        Some(0x3DCC_CCCD)
    } else if index == 1 {
        Some(0x3DCC_CCCD)
    } else if index == 2 {
        Some(0x3DCC_CCCD)
    } else if index == 3 {
        None
    } else if index == 4 {
        None
    } else {
        None
    }
}

/// Descriptor default of transient shaper parameter `index` as an `f32` bit pattern,
/// where this table fixes it (also where the range comes from a preset).
pub open spec fn transient_shaper_default(index: int) -> Option<u32> {
    if index == 0 {
        Some(0x0000_0000)
    } else if index == 1 {
        Some(0x0000_0000)
    } else if index == 2 {
        Some(0x4248_0000)
    } else if index == 3 {
        None
    } else if index == 4 {
        Some(0x0000_0000)
    } else {
        None
    }
}

/// Unit of transient shaper parameter `index`, where this table fixes it.
pub open spec fn transient_shaper_unit(index: int) -> Option<ParamUnit> {
    if index == 0 {
        Some(ParamUnit::Percent)
    } else if index == 1 {
        Some(ParamUnit::Percent)
    } else if index == 2 {
        Some(ParamUnit::Percent)
    } else if index == 3 {
        None
    } else if index == 4 {
        None
    } else {
        None
    }
}

/// Display scale of transient shaper parameter `index`, where this table sets one.
pub open spec fn transient_shaper_scale(index: int) -> Option<ParamScale> {
    None
}

/// Labels of the steps of transient shaper parameter `index`.
pub open spec fn transient_shaper_step_labels(index: int) -> LabelSpec {
    LabelSpec::Unlabelled
}

/// Value the transient shaper's parameter struct takes by default at `index`, as an
/// `f32` bit pattern (0 outside the table).
pub open spec fn transient_shaper_default_value(index: int) -> u32 {
    if index == 0 {
        0x0000_0000
    } else if index == 1 {
        0x0000_0000
    } else if index == 2 {
        0x4248_0000
    } else if index == 3 {
        0x42C8_0000
    } else if index == 4 {
        0x0000_0000
    } else {
        0
    }
}

/// Whether transient shaper parameter `index` is stepped (takes whole-step values).
pub open spec fn transient_shaper_stepped(index: int) -> bool {
    false
}

/// Whether transient shaper parameter `index` is a read-only, hidden diagnostic.
pub open spec fn transient_shaper_read_only(index: int) -> bool {
    false
}

/// Smoothing style of transient shaper parameter `index`.
pub open spec fn transient_shaper_smoothing(index: int) -> SmoothingStyle {
    if index == 0 {
        SmoothingStyle::Fast
    } else if index == 1 {
        SmoothingStyle::Fast
    } else if index == 2 {
        SmoothingStyle::Standard
    } else if index == 3 {
        SmoothingStyle::Standard
    } else if index == 4 {
        SmoothingStyle::Fast
    } else {
        SmoothingStyle::Standard
    }
}

/// Parameter table of the transient shaper.
pub struct TransientShaperParamTable;

impl TransientShaperParamTable {
    /// Number of parameters.
    pub fn count() -> (r: usize)
        ensures
            r == TRANSIENT_SHAPER_PARAM_COUNT,
    {
        TRANSIENT_SHAPER_PARAM_COUNT
    }

    /// Descriptor of parameter `index`: `Some` exactly for the 5 parameters.
    pub fn descriptor(index: usize) -> (r: Option<ParamInfo>)
        ensures
            r is Some <==> index < TRANSIENT_SHAPER_PARAM_COUNT,
            r matches Some(p) ==> {
                &&& p.id.0 == transient_shaper_param_id(index as int)
                &&& p.string_id@ == transient_shaper_string_id(index as int)
                &&& opt_view(p.name) == transient_shaper_name(index as int)
                &&& opt_view(p.short_name) == transient_shaper_short_name(index as int)
                &&& p.range == transient_shaper_range(index as int)
                &&& p.step == transient_shaper_step(index as int)
                &&& p.default == transient_shaper_default(index as int)
                &&& p.unit == transient_shaper_unit(index as int)
                &&& p.scale == transient_shaper_scale(index as int)
                &&& p.stepped == transient_shaper_stepped(index as int)
                &&& p.read_only == transient_shaper_read_only(index as int)
            },
    {
        match index {
            0 => Some(ParamInfo {
                id: ParamId(2900),
                string_id: "ts_attack",
                name: Some("Attack"),
                short_name: Some("Attack"),
                range: Some(ParamRange { min: 0xC2C8_0000 /* -100.0 */, max: 0x42C8_0000 /* 100.0 */, default: 0x0000_0000 /* 0.0 */ }),
                step: Some(0x3DCC_CCCD /* 0.1 */),
                default: Some(0x0000_0000 /* 0.0 */),
                unit: Some(ParamUnit::Percent),
                scale: None,
                stepped: false,
                read_only: false,
            }),
            1 => Some(ParamInfo {
                id: ParamId(2901),
                string_id: "ts_sustain",
                name: Some("Sustain"),
                short_name: Some("Sustain"),
                range: Some(ParamRange { min: 0xC2C8_0000 /* -100.0 */, max: 0x42C8_0000 /* 100.0 */, default: 0x0000_0000 /* 0.0 */ }),
                step: Some(0x3DCC_CCCD /* 0.1 */),
                default: Some(0x0000_0000 /* 0.0 */),
                unit: Some(ParamUnit::Percent),
                scale: None,
                stepped: false,
                read_only: false,
            }),
            2 => Some(ParamInfo {
                id: ParamId(2902),
                string_id: "ts_sensitivity",
                name: Some("Sensitivity"),
                short_name: Some("Sens"),
                range: Some(ParamRange { min: 0x0000_0000 /* 0.0 */, max: 0x42C8_0000 /* 100.0 */, default: 0x4248_0000 /* 50.0 */ }),
                step: Some(0x3DCC_CCCD /* 0.1 */),
                default: Some(0x4248_0000 /* 50.0 */),
                unit: Some(ParamUnit::Percent),
                scale: None,
                stepped: false,
                read_only: false,
            }),
            3 => Some(ParamInfo {
                id: ParamId(2903),
                string_id: "ts_mix",
                name: None,
                short_name: None,
                range: None,
                step: None,
                default: None,
                unit: None,
                scale: None,
                stepped: false,
                read_only: false,
            }),
            4 => Some(ParamInfo {
                id: ParamId(2904),
                string_id: "ts_output",
                name: Some("Output"),
                short_name: None,
                range: None,
                step: None,
                default: Some(0x0000_0000 /* 0.0 */),
                unit: None,
                scale: None,
                stepped: false,
                read_only: false,
            }),
            _ => None,
        }
    }

    /// Labels of the steps of parameter `index`.
    pub fn step_labels(index: usize) -> (r: StepLabels)
        ensures
            labels_view(r) == transient_shaper_step_labels(index as int),
    {
        match index {
            _ => StepLabels::Unlabelled,
        }
    }

    /// Smoothing style of parameter `index` (`Standard` outside the table).
    pub fn smoothing(index: usize) -> (r: SmoothingStyle)
        ensures
            r == transient_shaper_smoothing(index as int),
    {
        match index {
            0 => SmoothingStyle::Fast,
            1 => SmoothingStyle::Fast,
            2 => SmoothingStyle::Standard,
            3 => SmoothingStyle::Standard,
            4 => SmoothingStyle::Fast,
            _ => SmoothingStyle::Standard,
        }
    }

    /// Default value of parameter `index` as an `f32` bit pattern: `Some`
    /// exactly for the 5 parameters.
    pub fn default_value(index: usize) -> (r: Option<u32>)
        ensures
            r is Some <==> index < TRANSIENT_SHAPER_PARAM_COUNT,
            r matches Some(v) ==> v == transient_shaper_default_value(index as int),
    {
        match index {
            0 => Some(0x0000_0000), // 0.0 (attack_pct)
            1 => Some(0x0000_0000), // 0.0 (sustain_pct)
            2 => Some(0x4248_0000), // 50.0 (sensitivity_pct)
            3 => Some(0x42C8_0000), // 100.0 (mix_pct)
            4 => Some(0x0000_0000), // 0.0 (output_db)
            _ => None,
        }
    }
}

/// The parameter struct's default value agrees with the descriptor's default
/// wherever this table fixes one, and lies inside the range wherever this table
/// fixes a range.
pub proof fn lemma_transient_shaper_defaults_match_descriptors()
    ensures
        forall|i: int|
            0 <= i < TRANSIENT_SHAPER_PARAM_COUNT ==> (#[trigger] transient_shaper_range(i) matches Some(r) ==> r.default
                == transient_shaper_default_value(i) && range_ordered(r)),
        forall|i: int|
            0 <= i < TRANSIENT_SHAPER_PARAM_COUNT ==> (#[trigger] transient_shaper_default(i) matches Some(d) ==> d
                == transient_shaper_default_value(i)),
{
}

/// The transient shaper's parameter ids are pairwise distinct and all lie in its block
/// `2900..3000`.
pub proof fn lemma_transient_shaper_ids_unique()
    ensures
        forall|i: int, j: int|
            0 <= i < TRANSIENT_SHAPER_PARAM_COUNT && 0 <= j < TRANSIENT_SHAPER_PARAM_COUNT && i != j ==> transient_shaper_param_id(i)
                != transient_shaper_param_id(j),
        forall|i: int|
            0 <= i < TRANSIENT_SHAPER_PARAM_COUNT ==> TRANSIENT_SHAPER_ID_BASE <= #[trigger] transient_shaper_param_id(i) < TRANSIENT_SHAPER_ID_BASE + 100,
{
}

/// Every range this table fixes is ordered, `min <= default <= max`, its default
/// is the descriptor default, and every step it fixes is positive.
pub proof fn lemma_transient_shaper_ranges_ordered()
    ensures
        forall|i: int|
            0 <= i < TRANSIENT_SHAPER_PARAM_COUNT ==> (#[trigger] transient_shaper_range(i) matches Some(r) ==> range_ordered(r)
                && transient_shaper_default(i) == Some(r.default)),
        forall|i: int|
            0 <= i < TRANSIENT_SHAPER_PARAM_COUNT ==> (#[trigger] transient_shaper_step(i) matches Some(s) ==> crate::order::sign_magnitude(s) > 0),
{
}

/// Stepped and read-only transient shaper parameters are never smoothed: the adapter
/// snaps them to each new value.
pub proof fn lemma_transient_shaper_discrete_params_snap()
    ensures
        forall|i: int|
            0 <= i < TRANSIENT_SHAPER_PARAM_COUNT && (transient_shaper_stepped(i) || transient_shaper_read_only(i)) ==> #[trigger] transient_shaper_smoothing(i)
                == SmoothingStyle::Snap,
{
}

/// What a parameter's string id names fixes how it is shown: ids ending in `output` name output levels, where the table fixes their range, in decibels.
pub proof fn lemma_transient_shaper_units_follow_ids()
    ensures
        forall|i: int|
            0 <= i < TRANSIENT_SHAPER_PARAM_COUNT && id_ends_with(#[trigger] transient_shaper_string_id(i), "output"@) ==> (transient_shaper_range(i) is Some ==> transient_shaper_unit(i) == Some(ParamUnit::Decibels)),
{
    reveal_strlit("output");
    reveal_strlit("ts_attack");
    reveal_strlit("ts_sustain");
    reveal_strlit("ts_sensitivity");
    reveal_strlit("ts_mix");
    reveal_strlit("ts_output");
    assert(!id_ends_with(transient_shaper_string_id(0), "output"@)) by {
        assert(transient_shaper_string_id(0).subrange(3, 9)[0] == 'a');
    }
    assert(!id_ends_with(transient_shaper_string_id(1), "output"@)) by {
        assert(transient_shaper_string_id(1).subrange(4, 10)[0] == 'u');
    }
    assert(!id_ends_with(transient_shaper_string_id(2), "output"@)) by {
        assert(transient_shaper_string_id(2).subrange(8, 14)[0] == 't');
    }
    assert(!id_ends_with(transient_shaper_string_id(3), "output"@)) by {
        assert(transient_shaper_string_id(3).subrange(0, 6)[0] == 't');
    }
}

} // verus!
