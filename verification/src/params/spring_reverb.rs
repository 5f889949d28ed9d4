//! Parameter table of the spring reverb.

use vstd::prelude::*;
use super::{id_ends_with, labels_view, opt_view, range_ordered, whole_f32_bits, LabelSpec, ParamId, ParamInfo, ParamRange, ParamScale, ParamUnit, SmoothingStyle, StepLabels};

verus! {

/// Number of spring reverb parameters.
pub const SPRING_REVERB_PARAM_COUNT: usize = 6;

/// First identifier of the spring reverb's block of parameter ids.
pub const SPRING_REVERB_ID_BASE: u32 = 2800;

/// Host identifier of spring reverb parameter `index` (0 outside the table).
pub open spec fn spring_reverb_param_id(index: int) -> u32 {
    if index == 0 {
        2800
    } else if index == 1 {
        2801
    } else if index == 2 {
        2802
    } else if index == 3 {
        2803
    } else if index == 4 {
        2804
    } else if index == 5 {
        2805
    } else {
        0
    }
}

/// Stable string identifier of spring reverb parameter `index` (empty outside the table).
pub open spec fn spring_reverb_string_id(index: int) -> Seq<char> {
    if index == 0 {
        "spring_decay"@
    } else if index == 1 {
        "spring_tension"@
    } else if index == 2 {
        "spring_drip"@
    } else if index == 3 {
        "spring_damping"@
    } else if index == 4 {
        "spring_mix"@
    } else if index == 5 {
        "spring_output"@
    } else {
        Seq::empty()
    }
}

/// Display name of spring reverb parameter `index`, where this table fixes it.
pub open spec fn spring_reverb_name(index: int) -> Option<Seq<char>> {
    if index == 0 {
        Some("Decay"@)
    } else if index == 1 {
        Some("Tension"@)
    } else if index == 2 {
        Some("Drip"@)
    } else if index == 3 {
        Some("Damping"@)
    } else if index == 4 {
        None
    } else if index == 5 {
        Some("Output"@)
    } else {
        None
    }
}

/// Short display name of spring reverb parameter `index`, where this table fixes it.
pub open spec fn spring_reverb_short_name(index: int) -> Option<Seq<char>> {
    if index == 0 {
        Some("Decay"@)
    } else if index == 1 {
        Some("Tens"@)
    } else if index == 2 {
        Some("Drip"@)
    } else if index == 3 {
        Some("Damp"@)
    } else if index == 4 {
        None
    } else if index == 5 {
        None
    } else {
        None
    }
}

/// Range and default of spring reverb parameter `index` as `f32` bit patterns, where
/// this table fixes them.
pub open spec fn spring_reverb_range(index: int) -> Option<ParamRange> {
    if index == 0 {
        Some(ParamRange { min: 0x3F00_0000, max: 0x40A0_0000, default: 0x4000_0000 })
    } else if index == 1 {
        Some(ParamRange { min: 0x0000_0000, max: 0x42C8_0000, default: 0x4248_0000 })
    } else if index == 2 {
        Some(ParamRange { min: 0x0000_0000, max: 0x42C8_0000, default: 0x4220_0000 })
    } else if index == 3 {
        Some(ParamRange { min: 0x0000_0000, max: 0x42C8_0000, default: 0x4248_0000 })
    } else if index == 4 {
        None
    } else if index == 5 {
        None
    } else {
        None
    }
}

/// Step of spring reverb parameter `index` as an `f32` bit pattern, where this table
/// fixes it.
pub open spec fn spring_reverb_step(index: int) -> Option<u32> {
    if index == 0 {
        None
    } else if index == 1 {
        Some(0x3F80_0000)
    } else if index == 2 {
        Some(0x3F80_0000)
    } else if index == 3 {
        Some(0x3F80_0000)
    } else if index == 4 {
        None
    } else if index == 5 {
        None
    } else {
        None
    }
}

/// Descriptor default of spring reverb parameter `index` as an `f32` bit pattern,
/// where this table fixes it (also where the range comes from a preset).
pub open spec fn spring_reverb_default(index: int) -> Option<u32> {
    if index == 0 {
        Some(0x4000_0000)
    } else if index == 1 {
        Some(0x4248_0000)
    } else if index == 2 {
        Some(0x4220_0000)
    } else if index == 3 {
        Some(0x4248_0000)
    } else if index == 4 {
        None
    } else if index == 5 {
        Some(0x0000_0000)
    } else {
        None
    }
}

/// Unit of spring reverb parameter `index`, where this table fixes it.
pub open spec fn spring_reverb_unit(index: int) -> Option<ParamUnit> {
    if index == 0 {
        Some(ParamUnit::Unitless)
    } else if index == 1 {
        Some(ParamUnit::Percent)
    } else if index == 2 {
        Some(ParamUnit::Percent)
    } else if index == 3 {
        Some(ParamUnit::Percent)
    } else if index == 4 {
        None
    } else if index == 5 {
        None
    } else {
        None
    }
}

/// Display scale of spring reverb parameter `index`, where this table sets one.
pub open spec fn spring_reverb_scale(index: int) -> Option<ParamScale> {
    None
}

/// Labels of the steps of spring reverb parameter `index`.
pub open spec fn spring_reverb_step_labels(index: int) -> LabelSpec {
    LabelSpec::Unlabelled
}

/// Value the spring reverb's parameter struct takes by default at `index`, as an
/// `f32` bit pattern (0 outside the table).
pub open spec fn spring_reverb_default_value(index: int) -> u32 {
    if index == 0 {
        0x4000_0000
    } else if index == 1 {
        0x4248_0000
    } else if index == 2 {
        0x4220_0000
    } else if index == 3 {
        0x4248_0000
    } else if index == 4 {
        0x41F0_0000
    } else if index == 5 {
        0x0000_0000
    } else {
        0
    }
}

/// Whether spring reverb parameter `index` is stepped (takes whole-step values).
pub open spec fn spring_reverb_stepped(index: int) -> bool {
    false
}

/// Whether spring reverb parameter `index` is a read-only, hidden diagnostic.
pub open spec fn spring_reverb_read_only(index: int) -> bool {
    false
}

/// Smoothing style of spring reverb parameter `index`.
pub open spec fn spring_reverb_smoothing(index: int) -> SmoothingStyle {
    if index == 0 {
        SmoothingStyle::Slow
    } else if index == 1 {
        SmoothingStyle::Standard
    } else if index == 2 {
        SmoothingStyle::Standard
    } else if index == 3 {
        SmoothingStyle::Slow
    } else if index == 4 {
        SmoothingStyle::Standard
    } else if index == 5 {
        SmoothingStyle::Fast
    } else {
        SmoothingStyle::Standard
    }
}

/// Parameter table of the spring reverb.
pub struct SpringReverbParamTable;

impl SpringReverbParamTable {
    /// Number of parameters.
    pub fn count() -> (r: usize)
        ensures
            r == SPRING_REVERB_PARAM_COUNT,
    {
        SPRING_REVERB_PARAM_COUNT
    }

    /// Descriptor of parameter `index`: `Some` exactly for the 6 parameters.
    pub fn descriptor(index: usize) -> (r: Option<ParamInfo>)
        ensures
            r is Some <==> index < SPRING_REVERB_PARAM_COUNT,
            r matches Some(p) ==> {
                &&& p.id.0 == spring_reverb_param_id(index as int)
                &&& p.string_id@ == spring_reverb_string_id(index as int)
                &&& opt_view(p.name) == spring_reverb_name(index as int)
                &&& opt_view(p.short_name) == spring_reverb_short_name(index as int)
                &&& p.range == spring_reverb_range(index as int)
                &&& p.step == spring_reverb_step(index as int)
                &&& p.default == spring_reverb_default(index as int)
                &&& p.unit == spring_reverb_unit(index as int)
                &&& p.scale == spring_reverb_scale(index as int)
                &&& p.stepped == spring_reverb_stepped(index as int)
                &&& p.read_only == spring_reverb_read_only(index as int)
            },
    {
        match index {
            0 => Some(ParamInfo {
                id: ParamId(2800),
                string_id: "spring_decay",
                name: Some("Decay"),
                short_name: Some("Decay"),
                range: Some(ParamRange { min: 0x3F00_0000 /* 0.5 */, max: 0x40A0_0000 /* 5.0 */, default: 0x4000_0000 /* 2.0 */ }),
                step: None,
                default: Some(0x4000_0000 /* 2.0 */),
                unit: Some(ParamUnit::Unitless),
                scale: None,
                stepped: false,
                read_only: false,
            }),
            1 => Some(ParamInfo {
                id: ParamId(2801),
                string_id: "spring_tension",
                name: Some("Tension"),
                short_name: Some("Tens"),
                range: Some(ParamRange { min: 0x0000_0000 /* 0.0 */, max: 0x42C8_0000 /* 100.0 */, default: 0x4248_0000 /* 50.0 */ }),
                step: Some(0x3F80_0000 /* 1.0 */),
                default: Some(0x4248_0000 /* 50.0 */),
                unit: Some(ParamUnit::Percent),
                scale: None,
                stepped: false,
                read_only: false,
            }),
            2 => Some(ParamInfo {
                id: ParamId(2802),
                string_id: "spring_drip",
                name: Some("Drip"),
                short_name: Some("Drip"),
                range: Some(ParamRange { min: 0x0000_0000 /* 0.0 */, max: 0x42C8_0000 /* 100.0 */, default: 0x4220_0000 /* 40.0 */ }),
                step: Some(0x3F80_0000 /* 1.0 */),
                default: Some(0x4220_0000 /* 40.0 */),
                unit: Some(ParamUnit::Percent),
                scale: None,
                stepped: false,
                read_only: false,
            }),
            3 => Some(ParamInfo {
                id: ParamId(2803),
                string_id: "spring_damping",
                name: Some("Damping"),
                short_name: Some("Damp"),
                range: Some(ParamRange { min: 0x0000_0000 /* 0.0 */, max: 0x42C8_0000 /* 100.0 */, default: 0x4248_0000 /* 50.0 */ }),
                step: Some(0x3F80_0000 /* 1.0 */),
                default: Some(0x4248_0000 /* 50.0 */),
                unit: Some(ParamUnit::Percent),
                scale: None,
                stepped: false,
                read_only: false,
            }),
            4 => Some(ParamInfo {
                id: ParamId(2804),
                string_id: "spring_mix",
                name: None,
                short_name: None,
                range: None,
                step: None,
                default: None,
                unit: None,
                scale: None,
                stepped: false,
                read_only: false,
            }),
            5 => Some(ParamInfo {
                id: ParamId(2805),
                string_id: "spring_output",
                name: Some("Output"),
                short_name: None,
                range: None,
                step: None,
                default: Some(0x0000_0000 /* 0.0 */),
                unit: None,
                scale: None,
                stepped: false,
                read_only: false,
            }),
            _ => None,
        }
    }

    /// Labels of the steps of parameter `index`.
    pub fn step_labels(index: usize) -> (r: StepLabels)
        ensures
            labels_view(r) == spring_reverb_step_labels(index as int),
    {
        match index {
            _ => StepLabels::Unlabelled,
        }
    }

    /// Smoothing style of parameter `index` (`Standard` outside the table).
    pub fn smoothing(index: usize) -> (r: SmoothingStyle)
        ensures
            r == spring_reverb_smoothing(index as int),
    {
        match index {
            0 => SmoothingStyle::Slow,
            1 => SmoothingStyle::Standard,
            2 => SmoothingStyle::Standard,
            3 => SmoothingStyle::Slow,
            4 => SmoothingStyle::Standard,
            5 => SmoothingStyle::Fast,
            _ => SmoothingStyle::Standard,
        }
    }

    /// Default value of parameter `index` as an `f32` bit pattern: `Some`
    /// exactly for the 6 parameters.
    pub fn default_value(index: usize) -> (r: Option<u32>)
        ensures
            r is Some <==> index < SPRING_REVERB_PARAM_COUNT,
            r matches Some(v) ==> v == spring_reverb_default_value(index as int),
    {
        match index {
            0 => Some(0x4000_0000), // 2.0 (decay_s)
            1 => Some(0x4248_0000), // 50.0 (tension_pct)
            2 => Some(0x4220_0000), // 40.0 (drip_pct)
            3 => Some(0x4248_0000), // 50.0 (damping_pct)
            4 => Some(0x41F0_0000), // 30.0 (mix_pct)
            5 => Some(0x0000_0000), // 0.0 (output_db)
            _ => None,
        }
    }
}

/// The parameter struct's default value agrees with the descriptor's default
/// wherever this table fixes one, and lies inside the range wherever this table
/// fixes a range.
pub proof fn lemma_spring_reverb_defaults_match_descriptors()
    ensures
        forall|i: int|
            0 <= i < SPRING_REVERB_PARAM_COUNT ==> (#[trigger] spring_reverb_range(i) matches Some(r) ==> r.default
                == spring_reverb_default_value(i) && range_ordered(r)),
        forall|i: int|
            0 <= i < SPRING_REVERB_PARAM_COUNT ==> (#[trigger] spring_reverb_default(i) matches Some(d) ==> d
                == spring_reverb_default_value(i)),
{
}

/// The spring reverb's parameter ids are pairwise distinct and all lie in its block
/// `2800..2900`.
pub proof fn lemma_spring_reverb_ids_unique()
    ensures
        forall|i: int, j: int|
            0 <= i < SPRING_REVERB_PARAM_COUNT && 0 <= j < SPRING_REVERB_PARAM_COUNT && i != j ==> spring_reverb_param_id(i)
                != spring_reverb_param_id(j),
        forall|i: int|
            0 <= i < SPRING_REVERB_PARAM_COUNT ==> SPRING_REVERB_ID_BASE <= #[trigger] spring_reverb_param_id(i) < SPRING_REVERB_ID_BASE + 100,
{
}

/// Every range this table fixes is ordered, `min <= default <= max`, its default
/// is the descriptor default, and every step it fixes is positive.
pub proof fn lemma_spring_reverb_ranges_ordered()
    ensures
        forall|i: int|
            0 <= i < SPRING_REVERB_PARAM_COUNT ==> (#[trigger] spring_reverb_range(i) matches Some(r) ==> range_ordered(r)
                && spring_reverb_default(i) == Some(r.default)),
        forall|i: int|
            0 <= i < SPRING_REVERB_PARAM_COUNT ==> (#[trigger] spring_reverb_step(i) matches Some(s) ==> crate::order::sign_magnitude(s) > 0),
{
}

/// Stepped and read-only spring reverb parameters are never smoothed: the adapter
/// snaps them to each new value.
pub proof fn lemma_spring_reverb_discrete_params_snap()
    ensures
        forall|i: int|
            0 <= i < SPRING_REVERB_PARAM_COUNT && (spring_reverb_stepped(i) || spring_reverb_read_only(i)) ==> #[trigger] spring_reverb_smoothing(i)
                == SmoothingStyle::Snap,
{
}

/// What a parameter's string id names fixes how it is shown: ids ending in `output` name output levels, where the table fixes their range, in decibels.
pub proof fn lemma_spring_reverb_units_follow_ids()
    ensures
        forall|i: int|
            0 <= i < SPRING_REVERB_PARAM_COUNT && id_ends_with(#[trigger] spring_reverb_string_id(i), "output"@) ==> (spring_reverb_range(i) is Some ==> spring_reverb_unit(i) == Some(ParamUnit::Decibels)),
{
    reveal_strlit("output");
    reveal_strlit("spring_decay");
    reveal_strlit("spring_tension");
    reveal_strlit("spring_drip");
    reveal_strlit("spring_damping");
    reveal_strlit("spring_mix");
    reveal_strlit("spring_output");
    assert(!id_ends_with(spring_reverb_string_id(0), "output"@)) by {
        assert(spring_reverb_string_id(0).subrange(6, 12)[0] == '_');
    }
    assert(!id_ends_with(spring_reverb_string_id(1), "output"@)) by {
        assert(spring_reverb_string_id(1).subrange(8, 14)[0] == 'e');
    }
    assert(!id_ends_with(spring_reverb_string_id(2), "output"@)) by {
        assert(spring_reverb_string_id(2).subrange(5, 11)[0] == 'g');
    }
    assert(!id_ends_with(spring_reverb_string_id(3), "output"@)) by {
        assert(spring_reverb_string_id(3).subrange(8, 14)[0] == 'a');
    }
    assert(!id_ends_with(spring_reverb_string_id(4), "output"@)) by {
        assert(spring_reverb_string_id(4).subrange(4, 10)[0] == 'n');
    }
}

} // verus!
