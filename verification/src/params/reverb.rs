//! Parameter table of the reverb.

use vstd::prelude::*;
use super::{id_ends_with, labels_view, opt_view, range_ordered, whole_f32_bits, LabelSpec, ParamId, ParamInfo, ParamRange, ParamScale, ParamUnit, SmoothingStyle, StepLabels};

verus! {

/// Number of reverb parameters.
pub const REVERB_PARAM_COUNT: usize = 8;

/// First identifier of the reverb's block of parameter ids.
pub const REVERB_ID_BASE: u32 = 1500;

/// Host identifier of reverb parameter `index` (0 outside the table).
pub open spec fn reverb_param_id(index: int) -> u32 {
    if index == 0 {
        1500
    } else if index == 1 {
        1501
    } else if index == 2 {
        1502
    } else if index == 3 {
        1503
    } else if index == 4 {
        1504
    } else if index == 5 {
        1505
    } else if index == 6 {
        1508
    } else if index == 7 {
        1507
    } else {
        0
    }
}

/// Stable string identifier of reverb parameter `index` (empty outside the table).
pub open spec fn reverb_string_id(index: int) -> Seq<char> {
    if index == 0 {
        "rev_room_size"@
    } else if index == 1 {
        "rev_decay"@
    } else if index == 2 {
        "rev_damping"@
    } else if index == 3 {
        "rev_predelay"@
    } else if index == 4 {
        "rev_mix"@
    } else if index == 5 {
        "rev_width"@
    } else if index == 6 {
        "rev_er_level"@
    } else if index == 7 {
        "rev_output"@
    } else {
        Seq::empty()
    }
}

/// Display name of reverb parameter `index`, where this table fixes it.
pub open spec fn reverb_name(index: int) -> Option<Seq<char>> {
    if index == 0 {
        Some("Room Size"@)
    } else if index == 1 {
        Some("Decay"@)
    } else if index == 2 {
        Some("Damping"@)
    } else if index == 3 {
        Some("Pre-Delay"@)
    } else if index == 4 {
        None
    } else if index == 5 {
        Some("Stereo Width"@)
    } else if index == 6 {
        Some("ER Level"@)
    } else if index == 7 {
        Some("Output"@)
    } else {
        None
    }
}

/// Short display name of reverb parameter `index`, where this table fixes it.
pub open spec fn reverb_short_name(index: int) -> Option<Seq<char>> {
    if index == 0 {
        Some("Room"@)
    } else if index == 1 {
        Some("Decay"@)
    } else if index == 2 {
        Some("Damping"@)
    } else if index == 3 {
        Some("PreDly"@)
    } else if index == 4 {
        None
    } else if index == 5 {
        Some("Width"@)
    } else if index == 6 {
        Some("ER Lvl"@)
    } else if index == 7 {
        None
    } else {
        None
    }
}

/// Range and default of reverb parameter `index` as `f32` bit patterns, where
/// this table fixes them.
pub open spec fn reverb_range(index: int) -> Option<ParamRange> {
    if index == 0 {
        Some(ParamRange { min: 0x0000_0000, max: 0x42C8_0000, default: 0x4248_0000 })
    } else if index == 1 {
        Some(ParamRange { min: 0x0000_0000, max: 0x42C8_0000, default: 0x4248_0000 })
    } else if index == 2 {
        Some(ParamRange { min: 0x0000_0000, max: 0x42C8_0000, default: 0x4248_0000 })
    } else if index == 3 {
        Some(ParamRange { min: 0x0000_0000, max: 0x42C8_0000, default: 0x4120_0000 })
    } else if index == 4 {
        None
    } else if index == 5 {
        Some(ParamRange { min: 0x0000_0000, max: 0x42C8_0000, default: 0x42C8_0000 })
    } else if index == 6 {
        Some(ParamRange { min: 0x0000_0000, max: 0x42C8_0000, default: 0x4248_0000 })
    } else if index == 7 {
        None
    } else {
        None
    }
}

/// Step of reverb parameter `index` as an `f32` bit pattern, where this table
/// fixes it.
pub open spec fn reverb_step(index: int) -> Option<u32> {
    if index == 0 {
        Some(0x3F80_0000)
    } else if index == 1 {
        Some(0x3F80_0000)
    } else if index == 2 {
        Some(0x3F80_0000)
    } else if index == 3 {
        Some(0x3F80_0000)
    } else if index == 4 {
        None
    } else if index == 5 {
        Some(0x3F80_0000)
    } else if index == 6 {
        Some(0x3F80_0000)
    } else if index == 7 {
        None
    } else {
        None
    }
}

/// Descriptor default of reverb parameter `index` as an `f32` bit pattern,
/// where this table fixes it (also where the range comes from a preset).
pub open spec fn reverb_default(index: int) -> Option<u32> {
    if index == 0 {
        Some(0x4248_0000)
    } else if index == 1 {
        Some(0x4248_0000)
    } else if index == 2 {
        Some(0x4248_0000)
    } else if index == 3 {
        Some(0x4120_0000)
    } else if index == 4 {
        None
    } else if index == 5 {
        Some(0x42C8_0000)
    } else if index == 6 {
        Some(0x4248_0000)
    } else if index == 7 {
        Some(0x0000_0000)
    } else {
        None
    }
}

/// Unit of reverb parameter `index`, where this table fixes it.
pub open spec fn reverb_unit(index: int) -> Option<ParamUnit> {
    if index == 0 {
        Some(ParamUnit::Percent)
    } else if index == 1 {
        Some(ParamUnit::Percent)
    } else if index == 2 {
        Some(ParamUnit::Percent)
    } else if index == 3 {
        Some(ParamUnit::Milliseconds)
    } else if index == 4 {
        None
    } else if index == 5 {
        Some(ParamUnit::Percent)
    } else if index == 6 {
        Some(ParamUnit::Percent)
    } else if index == 7 {
        None
    } else {
        None
    }
}

/// Display scale of reverb parameter `index`, where this table sets one.
pub open spec fn reverb_scale(index: int) -> Option<ParamScale> {
    None
}

/// Labels of the steps of reverb parameter `index`.
pub open spec fn reverb_step_labels(index: int) -> LabelSpec {
    LabelSpec::Unlabelled
}

/// Value the reverb's parameter struct takes by default at `index`, as an
/// `f32` bit pattern (0 outside the table).
pub open spec fn reverb_default_value(index: int) -> u32 {
    if index == 0 {
        0x4248_0000
    } else if index == 1 {
        0x4248_0000
    } else if index == 2 {
        0x4248_0000
    } else if index == 3 {
        0x4120_0000
    } else if index == 4 {
        0x4248_0000
    } else if index == 5 {
        0x42C8_0000
    } else if index == 6 {
        0x4248_0000
    } else if index == 7 {
        0x0000_0000
    } else {
        0
    }
}

/// Whether reverb parameter `index` is stepped (takes whole-step values).
pub open spec fn reverb_stepped(index: int) -> bool {
    false
}

/// Whether reverb parameter `index` is a read-only, hidden diagnostic.
pub open spec fn reverb_read_only(index: int) -> bool {
    false
}

/// Smoothing style of reverb parameter `index`.
pub open spec fn reverb_smoothing(index: int) -> SmoothingStyle {
    if index == 0 {
        SmoothingStyle::Slow
    } else if index == 1 {
        SmoothingStyle::Slow
    } else if index == 2 {
        SmoothingStyle::Slow
    } else if index == 3 {
        SmoothingStyle::Interpolated
    } else if index == 4 {
        SmoothingStyle::Standard
    } else if index == 5 {
        SmoothingStyle::Standard
    } else if index == 6 {
        SmoothingStyle::Standard
    } else if index == 7 {
        SmoothingStyle::Standard
    } else {
        SmoothingStyle::Standard
    }
}

/// Parameter table of the reverb.
pub struct ReverbParamTable;

impl ReverbParamTable {
    /// Number of parameters.
    pub fn count() -> (r: usize)
        ensures
            r == REVERB_PARAM_COUNT,
    {
        REVERB_PARAM_COUNT
    }

    /// Descriptor of parameter `index`: `Some` exactly for the 8 parameters.
    pub fn descriptor(index: usize) -> (r: Option<ParamInfo>)
        ensures
            r is Some <==> index < REVERB_PARAM_COUNT,
            r matches Some(p) ==> {
                &&& p.id.0 == reverb_param_id(index as int)
                &&& p.string_id@ == reverb_string_id(index as int)
                &&& opt_view(p.name) == reverb_name(index as int)
                &&& opt_view(p.short_name) == reverb_short_name(index as int)
                &&& p.range == reverb_range(index as int)
                &&& p.step == reverb_step(index as int)
                &&& p.default == reverb_default(index as int)
                &&& p.unit == reverb_unit(index as int)
                &&& p.scale == reverb_scale(index as int)
                &&& p.stepped == reverb_stepped(index as int)
                &&& p.read_only == reverb_read_only(index as int)
            },
    {
        match index {
            0 => Some(ParamInfo {
                id: ParamId(1500),
                string_id: "rev_room_size",
                name: Some("Room Size"),
                short_name: Some("Room"),
                range: Some(ParamRange { min: 0x0000_0000 /* 0.0 */, max: 0x42C8_0000 /* 100.0 */, default: 0x4248_0000 /* 50.0 */ }),
                step: Some(0x3F80_0000 /* 1.0 */),
                default: Some(0x4248_0000 /* 50.0 */),
                unit: Some(ParamUnit::Percent),
                scale: None,
                stepped: false,
                read_only: false,
            }),
            1 => Some(ParamInfo {
                id: ParamId(1501),
                string_id: "rev_decay",
                name: Some("Decay"),
                short_name: Some("Decay"),
                range: Some(ParamRange { min: 0x0000_0000 /* 0.0 */, max: 0x42C8_0000 /* 100.0 */, default: 0x4248_0000 /* 50.0 */ }),
                step: Some(0x3F80_0000 /* 1.0 */),
                default: Some(0x4248_0000 /* 50.0 */),
                unit: Some(ParamUnit::Percent),
                scale: None,
                stepped: false,
                read_only: false,
            }),
            2 => Some(ParamInfo {
                id: ParamId(1502),
                string_id: "rev_damping",
                name: Some("Damping"),
                short_name: Some("Damping"),
                range: Some(ParamRange { min: 0x0000_0000 /* 0.0 */, max: 0x42C8_0000 /* 100.0 */, default: 0x4248_0000 /* 50.0 */ }),
                step: Some(0x3F80_0000 /* 1.0 */),
                default: Some(0x4248_0000 /* 50.0 */),
                unit: Some(ParamUnit::Percent),
                scale: None,
                stepped: false,
                read_only: false,
            }),
            3 => Some(ParamInfo {
                id: ParamId(1503),
                string_id: "rev_predelay",
                name: Some("Pre-Delay"),
                short_name: Some("PreDly"),
                range: Some(ParamRange { min: 0x0000_0000 /* 0.0 */, max: 0x42C8_0000 /* 100.0 */, default: 0x4120_0000 /* 10.0 */ }),
                step: Some(0x3F80_0000 /* 1.0 */),
                default: Some(0x4120_0000 /* 10.0 */),
                unit: Some(ParamUnit::Milliseconds),
                scale: None,
                stepped: false,
                read_only: false,
            }),
            4 => Some(ParamInfo {
                id: ParamId(1504),
                string_id: "rev_mix",
                name: None,
                short_name: None,
                range: None,
                step: None,
                default: None,
                unit: None,
                scale: None,
                stepped: false,
                read_only: false,
            }),
            5 => Some(ParamInfo {
                id: ParamId(1505),
                string_id: "rev_width",
                name: Some("Stereo Width"),
                short_name: Some("Width"),
                range: Some(ParamRange { min: 0x0000_0000 /* 0.0 */, max: 0x42C8_0000 /* 100.0 */, default: 0x42C8_0000 /* 100.0 */ }),
                step: Some(0x3F80_0000 /* 1.0 */),
                default: Some(0x42C8_0000 /* 100.0 */),
                unit: Some(ParamUnit::Percent),
                scale: None,
                stepped: false,
                read_only: false,
            }),
            6 => Some(ParamInfo {
                id: ParamId(1508),
                string_id: "rev_er_level",
                name: Some("ER Level"),
                short_name: Some("ER Lvl"),
                range: Some(ParamRange { min: 0x0000_0000 /* 0.0 */, max: 0x42C8_0000 /* 100.0 */, default: 0x4248_0000 /* 50.0 */ }),
                step: Some(0x3F80_0000 /* 1.0 */),
                default: Some(0x4248_0000 /* 50.0 */),
                unit: Some(ParamUnit::Percent),
                scale: None,
                stepped: false,
                read_only: false,
            }),
            7 => Some(ParamInfo {
                id: ParamId(1507),
                string_id: "rev_output",
                name: Some("Output"),
                short_name: None,
                range: None,
                step: None,
                default: Some(0x0000_0000 /* 0.0 */),
                unit: None,
                scale: None,
                stepped: false,
                read_only: false,
            }),
            _ => None,
        }
    }

    /// Labels of the steps of parameter `index`.
    pub fn step_labels(index: usize) -> (r: StepLabels)
        ensures
            labels_view(r) == reverb_step_labels(index as int),
    {
        match index {
            _ => StepLabels::Unlabelled,
        }
    }

    /// Smoothing style of parameter `index` (`Standard` outside the table).
    pub fn smoothing(index: usize) -> (r: SmoothingStyle)
        ensures
            r == reverb_smoothing(index as int),
    {
        match index {
            0 => SmoothingStyle::Slow,
            1 => SmoothingStyle::Slow,
            2 => SmoothingStyle::Slow,
            3 => SmoothingStyle::Interpolated,
            4 => SmoothingStyle::Standard,
            5 => SmoothingStyle::Standard,
            6 => SmoothingStyle::Standard,
            7 => SmoothingStyle::Standard,
            _ => SmoothingStyle::Standard,
        }
    }

    /// Default value of parameter `index` as an `f32` bit pattern: `Some`
    /// exactly for the 8 parameters.
    pub fn default_value(index: usize) -> (r: Option<u32>)
        ensures
            r is Some <==> index < REVERB_PARAM_COUNT,
            r matches Some(v) ==> v == reverb_default_value(index as int),
    {
        match index {
            0 => Some(0x4248_0000), // 50.0 (room_size_pct)
            1 => Some(0x4248_0000), // 50.0 (decay_pct)
            2 => Some(0x4248_0000), // 50.0 (damping_pct)
            3 => Some(0x4120_0000), // 10.0 (predelay_ms)
            4 => Some(0x4248_0000), // 50.0 (mix_pct)
            5 => Some(0x42C8_0000), // 100.0 (width_pct)
            6 => Some(0x4248_0000), // 50.0 (er_level_pct)
            7 => Some(0x0000_0000), // 0.0 (output_db)
            _ => None,
        }
    }
}

/// The parameter struct's default value agrees with the descriptor's default
/// wherever this table fixes one, and lies inside the range wherever this table
/// fixes a range.
pub proof fn lemma_reverb_defaults_match_descriptors()
    ensures
        forall|i: int|
            0 <= i < REVERB_PARAM_COUNT ==> (#[trigger] reverb_range(i) matches Some(r) ==> r.default
                == reverb_default_value(i) && range_ordered(r)),
        forall|i: int|
            0 <= i < REVERB_PARAM_COUNT ==> (#[trigger] reverb_default(i) matches Some(d) ==> d
                == reverb_default_value(i)),
{
}

/// The reverb's parameter ids are pairwise distinct and all lie in its block
/// `1500..1600`.
pub proof fn lemma_reverb_ids_unique()
    ensures
        forall|i: int, j: int|
            0 <= i < REVERB_PARAM_COUNT && 0 <= j < REVERB_PARAM_COUNT && i != j ==> reverb_param_id(i)
                != reverb_param_id(j),
        forall|i: int|
            0 <= i < REVERB_PARAM_COUNT ==> REVERB_ID_BASE <= #[trigger] reverb_param_id(i) < REVERB_ID_BASE + 100,
{
}

/// Every range this table fixes is ordered, `min <= default <= max`, its default
/// is the descriptor default, and every step it fixes is positive.
pub proof fn lemma_reverb_ranges_ordered()
    ensures
        forall|i: int|
            0 <= i < REVERB_PARAM_COUNT ==> (#[trigger] reverb_range(i) matches Some(r) ==> range_ordered(r)
                && reverb_default(i) == Some(r.default)),
        forall|i: int|
            0 <= i < REVERB_PARAM_COUNT ==> (#[trigger] reverb_step(i) matches Some(s) ==> crate::order::sign_magnitude(s) > 0),
{
}

/// Stepped and read-only reverb parameters are never smoothed: the adapter
/// snaps them to each new value.
pub proof fn lemma_reverb_discrete_params_snap()
    ensures
        forall|i: int|
            0 <= i < REVERB_PARAM_COUNT && (reverb_stepped(i) || reverb_read_only(i)) ==> #[trigger] reverb_smoothing(i)
                == SmoothingStyle::Snap,
{
}

/// What a parameter's string id names fixes how it is shown: ids ending in `delay` name delays in milliseconds, ids ending in `output` name output levels, where the table fixes their range, in decibels.
pub proof fn lemma_reverb_units_follow_ids()
    ensures
        forall|i: int|
            0 <= i < REVERB_PARAM_COUNT && id_ends_with(#[trigger] reverb_string_id(i), "delay"@) ==> reverb_unit(i) == Some(ParamUnit::Milliseconds),
        forall|i: int|
            0 <= i < REVERB_PARAM_COUNT && id_ends_with(#[trigger] reverb_string_id(i), "output"@) ==> (reverb_range(i) is Some ==> reverb_unit(i) == Some(ParamUnit::Decibels)),
{
    reveal_strlit("delay");
    reveal_strlit("output");
    reveal_strlit("rev_room_size");
    reveal_strlit("rev_decay");
    reveal_strlit("rev_damping");
    reveal_strlit("rev_predelay");
    reveal_strlit("rev_mix");
    reveal_strlit("rev_width");
    reveal_strlit("rev_er_level");
    reveal_strlit("rev_output");
    assert(!id_ends_with(reverb_string_id(0), "delay"@)) by {
        assert(reverb_string_id(0).subrange(8, 13)[0] == '_');
    }
    assert(!id_ends_with(reverb_string_id(1), "delay"@)) by {
        assert(reverb_string_id(1).subrange(4, 9)[2] == 'c');
    }
    assert(!id_ends_with(reverb_string_id(2), "delay"@)) by {
        assert(reverb_string_id(2).subrange(6, 11)[0] == 'm');
    }
    assert(!id_ends_with(reverb_string_id(4), "delay"@)) by {
        assert(reverb_string_id(4).subrange(2, 7)[0] == 'v');
    }
    assert(!id_ends_with(reverb_string_id(5), "delay"@)) by {
        assert(reverb_string_id(5).subrange(4, 9)[0] == 'w');
    }
    assert(!id_ends_with(reverb_string_id(6), "delay"@)) by {
        assert(reverb_string_id(6).subrange(7, 12)[0] == 'l');
    }
    assert(!id_ends_with(reverb_string_id(7), "delay"@)) by {
        assert(reverb_string_id(7).subrange(5, 10)[0] == 'u');
    }
    assert(!id_ends_with(reverb_string_id(0), "output"@)) by {
        assert(reverb_string_id(0).subrange(7, 13)[0] == 'm');
    }
    assert(!id_ends_with(reverb_string_id(1), "output"@)) by {
        assert(reverb_string_id(1).subrange(3, 9)[0] == '_');
    }
    assert(!id_ends_with(reverb_string_id(2), "output"@)) by {
        assert(reverb_string_id(2).subrange(5, 11)[0] == 'a');
    }
    assert(!id_ends_with(reverb_string_id(3), "output"@)) by {
        assert(reverb_string_id(3).subrange(6, 12)[0] == 'e');
    }
    assert(!id_ends_with(reverb_string_id(4), "output"@)) by {
        assert(reverb_string_id(4).subrange(1, 7)[0] == 'e');
    }
    assert(!id_ends_with(reverb_string_id(5), "output"@)) by {
        assert(reverb_string_id(5).subrange(3, 9)[0] == '_');
    }
    assert(!id_ends_with(reverb_string_id(6), "output"@)) by {
        assert(reverb_string_id(6).subrange(6, 12)[0] == '_');
    }
}

} // verus!
