//! Parameter table of the plate reverb.

use vstd::prelude::*;
use super::{id_ends_with, labels_view, opt_view, range_ordered, whole_f32_bits, LabelSpec, ParamId, ParamInfo, ParamRange, ParamScale, ParamUnit, SmoothingStyle, StepLabels};

verus! {

/// Number of plate reverb parameters.
pub const PLATE_REVERB_PARAM_COUNT: usize = 8;

/// First identifier of the plate reverb's block of parameter ids.
pub const PLATE_REVERB_ID_BASE: u32 = 2700;

/// Host identifier of plate reverb parameter `index` (0 outside the table).
pub open spec fn plate_reverb_param_id(index: int) -> u32 {
    if index == 0 {
        2700
    } else if index == 1 {
        2701
    } else if index == 2 {
        2702
    } else if index == 3 {
        2703
    } else if index == 4 {
        2704
    } else if index == 5 {
        2705
    } else if index == 6 {
        2706
    } else if index == 7 {
        2707
    } else {
        0
    }
}

/// Stable string identifier of plate reverb parameter `index` (empty outside the table).
pub open spec fn plate_reverb_string_id(index: int) -> Seq<char> {
    if index == 0 {
        "plate_decay"@
    } else if index == 1 {
        "plate_damping"@
    } else if index == 2 {
        "plate_predelay"@
    } else if index == 3 {
        "plate_bandwidth"@
    } else if index == 4 {
        "plate_diffusion"@
    } else if index == 5 {
        "plate_size"@
    } else if index == 6 {
        "plate_mix"@
    } else if index == 7 {
        "plate_output"@
    } else {
        Seq::empty()
    }
}

/// Display name of plate reverb parameter `index`, where this table fixes it.
pub open spec fn plate_reverb_name(index: int) -> Option<Seq<char>> {
    if index == 0 {
        Some("Decay"@)
    } else if index == 1 {
        Some("Damping"@)
    } else if index == 2 {
        Some("Pre-Delay"@)
    } else if index == 3 {
        Some("Bandwidth"@)
    } else if index == 4 {
        Some("Diffusion"@)
    } else if index == 5 {
        Some("Size"@)
    } else if index == 6 {
        None
    } else if index == 7 {
        Some("Output"@)
    } else {
        None
    }
}

/// Short display name of plate reverb parameter `index`, where this table fixes it.
pub open spec fn plate_reverb_short_name(index: int) -> Option<Seq<char>> {
    if index == 0 {
        Some("Decay"@)
    } else if index == 1 {
        Some("Damp"@)
    } else if index == 2 {
        Some("PreDly"@)
    } else if index == 3 {
        Some("BW"@)
    } else if index == 4 {
        Some("Diff"@)
    } else if index == 5 {
        Some("Size"@)
    } else if index == 6 {
        None
    } else if index == 7 {
        None
    } else {
        None
    }
}

/// Range and default of plate reverb parameter `index` as `f32` bit patterns, where
/// this table fixes them.
pub open spec fn plate_reverb_range(index: int) -> Option<ParamRange> {
    if index == 0 {
        Some(ParamRange { min: 0x3DCC_CCCD, max: 0x4120_0000, default: 0x4000_0000 })
    } else if index == 1 {
        Some(ParamRange { min: 0x0000_0000, max: 0x42C8_0000, default: 0x4248_0000 })
    } else if index == 2 {
        Some(ParamRange { min: 0x0000_0000, max: 0x42C8_0000, default: 0x41A0_0000 })
    } else if index == 3 {
        Some(ParamRange { min: 0x0000_0000, max: 0x42C8_0000, default: 0x42A0_0000 })
    } else if index == 4 {
        Some(ParamRange { min: 0x0000_0000, max: 0x42C8_0000, default: 0x428C_0000 })
    } else if index == 5 {
        Some(ParamRange { min: 0x0000_0000, max: 0x42C8_0000, default: 0x4248_0000 })
    } else if index == 6 {
        None
    } else if index == 7 {
        None
    } else {
        None
    }
}

/// Step of plate reverb parameter `index` as an `f32` bit pattern, where this table
/// fixes it.
pub open spec fn plate_reverb_step(index: int) -> Option<u32> {
    if index == 0 {
        None
    } else if index == 1 {
        Some(0x3F80_0000)
    } else if index == 2 {
        Some(0x3F80_0000)
    } else if index == 3 {
        Some(0x3F80_0000)
    } else if index == 4 {
        Some(0x3F80_0000)
    } else if index == 5 {
        Some(0x3F80_0000)
    } else if index == 6 {
        None
    } else if index == 7 {
        None
    } else {
        None
    }
}

/// Descriptor default of plate reverb parameter `index` as an `f32` bit pattern,
/// where this table fixes it (also where the range comes from a preset).
pub open spec fn plate_reverb_default(index: int) -> Option<u32> {
    if index == 0 {
        Some(0x4000_0000)
    } else if index == 1 {
        Some(0x4248_0000)
    } else if index == 2 {
        Some(0x41A0_0000)
    } else if index == 3 {
        Some(0x42A0_0000)
    } else if index == 4 {
        Some(0x428C_0000)
    } else if index == 5 {
        Some(0x4248_0000)
    } else if index == 6 {
        None
    } else if index == 7 {
        Some(0x0000_0000)
    } else {
        None
    }
}

/// Unit of plate reverb parameter `index`, where this table fixes it.
pub open spec fn plate_reverb_unit(index: int) -> Option<ParamUnit> {
    if index == 0 {
        Some(ParamUnit::Unitless)
    } else if index == 1 {
        Some(ParamUnit::Percent)
    } else if index == 2 {
        Some(ParamUnit::Milliseconds)
    } else if index == 3 {
        Some(ParamUnit::Percent)
    } else if index == 4 {
        Some(ParamUnit::Percent)
    } else if index == 5 {
        Some(ParamUnit::Percent)
    } else if index == 6 {
        None
    } else if index == 7 {
        None
    } else {
        None
    }
}

/// Display scale of plate reverb parameter `index`, where this table sets one.
pub open spec fn plate_reverb_scale(index: int) -> Option<ParamScale> {
    None
}

/// Labels of the steps of plate reverb parameter `index`.
pub open spec fn plate_reverb_step_labels(index: int) -> LabelSpec {
    LabelSpec::Unlabelled
}

/// Value the plate reverb's parameter struct takes by default at `index`, as an
/// `f32` bit pattern (0 outside the table).
pub open spec fn plate_reverb_default_value(index: int) -> u32 {
    if index == 0 {
        0x4000_0000
    } else if index == 1 {
        0x4248_0000
    } else if index == 2 {
        0x41A0_0000
    } else if index == 3 {
        0x42A0_0000
    } else if index == 4 {
        0x428C_0000
    } else if index == 5 {
        0x4248_0000
    } else if index == 6 {
        0x41F0_0000
    } else if index == 7 {
        0x0000_0000
    } else {
        0
    }
}

/// Whether plate reverb parameter `index` is stepped (takes whole-step values).
pub open spec fn plate_reverb_stepped(index: int) -> bool {
    false
}

/// Whether plate reverb parameter `index` is a read-only, hidden diagnostic.
pub open spec fn plate_reverb_read_only(index: int) -> bool {
    false
}

/// Smoothing style of plate reverb parameter `index`.
pub open spec fn plate_reverb_smoothing(index: int) -> SmoothingStyle {
    if index == 0 {
        SmoothingStyle::Slow
    } else if index == 1 {
        SmoothingStyle::Slow
    } else if index == 2 {
        SmoothingStyle::Interpolated
    } else if index == 3 {
        SmoothingStyle::Slow
    } else if index == 4 {
        SmoothingStyle::Standard
    } else if index == 5 {
        SmoothingStyle::Slow
    } else if index == 6 {
        SmoothingStyle::Standard
    } else if index == 7 {
        SmoothingStyle::Fast
    } else {
        SmoothingStyle::Standard
    }
}

/// Parameter table of the plate reverb.
pub struct PlateReverbParamTable;

impl PlateReverbParamTable {
    /// Number of parameters.
    pub fn count() -> (r: usize)
        ensures
            r == PLATE_REVERB_PARAM_COUNT,
    {
        PLATE_REVERB_PARAM_COUNT
    }

    /// Descriptor of parameter `index`: `Some` exactly for the 8 parameters.
    pub fn descriptor(index: usize) -> (r: Option<ParamInfo>)
        ensures
            r is Some <==> index < PLATE_REVERB_PARAM_COUNT,
            r matches Some(p) ==> {
                &&& p.id.0 == plate_reverb_param_id(index as int)
                &&& p.string_id@ == plate_reverb_string_id(index as int)
                &&& opt_view(p.name) == plate_reverb_name(index as int)
                &&& opt_view(p.short_name) == plate_reverb_short_name(index as int)
                &&& p.range == plate_reverb_range(index as int)
                &&& p.step == plate_reverb_step(index as int)
                &&& p.default == plate_reverb_default(index as int)
                &&& p.unit == plate_reverb_unit(index as int)
                &&& p.scale == plate_reverb_scale(index as int)
                &&& p.stepped == plate_reverb_stepped(index as int)
                &&& p.read_only == plate_reverb_read_only(index as int)
            },
    {
        match index {
            0 => Some(ParamInfo {
                id: ParamId(2700),
                string_id: "plate_decay",
                name: Some("Decay"),
                short_name: Some("Decay"),
                range: Some(ParamRange { min: 0x3DCC_CCCD /* 0.1 */, max: 0x4120_0000 /* 10.0 */, default: 0x4000_0000 /* 2.0 */ }),
                step: None,
                default: Some(0x4000_0000 /* 2.0 */),
                unit: Some(ParamUnit::Unitless),
                scale: None,
                stepped: false,
                read_only: false,
            }),
            1 => Some(ParamInfo {
                id: ParamId(2701),
                string_id: "plate_damping",
                name: Some("Damping"),
                short_name: Some("Damp"),
                range: Some(ParamRange { min: 0x0000_0000 /* 0.0 */, max: 0x42C8_0000 /* 100.0 */, default: 0x4248_0000 /* 50.0 */ }),
                step: Some(0x3F80_0000 /* 1.0 */),
                default: Some(0x4248_0000 /* 50.0 */),
                unit: Some(ParamUnit::Percent),
                scale: None,
                stepped: false,
                read_only: false,
            }),
            2 => Some(ParamInfo {
                id: ParamId(2702),
                string_id: "plate_predelay",
                name: Some("Pre-Delay"),
                short_name: Some("PreDly"),
                range: Some(ParamRange { min: 0x0000_0000 /* 0.0 */, max: 0x42C8_0000 /* 100.0 */, default: 0x41A0_0000 /* 20.0 */ }),
                step: Some(0x3F80_0000 /* 1.0 */),
                default: Some(0x41A0_0000 /* 20.0 */),
                unit: Some(ParamUnit::Milliseconds),
                scale: None,
                stepped: false,
                read_only: false,
            }),
            3 => Some(ParamInfo {
                id: ParamId(2703),
                string_id: "plate_bandwidth",
                name: Some("Bandwidth"),
                short_name: Some("BW"),
                range: Some(ParamRange { min: 0x0000_0000 /* 0.0 */, max: 0x42C8_0000 /* 100.0 */, default: 0x42A0_0000 /* 80.0 */ }),
                step: Some(0x3F80_0000 /* 1.0 */),
                default: Some(0x42A0_0000 /* 80.0 */),
                unit: Some(ParamUnit::Percent),
                scale: None,
                stepped: false,
                read_only: false,
            }),
            4 => Some(ParamInfo {
                id: ParamId(2704),
                string_id: "plate_diffusion",
                name: Some("Diffusion"),
                short_name: Some("Diff"),
                range: Some(ParamRange { min: 0x0000_0000 /* 0.0 */, max: 0x42C8_0000 /* 100.0 */, default: 0x428C_0000 /* 70.0 */ }),
                step: Some(0x3F80_0000 /* 1.0 */),
                default: Some(0x428C_0000 /* 70.0 */),
                unit: Some(ParamUnit::Percent),
                scale: None,
                stepped: false,
                read_only: false,
            }),
            5 => Some(ParamInfo {
                id: ParamId(2705),
                string_id: "plate_size",
                name: Some("Size"),
                short_name: Some("Size"),
                range: Some(ParamRange { min: 0x0000_0000 /* 0.0 */, max: 0x42C8_0000 /* 100.0 */, default: 0x4248_0000 /* 50.0 */ }),
                step: Some(0x3F80_0000 /* 1.0 */),
                default: Some(0x4248_0000 /* 50.0 */),
                unit: Some(ParamUnit::Percent),
                scale: None,
                stepped: false,
                read_only: false,
            }),
            6 => Some(ParamInfo {
                id: ParamId(2706),
                string_id: "plate_mix",
                name: None,
                short_name: None,
                range: None,
                step: None,
                default: None,
                unit: None,
                scale: None,
                stepped: false,
                read_only: false,
            }),
            7 => Some(ParamInfo {
                id: ParamId(2707),
                string_id: "plate_output",
                name: Some("Output"),
                short_name: None,
                range: None,
                step: None,
                default: Some(0x0000_0000 /* 0.0 */),
                unit: None,
                scale: None,
                stepped: false,
                read_only: false,
            }),
            _ => None,
        }
    }

    /// Labels of the steps of parameter `index`.
    pub fn step_labels(index: usize) -> (r: StepLabels)
        ensures
            labels_view(r) == plate_reverb_step_labels(index as int),
    {
        match index {
            _ => StepLabels::Unlabelled,
        }
    }

    /// Smoothing style of parameter `index` (`Standard` outside the table).
    pub fn smoothing(index: usize) -> (r: SmoothingStyle)
        ensures
            r == plate_reverb_smoothing(index as int),
    {
        match index {
            0 => SmoothingStyle::Slow,
            1 => SmoothingStyle::Slow,
            2 => SmoothingStyle::Interpolated,
            3 => SmoothingStyle::Slow,
            4 => SmoothingStyle::Standard,
            5 => SmoothingStyle::Slow,
            6 => SmoothingStyle::Standard,
            7 => SmoothingStyle::Fast,
            _ => SmoothingStyle::Standard,
        }
    }

    /// Default value of parameter `index` as an `f32` bit pattern: `Some`
    /// exactly for the 8 parameters.
    pub fn default_value(index: usize) -> (r: Option<u32>)
        ensures
            r is Some <==> index < PLATE_REVERB_PARAM_COUNT,
            r matches Some(v) ==> v == plate_reverb_default_value(index as int),
    {
        match index {
            0 => Some(0x4000_0000), // 2.0 (decay_s)
            1 => Some(0x4248_0000), // 50.0 (damping_pct)
            2 => Some(0x41A0_0000), // 20.0 (predelay_ms)
            3 => Some(0x42A0_0000), // 80.0 (bandwidth_pct)
            4 => Some(0x428C_0000), // 70.0 (diffusion_pct)
            5 => Some(0x4248_0000), // 50.0 (size_pct)
            6 => Some(0x41F0_0000), // 30.0 (mix_pct)
            7 => Some(0x0000_0000), // 0.0 (output_db)
            _ => None,
        }
    }
}

/// The parameter struct's default value agrees with the descriptor's default
/// wherever this table fixes one, and lies inside the range wherever this table
/// fixes a range.
pub proof fn lemma_plate_reverb_defaults_match_descriptors()
    ensures
        forall|i: int|
            0 <= i < PLATE_REVERB_PARAM_COUNT ==> (#[trigger] plate_reverb_range(i) matches Some(r) ==> r.default
                == plate_reverb_default_value(i) && range_ordered(r)),
        forall|i: int|
            0 <= i < PLATE_REVERB_PARAM_COUNT ==> (#[trigger] plate_reverb_default(i) matches Some(d) ==> d
                == plate_reverb_default_value(i)),
{
}

/// The plate reverb's parameter ids are pairwise distinct and all lie in its block
/// `2700..2800`.
pub proof fn lemma_plate_reverb_ids_unique()
    ensures
        forall|i: int, j: int|
            0 <= i < PLATE_REVERB_PARAM_COUNT && 0 <= j < PLATE_REVERB_PARAM_COUNT && i != j ==> plate_reverb_param_id(i)
                != plate_reverb_param_id(j),
        forall|i: int|
            0 <= i < PLATE_REVERB_PARAM_COUNT ==> PLATE_REVERB_ID_BASE <= #[trigger] plate_reverb_param_id(i) < PLATE_REVERB_ID_BASE + 100,
{
}

/// Every range this table fixes is ordered, `min <= default <= max`, its default
/// is the descriptor default, and every step it fixes is positive.
pub proof fn lemma_plate_reverb_ranges_ordered()
    ensures
        forall|i: int|
            0 <= i < PLATE_REVERB_PARAM_COUNT ==> (#[trigger] plate_reverb_range(i) matches Some(r) ==> range_ordered(r)
                && plate_reverb_default(i) == Some(r.default)),
        forall|i: int|
            0 <= i < PLATE_REVERB_PARAM_COUNT ==> (#[trigger] plate_reverb_step(i) matches Some(s) ==> crate::order::sign_magnitude(s) > 0),
{
}

/// Stepped and read-only plate reverb parameters are never smoothed: the adapter
/// snaps them to each new value.
pub proof fn lemma_plate_reverb_discrete_params_snap()
    ensures
        forall|i: int|
            0 <= i < PLATE_REVERB_PARAM_COUNT && (plate_reverb_stepped(i) || plate_reverb_read_only(i)) ==> #[trigger] plate_reverb_smoothing(i)
                == SmoothingStyle::Snap,
{
}

/// What a parameter's string id names fixes how it is shown: ids ending in `delay` name delays in milliseconds, ids ending in `output` name output levels, where the table fixes their range, in decibels.
pub proof fn lemma_plate_reverb_units_follow_ids()
    ensures
        forall|i: int|
            0 <= i < PLATE_REVERB_PARAM_COUNT && id_ends_with(#[trigger] plate_reverb_string_id(i), "delay"@) ==> plate_reverb_unit(i) == Some(ParamUnit::Milliseconds),
        forall|i: int|
            0 <= i < PLATE_REVERB_PARAM_COUNT && id_ends_with(#[trigger] plate_reverb_string_id(i), "output"@) ==> (plate_reverb_range(i) is Some ==> plate_reverb_unit(i) == Some(ParamUnit::Decibels)),
{
    reveal_strlit("delay");
    reveal_strlit("output");
    reveal_strlit("plate_decay");
    reveal_strlit("plate_damping");
    reveal_strlit("plate_predelay");
    reveal_strlit("plate_bandwidth");
    reveal_strlit("plate_diffusion");
    reveal_strlit("plate_size");
    reveal_strlit("plate_mix");
    reveal_strlit("plate_output");
    assert(!id_ends_with(plate_reverb_string_id(0), "delay"@)) by {
        assert(plate_reverb_string_id(0).subrange(6, 11)[2] == 'c');
    }
    assert(!id_ends_with(plate_reverb_string_id(1), "delay"@)) by {
        assert(plate_reverb_string_id(1).subrange(8, 13)[0] == 'm');
    }
    assert(!id_ends_with(plate_reverb_string_id(3), "delay"@)) by {
        assert(plate_reverb_string_id(3).subrange(10, 15)[0] == 'w');
    }
    assert(!id_ends_with(plate_reverb_string_id(4), "delay"@)) by {
        assert(plate_reverb_string_id(4).subrange(10, 15)[0] == 'u');
    }
    assert(!id_ends_with(plate_reverb_string_id(5), "delay"@)) by {
        assert(plate_reverb_string_id(5).subrange(5, 10)[0] == '_');
    }
    assert(!id_ends_with(plate_reverb_string_id(6), "delay"@)) by {
        assert(plate_reverb_string_id(6).subrange(4, 9)[0] == 'e');
    }
    assert(!id_ends_with(plate_reverb_string_id(7), "delay"@)) by {
        assert(plate_reverb_string_id(7).subrange(7, 12)[0] == 'u');
    }
    assert(!id_ends_with(plate_reverb_string_id(0), "output"@)) by {
        assert(plate_reverb_string_id(0).subrange(5, 11)[0] == '_');
    }
    assert(!id_ends_with(plate_reverb_string_id(1), "output"@)) by {
        assert(plate_reverb_string_id(1).subrange(7, 13)[0] == 'a');
    }
    assert(!id_ends_with(plate_reverb_string_id(2), "output"@)) by {
        assert(plate_reverb_string_id(2).subrange(8, 14)[0] == 'e');
    }
    assert(!id_ends_with(plate_reverb_string_id(3), "output"@)) by {
        assert(plate_reverb_string_id(3).subrange(9, 15)[0] == 'd');
    }
    assert(!id_ends_with(plate_reverb_string_id(4), "output"@)) by {
        assert(plate_reverb_string_id(4).subrange(9, 15)[0] == 'f');
    }
    assert(!id_ends_with(plate_reverb_string_id(5), "output"@)) by {
        assert(plate_reverb_string_id(5).subrange(4, 10)[0] == 'e');
    }
    assert(!id_ends_with(plate_reverb_string_id(6), "output"@)) by {
        assert(plate_reverb_string_id(6).subrange(3, 9)[0] == 't');
    }
}

} // verus!
