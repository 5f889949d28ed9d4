//! Parameter table of the granular texture.

use vstd::prelude::*;
use super::{id_ends_with, labels_view, opt_view, range_ordered, whole_f32_bits, LabelSpec, ParamId, ParamInfo, ParamRange, ParamScale, ParamUnit, SmoothingStyle, StepLabels};

verus! {

/// Number of granular texture parameters.
pub const TEXTURE_PARAM_COUNT: usize = 6;

/// First identifier of the granular texture's block of parameter ids.
pub const TEXTURE_ID_BASE: u32 = 3400;

/// Host identifier of granular texture parameter `index` (0 outside the table).
pub open spec fn texture_param_id(index: int) -> u32 {
    if index == 0 {
        3400
    } else if index == 1 {
        3401
    } else if index == 2 {
        3402
    } else if index == 3 {
        3403
    } else if index == 4 {
        3404
    } else if index == 5 {
        3405
    } else {
        0
    }
}

/// Stable string identifier of granular texture parameter `index` (empty outside the table).
pub open spec fn texture_string_id(index: int) -> Seq<char> {
    if index == 0 {
        "tex_density"@
    } else if index == 1 {
        "tex_size"@
    } else if index == 2 {
        "tex_scatter"@
    } else if index == 3 {
        "tex_pitch_var"@
    } else if index == 4 {
        "tex_mix"@
    } else if index == 5 {
        "tex_output"@
    } else {
        Seq::empty()
    }
}

/// Display name of granular texture parameter `index`, where this table fixes it.
pub open spec fn texture_name(index: int) -> Option<Seq<char>> {
    if index == 0 {
        Some("Density"@)
    } else if index == 1 {
        Some("Size"@)
    } else if index == 2 {
        Some("Scatter"@)
    } else if index == 3 {
        Some("Pitch Var"@)
    } else if index == 4 {
        None
    } else if index == 5 {
        Some("Output"@)
    } else {
        None
    }
}

/// Short display name of granular texture parameter `index`, where this table fixes it.
pub open spec fn texture_short_name(index: int) -> Option<Seq<char>> {
    if index == 0 {
        Some("Density"@)
    } else if index == 1 {
        Some("Size"@)
    } else if index == 2 {
        Some("Scatter"@)
    } else if index == 3 {
        Some("Pitch"@)
    } else if index == 4 {
        None
    } else if index == 5 {
        Some("Out"@)
    } else {
        None
    }
}

/// Range and default of granular texture parameter `index` as `f32` bit patterns, where
/// this table fixes them.
pub open spec fn texture_range(index: int) -> Option<ParamRange> {
    if index == 0 {
        Some(ParamRange { min: 0x3F80_0000, max: 0x41A0_0000, default: 0x4100_0000 })
    } else if index == 1 {
        Some(ParamRange { min: 0x4248_0000, max: 0x43FA_0000, default: 0x4348_0000 })
    } else if index == 2 {
        None
    } else if index == 3 {
        Some(ParamRange { min: 0x0000_0000, max: 0x41C0_0000, default: 0x4000_0000 })
    } else if index == 4 {
        None
    } else if index == 5 {
        Some(ParamRange { min: 0xC270_0000, max: 0x40C0_0000, default: 0x0000_0000 })
    } else {
        None
    }
}

/// Step of granular texture parameter `index` as an `f32` bit pattern, where this table
/// fixes it.
pub open spec fn texture_step(index: int) -> Option<u32> {
    None
}

/// Descriptor default of granular texture parameter `index` as an `f32` bit pattern,
/// where this table fixes it (also where the range comes from a preset).
pub open spec fn texture_default(index: int) -> Option<u32> {
    if index == 0 {
        Some(0x4100_0000)
    } else if index == 1 {
        Some(0x4348_0000)
    } else if index == 2 {
        None
    } else if index == 3 {
        Some(0x4000_0000)
    } else if index == 4 {
        None
    } else if index == 5 {
        Some(0x0000_0000)
    } else {
        None
    }
}

/// Unit of granular texture parameter `index`, where this table fixes it.
pub open spec fn texture_unit(index: int) -> Option<ParamUnit> {
    if index == 0 {
        Some(ParamUnit::Unitless)
    } else if index == 1 {
        Some(ParamUnit::Milliseconds)
    } else if index == 2 {
        None
    } else if index == 3 {
        Some(ParamUnit::Unitless)
    } else if index == 4 {
        None
    } else if index == 5 {
        Some(ParamUnit::Decibels)
    } else {
        None
    }
}

/// Display scale of granular texture parameter `index`, where this table sets one.
pub open spec fn texture_scale(index: int) -> Option<ParamScale> {
    None
}

/// Labels of the steps of granular texture parameter `index`.
pub open spec fn texture_step_labels(index: int) -> LabelSpec {
    LabelSpec::Unlabelled
}

/// Value the granular texture's parameter struct takes by default at `index`, as an
/// `f32` bit pattern (0 outside the table).
pub open spec fn texture_default_value(index: int) -> u32 {
    if index == 0 {
        0x4100_0000
    } else if index == 1 {
        0x4348_0000
    } else if index == 2 {
        0x4248_0000
    } else if index == 3 {
        0x4000_0000
    } else if index == 4 {
        0x4248_0000
    } else if index == 5 {
        0x0000_0000
    } else {
        0
    }
}

/// Whether granular texture parameter `index` is stepped (takes whole-step values).
pub open spec fn texture_stepped(index: int) -> bool {
    false
}

/// Whether granular texture parameter `index` is a read-only, hidden diagnostic.
pub open spec fn texture_read_only(index: int) -> bool {
    false
}

/// Smoothing style of granular texture parameter `index`.
pub open spec fn texture_smoothing(index: int) -> SmoothingStyle {
    if index == 0 {
        SmoothingStyle::Slow
    } else if index == 1 {
        SmoothingStyle::Slow
    } else if index == 2 {
        SmoothingStyle::Standard
    } else if index == 3 {
        SmoothingStyle::Slow
    } else if index == 4 {
        SmoothingStyle::Standard
    } else if index == 5 {
        SmoothingStyle::Fast
    } else {
        SmoothingStyle::Standard
    }
}

/// Parameter table of the granular texture.
pub struct TextureParamTable;

impl TextureParamTable {
    /// Number of parameters.
    pub fn count() -> (r: usize)
        ensures
            r == TEXTURE_PARAM_COUNT,
    {
        TEXTURE_PARAM_COUNT
    }

    /// Descriptor of parameter `index`: `Some` exactly for the 6 parameters.
    pub fn descriptor(index: usize) -> (r: Option<ParamInfo>)
        ensures
            r is Some <==> index < TEXTURE_PARAM_COUNT,
            r matches Some(p) ==> {
                &&& p.id.0 == texture_param_id(index as int)
                &&& p.string_id@ == texture_string_id(index as int)
                &&& opt_view(p.name) == texture_name(index as int)
                &&& opt_view(p.short_name) == texture_short_name(index as int)
                &&& p.range == texture_range(index as int)
                &&& p.step == texture_step(index as int)
                &&& p.default == texture_default(index as int)
                &&& p.unit == texture_unit(index as int)
                &&& p.scale == texture_scale(index as int)
                &&& p.stepped == texture_stepped(index as int)
                &&& p.read_only == texture_read_only(index as int)
            },
    {
        match index {
            0 => Some(ParamInfo {
                id: ParamId(3400),
                string_id: "tex_density",
                name: Some("Density"),
                short_name: Some("Density"),
                range: Some(ParamRange { min: 0x3F80_0000 /* 1.0 */, max: 0x41A0_0000 /* 20.0 */, default: 0x4100_0000 /* 8.0 */ }),
                step: None,
                default: Some(0x4100_0000 /* 8.0 */),
                unit: Some(ParamUnit::Unitless),
                scale: None,
                stepped: false,
                read_only: false,
            }),
            1 => Some(ParamInfo {
                id: ParamId(3401),
                string_id: "tex_size",
                name: Some("Size"),
                short_name: Some("Size"),
                range: Some(ParamRange { min: 0x4248_0000 /* 50.0 */, max: 0x43FA_0000 /* 500.0 */, default: 0x4348_0000 /* 200.0 */ }),
                step: None,
                default: Some(0x4348_0000 /* 200.0 */),
                unit: Some(ParamUnit::Milliseconds),
                scale: None,
                stepped: false,
                read_only: false,
            }),
            2 => Some(ParamInfo {
                id: ParamId(3402),
                string_id: "tex_scatter",
                name: Some("Scatter"),
                short_name: Some("Scatter"),
                range: None,
                step: None,
                default: None,
                unit: None,
                scale: None,
                stepped: false,
                read_only: false,
            }),
            3 => Some(ParamInfo {
                id: ParamId(3403),
                string_id: "tex_pitch_var",
                name: Some("Pitch Var"),
                short_name: Some("Pitch"),
                range: Some(ParamRange { min: 0x0000_0000 /* 0.0 */, max: 0x41C0_0000 /* 24.0 */, default: 0x4000_0000 /* 2.0 */ }),
                step: None,
                default: Some(0x4000_0000 /* 2.0 */),
                unit: Some(ParamUnit::Unitless),
                scale: None,
                stepped: false,
                read_only: false,
            }),
            4 => Some(ParamInfo {
                id: ParamId(3404),
                string_id: "tex_mix",
                name: None,
                short_name: None,
                range: None,
                step: None,
                default: None,
                unit: None,
                scale: None,
                stepped: false,
                read_only: false,
            }),
            5 => Some(ParamInfo {
                id: ParamId(3405),
                string_id: "tex_output",
                name: Some("Output"),
                short_name: Some("Out"),
                range: Some(ParamRange { min: 0xC270_0000 /* -60.0 */, max: 0x40C0_0000 /* 6.0 */, default: 0x0000_0000 /* 0.0 */ }),
                step: None,
                default: Some(0x0000_0000 /* 0.0 */),
                unit: Some(ParamUnit::Decibels),
                scale: None,
                stepped: false,
                read_only: false,
            }),
            _ => None,
        }
    }

    /// Labels of the steps of parameter `index`.
    pub fn step_labels(index: usize) -> (r: StepLabels)
        ensures
            labels_view(r) == texture_step_labels(index as int),
    {
        match index {
            _ => StepLabels::Unlabelled,
        }
    }

    /// Smoothing style of parameter `index` (`Standard` outside the table).
    pub fn smoothing(index: usize) -> (r: SmoothingStyle)
        ensures
            r == texture_smoothing(index as int),
    {
        match index {
            0 => SmoothingStyle::Slow,
            1 => SmoothingStyle::Slow,
            2 => SmoothingStyle::Standard,
            3 => SmoothingStyle::Slow,
            4 => SmoothingStyle::Standard,
            5 => SmoothingStyle::Fast,
            _ => SmoothingStyle::Standard,
        }
    }

    /// Default value of parameter `index` as an `f32` bit pattern: `Some`
    /// exactly for the 6 parameters.
    pub fn default_value(index: usize) -> (r: Option<u32>)
        ensures
            r is Some <==> index < TEXTURE_PARAM_COUNT,
            r matches Some(v) ==> v == texture_default_value(index as int),
    {
        match index {
            0 => Some(0x4100_0000), // 8.0 (density)
            1 => Some(0x4348_0000), // 200.0 (size_ms)
            2 => Some(0x4248_0000), // 50.0 (scatter)
            3 => Some(0x4000_0000), // 2.0 (pitch_var)
            4 => Some(0x4248_0000), // 50.0 (mix_pct)
            5 => Some(0x0000_0000), // 0.0 (output_db)
            _ => None,
        }
    }
}

/// The parameter struct's default value agrees with the descriptor's default
/// wherever this table fixes one, and lies inside the range wherever this table
/// fixes a range.
pub proof fn lemma_texture_defaults_match_descriptors()
    ensures
        forall|i: int|
            0 <= i < TEXTURE_PARAM_COUNT ==> (#[trigger] texture_range(i) matches Some(r) ==> r.default
                == texture_default_value(i) && range_ordered(r)),
        forall|i: int|
            0 <= i < TEXTURE_PARAM_COUNT ==> (#[trigger] texture_default(i) matches Some(d) ==> d
                == texture_default_value(i)),
{
}

/// The granular texture's parameter ids are pairwise distinct and all lie in its block
/// `3400..3500`.
pub proof fn lemma_texture_ids_unique()
    ensures
        forall|i: int, j: int|
            0 <= i < TEXTURE_PARAM_COUNT && 0 <= j < TEXTURE_PARAM_COUNT && i != j ==> texture_param_id(i)
                != texture_param_id(j),
        forall|i: int|
            0 <= i < TEXTURE_PARAM_COUNT ==> TEXTURE_ID_BASE <= #[trigger] texture_param_id(i) < TEXTURE_ID_BASE + 100,
{
}

/// Every range this table fixes is ordered, `min <= default <= max`, its default
/// is the descriptor default, and every step it fixes is positive.
pub proof fn lemma_texture_ranges_ordered()
    ensures
        forall|i: int|
            0 <= i < TEXTURE_PARAM_COUNT ==> (#[trigger] texture_range(i) matches Some(r) ==> range_ordered(r)
                && texture_default(i) == Some(r.default)),
        forall|i: int|
            0 <= i < TEXTURE_PARAM_COUNT ==> (#[trigger] texture_step(i) matches Some(s) ==> crate::order::sign_magnitude(s) > 0),
{
}

/// Stepped and read-only granular texture parameters are never smoothed: the adapter
/// snaps them to each new value.
pub proof fn lemma_texture_discrete_params_snap()
    ensures
        forall|i: int|
            0 <= i < TEXTURE_PARAM_COUNT && (texture_stepped(i) || texture_read_only(i)) ==> #[trigger] texture_smoothing(i)
                == SmoothingStyle::Snap,
{
}

/// What a parameter's string id names fixes how it is shown: ids ending in `output` name output levels, where the table fixes their range, in decibels.
pub proof fn lemma_texture_units_follow_ids()
    ensures
        forall|i: int|
            0 <= i < TEXTURE_PARAM_COUNT && id_ends_with(#[trigger] texture_string_id(i), "output"@) ==> (texture_range(i) is Some ==> texture_unit(i) == Some(ParamUnit::Decibels)),
{
    reveal_strlit("output");
    reveal_strlit("tex_density");
    reveal_strlit("tex_size");
    reveal_strlit("tex_scatter");
    reveal_strlit("tex_pitch_var");
    reveal_strlit("tex_mix");
    reveal_strlit("tex_output");
    assert(!id_ends_with(texture_string_id(0), "output"@)) by {
        assert(texture_string_id(0).subrange(5, 11)[0] == 'e');
    }
    assert(!id_ends_with(texture_string_id(1), "output"@)) by {
        assert(texture_string_id(1).subrange(2, 8)[0] == 'x');
    }
    assert(!id_ends_with(texture_string_id(2), "output"@)) by {
        assert(texture_string_id(2).subrange(5, 11)[0] == 'c');
    }
    assert(!id_ends_with(texture_string_id(3), "output"@)) by {
        assert(texture_string_id(3).subrange(7, 13)[0] == 'c');
    }
    assert(!id_ends_with(texture_string_id(4), "output"@)) by {
        assert(texture_string_id(4).subrange(1, 7)[0] == 'e');
    }
}

} // verus!
