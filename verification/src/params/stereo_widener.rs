//! Parameter table of the stereo widener.

use vstd::prelude::*;
use super::{id_ends_with, labels_view, opt_view, range_ordered, whole_f32_bits, LabelSpec, ParamId, ParamInfo, ParamRange, ParamScale, ParamUnit, SmoothingStyle, StepLabels};

verus! {

/// Number of stereo widener parameters.
pub const STEREO_WIDENER_PARAM_COUNT: usize = 4;

/// First identifier of the stereo widener's block of parameter ids.
pub const STEREO_WIDENER_ID_BASE: u32 = 3100;

/// Host identifier of stereo widener parameter `index` (0 outside the table).
pub open spec fn stereo_widener_param_id(index: int) -> u32 {
    if index == 0 {
        3100
    } else if index == 1 {
        3101
    } else if index == 2 {
        3102
    } else if index == 3 {
        3103
    } else {
        0
    }
}

/// Stable string identifier of stereo widener parameter `index` (empty outside the table).
pub open spec fn stereo_widener_string_id(index: int) -> Seq<char> {
    if index == 0 {
        "sw_width"@
    } else if index == 1 {
        "sw_haas_delay"@
    } else if index == 2 {
        "sw_bass_mono"@
    } else if index == 3 {
        "sw_output"@
    } else {
        Seq::empty()
    }
}

/// Display name of stereo widener parameter `index`, where this table fixes it.
pub open spec fn stereo_widener_name(index: int) -> Option<Seq<char>> {
    if index == 0 {
        Some("Width"@)
    } else if index == 1 {
        Some("Haas Delay"@)
    } else if index == 2 {
        Some("Bass Mono"@)
    } else if index == 3 {
        Some("Output"@)
    } else {
        None
    }
}

/// Short display name of stereo widener parameter `index`, where this table fixes it.
pub open spec fn stereo_widener_short_name(index: int) -> Option<Seq<char>> {
    if index == 0 {
        Some("Width"@)
    } else if index == 1 {
        Some("Haas"@)
    } else if index == 2 {
        Some("BassMn"@)
    } else if index == 3 {
        None
    } else {
        None
    }
}

/// Range and default of stereo widener parameter `index` as `f32` bit patterns, where
/// this table fixes them.
pub open spec fn stereo_widener_range(index: int) -> Option<ParamRange> {
    if index == 0 {
        Some(ParamRange { min: 0x0000_0000, max: 0x4348_0000, default: 0x42C8_0000 })
    } else if index == 1 {
        Some(ParamRange { min: 0x0000_0000, max: 0x41F0_0000, default: 0x0000_0000 })
    } else if index == 2 {
        Some(ParamRange { min: 0x0000_0000, max: 0x43FA_0000, default: 0x0000_0000 })
    } else if index == 3 {
        None
    } else {
        None
    }
}

/// Step of stereo widener parameter `index` as an `f32` bit pattern, where this table
/// fixes it.
pub open spec fn stereo_widener_step(index: int) -> Option<u32> {
    if index == 0 {
        Some(0x3F80_0000)
    } else if index == 1 {
        Some(0x3DCC_CCCD)
    } else if index == 2 {
        Some(0x3F80_0000)
    } else if index == 3 {
        None
    } else {
        None
    }
}

/// Descriptor default of stereo widener parameter `index` as an `f32` bit pattern,
/// where this table fixes it (also where the range comes from a preset).
pub open spec fn stereo_widener_default(index: int) -> Option<u32> {
    if index == 0 {
        Some(0x42C8_0000)
    } else if index == 1 {
        Some(0x0000_0000)
    } else if index == 2 {
        Some(0x0000_0000)
    } else if index == 3 {
        Some(0x0000_0000)
    } else {
        None
    }
}

/// Unit of stereo widener parameter `index`, where this table fixes it.
pub open spec fn stereo_widener_unit(index: int) -> Option<ParamUnit> {
    if index == 0 {
        Some(ParamUnit::Percent)
    } else if index == 1 {
        Some(ParamUnit::Milliseconds)
    } else if index == 2 {
        Some(ParamUnit::Hertz)
    } else if index == 3 {
        None
    } else {
        None
    }
}

/// Display scale of stereo widener parameter `index`, where this table sets one.
pub open spec fn stereo_widener_scale(index: int) -> Option<ParamScale> {
    None
}

/// Labels of the steps of stereo widener parameter `index`.
pub open spec fn stereo_widener_step_labels(index: int) -> LabelSpec {
    LabelSpec::Unlabelled
}

/// Value the stereo widener's parameter struct takes by default at `index`, as an
/// `f32` bit pattern (0 outside the table).
pub open spec fn stereo_widener_default_value(index: int) -> u32 {
    if index == 0 {
        0x42C8_0000
    } else if index == 1 {
        0x0000_0000
    } else if index == 2 {
        0x0000_0000
    } else if index == 3 {
        0x0000_0000
    } else {
        0
    }
}

/// Whether stereo widener parameter `index` is stepped (takes whole-step values).
pub open spec fn stereo_widener_stepped(index: int) -> bool {
    false
}

/// Whether stereo widener parameter `index` is a read-only, hidden diagnostic.
pub open spec fn stereo_widener_read_only(index: int) -> bool {
    false
}

/// Smoothing style of stereo widener parameter `index`.
pub open spec fn stereo_widener_smoothing(index: int) -> SmoothingStyle {
    if index == 0 {
        SmoothingStyle::Standard
    } else if index == 1 {
        SmoothingStyle::Interpolated
    } else if index == 2 {
        SmoothingStyle::Slow
    } else if index == 3 {
        SmoothingStyle::Fast
    } else {
        SmoothingStyle::Standard
    }
}

/// Parameter table of the stereo widener.
pub struct StereoWidenerParamTable;

impl StereoWidenerParamTable {
    /// Number of parameters.
    pub fn count() -> (r: usize)
        ensures
            r == STEREO_WIDENER_PARAM_COUNT,
    {
        STEREO_WIDENER_PARAM_COUNT
    }

    /// Descriptor of parameter `index`: `Some` exactly for the 4 parameters.
    pub fn descriptor(index: usize) -> (r: Option<ParamInfo>)
        ensures
            r is Some <==> index < STEREO_WIDENER_PARAM_COUNT,
            r matches Some(p) ==> {
                &&& p.id.0 == stereo_widener_param_id(index as int)
                &&& p.string_id@ == stereo_widener_string_id(index as int)
                &&& opt_view(p.name) == stereo_widener_name(index as int)
                &&& opt_view(p.short_name) == stereo_widener_short_name(index as int)
                &&& p.range == stereo_widener_range(index as int)
                &&& p.step == stereo_widener_step(index as int)
                &&& p.default == stereo_widener_default(index as int)
                &&& p.unit == stereo_widener_unit(index as int)
                &&& p.scale == stereo_widener_scale(index as int)
                &&& p.stepped == stereo_widener_stepped(index as int)
                &&& p.read_only == stereo_widener_read_only(index as int)
            },
    {
        match index {
            0 => Some(ParamInfo {
                id: ParamId(3100),
                string_id: "sw_width",
                name: Some("Width"),
                short_name: Some("Width"),
                range: Some(ParamRange { min: 0x0000_0000 /* 0.0 */, max: 0x4348_0000 /* 200.0 */, default: 0x42C8_0000 /* 100.0 */ }),
                step: Some(0x3F80_0000 /* 1.0 */),
                default: Some(0x42C8_0000 /* 100.0 */),
                unit: Some(ParamUnit::Percent),
                scale: None,
                stepped: false,
                read_only: false,
            }),
            1 => Some(ParamInfo {
                id: ParamId(3101),
                string_id: "sw_haas_delay",
                name: Some("Haas Delay"),
                short_name: Some("Haas"),
                range: Some(ParamRange { min: 0x0000_0000 /* 0.0 */, max: 0x41F0_0000 /* 30.0 */, default: 0x0000_0000 /* 0.0 */ }),
                step: Some(0x3DCC_CCCD /* 0.1 */),
                default: Some(0x0000_0000 /* 0.0 */),
                unit: Some(ParamUnit::Milliseconds),
                scale: None,
                stepped: false,
                read_only: false,
            }),
            2 => Some(ParamInfo {
                id: ParamId(3102),
                string_id: "sw_bass_mono",
                name: Some("Bass Mono"),
                short_name: Some("BassMn"),
                range: Some(ParamRange { min: 0x0000_0000 /* 0.0 */, max: 0x43FA_0000 /* 500.0 */, default: 0x0000_0000 /* 0.0 */ }),
                step: Some(0x3F80_0000 /* 1.0 */),
                default: Some(0x0000_0000 /* 0.0 */),
                unit: Some(ParamUnit::Hertz),
                scale: None,
                stepped: false,
                read_only: false,
            }),
            3 => Some(ParamInfo {
                id: ParamId(3103),
                string_id: "sw_output",
                name: Some("Output"),
                short_name: None,
                range: None,
                step: None,
                default: Some(0x0000_0000 /* 0.0 */),
                unit: None,
                scale: None,
                stepped: false,
                read_only: false,
            }),
            _ => None,
        }
    }

    /// Labels of the steps of parameter `index`.
    pub fn step_labels(index: usize) -> (r: StepLabels)
        ensures
            labels_view(r) == stereo_widener_step_labels(index as int),
    {
        match index {
            _ => StepLabels::Unlabelled,
        }
    }

    /// Smoothing style of parameter `index` (`Standard` outside the table).
    pub fn smoothing(index: usize) -> (r: SmoothingStyle)
        ensures
            r == stereo_widener_smoothing(index as int),
    {
        match index {
            0 => SmoothingStyle::Standard,
            1 => SmoothingStyle::Interpolated,
            2 => SmoothingStyle::Slow,
            3 => SmoothingStyle::Fast,
            _ => SmoothingStyle::Standard,
        }
    }

    /// Default value of parameter `index` as an `f32` bit pattern: `Some`
    /// exactly for the 4 parameters.
    pub fn default_value(index: usize) -> (r: Option<u32>)
        ensures
            r is Some <==> index < STEREO_WIDENER_PARAM_COUNT,
            r matches Some(v) ==> v == stereo_widener_default_value(index as int),
    {
        match index {
            0 => Some(0x42C8_0000), // 100.0 (width_pct)
            1 => Some(0x0000_0000), // 0.0 (haas_delay_ms)
            2 => Some(0x0000_0000), // 0.0 (bass_mono_hz)
            3 => Some(0x0000_0000), // 0.0 (output_db)
            _ => None,
        }
    }
}

/// The parameter struct's default value agrees with the descriptor's default
/// wherever this table fixes one, and lies inside the range wherever this table
/// fixes a range.
pub proof fn lemma_stereo_widener_defaults_match_descriptors()
    ensures
        forall|i: int|
            0 <= i < STEREO_WIDENER_PARAM_COUNT ==> (#[trigger] stereo_widener_range(i) matches Some(r) ==> r.default
                == stereo_widener_default_value(i) && range_ordered(r)),
        forall|i: int|
            0 <= i < STEREO_WIDENER_PARAM_COUNT ==> (#[trigger] stereo_widener_default(i) matches Some(d) ==> d
                == stereo_widener_default_value(i)),
{
}

/// The stereo widener's parameter ids are pairwise distinct and all lie in its block
/// `3100..3200`.
pub proof fn lemma_stereo_widener_ids_unique()
    ensures
        forall|i: int, j: int|
            0 <= i < STEREO_WIDENER_PARAM_COUNT && 0 <= j < STEREO_WIDENER_PARAM_COUNT && i != j ==> stereo_widener_param_id(i)
                != stereo_widener_param_id(j),
        forall|i: int|
            0 <= i < STEREO_WIDENER_PARAM_COUNT ==> STEREO_WIDENER_ID_BASE <= #[trigger] stereo_widener_param_id(i) < STEREO_WIDENER_ID_BASE + 100,
{
}

/// Every range this table fixes is ordered, `min <= default <= max`, its default
/// is the descriptor default, and every step it fixes is positive.
pub proof fn lemma_stereo_widener_ranges_ordered()
    ensures
        forall|i: int|
            0 <= i < STEREO_WIDENER_PARAM_COUNT ==> (#[trigger] stereo_widener_range(i) matches Some(r) ==> range_ordered(r)
                && stereo_widener_default(i) == Some(r.default)),
        forall|i: int|
            0 <= i < STEREO_WIDENER_PARAM_COUNT ==> (#[trigger] stereo_widener_step(i) matches Some(s) ==> crate::order::sign_magnitude(s) > 0),
{
}

/// Stepped and read-only stereo widener parameters are never smoothed: the adapter
/// snaps them to each new value.
pub proof fn lemma_stereo_widener_discrete_params_snap()
    ensures
        forall|i: int|
            0 <= i < STEREO_WIDENER_PARAM_COUNT && (stereo_widener_stepped(i) || stereo_widener_read_only(i)) ==> #[trigger] stereo_widener_smoothing(i)
                == SmoothingStyle::Snap,
{
}

/// What a parameter's string id names fixes how it is shown: ids ending in `delay` name delays in milliseconds, ids ending in `output` name output levels, where the table fixes their range, in decibels.
pub proof fn lemma_stereo_widener_units_follow_ids()
    ensures
        forall|i: int|
            0 <= i < STEREO_WIDENER_PARAM_COUNT && id_ends_with(#[trigger] stereo_widener_string_id(i), "delay"@) ==> stereo_widener_unit(i) == Some(ParamUnit::Milliseconds),
        forall|i: int|
            0 <= i < STEREO_WIDENER_PARAM_COUNT && id_ends_with(#[trigger] stereo_widener_string_id(i), "output"@) ==> (stereo_widener_range(i) is Some ==> stereo_widener_unit(i) == Some(ParamUnit::Decibels)),
{
    reveal_strlit("delay");
    reveal_strlit("output");
    reveal_strlit("sw_width");
    reveal_strlit("sw_haas_delay");
    reveal_strlit("sw_bass_mono");
    reveal_strlit("sw_output");
    assert(!id_ends_with(stereo_widener_string_id(0), "delay"@)) by {
        assert(stereo_widener_string_id(0).subrange(3, 8)[0] == 'w');
    }
    assert(!id_ends_with(stereo_widener_string_id(2), "delay"@)) by {
        assert(stereo_widener_string_id(2).subrange(7, 12)[0] == '_');
    }
    assert(!id_ends_with(stereo_widener_string_id(3), "delay"@)) by {
        assert(stereo_widener_string_id(3).subrange(4, 9)[0] == 'u');
    }
    assert(!id_ends_with(stereo_widener_string_id(0), "output"@)) by {
        assert(stereo_widener_string_id(0).subrange(2, 8)[0] == '_');
    }
    assert(!id_ends_with(stereo_widener_string_id(1), "output"@)) by {
        assert(stereo_widener_string_id(1).subrange(7, 13)[0] == '_');
    }
    assert(!id_ends_with(stereo_widener_string_id(2), "output"@)) by {
        assert(stereo_widener_string_id(2).subrange(6, 12)[0] == 's');
    }
}

/// Every stereo widener parameter in hertz whose range starts at an audible frequency
/// (20 Hz or more) is shown on a logarithmic scale.
pub proof fn lemma_stereo_widener_audio_frequencies_logarithmic()
    ensures
        forall|i: int|
            0 <= i < STEREO_WIDENER_PARAM_COUNT && #[trigger] stereo_widener_unit(i) == Some(ParamUnit::Hertz) && (stereo_widener_range(i) matches Some(r)
                && 0x41A0_0000 <= r.min < 0x8000_0000) ==> stereo_widener_scale(i) == Some(ParamScale::Logarithmic),
{
}

} // verus!
