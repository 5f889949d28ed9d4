//! Parameter table of the wah.

use vstd::prelude::*;
use super::{id_ends_with, labels_view, opt_view, range_ordered, whole_f32_bits, LabelSpec, ParamId, ParamInfo, ParamRange, ParamScale, ParamUnit, SmoothingStyle, StepLabels};

verus! {

/// Number of wah parameters.
pub const WAH_PARAM_COUNT: usize = 5;

/// First identifier of the wah's block of parameter ids.
pub const WAH_ID_BASE: u32 = 600;

/// Host identifier of wah parameter `index` (0 outside the table).
pub open spec fn wah_param_id(index: int) -> u32 {
    if index == 0 {
        600
    } else if index == 1 {
        601
    } else if index == 2 {
        602
    } else if index == 3 {
        603
    } else if index == 4 {
        604
    } else {
        0
    }
}

/// Stable string identifier of wah parameter `index` (empty outside the table).
pub open spec fn wah_string_id(index: int) -> Seq<char> {
    if index == 0 {
        "wah_freq"@
    } else if index == 1 {
        "wah_reso"@
    } else if index == 2 {
        "wah_sens"@
    } else if index == 3 {
        "wah_mode"@
    } else if index == 4 {
        "wah_output"@
    } else {
        Seq::empty()
    }
}

/// Display name of wah parameter `index`, where this table fixes it.
pub open spec fn wah_name(index: int) -> Option<Seq<char>> {
    if index == 0 {
        Some("Frequency"@)
    } else if index == 1 {
        Some("Resonance"@)
    } else if index == 2 {
        Some("Sensitivity"@)
    } else if index == 3 {
        Some("Mode"@)
    } else if index == 4 {
        Some("Output"@)
    } else {
        None
    }
}

/// Short display name of wah parameter `index`, where this table fixes it.
pub open spec fn wah_short_name(index: int) -> Option<Seq<char>> {
    if index == 0 {
        Some("Freq"@)
    } else if index == 1 {
        Some("Reso"@)
    } else if index == 2 {
        Some("Sens"@)
    } else if index == 3 {
        Some("Mode"@)
    } else if index == 4 {
        None
    } else {
        None
    }
}

/// Range and default of wah parameter `index` as `f32` bit patterns, where
/// this table fixes them.
pub open spec fn wah_range(index: int) -> Option<ParamRange> {
    if index == 0 {
        Some(ParamRange { min: 0x4348_0000, max: 0x44FA_0000, default: 0x4448_0000 })
    } else if index == 1 {
        Some(ParamRange { min: 0x3F80_0000, max: 0x4120_0000, default: 0x40A0_0000 })
    } else if index == 2 {
        Some(ParamRange { min: 0x0000_0000, max: 0x42C8_0000, default: 0x4248_0000 })
    } else if index == 3 {
        Some(ParamRange { min: 0x0000_0000, max: 0x3F80_0000, default: 0x0000_0000 })
    } else if index == 4 {
        None
    } else {
        None
    }
}

/// Step of wah parameter `index` as an `f32` bit pattern, where this table
/// fixes it.
pub open spec fn wah_step(index: int) -> Option<u32> {
    if index == 0 {
        Some(0x4120_0000)
    } else if index == 1 {
        Some(0x3DCC_CCCD)
    } else if index == 2 {
        Some(0x3F80_0000)
    } else if index == 3 {
        Some(0x3F80_0000)
    } else if index == 4 {
        None
    } else {
        None
    }
}

/// Descriptor default of wah parameter `index` as an `f32` bit pattern,
/// where this table fixes it (also where the range comes from a preset).
pub open spec fn wah_default(index: int) -> Option<u32> {
    if index == 0 {
        Some(0x4448_0000)
    } else if index == 1 {
        Some(0x40A0_0000)
    } else if index == 2 {
        Some(0x4248_0000)
    } else if index == 3 {
        Some(0x0000_0000)
    } else if index == 4 {
        Some(0x0000_0000)
    } else {
        None
    }
}

/// Unit of wah parameter `index`, where this table fixes it.
pub open spec fn wah_unit(index: int) -> Option<ParamUnit> {
    if index == 0 {
        Some(ParamUnit::Hertz)
    } else if index == 1 {
        Some(ParamUnit::Unitless)
    } else if index == 2 {
        Some(ParamUnit::Percent)
    } else if index == 3 {
        Some(ParamUnit::Unitless)
    } else if index == 4 {
        None
    } else {
        None
    }
}

/// Display scale of wah parameter `index`, where this table sets one.
pub open spec fn wah_scale(index: int) -> Option<ParamScale> {
    if index == 0 {
        Some(ParamScale::Logarithmic)
    } else if index == 1 {
        None
    } else if index == 2 {
        None
    } else if index == 3 {
        None
    } else if index == 4 {
        None
    } else {
        None
    }
}

/// Labels of the steps of wah parameter `index`.
pub open spec fn wah_step_labels(index: int) -> LabelSpec {
    if index == 0 {
        LabelSpec::Unlabelled
    } else if index == 1 {
        LabelSpec::Unlabelled
    } else if index == 2 {
        LabelSpec::Unlabelled
    } else if index == 3 {
        LabelSpec::Listed(seq!["Auto"@, "Manual"@])
    } else if index == 4 {
        LabelSpec::Unlabelled
    } else {
        LabelSpec::Unlabelled
    }
}

/// Value the wah's parameter struct takes by default at `index`, as an
/// `f32` bit pattern (0 outside the table).
pub open spec fn wah_default_value(index: int) -> u32 {
    if index == 0 {
        0x4448_0000
    } else if index == 1 {
        0x40A0_0000
    } else if index == 2 {
        0x4248_0000
    } else if index == 3 {
        0x0000_0000
    } else if index == 4 {
        0x0000_0000
    } else {
        0
    }
}

/// Whether wah parameter `index` is stepped (takes whole-step values).
pub open spec fn wah_stepped(index: int) -> bool {
    index == 3
}

/// Whether wah parameter `index` is a read-only, hidden diagnostic.
pub open spec fn wah_read_only(index: int) -> bool {
    false
}

/// Smoothing style of wah parameter `index`.
pub open spec fn wah_smoothing(index: int) -> SmoothingStyle {
    if index == 0 {
        SmoothingStyle::Fast
    } else if index == 1 {
        SmoothingStyle::Slow
    } else if index == 2 {
        SmoothingStyle::Standard
    } else if index == 3 {
        SmoothingStyle::Snap
    } else if index == 4 {
        SmoothingStyle::Standard
    } else {
        SmoothingStyle::Standard
    }
}

/// Parameter table of the wah.
pub struct WahParamTable;

impl WahParamTable {
    /// Number of parameters.
    pub fn count() -> (r: usize)
        ensures
            r == WAH_PARAM_COUNT,
    {
        WAH_PARAM_COUNT
    }

    /// Descriptor of parameter `index`: `Some` exactly for the 5 parameters.
    pub fn descriptor(index: usize) -> (r: Option<ParamInfo>)
        ensures
            r is Some <==> index < WAH_PARAM_COUNT,
            r matches Some(p) ==> {
                &&& p.id.0 == wah_param_id(index as int)
                &&& p.string_id@ == wah_string_id(index as int)
                &&& opt_view(p.name) == wah_name(index as int)
                &&& opt_view(p.short_name) == wah_short_name(index as int)
                &&& p.range == wah_range(index as int)
                &&& p.step == wah_step(index as int)
                &&& p.default == wah_default(index as int)
                &&& p.unit == wah_unit(index as int)
                &&& p.scale == wah_scale(index as int)
                &&& p.stepped == wah_stepped(index as int)
                &&& p.read_only == wah_read_only(index as int)
            },
    {
        match index {
            0 => Some(ParamInfo {
                id: ParamId(600),
                string_id: "wah_freq",
                name: Some("Frequency"),
                short_name: Some("Freq"),
                range: Some(ParamRange { min: 0x4348_0000 /* 200.0 */, max: 0x44FA_0000 /* 2000.0 */, default: 0x4448_0000 /* 800.0 */ }),
                step: Some(0x4120_0000 /* 10.0 */),
                default: Some(0x4448_0000 /* 800.0 */),
                unit: Some(ParamUnit::Hertz),
                scale: Some(ParamScale::Logarithmic),
                stepped: false,
                read_only: false,
            }),
            1 => Some(ParamInfo {
                id: ParamId(601),
                string_id: "wah_reso",
                name: Some("Resonance"),
                short_name: Some("Reso"),
                range: Some(ParamRange { min: 0x3F80_0000 /* 1.0 */, max: 0x4120_0000 /* 10.0 */, default: 0x40A0_0000 /* 5.0 */ }),
                step: Some(0x3DCC_CCCD /* 0.1 */),
                default: Some(0x40A0_0000 /* 5.0 */),
                unit: Some(ParamUnit::Unitless),
                scale: None,
                stepped: false,
                read_only: false,
            }),
            2 => Some(ParamInfo {
                id: ParamId(602),
                string_id: "wah_sens",
                name: Some("Sensitivity"),
                short_name: Some("Sens"),
                range: Some(ParamRange { min: 0x0000_0000 /* 0.0 */, max: 0x42C8_0000 /* 100.0 */, default: 0x4248_0000 /* 50.0 */ }),
                step: Some(0x3F80_0000 /* 1.0 */),
                default: Some(0x4248_0000 /* 50.0 */),
                unit: Some(ParamUnit::Percent),
                scale: None,
                stepped: false,
                read_only: false,
            }),
            3 => Some(ParamInfo {
                id: ParamId(603),
                string_id: "wah_mode",
                name: Some("Mode"),
                short_name: Some("Mode"),
                range: Some(ParamRange { min: 0x0000_0000 /* 0.0 */, max: 0x3F80_0000 /* 1.0 */, default: 0x0000_0000 /* 0.0 */ }),
                step: Some(0x3F80_0000 /* 1.0 */),
                default: Some(0x0000_0000 /* 0.0 */),
                unit: Some(ParamUnit::Unitless),
                scale: None,
                stepped: true,
                read_only: false,
            }),
            4 => Some(ParamInfo {
                id: ParamId(604),
                string_id: "wah_output",
                name: Some("Output"),
                short_name: None,
                range: None,
                step: None,
                default: Some(0x0000_0000 /* 0.0 */),
                unit: None,
                scale: None,
                stepped: false,
                read_only: false,
            }),
            _ => None,
        }
    }

    /// Labels of the steps of parameter `index`.
    pub fn step_labels(index: usize) -> (r: StepLabels)
        ensures
            labels_view(r) == wah_step_labels(index as int),
    {
        match index {
            3 => {
                let v = vec!["Auto", "Manual"];
                assert(v@.map_values(|s: &'static str| s@) =~= seq!["Auto"@, "Manual"@]);
                StepLabels::Listed(v)
            },
            _ => StepLabels::Unlabelled,
        }
    }

    /// Smoothing style of parameter `index` (`Standard` outside the table).
    pub fn smoothing(index: usize) -> (r: SmoothingStyle)
        ensures
            r == wah_smoothing(index as int),
    {
        match index {
            0 => SmoothingStyle::Fast,
            1 => SmoothingStyle::Slow,
            2 => SmoothingStyle::Standard,
            3 => SmoothingStyle::Snap,
            4 => SmoothingStyle::Standard,
            _ => SmoothingStyle::Standard,
        }
    }

    /// Default value of parameter `index` as an `f32` bit pattern: `Some`
    /// exactly for the 5 parameters.
    pub fn default_value(index: usize) -> (r: Option<u32>)
        ensures
            r is Some <==> index < WAH_PARAM_COUNT,
            r matches Some(v) ==> v == wah_default_value(index as int),
    {
        match index {
            0 => Some(0x4448_0000), // 800.0 (freq_hz)
            1 => Some(0x40A0_0000), // 5.0 (resonance)
            2 => Some(0x4248_0000), // 50.0 (sensitivity_pct)
            3 => Some(0x0000_0000), // 0.0 (mode)
            4 => Some(0x0000_0000), // 0.0 (output_db)
            _ => None,
        }
    }
}

/// The parameter struct's default value agrees with the descriptor's default
/// wherever this table fixes one, and lies inside the range wherever this table
/// fixes a range.
pub proof fn lemma_wah_defaults_match_descriptors()
    ensures
        forall|i: int|
            0 <= i < WAH_PARAM_COUNT ==> (#[trigger] wah_range(i) matches Some(r) ==> r.default
                == wah_default_value(i) && range_ordered(r)),
        forall|i: int|
            0 <= i < WAH_PARAM_COUNT ==> (#[trigger] wah_default(i) matches Some(d) ==> d
                == wah_default_value(i)),
{
}

/// The wah's parameter ids are pairwise distinct and all lie in its block
/// `600..700`.
pub proof fn lemma_wah_ids_unique()
    ensures
        forall|i: int, j: int|
            0 <= i < WAH_PARAM_COUNT && 0 <= j < WAH_PARAM_COUNT && i != j ==> wah_param_id(i)
                != wah_param_id(j),
        forall|i: int|
            0 <= i < WAH_PARAM_COUNT ==> WAH_ID_BASE <= #[trigger] wah_param_id(i) < WAH_ID_BASE + 100,
{
}

/// Every range this table fixes is ordered, `min <= default <= max`, its default
/// is the descriptor default, and every step it fixes is positive.
pub proof fn lemma_wah_ranges_ordered()
    ensures
        forall|i: int|
            0 <= i < WAH_PARAM_COUNT ==> (#[trigger] wah_range(i) matches Some(r) ==> range_ordered(r)
                && wah_default(i) == Some(r.default)),
        forall|i: int|
            0 <= i < WAH_PARAM_COUNT ==> (#[trigger] wah_step(i) matches Some(s) ==> crate::order::sign_magnitude(s) > 0),
{
}

/// Stepped and read-only wah parameters are never smoothed: the adapter
/// snaps them to each new value.
pub proof fn lemma_wah_discrete_params_snap()
    ensures
        forall|i: int|
            0 <= i < WAH_PARAM_COUNT && (wah_stepped(i) || wah_read_only(i)) ==> #[trigger] wah_smoothing(i)
                == SmoothingStyle::Snap,
{
}

/// What a parameter's string id names fixes how it is shown: ids ending in `freq` name frequencies in hertz on a logarithmic scale, ids ending in `output` name output levels, where the table fixes their range, in decibels.
pub proof fn lemma_wah_units_follow_ids()
    ensures
        forall|i: int|
            0 <= i < WAH_PARAM_COUNT && id_ends_with(#[trigger] wah_string_id(i), "freq"@) ==> wah_unit(i) == Some(ParamUnit::Hertz) && wah_scale(i) == Some(ParamScale::Logarithmic),
        forall|i: int|
            0 <= i < WAH_PARAM_COUNT && id_ends_with(#[trigger] wah_string_id(i), "output"@) ==> (wah_range(i) is Some ==> wah_unit(i) == Some(ParamUnit::Decibels)),
{
    reveal_strlit("freq");
    reveal_strlit("output");
    reveal_strlit("wah_freq");
    reveal_strlit("wah_reso");
    reveal_strlit("wah_sens");
    reveal_strlit("wah_mode");
    reveal_strlit("wah_output");
    assert(!id_ends_with(wah_string_id(1), "freq"@)) by {
        assert(wah_string_id(1).subrange(4, 8)[0] == 'r');
    }
    assert(!id_ends_with(wah_string_id(2), "freq"@)) by {
        assert(wah_string_id(2).subrange(4, 8)[0] == 's');
    }
    assert(!id_ends_with(wah_string_id(3), "freq"@)) by {
        assert(wah_string_id(3).subrange(4, 8)[0] == 'm');
    }
    assert(!id_ends_with(wah_string_id(4), "freq"@)) by {
        assert(wah_string_id(4).subrange(6, 10)[0] == 't');
    }
    assert(!id_ends_with(wah_string_id(0), "output"@)) by {
        assert(wah_string_id(0).subrange(2, 8)[0] == 'h');
    }
    assert(!id_ends_with(wah_string_id(1), "output"@)) by {
        assert(wah_string_id(1).subrange(2, 8)[0] == 'h');
    }
    assert(!id_ends_with(wah_string_id(2), "output"@)) by {
        assert(wah_string_id(2).subrange(2, 8)[0] == 'h');
    }
    assert(!id_ends_with(wah_string_id(3), "output"@)) by {
        assert(wah_string_id(3).subrange(2, 8)[0] == 'h');
    }
}

/// Every wah parameter in hertz whose range starts at an audible frequency
/// (20 Hz or more) is shown on a logarithmic scale.
pub proof fn lemma_wah_audio_frequencies_logarithmic()
    ensures
        forall|i: int|
            0 <= i < WAH_PARAM_COUNT && #[trigger] wah_unit(i) == Some(ParamUnit::Hertz) && (wah_range(i) matches Some(r)
                && 0x41A0_0000 <= r.min < 0x8000_0000) ==> wah_scale(i) == Some(ParamScale::Logarithmic),
{
}

/// The labels of a wah parameter name its steps: a listed label per whole
/// step from 0 (step 1.0), the framework's twelve note divisions for a division
/// index; and an on/off toggle reads "Off" at step 0 and "On" at step 1 and
/// starts off.
pub proof fn lemma_wah_labels_name_steps()
    ensures
        forall|i: int|
            0 <= i < WAH_PARAM_COUNT ==> (#[trigger] wah_step_labels(i) matches LabelSpec::Listed(l) ==> wah_stepped(i)
                && wah_step(i) == Some(0x3F80_0000u32) && (wah_range(i) matches Some(r) && r.min == 0
                && r.max == whole_f32_bits(l.len() - 1)) && l.no_duplicates()),
        forall|i: int|
            0 <= i < WAH_PARAM_COUNT && #[trigger] wah_step_labels(i) is NoteDivisions ==> wah_stepped(i)
                && wah_step(i) == Some(0x3F80_0000u32) && (wah_range(i) matches Some(r) && r.min == 0
                && r.max == whole_f32_bits(11)),
        forall|i: int|
            0 <= i < WAH_PARAM_COUNT ==> (#[trigger] wah_step_labels(i) matches LabelSpec::Listed(l) ==> (l.contains("On"@)
                ==> l == seq!["Off"@, "On"@] && (wah_range(i) matches Some(r) && r.default == 0))),
{
    reveal_strlit("On");
    reveal_strlit("Off");
    assert("Off"@.len() != "On"@.len());
    reveal_strlit("Auto");
    assert("Auto"@.len() != "On"@.len());
    reveal_strlit("Manual");
    assert("Manual"@.len() != "On"@.len());
    assert(wah_step_labels(3) matches LabelSpec::Listed(l) && !l.contains("On"@));
    assert("Auto"@.len() != "Manual"@.len());
}

/// Every wah parameter that labels its steps is stepped.
pub proof fn lemma_wah_labelled_params_stepped()
    ensures
        forall|i: int|
            0 <= i < WAH_PARAM_COUNT && !(#[trigger] wah_step_labels(i) is Unlabelled) ==> wah_stepped(i),
{
}

} // verus!
