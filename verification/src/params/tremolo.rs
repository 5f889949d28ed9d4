//! Parameter table of the tremolo.

use vstd::prelude::*;
use super::{id_ends_with, labels_view, opt_view, range_ordered, whole_f32_bits, LabelSpec, ParamId, ParamInfo, ParamRange, ParamScale, ParamUnit, SmoothingStyle, StepLabels};

verus! {

/// Number of tremolo parameters.
pub const TREMOLO_PARAM_COUNT: usize = 7;

/// First identifier of the tremolo's block of parameter ids.
pub const TREMOLO_ID_BASE: u32 = 1000;

/// Host identifier of tremolo parameter `index` (0 outside the table).
pub open spec fn tremolo_param_id(index: int) -> u32 {
    if index == 0 {
        1000
    } else if index == 1 {
        1001
    } else if index == 2 {
        1002
    } else if index == 3 {
        1004
    } else if index == 4 {
        1005
    } else if index == 5 {
        1006
    } else if index == 6 {
        1003
    } else {
        0
    }
}

/// Stable string identifier of tremolo parameter `index` (empty outside the table).
pub open spec fn tremolo_string_id(index: int) -> Seq<char> {
    if index == 0 {
        "trem_rate"@
    } else if index == 1 {
        "trem_depth"@
    } else if index == 2 {
        "trem_waveform"@
    } else if index == 3 {
        "trem_stereo_spread"@
    } else if index == 4 {
        "trem_sync"@
    } else if index == 5 {
        "trem_division"@
    } else if index == 6 {
        "trem_output"@
    } else {
        Seq::empty()
    }
}

/// Display name of tremolo parameter `index`, where this table fixes it.
pub open spec fn tremolo_name(index: int) -> Option<Seq<char>> {
    if index == 0 {
        Some("Rate"@)
    } else if index == 1 {
        None
    } else if index == 2 {
        Some("Waveform"@)
    } else if index == 3 {
        Some("Stereo Spread"@)
    } else if index == 4 {
        Some("Sync"@)
    } else if index == 5 {
        Some("Division"@)
    } else if index == 6 {
        Some("Output"@)
    } else {
        None
    }
}

/// Short display name of tremolo parameter `index`, where this table fixes it.
pub open spec fn tremolo_short_name(index: int) -> Option<Seq<char>> {
    if index == 0 {
        None
    } else if index == 1 {
        None
    } else if index == 2 {
        Some("Wave"@)
    } else if index == 3 {
        Some("Spread"@)
    } else if index == 4 {
        Some("Sync"@)
    } else if index == 5 {
        Some("Div"@)
    } else if index == 6 {
        None
    } else {
        None
    }
}

/// Range and default of tremolo parameter `index` as `f32` bit patterns, where
/// this table fixes them.
pub open spec fn tremolo_range(index: int) -> Option<ParamRange> {
    if index == 0 {
        Some(ParamRange { min: 0x3F00_0000, max: 0x41A0_0000, default: 0x40A0_0000 })
    } else if index == 1 {
        None
    } else if index == 2 {
        Some(ParamRange { min: 0x0000_0000, max: 0x4040_0000, default: 0x0000_0000 })
    } else if index == 3 {
        Some(ParamRange { min: 0x0000_0000, max: 0x42C8_0000, default: 0x0000_0000 })
    } else if index == 4 {
        Some(ParamRange { min: 0x0000_0000, max: 0x3F80_0000, default: 0x0000_0000 })
    } else if index == 5 {
        Some(ParamRange { min: 0x0000_0000, max: 0x4130_0000, default: 0x4040_0000 })
    } else if index == 6 {
        None
    } else {
        None
    }
}

/// Step of tremolo parameter `index` as an `f32` bit pattern, where this table
/// fixes it.
pub open spec fn tremolo_step(index: int) -> Option<u32> {
    if index == 0 {
        None
    } else if index == 1 {
        None
    } else if index == 2 {
        Some(0x3F80_0000)
    } else if index == 3 {
        None
    } else if index == 4 {
        Some(0x3F80_0000)
    } else if index == 5 {
        Some(0x3F80_0000)
    } else if index == 6 {
        None
    } else {
        None
    }
}

/// Descriptor default of tremolo parameter `index` as an `f32` bit pattern,
/// where this table fixes it (also where the range comes from a preset).
pub open spec fn tremolo_default(index: int) -> Option<u32> {
    if index == 0 {
        Some(0x40A0_0000)
    } else if index == 1 {
        None
    } else if index == 2 {
        Some(0x0000_0000)
    } else if index == 3 {
        Some(0x0000_0000)
    } else if index == 4 {
        Some(0x0000_0000)
    } else if index == 5 {
        Some(0x4040_0000)
    } else if index == 6 {
        Some(0x0000_0000)
    } else {
        None
    }
}

/// Unit of tremolo parameter `index`, where this table fixes it.
pub open spec fn tremolo_unit(index: int) -> Option<ParamUnit> {
    if index == 0 {
        Some(ParamUnit::Hertz)
    } else if index == 1 {
        None
    } else if index == 2 {
        Some(ParamUnit::Unitless)
    } else if index == 3 {
        Some(ParamUnit::Percent)
    } else if index == 4 {
        None
    } else if index == 5 {
        None
    } else if index == 6 {
        None
    } else {
        None
    }
}

/// Display scale of tremolo parameter `index`, where this table sets one.
pub open spec fn tremolo_scale(index: int) -> Option<ParamScale> {
    None
}

/// Labels of the steps of tremolo parameter `index`.
pub open spec fn tremolo_step_labels(index: int) -> LabelSpec {
    if index == 0 {
        LabelSpec::Unlabelled
    } else if index == 1 {
        LabelSpec::Unlabelled
    } else if index == 2 {
        LabelSpec::Listed(seq!["Sine"@, "Triangle"@, "Square"@, "SampleHold"@])
    } else if index == 3 {
        LabelSpec::Unlabelled
    } else if index == 4 {
        LabelSpec::Listed(seq!["Off"@, "On"@])
    } else if index == 5 {
        LabelSpec::NoteDivisions
    } else if index == 6 {
        LabelSpec::Unlabelled
    } else {
        LabelSpec::Unlabelled
    }
}

/// Value the tremolo's parameter struct takes by default at `index`, as an
/// `f32` bit pattern (0 outside the table).
pub open spec fn tremolo_default_value(index: int) -> u32 {
    if index == 0 {
        0x40A0_0000
    } else if index == 1 {
        0x4248_0000
    } else if index == 2 {
        0x0000_0000
    } else if index == 3 {
        0x0000_0000
    } else if index == 4 {
        0x0000_0000
    } else if index == 5 {
        0x4040_0000
    } else if index == 6 {
        0x0000_0000
    } else {
        0
    }
}

/// Whether tremolo parameter `index` is stepped (takes whole-step values).
pub open spec fn tremolo_stepped(index: int) -> bool {
    index == 2 || index == 4 || index == 5
}

/// Whether tremolo parameter `index` is a read-only, hidden diagnostic.
pub open spec fn tremolo_read_only(index: int) -> bool {
    false
}

/// Smoothing style of tremolo parameter `index`.
pub open spec fn tremolo_smoothing(index: int) -> SmoothingStyle {
    if index == 0 {
        SmoothingStyle::Standard
    } else if index == 1 {
        SmoothingStyle::Standard
    } else if index == 2 {
        SmoothingStyle::Snap
    } else if index == 3 {
        SmoothingStyle::Standard
    } else if index == 4 {
        SmoothingStyle::Snap
    } else if index == 5 {
        SmoothingStyle::Snap
    } else if index == 6 {
        SmoothingStyle::Standard
    } else {
        SmoothingStyle::Standard
    }
}

/// Parameter table of the tremolo.
pub struct TremoloParamTable;

impl TremoloParamTable {
    /// Number of parameters.
    pub fn count() -> (r: usize)
        ensures
            r == TREMOLO_PARAM_COUNT,
    {
        TREMOLO_PARAM_COUNT
    }

    /// Descriptor of parameter `index`: `Some` exactly for the 7 parameters.
    pub fn descriptor(index: usize) -> (r: Option<ParamInfo>)
        ensures
            r is Some <==> index < TREMOLO_PARAM_COUNT,
            r matches Some(p) ==> {
                &&& p.id.0 == tremolo_param_id(index as int)
                &&& p.string_id@ == tremolo_string_id(index as int)
                &&& opt_view(p.name) == tremolo_name(index as int)
                &&& opt_view(p.short_name) == tremolo_short_name(index as int)
                &&& p.range == tremolo_range(index as int)
                &&& p.step == tremolo_step(index as int)
                &&& p.default == tremolo_default(index as int)
                &&& p.unit == tremolo_unit(index as int)
                &&& p.scale == tremolo_scale(index as int)
                &&& p.stepped == tremolo_stepped(index as int)
                &&& p.read_only == tremolo_read_only(index as int)
            },
    {
        match index {
            0 => Some(ParamInfo {
                id: ParamId(1000),
                string_id: "trem_rate",
                name: Some("Rate"),
                short_name: None,
                range: Some(ParamRange { min: 0x3F00_0000 /* 0.5 */, max: 0x41A0_0000 /* 20.0 */, default: 0x40A0_0000 /* 5.0 */ }),
                step: None,
                default: Some(0x40A0_0000 /* 5.0 */),
                unit: Some(ParamUnit::Hertz),
                scale: None,
                stepped: false,
                read_only: false,
            }),
            1 => Some(ParamInfo {
                id: ParamId(1001),
                string_id: "trem_depth",
                name: None,
                short_name: None,
                range: None,
                step: None,
                default: None,
                unit: None,
                scale: None,
                stepped: false,
                read_only: false,
            }),
            2 => Some(ParamInfo {
                id: ParamId(1002),
                string_id: "trem_waveform",
                name: Some("Waveform"),
                short_name: Some("Wave"),
                range: Some(ParamRange { min: 0x0000_0000 /* 0.0 */, max: 0x4040_0000 /* 3.0 */, default: 0x0000_0000 /* 0.0 */ }),
                step: Some(0x3F80_0000 /* 1.0 */),
                default: Some(0x0000_0000 /* 0.0 */),
                unit: Some(ParamUnit::Unitless),
                scale: None,
                stepped: true,
                read_only: false,
            }),
            3 => Some(ParamInfo {
                id: ParamId(1004),
                string_id: "trem_stereo_spread",
                name: Some("Stereo Spread"),
                short_name: Some("Spread"),
                range: Some(ParamRange { min: 0x0000_0000 /* 0.0 */, max: 0x42C8_0000 /* 100.0 */, default: 0x0000_0000 /* 0.0 */ }),
                step: None,
                default: Some(0x0000_0000 /* 0.0 */),
                unit: Some(ParamUnit::Percent),
                scale: None,
                stepped: false,
                read_only: false,
            }),
            4 => Some(ParamInfo {
                id: ParamId(1005),
                string_id: "trem_sync",
                name: Some("Sync"),
                short_name: Some("Sync"),
                range: Some(ParamRange { min: 0x0000_0000 /* 0.0 */, max: 0x3F80_0000 /* 1.0 */, default: 0x0000_0000 /* 0.0 */ }),
                step: Some(0x3F80_0000 /* 1.0 */),
                default: Some(0x0000_0000 /* 0.0 */),
                unit: None,
                scale: None,
                stepped: true,
                read_only: false,
            }),
            5 => Some(ParamInfo {
                id: ParamId(1006),
                string_id: "trem_division",
                name: Some("Division"),
                short_name: Some("Div"),
                range: Some(ParamRange { min: 0x0000_0000 /* 0.0 */, max: 0x4130_0000 /* 11.0 */, default: 0x4040_0000 /* 3.0 */ }),
                step: Some(0x3F80_0000 /* 1.0 */),
                default: Some(0x4040_0000 /* 3.0 */),
                unit: None,
                scale: None,
                stepped: true,
                read_only: false,
            }),
            6 => Some(ParamInfo {
                id: ParamId(1003),
                string_id: "trem_output",
                name: Some("Output"),
                short_name: None,
                range: None,
                step: None,
                default: Some(0x0000_0000 /* 0.0 */),
                unit: None,
                scale: None,
                stepped: false,
                read_only: false,
            }),
            _ => None,
        }
    }

    /// Labels of the steps of parameter `index`.
    pub fn step_labels(index: usize) -> (r: StepLabels)
        ensures
            labels_view(r) == tremolo_step_labels(index as int),
    {
        match index {
            2 => {
                let v = vec!["Sine", "Triangle", "Square", "SampleHold"];
                assert(v@.map_values(|s: &'static str| s@) =~= seq!["Sine"@, "Triangle"@, "Square"@, "SampleHold"@]);
                StepLabels::Listed(v)
            },
            4 => {
                let v = vec!["Off", "On"];
                assert(v@.map_values(|s: &'static str| s@) =~= seq!["Off"@, "On"@]);
                StepLabels::Listed(v)
            },
            5 => StepLabels::NoteDivisions,
            _ => StepLabels::Unlabelled,
        }
    }

    /// Smoothing style of parameter `index` (`Standard` outside the table).
    pub fn smoothing(index: usize) -> (r: SmoothingStyle)
        ensures
            r == tremolo_smoothing(index as int),
    {
        match index {
            0 => SmoothingStyle::Standard,
            1 => SmoothingStyle::Standard,
            2 => SmoothingStyle::Snap,
            3 => SmoothingStyle::Standard,
            4 => SmoothingStyle::Snap,
            5 => SmoothingStyle::Snap,
            6 => SmoothingStyle::Standard,
            _ => SmoothingStyle::Standard,
        }
    }

    /// Default value of parameter `index` as an `f32` bit pattern: `Some`
    /// exactly for the 7 parameters.
    pub fn default_value(index: usize) -> (r: Option<u32>)
        ensures
            r is Some <==> index < TREMOLO_PARAM_COUNT,
            r matches Some(v) ==> v == tremolo_default_value(index as int),
    {
        match index {
            0 => Some(0x40A0_0000), // 5.0 (rate)
            1 => Some(0x4248_0000), // 50.0 (depth_pct)
            2 => Some(0x0000_0000), // 0.0 (waveform)
            3 => Some(0x0000_0000), // 0.0 (stereo_spread_pct)
            4 => Some(0x0000_0000), // 0.0 (sync)
            5 => Some(0x4040_0000), // 3.0 (division)
            6 => Some(0x0000_0000), // 0.0 (output_db)
            _ => None,
        }
    }
}

/// The parameter struct's default value agrees with the descriptor's default
/// wherever this table fixes one, and lies inside the range wherever this table
/// fixes a range.
pub proof fn lemma_tremolo_defaults_match_descriptors()
    ensures
        forall|i: int|
            0 <= i < TREMOLO_PARAM_COUNT ==> (#[trigger] tremolo_range(i) matches Some(r) ==> r.default
                == tremolo_default_value(i) && range_ordered(r)),
        forall|i: int|
            0 <= i < TREMOLO_PARAM_COUNT ==> (#[trigger] tremolo_default(i) matches Some(d) ==> d
                == tremolo_default_value(i)),
{
}

/// The tremolo's parameter ids are pairwise distinct and all lie in its block
/// `1000..1100`.
pub proof fn lemma_tremolo_ids_unique()
    ensures
        forall|i: int, j: int|
            0 <= i < TREMOLO_PARAM_COUNT && 0 <= j < TREMOLO_PARAM_COUNT && i != j ==> tremolo_param_id(i)
                != tremolo_param_id(j),
        forall|i: int|
            0 <= i < TREMOLO_PARAM_COUNT ==> TREMOLO_ID_BASE <= #[trigger] tremolo_param_id(i) < TREMOLO_ID_BASE + 100,
{
}

/// Every range this table fixes is ordered, `min <= default <= max`, its default
/// is the descriptor default, and every step it fixes is positive.
pub proof fn lemma_tremolo_ranges_ordered()
    ensures
        forall|i: int|
            0 <= i < TREMOLO_PARAM_COUNT ==> (#[trigger] tremolo_range(i) matches Some(r) ==> range_ordered(r)
                && tremolo_default(i) == Some(r.default)),
        forall|i: int|
            0 <= i < TREMOLO_PARAM_COUNT ==> (#[trigger] tremolo_step(i) matches Some(s) ==> crate::order::sign_magnitude(s) > 0),
{
}

/// Stepped and read-only tremolo parameters are never smoothed: the adapter
/// snaps them to each new value.
pub proof fn lemma_tremolo_discrete_params_snap()
    ensures
        forall|i: int|
            0 <= i < TREMOLO_PARAM_COUNT && (tremolo_stepped(i) || tremolo_read_only(i)) ==> #[trigger] tremolo_smoothing(i)
                == SmoothingStyle::Snap,
{
}

/// What a parameter's string id names fixes how it is shown: ids ending in `rate` name rates in hertz, ids ending in `output` name output levels, where the table fixes their range, in decibels.
pub proof fn lemma_tremolo_units_follow_ids()
    ensures
        forall|i: int|
            0 <= i < TREMOLO_PARAM_COUNT && id_ends_with(#[trigger] tremolo_string_id(i), "rate"@) ==> tremolo_unit(i) == Some(ParamUnit::Hertz),
        forall|i: int|
            0 <= i < TREMOLO_PARAM_COUNT && id_ends_with(#[trigger] tremolo_string_id(i), "output"@) ==> (tremolo_range(i) is Some ==> tremolo_unit(i) == Some(ParamUnit::Decibels)),
{
    reveal_strlit("rate");
    reveal_strlit("output");
    reveal_strlit("trem_rate");
    reveal_strlit("trem_depth");
    reveal_strlit("trem_waveform");
    reveal_strlit("trem_stereo_spread");
    reveal_strlit("trem_sync");
    reveal_strlit("trem_division");
    reveal_strlit("trem_output");
    assert(!id_ends_with(tremolo_string_id(1), "rate"@)) by {
        assert(tremolo_string_id(1).subrange(6, 10)[0] == 'e');
    }
    assert(!id_ends_with(tremolo_string_id(2), "rate"@)) by {
        assert(tremolo_string_id(2).subrange(9, 13)[0] == 'f');
    }
    assert(!id_ends_with(tremolo_string_id(3), "rate"@)) by {
        assert(tremolo_string_id(3).subrange(14, 18)[1] == 'e');
    }
    assert(!id_ends_with(tremolo_string_id(4), "rate"@)) by {
        assert(tremolo_string_id(4).subrange(5, 9)[0] == 's');
    }
    assert(!id_ends_with(tremolo_string_id(5), "rate"@)) by {
        assert(tremolo_string_id(5).subrange(9, 13)[0] == 's');
    }
    assert(!id_ends_with(tremolo_string_id(6), "rate"@)) by {
        assert(tremolo_string_id(6).subrange(7, 11)[0] == 't');
    }
    assert(!id_ends_with(tremolo_string_id(0), "output"@)) by {
        assert(tremolo_string_id(0).subrange(3, 9)[0] == 'm');
    }
    assert(!id_ends_with(tremolo_string_id(1), "output"@)) by {
        assert(tremolo_string_id(1).subrange(4, 10)[0] == '_');
    }
    assert(!id_ends_with(tremolo_string_id(2), "output"@)) by {
        assert(tremolo_string_id(2).subrange(7, 13)[0] == 'v');
    }
    assert(!id_ends_with(tremolo_string_id(3), "output"@)) by {
        assert(tremolo_string_id(3).subrange(12, 18)[0] == 's');
    }
    assert(!id_ends_with(tremolo_string_id(4), "output"@)) by {
        assert(tremolo_string_id(4).subrange(3, 9)[0] == 'm');
    }
    assert(!id_ends_with(tremolo_string_id(5), "output"@)) by {
        assert(tremolo_string_id(5).subrange(7, 13)[0] == 'v');
    }
}

/// Every tremolo parameter in hertz whose range starts at an audible frequency
/// (20 Hz or more) is shown on a logarithmic scale.
pub proof fn lemma_tremolo_audio_frequencies_logarithmic()
    ensures
        forall|i: int|
            0 <= i < TREMOLO_PARAM_COUNT && #[trigger] tremolo_unit(i) == Some(ParamUnit::Hertz) && (tremolo_range(i) matches Some(r)
                && 0x41A0_0000 <= r.min < 0x8000_0000) ==> tremolo_scale(i) == Some(ParamScale::Logarithmic),
{
}

/// The labels of a tremolo parameter name its steps: a listed label per whole
/// step from 0 (step 1.0), the framework's twelve note divisions for a division
/// index; and an on/off toggle reads "Off" at step 0 and "On" at step 1 and
/// starts off.
pub proof fn lemma_tremolo_labels_name_steps()
    ensures
        forall|i: int|
            0 <= i < TREMOLO_PARAM_COUNT ==> (#[trigger] tremolo_step_labels(i) matches LabelSpec::Listed(l) ==> tremolo_stepped(i)
                && tremolo_step(i) == Some(0x3F80_0000u32) && (tremolo_range(i) matches Some(r) && r.min == 0
                && r.max == whole_f32_bits(l.len() - 1)) && l.no_duplicates()),
        forall|i: int|
            0 <= i < TREMOLO_PARAM_COUNT && #[trigger] tremolo_step_labels(i) is NoteDivisions ==> tremolo_stepped(i)
                && tremolo_step(i) == Some(0x3F80_0000u32) && (tremolo_range(i) matches Some(r) && r.min == 0
                && r.max == whole_f32_bits(11)),
        forall|i: int|
            0 <= i < TREMOLO_PARAM_COUNT ==> (#[trigger] tremolo_step_labels(i) matches LabelSpec::Listed(l) ==> (l.contains("On"@)
                ==> l == seq!["Off"@, "On"@] && (tremolo_range(i) matches Some(r) && r.default == 0))),
{
    reveal_strlit("On");
    reveal_strlit("Off");
    assert("Off"@.len() != "On"@.len());
    reveal_strlit("Sine");
    assert("Sine"@.len() != "On"@.len());
    reveal_strlit("Triangle");
    assert("Triangle"@.len() != "On"@.len());
    reveal_strlit("Square");
    assert("Square"@.len() != "On"@.len());
    reveal_strlit("SampleHold");
    assert("SampleHold"@.len() != "On"@.len());
    assert(tremolo_step_labels(2) matches LabelSpec::Listed(l) && !l.contains("On"@));
    assert("Sine"@.len() != "Triangle"@.len());
    assert("Sine"@.len() != "Square"@.len());
    assert("Sine"@.len() != "SampleHold"@.len());
    assert("Triangle"@.len() != "Square"@.len());
    assert("Triangle"@.len() != "SampleHold"@.len());
    assert("Square"@.len() != "SampleHold"@.len());
    assert("Off"@.len() != "On"@.len());
}

/// Every tremolo parameter that labels its steps is stepped.
pub proof fn lemma_tremolo_labelled_params_stepped()
    ensures
        forall|i: int|
            0 <= i < TREMOLO_PARAM_COUNT && !(#[trigger] tremolo_step_labels(i) is Unlabelled) ==> tremolo_stepped(i),
{
}

} // verus!
