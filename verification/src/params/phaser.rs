//! Parameter table of the phaser kernel.

use vstd::prelude::*;
use super::{id_ends_with, labels_view, opt_view, range_ordered, whole_f32_bits, LabelSpec, ParamId, ParamInfo, ParamRange, ParamScale, ParamUnit, SmoothingStyle, StepLabels};

verus! {

/// Number of phaser kernel parameters.
pub const PHASER_PARAM_COUNT: usize = 10;

/// First identifier of the phaser kernel's block of parameter ids.
pub const PHASER_ID_BASE: u32 = 900;

/// Host identifier of phaser kernel parameter `index` (0 outside the table).
pub open spec fn phaser_param_id(index: int) -> u32 {
    if index == 0 {
        900
    } else if index == 1 {
        901
    } else if index == 2 {
        902
    } else if index == 3 {
        903
    } else if index == 4 {
        904
    } else if index == 5 {
        906
    } else if index == 6 {
        907
    } else if index == 7 {
        908
    } else if index == 8 {
        909
    } else if index == 9 {
        905
    } else {
        0
    }
}

/// Stable string identifier of phaser kernel parameter `index` (empty outside the table).
pub open spec fn phaser_string_id(index: int) -> Seq<char> {
    if index == 0 {
        "phsr_rate"@
    } else if index == 1 {
        "phsr_depth"@
    } else if index == 2 {
        "phsr_stages"@
    } else if index == 3 {
        "phsr_feedback"@
    } else if index == 4 {
        "phsr_mix"@
    } else if index == 5 {
        "phsr_min_freq"@
    } else if index == 6 {
        "phsr_max_freq"@
    } else if index == 7 {
        "phsr_sync"@
    } else if index == 8 {
        "phsr_division"@
    } else if index == 9 {
        "phsr_output"@
    } else {
        Seq::empty()
    }
}

/// Display name of phaser kernel parameter `index`, where this table fixes it.
pub open spec fn phaser_name(index: int) -> Option<Seq<char>> {
    if index == 0 {
        Some("Rate"@)
    } else if index == 1 {
        None
    } else if index == 2 {
        Some("Stages"@)
    } else if index == 3 {
        Some("Feedback"@)
    } else if index == 4 {
        None
    } else if index == 5 {
        Some("Min Freq"@)
    } else if index == 6 {
        Some("Max Freq"@)
    } else if index == 7 {
        Some("Sync"@)
    } else if index == 8 {
        Some("Division"@)
    } else if index == 9 {
        Some("Output"@)
    } else {
        None
    }
}

/// Short display name of phaser kernel parameter `index`, where this table fixes it.
pub open spec fn phaser_short_name(index: int) -> Option<Seq<char>> {
    if index == 0 {
        None
    } else if index == 1 {
        None
    } else if index == 2 {
        Some("Stg"@)
    } else if index == 3 {
        None
    } else if index == 4 {
        None
    } else if index == 5 {
        Some("MinF"@)
    } else if index == 6 {
        Some("MaxF"@)
    } else if index == 7 {
        Some("Sync"@)
    } else if index == 8 {
        Some("Div"@)
    } else if index == 9 {
        None
    } else {
        None
    }
}

/// Range and default of phaser kernel parameter `index` as `f32` bit patterns, where
/// this table fixes them.
pub open spec fn phaser_range(index: int) -> Option<ParamRange> {
    if index == 0 {
        Some(ParamRange { min: 0x3D4C_CCCD, max: 0x40A0_0000, default: 0x3E99_999A })
    } else if index == 1 {
        None
    } else if index == 2 {
        Some(ParamRange { min: 0x4000_0000, max: 0x4140_0000, default: 0x40C0_0000 })
    } else if index == 3 {
        Some(ParamRange { min: 0x0000_0000, max: 0x42BE_0000, default: 0x4248_0000 })
    } else if index == 4 {
        None
    } else if index == 5 {
        Some(ParamRange { min: 0x41A0_0000, max: 0x44FA_0000, default: 0x4348_0000 })
    } else if index == 6 {
        Some(ParamRange { min: 0x4348_0000, max: 0x469C_4000, default: 0x457A_0000 })
    } else if index == 7 {
        Some(ParamRange { min: 0x0000_0000, max: 0x3F80_0000, default: 0x0000_0000 })
    } else if index == 8 {
        Some(ParamRange { min: 0x0000_0000, max: 0x4130_0000, default: 0x4040_0000 })
    } else if index == 9 {
        None
    } else {
        None
    }
}

/// Step of phaser kernel parameter `index` as an `f32` bit pattern, where this table
/// fixes it.
pub open spec fn phaser_step(index: int) -> Option<u32> {
    if index == 0 {
        None
    } else if index == 1 {
        None
    } else if index == 2 {
        Some(0x4000_0000)
    } else if index == 3 {
        None
    } else if index == 4 {
        None
    } else if index == 5 {
        None
    } else if index == 6 {
        None
    } else if index == 7 {
        Some(0x3F80_0000)
    } else if index == 8 {
        Some(0x3F80_0000)
    } else if index == 9 {
        None
    } else {
        None
    }
}

/// Descriptor default of phaser kernel parameter `index` as an `f32` bit pattern,
/// where this table fixes it (also where the range comes from a preset).
pub open spec fn phaser_default(index: int) -> Option<u32> {
    if index == 0 {
        Some(0x3E99_999A)
    } else if index == 1 {
        None
    } else if index == 2 {
        Some(0x40C0_0000)
    } else if index == 3 {
        Some(0x4248_0000)
    } else if index == 4 {
        None
    } else if index == 5 {
        Some(0x4348_0000)
    } else if index == 6 {
        Some(0x457A_0000)
    } else if index == 7 {
        Some(0x0000_0000)
    } else if index == 8 {
        Some(0x4040_0000)
    } else if index == 9 {
        Some(0x0000_0000)
    } else {
        None
    }
}

/// Unit of phaser kernel parameter `index`, where this table fixes it.
pub open spec fn phaser_unit(index: int) -> Option<ParamUnit> {
    if index == 0 {
        Some(ParamUnit::Hertz)
    } else if index == 1 {
        None
    } else if index == 2 {
        Some(ParamUnit::Unitless)
    } else if index == 3 {
        Some(ParamUnit::Percent)
    } else if index == 4 {
        None
    } else if index == 5 {
        Some(ParamUnit::Hertz)
    } else if index == 6 {
        Some(ParamUnit::Hertz)
    } else if index == 7 {
        None
    } else if index == 8 {
        None
    } else if index == 9 {
        None
    } else {
        None
    }
}

/// Display scale of phaser kernel parameter `index`, where this table sets one.
pub open spec fn phaser_scale(index: int) -> Option<ParamScale> {
    if index == 0 {
        None
    } else if index == 1 {
        None
    } else if index == 2 {
        None
    } else if index == 3 {
        None
    } else if index == 4 {
        None
    } else if index == 5 {
        Some(ParamScale::Logarithmic)
    } else if index == 6 {
        Some(ParamScale::Logarithmic)
    } else if index == 7 {
        None
    } else if index == 8 {
        None
    } else if index == 9 {
        None
    } else {
        None
    }
}

/// Labels of the steps of phaser kernel parameter `index`.
pub open spec fn phaser_step_labels(index: int) -> LabelSpec {
    if index == 0 {
        LabelSpec::Unlabelled
    } else if index == 1 {
        LabelSpec::Unlabelled
    } else if index == 2 {
        LabelSpec::Unlabelled
    } else if index == 3 {
        LabelSpec::Unlabelled
    } else if index == 4 {
        LabelSpec::Unlabelled
    } else if index == 5 {
        LabelSpec::Unlabelled
    } else if index == 6 {
        LabelSpec::Unlabelled
    } else if index == 7 {
        LabelSpec::Listed(seq!["Off"@, "On"@])
    } else if index == 8 {
        LabelSpec::NoteDivisions
    } else if index == 9 {
        LabelSpec::Unlabelled
    } else {
        LabelSpec::Unlabelled
    }
}

/// Value the phaser kernel's parameter struct takes by default at `index`, as an
/// `f32` bit pattern (0 outside the table).
pub open spec fn phaser_default_value(index: int) -> u32 {
    if index == 0 {
        0x3E99_999A
    } else if index == 1 {
        0x4248_0000
    } else if index == 2 {
        0x40C0_0000
    } else if index == 3 {
        0x4248_0000
    } else if index == 4 {
        0x4248_0000
    } else if index == 5 {
        0x4348_0000
    } else if index == 6 {
        0x457A_0000
    } else if index == 7 {
        0x0000_0000
    } else if index == 8 {
        0x4040_0000
    } else if index == 9 {
        0x0000_0000
    } else {
        0
    }
}

/// Whether phaser kernel parameter `index` is stepped (takes whole-step values).
pub open spec fn phaser_stepped(index: int) -> bool {
    index == 2 || index == 7 || index == 8
}

/// Whether phaser kernel parameter `index` is a read-only, hidden diagnostic.
pub open spec fn phaser_read_only(index: int) -> bool {
    false
}

/// Smoothing style of phaser kernel parameter `index`.
pub open spec fn phaser_smoothing(index: int) -> SmoothingStyle {
    if index == 0 {
        SmoothingStyle::Standard
    } else if index == 1 {
        SmoothingStyle::Standard
    } else if index == 2 {
        SmoothingStyle::Snap
    } else if index == 3 {
        SmoothingStyle::Standard
    } else if index == 4 {
        SmoothingStyle::Standard
    } else if index == 5 {
        SmoothingStyle::Slow
    } else if index == 6 {
        SmoothingStyle::Slow
    } else if index == 7 {
        SmoothingStyle::Snap
    } else if index == 8 {
        SmoothingStyle::Snap
    } else if index == 9 {
        SmoothingStyle::Standard
    } else {
        SmoothingStyle::Standard
    }
}

/// Parameter table of the phaser kernel.
pub struct PhaserParamTable;

impl PhaserParamTable {
    /// Number of parameters.
    pub fn count() -> (r: usize)
        ensures
            r == PHASER_PARAM_COUNT,
    {
        PHASER_PARAM_COUNT
    }

    /// Descriptor of parameter `index`: `Some` exactly for the 10 parameters.
    pub fn descriptor(index: usize) -> (r: Option<ParamInfo>)
        ensures
            r is Some <==> index < PHASER_PARAM_COUNT,
            r matches Some(p) ==> {
                &&& p.id.0 == phaser_param_id(index as int)
                &&& p.string_id@ == phaser_string_id(index as int)
                &&& opt_view(p.name) == phaser_name(index as int)
                &&& opt_view(p.short_name) == phaser_short_name(index as int)
                &&& p.range == phaser_range(index as int)
                &&& p.step == phaser_step(index as int)
                &&& p.default == phaser_default(index as int)
                &&& p.unit == phaser_unit(index as int)
                &&& p.scale == phaser_scale(index as int)
                &&& p.stepped == phaser_stepped(index as int)
                &&& p.read_only == phaser_read_only(index as int)
            },
    {
        match index {
            0 => Some(ParamInfo {
                id: ParamId(900),
                string_id: "phsr_rate",
                name: Some("Rate"),
                short_name: None,
                range: Some(ParamRange { min: 0x3D4C_CCCD /* 0.05 */, max: 0x40A0_0000 /* 5.0 */, default: 0x3E99_999A /* 0.3 */ }),
                step: None,
                default: Some(0x3E99_999A /* 0.3 */),
                unit: Some(ParamUnit::Hertz),
                scale: None,
                stepped: false,
                read_only: false,
            }),
            1 => Some(ParamInfo {
                id: ParamId(901),
                string_id: "phsr_depth",
                name: None,
                short_name: None,
                range: None,
                step: None,
                default: None,
                unit: None,
                scale: None,
                stepped: false,
                read_only: false,
            }),
            2 => Some(ParamInfo {
                id: ParamId(902),
                string_id: "phsr_stages",
                name: Some("Stages"),
                short_name: Some("Stg"),
                range: Some(ParamRange { min: 0x4000_0000 /* 2.0 */, max: 0x4140_0000 /* 12.0 */, default: 0x40C0_0000 /* 6.0 */ }),
                step: Some(0x4000_0000 /* 2.0 */),
                default: Some(0x40C0_0000 /* 6.0 */),
                unit: Some(ParamUnit::Unitless),
                scale: None,
                stepped: true,
                read_only: false,
            }),
            3 => Some(ParamInfo {
                id: ParamId(903),
                string_id: "phsr_feedback",
                name: Some("Feedback"),
                short_name: None,
                range: Some(ParamRange { min: 0x0000_0000 /* 0.0 */, max: 0x42BE_0000 /* 95.0 */, default: 0x4248_0000 /* 50.0 */ }),
                step: None,
                default: Some(0x4248_0000 /* 50.0 */),
                unit: Some(ParamUnit::Percent),
                scale: None,
                stepped: false,
                read_only: false,
            }),
            4 => Some(ParamInfo {
                id: ParamId(904),
                string_id: "phsr_mix",
                name: None,
                short_name: None,
                range: None,
                step: None,
                default: None,
                unit: None,
                scale: None,
                stepped: false,
                read_only: false,
            }),
            5 => Some(ParamInfo {
                id: ParamId(906),
                string_id: "phsr_min_freq",
                name: Some("Min Freq"),
                short_name: Some("MinF"),
                range: Some(ParamRange { min: 0x41A0_0000 /* 20.0 */, max: 0x44FA_0000 /* 2000.0 */, default: 0x4348_0000 /* 200.0 */ }),
                step: None,
                default: Some(0x4348_0000 /* 200.0 */),
                unit: Some(ParamUnit::Hertz),
                scale: Some(ParamScale::Logarithmic),
                stepped: false,
                read_only: false,
            }),
            6 => Some(ParamInfo {
                id: ParamId(907),
                string_id: "phsr_max_freq",
                name: Some("Max Freq"),
                short_name: Some("MaxF"),
                range: Some(ParamRange { min: 0x4348_0000 /* 200.0 */, max: 0x469C_4000 /* 20000.0 */, default: 0x457A_0000 /* 4000.0 */ }),
                step: None,
                default: Some(0x457A_0000 /* 4000.0 */),
                unit: Some(ParamUnit::Hertz),
                scale: Some(ParamScale::Logarithmic),
                stepped: false,
                read_only: false,
            }),
            7 => Some(ParamInfo {
                id: ParamId(908),
                string_id: "phsr_sync",
                name: Some("Sync"),
                short_name: Some("Sync"),
                range: Some(ParamRange { min: 0x0000_0000 /* 0.0 */, max: 0x3F80_0000 /* 1.0 */, default: 0x0000_0000 /* 0.0 */ }),
                step: Some(0x3F80_0000 /* 1.0 */),
                default: Some(0x0000_0000 /* 0.0 */),
                unit: None,
                scale: None,
                stepped: true,
                read_only: false,
            }),
            8 => Some(ParamInfo {
                id: ParamId(909),
                string_id: "phsr_division",
                name: Some("Division"),
                short_name: Some("Div"),
                range: Some(ParamRange { min: 0x0000_0000 /* 0.0 */, max: 0x4130_0000 /* 11.0 */, default: 0x4040_0000 /* 3.0 */ }),
                step: Some(0x3F80_0000 /* 1.0 */),
                default: Some(0x4040_0000 /* 3.0 */),
                unit: None,
                scale: None,
                stepped: true,
                read_only: false,
            }),
            9 => Some(ParamInfo {
                id: ParamId(905),
                string_id: "phsr_output",
                name: Some("Output"),
                short_name: None,
                range: None,
                step: None,
                default: Some(0x0000_0000 /* 0.0 */),
                unit: None,
                scale: None,
                stepped: false,
                read_only: false,
            }),
            _ => None,
        }
    }

    /// Labels of the steps of parameter `index`.
    pub fn step_labels(index: usize) -> (r: StepLabels)
        ensures
            labels_view(r) == phaser_step_labels(index as int),
    {
        match index {
            7 => {
                let v = vec!["Off", "On"];
                assert(v@.map_values(|s: &'static str| s@) =~= seq!["Off"@, "On"@]);
                StepLabels::Listed(v)
            },
            8 => StepLabels::NoteDivisions,
            _ => StepLabels::Unlabelled,
        }
    }

    /// Smoothing style of parameter `index` (`Standard` outside the table).
    pub fn smoothing(index: usize) -> (r: SmoothingStyle)
        ensures
            r == phaser_smoothing(index as int),
    {
        match index {
            0 => SmoothingStyle::Standard,
            1 => SmoothingStyle::Standard,
            2 => SmoothingStyle::Snap,
            3 => SmoothingStyle::Standard,
            4 => SmoothingStyle::Standard,
            5 => SmoothingStyle::Slow,
            6 => SmoothingStyle::Slow,
            7 => SmoothingStyle::Snap,
            8 => SmoothingStyle::Snap,
            9 => SmoothingStyle::Standard,
            _ => SmoothingStyle::Standard,
        }
    }

    /// Default value of parameter `index` as an `f32` bit pattern: `Some`
    /// exactly for the 10 parameters.
    pub fn default_value(index: usize) -> (r: Option<u32>)
        ensures
            r is Some <==> index < PHASER_PARAM_COUNT,
            r matches Some(v) ==> v == phaser_default_value(index as int),
    {
        match index {
            0 => Some(0x3E99_999A), // 0.3 (rate)
            1 => Some(0x4248_0000), // 50.0 (depth_pct)
            2 => Some(0x40C0_0000), // 6.0 (stages)
            3 => Some(0x4248_0000), // 50.0 (feedback_pct)
            4 => Some(0x4248_0000), // 50.0 (mix_pct)
            5 => Some(0x4348_0000), // 200.0 (min_freq)
            6 => Some(0x457A_0000), // 4000.0 (max_freq)
            7 => Some(0x0000_0000), // 0.0 (sync)
            8 => Some(0x4040_0000), // 3.0 (division)
            9 => Some(0x0000_0000), // 0.0 (output_db)
            _ => None,
        }
    }
}

/// The parameter struct's default value agrees with the descriptor's default
/// wherever this table fixes one, and lies inside the range wherever this table
/// fixes a range.
pub proof fn lemma_phaser_defaults_match_descriptors()
    ensures
        forall|i: int|
            0 <= i < PHASER_PARAM_COUNT ==> (#[trigger] phaser_range(i) matches Some(r) ==> r.default
                == phaser_default_value(i) && range_ordered(r)),
        forall|i: int|
            0 <= i < PHASER_PARAM_COUNT ==> (#[trigger] phaser_default(i) matches Some(d) ==> d
                == phaser_default_value(i)),
{
}

/// The phaser kernel's parameter ids are pairwise distinct and all lie in its block
/// `900..1000`.
pub proof fn lemma_phaser_ids_unique()
    ensures
        forall|i: int, j: int|
            0 <= i < PHASER_PARAM_COUNT && 0 <= j < PHASER_PARAM_COUNT && i != j ==> phaser_param_id(i)
                != phaser_param_id(j),
        forall|i: int|
            0 <= i < PHASER_PARAM_COUNT ==> PHASER_ID_BASE <= #[trigger] phaser_param_id(i) < PHASER_ID_BASE + 100,
{
}

/// Every range this table fixes is ordered, `min <= default <= max`, its default
/// is the descriptor default, and every step it fixes is positive.
pub proof fn lemma_phaser_ranges_ordered()
    ensures
        forall|i: int|
            0 <= i < PHASER_PARAM_COUNT ==> (#[trigger] phaser_range(i) matches Some(r) ==> range_ordered(r)
                && phaser_default(i) == Some(r.default)),
        forall|i: int|
            0 <= i < PHASER_PARAM_COUNT ==> (#[trigger] phaser_step(i) matches Some(s) ==> crate::order::sign_magnitude(s) > 0),
{
}

/// Stepped and read-only phaser kernel parameters are never smoothed: the adapter
/// snaps them to each new value.
pub proof fn lemma_phaser_discrete_params_snap()
    ensures
        forall|i: int|
            0 <= i < PHASER_PARAM_COUNT && (phaser_stepped(i) || phaser_read_only(i)) ==> #[trigger] phaser_smoothing(i)
                == SmoothingStyle::Snap,
{
}

/// What a parameter's string id names fixes how it is shown: ids ending in `freq` name frequencies in hertz on a logarithmic scale, ids ending in `rate` name rates in hertz, ids ending in `output` name output levels, where the table fixes their range, in decibels.
pub proof fn lemma_phaser_units_follow_ids()
    ensures
        forall|i: int|
            0 <= i < PHASER_PARAM_COUNT && id_ends_with(#[trigger] phaser_string_id(i), "freq"@) ==> phaser_unit(i) == Some(ParamUnit::Hertz) && phaser_scale(i) == Some(ParamScale::Logarithmic),
        forall|i: int|
            0 <= i < PHASER_PARAM_COUNT && id_ends_with(#[trigger] phaser_string_id(i), "rate"@) ==> phaser_unit(i) == Some(ParamUnit::Hertz),
        forall|i: int|
            0 <= i < PHASER_PARAM_COUNT && id_ends_with(#[trigger] phaser_string_id(i), "output"@) ==> (phaser_range(i) is Some ==> phaser_unit(i) == Some(ParamUnit::Decibels)),
{
    reveal_strlit("freq");
    reveal_strlit("rate");
    reveal_strlit("output");
    reveal_strlit("phsr_rate");
    reveal_strlit("phsr_depth");
    reveal_strlit("phsr_stages");
    reveal_strlit("phsr_feedback");
    reveal_strlit("phsr_mix");
    reveal_strlit("phsr_min_freq");
    reveal_strlit("phsr_max_freq");
    reveal_strlit("phsr_sync");
    reveal_strlit("phsr_division");
    reveal_strlit("phsr_output");
    assert(!id_ends_with(phaser_string_id(0), "freq"@)) by {
        assert(phaser_string_id(0).subrange(5, 9)[0] == 'r');
    }
    assert(!id_ends_with(phaser_string_id(1), "freq"@)) by {
        assert(phaser_string_id(1).subrange(6, 10)[0] == 'e');
    }
    assert(!id_ends_with(phaser_string_id(2), "freq"@)) by {
        assert(phaser_string_id(2).subrange(7, 11)[0] == 'a');
    }
    assert(!id_ends_with(phaser_string_id(3), "freq"@)) by {
        assert(phaser_string_id(3).subrange(9, 13)[0] == 'b');
    }
    assert(!id_ends_with(phaser_string_id(4), "freq"@)) by {
        assert(phaser_string_id(4).subrange(4, 8)[0] == '_');
    }
    assert(!id_ends_with(phaser_string_id(7), "freq"@)) by {
        assert(phaser_string_id(7).subrange(5, 9)[0] == 's');
    }
    assert(!id_ends_with(phaser_string_id(8), "freq"@)) by {
        assert(phaser_string_id(8).subrange(9, 13)[0] == 's');
    }
    assert(!id_ends_with(phaser_string_id(9), "freq"@)) by {
        assert(phaser_string_id(9).subrange(7, 11)[0] == 't');
    }
    assert(!id_ends_with(phaser_string_id(1), "rate"@)) by {
        assert(phaser_string_id(1).subrange(6, 10)[0] == 'e');
    }
    assert(!id_ends_with(phaser_string_id(2), "rate"@)) by {
        assert(phaser_string_id(2).subrange(7, 11)[0] == 'a');
    }
    assert(!id_ends_with(phaser_string_id(3), "rate"@)) by {
        assert(phaser_string_id(3).subrange(9, 13)[0] == 'b');
    }
    assert(!id_ends_with(phaser_string_id(4), "rate"@)) by {
        assert(phaser_string_id(4).subrange(4, 8)[0] == '_');
    }
    assert(!id_ends_with(phaser_string_id(5), "rate"@)) by {
        assert(phaser_string_id(5).subrange(9, 13)[0] == 'f');
    }
    assert(!id_ends_with(phaser_string_id(6), "rate"@)) by {
        assert(phaser_string_id(6).subrange(9, 13)[0] == 'f');
    }
    assert(!id_ends_with(phaser_string_id(7), "rate"@)) by {
        assert(phaser_string_id(7).subrange(5, 9)[0] == 's');
    }
    assert(!id_ends_with(phaser_string_id(8), "rate"@)) by {
        assert(phaser_string_id(8).subrange(9, 13)[0] == 's');
    }
    assert(!id_ends_with(phaser_string_id(9), "rate"@)) by {
        assert(phaser_string_id(9).subrange(7, 11)[0] == 't');
    }
    assert(!id_ends_with(phaser_string_id(0), "output"@)) by {
        assert(phaser_string_id(0).subrange(3, 9)[0] == 'r');
    }
    assert(!id_ends_with(phaser_string_id(1), "output"@)) by {
        assert(phaser_string_id(1).subrange(4, 10)[0] == '_');
    }
    assert(!id_ends_with(phaser_string_id(2), "output"@)) by {
        assert(phaser_string_id(2).subrange(5, 11)[0] == 's');
    }
    assert(!id_ends_with(phaser_string_id(3), "output"@)) by {
        assert(phaser_string_id(3).subrange(7, 13)[0] == 'e');
    }
    assert(!id_ends_with(phaser_string_id(4), "output"@)) by {
        assert(phaser_string_id(4).subrange(2, 8)[0] == 's');
    }
    assert(!id_ends_with(phaser_string_id(5), "output"@)) by {
        assert(phaser_string_id(5).subrange(7, 13)[0] == 'n');
    }
    assert(!id_ends_with(phaser_string_id(6), "output"@)) by {
        assert(phaser_string_id(6).subrange(7, 13)[0] == 'x');
    }
    assert(!id_ends_with(phaser_string_id(7), "output"@)) by {
        assert(phaser_string_id(7).subrange(3, 9)[0] == 'r');
    }
    assert(!id_ends_with(phaser_string_id(8), "output"@)) by {
        assert(phaser_string_id(8).subrange(7, 13)[0] == 'v');
    }
}

/// Every phaser kernel parameter in hertz whose range starts at an audible frequency
/// (20 Hz or more) is shown on a logarithmic scale.
pub proof fn lemma_phaser_audio_frequencies_logarithmic()
    ensures
        forall|i: int|
            0 <= i < PHASER_PARAM_COUNT && #[trigger] phaser_unit(i) == Some(ParamUnit::Hertz) && (phaser_range(i) matches Some(r)
                && 0x41A0_0000 <= r.min < 0x8000_0000) ==> phaser_scale(i) == Some(ParamScale::Logarithmic),
{
}

/// The labels of a phaser kernel parameter name its steps: a listed label per whole
/// step from 0 (step 1.0), the framework's twelve note divisions for a division
/// index; and an on/off toggle reads "Off" at step 0 and "On" at step 1 and
/// starts off.
pub proof fn lemma_phaser_labels_name_steps()
    ensures
        forall|i: int|
            0 <= i < PHASER_PARAM_COUNT ==> (#[trigger] phaser_step_labels(i) matches LabelSpec::Listed(l) ==> phaser_stepped(i)
                && phaser_step(i) == Some(0x3F80_0000u32) && (phaser_range(i) matches Some(r) && r.min == 0
                && r.max == whole_f32_bits(l.len() - 1)) && l.no_duplicates()),
        forall|i: int|
            0 <= i < PHASER_PARAM_COUNT && #[trigger] phaser_step_labels(i) is NoteDivisions ==> phaser_stepped(i)
                && phaser_step(i) == Some(0x3F80_0000u32) && (phaser_range(i) matches Some(r) && r.min == 0
                && r.max == whole_f32_bits(11)),
        forall|i: int|
            0 <= i < PHASER_PARAM_COUNT ==> (#[trigger] phaser_step_labels(i) matches LabelSpec::Listed(l) ==> (l.contains("On"@)
                ==> l == seq!["Off"@, "On"@] && (phaser_range(i) matches Some(r) && r.default == 0))),
{
    reveal_strlit("On");
    reveal_strlit("Off");
    assert("Off"@.len() != "On"@.len());
    assert("Off"@.len() != "On"@.len());
}

/// Every phaser kernel parameter that labels its steps is stepped.
pub proof fn lemma_phaser_labelled_params_stepped()
    ensures
        forall|i: int|
            0 <= i < PHASER_PARAM_COUNT && !(#[trigger] phaser_step_labels(i) is Unlabelled) ==> phaser_stepped(i),
{
}

} // verus!
