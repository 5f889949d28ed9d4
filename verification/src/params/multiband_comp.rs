//! Parameter table of the multiband compressor.

use vstd::prelude::*;
use super::{id_ends_with, labels_view, opt_view, range_ordered, whole_f32_bits, LabelSpec, ParamId, ParamInfo, ParamRange, ParamScale, ParamUnit, SmoothingStyle, StepLabels};

verus! {

/// Number of multiband compressor parameters.
pub const MULTIBAND_COMP_PARAM_COUNT: usize = 12;

/// First identifier of the multiband compressor's block of parameter ids.
pub const MULTIBAND_COMP_ID_BASE: u32 = 2600;

/// Host identifier of multiband compressor parameter `index` (0 outside the table).
pub open spec fn multiband_comp_param_id(index: int) -> u32 {
    if index == 0 {
        2600
    } else if index == 1 {
        2601
    } else if index == 2 {
        2602
    } else if index == 3 {
        2603
    } else if index == 4 {
        2604
    } else if index == 5 {
        2605
    } else if index == 6 {
        2606
    } else if index == 7 {
        2607
    } else if index == 8 {
        2608
    } else if index == 9 {
        2609
    } else if index == 10 {
        2610
    } else if index == 11 {
        2611
    } else {
        0
    }
}

/// Stable string identifier of multiband compressor parameter `index` (empty outside the table).
pub open spec fn multiband_comp_string_id(index: int) -> Seq<char> {
    if index == 0 {
        "mbc_xover_low"@
    } else if index == 1 {
        "mbc_xover_high"@
    } else if index == 2 {
        "mbc_low_thresh"@
    } else if index == 3 {
        "mbc_low_ratio"@
    } else if index == 4 {
        "mbc_mid_thresh"@
    } else if index == 5 {
        "mbc_mid_ratio"@
    } else if index == 6 {
        "mbc_high_thresh"@
    } else if index == 7 {
        "mbc_high_ratio"@
    } else if index == 8 {
        "mbc_low_gain"@
    } else if index == 9 {
        "mbc_mid_gain"@
    } else if index == 10 {
        "mbc_high_gain"@
    } else if index == 11 {
        "mbc_output"@
    } else {
        Seq::empty()
    }
}

/// Display name of multiband compressor parameter `index`, where this table fixes it.
pub open spec fn multiband_comp_name(index: int) -> Option<Seq<char>> {
    if index == 0 {
        Some("Low Xover"@)
    } else if index == 1 {
        Some("High Xover"@)
    } else if index == 2 {
        Some("Low Thresh"@)
    } else if index == 3 {
        Some("Low Ratio"@)
    } else if index == 4 {
        Some("Mid Thresh"@)
    } else if index == 5 {
        Some("Mid Ratio"@)
    } else if index == 6 {
        Some("High Thresh"@)
    } else if index == 7 {
        Some("High Ratio"@)
    } else if index == 8 {
        Some("Low Gain"@)
    } else if index == 9 {
        Some("Mid Gain"@)
    } else if index == 10 {
        Some("High Gain"@)
    } else if index == 11 {
        Some("Output"@)
    } else {
        None
    }
}

/// Short display name of multiband compressor parameter `index`, where this table fixes it.
pub open spec fn multiband_comp_short_name(index: int) -> Option<Seq<char>> {
    if index == 0 {
        Some("Lo Xvr"@)
    } else if index == 1 {
        Some("Hi Xvr"@)
    } else if index == 2 {
        Some("Lo Thr"@)
    } else if index == 3 {
        Some("Lo Rat"@)
    } else if index == 4 {
        Some("Md Thr"@)
    } else if index == 5 {
        Some("Md Rat"@)
    } else if index == 6 {
        Some("Hi Thr"@)
    } else if index == 7 {
        Some("Hi Rat"@)
    } else if index == 8 {
        Some("Lo Gain"@)
    } else if index == 9 {
        Some("Md Gain"@)
    } else if index == 10 {
        Some("Hi Gain"@)
    } else if index == 11 {
        None
    } else {
        None
    }
}

/// Range and default of multiband compressor parameter `index` as `f32` bit patterns, where
/// this table fixes them.
pub open spec fn multiband_comp_range(index: int) -> Option<ParamRange> {
    if index == 0 {
        Some(ParamRange { min: 0x42C8_0000, max: 0x447A_0000, default: 0x437A_0000 })
    } else if index == 1 {
        Some(ParamRange { min: 0x447A_0000, max: 0x461C_4000, default: 0x453B_8000 })
    } else if index == 2 {
        Some(ParamRange { min: 0xC270_0000, max: 0x0000_0000, default: 0xC1A0_0000 })
    } else if index == 3 {
        Some(ParamRange { min: 0x3F80_0000, max: 0x41A0_0000, default: 0x4080_0000 })
    } else if index == 4 {
        Some(ParamRange { min: 0xC270_0000, max: 0x0000_0000, default: 0xC1A0_0000 })
    } else if index == 5 {
        Some(ParamRange { min: 0x3F80_0000, max: 0x41A0_0000, default: 0x4080_0000 })
    } else if index == 6 {
        Some(ParamRange { min: 0xC270_0000, max: 0x0000_0000, default: 0xC1A0_0000 })
    } else if index == 7 {
        Some(ParamRange { min: 0x3F80_0000, max: 0x41A0_0000, default: 0x4080_0000 })
    } else if index == 8 {
        Some(ParamRange { min: 0xC140_0000, max: 0x4140_0000, default: 0x0000_0000 })
    } else if index == 9 {
        Some(ParamRange { min: 0xC140_0000, max: 0x4140_0000, default: 0x0000_0000 })
    } else if index == 10 {
        Some(ParamRange { min: 0xC140_0000, max: 0x4140_0000, default: 0x0000_0000 })
    } else if index == 11 {
        None
    } else {
        None
    }
}

/// Step of multiband compressor parameter `index` as an `f32` bit pattern, where this table
/// fixes it.
pub open spec fn multiband_comp_step(index: int) -> Option<u32> {
    if index == 0 {
        Some(0x3F80_0000)
    } else if index == 1 {
        Some(0x3F80_0000)
    } else if index == 2 {
        None
    } else if index == 3 {
        Some(0x3DCC_CCCD)
    } else if index == 4 {
        None
    } else if index == 5 {
        Some(0x3DCC_CCCD)
    } else if index == 6 {
        None
    } else if index == 7 {
        Some(0x3DCC_CCCD)
    } else if index == 8 {
        None
    } else if index == 9 {
        None
    } else if index == 10 {
        None
    } else if index == 11 {
        None
    } else {
        None
    }
}

/// Descriptor default of multiband compressor parameter `index` as an `f32` bit pattern,
/// where this table fixes it (also where the range comes from a preset).
pub open spec fn multiband_comp_default(index: int) -> Option<u32> {
    if index == 0 {
        Some(0x437A_0000)
    } else if index == 1 {
        Some(0x453B_8000)
    } else if index == 2 {
        Some(0xC1A0_0000)
    } else if index == 3 {
        Some(0x4080_0000)
    } else if index == 4 {
        Some(0xC1A0_0000)
    } else if index == 5 {
        Some(0x4080_0000)
    } else if index == 6 {
        Some(0xC1A0_0000)
    } else if index == 7 {
        Some(0x4080_0000)
    } else if index == 8 {
        Some(0x0000_0000)
    } else if index == 9 {
        Some(0x0000_0000)
    } else if index == 10 {
        Some(0x0000_0000)
    } else if index == 11 {
        Some(0x0000_0000)
    } else {
        None
    }
}

/// Unit of multiband compressor parameter `index`, where this table fixes it.
pub open spec fn multiband_comp_unit(index: int) -> Option<ParamUnit> {
    if index == 0 {
        Some(ParamUnit::Hertz)
    } else if index == 1 {
        Some(ParamUnit::Hertz)
    } else if index == 2 {
        Some(ParamUnit::Decibels)
    } else if index == 3 {
        Some(ParamUnit::Ratio)
    } else if index == 4 {
        Some(ParamUnit::Decibels)
    } else if index == 5 {
        Some(ParamUnit::Ratio)
    } else if index == 6 {
        Some(ParamUnit::Decibels)
    } else if index == 7 {
        Some(ParamUnit::Ratio)
    } else if index == 8 {
        Some(ParamUnit::Decibels)
    } else if index == 9 {
        Some(ParamUnit::Decibels)
    } else if index == 10 {
        Some(ParamUnit::Decibels)
    } else if index == 11 {
        None
    } else {
        None
    }
}

/// Display scale of multiband compressor parameter `index`, where this table sets one.
pub open spec fn multiband_comp_scale(index: int) -> Option<ParamScale> {
    if index == 0 {
        Some(ParamScale::Logarithmic)
    } else if index == 1 {
        Some(ParamScale::Logarithmic)
    } else if index == 2 {
        None
    } else if index == 3 {
        None
    } else if index == 4 {
        None
    } else if index == 5 {
        None
    } else if index == 6 {
        None
    } else if index == 7 {
        None
    } else if index == 8 {
        None
    } else if index == 9 {
        None
    } else if index == 10 {
        None
    } else if index == 11 {
        None
    } else {
        None
    }
}

/// Labels of the steps of multiband compressor parameter `index`.
pub open spec fn multiband_comp_step_labels(index: int) -> LabelSpec {
    LabelSpec::Unlabelled
}

/// Value the multiband compressor's parameter struct takes by default at `index`, as an
/// `f32` bit pattern (0 outside the table).
pub open spec fn multiband_comp_default_value(index: int) -> u32 {
    if index == 0 {
        0x437A_0000
    } else if index == 1 {
        0x453B_8000
    } else if index == 2 {
        0xC1A0_0000
    } else if index == 3 {
        0x4080_0000
    } else if index == 4 {
        0xC1A0_0000
    } else if index == 5 {
        0x4080_0000
    } else if index == 6 {
        0xC1A0_0000
    } else if index == 7 {
        0x4080_0000
    } else if index == 8 {
        0x0000_0000
    } else if index == 9 {
        0x0000_0000
    } else if index == 10 {
        0x0000_0000
    } else if index == 11 {
        0x0000_0000
    } else {
        0
    }
}

/// Whether multiband compressor parameter `index` is stepped (takes whole-step values).
pub open spec fn multiband_comp_stepped(index: int) -> bool {
    false
}

/// Whether multiband compressor parameter `index` is a read-only, hidden diagnostic.
pub open spec fn multiband_comp_read_only(index: int) -> bool {
    false
}

/// Smoothing style of multiband compressor parameter `index`.
pub open spec fn multiband_comp_smoothing(index: int) -> SmoothingStyle {
    if index == 0 {
        SmoothingStyle::Slow
    } else if index == 1 {
        SmoothingStyle::Slow
    } else if index == 11 {
        SmoothingStyle::Fast
    } else {
        SmoothingStyle::Standard
    }
}

/// Parameter table of the multiband compressor.
pub struct MultibandCompParamTable;

impl MultibandCompParamTable {
    /// Number of parameters.
    pub fn count() -> (r: usize)
        ensures
            r == MULTIBAND_COMP_PARAM_COUNT,
    {
        MULTIBAND_COMP_PARAM_COUNT
    }

    /// Descriptor of parameter `index`: `Some` exactly for the 12 parameters.
    pub fn descriptor(index: usize) -> (r: Option<ParamInfo>)
        ensures
            r is Some <==> index < MULTIBAND_COMP_PARAM_COUNT,
            r matches Some(p) ==> {
                &&& p.id.0 == multiband_comp_param_id(index as int)
                &&& p.string_id@ == multiband_comp_string_id(index as int)
                &&& opt_view(p.name) == multiband_comp_name(index as int)
                &&& opt_view(p.short_name) == multiband_comp_short_name(index as int)
                &&& p.range == multiband_comp_range(index as int)
                &&& p.step == multiband_comp_step(index as int)
                &&& p.default == multiband_comp_default(index as int)
                &&& p.unit == multiband_comp_unit(index as int)
                &&& p.scale == multiband_comp_scale(index as int)
                &&& p.stepped == multiband_comp_stepped(index as int)
                &&& p.read_only == multiband_comp_read_only(index as int)
            },
    {
        match index {
            0 => Some(ParamInfo {
                id: ParamId(2600),
                string_id: "mbc_xover_low",
                name: Some("Low Xover"),
                short_name: Some("Lo Xvr"),
                range: Some(ParamRange { min: 0x42C8_0000 /* 100.0 */, max: 0x447A_0000 /* 1000.0 */, default: 0x437A_0000 /* 250.0 */ }),
                step: Some(0x3F80_0000 /* 1.0 */),
                default: Some(0x437A_0000 /* 250.0 */),
                unit: Some(ParamUnit::Hertz),
                scale: Some(ParamScale::Logarithmic),
                stepped: false,
                read_only: false,
            }),
            1 => Some(ParamInfo {
                id: ParamId(2601),
                string_id: "mbc_xover_high",
                name: Some("High Xover"),
                short_name: Some("Hi Xvr"),
                range: Some(ParamRange { min: 0x447A_0000 /* 1000.0 */, max: 0x461C_4000 /* 10000.0 */, default: 0x453B_8000 /* 3000.0 */ }),
                step: Some(0x3F80_0000 /* 1.0 */),
                default: Some(0x453B_8000 /* 3000.0 */),
                unit: Some(ParamUnit::Hertz),
                scale: Some(ParamScale::Logarithmic),
                stepped: false,
                read_only: false,
            }),
            2 => Some(ParamInfo {
                id: ParamId(2602),
                string_id: "mbc_low_thresh",
                name: Some("Low Thresh"),
                short_name: Some("Lo Thr"),
                range: Some(ParamRange { min: 0xC270_0000 /* -60.0 */, max: 0x0000_0000 /* 0.0 */, default: 0xC1A0_0000 /* -20.0 */ }),
                step: None,
                default: Some(0xC1A0_0000 /* -20.0 */),
                unit: Some(ParamUnit::Decibels),
                scale: None,
                stepped: false,
                read_only: false,
            }),
            3 => Some(ParamInfo {
                id: ParamId(2603),
                string_id: "mbc_low_ratio",
                name: Some("Low Ratio"),
                short_name: Some("Lo Rat"),
                range: Some(ParamRange { min: 0x3F80_0000 /* 1.0 */, max: 0x41A0_0000 /* 20.0 */, default: 0x4080_0000 /* 4.0 */ }),
                step: Some(0x3DCC_CCCD /* 0.1 */),
                default: Some(0x4080_0000 /* 4.0 */),
                unit: Some(ParamUnit::Ratio),
                scale: None,
                stepped: false,
                read_only: false,
            }),
            4 => Some(ParamInfo {
                id: ParamId(2604),
                string_id: "mbc_mid_thresh",
                name: Some("Mid Thresh"),
                short_name: Some("Md Thr"),
                range: Some(ParamRange { min: 0xC270_0000 /* -60.0 */, max: 0x0000_0000 /* 0.0 */, default: 0xC1A0_0000 /* -20.0 */ }),
                step: None,
                default: Some(0xC1A0_0000 /* -20.0 */),
                unit: Some(ParamUnit::Decibels),
                scale: None,
                stepped: false,
                read_only: false,
            }),
            5 => Some(ParamInfo {
                id: ParamId(2605),
                string_id: "mbc_mid_ratio",
                name: Some("Mid Ratio"),
                short_name: Some("Md Rat"),
                range: Some(ParamRange { min: 0x3F80_0000 /* 1.0 */, max: 0x41A0_0000 /* 20.0 */, default: 0x4080_0000 /* 4.0 */ }),
                step: Some(0x3DCC_CCCD /* 0.1 */),
                default: Some(0x4080_0000 /* 4.0 */),
                unit: Some(ParamUnit::Ratio),
                scale: None,
                stepped: false,
                read_only: false,
            }),
            6 => Some(ParamInfo {
                id: ParamId(2606),
                string_id: "mbc_high_thresh",
                name: Some("High Thresh"),
                short_name: Some("Hi Thr"),
                range: Some(ParamRange { min: 0xC270_0000 /* -60.0 */, max: 0x0000_0000 /* 0.0 */, default: 0xC1A0_0000 /* -20.0 */ }),
                step: None,
                default: Some(0xC1A0_0000 /* -20.0 */),
                unit: Some(ParamUnit::Decibels),
                scale: None,
                stepped: false,
                read_only: false,
            }),
            7 => Some(ParamInfo {
                id: ParamId(2607),
                string_id: "mbc_high_ratio",
                name: Some("High Ratio"),
                short_name: Some("Hi Rat"),
                range: Some(ParamRange { min: 0x3F80_0000 /* 1.0 */, max: 0x41A0_0000 /* 20.0 */, default: 0x4080_0000 /* 4.0 */ }),
                step: Some(0x3DCC_CCCD /* 0.1 */),
                default: Some(0x4080_0000 /* 4.0 */),
                unit: Some(ParamUnit::Ratio),
                scale: None,
                stepped: false,
                read_only: false,
            }),
            8 => Some(ParamInfo {
                id: ParamId(2608),
                string_id: "mbc_low_gain",
                name: Some("Low Gain"),
                short_name: Some("Lo Gain"),
                range: Some(ParamRange { min: 0xC140_0000 /* -12.0 */, max: 0x4140_0000 /* 12.0 */, default: 0x0000_0000 /* 0.0 */ }),
                step: None,
                default: Some(0x0000_0000 /* 0.0 */),
                unit: Some(ParamUnit::Decibels),
                scale: None,
                stepped: false,
                read_only: false,
            }),
            9 => Some(ParamInfo {
                id: ParamId(2609),
                string_id: "mbc_mid_gain",
                name: Some("Mid Gain"),
                short_name: Some("Md Gain"),
                range: Some(ParamRange { min: 0xC140_0000 /* -12.0 */, max: 0x4140_0000 /* 12.0 */, default: 0x0000_0000 /* 0.0 */ }),
                step: None,
                default: Some(0x0000_0000 /* 0.0 */),
                unit: Some(ParamUnit::Decibels),
                scale: None,
                stepped: false,
                read_only: false,
            }),
            10 => Some(ParamInfo {
                id: ParamId(2610),
                string_id: "mbc_high_gain",
                name: Some("High Gain"),
                short_name: Some("Hi Gain"),
                range: Some(ParamRange { min: 0xC140_0000 /* -12.0 */, max: 0x4140_0000 /* 12.0 */, default: 0x0000_0000 /* 0.0 */ }),
                step: None,
                default: Some(0x0000_0000 /* 0.0 */),
                unit: Some(ParamUnit::Decibels),
                scale: None,
                stepped: false,
                read_only: false,
            }),
            11 => Some(ParamInfo {
                id: ParamId(2611),
                string_id: "mbc_output",
                name: Some("Output"),
                short_name: None,
                range: None,
                step: None,
                default: Some(0x0000_0000 /* 0.0 */),
                unit: None,
                scale: None,
                stepped: false,
                read_only: false,
            }),
            _ => None,
        }
    }

    /// Labels of the steps of parameter `index`.
    pub fn step_labels(index: usize) -> (r: StepLabels)
        ensures
            labels_view(r) == multiband_comp_step_labels(index as int),
    {
        match index {
            _ => StepLabels::Unlabelled,
        }
    }

    /// Smoothing style of parameter `index` (`Standard` outside the table).
    pub fn smoothing(index: usize) -> (r: SmoothingStyle)
        ensures
            r == multiband_comp_smoothing(index as int),
    {
        match index {
            0 => SmoothingStyle::Slow,
            1 => SmoothingStyle::Slow,
            11 => SmoothingStyle::Fast,
            _ => SmoothingStyle::Standard,
        }
    }

    /// Default value of parameter `index` as an `f32` bit pattern: `Some`
    /// exactly for the 12 parameters.
    pub fn default_value(index: usize) -> (r: Option<u32>)
        ensures
            r is Some <==> index < MULTIBAND_COMP_PARAM_COUNT,
            r matches Some(v) ==> v == multiband_comp_default_value(index as int),
    {
        match index {
            0 => Some(0x437A_0000), // 250.0 (xover_low_hz)
            1 => Some(0x453B_8000), // 3000.0 (xover_high_hz)
            2 => Some(0xC1A0_0000), // -20.0 (low_thresh_db)
            3 => Some(0x4080_0000), // 4.0 (low_ratio)
            4 => Some(0xC1A0_0000), // -20.0 (mid_thresh_db)
            5 => Some(0x4080_0000), // 4.0 (mid_ratio)
            6 => Some(0xC1A0_0000), // -20.0 (high_thresh_db)
            7 => Some(0x4080_0000), // 4.0 (high_ratio)
            8 => Some(0x0000_0000), // 0.0 (low_gain_db)
            9 => Some(0x0000_0000), // 0.0 (mid_gain_db)
            10 => Some(0x0000_0000), // 0.0 (high_gain_db)
            11 => Some(0x0000_0000), // 0.0 (output_db)
            _ => None,
        }
    }
}

/// The parameter struct's default value agrees with the descriptor's default
/// wherever this table fixes one, and lies inside the range wherever this table
/// fixes a range.
pub proof fn lemma_multiband_comp_defaults_match_descriptors()
    ensures
        forall|i: int|
            0 <= i < MULTIBAND_COMP_PARAM_COUNT ==> (#[trigger] multiband_comp_range(i) matches Some(r) ==> r.default
                == multiband_comp_default_value(i) && range_ordered(r)),
        forall|i: int|
            0 <= i < MULTIBAND_COMP_PARAM_COUNT ==> (#[trigger] multiband_comp_default(i) matches Some(d) ==> d
                == multiband_comp_default_value(i)),
{
}

/// The multiband compressor's parameter ids are pairwise distinct and all lie in its block
/// `2600..2700`.
pub proof fn lemma_multiband_comp_ids_unique()
    ensures
        forall|i: int, j: int|
            0 <= i < MULTIBAND_COMP_PARAM_COUNT && 0 <= j < MULTIBAND_COMP_PARAM_COUNT && i != j ==> multiband_comp_param_id(i)
                != multiband_comp_param_id(j),
        forall|i: int|
            0 <= i < MULTIBAND_COMP_PARAM_COUNT ==> MULTIBAND_COMP_ID_BASE <= #[trigger] multiband_comp_param_id(i) < MULTIBAND_COMP_ID_BASE + 100,
{
}

/// Every range this table fixes is ordered, `min <= default <= max`, its default
/// is the descriptor default, and every step it fixes is positive.
pub proof fn lemma_multiband_comp_ranges_ordered()
    ensures
        forall|i: int|
            0 <= i < MULTIBAND_COMP_PARAM_COUNT ==> (#[trigger] multiband_comp_range(i) matches Some(r) ==> range_ordered(r)
                && multiband_comp_default(i) == Some(r.default)),
        forall|i: int|
            0 <= i < MULTIBAND_COMP_PARAM_COUNT ==> (#[trigger] multiband_comp_step(i) matches Some(s) ==> crate::order::sign_magnitude(s) > 0),
{
}

/// Stepped and read-only multiband compressor parameters are never smoothed: the adapter
/// snaps them to each new value.
pub proof fn lemma_multiband_comp_discrete_params_snap()
    ensures
        forall|i: int|
            0 <= i < MULTIBAND_COMP_PARAM_COUNT && (multiband_comp_stepped(i) || multiband_comp_read_only(i)) ==> #[trigger] multiband_comp_smoothing(i)
                == SmoothingStyle::Snap,
{
}

/// What a parameter's string id names fixes how it is shown: ids ending in `gain` name gains in decibels, ids ending in `thresh` name thresholds in decibels, ids ending in `output` name output levels, where the table fixes their range, in decibels.
pub proof fn lemma_multiband_comp_units_follow_ids()
    ensures
        forall|i: int|
            0 <= i < MULTIBAND_COMP_PARAM_COUNT && id_ends_with(#[trigger] multiband_comp_string_id(i), "gain"@) ==> multiband_comp_unit(i) == Some(ParamUnit::Decibels),
        forall|i: int|
            0 <= i < MULTIBAND_COMP_PARAM_COUNT && id_ends_with(#[trigger] multiband_comp_string_id(i), "thresh"@) ==> multiband_comp_unit(i) == Some(ParamUnit::Decibels),
        forall|i: int|
            0 <= i < MULTIBAND_COMP_PARAM_COUNT && id_ends_with(#[trigger] multiband_comp_string_id(i), "output"@) ==> (multiband_comp_range(i) is Some ==> multiband_comp_unit(i) == Some(ParamUnit::Decibels)),
{
    reveal_strlit("gain");
    reveal_strlit("thresh");
    reveal_strlit("output");
    reveal_strlit("mbc_xover_low");
    reveal_strlit("mbc_xover_high");
    reveal_strlit("mbc_low_thresh");
    reveal_strlit("mbc_low_ratio");
    reveal_strlit("mbc_mid_thresh");
    reveal_strlit("mbc_mid_ratio");
    reveal_strlit("mbc_high_thresh");
    reveal_strlit("mbc_high_ratio");
    reveal_strlit("mbc_low_gain");
    reveal_strlit("mbc_mid_gain");
    reveal_strlit("mbc_high_gain");
    reveal_strlit("mbc_output");
    assert(!id_ends_with(multiband_comp_string_id(0), "gain"@)) by {
        assert(multiband_comp_string_id(0).subrange(9, 13)[0] == '_');
    }
    assert(!id_ends_with(multiband_comp_string_id(1), "gain"@)) by {
        assert(multiband_comp_string_id(1).subrange(10, 14)[0] == 'h');
    }
    assert(!id_ends_with(multiband_comp_string_id(2), "gain"@)) by {
        assert(multiband_comp_string_id(2).subrange(10, 14)[0] == 'r');
    }
    assert(!id_ends_with(multiband_comp_string_id(3), "gain"@)) by {
        assert(multiband_comp_string_id(3).subrange(9, 13)[0] == 'a');
    }
    assert(!id_ends_with(multiband_comp_string_id(4), "gain"@)) by {
        assert(multiband_comp_string_id(4).subrange(10, 14)[0] == 'r');
    }
    assert(!id_ends_with(multiband_comp_string_id(5), "gain"@)) by {
        assert(multiband_comp_string_id(5).subrange(9, 13)[0] == 'a');
    }
    assert(!id_ends_with(multiband_comp_string_id(6), "gain"@)) by {
        assert(multiband_comp_string_id(6).subrange(11, 15)[0] == 'r');
    }
    assert(!id_ends_with(multiband_comp_string_id(7), "gain"@)) by {
        assert(multiband_comp_string_id(7).subrange(10, 14)[0] == 'a');
    }
    assert(!id_ends_with(multiband_comp_string_id(11), "gain"@)) by {
        assert(multiband_comp_string_id(11).subrange(6, 10)[0] == 't');
    }
    assert(!id_ends_with(multiband_comp_string_id(0), "thresh"@)) by {
        assert(multiband_comp_string_id(0).subrange(7, 13)[0] == 'e');
    }
    assert(!id_ends_with(multiband_comp_string_id(1), "thresh"@)) by {
        assert(multiband_comp_string_id(1).subrange(8, 14)[0] == 'r');
    }
    assert(!id_ends_with(multiband_comp_string_id(3), "thresh"@)) by {
        assert(multiband_comp_string_id(3).subrange(7, 13)[0] == '_');
    }
    assert(!id_ends_with(multiband_comp_string_id(5), "thresh"@)) by {
        assert(multiband_comp_string_id(5).subrange(7, 13)[0] == '_');
    }
    assert(!id_ends_with(multiband_comp_string_id(7), "thresh"@)) by {
        assert(multiband_comp_string_id(7).subrange(8, 14)[0] == '_');
    }
    assert(!id_ends_with(multiband_comp_string_id(8), "thresh"@)) by {
        assert(multiband_comp_string_id(8).subrange(6, 12)[0] == 'w');
    }
    assert(!id_ends_with(multiband_comp_string_id(9), "thresh"@)) by {
        assert(multiband_comp_string_id(9).subrange(6, 12)[0] == 'd');
    }
    assert(!id_ends_with(multiband_comp_string_id(10), "thresh"@)) by {
        assert(multiband_comp_string_id(10).subrange(7, 13)[0] == 'h');
    }
    assert(!id_ends_with(multiband_comp_string_id(11), "thresh"@)) by {
        assert(multiband_comp_string_id(11).subrange(4, 10)[0] == 'o');
    }
    assert(!id_ends_with(multiband_comp_string_id(0), "output"@)) by {
        assert(multiband_comp_string_id(0).subrange(7, 13)[0] == 'e');
    }
    assert(!id_ends_with(multiband_comp_string_id(1), "output"@)) by {
        assert(multiband_comp_string_id(1).subrange(8, 14)[0] == 'r');
    }
    assert(!id_ends_with(multiband_comp_string_id(2), "output"@)) by {
        assert(multiband_comp_string_id(2).subrange(8, 14)[0] == 't');
    }
    assert(!id_ends_with(multiband_comp_string_id(3), "output"@)) by {
        assert(multiband_comp_string_id(3).subrange(7, 13)[0] == '_');
    }
    assert(!id_ends_with(multiband_comp_string_id(4), "output"@)) by {
        assert(multiband_comp_string_id(4).subrange(8, 14)[0] == 't');
    }
    assert(!id_ends_with(multiband_comp_string_id(5), "output"@)) by {
        assert(multiband_comp_string_id(5).subrange(7, 13)[0] == '_');
    }
    assert(!id_ends_with(multiband_comp_string_id(6), "output"@)) by {
        assert(multiband_comp_string_id(6).subrange(9, 15)[0] == 't');
    }
    assert(!id_ends_with(multiband_comp_string_id(7), "output"@)) by {
        assert(multiband_comp_string_id(7).subrange(8, 14)[0] == '_');
    }
    assert(!id_ends_with(multiband_comp_string_id(8), "output"@)) by {
        assert(multiband_comp_string_id(8).subrange(6, 12)[0] == 'w');
    }
    assert(!id_ends_with(multiband_comp_string_id(9), "output"@)) by {
        assert(multiband_comp_string_id(9).subrange(6, 12)[0] == 'd');
    }
    assert(!id_ends_with(multiband_comp_string_id(10), "output"@)) by {
        assert(multiband_comp_string_id(10).subrange(7, 13)[0] == 'h');
    }
}

/// Every multiband compressor parameter in hertz whose range starts at an audible frequency
/// (20 Hz or more) is shown on a logarithmic scale.
pub proof fn lemma_multiband_comp_audio_frequencies_logarithmic()
    ensures
        forall|i: int|
            0 <= i < MULTIBAND_COMP_PARAM_COUNT && #[trigger] multiband_comp_unit(i) == Some(ParamUnit::Hertz) && (multiband_comp_range(i) matches Some(r)
                && 0x41A0_0000 <= r.min < 0x8000_0000) ==> multiband_comp_scale(i) == Some(ParamScale::Logarithmic),
{
}

} // verus!
