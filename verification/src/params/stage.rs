//! Parameter table of the stage utility.

use vstd::prelude::*;
use super::{id_ends_with, labels_view, opt_view, range_ordered, whole_f32_bits, LabelSpec, ParamId, ParamInfo, ParamRange, ParamScale, ParamUnit, SmoothingStyle, StepLabels};

verus! {

/// Number of stage utility parameters.
pub const STAGE_PARAM_COUNT: usize = 12;

/// First identifier of the stage utility's block of parameter ids.
pub const STAGE_ID_BASE: u32 = 1900;

/// Host identifier of stage utility parameter `index` (0 outside the table).
pub open spec fn stage_param_id(index: int) -> u32 {
    if index == 0 {
        1900
    } else if index == 1 {
        1901
    } else if index == 2 {
        1902
    } else if index == 3 {
        1903
    } else if index == 4 {
        1904
    } else if index == 5 {
        1905
    } else if index == 6 {
        1906
    } else if index == 7 {
        1907
    } else if index == 8 {
        1908
    } else if index == 9 {
        1909
    } else if index == 10 {
        1910
    } else if index == 11 {
        1911
    } else {
        0
    }
}

/// Stable string identifier of stage utility parameter `index` (empty outside the table).
pub open spec fn stage_string_id(index: int) -> Seq<char> {
    if index == 0 {
        "stage_gain"@
    } else if index == 1 {
        "stage_width"@
    } else if index == 2 {
        "stage_balance"@
    } else if index == 3 {
        "stage_phase_l"@
    } else if index == 4 {
        "stage_phase_r"@
    } else if index == 5 {
        "stage_channel"@
    } else if index == 6 {
        "stage_dc_block"@
    } else if index == 7 {
        "stage_bass_mono"@
    } else if index == 8 {
        "stage_bass_freq"@
    } else if index == 9 {
        "stage_haas"@
    } else if index == 10 {
        "stage_haas_side"@
    } else if index == 11 {
        "stage_output"@
    } else {
        Seq::empty()
    }
}

/// Display name of stage utility parameter `index`, where this table fixes it.
pub open spec fn stage_name(index: int) -> Option<Seq<char>> {
    if index == 0 {
        Some("Gain"@)
    } else if index == 1 {
        Some("Width"@)
    } else if index == 2 {
        Some("Balance"@)
    } else if index == 3 {
        Some("Phase L"@)
    } else if index == 4 {
        Some("Phase R"@)
    } else if index == 5 {
        Some("Channel"@)
    } else if index == 6 {
        Some("DC Block"@)
    } else if index == 7 {
        Some("Bass Mono"@)
    } else if index == 8 {
        Some("Bass Freq"@)
    } else if index == 9 {
        Some("Haas"@)
    } else if index == 10 {
        Some("Haas Side"@)
    } else if index == 11 {
        Some("Output"@)
    } else {
        None
    }
}

/// Short display name of stage utility parameter `index`, where this table fixes it.
pub open spec fn stage_short_name(index: int) -> Option<Seq<char>> {
    if index == 0 {
        Some("Gain"@)
    } else if index == 1 {
        Some("Width"@)
    } else if index == 2 {
        Some("Bal"@)
    } else if index == 3 {
        Some("PhL"@)
    } else if index == 4 {
        Some("PhR"@)
    } else if index == 5 {
        Some("Chan"@)
    } else if index == 6 {
        Some("DC"@)
    } else if index == 7 {
        Some("BMon"@)
    } else if index == 8 {
        Some("BFrq"@)
    } else if index == 9 {
        Some("Haas"@)
    } else if index == 10 {
        Some("HSde"@)
    } else if index == 11 {
        None
    } else {
        None
    }
}

/// Range and default of stage utility parameter `index` as `f32` bit patterns, where
/// this table fixes them.
pub open spec fn stage_range(index: int) -> Option<ParamRange> {
    if index == 0 {
        Some(ParamRange { min: 0xC220_0000, max: 0x4140_0000, default: 0x0000_0000 })
    } else if index == 1 {
        Some(ParamRange { min: 0x0000_0000, max: 0x4348_0000, default: 0x42C8_0000 })
    } else if index == 2 {
        Some(ParamRange { min: 0xC2C8_0000, max: 0x42C8_0000, default: 0x0000_0000 })
    } else if index == 3 {
        Some(ParamRange { min: 0x0000_0000, max: 0x3F80_0000, default: 0x0000_0000 })
    } else if index == 4 {
        Some(ParamRange { min: 0x0000_0000, max: 0x3F80_0000, default: 0x0000_0000 })
    } else if index == 5 {
        Some(ParamRange { min: 0x0000_0000, max: 0x4040_0000, default: 0x0000_0000 })
    } else if index == 6 {
        Some(ParamRange { min: 0x0000_0000, max: 0x3F80_0000, default: 0x0000_0000 })
    } else if index == 7 {
        Some(ParamRange { min: 0x0000_0000, max: 0x3F80_0000, default: 0x0000_0000 })
    } else if index == 8 {
        Some(ParamRange { min: 0x41A0_0000, max: 0x43FA_0000, default: 0x42F0_0000 })
    } else if index == 9 {
        Some(ParamRange { min: 0x0000_0000, max: 0x41F0_0000, default: 0x0000_0000 })
    } else if index == 10 {
        Some(ParamRange { min: 0x0000_0000, max: 0x3F80_0000, default: 0x3F80_0000 })
    } else if index == 11 {
        None
    } else {
        None
    }
}

/// Step of stage utility parameter `index` as an `f32` bit pattern, where this table
/// fixes it.
pub open spec fn stage_step(index: int) -> Option<u32> {
    if index == 0 {
        None
    } else if index == 1 {
        Some(0x3F80_0000)
    } else if index == 2 {
        Some(0x3F80_0000)
    } else if index == 3 {
        Some(0x3F80_0000)
    } else if index == 4 {
        Some(0x3F80_0000)
    } else if index == 5 {
        Some(0x3F80_0000)
    } else if index == 6 {
        Some(0x3F80_0000)
    } else if index == 7 {
        Some(0x3F80_0000)
    } else if index == 8 {
        Some(0x3F80_0000)
    } else if index == 9 {
        Some(0x3DCC_CCCD)
    } else if index == 10 {
        Some(0x3F80_0000)
    } else if index == 11 {
        None
    } else {
        None
    }
}

/// Descriptor default of stage utility parameter `index` as an `f32` bit pattern,
/// where this table fixes it (also where the range comes from a preset).
pub open spec fn stage_default(index: int) -> Option<u32> {
    if index == 0 {
        Some(0x0000_0000)
    } else if index == 1 {
        Some(0x42C8_0000)
    } else if index == 2 {
        Some(0x0000_0000)
    } else if index == 3 {
        Some(0x0000_0000)
    } else if index == 4 {
        Some(0x0000_0000)
    } else if index == 5 {
        Some(0x0000_0000)
    } else if index == 6 {
        Some(0x0000_0000)
    } else if index == 7 {
        Some(0x0000_0000)
    } else if index == 8 {
        Some(0x42F0_0000)
    } else if index == 9 {
        Some(0x0000_0000)
    } else if index == 10 {
        Some(0x3F80_0000)
    } else if index == 11 {
        Some(0x0000_0000)
    } else {
        None
    }
}

/// Unit of stage utility parameter `index`, where this table fixes it.
pub open spec fn stage_unit(index: int) -> Option<ParamUnit> {
    if index == 0 {
        Some(ParamUnit::Decibels)
    } else if index == 1 {
        Some(ParamUnit::Percent)
    } else if index == 2 {
        Some(ParamUnit::Percent)
    } else if index == 3 {
        None
    } else if index == 4 {
        None
    } else if index == 5 {
        None
    } else if index == 6 {
        None
    } else if index == 7 {
        None
    } else if index == 8 {
        Some(ParamUnit::Hertz)
    } else if index == 9 {
        Some(ParamUnit::Milliseconds)
    } else if index == 10 {
        None
    } else if index == 11 {
        None
    } else {
        None
    }
}

/// Display scale of stage utility parameter `index`, where this table sets one.
pub open spec fn stage_scale(index: int) -> Option<ParamScale> {
    if index == 0 {
        None
    } else if index == 1 {
        None
    } else if index == 2 {
        None
    } else if index == 3 {
        None
    } else if index == 4 {
        None
    } else if index == 5 {
        None
    } else if index == 6 {
        None
    } else if index == 7 {
        None
    } else if index == 8 {
        Some(ParamScale::Logarithmic)
    } else if index == 9 {
        None
    } else if index == 10 {
        None
    } else if index == 11 {
        None
    } else {
        None
    }
}

/// Labels of the steps of stage utility parameter `index`.
pub open spec fn stage_step_labels(index: int) -> LabelSpec {
    if index == 0 {
        LabelSpec::Unlabelled
    } else if index == 1 {
        LabelSpec::Unlabelled
    } else if index == 2 {
        LabelSpec::Unlabelled
    } else if index == 3 {
        LabelSpec::Listed(seq!["Off"@, "On"@])
    } else if index == 4 {
        LabelSpec::Listed(seq!["Off"@, "On"@])
    } else if index == 5 {
        LabelSpec::Listed(seq!["Normal"@, "Swap"@, "Mono L"@, "Mono R"@])
    } else if index == 6 {
        LabelSpec::Listed(seq!["Off"@, "On"@])
    } else if index == 7 {
        LabelSpec::Listed(seq!["Off"@, "On"@])
    } else if index == 8 {
        LabelSpec::Unlabelled
    } else if index == 9 {
        LabelSpec::Unlabelled
    } else if index == 10 {
        LabelSpec::Listed(seq!["L"@, "R"@])
    } else if index == 11 {
        LabelSpec::Unlabelled
    } else {
        LabelSpec::Unlabelled
    }
}

/// Value the stage utility's parameter struct takes by default at `index`, as an
/// `f32` bit pattern (0 outside the table).
pub open spec fn stage_default_value(index: int) -> u32 {
    if index == 0 {
        0x0000_0000
    } else if index == 1 {
        0x42C8_0000
    } else if index == 2 {
        0x0000_0000
    } else if index == 3 {
        0x0000_0000
    } else if index == 4 {
        0x0000_0000
    } else if index == 5 {
        0x0000_0000
    } else if index == 6 {
        0x0000_0000
    } else if index == 7 {
        0x0000_0000
    } else if index == 8 {
        0x42F0_0000
    } else if index == 9 {
        0x0000_0000
    } else if index == 10 {
        0x3F80_0000
    } else if index == 11 {
        0x0000_0000
    } else {
        0
    }
}

/// Whether stage utility parameter `index` is stepped (takes whole-step values).
pub open spec fn stage_stepped(index: int) -> bool {
    index == 3 || index == 4 || index == 5 || index == 6 || index == 7 || index == 10
}

/// Whether stage utility parameter `index` is a read-only, hidden diagnostic.
pub open spec fn stage_read_only(index: int) -> bool {
    false
}

/// Smoothing style of stage utility parameter `index`.
pub open spec fn stage_smoothing(index: int) -> SmoothingStyle {
    if index == 0 {
        SmoothingStyle::Standard
    } else if index == 1 {
        SmoothingStyle::Standard
    } else if index == 2 {
        SmoothingStyle::Standard
    } else if index == 3 {
        SmoothingStyle::Snap
    } else if index == 4 {
        SmoothingStyle::Snap
    } else if index == 5 {
        SmoothingStyle::Snap
    } else if index == 6 {
        SmoothingStyle::Snap
    } else if index == 7 {
        SmoothingStyle::Snap
    } else if index == 8 {
        SmoothingStyle::Slow
    } else if index == 9 {
        SmoothingStyle::Fast
    } else if index == 10 {
        SmoothingStyle::Snap
    } else if index == 11 {
        SmoothingStyle::Standard
    } else {
        SmoothingStyle::Standard
    }
}

/// Parameter table of the stage utility.
pub struct StageParamTable;

impl StageParamTable {
    /// Number of parameters.
    pub fn count() -> (r: usize)
        ensures
            r == STAGE_PARAM_COUNT,
    {
        STAGE_PARAM_COUNT
    }

    /// Descriptor of parameter `index`: `Some` exactly for the 12 parameters.
    pub fn descriptor(index: usize) -> (r: Option<ParamInfo>)
        ensures
            r is Some <==> index < STAGE_PARAM_COUNT,
            r matches Some(p) ==> {
                &&& p.id.0 == stage_param_id(index as int)
                &&& p.string_id@ == stage_string_id(index as int)
                &&& opt_view(p.name) == stage_name(index as int)
                &&& opt_view(p.short_name) == stage_short_name(index as int)
                &&& p.range == stage_range(index as int)
                &&& p.step == stage_step(index as int)
                &&& p.default == stage_default(index as int)
                &&& p.unit == stage_unit(index as int)
                &&& p.scale == stage_scale(index as int)
                &&& p.stepped == stage_stepped(index as int)
                &&& p.read_only == stage_read_only(index as int)
            },
    {
        match index {
            0 => Some(ParamInfo {
                id: ParamId(1900),
                string_id: "stage_gain",
                name: Some("Gain"),
                short_name: Some("Gain"),
                range: Some(ParamRange { min: 0xC220_0000 /* -40.0 */, max: 0x4140_0000 /* 12.0 */, default: 0x0000_0000 /* 0.0 */ }),
                step: None,
                default: Some(0x0000_0000 /* 0.0 */),
                unit: Some(ParamUnit::Decibels),
                scale: None,
                stepped: false,
                read_only: false,
            }),
            1 => Some(ParamInfo {
                id: ParamId(1901),
                string_id: "stage_width",
                name: Some("Width"),
                short_name: Some("Width"),
                range: Some(ParamRange { min: 0x0000_0000 /* 0.0 */, max: 0x4348_0000 /* 200.0 */, default: 0x42C8_0000 /* 100.0 */ }),
                step: Some(0x3F80_0000 /* 1.0 */),
                default: Some(0x42C8_0000 /* 100.0 */),
                unit: Some(ParamUnit::Percent),
                scale: None,
                stepped: false,
                read_only: false,
            }),
            2 => Some(ParamInfo {
                id: ParamId(1902),
                string_id: "stage_balance",
                name: Some("Balance"),
                short_name: Some("Bal"),
                range: Some(ParamRange { min: 0xC2C8_0000 /* -100.0 */, max: 0x42C8_0000 /* 100.0 */, default: 0x0000_0000 /* 0.0 */ }),
                step: Some(0x3F80_0000 /* 1.0 */),
                default: Some(0x0000_0000 /* 0.0 */),
                unit: Some(ParamUnit::Percent),
                scale: None,
                stepped: false,
                read_only: false,
            }),
            3 => Some(ParamInfo {
                id: ParamId(1903),
                string_id: "stage_phase_l",
                name: Some("Phase L"),
                short_name: Some("PhL"),
                range: Some(ParamRange { min: 0x0000_0000 /* 0.0 */, max: 0x3F80_0000 /* 1.0 */, default: 0x0000_0000 /* 0.0 */ }),
                step: Some(0x3F80_0000 /* 1.0 */),
                default: Some(0x0000_0000 /* 0.0 */),
                unit: None,
                scale: None,
                stepped: true,
                read_only: false,
            }),
            4 => Some(ParamInfo {
                id: ParamId(1904),
                string_id: "stage_phase_r",
                name: Some("Phase R"),
                short_name: Some("PhR"),
                range: Some(ParamRange { min: 0x0000_0000 /* 0.0 */, max: 0x3F80_0000 /* 1.0 */, default: 0x0000_0000 /* 0.0 */ }),
                step: Some(0x3F80_0000 /* 1.0 */),
                default: Some(0x0000_0000 /* 0.0 */),
                unit: None,
                scale: None,
                stepped: true,
                read_only: false,
            }),
            5 => Some(ParamInfo {
                id: ParamId(1905),
                string_id: "stage_channel",
                name: Some("Channel"),
                short_name: Some("Chan"),
                range: Some(ParamRange { min: 0x0000_0000 /* 0.0 */, max: 0x4040_0000 /* 3.0 */, default: 0x0000_0000 /* 0.0 */ }),
                step: Some(0x3F80_0000 /* 1.0 */),
                default: Some(0x0000_0000 /* 0.0 */),
                unit: None,
                scale: None,
                stepped: true,
                read_only: false,
            }),
            6 => Some(ParamInfo {
                id: ParamId(1906),
                string_id: "stage_dc_block",
                name: Some("DC Block"),
                short_name: Some("DC"),
                range: Some(ParamRange { min: 0x0000_0000 /* 0.0 */, max: 0x3F80_0000 /* 1.0 */, default: 0x0000_0000 /* 0.0 */ }),
                step: Some(0x3F80_0000 /* 1.0 */),
                default: Some(0x0000_0000 /* 0.0 */),
                unit: None,
                scale: None,
                stepped: true,
                read_only: false,
            }),
            7 => Some(ParamInfo {
                id: ParamId(1907),
                string_id: "stage_bass_mono",
                name: Some("Bass Mono"),
                short_name: Some("BMon"),
                range: Some(ParamRange { min: 0x0000_0000 /* 0.0 */, max: 0x3F80_0000 /* 1.0 */, default: 0x0000_0000 /* 0.0 */ }),
                step: Some(0x3F80_0000 /* 1.0 */),
                default: Some(0x0000_0000 /* 0.0 */),
                unit: None,
                scale: None,
                stepped: true,
                read_only: false,
            }),
            8 => Some(ParamInfo {
                id: ParamId(1908),
                string_id: "stage_bass_freq",
                name: Some("Bass Freq"),
                short_name: Some("BFrq"),
                range: Some(ParamRange { min: 0x41A0_0000 /* 20.0 */, max: 0x43FA_0000 /* 500.0 */, default: 0x42F0_0000 /* 120.0 */ }),
                step: Some(0x3F80_0000 /* 1.0 */),
                default: Some(0x42F0_0000 /* 120.0 */),
                unit: Some(ParamUnit::Hertz),
                scale: Some(ParamScale::Logarithmic),
                stepped: false,
                read_only: false,
            }),
            9 => Some(ParamInfo {
                id: ParamId(1909),
                string_id: "stage_haas",
                name: Some("Haas"),
                short_name: Some("Haas"),
                range: Some(ParamRange { min: 0x0000_0000 /* 0.0 */, max: 0x41F0_0000 /* 30.0 */, default: 0x0000_0000 /* 0.0 */ }),
                step: Some(0x3DCC_CCCD /* 0.1 */),
                default: Some(0x0000_0000 /* 0.0 */),
                unit: Some(ParamUnit::Milliseconds),
                scale: None,
                stepped: false,
                read_only: false,
            }),
            10 => Some(ParamInfo {
                id: ParamId(1910),
                string_id: "stage_haas_side",
                name: Some("Haas Side"),
                short_name: Some("HSde"),
                range: Some(ParamRange { min: 0x0000_0000 /* 0.0 */, max: 0x3F80_0000 /* 1.0 */, default: 0x3F80_0000 /* 1.0 */ }),
                step: Some(0x3F80_0000 /* 1.0 */),
                default: Some(0x3F80_0000 /* 1.0 */),
                unit: None,
                scale: None,
                stepped: true,
                read_only: false,
            }),
            11 => Some(ParamInfo {
                id: ParamId(1911),
                string_id: "stage_output",
                name: Some("Output"),
                short_name: None,
                range: None,
                step: None,
                default: Some(0x0000_0000 /* 0.0 */),
                unit: None,
                scale: None,
                stepped: false,
                read_only: false,
            }),
            _ => None,
        }
    }

    /// Labels of the steps of parameter `index`.
    pub fn step_labels(index: usize) -> (r: StepLabels)
        ensures
            labels_view(r) == stage_step_labels(index as int),
    {
        match index {
            3 => {
                let v = vec!["Off", "On"];
                assert(v@.map_values(|s: &'static str| s@) =~= seq!["Off"@, "On"@]);
                StepLabels::Listed(v)
            },
            4 => {
                let v = vec!["Off", "On"];
                assert(v@.map_values(|s: &'static str| s@) =~= seq!["Off"@, "On"@]);
                StepLabels::Listed(v)
            },
            5 => {
                let v = vec!["Normal", "Swap", "Mono L", "Mono R"];
                assert(v@.map_values(|s: &'static str| s@) =~= seq!["Normal"@, "Swap"@, "Mono L"@, "Mono R"@]);
                StepLabels::Listed(v)
            },
            6 => {
                let v = vec!["Off", "On"];
                assert(v@.map_values(|s: &'static str| s@) =~= seq!["Off"@, "On"@]);
                StepLabels::Listed(v)
            },
            7 => {
                let v = vec!["Off", "On"];
                assert(v@.map_values(|s: &'static str| s@) =~= seq!["Off"@, "On"@]);
                StepLabels::Listed(v)
            },
            10 => {
                let v = vec!["L", "R"];
                assert(v@.map_values(|s: &'static str| s@) =~= seq!["L"@, "R"@]);
                StepLabels::Listed(v)
            },
            _ => StepLabels::Unlabelled,
        }
    }

    /// Smoothing style of parameter `index` (`Standard` outside the table).
    pub fn smoothing(index: usize) -> (r: SmoothingStyle)
        ensures
            r == stage_smoothing(index as int),
    {
        match index {
            0 => SmoothingStyle::Standard,
            1 => SmoothingStyle::Standard,
            2 => SmoothingStyle::Standard,
            3 => SmoothingStyle::Snap,
            4 => SmoothingStyle::Snap,
            5 => SmoothingStyle::Snap,
            6 => SmoothingStyle::Snap,
            7 => SmoothingStyle::Snap,
            8 => SmoothingStyle::Slow,
            9 => SmoothingStyle::Fast,
            10 => SmoothingStyle::Snap,
            11 => SmoothingStyle::Standard,
            _ => SmoothingStyle::Standard,
        }
    }

    /// Default value of parameter `index` as an `f32` bit pattern: `Some`
    /// exactly for the 12 parameters.
    pub fn default_value(index: usize) -> (r: Option<u32>)
        ensures
            r is Some <==> index < STAGE_PARAM_COUNT,
            r matches Some(v) ==> v == stage_default_value(index as int),
    {
        match index {
            0 => Some(0x0000_0000), // 0.0 (gain_db)
            1 => Some(0x42C8_0000), // 100.0 (width_pct)
            2 => Some(0x0000_0000), // 0.0 (balance_pct)
            3 => Some(0x0000_0000), // 0.0 (phase_l)
            4 => Some(0x0000_0000), // 0.0 (phase_r)
            5 => Some(0x0000_0000), // 0.0 (channel)
            6 => Some(0x0000_0000), // 0.0 (dc_block)
            7 => Some(0x0000_0000), // 0.0 (bass_mono)
            8 => Some(0x42F0_0000), // 120.0 (bass_freq_hz)
            9 => Some(0x0000_0000), // 0.0 (haas_ms)
            10 => Some(0x3F80_0000), // 1.0 (haas_side)
            11 => Some(0x0000_0000), // 0.0 (output_db)
            _ => None,
        }
    }
}

/// The parameter struct's default value agrees with the descriptor's default
/// wherever this table fixes one, and lies inside the range wherever this table
/// fixes a range.
pub proof fn lemma_stage_defaults_match_descriptors()
    ensures
        forall|i: int|
            0 <= i < STAGE_PARAM_COUNT ==> (#[trigger] stage_range(i) matches Some(r) ==> r.default
                == stage_default_value(i) && range_ordered(r)),
        forall|i: int|
            0 <= i < STAGE_PARAM_COUNT ==> (#[trigger] stage_default(i) matches Some(d) ==> d
                == stage_default_value(i)),
{
}

/// The stage utility's parameter ids are pairwise distinct and all lie in its block
/// `1900..2000`.
pub proof fn lemma_stage_ids_unique()
    ensures
        forall|i: int, j: int|
            0 <= i < STAGE_PARAM_COUNT && 0 <= j < STAGE_PARAM_COUNT && i != j ==> stage_param_id(i)
                != stage_param_id(j),
        forall|i: int|
            0 <= i < STAGE_PARAM_COUNT ==> STAGE_ID_BASE <= #[trigger] stage_param_id(i) < STAGE_ID_BASE + 100,
{
}

/// Every range this table fixes is ordered, `min <= default <= max`, its default
/// is the descriptor default, and every step it fixes is positive.
pub proof fn lemma_stage_ranges_ordered()
    ensures
        forall|i: int|
            0 <= i < STAGE_PARAM_COUNT ==> (#[trigger] stage_range(i) matches Some(r) ==> range_ordered(r)
                && stage_default(i) == Some(r.default)),
        forall|i: int|
            0 <= i < STAGE_PARAM_COUNT ==> (#[trigger] stage_step(i) matches Some(s) ==> crate::order::sign_magnitude(s) > 0),
{
}

/// Stepped and read-only stage utility parameters are never smoothed: the adapter
/// snaps them to each new value.
pub proof fn lemma_stage_discrete_params_snap()
    ensures
        forall|i: int|
            0 <= i < STAGE_PARAM_COUNT && (stage_stepped(i) || stage_read_only(i)) ==> #[trigger] stage_smoothing(i)
                == SmoothingStyle::Snap,
{
}

/// What a parameter's string id names fixes how it is shown: ids ending in `freq` name frequencies in hertz on a logarithmic scale, ids ending in `haas` name Haas delays in milliseconds, ids ending in `gain` name gains in decibels, ids ending in `output` name output levels, where the table fixes their range, in decibels.
pub proof fn lemma_stage_units_follow_ids()
    ensures
        forall|i: int|
            0 <= i < STAGE_PARAM_COUNT && id_ends_with(#[trigger] stage_string_id(i), "freq"@) ==> stage_unit(i) == Some(ParamUnit::Hertz) && stage_scale(i) == Some(ParamScale::Logarithmic),
        forall|i: int|
            0 <= i < STAGE_PARAM_COUNT && id_ends_with(#[trigger] stage_string_id(i), "haas"@) ==> stage_unit(i) == Some(ParamUnit::Milliseconds),
        forall|i: int|
            0 <= i < STAGE_PARAM_COUNT && id_ends_with(#[trigger] stage_string_id(i), "gain"@) ==> stage_unit(i) == Some(ParamUnit::Decibels),
        forall|i: int|
            0 <= i < STAGE_PARAM_COUNT && id_ends_with(#[trigger] stage_string_id(i), "output"@) ==> (stage_range(i) is Some ==> stage_unit(i) == Some(ParamUnit::Decibels)),
{
    reveal_strlit("freq");
    reveal_strlit("haas");
    reveal_strlit("gain");
    reveal_strlit("output");
    reveal_strlit("stage_gain");
    reveal_strlit("stage_width");
    reveal_strlit("stage_balance");
    reveal_strlit("stage_phase_l");
    reveal_strlit("stage_phase_r");
    reveal_strlit("stage_channel");
    reveal_strlit("stage_dc_block");
    reveal_strlit("stage_bass_mono");
    reveal_strlit("stage_bass_freq");
    reveal_strlit("stage_haas");
    reveal_strlit("stage_haas_side");
    reveal_strlit("stage_output");
    assert(!id_ends_with(stage_string_id(0), "freq"@)) by {
        assert(stage_string_id(0).subrange(6, 10)[0] == 'g');
    }
    assert(!id_ends_with(stage_string_id(1), "freq"@)) by {
        assert(stage_string_id(1).subrange(7, 11)[0] == 'i');
    }
    assert(!id_ends_with(stage_string_id(2), "freq"@)) by {
        assert(stage_string_id(2).subrange(9, 13)[0] == 'a');
    }
    assert(!id_ends_with(stage_string_id(3), "freq"@)) by {
        assert(stage_string_id(3).subrange(9, 13)[0] == 's');
    }
    assert(!id_ends_with(stage_string_id(4), "freq"@)) by {
        assert(stage_string_id(4).subrange(9, 13)[0] == 's');
    }
    assert(!id_ends_with(stage_string_id(5), "freq"@)) by {
        assert(stage_string_id(5).subrange(9, 13)[0] == 'n');
    }
    assert(!id_ends_with(stage_string_id(6), "freq"@)) by {
        assert(stage_string_id(6).subrange(10, 14)[0] == 'l');
    }
    assert(!id_ends_with(stage_string_id(7), "freq"@)) by {
        assert(stage_string_id(7).subrange(11, 15)[0] == 'm');
    }
    assert(!id_ends_with(stage_string_id(9), "freq"@)) by {
        assert(stage_string_id(9).subrange(6, 10)[0] == 'h');
    }
    assert(!id_ends_with(stage_string_id(10), "freq"@)) by {
        assert(stage_string_id(10).subrange(11, 15)[0] == 's');
    }
    assert(!id_ends_with(stage_string_id(11), "freq"@)) by {
        assert(stage_string_id(11).subrange(8, 12)[0] == 't');
    }
    assert(!id_ends_with(stage_string_id(0), "haas"@)) by {
        assert(stage_string_id(0).subrange(6, 10)[0] == 'g');
    }
    assert(!id_ends_with(stage_string_id(1), "haas"@)) by {
        assert(stage_string_id(1).subrange(7, 11)[0] == 'i');
    }
    assert(!id_ends_with(stage_string_id(2), "haas"@)) by {
        assert(stage_string_id(2).subrange(9, 13)[0] == 'a');
    }
    assert(!id_ends_with(stage_string_id(3), "haas"@)) by {
        assert(stage_string_id(3).subrange(9, 13)[0] == 's');
    }
    assert(!id_ends_with(stage_string_id(4), "haas"@)) by {
        assert(stage_string_id(4).subrange(9, 13)[0] == 's');
    }
    assert(!id_ends_with(stage_string_id(5), "haas"@)) by {
        assert(stage_string_id(5).subrange(9, 13)[0] == 'n');
    }
    assert(!id_ends_with(stage_string_id(6), "haas"@)) by {
        assert(stage_string_id(6).subrange(10, 14)[0] == 'l');
    }
    assert(!id_ends_with(stage_string_id(7), "haas"@)) by {
        assert(stage_string_id(7).subrange(11, 15)[0] == 'm');
    }
    assert(!id_ends_with(stage_string_id(8), "haas"@)) by {
        assert(stage_string_id(8).subrange(11, 15)[0] == 'f');
    }
    assert(!id_ends_with(stage_string_id(10), "haas"@)) by {
        assert(stage_string_id(10).subrange(11, 15)[0] == 's');
    }
    assert(!id_ends_with(stage_string_id(11), "haas"@)) by {
        assert(stage_string_id(11).subrange(8, 12)[0] == 't');
    }
    assert(!id_ends_with(stage_string_id(1), "gain"@)) by {
        assert(stage_string_id(1).subrange(7, 11)[0] == 'i');
    }
    assert(!id_ends_with(stage_string_id(2), "gain"@)) by {
        assert(stage_string_id(2).subrange(9, 13)[0] == 'a');
    }
    assert(!id_ends_with(stage_string_id(3), "gain"@)) by {
        assert(stage_string_id(3).subrange(9, 13)[0] == 's');
    }
    assert(!id_ends_with(stage_string_id(4), "gain"@)) by {
        assert(stage_string_id(4).subrange(9, 13)[0] == 's');
    }
    assert(!id_ends_with(stage_string_id(5), "gain"@)) by {
        assert(stage_string_id(5).subrange(9, 13)[0] == 'n');
    }
    assert(!id_ends_with(stage_string_id(6), "gain"@)) by {
        assert(stage_string_id(6).subrange(10, 14)[0] == 'l');
    }
    assert(!id_ends_with(stage_string_id(7), "gain"@)) by {
        assert(stage_string_id(7).subrange(11, 15)[0] == 'm');
    }
    assert(!id_ends_with(stage_string_id(8), "gain"@)) by {
        assert(stage_string_id(8).subrange(11, 15)[0] == 'f');
    }
    assert(!id_ends_with(stage_string_id(9), "gain"@)) by {
        assert(stage_string_id(9).subrange(6, 10)[0] == 'h');
    }
    assert(!id_ends_with(stage_string_id(10), "gain"@)) by {
        assert(stage_string_id(10).subrange(11, 15)[0] == 's');
    }
    assert(!id_ends_with(stage_string_id(11), "gain"@)) by {
        assert(stage_string_id(11).subrange(8, 12)[0] == 't');
    }
    assert(!id_ends_with(stage_string_id(0), "output"@)) by {
        assert(stage_string_id(0).subrange(4, 10)[0] == 'e');
    }
    assert(!id_ends_with(stage_string_id(1), "output"@)) by {
        assert(stage_string_id(1).subrange(5, 11)[0] == '_');
    }
    assert(!id_ends_with(stage_string_id(2), "output"@)) by {
        assert(stage_string_id(2).subrange(7, 13)[0] == 'a');
    }
    assert(!id_ends_with(stage_string_id(3), "output"@)) by {
        assert(stage_string_id(3).subrange(7, 13)[0] == 'h');
    }
    assert(!id_ends_with(stage_string_id(4), "output"@)) by {
        assert(stage_string_id(4).subrange(7, 13)[0] == 'h');
    }
    assert(!id_ends_with(stage_string_id(5), "output"@)) by {
        assert(stage_string_id(5).subrange(7, 13)[0] == 'h');
    }
    assert(!id_ends_with(stage_string_id(6), "output"@)) by {
        assert(stage_string_id(6).subrange(8, 14)[0] == '_');
    }
    assert(!id_ends_with(stage_string_id(7), "output"@)) by {
        assert(stage_string_id(7).subrange(9, 15)[0] == 's');
    }
    assert(!id_ends_with(stage_string_id(8), "output"@)) by {
        assert(stage_string_id(8).subrange(9, 15)[0] == 's');
    }
    assert(!id_ends_with(stage_string_id(9), "output"@)) by {
        assert(stage_string_id(9).subrange(4, 10)[0] == 'e');
    }
    assert(!id_ends_with(stage_string_id(10), "output"@)) by {
        assert(stage_string_id(10).subrange(9, 15)[0] == 's');
    }
}

/// Every stage utility parameter in hertz whose range starts at an audible frequency
/// (20 Hz or more) is shown on a logarithmic scale.
pub proof fn lemma_stage_audio_frequencies_logarithmic()
    ensures
        forall|i: int|
            0 <= i < STAGE_PARAM_COUNT && #[trigger] stage_unit(i) == Some(ParamUnit::Hertz) && (stage_range(i) matches Some(r)
                && 0x41A0_0000 <= r.min < 0x8000_0000) ==> stage_scale(i) == Some(ParamScale::Logarithmic),
{
}

/// The labels of a stage utility parameter name its steps: a listed label per whole
/// step from 0 (step 1.0), the framework's twelve note divisions for a division
/// index; and an on/off toggle reads "Off" at step 0 and "On" at step 1 and
/// starts off.
pub proof fn lemma_stage_labels_name_steps()
    ensures
        forall|i: int|
            0 <= i < STAGE_PARAM_COUNT ==> (#[trigger] stage_step_labels(i) matches LabelSpec::Listed(l) ==> stage_stepped(i)
                && stage_step(i) == Some(0x3F80_0000u32) && (stage_range(i) matches Some(r) && r.min == 0
                && r.max == whole_f32_bits(l.len() - 1)) && l.no_duplicates()),
        forall|i: int|
            0 <= i < STAGE_PARAM_COUNT && #[trigger] stage_step_labels(i) is NoteDivisions ==> stage_stepped(i)
                && stage_step(i) == Some(0x3F80_0000u32) && (stage_range(i) matches Some(r) && r.min == 0
                && r.max == whole_f32_bits(11)),
        forall|i: int|
            0 <= i < STAGE_PARAM_COUNT ==> (#[trigger] stage_step_labels(i) matches LabelSpec::Listed(l) ==> (l.contains("On"@)
                ==> l == seq!["Off"@, "On"@] && (stage_range(i) matches Some(r) && r.default == 0))),
{
    reveal_strlit("On");
    reveal_strlit("Off");
    assert("Off"@.len() != "On"@.len());
    assert("Off"@.len() != "On"@.len());
    assert("Off"@.len() != "On"@.len());
    reveal_strlit("Normal");
    assert("Normal"@.len() != "On"@.len());
    reveal_strlit("Swap");
    assert("Swap"@.len() != "On"@.len());
    reveal_strlit("Mono L");
    assert("Mono L"@.len() != "On"@.len());
    reveal_strlit("Mono R");
    assert("Mono R"@.len() != "On"@.len());
    assert(stage_step_labels(5) matches LabelSpec::Listed(l) && !l.contains("On"@));
    assert("Normal"@.len() != "Swap"@.len());
    assert("Normal"@[0] != "Mono L"@[0]);
    assert("Normal"@[0] != "Mono R"@[0]);
    assert("Swap"@.len() != "Mono L"@.len());
    assert("Swap"@.len() != "Mono R"@.len());
    assert("Mono L"@[5] != "Mono R"@[5]);
    assert("Off"@.len() != "On"@.len());
    assert("Off"@.len() != "On"@.len());
    reveal_strlit("L");
    assert("L"@.len() != "On"@.len());
    reveal_strlit("R");
    assert("R"@.len() != "On"@.len());
    assert(stage_step_labels(10) matches LabelSpec::Listed(l) && !l.contains("On"@));
    assert("L"@[0] != "R"@[0]);
}

/// Every stage utility parameter that labels its steps is stepped.
pub proof fn lemma_stage_labelled_params_stepped()
    ensures
        forall|i: int|
            0 <= i < STAGE_PARAM_COUNT && !(#[trigger] stage_step_labels(i) is Unlabelled) ==> stage_stepped(i),
{
}

} // verus!
