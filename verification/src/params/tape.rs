//! Parameter table of the tape saturation.

use vstd::prelude::*;
use super::{id_ends_with, labels_view, opt_view, range_ordered, whole_f32_bits, LabelSpec, ParamId, ParamInfo, ParamRange, ParamScale, ParamUnit, SmoothingStyle, StepLabels};

verus! {

/// Number of tape saturation parameters.
pub const TAPE_PARAM_COUNT: usize = 10;

/// First identifier of the tape saturation's block of parameter ids.
pub const TAPE_ID_BASE: u32 = 1400;

/// Host identifier of tape saturation parameter `index` (0 outside the table).
pub open spec fn tape_param_id(index: int) -> u32 {
    if index == 0 {
        1400
    } else if index == 1 {
        1401
    } else if index == 2 {
        1403
    } else if index == 3 {
        1404
    } else if index == 4 {
        1405
    } else if index == 5 {
        1406
    } else if index == 6 {
        1407
    } else if index == 7 {
        1408
    } else if index == 8 {
        1409
    } else if index == 9 {
        1402
    } else {
        0
    }
}

/// Stable string identifier of tape saturation parameter `index` (empty outside the table).
pub open spec fn tape_string_id(index: int) -> Seq<char> {
    if index == 0 {
        "tape_drive"@
    } else if index == 1 {
        "tape_saturation"@
    } else if index == 2 {
        "tape_hf_rolloff"@
    } else if index == 3 {
        "tape_bias"@
    } else if index == 4 {
        "tape_wow"@
    } else if index == 5 {
        "tape_flutter"@
    } else if index == 6 {
        "tape_hysteresis"@
    } else if index == 7 {
        "tape_head_bump"@
    } else if index == 8 {
        "tape_bump_freq"@
    } else if index == 9 {
        "tape_output"@
    } else {
        Seq::empty()
    }
}

/// Display name of tape saturation parameter `index`, where this table fixes it.
pub open spec fn tape_name(index: int) -> Option<Seq<char>> {
    if index == 0 {
        Some("Drive"@)
    } else if index == 1 {
        Some("Saturation"@)
    } else if index == 2 {
        Some("HF Rolloff"@)
    } else if index == 3 {
        Some("Bias"@)
    } else if index == 4 {
        Some("Wow"@)
    } else if index == 5 {
        Some("Flutter"@)
    } else if index == 6 {
        Some("Hysteresis"@)
    } else if index == 7 {
        Some("Head Bump"@)
    } else if index == 8 {
        Some("Bump Freq"@)
    } else if index == 9 {
        Some("Output"@)
    } else {
        None
    }
}

/// Short display name of tape saturation parameter `index`, where this table fixes it.
pub open spec fn tape_short_name(index: int) -> Option<Seq<char>> {
    if index == 0 {
        Some("Drive"@)
    } else if index == 1 {
        Some("Sat"@)
    } else if index == 2 {
        Some("HFRoll"@)
    } else if index == 3 {
        Some("Bias"@)
    } else if index == 4 {
        Some("Wow"@)
    } else if index == 5 {
        Some("Flut"@)
    } else if index == 6 {
        Some("Hyst"@)
    } else if index == 7 {
        Some("Bump"@)
    } else if index == 8 {
        Some("BmpHz"@)
    } else if index == 9 {
        Some("Output"@)
    } else {
        None
    }
}

/// Range and default of tape saturation parameter `index` as `f32` bit patterns, where
/// this table fixes them.
pub open spec fn tape_range(index: int) -> Option<ParamRange> {
    if index == 0 {
        Some(ParamRange { min: 0x0000_0000, max: 0x41C0_0000, default: 0x40C0_0000 })
    } else if index == 1 {
        Some(ParamRange { min: 0x0000_0000, max: 0x42C8_0000, default: 0x41F0_0000 })
    } else if index == 2 {
        Some(ParamRange { min: 0x447A_0000, max: 0x469C_4000, default: 0x463B_8000 })
    } else if index == 3 {
        Some(ParamRange { min: 0xBE4C_CCCD, max: 0x3E4C_CCCD, default: 0x0000_0000 })
    } else if index == 4 {
        Some(ParamRange { min: 0x0000_0000, max: 0x3F80_0000, default: 0x3E99_999A })
    } else if index == 5 {
        Some(ParamRange { min: 0x0000_0000, max: 0x3F80_0000, default: 0x3E4C_CCCD })
    } else if index == 6 {
        Some(ParamRange { min: 0x0000_0000, max: 0x3F00_0000, default: 0x3E19_999A })
    } else if index == 7 {
        Some(ParamRange { min: 0x0000_0000, max: 0x3F80_0000, default: 0x3E99_999A })
    } else if index == 8 {
        Some(ParamRange { min: 0x4220_0000, max: 0x4348_0000, default: 0x42A0_0000 })
    } else if index == 9 {
        Some(ParamRange { min: 0xC140_0000, max: 0x4140_0000, default: 0xC0C0_0000 })
    } else {
        None
    }
}

/// Step of tape saturation parameter `index` as an `f32` bit pattern, where this table
/// fixes it.
pub open spec fn tape_step(index: int) -> Option<u32> {
    if index == 0 {
        Some(0x3F00_0000)
    } else if index == 1 {
        Some(0x3F80_0000)
    } else if index == 2 {
        Some(0x42C8_0000)
    } else if index == 3 {
        Some(0x3C23_D70A)
    } else if index == 4 {
        Some(0x3C23_D70A)
    } else if index == 5 {
        Some(0x3C23_D70A)
    } else if index == 6 {
        Some(0x3C23_D70A)
    } else if index == 7 {
        Some(0x3C23_D70A)
    } else if index == 8 {
        Some(0x3F80_0000)
    } else if index == 9 {
        Some(0x3F00_0000)
    } else {
        None
    }
}

/// Descriptor default of tape saturation parameter `index` as an `f32` bit pattern,
/// where this table fixes it (also where the range comes from a preset).
pub open spec fn tape_default(index: int) -> Option<u32> {
    if index == 0 {
        Some(0x40C0_0000)
    } else if index == 1 {
        Some(0x41F0_0000)
    } else if index == 2 {
        Some(0x463B_8000)
    } else if index == 3 {
        Some(0x0000_0000)
    } else if index == 4 {
        Some(0x3E99_999A)
    } else if index == 5 {
        Some(0x3E4C_CCCD)
    } else if index == 6 {
        Some(0x3E19_999A)
    } else if index == 7 {
        Some(0x3E99_999A)
    } else if index == 8 {
        Some(0x42A0_0000)
    } else if index == 9 {
        Some(0xC0C0_0000)
    } else {
        None
    }
}

/// Unit of tape saturation parameter `index`, where this table fixes it.
pub open spec fn tape_unit(index: int) -> Option<ParamUnit> {
    if index == 0 {
        Some(ParamUnit::Decibels)
    } else if index == 1 {
        Some(ParamUnit::Percent)
    } else if index == 2 {
        Some(ParamUnit::Hertz)
    } else if index == 3 {
        Some(ParamUnit::Unitless)
    } else if index == 4 {
        Some(ParamUnit::Unitless)
    } else if index == 5 {
        Some(ParamUnit::Unitless)
    } else if index == 6 {
        Some(ParamUnit::Unitless)
    } else if index == 7 {
        Some(ParamUnit::Unitless)
    } else if index == 8 {
        Some(ParamUnit::Hertz)
    } else if index == 9 {
        Some(ParamUnit::Decibels)
    } else {
        None
    }
}

/// Display scale of tape saturation parameter `index`, where this table sets one.
pub open spec fn tape_scale(index: int) -> Option<ParamScale> {
    if index == 0 {
        None
    } else if index == 1 {
        None
    } else if index == 2 {
        Some(ParamScale::Logarithmic)
    } else if index == 3 {
        None
    } else if index == 4 {
        None
    } else if index == 5 {
        None
    } else if index == 6 {
        None
    } else if index == 7 {
        None
    } else if index == 8 {
        Some(ParamScale::Logarithmic)
    } else if index == 9 {
        None
    } else {
        None
    }
}

/// Labels of the steps of tape saturation parameter `index`.
pub open spec fn tape_step_labels(index: int) -> LabelSpec {
    LabelSpec::Unlabelled
}

/// Value the tape saturation's parameter struct takes by default at `index`, as an
/// `f32` bit pattern (0 outside the table).
pub open spec fn tape_default_value(index: int) -> u32 {
    if index == 0 {
        0x40C0_0000
    } else if index == 1 {
        0x41F0_0000
    } else if index == 2 {
        0x463B_8000
    } else if index == 3 {
        0x0000_0000
    } else if index == 4 {
        0x3E99_999A
    } else if index == 5 {
        0x3E4C_CCCD
    } else if index == 6 {
        0x3E19_999A
    } else if index == 7 {
        0x3E99_999A
    } else if index == 8 {
        0x42A0_0000
    } else if index == 9 {
        0xC0C0_0000
    } else {
        0
    }
}

/// Whether tape saturation parameter `index` is stepped (takes whole-step values).
pub open spec fn tape_stepped(index: int) -> bool {
    false
}

/// Whether tape saturation parameter `index` is a read-only, hidden diagnostic.
pub open spec fn tape_read_only(index: int) -> bool {
    false
}

/// Smoothing style of tape saturation parameter `index`.
pub open spec fn tape_smoothing(index: int) -> SmoothingStyle {
    if index == 0 {
        SmoothingStyle::Fast
    } else if index == 1 {
        SmoothingStyle::Standard
    } else if index == 2 {
        SmoothingStyle::Slow
    } else if index == 3 {
        SmoothingStyle::Standard
    } else if index == 4 {
        SmoothingStyle::Standard
    } else if index == 5 {
        SmoothingStyle::Standard
    } else if index == 6 {
        SmoothingStyle::Standard
    } else if index == 7 {
        SmoothingStyle::Standard
    } else if index == 8 {
        SmoothingStyle::Slow
    } else if index == 9 {
        SmoothingStyle::Standard
    } else {
        SmoothingStyle::Standard
    }
}

/// Parameter table of the tape saturation.
pub struct TapeParamTable;

impl TapeParamTable {
    /// Number of parameters.
    pub fn count() -> (r: usize)
        ensures
            r == TAPE_PARAM_COUNT,
    {
        TAPE_PARAM_COUNT
    }

    /// Descriptor of parameter `index`: `Some` exactly for the 10 parameters.
    pub fn descriptor(index: usize) -> (r: Option<ParamInfo>)
        ensures
            r is Some <==> index < TAPE_PARAM_COUNT,
            r matches Some(p) ==> {
                &&& p.id.0 == tape_param_id(index as int)
                &&& p.string_id@ == tape_string_id(index as int)
                &&& opt_view(p.name) == tape_name(index as int)
                &&& opt_view(p.short_name) == tape_short_name(index as int)
                &&& p.range == tape_range(index as int)
                &&& p.step == tape_step(index as int)
                &&& p.default == tape_default(index as int)
                &&& p.unit == tape_unit(index as int)
                &&& p.scale == tape_scale(index as int)
                &&& p.stepped == tape_stepped(index as int)
                &&& p.read_only == tape_read_only(index as int)
            },
    {
        match index {
            0 => Some(ParamInfo {
                id: ParamId(1400),
                string_id: "tape_drive",
                name: Some("Drive"),
                short_name: Some("Drive"),
                range: Some(ParamRange { min: 0x0000_0000 /* 0.0 */, max: 0x41C0_0000 /* 24.0 */, default: 0x40C0_0000 /* 6.0 */ }),
                step: Some(0x3F00_0000 /* 0.5 */),
                default: Some(0x40C0_0000 /* 6.0 */),
                unit: Some(ParamUnit::Decibels),
                scale: None,
                stepped: false,
                read_only: false,
            }),
            1 => Some(ParamInfo {
                id: ParamId(1401),
                string_id: "tape_saturation",
                name: Some("Saturation"),
                short_name: Some("Sat"),
                range: Some(ParamRange { min: 0x0000_0000 /* 0.0 */, max: 0x42C8_0000 /* 100.0 */, default: 0x41F0_0000 /* 30.0 */ }),
                step: Some(0x3F80_0000 /* 1.0 */),
                default: Some(0x41F0_0000 /* 30.0 */),
                unit: Some(ParamUnit::Percent),
                scale: None,
                stepped: false,
                read_only: false,
            }),
            2 => Some(ParamInfo {
                id: ParamId(1403),
                string_id: "tape_hf_rolloff",
                name: Some("HF Rolloff"),
                short_name: Some("HFRoll"),
                range: Some(ParamRange { min: 0x447A_0000 /* 1000.0 */, max: 0x469C_4000 /* 20000.0 */, default: 0x463B_8000 /* 12000.0 */ }),
                step: Some(0x42C8_0000 /* 100.0 */),
                default: Some(0x463B_8000 /* 12000.0 */),
                unit: Some(ParamUnit::Hertz),
                scale: Some(ParamScale::Logarithmic),
                stepped: false,
                read_only: false,
            }),
            3 => Some(ParamInfo {
                id: ParamId(1404),
                string_id: "tape_bias",
                name: Some("Bias"),
                short_name: Some("Bias"),
                range: Some(ParamRange { min: 0xBE4C_CCCD /* -0.2 */, max: 0x3E4C_CCCD /* 0.2 */, default: 0x0000_0000 /* 0.0 */ }),
                step: Some(0x3C23_D70A /* 0.01 */),
                default: Some(0x0000_0000 /* 0.0 */),
                unit: Some(ParamUnit::Unitless),
                scale: None,
                stepped: false,
                read_only: false,
            }),
            4 => Some(ParamInfo {
                id: ParamId(1405),
                string_id: "tape_wow",
                name: Some("Wow"),
                short_name: Some("Wow"),
                range: Some(ParamRange { min: 0x0000_0000 /* 0.0 */, max: 0x3F80_0000 /* 1.0 */, default: 0x3E99_999A /* 0.3 */ }),
                step: Some(0x3C23_D70A /* 0.01 */),
                default: Some(0x3E99_999A /* 0.3 */),
                unit: Some(ParamUnit::Unitless),
                scale: None,
                stepped: false,
                read_only: false,
            }),
            5 => Some(ParamInfo {
                id: ParamId(1406),
                string_id: "tape_flutter",
                name: Some("Flutter"),
                short_name: Some("Flut"),
                range: Some(ParamRange { min: 0x0000_0000 /* 0.0 */, max: 0x3F80_0000 /* 1.0 */, default: 0x3E4C_CCCD /* 0.2 */ }),
                step: Some(0x3C23_D70A /* 0.01 */),
                default: Some(0x3E4C_CCCD /* 0.2 */),
                unit: Some(ParamUnit::Unitless),
                scale: None,
                stepped: false,
                read_only: false,
            }),
            6 => Some(ParamInfo {
                id: ParamId(1407),
                string_id: "tape_hysteresis",
                name: Some("Hysteresis"),
                short_name: Some("Hyst"),
                range: Some(ParamRange { min: 0x0000_0000 /* 0.0 */, max: 0x3F00_0000 /* 0.5 */, default: 0x3E19_999A /* 0.15 */ }),
                step: Some(0x3C23_D70A /* 0.01 */),
                default: Some(0x3E19_999A /* 0.15 */),
                unit: Some(ParamUnit::Unitless),
                scale: None,
                stepped: false,
                read_only: false,
            }),
            7 => Some(ParamInfo {
                id: ParamId(1408),
                string_id: "tape_head_bump",
                name: Some("Head Bump"),
                short_name: Some("Bump"),
                range: Some(ParamRange { min: 0x0000_0000 /* 0.0 */, max: 0x3F80_0000 /* 1.0 */, default: 0x3E99_999A /* 0.3 */ }),
                step: Some(0x3C23_D70A /* 0.01 */),
                default: Some(0x3E99_999A /* 0.3 */),
                unit: Some(ParamUnit::Unitless),
                scale: None,
                stepped: false,
                read_only: false,
            }),
            8 => Some(ParamInfo {
                id: ParamId(1409),
                string_id: "tape_bump_freq",
                name: Some("Bump Freq"),
                short_name: Some("BmpHz"),
                range: Some(ParamRange { min: 0x4220_0000 /* 40.0 */, max: 0x4348_0000 /* 200.0 */, default: 0x42A0_0000 /* 80.0 */ }),
                step: Some(0x3F80_0000 /* 1.0 */),
                default: Some(0x42A0_0000 /* 80.0 */),
                unit: Some(ParamUnit::Hertz),
                scale: Some(ParamScale::Logarithmic),
                stepped: false,
                read_only: false,
            }),
            9 => Some(ParamInfo {
                id: ParamId(1402),
                string_id: "tape_output",
                name: Some("Output"),
                short_name: Some("Output"),
                range: Some(ParamRange { min: 0xC140_0000 /* -12.0 */, max: 0x4140_0000 /* 12.0 */, default: 0xC0C0_0000 /* -6.0 */ }),
                step: Some(0x3F00_0000 /* 0.5 */),
                default: Some(0xC0C0_0000 /* -6.0 */),
                unit: Some(ParamUnit::Decibels),
                scale: None,
                stepped: false,
                read_only: false,
            }),
            _ => None,
        }
    }

    /// Labels of the steps of parameter `index`.
    pub fn step_labels(index: usize) -> (r: StepLabels)
        ensures
            labels_view(r) == tape_step_labels(index as int),
    {
        match index {
            _ => StepLabels::Unlabelled,
        }
    }

    /// Smoothing style of parameter `index` (`Standard` outside the table).
    pub fn smoothing(index: usize) -> (r: SmoothingStyle)
        ensures
            r == tape_smoothing(index as int),
    {
        match index {
            0 => SmoothingStyle::Fast,
            1 => SmoothingStyle::Standard,
            2 => SmoothingStyle::Slow,
            3 => SmoothingStyle::Standard,
            4 => SmoothingStyle::Standard,
            5 => SmoothingStyle::Standard,
            6 => SmoothingStyle::Standard,
            7 => SmoothingStyle::Standard,
            8 => SmoothingStyle::Slow,
            9 => SmoothingStyle::Standard,
            _ => SmoothingStyle::Standard,
        }
    }

    /// Default value of parameter `index` as an `f32` bit pattern: `Some`
    /// exactly for the 10 parameters.
    pub fn default_value(index: usize) -> (r: Option<u32>)
        ensures
            r is Some <==> index < TAPE_PARAM_COUNT,
            r matches Some(v) ==> v == tape_default_value(index as int),
    {
        match index {
            0 => Some(0x40C0_0000), // 6.0 (drive_db)
            1 => Some(0x41F0_0000), // 30.0 (saturation_pct)
            2 => Some(0x463B_8000), // 12000.0 (hf_rolloff_hz)
            3 => Some(0x0000_0000), // 0.0 (bias)
            4 => Some(0x3E99_999A), // 0.3 (wow)
            5 => Some(0x3E4C_CCCD), // 0.2 (flutter)
            6 => Some(0x3E19_999A), // 0.15 (hysteresis)
            7 => Some(0x3E99_999A), // 0.3 (head_bump)
            8 => Some(0x42A0_0000), // 80.0 (bump_freq_hz)
            9 => Some(0xC0C0_0000), // -6.0 (output_db)
            _ => None,
        }
    }
}

/// The parameter struct's default value agrees with the descriptor's default
/// wherever this table fixes one, and lies inside the range wherever this table
/// fixes a range.
pub proof fn lemma_tape_defaults_match_descriptors()
    ensures
        forall|i: int|
            0 <= i < TAPE_PARAM_COUNT ==> (#[trigger] tape_range(i) matches Some(r) ==> r.default
                == tape_default_value(i) && range_ordered(r)),
        forall|i: int|
            0 <= i < TAPE_PARAM_COUNT ==> (#[trigger] tape_default(i) matches Some(d) ==> d
                == tape_default_value(i)),
{
}

/// The tape saturation's parameter ids are pairwise distinct and all lie in its block
/// `1400..1500`.
pub proof fn lemma_tape_ids_unique()
    ensures
        forall|i: int, j: int|
            0 <= i < TAPE_PARAM_COUNT && 0 <= j < TAPE_PARAM_COUNT && i != j ==> tape_param_id(i)
                != tape_param_id(j),
        forall|i: int|
            0 <= i < TAPE_PARAM_COUNT ==> TAPE_ID_BASE <= #[trigger] tape_param_id(i) < TAPE_ID_BASE + 100,
{
}

/// Every range this table fixes is ordered, `min <= default <= max`, its default
/// is the descriptor default, and every step it fixes is positive.
pub proof fn lemma_tape_ranges_ordered()
    ensures
        forall|i: int|
            0 <= i < TAPE_PARAM_COUNT ==> (#[trigger] tape_range(i) matches Some(r) ==> range_ordered(r)
                && tape_default(i) == Some(r.default)),
        forall|i: int|
            0 <= i < TAPE_PARAM_COUNT ==> (#[trigger] tape_step(i) matches Some(s) ==> crate::order::sign_magnitude(s) > 0),
{
}

/// Stepped and read-only tape saturation parameters are never smoothed: the adapter
/// snaps them to each new value.
pub proof fn lemma_tape_discrete_params_snap()
    ensures
        forall|i: int|
            0 <= i < TAPE_PARAM_COUNT && (tape_stepped(i) || tape_read_only(i)) ==> #[trigger] tape_smoothing(i)
                == SmoothingStyle::Snap,
{
}

/// What a parameter's string id names fixes how it is shown: ids ending in `freq` name frequencies in hertz on a logarithmic scale, ids ending in `output` name output levels, where the table fixes their range, in decibels.
pub proof fn lemma_tape_units_follow_ids()
    ensures
        forall|i: int|
            0 <= i < TAPE_PARAM_COUNT && id_ends_with(#[trigger] tape_string_id(i), "freq"@) ==> tape_unit(i) == Some(ParamUnit::Hertz) && tape_scale(i) == Some(ParamScale::Logarithmic),
        forall|i: int|
            0 <= i < TAPE_PARAM_COUNT && id_ends_with(#[trigger] tape_string_id(i), "output"@) ==> (tape_range(i) is Some ==> tape_unit(i) == Some(ParamUnit::Decibels)),
{
    reveal_strlit("freq");
    reveal_strlit("output");
    reveal_strlit("tape_drive");
    reveal_strlit("tape_saturation");
    reveal_strlit("tape_hf_rolloff");
    reveal_strlit("tape_bias");
    reveal_strlit("tape_wow");
    reveal_strlit("tape_flutter");
    reveal_strlit("tape_hysteresis");
    reveal_strlit("tape_head_bump");
    reveal_strlit("tape_bump_freq");
    reveal_strlit("tape_output");
    assert(!id_ends_with(tape_string_id(0), "freq"@)) by {
        assert(tape_string_id(0).subrange(6, 10)[0] == 'r');
    }
    assert(!id_ends_with(tape_string_id(1), "freq"@)) by {
        assert(tape_string_id(1).subrange(11, 15)[0] == 't');
    }
    assert(!id_ends_with(tape_string_id(2), "freq"@)) by {
        assert(tape_string_id(2).subrange(11, 15)[0] == 'l');
    }
    assert(!id_ends_with(tape_string_id(3), "freq"@)) by {
        assert(tape_string_id(3).subrange(5, 9)[0] == 'b');
    }
    assert(!id_ends_with(tape_string_id(4), "freq"@)) by {
        assert(tape_string_id(4).subrange(4, 8)[0] == '_');
    }
    assert(!id_ends_with(tape_string_id(5), "freq"@)) by {
        assert(tape_string_id(5).subrange(8, 12)[0] == 't');
    }
    assert(!id_ends_with(tape_string_id(6), "freq"@)) by {
        assert(tape_string_id(6).subrange(11, 15)[0] == 'e');
    }
    assert(!id_ends_with(tape_string_id(7), "freq"@)) by {
        assert(tape_string_id(7).subrange(10, 14)[0] == 'b');
    }
    assert(!id_ends_with(tape_string_id(9), "freq"@)) by {
        assert(tape_string_id(9).subrange(7, 11)[0] == 't');
    }
    assert(!id_ends_with(tape_string_id(0), "output"@)) by {
        assert(tape_string_id(0).subrange(4, 10)[0] == '_');
    }
    assert(!id_ends_with(tape_string_id(1), "output"@)) by {
        assert(tape_string_id(1).subrange(9, 15)[0] == 'r');
    }
    assert(!id_ends_with(tape_string_id(2), "output"@)) by {
        assert(tape_string_id(2).subrange(9, 15)[1] == 'l');
    }
    assert(!id_ends_with(tape_string_id(3), "output"@)) by {
        assert(tape_string_id(3).subrange(3, 9)[0] == 'e');
    }
    assert(!id_ends_with(tape_string_id(4), "output"@)) by {
        assert(tape_string_id(4).subrange(2, 8)[0] == 'p');
    }
    assert(!id_ends_with(tape_string_id(5), "output"@)) by {
        assert(tape_string_id(5).subrange(6, 12)[0] == 'l');
    }
    assert(!id_ends_with(tape_string_id(6), "output"@)) by {
        assert(tape_string_id(6).subrange(9, 15)[0] == 'e');
    }
    assert(!id_ends_with(tape_string_id(7), "output"@)) by {
        assert(tape_string_id(7).subrange(8, 14)[0] == 'd');
    }
    assert(!id_ends_with(tape_string_id(8), "output"@)) by {
        assert(tape_string_id(8).subrange(8, 14)[0] == 'p');
    }
}

/// Every tape saturation parameter in hertz whose range starts at an audible frequency
/// (20 Hz or more) is shown on a logarithmic scale.
pub proof fn lemma_tape_audio_frequencies_logarithmic()
    ensures
        forall|i: int|
            0 <= i < TAPE_PARAM_COUNT && #[trigger] tape_unit(i) == Some(ParamUnit::Hertz) && (tape_range(i) matches Some(r)
                && 0x41A0_0000 <= r.min < 0x8000_0000) ==> tape_scale(i) == Some(ParamScale::Logarithmic),
{
}

} // verus!
