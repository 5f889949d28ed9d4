//! Parameter table of the parametric EQ (descriptors without host ids).

use vstd::prelude::*;
use super::{id_ends_with, opt_view, range_ordered, ClassicParamInfo, ParamRange, ParamScale, ParamUnit};

verus! {

/// Number of parametric EQ parameters.
pub const PARAMETRIC_EQ_PARAM_COUNT: usize = 9;

/// Display name of parametric EQ parameter `index`, where this table fixes it.
pub open spec fn parametric_eq_name(index: int) -> Option<Seq<char>> {
    if index == 0 {
        Some("Low Frequency"@)
    } else if index == 1 {
        Some("Low Gain"@)
    } else if index == 2 {
        Some("Low Q"@)
    } else if index == 3 {
        Some("Mid Frequency"@)
    } else if index == 4 {
        Some("Mid Gain"@)
    } else if index == 5 {
        Some("Mid Q"@)
    } else if index == 6 {
        Some("High Frequency"@)
    } else if index == 7 {
        Some("High Gain"@)
    } else if index == 8 {
        Some("High Q"@)
    } else {
        None
    }
}

/// Short display name of parametric EQ parameter `index`, where this table fixes it.
pub open spec fn parametric_eq_short_name(index: int) -> Option<Seq<char>> {
    if index == 0 {
        Some("LowFreq"@)
    } else if index == 1 {
        Some("LowGain"@)
    } else if index == 2 {
        Some("LowQ"@)
    } else if index == 3 {
        Some("MidFreq"@)
    } else if index == 4 {
        Some("MidGain"@)
    } else if index == 5 {
        Some("MidQ"@)
    } else if index == 6 {
        Some("HighFreq"@)
    } else if index == 7 {
        Some("HighGain"@)
    } else if index == 8 {
        Some("HighQ"@)
    } else {
        None
    }
}

/// Range and default of parametric EQ parameter `index` as `f32` bit patterns, where
/// this table fixes them.
pub open spec fn parametric_eq_range(index: int) -> Option<ParamRange> {
    if index == 0 {
        Some(ParamRange { min: 0x41A0_0000, max: 0x43FA_0000, default: 0x42C8_0000 })
    } else if index == 1 {
        Some(ParamRange { min: 0xC140_0000, max: 0x4140_0000, default: 0x0000_0000 })
    } else if index == 2 {
        Some(ParamRange { min: 0x3F00_0000, max: 0x40A0_0000, default: 0x3F80_0000 })
    } else if index == 3 {
        Some(ParamRange { min: 0x4348_0000, max: 0x459C_4000, default: 0x447A_0000 })
    } else if index == 4 {
        Some(ParamRange { min: 0xC140_0000, max: 0x4140_0000, default: 0x0000_0000 })
    } else if index == 5 {
        Some(ParamRange { min: 0x3F00_0000, max: 0x40A0_0000, default: 0x3F80_0000 })
    } else if index == 6 {
        Some(ParamRange { min: 0x447A_0000, max: 0x466A_6000, default: 0x459C_4000 })
    } else if index == 7 {
        Some(ParamRange { min: 0xC140_0000, max: 0x4140_0000, default: 0x0000_0000 })
    } else if index == 8 {
        Some(ParamRange { min: 0x3F00_0000, max: 0x40A0_0000, default: 0x3F80_0000 })
    } else {
        None
    }
}

/// Step of parametric EQ parameter `index` as an `f32` bit pattern, where this table
/// fixes it.
pub open spec fn parametric_eq_step(index: int) -> Option<u32> {
    if index == 0 {
        Some(0x3F80_0000)
    } else if index == 1 {
        Some(0x3F00_0000)
    } else if index == 2 {
        Some(0x3DCC_CCCD)
    } else if index == 3 {
        Some(0x4120_0000)
    } else if index == 4 {
        Some(0x3F00_0000)
    } else if index == 5 {
        Some(0x3DCC_CCCD)
    } else if index == 6 {
        Some(0x42C8_0000)
    } else if index == 7 {
        Some(0x3F00_0000)
    } else if index == 8 {
        Some(0x3DCC_CCCD)
    } else {
        None
    }
}

/// Descriptor default of parametric EQ parameter `index` as an `f32` bit pattern,
/// where this table fixes it.
pub open spec fn parametric_eq_default(index: int) -> Option<u32> {
    if index == 0 {
        Some(0x42C8_0000)
    } else if index == 1 {
        Some(0x0000_0000)
    } else if index == 2 {
        Some(0x3F80_0000)
    } else if index == 3 {
        Some(0x447A_0000)
    } else if index == 4 {
        Some(0x0000_0000)
    } else if index == 5 {
        Some(0x3F80_0000)
    } else if index == 6 {
        Some(0x459C_4000)
    } else if index == 7 {
        Some(0x0000_0000)
    } else if index == 8 {
        Some(0x3F80_0000)
    } else {
        None
    }
}

/// Unit of parametric EQ parameter `index`, where this table fixes it.
pub open spec fn parametric_eq_unit(index: int) -> Option<ParamUnit> {
    if index == 0 {
        Some(ParamUnit::Hertz)
    } else if index == 1 {
        Some(ParamUnit::Decibels)
    } else if index == 2 {
        Some(ParamUnit::Unitless)
    } else if index == 3 {
        Some(ParamUnit::Hertz)
    } else if index == 4 {
        Some(ParamUnit::Decibels)
    } else if index == 5 {
        Some(ParamUnit::Unitless)
    } else if index == 6 {
        Some(ParamUnit::Hertz)
    } else if index == 7 {
        Some(ParamUnit::Decibels)
    } else if index == 8 {
        Some(ParamUnit::Unitless)
    } else {
        None
    }
}

/// Display scale of parametric EQ parameter `index`, where this table sets one.
pub open spec fn parametric_eq_scale(index: int) -> Option<ParamScale> {
    None
}

/// Value a freshly constructed parametric EQ reports for parameter `index`, as an
/// `f32` bit pattern: its initial setting inside the table, `0.0` (bit pattern 0)
/// outside it.
pub open spec fn parametric_eq_initial_value(index: int) -> u32 {
    if index == 0 {
        0x42C8_0000
    } else if index == 1 {
        0x0000_0000
    } else if index == 2 {
        0x3F80_0000
    } else if index == 3 {
        0x447A_0000
    } else if index == 4 {
        0x0000_0000
    } else if index == 5 {
        0x3F80_0000
    } else if index == 6 {
        0x459C_4000
    } else if index == 7 {
        0x0000_0000
    } else if index == 8 {
        0x3F80_0000
    } else {
        0
    }
}

/// Parameter table of the parametric EQ.
pub struct ParametricEqParamTable;

impl ParametricEqParamTable {
    /// Number of parameters.
    pub fn count() -> (r: usize)
        ensures
            r == PARAMETRIC_EQ_PARAM_COUNT,
    {
        PARAMETRIC_EQ_PARAM_COUNT
    }

    /// Descriptor of parameter `index`: `Some` exactly for the 9 parameters.
    pub fn descriptor(index: usize) -> (r: Option<ClassicParamInfo>)
        ensures
            r is Some <==> index < PARAMETRIC_EQ_PARAM_COUNT,
            r matches Some(p) ==> {
                &&& opt_view(p.name) == parametric_eq_name(index as int)
                &&& opt_view(p.short_name) == parametric_eq_short_name(index as int)
                &&& p.range == parametric_eq_range(index as int)
                &&& p.step == parametric_eq_step(index as int)
                &&& p.default == parametric_eq_default(index as int)
                &&& p.unit == parametric_eq_unit(index as int)
                &&& p.scale == parametric_eq_scale(index as int)
            },
    {
        match index {
            0 => Some(ClassicParamInfo {
                name: Some("Low Frequency"),
                short_name: Some("LowFreq"),
                range: Some(ParamRange { min: 0x41A0_0000 /* 20.0 */, max: 0x43FA_0000 /* 500.0 */, default: 0x42C8_0000 /* 100.0 */ }),
                step: Some(0x3F80_0000 /* 1.0 */),
                default: Some(0x42C8_0000 /* 100.0 */),
                unit: Some(ParamUnit::Hertz),
                scale: None,
            }),
            1 => Some(ClassicParamInfo {
                name: Some("Low Gain"),
                short_name: Some("LowGain"),
                range: Some(ParamRange { min: 0xC140_0000 /* -12.0 */, max: 0x4140_0000 /* 12.0 */, default: 0x0000_0000 /* 0.0 */ }),
                step: Some(0x3F00_0000 /* 0.5 */),
                default: Some(0x0000_0000 /* 0.0 */),
                unit: Some(ParamUnit::Decibels),
                scale: None,
            }),
            2 => Some(ClassicParamInfo {
                name: Some("Low Q"),
                short_name: Some("LowQ"),
                range: Some(ParamRange { min: 0x3F00_0000 /* 0.5 */, max: 0x40A0_0000 /* 5.0 */, default: 0x3F80_0000 /* 1.0 */ }),
                step: Some(0x3DCC_CCCD /* 0.1 */),
                default: Some(0x3F80_0000 /* 1.0 */),
                unit: Some(ParamUnit::Unitless),
                scale: None,
            }),
            3 => Some(ClassicParamInfo {
                name: Some("Mid Frequency"),
                short_name: Some("MidFreq"),
                range: Some(ParamRange { min: 0x4348_0000 /* 200.0 */, max: 0x459C_4000 /* 5000.0 */, default: 0x447A_0000 /* 1000.0 */ }),
                step: Some(0x4120_0000 /* 10.0 */),
                default: Some(0x447A_0000 /* 1000.0 */),
                unit: Some(ParamUnit::Hertz),
                scale: None,
            }),
            4 => Some(ClassicParamInfo {
                name: Some("Mid Gain"),
                short_name: Some("MidGain"),
                range: Some(ParamRange { min: 0xC140_0000 /* -12.0 */, max: 0x4140_0000 /* 12.0 */, default: 0x0000_0000 /* 0.0 */ }),
                step: Some(0x3F00_0000 /* 0.5 */),
                default: Some(0x0000_0000 /* 0.0 */),
                unit: Some(ParamUnit::Decibels),
                scale: None,
            }),
            5 => Some(ClassicParamInfo {
                name: Some("Mid Q"),
                short_name: Some("MidQ"),
                range: Some(ParamRange { min: 0x3F00_0000 /* 0.5 */, max: 0x40A0_0000 /* 5.0 */, default: 0x3F80_0000 /* 1.0 */ }),
                step: Some(0x3DCC_CCCD /* 0.1 */),
                default: Some(0x3F80_0000 /* 1.0 */),
                unit: Some(ParamUnit::Unitless),
                scale: None,
            }),
            6 => Some(ClassicParamInfo {
                name: Some("High Frequency"),
                short_name: Some("HighFreq"),
                range: Some(ParamRange { min: 0x447A_0000 /* 1000.0 */, max: 0x466A_6000 /* 15000.0 */, default: 0x459C_4000 /* 5000.0 */ }),
                step: Some(0x42C8_0000 /* 100.0 */),
                default: Some(0x459C_4000 /* 5000.0 */),
                unit: Some(ParamUnit::Hertz),
                scale: None,
            }),
            7 => Some(ClassicParamInfo {
                name: Some("High Gain"),
                short_name: Some("HighGain"),
                range: Some(ParamRange { min: 0xC140_0000 /* -12.0 */, max: 0x4140_0000 /* 12.0 */, default: 0x0000_0000 /* 0.0 */ }),
                step: Some(0x3F00_0000 /* 0.5 */),
                default: Some(0x0000_0000 /* 0.0 */),
                unit: Some(ParamUnit::Decibels),
                scale: None,
            }),
            8 => Some(ClassicParamInfo {
                name: Some("High Q"),
                short_name: Some("HighQ"),
                range: Some(ParamRange { min: 0x3F00_0000 /* 0.5 */, max: 0x40A0_0000 /* 5.0 */, default: 0x3F80_0000 /* 1.0 */ }),
                step: Some(0x3DCC_CCCD /* 0.1 */),
                default: Some(0x3F80_0000 /* 1.0 */),
                unit: Some(ParamUnit::Unitless),
                scale: None,
            }),
            _ => None,
        }
    }

    /// Value a freshly constructed effect reports for parameter `index` (its
    /// parameter getter), as an `f32` bit pattern: `0.0` outside the table.
    pub fn initial_value(index: usize) -> (r: u32)
        ensures
            r == parametric_eq_initial_value(index as int),
            index >= PARAMETRIC_EQ_PARAM_COUNT ==> r == 0,
    {
        match index {
            0 => 0x42C8_0000, // 100.0
            1 => 0x0000_0000, // 0.0
            2 => 0x3F80_0000, // 1.0
            3 => 0x447A_0000, // 1000.0
            4 => 0x0000_0000, // 0.0
            5 => 0x3F80_0000, // 1.0
            6 => 0x459C_4000, // 5000.0
            7 => 0x0000_0000, // 0.0
            8 => 0x3F80_0000, // 1.0
            _ => 0,
        }
    }
}

/// A freshly constructed parametric EQ starts every parameter at its descriptor
/// default wherever this table fixes one, and inside the range wherever this
/// table fixes a range.
pub proof fn lemma_parametric_eq_starts_at_defaults()
    ensures
        forall|i: int|
            0 <= i < PARAMETRIC_EQ_PARAM_COUNT ==> (#[trigger] parametric_eq_default(i) matches Some(d) ==> d
                == parametric_eq_initial_value(i)),
        forall|i: int|
            0 <= i < PARAMETRIC_EQ_PARAM_COUNT ==> (#[trigger] parametric_eq_range(i) matches Some(r) ==> r.default
                == parametric_eq_initial_value(i) && parametric_eq_default(i) == Some(r.default)
                && range_ordered(r)),
{
}

/// Every range this table fixes is ordered, `min <= default <= max`, and every
/// step it fixes is positive.
pub proof fn lemma_parametric_eq_ranges_ordered()
    ensures
        forall|i: int|
            0 <= i < PARAMETRIC_EQ_PARAM_COUNT ==> (#[trigger] parametric_eq_range(i) matches Some(r) ==> range_ordered(r)),
        forall|i: int|
            0 <= i < PARAMETRIC_EQ_PARAM_COUNT ==> (#[trigger] parametric_eq_step(i) matches Some(s) ==> crate::order::sign_magnitude(s) > 0),
{
}

/// What a parametric EQ parameter is called fixes its unit: names ending in `Frequency` are frequencies in hertz, names ending in `Gain` are gains in decibels, names ending in `Q` are Q factors as plain numbers.
pub proof fn lemma_parametric_eq_units_follow_names()
    ensures
        forall|i: int|
            0 <= i < PARAMETRIC_EQ_PARAM_COUNT ==> (#[trigger] parametric_eq_name(i) matches Some(nm) ==> (id_ends_with(nm, "Frequency"@)
                ==> parametric_eq_unit(i) == Some(ParamUnit::Hertz))),
        forall|i: int|
            0 <= i < PARAMETRIC_EQ_PARAM_COUNT ==> (#[trigger] parametric_eq_name(i) matches Some(nm) ==> (id_ends_with(nm, "Gain"@)
                ==> parametric_eq_unit(i) == Some(ParamUnit::Decibels))),
        forall|i: int|
            0 <= i < PARAMETRIC_EQ_PARAM_COUNT ==> (#[trigger] parametric_eq_name(i) matches Some(nm) ==> (id_ends_with(nm, " Q"@)
                ==> parametric_eq_unit(i) == Some(ParamUnit::Unitless))),
{
    reveal_strlit("Frequency");
    reveal_strlit("Gain");
    reveal_strlit(" Q");
    reveal_strlit("High Frequency");
    reveal_strlit("High Gain");
    reveal_strlit("High Q");
    reveal_strlit("Low Frequency");
    reveal_strlit("Low Gain");
    reveal_strlit("Low Q");
    reveal_strlit("Mid Frequency");
    reveal_strlit("Mid Gain");
    reveal_strlit("Mid Q");
    assert(!id_ends_with("High Gain"@, "Frequency"@)) by {
        assert("High Gain"@.subrange(0, 9)[0] == 'H');
    }
    assert(!id_ends_with("Low Frequency"@, "Gain"@)) by {
        assert("Low Frequency"@.subrange(9, 13)[0] == 'e');
    }
    assert(!id_ends_with("Low Q"@, "Gain"@)) by {
        assert("Low Q"@.subrange(1, 5)[0] == 'o');
    }
    assert(!id_ends_with("Mid Frequency"@, "Gain"@)) by {
        assert("Mid Frequency"@.subrange(9, 13)[0] == 'e');
    }
    assert(!id_ends_with("Mid Q"@, "Gain"@)) by {
        assert("Mid Q"@.subrange(1, 5)[0] == 'i');
    }
    assert(!id_ends_with("High Frequency"@, "Gain"@)) by {
        assert("High Frequency"@.subrange(10, 14)[0] == 'e');
    }
    assert(!id_ends_with("High Q"@, "Gain"@)) by {
        assert("High Q"@.subrange(2, 6)[0] == 'g');
    }
    assert(!id_ends_with("Low Frequency"@, " Q"@)) by {
        assert("Low Frequency"@.subrange(11, 13)[0] == 'c');
    }
    assert(!id_ends_with("Low Gain"@, " Q"@)) by {
        assert("Low Gain"@.subrange(6, 8)[0] == 'i');
    }
    assert(!id_ends_with("Mid Frequency"@, " Q"@)) by {
        assert("Mid Frequency"@.subrange(11, 13)[0] == 'c');
    }
    assert(!id_ends_with("Mid Gain"@, " Q"@)) by {
        assert("Mid Gain"@.subrange(6, 8)[0] == 'i');
    }
    assert(!id_ends_with("High Frequency"@, " Q"@)) by {
        assert("High Frequency"@.subrange(12, 14)[0] == 'c');
    }
    assert(!id_ends_with("High Gain"@, " Q"@)) by {
        assert("High Gain"@.subrange(7, 9)[0] == 'i');
    }
}

} // verus!
