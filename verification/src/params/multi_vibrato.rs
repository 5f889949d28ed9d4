//! Parameter table of the multi-vibrato (descriptors without host ids).

use vstd::prelude::*;
use super::{id_ends_with, opt_view, range_ordered, ClassicParamInfo, ParamRange, ParamScale, ParamUnit};

verus! {

/// Number of multi-vibrato parameters.
pub const MULTI_VIBRATO_PARAM_COUNT: usize = 3;

/// Display name of multi-vibrato parameter `index`, where this table fixes it.
pub open spec fn multi_vibrato_name(index: int) -> Option<Seq<char>> {
    if index == 0 {
        Some("Depth"@)
    } else if index == 1 {
        Some("Mix"@)
    } else if index == 2 {
        Some("Output"@)
    } else {
        None
    }
}

/// Short display name of multi-vibrato parameter `index`, where this table fixes it.
pub open spec fn multi_vibrato_short_name(index: int) -> Option<Seq<char>> {
    if index == 0 {
        Some("Depth"@)
    } else if index == 1 {
        Some("Mix"@)
    } else if index == 2 {
        None
    } else {
        None
    }
}

/// Range and default of multi-vibrato parameter `index` as `f32` bit patterns, where
/// this table fixes them.
pub open spec fn multi_vibrato_range(index: int) -> Option<ParamRange> {
    if index == 0 {
        Some(ParamRange { min: 0x0000_0000, max: 0x4348_0000, default: 0x42C8_0000 })
    } else if index == 1 {
        Some(ParamRange { min: 0x0000_0000, max: 0x42C8_0000, default: 0x42C8_0000 })
    } else if index == 2 {
        None
    } else {
        None
    }
}

/// Step of multi-vibrato parameter `index` as an `f32` bit pattern, where this table
/// fixes it.
pub open spec fn multi_vibrato_step(index: int) -> Option<u32> {
    if index == 0 {
        Some(0x3F80_0000)
    } else if index == 1 {
        Some(0x3F80_0000)
    } else if index == 2 {
        None
    } else {
        None
    }
}

/// Descriptor default of multi-vibrato parameter `index` as an `f32` bit pattern,
/// where this table fixes it.
pub open spec fn multi_vibrato_default(index: int) -> Option<u32> {
    if index == 0 {
        Some(0x42C8_0000)
    } else if index == 1 {
        Some(0x42C8_0000)
    } else if index == 2 {
        Some(0x0000_0000)
    } else {
        None
    }
}

/// Unit of multi-vibrato parameter `index`, where this table fixes it.
pub open spec fn multi_vibrato_unit(index: int) -> Option<ParamUnit> {
    if index == 0 {
        Some(ParamUnit::Percent)
    } else if index == 1 {
        Some(ParamUnit::Percent)
    } else if index == 2 {
        None
    } else {
        None
    }
}

/// Display scale of multi-vibrato parameter `index`, where this table sets one.
pub open spec fn multi_vibrato_scale(index: int) -> Option<ParamScale> {
    None
}

/// Value a freshly constructed multi-vibrato reports for parameter `index`, as an
/// `f32` bit pattern: its initial setting inside the table, `0.0` (bit pattern 0)
/// outside it.
pub open spec fn multi_vibrato_initial_value(index: int) -> u32 {
    if index == 0 {
        0x42C8_0000
    } else if index == 1 {
        0x42C8_0000
    } else if index == 2 {
        0x0000_0000
    } else {
        0
    }
}

/// Parameter table of the multi-vibrato.
pub struct MultiVibratoParamTable;

impl MultiVibratoParamTable {
    /// Number of parameters.
    pub fn count() -> (r: usize)
        ensures
            r == MULTI_VIBRATO_PARAM_COUNT,
    {
        MULTI_VIBRATO_PARAM_COUNT
    }

    /// Descriptor of parameter `index`: `Some` exactly for the 3 parameters.
    pub fn descriptor(index: usize) -> (r: Option<ClassicParamInfo>)
        ensures
            r is Some <==> index < MULTI_VIBRATO_PARAM_COUNT,
            r matches Some(p) ==> {
                &&& opt_view(p.name) == multi_vibrato_name(index as int)
                &&& opt_view(p.short_name) == multi_vibrato_short_name(index as int)
                &&& p.range == multi_vibrato_range(index as int)
                &&& p.step == multi_vibrato_step(index as int)
                &&& p.default == multi_vibrato_default(index as int)
                &&& p.unit == multi_vibrato_unit(index as int)
                &&& p.scale == multi_vibrato_scale(index as int)
            },
    {
        match index {
            0 => Some(ClassicParamInfo {
                name: Some("Depth"),
                short_name: Some("Depth"),
                range: Some(ParamRange { min: 0x0000_0000 /* 0.0 */, max: 0x4348_0000 /* 200.0 */, default: 0x42C8_0000 /* 100.0 */ }),
                step: Some(0x3F80_0000 /* 1.0 */),
                default: Some(0x42C8_0000 /* 100.0 */),
                unit: Some(ParamUnit::Percent),
                scale: None,
            }),
            1 => Some(ClassicParamInfo {
                name: Some("Mix"),
                short_name: Some("Mix"),
                range: Some(ParamRange { min: 0x0000_0000 /* 0.0 */, max: 0x42C8_0000 /* 100.0 */, default: 0x42C8_0000 /* 100.0 */ }),
                step: Some(0x3F80_0000 /* 1.0 */),
                default: Some(0x42C8_0000 /* 100.0 */),
                unit: Some(ParamUnit::Percent),
                scale: None,
            }),
            2 => Some(ClassicParamInfo {
                name: Some("Output"),
                short_name: None,
                range: None,
                step: None,
                default: Some(0x0000_0000 /* 0.0 */),
                unit: None,
                scale: None,
            }),
            _ => None,
        }
    }

    /// Value a freshly constructed effect reports for parameter `index` (its
    /// parameter getter), as an `f32` bit pattern: `0.0` outside the table.
    pub fn initial_value(index: usize) -> (r: u32)
        ensures
            r == multi_vibrato_initial_value(index as int),
            index >= MULTI_VIBRATO_PARAM_COUNT ==> r == 0,
    {
        match index {
            0 => 0x42C8_0000, // 100.0
            1 => 0x42C8_0000, // 100.0
            2 => 0x0000_0000, // 0.0
            _ => 0,
        }
    }
}

/// A freshly constructed multi-vibrato starts every parameter at its descriptor
/// default wherever this table fixes one, and inside the range wherever this
/// table fixes a range.
pub proof fn lemma_multi_vibrato_starts_at_defaults()
    ensures
        forall|i: int|
            0 <= i < MULTI_VIBRATO_PARAM_COUNT ==> (#[trigger] multi_vibrato_default(i) matches Some(d) ==> d
                == multi_vibrato_initial_value(i)),
        forall|i: int|
            0 <= i < MULTI_VIBRATO_PARAM_COUNT ==> (#[trigger] multi_vibrato_range(i) matches Some(r) ==> r.default
                == multi_vibrato_initial_value(i) && multi_vibrato_default(i) == Some(r.default)
                && range_ordered(r)),
{
}

/// Every range this table fixes is ordered, `min <= default <= max`, and every
/// step it fixes is positive.
pub proof fn lemma_multi_vibrato_ranges_ordered()
    ensures
        forall|i: int|
            0 <= i < MULTI_VIBRATO_PARAM_COUNT ==> (#[trigger] multi_vibrato_range(i) matches Some(r) ==> range_ordered(r)),
        forall|i: int|
            0 <= i < MULTI_VIBRATO_PARAM_COUNT ==> (#[trigger] multi_vibrato_step(i) matches Some(s) ==> crate::order::sign_magnitude(s) > 0),
{
}

} // verus!
