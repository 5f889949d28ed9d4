//! Parameter table of the clean preamp (descriptors without host ids).

use vstd::prelude::*;
use super::{id_ends_with, opt_view, range_ordered, ClassicParamInfo, ParamRange, ParamScale, ParamUnit};

verus! {

/// Number of clean preamp parameters.
pub const CLEAN_PREAMP_PARAM_COUNT: usize = 1;

/// Display name of clean preamp parameter `index`, where this table fixes it.
pub open spec fn clean_preamp_name(index: int) -> Option<Seq<char>> {
    if index == 0 {
        Some("Gain"@)
    } else {
        None
    }
}

/// Short display name of clean preamp parameter `index`, where this table fixes it.
pub open spec fn clean_preamp_short_name(index: int) -> Option<Seq<char>> {
    if index == 0 {
        Some("Gain"@)
    } else {
        None
    }
}

/// Range and default of clean preamp parameter `index` as `f32` bit patterns, where
/// this table fixes them.
pub open spec fn clean_preamp_range(index: int) -> Option<ParamRange> {
    if index == 0 {
        Some(ParamRange { min: 0xC1A0_0000, max: 0x41A0_0000, default: 0x0000_0000 })
    } else {
        None
    }
}

/// Step of clean preamp parameter `index` as an `f32` bit pattern, where this table
/// fixes it.
pub open spec fn clean_preamp_step(index: int) -> Option<u32> {
    if index == 0 {
        Some(0x3F00_0000)
    } else {
        None
    }
}

/// Descriptor default of clean preamp parameter `index` as an `f32` bit pattern,
/// where this table fixes it.
pub open spec fn clean_preamp_default(index: int) -> Option<u32> {
    if index == 0 {
        Some(0x0000_0000)
    } else {
        None
    }
}

/// Unit of clean preamp parameter `index`, where this table fixes it.
pub open spec fn clean_preamp_unit(index: int) -> Option<ParamUnit> {
    if index == 0 {
        Some(ParamUnit::Decibels)
    } else {
        None
    }
}

/// Display scale of clean preamp parameter `index`, where this table sets one.
pub open spec fn clean_preamp_scale(index: int) -> Option<ParamScale> {
    None
}

/// Value a freshly constructed clean preamp reports for parameter `index`, as an
/// `f32` bit pattern: its initial setting inside the table, `0.0` (bit pattern 0)
/// outside it.
pub open spec fn clean_preamp_initial_value(index: int) -> u32 {
    if index == 0 {
        0x0000_0000
    } else {
        0
    }
}

/// Parameter table of the clean preamp.
pub struct CleanPreampParamTable;

impl CleanPreampParamTable {
    /// Number of parameters.
    pub fn count() -> (r: usize)
        ensures
            r == CLEAN_PREAMP_PARAM_COUNT,
    {
        CLEAN_PREAMP_PARAM_COUNT
    }

    /// Descriptor of parameter `index`: `Some` exactly for the 1 parameters.
    pub fn descriptor(index: usize) -> (r: Option<ClassicParamInfo>)
        ensures
            r is Some <==> index < CLEAN_PREAMP_PARAM_COUNT,
            r matches Some(p) ==> {
                &&& opt_view(p.name) == clean_preamp_name(index as int)
                &&& opt_view(p.short_name) == clean_preamp_short_name(index as int)
                &&& p.range == clean_preamp_range(index as int)
                &&& p.step == clean_preamp_step(index as int)
                &&& p.default == clean_preamp_default(index as int)
                &&& p.unit == clean_preamp_unit(index as int)
                &&& p.scale == clean_preamp_scale(index as int)
            },
    {
        match index {
            0 => Some(ClassicParamInfo {
                name: Some("Gain"),
                short_name: Some("Gain"),
                range: Some(ParamRange { min: 0xC1A0_0000 /* -20.0 */, max: 0x41A0_0000 /* 20.0 */, default: 0x0000_0000 /* 0.0 */ }),
                step: Some(0x3F00_0000 /* 0.5 */),
                default: Some(0x0000_0000 /* 0.0 */),
                unit: Some(ParamUnit::Decibels),
                scale: None,
            }),
            _ => None,
        }
    }

    /// Value a freshly constructed effect reports for parameter `index` (its
    /// parameter getter), as an `f32` bit pattern: `0.0` outside the table.
    pub fn initial_value(index: usize) -> (r: u32)
        ensures
            r == clean_preamp_initial_value(index as int),
            index >= CLEAN_PREAMP_PARAM_COUNT ==> r == 0,
    {
        match index {
            0 => 0x0000_0000, // 0.0
            _ => 0,
        }
    }
}

/// A freshly constructed clean preamp starts every parameter at its descriptor
/// default wherever this table fixes one, and inside the range wherever this
/// table fixes a range.
pub proof fn lemma_clean_preamp_starts_at_defaults()
    ensures
        forall|i: int|
            0 <= i < CLEAN_PREAMP_PARAM_COUNT ==> (#[trigger] clean_preamp_default(i) matches Some(d) ==> d
                == clean_preamp_initial_value(i)),
        forall|i: int|
            0 <= i < CLEAN_PREAMP_PARAM_COUNT ==> (#[trigger] clean_preamp_range(i) matches Some(r) ==> r.default
                == clean_preamp_initial_value(i) && clean_preamp_default(i) == Some(r.default)
                && range_ordered(r)),
{
}

/// Every range this table fixes is ordered, `min <= default <= max`, and every
/// step it fixes is positive.
pub proof fn lemma_clean_preamp_ranges_ordered()
    ensures
        forall|i: int|
            0 <= i < CLEAN_PREAMP_PARAM_COUNT ==> (#[trigger] clean_preamp_range(i) matches Some(r) ==> range_ordered(r)),
        forall|i: int|
            0 <= i < CLEAN_PREAMP_PARAM_COUNT ==> (#[trigger] clean_preamp_step(i) matches Some(s) ==> crate::order::sign_magnitude(s) > 0),
{
}

/// What a clean preamp parameter is called fixes its unit: names ending in `Gain` are gains in decibels.
pub proof fn lemma_clean_preamp_units_follow_names()
    ensures
        forall|i: int|
            0 <= i < CLEAN_PREAMP_PARAM_COUNT ==> (#[trigger] clean_preamp_name(i) matches Some(nm) ==> (id_ends_with(nm, "Gain"@)
                ==> clean_preamp_unit(i) == Some(ParamUnit::Decibels))),
{
    reveal_strlit("Gain");
    reveal_strlit("Gain");
}

} // verus!
