//! Parameter table of the classic phaser (descriptors without host ids).

use vstd::prelude::*;
use super::{id_ends_with, opt_view, range_ordered, ClassicParamInfo, ParamRange, ParamScale, ParamUnit};
use super::phaser::{phaser_default, phaser_name, phaser_range, phaser_scale, phaser_short_name, phaser_step, phaser_unit};

verus! {

/// Number of classic phaser parameters.
pub const CLASSIC_PHASER_PARAM_COUNT: usize = 6;

/// Display name of classic phaser parameter `index`, where this table fixes it.
pub open spec fn classic_phaser_name(index: int) -> Option<Seq<char>> {
    if index == 0 {
        Some("Rate"@)
    } else if index == 1 {
        None
    } else if index == 2 {
        Some("Stages"@)
    } else if index == 3 {
        Some("Feedback"@)
    } else if index == 4 {
        None
    } else if index == 5 {
        Some("Output"@)
    } else {
        None
    }
}

/// Short display name of classic phaser parameter `index`, where this table fixes it.
pub open spec fn classic_phaser_short_name(index: int) -> Option<Seq<char>> {
    if index == 0 {
        None
    } else if index == 1 {
        None
    } else if index == 2 {
        Some("Stg"@)
    } else if index == 3 {
        None
    } else if index == 4 {
        None
    } else if index == 5 {
        None
    } else {
        None
    }
}

/// Range and default of classic phaser parameter `index` as `f32` bit patterns, where
/// this table fixes them.
pub open spec fn classic_phaser_range(index: int) -> Option<ParamRange> {
    if index == 0 {
        Some(ParamRange { min: 0x3D4C_CCCD, max: 0x40A0_0000, default: 0x3E99_999A })
    } else if index == 1 {
        None
    } else if index == 2 {
        Some(ParamRange { min: 0x4000_0000, max: 0x4140_0000, default: 0x40C0_0000 })
    } else if index == 3 {
        Some(ParamRange { min: 0x0000_0000, max: 0x42BE_0000, default: 0x4248_0000 })
    } else if index == 4 {
        None
    } else if index == 5 {
        None
    } else {
        None
    }
}

/// Step of classic phaser parameter `index` as an `f32` bit pattern, where this table
/// fixes it.
pub open spec fn classic_phaser_step(index: int) -> Option<u32> {
    if index == 0 {
        None
    } else if index == 1 {
        None
    } else if index == 2 {
        Some(0x4000_0000)
    } else if index == 3 {
        None
    } else if index == 4 {
        None
    } else if index == 5 {
        None
    } else {
        None
    }
}

/// Descriptor default of classic phaser parameter `index` as an `f32` bit pattern,
/// where this table fixes it.
pub open spec fn classic_phaser_default(index: int) -> Option<u32> {
    if index == 0 {
        Some(0x3E99_999A)
    } else if index == 1 {
        None
    } else if index == 2 {
        Some(0x40C0_0000)
    } else if index == 3 {
        Some(0x4248_0000)
    } else if index == 4 {
        None
    } else if index == 5 {
        Some(0x0000_0000)
    } else {
        None
    }
}

/// Unit of classic phaser parameter `index`, where this table fixes it.
pub open spec fn classic_phaser_unit(index: int) -> Option<ParamUnit> {
    if index == 0 {
        Some(ParamUnit::Hertz)
    } else if index == 1 {
        None
    } else if index == 2 {
        Some(ParamUnit::Unitless)
    } else if index == 3 {
        Some(ParamUnit::Percent)
    } else if index == 4 {
        None
    } else if index == 5 {
        None
    } else {
        None
    }
}

/// Display scale of classic phaser parameter `index`, where this table sets one.
pub open spec fn classic_phaser_scale(index: int) -> Option<ParamScale> {
    None
}

/// Value a freshly constructed classic phaser reports for parameter `index`, as an
/// `f32` bit pattern: its initial setting inside the table, `0.0` (bit pattern 0)
/// outside it.
pub open spec fn classic_phaser_initial_value(index: int) -> u32 {
    if index == 0 {
        0x3E99_999A
    } else if index == 1 {
        0x4248_0000
    } else if index == 2 {
        0x40C0_0000
    } else if index == 3 {
        0x4248_0000
    } else if index == 4 {
        0x4248_0000
    } else if index == 5 {
        0x0000_0000
    } else {
        0
    }
}

/// Parameter table of the classic phaser.
pub struct ClassicPhaserParamTable;

impl ClassicPhaserParamTable {
    /// Number of parameters.
    pub fn count() -> (r: usize)
        ensures
            r == CLASSIC_PHASER_PARAM_COUNT,
    {
        CLASSIC_PHASER_PARAM_COUNT
    }

    /// Descriptor of parameter `index`: `Some` exactly for the 6 parameters.
    pub fn descriptor(index: usize) -> (r: Option<ClassicParamInfo>)
        ensures
            r is Some <==> index < CLASSIC_PHASER_PARAM_COUNT,
            r matches Some(p) ==> {
                &&& opt_view(p.name) == classic_phaser_name(index as int)
                &&& opt_view(p.short_name) == classic_phaser_short_name(index as int)
                &&& p.range == classic_phaser_range(index as int)
                &&& p.step == classic_phaser_step(index as int)
                &&& p.default == classic_phaser_default(index as int)
                &&& p.unit == classic_phaser_unit(index as int)
                &&& p.scale == classic_phaser_scale(index as int)
            },
    {
        match index {
            0 => Some(ClassicParamInfo {
                name: Some("Rate"),
                short_name: None,
                range: Some(ParamRange { min: 0x3D4C_CCCD /* 0.05 */, max: 0x40A0_0000 /* 5.0 */, default: 0x3E99_999A /* 0.3 */ }),
                step: None,
                default: Some(0x3E99_999A /* 0.3 */),
                unit: Some(ParamUnit::Hertz),
                scale: None,
            }),
            1 => Some(ClassicParamInfo {
                name: None,
                short_name: None,
                range: None,
                step: None,
                default: None,
                unit: None,
                scale: None,
            }),
            2 => Some(ClassicParamInfo {
                name: Some("Stages"),
                short_name: Some("Stg"),
                range: Some(ParamRange { min: 0x4000_0000 /* 2.0 */, max: 0x4140_0000 /* 12.0 */, default: 0x40C0_0000 /* 6.0 */ }),
                step: Some(0x4000_0000 /* 2.0 */),
                default: Some(0x40C0_0000 /* 6.0 */),
                unit: Some(ParamUnit::Unitless),
                scale: None,
            }),
            3 => Some(ClassicParamInfo {
                name: Some("Feedback"),
                short_name: None,
                range: Some(ParamRange { min: 0x0000_0000 /* 0.0 */, max: 0x42BE_0000 /* 95.0 */, default: 0x4248_0000 /* 50.0 */ }),
                step: None,
                default: Some(0x4248_0000 /* 50.0 */),
                unit: Some(ParamUnit::Percent),
                scale: None,
            }),
            4 => Some(ClassicParamInfo {
                name: None,
                short_name: None,
                range: None,
                step: None,
                default: None,
                unit: None,
                scale: None,
            }),
            5 => Some(ClassicParamInfo {
                name: Some("Output"),
                short_name: None,
                range: None,
                step: None,
                default: Some(0x0000_0000 /* 0.0 */),
                unit: None,
                scale: None,
            }),
            _ => None,
        }
    }

    /// Value a freshly constructed effect reports for parameter `index` (its
    /// parameter getter), as an `f32` bit pattern: `0.0` outside the table.
    pub fn initial_value(index: usize) -> (r: u32)
        ensures
            r == classic_phaser_initial_value(index as int),
            index >= CLASSIC_PHASER_PARAM_COUNT ==> r == 0,
    {
        match index {
            0 => 0x3E99_999A, // 0.3
            1 => 0x4248_0000, // 50.0
            2 => 0x40C0_0000, // 6.0
            3 => 0x4248_0000, // 50.0
            4 => 0x4248_0000, // 50.0
            5 => 0x0000_0000, // 0.0
            _ => 0,
        }
    }
}

/// A freshly constructed classic phaser starts every parameter at its descriptor
/// default wherever this table fixes one, and inside the range wherever this
/// table fixes a range.
pub proof fn lemma_classic_phaser_starts_at_defaults()
    ensures
        forall|i: int|
            0 <= i < CLASSIC_PHASER_PARAM_COUNT ==> (#[trigger] classic_phaser_default(i) matches Some(d) ==> d
                == classic_phaser_initial_value(i)),
        forall|i: int|
            0 <= i < CLASSIC_PHASER_PARAM_COUNT ==> (#[trigger] classic_phaser_range(i) matches Some(r) ==> r.default
                == classic_phaser_initial_value(i) && classic_phaser_default(i) == Some(r.default)
                && range_ordered(r)),
{
}

/// Every range this table fixes is ordered, `min <= default <= max`, and every
/// step it fixes is positive.
pub proof fn lemma_classic_phaser_ranges_ordered()
    ensures
        forall|i: int|
            0 <= i < CLASSIC_PHASER_PARAM_COUNT ==> (#[trigger] classic_phaser_range(i) matches Some(r) ==> range_ordered(r)),
        forall|i: int|
            0 <= i < CLASSIC_PHASER_PARAM_COUNT ==> (#[trigger] classic_phaser_step(i) matches Some(s) ==> crate::order::sign_magnitude(s) > 0),
{
}

/// What a classic phaser parameter is called fixes its unit: names ending in `Rate` are rates in hertz.
pub proof fn lemma_classic_phaser_units_follow_names()
    ensures
        forall|i: int|
            0 <= i < CLASSIC_PHASER_PARAM_COUNT ==> (#[trigger] classic_phaser_name(i) matches Some(nm) ==> (id_ends_with(nm, "Rate"@)
                ==> classic_phaser_unit(i) == Some(ParamUnit::Hertz))),
{
    reveal_strlit("Rate");
    reveal_strlit("Feedback");
    reveal_strlit("Output");
    reveal_strlit("Rate");
    reveal_strlit("Stages");
    assert(!id_ends_with("Stages"@, "Rate"@)) by {
        assert("Stages"@.subrange(2, 6)[0] == 'a');
    }
    assert(!id_ends_with("Feedback"@, "Rate"@)) by {
        assert("Feedback"@.subrange(4, 8)[0] == 'b');
    }
    assert(!id_ends_with("Output"@, "Rate"@)) by {
        assert("Output"@.subrange(2, 6)[0] == 't');
    }
}

/// The classic phaser and the phaser kernel describe the same controls: rate,
/// depth, stages, feedback and mix (indices 0 to 4 of both) and the output level
/// (classic index 5, kernel index 9) have the same names, ranges, steps,
/// defaults, units and scales.
pub proof fn lemma_classic_phaser_matches_kernel()
    ensures
        forall|i: int|
            0 <= i < 5 ==> #[trigger] classic_phaser_name(i) == phaser_name(i) && classic_phaser_short_name(i)
                == phaser_short_name(i) && classic_phaser_range(i) == phaser_range(i) && classic_phaser_step(i)
                == phaser_step(i) && classic_phaser_default(i) == phaser_default(i) && classic_phaser_unit(i)
                == phaser_unit(i) && classic_phaser_scale(i) == phaser_scale(i),
        classic_phaser_name(5) == phaser_name(9),
        classic_phaser_range(5) == phaser_range(9),
        classic_phaser_default(5) == phaser_default(9),
        classic_phaser_unit(5) == phaser_unit(9),
{
}

} // verus!
