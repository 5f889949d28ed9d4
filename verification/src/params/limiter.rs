//! Parameter table of the limiter.

use vstd::prelude::*;
use super::{id_ends_with, labels_view, opt_view, range_ordered, whole_f32_bits, LabelSpec, ParamId, ParamInfo, ParamRange, ParamScale, ParamUnit, StepLabels};

verus! {

/// Number of limiter parameters.
pub const LIMITER_PARAM_COUNT: usize = 5;

/// First identifier of the limiter's block of parameter ids.
pub const LIMITER_ID_BASE: u32 = 1600;

/// Host identifier of limiter parameter `index` (0 outside the table).
pub open spec fn limiter_param_id(index: int) -> u32 {
    if index == 0 {
        1600
    } else if index == 1 {
        1601
    } else if index == 2 {
        1602
    } else if index == 3 {
        1603
    } else if index == 4 {
        1604
    } else {
        0
    }
}

/// Stable string identifier of limiter parameter `index` (empty outside the table).
pub open spec fn limiter_string_id(index: int) -> Seq<char> {
    if index == 0 {
        "lim_thresh"@
    } else if index == 1 {
        "lim_ceil"@
    } else if index == 2 {
        "lim_release"@
    } else if index == 3 {
        "lim_look"@
    } else if index == 4 {
        "lim_output"@
    } else {
        Seq::empty()
    }
}

/// Display name of limiter parameter `index`, where this table fixes it.
pub open spec fn limiter_name(index: int) -> Option<Seq<char>> {
    if index == 0 {
        Some("Threshold"@)
    } else if index == 1 {
        Some("Ceiling"@)
    } else if index == 2 {
        Some("Release"@)
    } else if index == 3 {
        Some("Lookahead"@)
    } else if index == 4 {
        Some("Output"@)
    } else {
        None
    }
}

/// Short display name of limiter parameter `index`, where this table fixes it.
pub open spec fn limiter_short_name(index: int) -> Option<Seq<char>> {
    if index == 0 {
        Some("Thresh"@)
    } else if index == 1 {
        Some("Ceil"@)
    } else if index == 2 {
        Some("Rel"@)
    } else if index == 3 {
        Some("Look"@)
    } else if index == 4 {
        None
    } else {
        None
    }
}

/// Range and default of limiter parameter `index` as `f32` bit patterns, where
/// this table fixes them.
pub open spec fn limiter_range(index: int) -> Option<ParamRange> {
    if index == 0 {
        Some(ParamRange { min: 0xC1F0_0000, max: 0x0000_0000, default: 0xC0C0_0000 })
    } else if index == 1 {
        Some(ParamRange { min: 0xC1F0_0000, max: 0x0000_0000, default: 0xBE99_999A })
    } else if index == 2 {
        Some(ParamRange { min: 0x4120_0000, max: 0x43FA_0000, default: 0x42C8_0000 })
    } else if index == 3 {
        Some(ParamRange { min: 0x0000_0000, max: 0x4120_0000, default: 0x40A0_0000 })
    } else if index == 4 {
        None
    } else {
        None
    }
}

/// Step of limiter parameter `index` as an `f32` bit pattern, where this table
/// fixes it.
pub open spec fn limiter_step(index: int) -> Option<u32> {
    None
}

/// Descriptor default of limiter parameter `index` as an `f32` bit pattern,
/// where this table fixes it (also where the range comes from a preset).
pub open spec fn limiter_default(index: int) -> Option<u32> {
    if index == 0 {
        Some(0xC0C0_0000)
    } else if index == 1 {
        Some(0xBE99_999A)
    } else if index == 2 {
        Some(0x42C8_0000)
    } else if index == 3 {
        Some(0x40A0_0000)
    } else if index == 4 {
        Some(0x0000_0000)
    } else {
        None
    }
}

/// Unit of limiter parameter `index`, where this table fixes it.
pub open spec fn limiter_unit(index: int) -> Option<ParamUnit> {
    if index == 0 {
        Some(ParamUnit::Decibels)
    } else if index == 1 {
        Some(ParamUnit::Decibels)
    } else if index == 2 {
        Some(ParamUnit::Milliseconds)
    } else if index == 3 {
        Some(ParamUnit::Milliseconds)
    } else if index == 4 {
        None
    } else {
        None
    }
}

/// Display scale of limiter parameter `index`, where this table sets one.
pub open spec fn limiter_scale(index: int) -> Option<ParamScale> {
    None
}

/// Labels of the steps of limiter parameter `index`.
pub open spec fn limiter_step_labels(index: int) -> LabelSpec {
    LabelSpec::Unlabelled
}

/// Whether limiter parameter `index` is stepped (takes whole-step values).
pub open spec fn limiter_stepped(index: int) -> bool {
    false
}

/// Whether limiter parameter `index` is a read-only, hidden diagnostic.
pub open spec fn limiter_read_only(index: int) -> bool {
    false
}

/// Parameter table of the limiter.
pub struct LimiterParamTable;

impl LimiterParamTable {
    /// Number of parameters.
    pub fn count() -> (r: usize)
        ensures
            r == LIMITER_PARAM_COUNT,
    {
        LIMITER_PARAM_COUNT
    }

    /// Descriptor of parameter `index`: `Some` exactly for the 5 parameters.
    pub fn descriptor(index: usize) -> (r: Option<ParamInfo>)
        ensures
            r is Some <==> index < LIMITER_PARAM_COUNT,
            r matches Some(p) ==> {
                &&& p.id.0 == limiter_param_id(index as int)
                &&& p.string_id@ == limiter_string_id(index as int)
                &&& opt_view(p.name) == limiter_name(index as int)
                &&& opt_view(p.short_name) == limiter_short_name(index as int)
                &&& p.range == limiter_range(index as int)
                &&& p.step == limiter_step(index as int)
                &&& p.default == limiter_default(index as int)
                &&& p.unit == limiter_unit(index as int)
                &&& p.scale == limiter_scale(index as int)
                &&& p.stepped == limiter_stepped(index as int)
                &&& p.read_only == limiter_read_only(index as int)
            },
    {
        match index {
            0 => Some(ParamInfo {
                id: ParamId(1600),
                string_id: "lim_thresh",
                name: Some("Threshold"),
                short_name: Some("Thresh"),
                range: Some(ParamRange { min: 0xC1F0_0000 /* -30.0 */, max: 0x0000_0000 /* 0.0 */, default: 0xC0C0_0000 /* -6.0 */ }),
                step: None,
                default: Some(0xC0C0_0000 /* -6.0 */),
                unit: Some(ParamUnit::Decibels),
                scale: None,
                stepped: false,
                read_only: false,
            }),
            1 => Some(ParamInfo {
                id: ParamId(1601),
                string_id: "lim_ceil",
                name: Some("Ceiling"),
                short_name: Some("Ceil"),
                range: Some(ParamRange { min: 0xC1F0_0000 /* -30.0 */, max: 0x0000_0000 /* 0.0 */, default: 0xBE99_999A /* -0.3 */ }),
                step: None,
                default: Some(0xBE99_999A /* -0.3 */),
                unit: Some(ParamUnit::Decibels),
                scale: None,
                stepped: false,
                read_only: false,
            }),
            2 => Some(ParamInfo {
                id: ParamId(1602),
                string_id: "lim_release",
                name: Some("Release"),
                short_name: Some("Rel"),
                range: Some(ParamRange { min: 0x4120_0000 /* 10.0 */, max: 0x43FA_0000 /* 500.0 */, default: 0x42C8_0000 /* 100.0 */ }),
                step: None,
                default: Some(0x42C8_0000 /* 100.0 */),
                unit: Some(ParamUnit::Milliseconds),
                scale: None,
                stepped: false,
                read_only: false,
            }),
            3 => Some(ParamInfo {
                id: ParamId(1603),
                string_id: "lim_look",
                name: Some("Lookahead"),
                short_name: Some("Look"),
                range: Some(ParamRange { min: 0x0000_0000 /* 0.0 */, max: 0x4120_0000 /* 10.0 */, default: 0x40A0_0000 /* 5.0 */ }),
                step: None,
                default: Some(0x40A0_0000 /* 5.0 */),
                unit: Some(ParamUnit::Milliseconds),
                scale: None,
                stepped: false,
                read_only: false,
            }),
            4 => Some(ParamInfo {
                id: ParamId(1604),
                string_id: "lim_output",
                name: Some("Output"),
                short_name: None,
                range: None,
                step: None,
                default: Some(0x0000_0000 /* 0.0 */),
                unit: None,
                scale: None,
                stepped: false,
                read_only: false,
            }),
            _ => None,
        }
    }

    /// Labels of the steps of parameter `index`.
    pub fn step_labels(index: usize) -> (r: StepLabels)
        ensures
            labels_view(r) == limiter_step_labels(index as int),
    {
        match index {
            _ => StepLabels::Unlabelled,
        }
    }

}

/// The limiter's parameter ids are pairwise distinct and all lie in its block
/// `1600..1700`.
pub proof fn lemma_limiter_ids_unique()
    ensures
        forall|i: int, j: int|
            0 <= i < LIMITER_PARAM_COUNT && 0 <= j < LIMITER_PARAM_COUNT && i != j ==> limiter_param_id(i)
                != limiter_param_id(j),
        forall|i: int|
            0 <= i < LIMITER_PARAM_COUNT ==> LIMITER_ID_BASE <= #[trigger] limiter_param_id(i) < LIMITER_ID_BASE + 100,
{
}

/// Every range this table fixes is ordered, `min <= default <= max`, its default
/// is the descriptor default, and every step it fixes is positive.
pub proof fn lemma_limiter_ranges_ordered()
    ensures
        forall|i: int|
            0 <= i < LIMITER_PARAM_COUNT ==> (#[trigger] limiter_range(i) matches Some(r) ==> range_ordered(r)
                && limiter_default(i) == Some(r.default)),
        forall|i: int|
            0 <= i < LIMITER_PARAM_COUNT ==> (#[trigger] limiter_step(i) matches Some(s) ==> crate::order::sign_magnitude(s) > 0),
{
}

/// What a parameter's string id names fixes how it is shown: ids ending in `thresh` name thresholds in decibels, ids ending in `output` name output levels, where the table fixes their range, in decibels.
pub proof fn lemma_limiter_units_follow_ids()
    ensures
        forall|i: int|
            0 <= i < LIMITER_PARAM_COUNT && id_ends_with(#[trigger] limiter_string_id(i), "thresh"@) ==> limiter_unit(i) == Some(ParamUnit::Decibels),
        forall|i: int|
            0 <= i < LIMITER_PARAM_COUNT && id_ends_with(#[trigger] limiter_string_id(i), "output"@) ==> (limiter_range(i) is Some ==> limiter_unit(i) == Some(ParamUnit::Decibels)),
{
    reveal_strlit("thresh");
    reveal_strlit("output");
    reveal_strlit("lim_thresh");
    reveal_strlit("lim_ceil");
    reveal_strlit("lim_release");
    reveal_strlit("lim_look");
    reveal_strlit("lim_output");
    assert(!id_ends_with(limiter_string_id(1), "thresh"@)) by {
        assert(limiter_string_id(1).subrange(2, 8)[0] == 'm');
    }
    assert(!id_ends_with(limiter_string_id(2), "thresh"@)) by {
        assert(limiter_string_id(2).subrange(5, 11)[0] == 'e');
    }
    assert(!id_ends_with(limiter_string_id(3), "thresh"@)) by {
        assert(limiter_string_id(3).subrange(2, 8)[0] == 'm');
    }
    assert(!id_ends_with(limiter_string_id(4), "thresh"@)) by {
        assert(limiter_string_id(4).subrange(4, 10)[0] == 'o');
    }
    assert(!id_ends_with(limiter_string_id(0), "output"@)) by {
        assert(limiter_string_id(0).subrange(4, 10)[0] == 't');
    }
    assert(!id_ends_with(limiter_string_id(1), "output"@)) by {
        assert(limiter_string_id(1).subrange(2, 8)[0] == 'm');
    }
    assert(!id_ends_with(limiter_string_id(2), "output"@)) by {
        assert(limiter_string_id(2).subrange(5, 11)[0] == 'e');
    }
    assert(!id_ends_with(limiter_string_id(3), "output"@)) by {
        assert(limiter_string_id(3).subrange(2, 8)[0] == 'm');
    }
}

} // verus!
