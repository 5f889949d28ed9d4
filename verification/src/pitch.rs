//! Lag selection of the tuner's YIN pitch detector.
//!
//! YIN computes the cumulative mean normalised difference `d'(τ)` for every lag
//! `τ < TAU_MAX` of a 1024-sample window. The lag it reports is the first
//! `τ ≥ TAU_MIN` where `d'(τ)` falls below the threshold and is not above
//! `d'(τ + 1)`; when there is no such dip it falls back to the first lag where
//! `d'` is smallest, unless that minimum is above a rejection level.
//!
//! The selection only compares values, so it works on order keys
//! ([`crate::order`]): integers that order as the `f32` values of `d'` do.

use vstd::prelude::*;

verus! {

/// Analysis window length of the tuner.
pub const YIN_BUF_LEN: usize = 1024;

/// Number of lags examined: frequencies down to about 93 Hz at 48 kHz.
pub const TAU_MAX: usize = 512;

/// Smallest lag examined: frequencies below about 20 kHz.
pub const TAU_MIN: usize = 2;

/// Lag `t` is a dip: below the threshold and not above the next lag.
pub open spec fn is_dip(keys: Seq<u32>, threshold: u32, t: int) -> bool {
    keys[t] < threshold && keys[t] <= keys[t + 1]
}

/// No lag in `TAU_MIN..len - 1` is a dip.
pub open spec fn no_dip(keys: Seq<u32>, threshold: u32) -> bool {
    forall|u: int| TAU_MIN <= u < keys.len() - 1 ==> !is_dip(keys, threshold, u)
}

/// `t` is the first lag in `TAU_MIN..` holding the smallest key.
pub open spec fn is_first_min(keys: Seq<u32>, t: int) -> bool {
    &&& TAU_MIN <= t < keys.len()
    &&& forall|u: int| TAU_MIN <= u < keys.len() ==> keys[t] <= keys[u]
    &&& forall|u: int| TAU_MIN <= u < t ==> keys[t] < keys[u]
}

/// Pick the YIN lag from the order keys of `d'(τ)`, `τ < keys.len()`.
///
/// Returns the first dip when there is one; otherwise the first lag of
/// smallest key, or `None` when that key is above `reject_above`.
pub fn pick_lag(keys: &[u32], threshold: u32, reject_above: u32) -> (r: Option<usize>)
    requires
        keys@.len() >= TAU_MIN + 2,
    ensures
        match r {
            Some(t) => {
                ||| (TAU_MIN <= t < keys@.len() - 1 && is_dip(keys@, threshold, t as int) && forall|
                    u: int,
                | TAU_MIN <= u < t ==> !is_dip(keys@, threshold, u))
                ||| (no_dip(keys@, threshold) && is_first_min(keys@, t as int) && keys@[t as int]
                    <= reject_above)
            },
            None => no_dip(keys@, threshold) && exists|t: int|
                is_first_min(keys@, t) && keys@[t] > reject_above,
        },
{
    let n = keys.len();
    // First dip below the threshold that is a local minimum.
    let mut tau: usize = TAU_MIN;
    while tau < n - 1
        invariant
            n == keys@.len(),
            n >= TAU_MIN + 2,
            TAU_MIN <= tau <= n - 1,
            forall|u: int| TAU_MIN <= u < tau ==> !is_dip(keys@, threshold, u),
        decreases n - 1 - tau,
    {
        if keys[tau] < threshold && keys[tau] <= keys[tau + 1] {
            return Some(tau);
        }
        tau = tau + 1;
    }
    // Fallback: first global minimum over the valid range.
    let mut best_tau: usize = TAU_MIN;
    let mut best_val: u32 = keys[TAU_MIN];
    let mut t: usize = TAU_MIN + 1;
    while t < n
        invariant
            n == keys@.len(),
            TAU_MIN < t <= n,
            TAU_MIN <= best_tau < t,
            best_val == keys@[best_tau as int],
            forall|u: int| TAU_MIN <= u < t ==> best_val <= keys@[u],
            forall|u: int| TAU_MIN <= u < best_tau ==> best_val < keys@[u],
        decreases n - t,
    {
        if keys[t] < best_val {
            best_val = keys[t];
            best_tau = t;
        }
        t = t + 1;
    }
    if best_val > reject_above {
        assert(is_first_min(keys@, best_tau as int));
        return None;
    }
    Some(best_tau)
}

/// The first lag of smallest key is unique.
pub proof fn lemma_first_min_unique(keys: Seq<u32>, a: int, b: int)
    requires
        is_first_min(keys, a),
        is_first_min(keys, b),
    ensures
        a == b,
{
    if a < b {
        assert(keys[b] < keys[a]);
    } else if b < a {
        assert(keys[a] < keys[b]);
    }
}

} // verus!
