//! The discrete model of the window-function table.
//!
//! A taper of effective size `eff` samples is cut from a symmetric window
//! curve of `2 * eff` sampled positions; the weight at position `p` is taken
//! at `p / ref_len` of the window's span, where `ref_len = 2 * eff - 1` is the
//! index of the curve's last position.  Every family's weight is symmetric
//! about the curve's midpoint — it depends on `p` only through the folded
//! position `min(p, ref_len - p)` — which is what makes the falling half of
//! the curve the exact mirror of the rising half.  For the linear family the
//! weight is the rational number `spec_linear_num(p, ref_len) / ref_len`, so
//! its curve is modelled here exactly; the other families evaluate a cosine
//! and only their position structure is modelled.

use vstd::prelude::*;

verus! {

/// The index of the last position of the window curve built for an effective
/// taper size `eff`: the curve samples positions `0 ..= 2 * eff - 1`.
pub open spec fn spec_reference_length(eff: int) -> int {
    2 * eff - 1
}

/// The folded position: the distance of position `p` from the nearer end of a
/// curve whose last position is `ref_len`.  Every window family's weight at
/// `p` depends on `p` only through this value.
pub open spec fn spec_folded_position(p: int, ref_len: int) -> int {
    if 2 * p <= ref_len {
        p
    } else {
        ref_len - p
    }
}

/// Numerator of the linear window weight at position `p`, over the
/// denominator `ref_len`: the weight rises from `0` toward `1` over the first
/// half of the curve and falls back toward `0` over the second.
pub open spec fn spec_linear_num(p: int, ref_len: int) -> int {
    if 2 * p < ref_len {
        2 * p
    } else {
        2 * ref_len - 2 * p
    }
}

/// Numerator of the linear window weight at position `p` of a curve whose
/// last position is `ref_len`; the weight itself is `num / ref_len`.
pub fn linear_weight_num(p: usize, ref_len: usize) -> (num: usize)
    requires
        p <= ref_len,
        ref_len <= usize::MAX / 2,
    ensures
        num == spec_linear_num(p as int, ref_len as int),
        num <= ref_len,
{
    if 2 * p < ref_len {
        2 * p
    } else {
        2 * ref_len - 2 * p
    }
}

/// The linear window weight never leaves `[0, 1]`: its numerator lies between
/// `0` and its denominator at every position of the curve.
pub proof fn lemma_linear_num_bounds(p: int, ref_len: int)
    requires
        0 <= p <= ref_len,
        1 <= ref_len,
    ensures
        0 <= spec_linear_num(p, ref_len) <= ref_len,
{
}

/// The weight at position `p` equals the weight at position `ref_len - p`:
/// folded positions, and with them the linear numerators, are symmetric about
/// the curve's midpoint.
pub proof fn lemma_weight_symmetric(p: int, ref_len: int)
    requires
        0 <= p <= ref_len,
    ensures
        spec_folded_position(p, ref_len) == spec_folded_position(ref_len - p, ref_len),
        spec_linear_num(p, ref_len) == spec_linear_num(ref_len - p, ref_len),
{
}

/// Successive linear fade-in weights never decrease: over the rising half of
/// the curve the numerators grow with the position while the denominator
/// stays fixed.
pub proof fn lemma_linear_fade_in_monotone(eff: int, i: int)
    requires
        1 <= eff,
        0 <= i,
        i + 1 < eff,
    ensures
        spec_linear_num(i, spec_reference_length(eff)) <= spec_linear_num(
            i + 1,
            spec_reference_length(eff),
        ),
{
}

/// Builds the exact numerators of the linear window curve for an effective
/// taper size `eff`: entry `i` of the result, divided by `2 * eff - 1`, is
/// the linear weight at curve position `i`.
pub fn linear_curve_numerators(eff: usize) -> (r: Vec<usize>)
    requires
        1 <= eff,
        eff <= usize::MAX / 4,
    ensures
        r@.len() == 2 * eff,
        forall|i: int|
            0 <= i < 2 * eff ==> r@[i] == spec_linear_num(i, spec_reference_length(eff as int)),
{
    let ref_len: usize = 2 * eff - 1;
    let mut out: Vec<usize> = Vec::new();
    let mut i: usize = 0;
    while i < 2 * eff
        invariant
            eff <= usize::MAX / 4,
            ref_len == 2 * eff - 1,
            i <= 2 * eff,
            out@.len() == i,
            forall|k: int| 0 <= k < i ==> out@[k] == spec_linear_num(k, ref_len as int),
        decreases 2 * eff - i,
    {
        out.push(linear_weight_num(i, ref_len));
        i = i + 1;
    }
    out
}

} // verus!
