//! The taper engine: clamps the requested taper length and lays out, as a
//! plan of scaling steps, which sample of the buffer is multiplied by which
//! position of the window curve.

use vstd::prelude::*;

use crate::FadeType;
use crate::TaperSpec;
use crate::window::lemma_weight_symmetric;
use crate::window::spec_folded_position;
use crate::window::spec_linear_num;
use crate::window::spec_reference_length;

verus! {

/// The taper length actually applied: the requested length, clamped to half
/// the buffer so that the fade-in and fade-out regions can never overlap nor
/// run past the buffer.
pub open spec fn spec_effective_size(requested: nat, total: nat) -> nat {
    if requested <= total / 2 {
        requested
    } else {
        total / 2
    }
}

/// Clamps a requested taper length to half the buffer.
pub fn effective_taper_size(requested: usize, total_samples: usize) -> (r: usize)
    ensures
        r == spec_effective_size(requested as nat, total_samples as nat),
        r <= total_samples / 2,
{
    let half: usize = total_samples / 2;
    if requested <= half {
        requested
    } else {
        half
    }
}

/// Whether a taper specification requests a zero-length (vacuous) taper.
pub fn is_taper_length_zero(taper_spec: &TaperSpec) -> (r: bool)
    ensures
        r == (taper_spec.taper_length == 0),
{
    taper_spec.taper_length == 0
}

/// One in-place scaling step of a taper: the sample at `sample_index` is
/// multiplied by the window weight at `curve_position` of the curve built for
/// the taper's effective size.
#[derive(Clone, Copy, PartialEq, Eq, Structural, Debug)]
pub struct TaperStep {
    pub sample_index: usize,
    pub curve_position: usize,
}

/// The fade-in plan: sample `i` is scaled by curve position `i`, for `i` in
/// `0 .. eff` — the rising first half of the curve.
pub open spec fn spec_fade_in_plan(eff: nat) -> Seq<TaperStep> {
    Seq::new(eff, |i: int| (TaperStep { sample_index: i as usize, curve_position: i as usize }))
}

/// The fade-out plan: sample `total - eff + i` is scaled by curve position
/// `eff + i`, for `i` in `0 .. eff` — the falling second half of the curve,
/// so the sample nearest the buffer's end receives the smallest weight.
pub open spec fn spec_fade_out_plan(total: nat, eff: nat) -> Seq<TaperStep> {
    Seq::new(
        eff,
        |i: int|
            (TaperStep {
                sample_index: (total - eff + i) as usize,
                curve_position: (eff + i) as usize,
            }),
    )
}

/// The plan of a whole taper application: the fade-in steps, the fade-out
/// steps, or both in that order.
pub open spec fn spec_taper_plan(total: nat, eff: nat, fade_type: FadeType) -> Seq<TaperStep> {
    match fade_type {
        FadeType::FadeIn => spec_fade_in_plan(eff),
        FadeType::FadeOut => spec_fade_out_plan(total, eff),
        FadeType::Both => spec_fade_in_plan(eff) + spec_fade_out_plan(total, eff),
    }
}

/// Appends the fade-in steps for an effective taper size `eff`.
fn push_fade_in(steps: &mut Vec<TaperStep>, eff: usize)
    ensures
        final(steps)@ == old(steps)@ + spec_fade_in_plan(eff as nat),
{
    let ghost done = steps@;
    let mut i: usize = 0;
    while i < eff
        invariant
            i <= eff,
            steps@.len() == done.len() + i,
            forall|k: int| 0 <= k < done.len() ==> steps@[k] == done[k],
            forall|k: int|
                done.len() <= k < done.len() + i ==> steps@[k] == (TaperStep {
                    sample_index: (k - done.len()) as usize,
                    curve_position: (k - done.len()) as usize,
                }),
        decreases eff - i,
    {
        steps.push(TaperStep { sample_index: i, curve_position: i });
        i = i + 1;
    }
    proof {
        assert(steps@ =~= done + spec_fade_in_plan(eff as nat));
    }
}

/// Appends the fade-out steps for an effective taper size `eff` over a buffer
/// of `total_samples` samples.
fn push_fade_out(steps: &mut Vec<TaperStep>, total_samples: usize, eff: usize)
    requires
        eff <= total_samples / 2,
    ensures
        final(steps)@ == old(steps)@ + spec_fade_out_plan(total_samples as nat, eff as nat),
{
    let ghost done = steps@;
    let base: usize = total_samples - eff;
    let mut i: usize = 0;
    while i < eff
        invariant
            i <= eff,
            eff <= total_samples / 2,
            base == total_samples - eff,
            steps@.len() == done.len() + i,
            forall|k: int| 0 <= k < done.len() ==> steps@[k] == done[k],
            forall|k: int|
                done.len() <= k < done.len() + i ==> steps@[k] == (TaperStep {
                    sample_index: (total_samples - eff + (k - done.len())) as usize,
                    curve_position: (eff + (k - done.len())) as usize,
                }),
        decreases eff - i,
    {
        steps.push(TaperStep { sample_index: base + i, curve_position: eff + i });
        i = i + 1;
    }
    proof {
        assert(steps@ =~= done + spec_fade_out_plan(total_samples as nat, eff as nat));
    }
}

/// Lays out a taper application over a buffer of `total_samples` samples as a
/// plan of scaling steps.  The requested length is clamped to half the
/// buffer, so a zero-length request — and an empty or one-sample buffer —
/// yields an empty plan: the application is a successful no-op.
pub fn taper_plan(total_samples: usize, taper_spec: &TaperSpec, fade_type: FadeType) -> (r: Vec<
    TaperStep,
>)
    ensures
        r@ == spec_taper_plan(
            total_samples as nat,
            spec_effective_size(taper_spec.taper_length as nat, total_samples as nat),
            fade_type,
        ),
{
    let eff: usize = effective_taper_size(taper_spec.taper_length, total_samples);
    let mut steps: Vec<TaperStep> = Vec::new();
    let ghost plan = spec_taper_plan(total_samples as nat, eff as nat, fade_type);
    match fade_type {
        FadeType::FadeIn => {
            push_fade_in(&mut steps, eff);
        },
        FadeType::FadeOut => {
            push_fade_out(&mut steps, total_samples, eff);
        },
        FadeType::Both => {
            push_fade_in(&mut steps, eff);
            push_fade_out(&mut steps, total_samples, eff);
        },
    }
    proof {
        assert(steps@ =~= plan);
    }
    steps
}

/// A taper plan stays inside the buffer and never scales a sample twice:
/// every step's sample index is below `total`, every curve position is below
/// the curve's size `2 * eff`, and the sample indices of distinct steps
/// differ — the clamp to half the buffer keeps the fade-in and fade-out
/// regions disjoint even when both are applied.
pub proof fn lemma_plan_well_formed(total: nat, eff: nat, fade_type: FadeType)
    requires
        eff <= total / 2,
        total <= usize::MAX,
    ensures
        forall|k: int|
            0 <= k < spec_taper_plan(total, eff, fade_type).len() ==> (#[trigger] spec_taper_plan(
                total,
                eff,
                fade_type,
            )[k]).sample_index < total && spec_taper_plan(
                total,
                eff,
                fade_type,
            )[k].curve_position < 2 * eff,
        forall|k1: int, k2: int|
            0 <= k1 < k2 < spec_taper_plan(total, eff, fade_type).len()
                ==> (#[trigger] spec_taper_plan(total, eff, fade_type)[k1]).sample_index
                != (#[trigger] spec_taper_plan(total, eff, fade_type)[k2]).sample_index,
{
}

/// Zero-length tapers are vacuous: a request of length zero — or a buffer
/// too short to hold any taper — yields an empty plan, so the application
/// succeeds and leaves every sample untouched.
pub proof fn lemma_zero_length_is_noop(total: nat, requested: nat, fade_type: FadeType)
    requires
        requested == 0 || total <= 1,
    ensures
        spec_taper_plan(total, spec_effective_size(requested, total), fade_type) =~= Seq::<
            TaperStep,
        >::empty(),
{
}

/// Clamping: a request longer than half the buffer is applied exactly as a
/// request of half the buffer — the effective sizes, and with them the whole
/// plans, coincide.
pub proof fn lemma_clamping(total: nat, requested: nat, fade_type: FadeType)
    requires
        requested > total / 2,
    ensures
        spec_effective_size(requested, total) == spec_effective_size(total / 2, total),
        spec_taper_plan(total, spec_effective_size(requested, total), fade_type)
            == spec_taper_plan(total, spec_effective_size(total / 2, total), fade_type),
{
}

/// Mirror law: in a taper of effective size `eff`, fade-out step `i` reads
/// the curve at a position whose folded position equals that of the curve
/// position read by fade-in step `eff - 1 - i`.  Every window family's weight
/// depends on its position only through the folded position, so the fade-out
/// weight slice is the exact reverse of the fade-in weight slice; for the
/// linear family the numerators at the two positions are also proved equal
/// outright.
pub proof fn lemma_fade_out_mirrors_fade_in(total: nat, eff: nat, i: int)
    requires
        1 <= eff,
        eff <= total / 2,
        total <= usize::MAX,
        0 <= i < eff,
    ensures
        spec_fade_out_plan(total, eff)[i].curve_position == eff + i,
        spec_fade_in_plan(eff)[eff - 1 - i].curve_position == eff - 1 - i,
        spec_folded_position(eff + i, spec_reference_length(eff as int)) == spec_folded_position(
            eff - 1 - i,
            spec_reference_length(eff as int),
        ),
        spec_linear_num(eff + i, spec_reference_length(eff as int)) == spec_linear_num(
            eff - 1 - i,
            spec_reference_length(eff as int),
        ),
{
    let ref_len = spec_reference_length(eff as int);
    lemma_weight_symmetric(eff + i, ref_len);
    assert(ref_len - (eff + i) == eff - 1 - i);
}

} // verus!

