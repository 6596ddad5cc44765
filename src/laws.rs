use vstd::prelude::*;

use crate::buffer::{clamp_coord, LumaImage};
use crate::classify::{below, decision, Threshold};
use crate::edge::{laplacian_at, laplacian_seq};
use crate::variance::{sum_of, sum_sq_of, variance_denominator, variance_numerator, Variance};

verus! {

/// A variance exactly equal to the threshold is classified as sharp: the
/// comparison is strict.
pub proof fn lemma_equal_to_threshold_is_sharp(v: Variance, t: Threshold)
    requires
        v.wf(),
        t.wf(),
        v.numerator * t.denominator == t.numerator * v.denominator,
    ensures
        !below(v.numerator as int, v.denominator as int, t),
{
}

/// Clamped coordinates always address a sample of a non-empty image.
proof fn lemma_clamped_index_in_bounds(img: LumaImage, x: int, y: int)
    requires
        img.wf(),
        img.width > 0,
        img.height > 0,
    ensures
        0 <= clamp_coord(y, img.height as int) * img.width as int + clamp_coord(
            x,
            img.width as int,
        ) < img.samples@.len(),
{
    let w = img.width as int;
    let h = img.height as int;
    let cx = clamp_coord(x, w);
    let cy = clamp_coord(y, h);
    assert(0 <= cy * w + cx < h * w) by (nonlinear_arith)
        requires
            0 <= cx < w,
            0 <= cy < h,
    ;
}

proof fn lemma_zero_sums(s: Seq<int>)
    requires
        forall|i: int| 0 <= i < s.len() ==> s[i] == 0,
    ensures
        sum_of(s) == 0,
        sum_sq_of(s) == 0,
    decreases s.len(),
{
    if s.len() > 0 {
        lemma_zero_sums(s.drop_last());
    }
}

/// A uniform image has a zero edge response at every pixel, so its variance
/// is zero, and it is classified as blurry under every positive threshold.
pub proof fn lemma_flat_image_is_blurry(img: LumaImage, t: Threshold)
    requires
        img.wf(),
        img.width > 0,
        img.height > 0,
        t.wf(),
        t.numerator > 0,
        forall|i: int, j: int|
            0 <= i < img.samples@.len() && 0 <= j < img.samples@.len() ==> #[trigger] img.samples@[i]
                == #[trigger] img.samples@[j],
    ensures
        variance_numerator(laplacian_seq(img)) == 0,
        decision(img, t),
{
    let s = laplacian_seq(img);
    let c = img.samples@[0] as int;
    assert forall|x: int, y: int| #[trigger] img.sample(x, y) == c by {
        lemma_clamped_index_in_bounds(img, x, y);
    }
    assert forall|i: int| 0 <= i < s.len() implies s[i] == 0 by {
        assert(laplacian_at(img, i % img.width as int, i / img.width as int) == 0);
    }
    lemma_zero_sums(s);
    let n = s.len() as int;
    assert(n > 0) by (nonlinear_arith)
        requires
            n == img.width as int * img.height as int,
            img.width > 0,
            img.height > 0,
    ;
    assert(variance_numerator(s) == n * 0 - 0 * 0);
    assert(0 * t.denominator < t.numerator * (n * n)) by (nonlinear_arith)
        requires
            t.numerator > 0,
            n > 0,
    ;
}

/// The classification is a function of the image's dimensions and samples
/// alone: equal inputs give the same edge response, the same variance and
/// the same decision.
pub proof fn lemma_classification_deterministic(a: LumaImage, b: LumaImage, t: Threshold)
    requires
        a.width == b.width,
        a.height == b.height,
        a.samples@ == b.samples@,
    ensures
        laplacian_seq(a) == laplacian_seq(b),
        variance_numerator(laplacian_seq(a)) == variance_numerator(laplacian_seq(b)),
        variance_denominator(laplacian_seq(a)) == variance_denominator(laplacian_seq(b)),
        decision(a, t) == decision(b, t),
{
    assert(laplacian_seq(a) =~= laplacian_seq(b));
}

} // verus!
