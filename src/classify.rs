use vstd::prelude::*;

use crate::buffer::LumaImage;
use crate::edge::{laplacian_filter, laplacian_seq};
use crate::error::ImageAnalysisError;
use crate::variance::{
    calculate_variance,
    variance_denominator,
    variance_numerator,
    Variance,
    MAX_SAMPLES,
};

verus! {

/// A blur threshold held exactly as the fraction `numerator / denominator`.
#[derive(Debug, Clone, Copy, PartialEq, Eq)]
pub struct Threshold {
    pub numerator: i64,
    pub denominator: u32,
}

impl Threshold {
    /// The fraction is defined.
    pub open spec fn wf(&self) -> bool {
        self.denominator > 0
    }

    /// The threshold `numerator / denominator`; a zero denominator is
    /// rejected with `InvalidInput`.
    pub fn new(numerator: i64, denominator: u32) -> (r: Result<Threshold, ImageAnalysisError>)
        ensures
            r is Err <==> denominator == 0,
            r is Err ==> r->Err_0 == ImageAnalysisError::InvalidInput,
            r matches Ok(t) ==> t.wf() && t.numerator == numerator && t.denominator
                == denominator,
    {
        if denominator == 0 {
            Err(ImageAnalysisError::InvalidInput)
        } else {
            Ok(Threshold { numerator, denominator })
        }
    }

    /// The whole-number threshold `value`.
    pub fn from_integer(value: i64) -> (r: Threshold)
        ensures
            r.wf(),
            r.numerator == value,
            r.denominator == 1,
    {
        Threshold { numerator: value, denominator: 1 }
    }
}

/// Whether the fraction `num / den` (with `den > 0`) lies strictly below the
/// threshold.
pub open spec fn below(num: int, den: int, t: Threshold) -> bool {
    num * t.denominator < t.numerator * den
}

/// The decision for a variance: blurry exactly when the variance lies
/// strictly below the threshold; equality counts as sharp.
pub fn is_blurry(variance: &Variance, threshold: &Threshold) -> (r: bool)
    requires
        variance.wf(),
        threshold.wf(),
    ensures
        r == below(variance.numerator as int, variance.denominator as int, *threshold),
{
    if threshold.numerator <= 0 {
        // a variance is never negative
        proof {
            assert(variance.numerator * threshold.denominator >= 0) by (nonlinear_arith)
                requires
                    variance.numerator >= 0,
                    threshold.denominator >= 0,
            ;
            assert(threshold.numerator * variance.denominator <= 0) by (nonlinear_arith)
                requires
                    threshold.numerator <= 0,
                    variance.denominator >= 0,
            ;
        }
        false
    } else {
        let q: u128 = threshold.denominator as u128;
        let p: u128 = threshold.numerator as u128;
        assert(variance.numerator * q < 0x1_0000_0000_0000_0000_0000_0000_0000_0000)
            by (nonlinear_arith)
            requires
                variance.numerator < 0x1_0000_0000_0000_0000_0000_0000,
                q < 0x1_0000_0000,
        ;
        assert(p * variance.denominator < 0x1_0000_0000_0000_0000_0000_0000_0000_0000)
            by (nonlinear_arith)
            requires
                variance.denominator < 0x1_0000_0000_0000_0000,
                p < 0x8000_0000_0000_0000,
        ;
        variance.numerator * q < p * variance.denominator
    }
}

/// A blur decision together with the variance that produced it.
#[derive(Debug, Clone, Copy, PartialEq, Eq)]
pub struct BlurDecision {
    pub blurry: bool,
    pub variance: Variance,
}

/// Whether a smoothed, non-empty luminance image counts as blurry under `t`:
/// the variance of its Laplacian response lies strictly below `t`.
pub open spec fn decision(img: LumaImage, t: Threshold) -> bool {
    below(
        variance_numerator(laplacian_seq(img)),
        variance_denominator(laplacian_seq(img)),
        t,
    )
}

/// Classifies a smoothed luminance image: Laplacian edge response, its
/// exact population variance, and the comparison with the threshold.
///
/// Fails with `InvalidInput` on an image with zero width or height.
pub fn classify_smoothed(image: &LumaImage, threshold: &Threshold) -> (r: Result<
    BlurDecision,
    ImageAnalysisError,
>)
    requires
        image.wf(),
        image.samples@.len() <= MAX_SAMPLES,
        threshold.wf(),
    ensures
        r is Err <==> image.width == 0 || image.height == 0,
        r is Err ==> r->Err_0 == ImageAnalysisError::InvalidInput,
        r matches Ok(d) ==> {
            &&& d.variance.wf()
            &&& d.variance.is_variance_of(laplacian_seq(*image))
            &&& d.blurry == decision(*image, *threshold)
        },
{
    proof {
        assert(image.width as int * image.height as int == 0 <==> image.width == 0
            || image.height == 0) by (nonlinear_arith);
    }
    let response = laplacian_filter(image);
    match calculate_variance(&response) {
        Ok(variance) => {
            let blurry = is_blurry(&variance, threshold);
            Ok(BlurDecision { blurry, variance })
        },
        Err(e) => Err(e),
    }
}

} // verus!
