use vstd::prelude::*;

use crate::buffer::EdgeResponse;
use crate::error::ImageAnalysisError;

verus! {

/// The most samples a response buffer may hold for its variance to be
/// accumulated exactly in 128-bit integers.
pub const MAX_SAMPLES: usize = 0xFFFF_FFFF;

/// The sum of a sequence.
pub open spec fn sum_of(s: Seq<int>) -> int
    decreases s.len(),
{
    if s.len() == 0 {
        0
    } else {
        sum_of(s.drop_last()) + s.last()
    }
}

/// The sum of the squares of a sequence.
pub open spec fn sum_sq_of(s: Seq<int>) -> int
    decreases s.len(),
{
    if s.len() == 0 {
        0
    } else {
        sum_sq_of(s.drop_last()) + s.last() * s.last()
    }
}

/// `n² · Var(s)` for the population variance `E[x²] − (E[x])²` of `s`,
/// where `n` is the number of samples.
pub open spec fn variance_numerator(s: Seq<int>) -> int {
    s.len() * sum_sq_of(s) - sum_of(s) * sum_of(s)
}

/// The denominator that goes with [`variance_numerator`]: `n²`.
pub open spec fn variance_denominator(s: Seq<int>) -> int {
    (s.len() * s.len()) as int
}

/// A population variance held exactly as the fraction
/// `numerator / denominator`.
#[derive(Debug, Clone, Copy, PartialEq, Eq)]
pub struct Variance {
    pub numerator: u128,
    pub denominator: u128,
}

impl Variance {
    /// A positive denominator, and both parts small enough for exact
    /// comparison with a threshold.
    pub open spec fn wf(&self) -> bool {
        &&& 0 < self.denominator < 0x1_0000_0000_0000_0000
        &&& self.numerator < 0x1_0000_0000_0000_0000_0000_0000
    }

    /// Whether this is exactly the population variance of `s`.
    pub open spec fn is_variance_of(&self, s: Seq<int>) -> bool {
        &&& self.numerator as int == variance_numerator(s)
        &&& self.denominator as int == variance_denominator(s)
    }
}

/// `Σ(x − c)² = Σx² − 2cΣx + nc²` is never negative.
proof fn lemma_centered_square_sum_nonneg(s: Seq<int>, c: int)
    ensures
        sum_sq_of(s) - 2 * c * sum_of(s) + s.len() * c * c >= 0,
    decreases s.len(),
{
    if s.len() > 0 {
        let p = s.drop_last();
        lemma_centered_square_sum_nonneg(p, c);
        let x = s.last();
        let q = sum_sq_of(p);
        let t = sum_of(p);
        let n = p.len() as int;
        assert(q + x * x - 2 * c * (t + x) + (n + 1) * c * c >= 0) by (nonlinear_arith)
            requires
                q - 2 * c * t + n * c * c >= 0,
        {
            assert((x - c) * (x - c) >= 0);
        }
    }
}

/// Cauchy-Schwarz for sums: `(Σx)² ≤ n · Σx²`, so a variance is never
/// negative.
pub proof fn lemma_variance_nonneg(s: Seq<int>)
    ensures
        variance_numerator(s) >= 0,
    decreases s.len(),
{
    if s.len() > 0 {
        let p = s.drop_last();
        let x = s.last();
        lemma_variance_nonneg(p);
        lemma_centered_square_sum_nonneg(p, x);
        let q = sum_sq_of(p);
        let t = sum_of(p);
        let n = p.len() as int;
        assert((n + 1) * (q + x * x) - (t + x) * (t + x) >= 0) by (nonlinear_arith)
            requires
                n * q - t * t >= 0,
                q - 2 * x * t + n * x * x >= 0,
        ;
    }
}

proof fn lemma_prefix_step(s: Seq<int>, i: int)
    requires
        0 <= i < s.len(),
    ensures
        sum_of(s.take(i + 1)) == sum_of(s.take(i)) + s[i],
        sum_sq_of(s.take(i + 1)) == sum_sq_of(s.take(i)) + s[i] * s[i],
{
    assert(s.take(i + 1).drop_last() =~= s.take(i));
}

/// The population variance `E[x²] − (E[x])²` of the response samples,
/// computed exactly.
///
/// Fails with `InvalidInput` on an empty buffer, where the variance is
/// undefined.
pub fn calculate_variance(image: &EdgeResponse) -> (r: Result<Variance, ImageAnalysisError>)
    requires
        image.samples@.len() <= MAX_SAMPLES,
    ensures
        r is Err <==> image.samples@.len() == 0,
        r is Err ==> r->Err_0 == ImageAnalysisError::InvalidInput,
        r matches Ok(v) ==> v.wf() && v.is_variance_of(image.values()),
{
    let n: usize = image.samples.len();
    if n == 0 {
        return Err(ImageAnalysisError::InvalidInput);
    }
    let ghost vals = image.values();
    let mut sum: i64 = 0;
    let mut sum_sq: u64 = 0;
    let mut i: usize = 0;
    while i < n
        invariant
            n == image.samples@.len(),
            n <= MAX_SAMPLES,
            vals == image.values(),
            i <= n,
            sum as int == sum_of(vals.take(i as int)),
            sum_sq as int == sum_sq_of(vals.take(i as int)),
            -(i as int) * 0x8000 <= sum <= (i as int) * 0x8000,
            0 <= sum_sq <= (i as int) * 0x4000_0000,
        decreases n - i,
    {
        let x: i16 = image.samples[i];
        proof {
            lemma_prefix_step(vals, i as int);
        }
        let xi: i64 = x as i64;
        assert(xi * xi <= 0x4000_0000) by (nonlinear_arith)
            requires
                -0x8000 <= xi < 0x8000,
        ;
        assert(xi * xi >= 0) by (nonlinear_arith);
        sum = sum + xi;
        sum_sq = sum_sq + (xi * xi) as u64;
        i = i + 1;
    }
    proof {
        assert(vals.take(n as int) =~= vals);
        lemma_variance_nonneg(vals);
    }
    let nn: u128 = n as u128;
    let abs_sum: u128 = if sum < 0 {
        (-sum) as u128
    } else {
        sum as u128
    };
    assert(nn * (sum_sq as u128) < 0x1_0000_0000_0000_0000_0000_0000) by (nonlinear_arith)
        requires
            nn <= 0xFFFF_FFFF,
            sum_sq <= nn * 0x4000_0000,
    ;
    assert(abs_sum * abs_sum == sum * sum) by (nonlinear_arith)
        requires
            abs_sum == sum || abs_sum == -sum,
    ;
    assert(0 < nn * nn < 0x1_0000_0000_0000_0000) by (nonlinear_arith)
        requires
            0 < nn <= 0xFFFF_FFFF,
    ;
    let numerator: u128 = nn * (sum_sq as u128) - abs_sum * abs_sum;
    let denominator: u128 = nn * nn;
    Ok(Variance { numerator, denominator })
}

} // verus!
