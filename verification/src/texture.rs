use vstd::prelude::*;
use crate::grid::PixelGrid;

verus! {

/// Sum of all samples of `s`.
pub open spec fn sum_of(s: Seq<u8>) -> int
    decreases s.len(),
{
    if s.len() == 0 {
        0
    } else {
        sum_of(s.drop_last()) + s.last()
    }
}

/// Sum of the squares of all samples of `s`.
pub open spec fn sum_sq_of(s: Seq<u8>) -> int
    decreases s.len(),
{
    if s.len() == 0 {
        0
    } else {
        sum_sq_of(s.drop_last()) + s.last() * s.last()
    }
}

/// Numerator of the population variance scaled by `len²`:
/// `len·Σx² − (Σx)²`.  The texture score — the population standard
/// deviation of the samples — equals `√(variance_num_of(s)) / len`,
/// so the integer `variance_num_of(s)` carries the score exactly.
pub open spec fn variance_num_of(s: Seq<u8>) -> int {
    s.len() * sum_sq_of(s) - sum_of(s) * sum_of(s)
}

/// Every sample lies in `[0, 255]`, so the two sums are bounded by the
/// sample count.
pub proof fn lemma_sum_bounds(s: Seq<u8>)
    ensures
        0 <= sum_of(s) <= 255 * s.len(),
        0 <= sum_sq_of(s) <= 65025 * s.len(),
    decreases s.len(),
{
    if s.len() > 0 {
        lemma_sum_bounds(s.drop_last());
        let x = s.last() as int;
        assert(x * x <= 65025) by (nonlinear_arith)
            requires
                0 <= x <= 255,
        ;
    }
}

/// The mean-square inequality `(Σx)² ≤ len·Σx²`: the variance numerator
/// is never negative.
pub proof fn lemma_variance_num_nonneg(s: Seq<u8>)
    ensures
        sum_of(s) * sum_of(s) <= s.len() * sum_sq_of(s),
    decreases s.len(),
{
    if s.len() > 0 {
        let t = s.drop_last();
        let x = s.last() as int;
        lemma_variance_num_nonneg(t);
        lemma_sum_bounds(t);
        let k = t.len() as int;
        let sm = sum_of(t);
        let q = sum_sq_of(t);
        assert((sm + x) * (sm + x) <= (k + 1) * (q + x * x)) by (nonlinear_arith)
            requires
                sm * sm <= k * q,
                0 <= x,
                0 <= sm,
                0 <= q,
                0 <= k,
        {
            assert((k * x - sm) * (k * x - sm) >= 0);
        }
    }
}

/// A uniform sequence — every sample equal to `c` — has sums `c·len`
/// and `c²·len`, hence variance numerator 0.
pub proof fn lemma_uniform_sums(s: Seq<u8>, c: u8)
    requires
        forall|i: int| 0 <= i < s.len() ==> s[i] == c,
    ensures
        sum_of(s) == c * s.len(),
        sum_sq_of(s) == c * c * s.len(),
        variance_num_of(s) == 0,
    decreases s.len(),
{
    if s.len() == 0 {
        assert(variance_num_of(s) == 0);
    } else {
        let t = s.drop_last();
        lemma_uniform_sums(t, c);
        assert(s.last() == c);
        let n = s.len() as int;
        let ci = c as int;
        assert(sum_of(s) == ci * (n - 1) + ci);
        assert(ci * (n - 1) + ci == ci * n) by (nonlinear_arith);
        assert(sum_sq_of(s) == ci * ci * (n - 1) + ci * ci);
        assert(ci * ci * (n - 1) + ci * ci == ci * ci * n) by (nonlinear_arith);
        assert(n * (ci * ci * n) - (ci * n) * (ci * n) == 0) by (nonlinear_arith);
    }
}

/// A single sample disperses nothing: its variance numerator is 0.
pub proof fn lemma_single_pixel_zero_texture(s: Seq<u8>)
    requires
        s.len() == 1,
    ensures
        variance_num_of(s) == 0,
{
    let c = s[0];
    assert(forall|i: int| 0 <= i < s.len() ==> s[i] == c);
    lemma_uniform_sums(s, c);
}

/// Computes the exact variance numerator `len·Σx² − (Σx)²` of the grid's
/// samples in one pass.
pub fn variance_numerator(g: &PixelGrid) -> (v: u128)
    requires
        g.wf(),
    ensures
        v == variance_num_of(g.data@),
        v <= 65025 * g.spec_area() * g.spec_area(),
{
    let n = g.data.len();
    let mut sum: u64 = 0;
    let mut sum_sq: u64 = 0;
    let mut i: usize = 0;
    while i < n
        invariant
            n == g.data@.len(),
            n <= crate::AREA_MAX,
            i <= n,
            sum == sum_of(g.data@.take(i as int)),
            sum_sq == sum_sq_of(g.data@.take(i as int)),
            sum <= 255 * i,
            sum_sq <= 65025 * i,
        decreases n - i,
    {
        let x = g.data[i];
        proof {
            let d = g.data@;
            assert(d.take(i + 1).drop_last() =~= d.take(i as int));
            assert(d.take(i + 1).last() == d[i as int]);
            let xi = x as int;
            assert(xi * xi <= 65025) by (nonlinear_arith)
                requires
                    0 <= xi <= 255,
            ;
        }
        sum = sum + (x as u64);
        sum_sq = sum_sq + (x as u64) * (x as u64);
        i = i + 1;
    }
    proof {
        assert(g.data@.take(n as int) =~= g.data@);
        lemma_variance_num_nonneg(g.data@);
        lemma_sum_bounds(g.data@);
        let ni = n as int;
        let sm = sum_of(g.data@);
        let q = sum_sq_of(g.data@);
        assert(ni * q <= ni * (65025 * ni)) by (nonlinear_arith)
            requires
                0 <= ni,
                q <= 65025 * ni,
        ;
        assert(0 <= sm * sm) by (nonlinear_arith);
        assert(ni == g.spec_area());
        assert(ni * (65025 * ni) == 65025 * g.spec_area() * g.spec_area()) by (nonlinear_arith)
            requires
                ni == g.spec_area(),
        ;
        assert(ni * q <= 0x1000000000000 * (65025 * 0x1000000000000)) by (nonlinear_arith)
            requires
                0 <= ni <= 0x1000000000000,
                0 <= q <= 65025 * ni,
        ;
        assert(sm * sm <= ni * q);
    }
    let nn = n as u128;
    let v = nn * (sum_sq as u128) - (sum as u128) * (sum as u128);
    v
}

} // verus!
