use vstd::prelude::*;
use crate::gradient::gradient_total;
use crate::gradient::gradient_total_of;
use crate::grid::PixelGrid;
use crate::texture::variance_num_of;
use crate::texture::variance_numerator;

verus! {

/// Calibration divisor applied to the texture score.
pub const TEXTURE_DIVISOR: u64 = 50;

/// Calibration divisor applied to the normalized gradient energy.
pub const ENERGY_DIVISOR: u64 = 200;

/// `ENERGY_DIVISOR / TEXTURE_DIVISOR`: the weight the texture term picks
/// up once the combined score is scaled by `ENERGY_DIVISOR · area`.
pub const TEXTURE_WEIGHT: u64 = 4;

/// High-likelihood tier threshold, the exact rational 17/20 (= 0.85).
pub const HIGH_NUM: u64 = 17;

pub const HIGH_DEN: u64 = 20;

/// Manual-review tier threshold, the exact rational 1/2 (= 0.5).
pub const REVIEW_NUM: u64 = 1;

pub const REVIEW_DEN: u64 = 2;

/// The exact results of both analyzers on one grid.  The real-valued
/// report is recovered as `texture = √var_num / area` and
/// `energy = grad_total / area`.
#[derive(PartialEq, Eq, Structural, Clone, Copy, Debug)]
pub struct Metrics {
    /// `area·Σx² − (Σx)²`, the population variance numerator scaled by `area²`.
    pub var_num: u128,
    /// Sum of `|dx| + |dy|` over all interior pixels.
    pub grad_total: u64,
    /// Full pixel count `width · height`, the normalization denominator.
    pub area: u64,
}

impl Metrics {
    /// Bounds every grid's metrics obey; they keep the threshold
    /// comparisons inside 128-bit arithmetic.
    pub open spec fn wf(self) -> bool {
        &&& 1 <= self.area <= crate::AREA_MAX
        &&& self.var_num <= 65025 * self.area * self.area
        &&& self.grad_total <= 510 * self.area
    }
}

/// The three verdict tiers, from strongest to weakest suspicion.
#[derive(PartialEq, Eq, Structural, Clone, Copy, Debug)]
pub enum Verdict {
    Synthetic,
    ManualReview,
    Natural,
}

/// Does the raw combined score `√v/(50·n) + g/(200·n)` strictly exceed
/// `num/den`?  Scaling by `200·n·den` reduces it to
/// `4·den·√v > 200·n·num − den·g`, and squaring (both sides being
/// non-negative once the right side is) makes it exact integer
/// arithmetic: with `m = 200·n·num − den·g` the score exceeds the
/// threshold iff `m < 0` or `16·den²·v > m²`.
pub open spec fn raw_exceeds(v: int, g: int, n: int, num: int, den: int) -> bool {
    let m = ENERGY_DIVISOR * n * num - den * g;
    m < 0 || (TEXTURE_WEIGHT * TEXTURE_WEIGHT) * (den * den) * v > m * m
}

/// Does the raw combined score fall strictly below `num/den`?
pub open spec fn raw_below(v: int, g: int, n: int, num: int, den: int) -> bool {
    let m = ENERGY_DIVISOR * n * num - den * g;
    m > 0 && (TEXTURE_WEIGHT * TEXTURE_WEIGHT) * (den * den) * v < m * m
}

/// Does the clamped confidence `min(1, raw)` strictly exceed `num/den`?
/// It does exactly when the threshold is below 1 and the raw score
/// exceeds it.
pub open spec fn confidence_exceeds(v: int, g: int, n: int, num: int, den: int) -> bool {
    num < den && raw_exceeds(v, g, n, num, den)
}

/// Does the clamped confidence `min(1, raw)` fall strictly below
/// `num/den`?  It does exactly when 1 is below the threshold or the raw
/// score is.
pub open spec fn confidence_below(v: int, g: int, n: int, num: int, den: int) -> bool {
    den < num || raw_below(v, g, n, num, den)
}

/// Tier selection: first threshold strictly exceeded wins, from the top.
/// Both thresholds lie below 1, so raw and clamped comparisons agree.
pub open spec fn verdict_of(v: int, g: int, n: int) -> Verdict {
    if raw_exceeds(v, g, n, HIGH_NUM as int, HIGH_DEN as int) {
        Verdict::Synthetic
    } else if raw_exceeds(v, g, n, REVIEW_NUM as int, REVIEW_DEN as int) {
        Verdict::ManualReview
    } else {
        Verdict::Natural
    }
}

/// Clamp correctness: for any metrics the clamped confidence
/// `min(1, √v/(50·n) + g/(200·n))` never exceeds 1 and never falls
/// below 0.
pub proof fn lemma_confidence_clamped(v: int, g: int, n: int)
    requires
        0 <= v,
        0 <= g,
        1 <= n,
    ensures
        !confidence_exceeds(v, g, n, 1, 1),
        !confidence_below(v, g, n, 0, 1),
{
    assert(ENERGY_DIVISOR * n * 0 - 1 * g <= 0) by (nonlinear_arith)
        requires
            0 <= g,
    ;
}

/// The clamped confidence exceeds 0 exactly when one of the two signals
/// is nonzero; both vanishing force a confidence of exactly 0.
pub proof fn lemma_confidence_zero_iff(v: int, g: int, n: int)
    requires
        0 <= v,
        0 <= g,
        1 <= n,
    ensures
        confidence_exceeds(v, g, n, 0, 1) <==> (v > 0 || g > 0),
{
    let m = ENERGY_DIVISOR * n * 0 - 1 * g;
    assert(ENERGY_DIVISOR * n * 0 == 0) by (nonlinear_arith);
    assert(m == -g);
    if g > 0 {
        assert(raw_exceeds(v, g, n, 0, 1));
    } else {
        assert(m == 0);
        assert(m * m == 0) by (nonlinear_arith)
            requires
                m == 0,
        ;
        assert((TEXTURE_WEIGHT * TEXTURE_WEIGHT) * (1 * 1) * v == 16 * v) by (nonlinear_arith)
            requires
                TEXTURE_WEIGHT == 4,
        ;
        if v > 0 {
            assert(raw_exceeds(v, g, n, 0, 1));
        } else {
            assert(!raw_exceeds(v, g, n, 0, 1));
        }
    }
}

/// A flat image scores Natural: with both signals at 0 no threshold is
/// exceeded.
pub proof fn lemma_zero_metrics_natural(n: int)
    requires
        1 <= n,
    ensures
        verdict_of(0, 0, n) == Verdict::Natural,
        !confidence_exceeds(0, 0, n, 0, 1),
{
    assert(ENERGY_DIVISOR * n * (HIGH_NUM as int) - (HIGH_DEN as int) * 0 > 0) by (nonlinear_arith)
        requires
            1 <= n,
    ;
    assert(ENERGY_DIVISOR * n * (REVIEW_NUM as int) - (REVIEW_DEN as int) * 0 > 0)
        by (nonlinear_arith)
        requires
            1 <= n,
    ;
    assert((TEXTURE_WEIGHT * TEXTURE_WEIGHT) * ((HIGH_DEN as int) * (HIGH_DEN as int)) * 0 == 0)
        by (nonlinear_arith);
    assert((TEXTURE_WEIGHT * TEXTURE_WEIGHT) * ((REVIEW_DEN as int) * (REVIEW_DEN as int)) * 0 == 0)
        by (nonlinear_arith);
    lemma_confidence_zero_iff(0, 0, n);
}

/// Exact threshold test on machine integers, mirroring `raw_exceeds`.
fn raw_exceeds_exec(v: u128, g: u64, n: u64, num: u64, den: u64) -> (r: bool)
    requires
        1 <= n <= crate::AREA_MAX,
        v <= 65025 * n * n,
        g <= 510 * n,
        num <= 20,
        1 <= den <= 20,
    ensures
        r == raw_exceeds(v as int, g as int, n as int, num as int, den as int),
{
    proof {
        let ni = n as int;
        let vi = v as int;
        let gi = g as int;
        let numi = num as int;
        let deni = den as int;
        assert((200 * ni * numi < 0x100000000000000000000000000000000 && deni * gi
            < 0x100000000000000000000000000000000 && 16 * (deni * deni) * vi
            < 0x100000000000000000000000000000000) && (200 * ni * numi - deni * gi) * (200 * ni
            * numi - deni * gi) < 0x100000000000000000000000000000000) by (nonlinear_arith)
            requires
                1 <= ni <= 0x1000000000000,
                0 <= vi <= 65025 * ni * ni,
                0 <= gi <= 510 * ni,
                0 <= numi <= 20,
                1 <= deni <= 20,
        ;
        assert((den as int) * (den as int) <= 400) by (nonlinear_arith)
            requires
                1 <= den as int <= 20,
        ;
    }
    let a: u128 = (ENERGY_DIVISOR as u128) * (n as u128) * (num as u128);
    let b: u128 = (den as u128) * (g as u128);
    if b > a {
        true
    } else {
        let m: u128 = a - b;
        let lhs: u128 = ((TEXTURE_WEIGHT * TEXTURE_WEIGHT) as u128) * ((den * den) as u128) * v;
        lhs > m * m
    }
}

/// Picks the verdict tier for one grid's metrics.
pub fn classify(m: &Metrics) -> (vd: Verdict)
    requires
        m.wf(),
    ensures
        vd == verdict_of(m.var_num as int, m.grad_total as int, m.area as int),
{
    if raw_exceeds_exec(m.var_num, m.grad_total, m.area, HIGH_NUM, HIGH_DEN) {
        Verdict::Synthetic
    } else if raw_exceeds_exec(m.var_num, m.grad_total, m.area, REVIEW_NUM, REVIEW_DEN) {
        Verdict::ManualReview
    } else {
        Verdict::Natural
    }
}

/// Runs both analyzers over the grid and packages their exact results
/// together with the grid's area.
pub fn compute_metrics(g: &PixelGrid) -> (m: Metrics)
    requires
        g.wf(),
    ensures
        m.wf(),
        m.var_num == variance_num_of(g.data@),
        m.grad_total == gradient_total_of(g.width as int, g.height as int, g.data@),
        m.area == g.spec_area(),
{
    let area = g.area();
    let v = variance_numerator(g);
    let t = gradient_total(g);
    Metrics { var_num: v, grad_total: t, area }
}

} // verus!
