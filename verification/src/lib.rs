//! Heuristic synthetic-image likelihood scoring.
//!
//! The pipeline decodes a text-encoded image payload into a luminance
//! grid, measures two statistical signals on it (intensity dispersion
//! and local gradient energy), and combines them into a bounded
//! confidence with a tiered verdict.  All of the scoring arithmetic is
//! exact: the metrics are kept as integers (a variance numerator, a
//! gradient total and the pixel count), and every threshold comparison
//! is carried out on integers.  The real-valued report of a host is
//! recovered from those integers without any further decision.

use vstd::prelude::*;

pub mod codec;
pub mod gradient;
pub mod grid;
pub mod score;
pub mod texture;

use crate::codec::base64_decoded;
use crate::codec::decode_payload;
use crate::gradient::gradient_total_of;
use crate::score::classify;
use crate::score::compute_metrics;
use crate::score::confidence_exceeds;
use crate::score::verdict_of;
use crate::score::Metrics;
use crate::score::Verdict;
use crate::texture::variance_num_of;
use vstd::string::StringExecFns;

verus! {

/// Largest pixel count (width times height) the analyzers accept.
/// Keeping the area below 2^48 lets every accumulator and every squared
/// threshold comparison fit comfortably in 128-bit integers.
pub const AREA_MAX: u64 = 281474976710656;

/// The analyzed payload's outcome: exact metrics with their verdict, or
/// the decode-failure sentinel, whose numeric fields all read as zero.
#[derive(PartialEq, Eq, Structural, Clone, Copy, Debug)]
pub enum Outcome {
    Scored { metrics: Metrics, verdict: Verdict },
    DecodeFailed,
}

/// The record every call returns: an outcome and a human-readable
/// message — a tier verdict, or a decode-failure explanation.
pub struct AnalysisResult {
    pub outcome: Outcome,
    pub message: String,
}

impl AnalysisResult {
    /// Scored results carry well-formed metrics and the verdict the
    /// scorer assigns to them.
    pub open spec fn wf(self) -> bool {
        match self.outcome {
            Outcome::Scored { metrics, verdict } => metrics.wf() && verdict == verdict_of(
                metrics.var_num as int,
                metrics.grad_total as int,
                metrics.area as int,
            ),
            Outcome::DecodeFailed => true,
        }
    }
}

/// Verdict text of the high-likelihood tier.
pub open spec fn synthetic_message() -> Seq<char> {
    "likely an AI-synthesized image"@
}

/// Verdict text of the manual-review tier.
pub open spec fn review_message() -> Seq<char> {
    "possibly AI-synthesized; manual review recommended"@
}

/// Verdict text of the natural-capture tier.
pub open spec fn natural_message() -> Seq<char> {
    "looks like a natural capture"@
}

/// Prefix of every decode-failure message; the cause follows it.
pub open spec fn failure_prefix() -> Seq<char> {
    "image decode failed: "@
}

fn synthetic_message_str() -> (s: &'static str)
    ensures
        s@ == synthetic_message(),
{
    "likely an AI-synthesized image"
}

fn review_message_str() -> (s: &'static str)
    ensures
        s@ == review_message(),
{
    "possibly AI-synthesized; manual review recommended"
}

fn natural_message_str() -> (s: &'static str)
    ensures
        s@ == natural_message(),
{
    "looks like a natural capture"
}

fn failure_prefix_str() -> (s: &'static str)
    ensures
        s@ == failure_prefix(),
{
    "image decode failed: "
}

/// The tier text each verdict reports.
pub open spec fn verdict_message(v: Verdict) -> Seq<char> {
    match v {
        Verdict::Synthetic => synthetic_message(),
        Verdict::ManualReview => review_message(),
        Verdict::Natural => natural_message(),
    }
}

/// What every result owes its payload.  The base64 stage is pinned
/// exactly by its name: an invalid payload yields the sentinel with the
/// prefix and that stage's cause.  Past it the decoded samples are not
/// a function of the bytes alone (image decoders may round differently
/// between machines), so the contract states what holds of every
/// outcome: either the sentinel with a prefix-led failure message, or
/// well-formed metrics carrying exactly the verdict — and the verdict's
/// message — that the scorer's rules assign them.
pub open spec fn analysis_ok(s: Seq<char>, r: AnalysisResult) -> bool {
    match base64_decoded(s) {
        Err(c) => r.outcome == Outcome::DecodeFailed && r.message@ == failure_prefix() + c,
        Ok(_) => match r.outcome {
            Outcome::DecodeFailed => failure_prefix().is_prefix_of(r.message@),
            Outcome::Scored { metrics, verdict } => {
                &&& metrics.wf()
                &&& verdict == verdict_of(
                    metrics.var_num as int,
                    metrics.grad_total as int,
                    metrics.area as int,
                )
                &&& r.message@ == verdict_message(verdict)
            },
        },
    }
}

/// The single entry point: decodes the payload and scores it.  It
/// never fails: a decode failure comes back as the sentinel outcome
/// with a non-empty explanatory message.
pub fn analyze_image(payload: &str) -> (r: AnalysisResult)
    ensures
        analysis_ok(payload@, r),
        r.wf(),
        r.message@.len() > 0,
{
    proof {
        reveal_strlit("likely an AI-synthesized image");
        reveal_strlit("possibly AI-synthesized; manual review recommended");
        reveal_strlit("looks like a natural capture");
        reveal_strlit("image decode failed: ");
    }
    match decode_payload(payload) {
        Ok(g) => {
            let metrics = compute_metrics(&g);
            let verdict = classify(&metrics);
            let msg: &str = match verdict {
                Verdict::Synthetic => synthetic_message_str(),
                Verdict::ManualReview => review_message_str(),
                Verdict::Natural => natural_message_str(),
            };
            AnalysisResult { outcome: Outcome::Scored { metrics, verdict }, message: msg.to_owned() }
        },
        Err(e) => {
            let cause = e.cause();
            let msg = failure_prefix_str().to_owned().concat(cause.as_str());
            proof {
                assert(failure_prefix() =~= msg@.subrange(0, failure_prefix().len() as int));
            }
            AnalysisResult { outcome: Outcome::DecodeFailed, message: msg }
        },
    }
}

/// Determinism of the scoring stages: once a luminance grid is fixed,
/// the metrics, the verdict and the verdict's message are functions of
/// its width, height and samples alone, so two runs over one decoded
/// grid report identically.  (The base64 stage is likewise pinned by
/// its name; only the image decode itself may vary between machines.)
pub proof fn lemma_scoring_deterministic(w: int, h: int, d: Seq<u8>, m1: Metrics, m2: Metrics)
    requires
        m1.var_num == variance_num_of(d),
        m1.grad_total == gradient_total_of(w, h, d),
        m1.area == w * h,
        m2.var_num == variance_num_of(d),
        m2.grad_total == gradient_total_of(w, h, d),
        m2.area == w * h,
    ensures
        m1 == m2,
        verdict_of(m1.var_num as int, m1.grad_total as int, m1.area as int) == verdict_of(
            m2.var_num as int,
            m2.grad_total as int,
            m2.area as int,
        ),
        verdict_message(verdict_of(m1.var_num as int, m1.grad_total as int, m1.area as int))
            == verdict_message(
            verdict_of(m2.var_num as int, m2.grad_total as int, m2.area as int),
        ),
{
}

/// A uniform image of any size: texture score exactly 0, gradient
/// energy exactly 0, confidence exactly 0, and the natural-capture
/// tier.
pub proof fn lemma_uniform_image_natural(w: int, h: int, d: Seq<u8>, c: u8)
    requires
        1 <= w,
        1 <= h,
        d.len() == w * h,
        forall|i: int| 0 <= i < d.len() ==> d[i] == c,
    ensures
        variance_num_of(d) == 0,
        gradient_total_of(w, h, d) == 0,
        verdict_of(0, 0, w * h) == Verdict::Natural,
        !confidence_exceeds(0, 0, w * h, 0, 1),
        verdict_message(verdict_of(0, 0, w * h)) == natural_message(),
{
    crate::texture::lemma_uniform_sums(d, c);
    crate::gradient::lemma_uniform_zero_energy(w, h, d, c);
    assert(1 <= w * h) by (nonlinear_arith)
        requires
            1 <= w,
            1 <= h,
    ;
    crate::score::lemma_zero_metrics_natural(w * h);
}

} // verus!
