//! The confidence scorer: weighted fusion of evidence into a per-provider
//! score with contradiction penalties, category bonuses and a clamp.
//!
//! All arithmetic is fixed-point over micro units (`1_000_000` = 1.0) and
//! the whole pipeline is pinned down by spec functions, so the executable
//! scorer is proved to compute exactly `spec_score`.

use vstd::prelude::*;
use vstd::string::StringExecFns;
use crate::CONF_ONE;
use crate::Evidence;
use crate::EvidenceV;
use crate::MethodV;
use crate::all_evidence_wf;
use crate::evidence_wf;
use crate::text::append_str;
use crate::text::contains_seq;
use crate::text::lower_seq;
use crate::text::str_contains;
use crate::text::str_eq;
use crate::text::to_lower;
use crate::text::u64_to_string;

verus! {

/// Evidence category, for grouping weights.
#[derive(Debug, Clone, Copy, PartialEq, Eq, Structural, Hash)]
pub enum EvidenceCategory {
    Headers,
    Server,
    Body,
    StatusCode,
    Behavioral,
    ErrorPage,
    Network,
}

/// Weight attached to one signature: the effective weight is the product of
/// the three factors, each in micro units.
#[derive(Debug, Clone, Copy, PartialEq, Eq, Structural)]
pub struct EvidenceWeight {
    pub base_weight: u64,
    pub specificity: u64,
    pub reliability: u64,
    pub category: EvidenceCategory,
}

/// Score bands, in micro units.
#[derive(Debug, Clone, Copy, PartialEq, Eq, Structural)]
pub struct ConfidenceThresholds {
    pub minimum: u64,
    pub high: u64,
    pub very_high: u64,
    pub absolute: u64,
}

/// Human-readable confidence band.
#[derive(Debug, Clone, Copy, PartialEq, Eq, Structural)]
pub enum ConfidenceLevel {
    NoConfidence,
    Low,
    Moderate,
    High,
    VeryHigh,
    NearCertain,
    Absolute,
}

/// The scorer's output: the final score with its breakdown.
#[derive(Debug, Clone)]
pub struct ConfidenceResult {
    /// Final score in micro units, clamped to `CONF_ONE`.
    pub score: u64,
    pub level: ConfidenceLevel,
    /// Unpenalised per-category subtotal, one entry per category.
    pub evidence_breakdown: Vec<(EvidenceCategory, u64)>,
    pub positive_evidence_count: usize,
    pub negative_evidence_count: usize,
    pub missing_evidence: Vec<String>,
    pub explanation: String,
}

/// The rule-based confidence scorer.
#[derive(Debug, Clone)]
pub struct AdvancedScoring {
    pub confidence_thresholds: ConfidenceThresholds,
}

/// A weight entry, in micro units.
pub open spec fn w(b: u64, s: u64, rel: u64, c: EvidenceCategory) -> EvidenceWeight {
    EvidenceWeight { base_weight: b, specificity: s, reliability: rel, category: c }
}

/// The signature-keyed weight table.
pub open spec fn spec_weight_for(sig: Seq<char>) -> Option<EvidenceWeight> {
    if sig == "cf-ray-header"@ {
        Some(w(950000, 980000, 990000, EvidenceCategory::Headers))
    } else if sig == "cf-cache-status-header"@ {
        Some(w(900000, 950000, 950000, EvidenceCategory::Headers))
    } else if sig == "cloudflare-server-header"@ {
        Some(w(850000, 900000, 920000, EvidenceCategory::Server))
    } else if sig == "cf-challenge-body"@ {
        Some(w(700000, 600000, 750000, EvidenceCategory::Body))
    } else if sig == "cf-error-body"@ {
        Some(w(650000, 550000, 700000, EvidenceCategory::Body))
    } else if sig == "cf-js-body"@ {
        Some(w(600000, 500000, 650000, EvidenceCategory::Body))
    } else if sig == "cf-connecting-ip-header"@ {
        Some(w(800000, 850000, 900000, EvidenceCategory::Headers))
    } else if sig == "cf-ipcountry-header"@ {
        Some(w(750000, 800000, 850000, EvidenceCategory::Headers))
    } else if sig == "cf-visitor-header"@ {
        Some(w(750000, 800000, 850000, EvidenceCategory::Headers))
    } else if sig == "cf-request-id-header"@ {
        Some(w(850000, 900000, 920000, EvidenceCategory::Headers))
    } else if sig == "cf-403-status"@ {
        Some(w(750000, 700000, 800000, EvidenceCategory::StatusCode))
    } else if sig == "cf-429-status"@ {
        Some(w(800000, 750000, 850000, EvidenceCategory::StatusCode))
    } else if sig == "x-amz-cf-id-header"@ {
        Some(w(950000, 990000, 980000, EvidenceCategory::Headers))
    } else if sig == "x-amz-cf-pop-header"@ {
        Some(w(900000, 950000, 960000, EvidenceCategory::Headers))
    } else if sig == "cloudfront-server-header"@ {
        Some(w(880000, 920000, 940000, EvidenceCategory::Server))
    } else if sig == "cloudfront-via-header"@ {
        Some(w(850000, 880000, 900000, EvidenceCategory::Headers))
    } else if sig == "cloudfront-cache-pattern"@ {
        Some(w(850000, 880000, 900000, EvidenceCategory::Headers))
    } else if sig == "fastly-via-pattern"@ {
        Some(w(750000, 700000, 800000, EvidenceCategory::Headers))
    } else if sig == "akamai-grn-header"@ {
        Some(w(920000, 960000, 950000, EvidenceCategory::Headers))
    } else if sig == "x-akamai-header"@ {
        Some(w(900000, 940000, 930000, EvidenceCategory::Headers))
    } else if sig == "fastly-header"@ {
        Some(w(900000, 930000, 920000, EvidenceCategory::Headers))
    } else if sig == "x-served-by-fastly"@ {
        Some(w(880000, 900000, 890000, EvidenceCategory::Headers))
    } else if sig == "x-vercel-id-header"@ {
        Some(w(950000, 980000, 960000, EvidenceCategory::Headers))
    } else if sig == "vercel-server-header"@ {
        Some(w(900000, 950000, 930000, EvidenceCategory::Server))
    } else if sig == "timing-waf-delay"@ {
        Some(w(850000, 900000, 880000, EvidenceCategory::Behavioral))
    } else if sig == "timing-pattern-analysis"@ {
        Some(w(800000, 850000, 820000, EvidenceCategory::Behavioral))
    } else if sig == "timing-baseline-comparison"@ {
        Some(w(830000, 870000, 850000, EvidenceCategory::Behavioral))
    } else if sig == "dns-cname-cloudflare"@ {
        Some(w(980000, 990000, 980000, EvidenceCategory::Network))
    } else if sig == "dns-cname-aws"@ {
        Some(w(980000, 990000, 980000, EvidenceCategory::Network))
    } else if sig == "dns-cname-fastly"@ {
        Some(w(980000, 990000, 980000, EvidenceCategory::Network))
    } else if sig == "dns-cname-akamai"@ {
        Some(w(980000, 990000, 980000, EvidenceCategory::Network))
    } else if sig == "dns-cname-vercel"@ {
        Some(w(990000, 990000, 980000, EvidenceCategory::Network))
    } else if sig == "dns-cname-keycdn"@ {
        Some(w(980000, 990000, 980000, EvidenceCategory::Network))
    } else if sig == "dns-cname-maxcdn"@ {
        Some(w(980000, 990000, 980000, EvidenceCategory::Network))
    } else if sig == "payload_detection_cloudflare"@ {
        Some(w(800000, 850000, 750000, EvidenceCategory::Behavioral))
    } else if sig == "payload_detection_aws_waf"@ {
        Some(w(800000, 850000, 750000, EvidenceCategory::Behavioral))
    } else if sig == "payload_detection_akamai"@ {
        Some(w(800000, 850000, 750000, EvidenceCategory::Behavioral))
    } else if sig == "payload_detection_generic_waf"@ {
        Some(w(700000, 700000, 650000, EvidenceCategory::Behavioral))
    } else if sig == "blocked_xss_payload"@ {
        Some(w(750000, 800000, 700000, EvidenceCategory::Behavioral))
    } else if sig == "blocked_sqlinjection_payload"@ {
        Some(w(750000, 800000, 700000, EvidenceCategory::Behavioral))
    } else if sig == "blocked_commandinjection_payload"@ {
        Some(w(780000, 820000, 720000, EvidenceCategory::Behavioral))
    } else if sig == "blocked_pathtraversal_payload"@ {
        Some(w(770000, 810000, 710000, EvidenceCategory::Behavioral))
    } else {
        None
    }
}

/// The fallback weight derived from an evidence's method when its signature
/// is not in the table.
pub open spec fn spec_fallback_weight(m: MethodV) -> EvidenceWeight {
    match m {
        MethodV::Header(_) => w(850000, 800000, 900000, EvidenceCategory::Headers),
        MethodV::StatusCode(_) => w(750000, 650000, 750000, EvidenceCategory::StatusCode),
        MethodV::Body(_) => w(550000, 450000, 600000, EvidenceCategory::Body),
        MethodV::Timing => w(600000, 500000, 650000, EvidenceCategory::Behavioral),
        MethodV::DNS(_) => w(700000, 600000, 750000, EvidenceCategory::Network),
        MethodV::Certificate => w(750000, 700000, 800000, EvidenceCategory::Network),
        MethodV::Payload => w(800000, 850000, 750000, EvidenceCategory::Behavioral),
    }
}

/// The weight used for one evidence.
pub open spec fn weight_of(e: EvidenceV) -> EvidenceWeight {
    match spec_weight_for(e.signature_matched) {
        Some(wt) => wt,
        None => spec_fallback_weight(e.method_type),
    }
}

/// The effective weight: product of the three factors, in micro units.
pub open spec fn weight_product(wt: EvidenceWeight) -> int {
    wt.base_weight * wt.specificity / 1000000 * wt.reliability / 1000000
}

/// One evidence's score contribution, in micro units.
pub open spec fn contribution(e: EvidenceV) -> int {
    e.confidence * weight_product(weight_of(e)) / 1000000
}

/// Sum of all contributions.
pub open spec fn total_of(evs: Seq<EvidenceV>) -> int
    decreases evs.len(),
{
    if evs.len() == 0 {
        0
    } else {
        total_of(evs.drop_last()) + contribution(evs.last())
    }
}

/// A category subtotal as a machine word; meaningful under the scorer's
/// well-formedness preconditions, which bound it.
pub open spec fn cat_total_u64(evs: Seq<EvidenceV>, c: EvidenceCategory) -> u64 {
    cat_total(evs, c) as u64
}

/// Sum of the contributions whose weight falls in one category.
pub open spec fn cat_total(evs: Seq<EvidenceV>, c: EvidenceCategory) -> int
    decreases evs.len(),
{
    if evs.len() == 0 {
        0
    } else {
        cat_total(evs.drop_last(), c) + (if weight_of(evs.last()).category == c {
            contribution(evs.last())
        } else {
            0
        })
    }
}

/// The contradiction patterns held against a provider: substrings that,
/// found in any response header name, contradict the hypothesis.
pub open spec fn spec_neg_patterns(provider: Seq<char>) -> Seq<Seq<char>> {
    if provider == "CloudFlare"@ {
        seq![
            "x-amz-cf-id"@,
            "x-amz-cf-pop"@,
            "cloudfront"@,
            "akamai-grn"@,
            "x-akamai-transformed"@,
        ]
    } else if provider == "AWS"@ {
        seq!["cf-ray"@, "cf-cache-status"@]
    } else {
        Seq::empty()
    }
}

/// The header names of a response, in order.
pub open spec fn header_names(hs: Seq<(Seq<char>, Seq<char>)>) -> Seq<Seq<char>> {
    Seq::new(hs.len(), |i: int| hs[i].0)
}

/// How many header names contain one pattern, both lowercased.
pub open spec fn one_pattern_matches(p: Seq<char>, names: Seq<Seq<char>>) -> nat
    decreases names.len(),
{
    if names.len() == 0 {
        0
    } else {
        one_pattern_matches(p, names.drop_last()) + (if contains_seq(
            lower_seq(names.last()),
            lower_seq(p),
        ) {
            1nat
        } else {
            0nat
        })
    }
}

/// Total contradiction matches over all patterns.
pub open spec fn neg_count(pats: Seq<Seq<char>>, names: Seq<Seq<char>>) -> nat
    decreases pats.len(),
{
    if pats.len() == 0 {
        0
    } else {
        neg_count(pats.drop_last(), names) + one_pattern_matches(pats.last(), names)
    }
}

/// Each contradiction match multiplies the running total by 0.3.
pub open spec fn penalize(t: int, k: nat) -> int
    decreases k,
{
    if k == 0 {
        t
    } else {
        penalize(t, (k - 1) as nat) * 3 / 10
    }
}

/// How many categories have a non-zero subtotal.
pub open spec fn nonzero_categories(evs: Seq<EvidenceV>) -> int {
    (if cat_total(evs, EvidenceCategory::Headers) > 0 {
        1int
    } else {
        0int
    }) + (if cat_total(evs, EvidenceCategory::Server) > 0 {
        1int
    } else {
        0int
    }) + (if cat_total(evs, EvidenceCategory::Body) > 0 {
        1int
    } else {
        0int
    }) + (if cat_total(evs, EvidenceCategory::StatusCode) > 0 {
        1int
    } else {
        0int
    }) + (if cat_total(evs, EvidenceCategory::Behavioral) > 0 {
        1int
    } else {
        0int
    }) + (if cat_total(evs, EvidenceCategory::ErrorPage) > 0 {
        1int
    } else {
        0int
    }) + (if cat_total(evs, EvidenceCategory::Network) > 0 {
        1int
    } else {
        0int
    })
}

/// The total after the contradiction penalty.
pub open spec fn spec_penalized(
    provider: Seq<char>,
    evs: Seq<EvidenceV>,
    hs: Seq<(Seq<char>, Seq<char>)>,
) -> int {
    penalize(total_of(evs), neg_count(spec_neg_patterns(provider), header_names(hs)))
}

/// The total after the header bonus and the body penalty, before the
/// diversity bonus: +10% when headers dominate, -20% when the body
/// dominates with weak headers.
pub open spec fn spec_ratio_adjusted(
    provider: Seq<char>,
    evs: Seq<EvidenceV>,
    hs: Seq<(Seq<char>, Seq<char>)>,
) -> int {
    let t = spec_penalized(provider, evs, hs);
    let hsub = cat_total(evs, EvidenceCategory::Headers);
    let bsub = cat_total(evs, EvidenceCategory::Body);
    let t1 = if 10 * hsub > 7 * t {
        t * 11 / 10
    } else {
        t
    };
    if 2 * bsub > t && 10 * hsub < 3 * t {
        t1 * 8 / 10
    } else {
        t1
    }
}

/// The total after every bonus: the ratio adjustments, then +5% for
/// category diversity.
pub open spec fn spec_bonused(
    provider: Seq<char>,
    evs: Seq<EvidenceV>,
    hs: Seq<(Seq<char>, Seq<char>)>,
) -> int {
    let t2 = spec_ratio_adjusted(provider, evs, hs);
    if nonzero_categories(evs) >= 3 {
        t2 * 21 / 20
    } else {
        t2
    }
}

/// The final score: the bonused total clamped to 1.0.  Opaque so that
/// selection proofs can compare scores without unfolding the pipeline.
#[verifier::opaque]
pub open spec fn spec_score(
    provider: Seq<char>,
    evs: Seq<EvidenceV>,
    hs: Seq<(Seq<char>, Seq<char>)>,
) -> int {
    if spec_bonused(provider, evs, hs) > CONF_ONE {
        CONF_ONE as int
    } else {
        spec_bonused(provider, evs, hs)
    }
}

/// The band a score falls in.
pub open spec fn spec_level_of(score: int) -> ConfidenceLevel {
    if score >= 980000 {
        ConfidenceLevel::Absolute
    } else if score >= 950000 {
        ConfidenceLevel::NearCertain
    } else if score >= 900000 {
        ConfidenceLevel::VeryHigh
    } else if score >= 800000 {
        ConfidenceLevel::High
    } else if score >= 600000 {
        ConfidenceLevel::Moderate
    } else if score >= 200000 {
        ConfidenceLevel::Low
    } else {
        ConfidenceLevel::NoConfidence
    }
}

/// Whether some evidence carries the given signature id.
pub open spec fn has_sig(evs: Seq<EvidenceV>, sig: Seq<char>) -> bool {
    exists|i: int| 0 <= i < evs.len() && #[trigger] evs[i].signature_matched == sig
}

/// The high-value signatures still missing from a provider's evidence.
pub open spec fn spec_missing(provider: Seq<char>, evs: Seq<EvidenceV>) -> Seq<Seq<char>> {
    if provider == "CloudFlare"@ {
        (if !has_sig(evs, "cf-ray-header"@) {
            seq!["CF-Ray header (highest confidence)"@]
        } else {
            Seq::empty()
        }) + (if !has_sig(evs, "cf-cache-status-header"@) {
            seq!["CF-Cache-Status header"@]
        } else {
            Seq::empty()
        })
    } else if provider == "AWS"@ {
        (if !has_sig(evs, "x-amz-cf-id-header"@) {
            seq!["X-Amz-Cf-Id header (CloudFront ID)"@]
        } else {
            Seq::empty()
        }) + (if !has_sig(evs, "x-amz-cf-pop-header"@) {
            seq!["X-Amz-Cf-Pop header (Point of Presence)"@]
        } else {
            Seq::empty()
        })
    } else if provider == "Akamai"@ {
        if !has_sig(evs, "akamai-grn-header"@) {
            seq!["Akamai-GRN header"@]
        } else {
            Seq::empty()
        }
    } else {
        Seq::empty()
    }
}

/// Every weight the table or the fallback can produce has factors that are
/// valid probabilities.
pub proof fn lemma_weight_wf(e: EvidenceV)
    ensures
        weight_of(e).base_weight <= 1000000,
        weight_of(e).specificity <= 1000000,
        weight_of(e).reliability <= 1000000,
{
}

/// A well-formed evidence contributes between 0 and one full unit.
pub proof fn lemma_contribution_bounds(e: EvidenceV)
    requires
        evidence_wf(e),
    ensures
        0 <= contribution(e) <= 1000000,
{
    lemma_weight_wf(e);
    let wt = weight_of(e);
    let b = wt.base_weight as int;
    let s = wt.specificity as int;
    let rel = wt.reliability as int;
    assert(0 <= b * s <= 1000000 * 1000000) by (nonlinear_arith)
        requires
            0 <= b <= 1000000,
            0 <= s <= 1000000,
    ;
    let p1 = b * s / 1000000;
    assert(0 <= p1 <= 1000000);
    assert(0 <= p1 * rel <= 1000000 * 1000000) by (nonlinear_arith)
        requires
            0 <= p1 <= 1000000,
            0 <= rel <= 1000000,
    ;
    let p2 = p1 * rel / 1000000;
    assert(0 <= p2 <= 1000000);
    let c = e.confidence as int;
    assert(0 <= c * p2 <= 1000000 * 1000000) by (nonlinear_arith)
        requires
            0 <= c <= 1000000,
            0 <= p2 <= 1000000,
    ;
}

/// Totals of well-formed evidence are bounded by one unit per item.
pub proof fn lemma_total_bounds(evs: Seq<EvidenceV>)
    requires
        all_evidence_wf(evs),
    ensures
        0 <= total_of(evs) <= evs.len() * 1000000,
    decreases evs.len(),
{
    if evs.len() == 0 {
    } else {
        assert(all_evidence_wf(evs.drop_last())) by {
            assert(forall|i: int|
                0 <= i < evs.drop_last().len() ==> evs.drop_last()[i] == evs[i]);
        }
        lemma_total_bounds(evs.drop_last());
        lemma_contribution_bounds(evs.last());
    }
}

/// Category subtotals sit between 0 and the full total.
pub proof fn lemma_cat_total_bounds(evs: Seq<EvidenceV>, c: EvidenceCategory)
    requires
        all_evidence_wf(evs),
    ensures
        0 <= cat_total(evs, c) <= total_of(evs),
    decreases evs.len(),
{
    if evs.len() == 0 {
    } else {
        assert(all_evidence_wf(evs.drop_last())) by {
            assert(forall|i: int|
                0 <= i < evs.drop_last().len() ==> evs.drop_last()[i] == evs[i]);
        }
        lemma_cat_total_bounds(evs.drop_last(), c);
        lemma_contribution_bounds(evs.last());
        lemma_total_bounds(evs.drop_last());
    }
}

/// The penalty can only shrink a non-negative total.
pub proof fn lemma_penalize_shrinks(t: int, k: nat)
    requires
        0 <= t,
    ensures
        0 <= penalize(t, k) <= t,
    decreases k,
{
    if k != 0 {
        lemma_penalize_shrinks(t, (k - 1) as nat);
    }
}

/// Each contradiction match multiplies the running total by 0.3, so with at
/// least one match the penalised total is at most three tenths of the
/// unpenalised one.
pub proof fn lemma_penalize_bound(t: int, k: nat)
    requires
        0 <= t,
        1 <= k,
    ensures
        10 * penalize(t, k) <= 3 * t,
    decreases k,
{
    if k == 1 {
        assert(penalize(t, 1) == t * 3 / 10);
        assert(10 * (t * 3 / 10) <= 3 * t) by (nonlinear_arith)
            requires
                t >= 0,
        ;
    } else {
        lemma_penalize_bound(t, (k - 1) as nat);
        lemma_penalize_shrinks(t, (k - 1) as nat);
        let p = penalize(t, (k - 1) as nat);
        assert(penalize(t, k) == p * 3 / 10);
        assert(10 * (p * 3 / 10) <= 3 * p) by (nonlinear_arith)
            requires
                p >= 0,
        ;
        assert(3 * p <= 3 * t);
    }
}

/// When every evidence weighs into the Headers category, the headers
/// subtotal is the whole total.
pub proof fn lemma_all_headers_total(evs: Seq<EvidenceV>)
    requires
        forall|i: int|
            0 <= i < evs.len() ==> (#[trigger] weight_of(evs[i])).category
                == EvidenceCategory::Headers,
    ensures
        cat_total(evs, EvidenceCategory::Headers) == total_of(evs),
    decreases evs.len(),
{
    if evs.len() > 0 {
        assert(forall|i: int|
            0 <= i < evs.drop_last().len() ==> evs.drop_last()[i] == evs[i]);
        lemma_all_headers_total(evs.drop_last());
    }
}

/// Header bonus: when the evidence is exclusively Headers-category, no
/// contradiction matches and the total clears the ratio floor, the final
/// score is exactly the total raised by ten percent, clamped to 1.0.
pub proof fn lemma_header_bonus(
    provider: Seq<char>,
    evs: Seq<EvidenceV>,
    hs: Seq<(Seq<char>, Seq<char>)>,
)
    requires
        all_evidence_wf(evs),
        forall|i: int|
            0 <= i < evs.len() ==> (#[trigger] weight_of(evs[i])).category
                == EvidenceCategory::Headers,
        neg_count(spec_neg_patterns(provider), header_names(hs)) == 0,
        total_of(evs) > 0,
    ensures
        spec_score(provider, evs, hs) == if total_of(evs) * 11 / 10 > CONF_ONE {
            CONF_ONE as int
        } else {
            total_of(evs) * 11 / 10
        },
        spec_score(provider, evs, hs) >= total_of(evs) || spec_score(provider, evs, hs)
            == CONF_ONE,
{
    reveal(spec_score);
    lemma_all_headers_total(evs);
    lemma_total_bounds(evs);
    let t = total_of(evs);
    assert(spec_penalized(provider, evs, hs) == t);
    assert(10 * t > 7 * t);
    lemma_cat_total_bounds(evs, EvidenceCategory::Body);
    assert(cat_total(evs, EvidenceCategory::Body) >= 0);
    assert(cat_total(evs, EvidenceCategory::Body) == 0) by {
        lemma_disjoint_cat_zero(evs, EvidenceCategory::Body);
    }
    assert(!(2 * 0 > t));
    assert(nonzero_categories(evs) < 3) by {
        lemma_disjoint_cat_zero(evs, EvidenceCategory::Server);
        lemma_disjoint_cat_zero(evs, EvidenceCategory::StatusCode);
        lemma_disjoint_cat_zero(evs, EvidenceCategory::Behavioral);
        lemma_disjoint_cat_zero(evs, EvidenceCategory::ErrorPage);
        lemma_disjoint_cat_zero(evs, EvidenceCategory::Network);
    }
    assert(spec_bonused(provider, evs, hs) == t * 11 / 10);
}

/// A category no evidence weighs into has a zero subtotal.
pub proof fn lemma_disjoint_cat_zero(evs: Seq<EvidenceV>, c: EvidenceCategory)
    requires
        forall|i: int| 0 <= i < evs.len() ==> (#[trigger] weight_of(evs[i])).category != c,
    ensures
        cat_total(evs, c) == 0,
    decreases evs.len(),
{
    if evs.len() > 0 {
        assert(forall|i: int|
            0 <= i < evs.drop_last().len() ==> evs.drop_last()[i] == evs[i]);
        lemma_disjoint_cat_zero(evs.drop_last(), c);
    }
}

/// Body penalty: when the body subtotal dominates, the headers subtotal is
/// weak, there is no contradiction and fewer than three categories are
/// populated, the score before the clamp is exactly the total reduced by
/// twenty percent.
pub proof fn lemma_body_penalty(
    provider: Seq<char>,
    evs: Seq<EvidenceV>,
    hs: Seq<(Seq<char>, Seq<char>)>,
)
    requires
        all_evidence_wf(evs),
        neg_count(spec_neg_patterns(provider), header_names(hs)) == 0,
        total_of(evs) > 0,
        2 * cat_total(evs, EvidenceCategory::Body) > total_of(evs),
        10 * cat_total(evs, EvidenceCategory::Headers) < 3 * total_of(evs),
        nonzero_categories(evs) < 3,
    ensures
        spec_bonused(provider, evs, hs) == total_of(evs) * 8 / 10,
        10 * spec_score(provider, evs, hs) <= 8 * total_of(evs),
{
    reveal(spec_score);
    lemma_total_bounds(evs);
    let t = total_of(evs);
    assert(spec_penalized(provider, evs, hs) == t);
    assert(!(10 * cat_total(evs, EvidenceCategory::Headers) > 7 * t));
    assert(spec_bonused(provider, evs, hs) == t * 8 / 10);
}

/// Diversity bonus: with three or more populated categories the final
/// total is the ratio-adjusted total raised by five percent.
pub proof fn lemma_diversity_bonus(
    provider: Seq<char>,
    evs: Seq<EvidenceV>,
    hs: Seq<(Seq<char>, Seq<char>)>,
)
    requires
        nonzero_categories(evs) >= 3,
    ensures
        spec_bonused(provider, evs, hs) == spec_ratio_adjusted(provider, evs, hs) * 21 / 20,
{
}

/// Contradiction penalty at the catalogue's own numbers: a CloudFlare
/// bucket holding one CF-Ray observation at confidence 0.95 scores, on
/// headers carrying a contradiction marker, at most three tenths of what
/// it scores on headers carrying none.
pub proof fn lemma_contradiction_instance(
    e: EvidenceV,
    hs: Seq<(Seq<char>, Seq<char>)>,
    clean: Seq<(Seq<char>, Seq<char>)>,
)
    requires
        e.signature_matched == "cf-ray-header"@,
        e.confidence == 950000,
        neg_count(spec_neg_patterns("CloudFlare"@), header_names(hs)) >= 1,
        neg_count(spec_neg_patterns("CloudFlare"@), header_names(clean)) == 0,
    ensures
        10 * spec_score("CloudFlare"@, seq![e], hs) <= 3 * spec_score(
            "CloudFlare"@,
            seq![e],
            clean,
        ),
{
    reveal(spec_score);
    let evs = seq![e];
    let p = "CloudFlare"@;
    assert(evs.last() == e);
    assert(evs.drop_last() =~= Seq::<EvidenceV>::empty());
    assert(weight_of(e) == w(950000, 980000, 990000, EvidenceCategory::Headers));
    assert(weight_product(weight_of(e)) == 921690);
    assert(contribution(e) == 875605);
    assert(total_of(Seq::<EvidenceV>::empty()) == 0);
    assert(total_of(evs) == 875605);
    assert forall|c: EvidenceCategory|
        #[trigger] cat_total(evs, c) == (if c is Headers {
            875605int
        } else {
            0int
        }) by {
        assert(cat_total(Seq::<EvidenceV>::empty(), c) == 0);
    }
    assert(cat_total(evs, EvidenceCategory::Headers) == 875605);
    assert(cat_total(evs, EvidenceCategory::Body) == 0);
    assert(cat_total(evs, EvidenceCategory::Server) == 0);
    assert(cat_total(evs, EvidenceCategory::StatusCode) == 0);
    assert(cat_total(evs, EvidenceCategory::Behavioral) == 0);
    assert(cat_total(evs, EvidenceCategory::ErrorPage) == 0);
    assert(cat_total(evs, EvidenceCategory::Network) == 0);
    assert(nonzero_categories(evs) == 1);
    // On clean headers nothing matches, so the penalty leaves the total
    // alone and only the header bonus applies.
    assert(spec_penalized(p, evs, clean) == 875605);
    assert(spec_ratio_adjusted(p, evs, clean) == 963165);
    assert(spec_bonused(p, evs, clean) == 963165);
    assert(spec_score(p, evs, clean) == 963165);
    // With at least one match the penalised total is at most three tenths
    // of the original, and the same header bonus applies after it.
    let k = neg_count(spec_neg_patterns(p), header_names(hs));
    let pen = penalize(875605, k);
    lemma_penalize_shrinks(875605, k);
    lemma_penalize_bound(875605, k);
    assert(pen <= 262681);
    assert(spec_penalized(p, evs, hs) == pen);
    assert(spec_ratio_adjusted(p, evs, hs) == pen * 11 / 10);
    assert(spec_bonused(p, evs, hs) == pen * 11 / 10);
    assert(pen * 11 / 10 <= 288949) by (nonlinear_arith)
        requires
            0 <= pen <= 262681,
    ;
    assert(spec_score(p, evs, hs) <= 288949);
}

/// A provider's score is zero exactly when its evidence contributes
/// nothing: an empty bucket scores zero, and a non-empty bucket of
/// confidences of at least one percent scores positive when no
/// contradiction pattern matched.
pub proof fn lemma_score_zero_iff_empty(
    provider: Seq<char>,
    evs: Seq<EvidenceV>,
    hs: Seq<(Seq<char>, Seq<char>)>,
)
    requires
        all_evidence_wf(evs),
        forall|i: int| 0 <= i < evs.len() ==> (#[trigger] evs[i]).confidence >= 10000,
        neg_count(spec_neg_patterns(provider), header_names(hs)) == 0,
    ensures
        evs.len() == 0 ==> spec_score(provider, evs, hs) == 0,
        evs.len() > 0 ==> spec_score(provider, evs, hs) > 0,
{
    reveal(spec_score);
    lemma_total_bounds(evs);
    let t = total_of(evs);
    if evs.len() == 0 {
        assert(t == 0);
        assert(spec_penalized(provider, evs, hs) == 0);
        assert(cat_total(evs, EvidenceCategory::Headers) == 0);
        assert(cat_total(evs, EvidenceCategory::Body) == 0);
        assert(nonzero_categories(evs) == 0);
        assert(spec_bonused(provider, evs, hs) == 0);
    } else {
        let e = evs.last();
        lemma_weight_wf(e);
        let wt = weight_of(e);
        assert(wt.base_weight >= 550000 && wt.specificity >= 450000 && wt.reliability
            >= 600000);
        let b = wt.base_weight as int;
        let sp = wt.specificity as int;
        let rel = wt.reliability as int;
        assert(b * sp >= 550000 * 450000) by (nonlinear_arith)
            requires
                b >= 550000,
                sp >= 450000,
        ;
        let p1 = b * sp / 1000000;
        assert(p1 >= 247500);
        assert(p1 * rel >= 247500 * 600000) by (nonlinear_arith)
            requires
                p1 >= 247500,
                rel >= 600000,
        ;
        let p2 = p1 * rel / 1000000;
        assert(p2 >= 148500);
        let c = e.confidence as int;
        assert(c * p2 >= 10000 * 148500) by (nonlinear_arith)
            requires
                c >= 10000,
                p2 >= 148500,
        ;
        assert(contribution(e) >= 1485);
        assert(all_evidence_wf(evs.drop_last())) by {
            assert(forall|i: int|
                0 <= i < evs.drop_last().len() ==> evs.drop_last()[i] == evs[i]);
        }
        lemma_total_bounds(evs.drop_last());
        assert(t >= 1485);
        assert(spec_penalized(provider, evs, hs) == t);
        let t2 = spec_ratio_adjusted(provider, evs, hs);
        assert(t2 >= t * 8 / 10 || t2 >= t);
        assert(t2 >= 1188);
        assert(spec_bonused(provider, evs, hs) >= t2);
        assert(spec_score(provider, evs, hs) > 0);
    }
}

impl View for EvidenceCategory {
    type V = EvidenceCategory;

    open spec fn view(&self) -> EvidenceCategory {
        *self
    }
}

impl DeepView for EvidenceCategory {
    type V = EvidenceCategory;

    open spec fn deep_view(&self) -> EvidenceCategory {
        *self
    }
}

impl AdvancedScoring {
    pub fn new() -> (s: Self)
        ensures
            s.confidence_thresholds == (ConfidenceThresholds {
                minimum: 600000u64,
                high: 900000u64,
                very_high: 950000u64,
                absolute: 980000u64,
            }),
    {
        AdvancedScoring {
            confidence_thresholds: ConfidenceThresholds {
                minimum: 600000,
                high: 900000,
                very_high: 950000,
                absolute: 980000,
            },
        }
    }

    /// The published weight table, keyed by signature id.
    pub fn weight_for(sig: &str) -> (r: Option<EvidenceWeight>)
        ensures
            r == spec_weight_for(sig@),
    {
        if str_eq(sig, "cf-ray-header") {
            Some(EvidenceWeight {
                base_weight: 950000,
                specificity: 980000,
                reliability: 990000,
                category: EvidenceCategory::Headers,
            })
        } else if str_eq(sig, "cf-cache-status-header") {
            Some(EvidenceWeight {
                base_weight: 900000,
                specificity: 950000,
                reliability: 950000,
                category: EvidenceCategory::Headers,
            })
        } else if str_eq(sig, "cloudflare-server-header") {
            Some(EvidenceWeight {
                base_weight: 850000,
                specificity: 900000,
                reliability: 920000,
                category: EvidenceCategory::Server,
            })
        } else if str_eq(sig, "cf-challenge-body") {
            Some(EvidenceWeight {
                base_weight: 700000,
                specificity: 600000,
                reliability: 750000,
                category: EvidenceCategory::Body,
            })
        } else if str_eq(sig, "cf-error-body") {
            Some(EvidenceWeight {
                base_weight: 650000,
                specificity: 550000,
                reliability: 700000,
                category: EvidenceCategory::Body,
            })
        } else if str_eq(sig, "cf-js-body") {
            Some(EvidenceWeight {
                base_weight: 600000,
                specificity: 500000,
                reliability: 650000,
                category: EvidenceCategory::Body,
            })
        } else if str_eq(sig, "cf-connecting-ip-header") {
            Some(EvidenceWeight {
                base_weight: 800000,
                specificity: 850000,
                reliability: 900000,
                category: EvidenceCategory::Headers,
            })
        } else if str_eq(sig, "cf-ipcountry-header") {
            Some(EvidenceWeight {
                base_weight: 750000,
                specificity: 800000,
                reliability: 850000,
                category: EvidenceCategory::Headers,
            })
        } else if str_eq(sig, "cf-visitor-header") {
            Some(EvidenceWeight {
                base_weight: 750000,
                specificity: 800000,
                reliability: 850000,
                category: EvidenceCategory::Headers,
            })
        } else if str_eq(sig, "cf-request-id-header") {
            Some(EvidenceWeight {
                base_weight: 850000,
                specificity: 900000,
                reliability: 920000,
                category: EvidenceCategory::Headers,
            })
        } else if str_eq(sig, "cf-403-status") {
            Some(EvidenceWeight {
                base_weight: 750000,
                specificity: 700000,
                reliability: 800000,
                category: EvidenceCategory::StatusCode,
            })
        } else if str_eq(sig, "cf-429-status") {
            Some(EvidenceWeight {
                base_weight: 800000,
                specificity: 750000,
                reliability: 850000,
                category: EvidenceCategory::StatusCode,
            })
        } else if str_eq(sig, "x-amz-cf-id-header") {
            Some(EvidenceWeight {
                base_weight: 950000,
                specificity: 990000,
                reliability: 980000,
                category: EvidenceCategory::Headers,
            })
        } else if str_eq(sig, "x-amz-cf-pop-header") {
            Some(EvidenceWeight {
                base_weight: 900000,
                specificity: 950000,
                reliability: 960000,
                category: EvidenceCategory::Headers,
            })
        } else if str_eq(sig, "cloudfront-server-header") {
            Some(EvidenceWeight {
                base_weight: 880000,
                specificity: 920000,
                reliability: 940000,
                category: EvidenceCategory::Server,
            })
        } else if str_eq(sig, "cloudfront-via-header") {
            Some(EvidenceWeight {
                base_weight: 850000,
                specificity: 880000,
                reliability: 900000,
                category: EvidenceCategory::Headers,
            })
        } else if str_eq(sig, "cloudfront-cache-pattern") {
            Some(EvidenceWeight {
                base_weight: 850000,
                specificity: 880000,
                reliability: 900000,
                category: EvidenceCategory::Headers,
            })
        } else if str_eq(sig, "fastly-via-pattern") {
            Some(EvidenceWeight {
                base_weight: 750000,
                specificity: 700000,
                reliability: 800000,
                category: EvidenceCategory::Headers,
            })
        } else if str_eq(sig, "akamai-grn-header") {
            Some(EvidenceWeight {
                base_weight: 920000,
                specificity: 960000,
                reliability: 950000,
                category: EvidenceCategory::Headers,
            })
        } else if str_eq(sig, "x-akamai-header") {
            Some(EvidenceWeight {
                base_weight: 900000,
                specificity: 940000,
                reliability: 930000,
                category: EvidenceCategory::Headers,
            })
        } else if str_eq(sig, "fastly-header") {
            Some(EvidenceWeight {
                base_weight: 900000,
                specificity: 930000,
                reliability: 920000,
                category: EvidenceCategory::Headers,
            })
        } else if str_eq(sig, "x-served-by-fastly") {
            Some(EvidenceWeight {
                base_weight: 880000,
                specificity: 900000,
                reliability: 890000,
                category: EvidenceCategory::Headers,
            })
        } else if str_eq(sig, "x-vercel-id-header") {
            Some(EvidenceWeight {
                base_weight: 950000,
                specificity: 980000,
                reliability: 960000,
                category: EvidenceCategory::Headers,
            })
        } else if str_eq(sig, "vercel-server-header") {
            Some(EvidenceWeight {
                base_weight: 900000,
                specificity: 950000,
                reliability: 930000,
                category: EvidenceCategory::Server,
            })
        } else if str_eq(sig, "timing-waf-delay") {
            Some(EvidenceWeight {
                base_weight: 850000,
                specificity: 900000,
                reliability: 880000,
                category: EvidenceCategory::Behavioral,
            })
        } else if str_eq(sig, "timing-pattern-analysis") {
            Some(EvidenceWeight {
                base_weight: 800000,
                specificity: 850000,
                reliability: 820000,
                category: EvidenceCategory::Behavioral,
            })
        } else if str_eq(sig, "timing-baseline-comparison") {
            Some(EvidenceWeight {
                base_weight: 830000,
                specificity: 870000,
                reliability: 850000,
                category: EvidenceCategory::Behavioral,
            })
        } else if str_eq(sig, "dns-cname-cloudflare") {
            Some(EvidenceWeight {
                base_weight: 980000,
                specificity: 990000,
                reliability: 980000,
                category: EvidenceCategory::Network,
            })
        } else if str_eq(sig, "dns-cname-aws") {
            Some(EvidenceWeight {
                base_weight: 980000,
                specificity: 990000,
                reliability: 980000,
                category: EvidenceCategory::Network,
            })
        } else if str_eq(sig, "dns-cname-fastly") {
            Some(EvidenceWeight {
                base_weight: 980000,
                specificity: 990000,
                reliability: 980000,
                category: EvidenceCategory::Network,
            })
        } else if str_eq(sig, "dns-cname-akamai") {
            Some(EvidenceWeight {
                base_weight: 980000,
                specificity: 990000,
                reliability: 980000,
                category: EvidenceCategory::Network,
            })
        } else if str_eq(sig, "dns-cname-vercel") {
            Some(EvidenceWeight {
                base_weight: 990000,
                specificity: 990000,
                reliability: 980000,
                category: EvidenceCategory::Network,
            })
        } else if str_eq(sig, "dns-cname-keycdn") {
            Some(EvidenceWeight {
                base_weight: 980000,
                specificity: 990000,
                reliability: 980000,
                category: EvidenceCategory::Network,
            })
        } else if str_eq(sig, "dns-cname-maxcdn") {
            Some(EvidenceWeight {
                base_weight: 980000,
                specificity: 990000,
                reliability: 980000,
                category: EvidenceCategory::Network,
            })
        } else if str_eq(sig, "payload_detection_cloudflare") {
            Some(EvidenceWeight {
                base_weight: 800000,
                specificity: 850000,
                reliability: 750000,
                category: EvidenceCategory::Behavioral,
            })
        } else if str_eq(sig, "payload_detection_aws_waf") {
            Some(EvidenceWeight {
                base_weight: 800000,
                specificity: 850000,
                reliability: 750000,
                category: EvidenceCategory::Behavioral,
            })
        } else if str_eq(sig, "payload_detection_akamai") {
            Some(EvidenceWeight {
                base_weight: 800000,
                specificity: 850000,
                reliability: 750000,
                category: EvidenceCategory::Behavioral,
            })
        } else if str_eq(sig, "payload_detection_generic_waf") {
            Some(EvidenceWeight {
                base_weight: 700000,
                specificity: 700000,
                reliability: 650000,
                category: EvidenceCategory::Behavioral,
            })
        } else if str_eq(sig, "blocked_xss_payload") {
            Some(EvidenceWeight {
                base_weight: 750000,
                specificity: 800000,
                reliability: 700000,
                category: EvidenceCategory::Behavioral,
            })
        } else if str_eq(sig, "blocked_sqlinjection_payload") {
            Some(EvidenceWeight {
                base_weight: 750000,
                specificity: 800000,
                reliability: 700000,
                category: EvidenceCategory::Behavioral,
            })
        } else if str_eq(sig, "blocked_commandinjection_payload") {
            Some(EvidenceWeight {
                base_weight: 780000,
                specificity: 820000,
                reliability: 720000,
                category: EvidenceCategory::Behavioral,
            })
        } else if str_eq(sig, "blocked_pathtraversal_payload") {
            Some(EvidenceWeight {
                base_weight: 770000,
                specificity: 810000,
                reliability: 710000,
                category: EvidenceCategory::Behavioral,
            })
        } else {
            None
        }
    }

    /// The fallback weight for a signature the table does not know.
    pub fn fallback_weight(method: &crate::DetectionMethod) -> (r: EvidenceWeight)
        ensures
            r == spec_fallback_weight(method@),
    {
        match method {
            crate::DetectionMethod::Header(_) => EvidenceWeight {
                base_weight: 850000,
                specificity: 800000,
                reliability: 900000,
                category: EvidenceCategory::Headers,
            },
            crate::DetectionMethod::StatusCode(_) => EvidenceWeight {
                base_weight: 750000,
                specificity: 650000,
                reliability: 750000,
                category: EvidenceCategory::StatusCode,
            },
            crate::DetectionMethod::Body(_) => EvidenceWeight {
                base_weight: 550000,
                specificity: 450000,
                reliability: 600000,
                category: EvidenceCategory::Body,
            },
            crate::DetectionMethod::Timing => EvidenceWeight {
                base_weight: 600000,
                specificity: 500000,
                reliability: 650000,
                category: EvidenceCategory::Behavioral,
            },
            crate::DetectionMethod::DNS(_) => EvidenceWeight {
                base_weight: 700000,
                specificity: 600000,
                reliability: 750000,
                category: EvidenceCategory::Network,
            },
            crate::DetectionMethod::Certificate => EvidenceWeight {
                base_weight: 750000,
                specificity: 700000,
                reliability: 800000,
                category: EvidenceCategory::Network,
            },
            crate::DetectionMethod::Payload => EvidenceWeight {
                base_weight: 800000,
                specificity: 850000,
                reliability: 750000,
                category: EvidenceCategory::Behavioral,
            },
        }
    }

    /// The weight used for one evidence: the table entry for its signature,
    /// or the method-derived fallback.
    pub fn evidence_weight(e: &Evidence) -> (r: EvidenceWeight)
        ensures
            r == weight_of(e@),
    {
        match Self::weight_for(e.signature_matched.as_str()) {
            Some(wt) => wt,
            None => Self::fallback_weight(&e.method_type),
        }
    }

    /// The contradiction patterns held against a provider.
    pub fn neg_patterns(provider: &str) -> (r: Vec<String>)
        ensures
            r.deep_view() == spec_neg_patterns(provider@),
    {
        let mut v: Vec<String> = Vec::new();
        if str_eq(provider, "CloudFlare") {
            v.push(String::from_str("x-amz-cf-id"));
            v.push(String::from_str("x-amz-cf-pop"));
            v.push(String::from_str("cloudfront"));
            v.push(String::from_str("akamai-grn"));
            v.push(String::from_str("x-akamai-transformed"));
        } else if str_eq(provider, "AWS") {
            v.push(String::from_str("cf-ray"));
            v.push(String::from_str("cf-cache-status"));
        }
        proof {
            assert(v.deep_view() =~= spec_neg_patterns(provider@));
        }
        v
    }

    /// Whether some evidence carries the given signature id.
    fn has_sig_ex(evidence: &Vec<Evidence>, sig: &str) -> (r: bool)
        ensures
            r == has_sig(evidence.deep_view(), sig@),
    {
        let n: usize = evidence.len();
        let mut i: usize = 0;
        while i < n
            invariant
                n == evidence.len(),
                i <= n,
                forall|j: int|
                    0 <= j < i ==> #[trigger] evidence.deep_view()[j].signature_matched != sig@,
            decreases n - i,
        {
            if str_eq(evidence[i].signature_matched.as_str(), sig) {
                proof {
                    assert(evidence.deep_view()[i as int].signature_matched == sig@);
                }
                return true;
            }
            i = i + 1;
        }
        false
    }

    /// High-value signatures still missing from a provider's evidence.
    pub fn suggest_missing_evidence(&self, provider: &str, evidence: &Vec<Evidence>) -> (r: Vec<
        String,
    >)
        ensures
            r.deep_view() == spec_missing(provider@, evidence.deep_view()),
    {
        let mut v: Vec<String> = Vec::new();
        if str_eq(provider, "CloudFlare") {
            if !Self::has_sig_ex(evidence, "cf-ray-header") {
                v.push(String::from_str("CF-Ray header (highest confidence)"));
            }
            if !Self::has_sig_ex(evidence, "cf-cache-status-header") {
                v.push(String::from_str("CF-Cache-Status header"));
            }
        } else if str_eq(provider, "AWS") {
            if !Self::has_sig_ex(evidence, "x-amz-cf-id-header") {
                v.push(String::from_str("X-Amz-Cf-Id header (CloudFront ID)"));
            }
            if !Self::has_sig_ex(evidence, "x-amz-cf-pop-header") {
                v.push(String::from_str("X-Amz-Cf-Pop header (Point of Presence)"));
            }
        } else if str_eq(provider, "Akamai") {
            if !Self::has_sig_ex(evidence, "akamai-grn-header") {
                v.push(String::from_str("Akamai-GRN header"));
            }
        }
        proof {
            assert(v.deep_view() =~= spec_missing(provider@, evidence.deep_view()));
        }
        v
    }

    /// Scores one provider's evidence bucket against the response headers.
    ///
    /// The result's `score` is exactly `spec_score` of the inputs: the
    /// weighted contribution sum, multiplied by 0.3 for each contradiction
    /// match, adjusted by the category bonuses, and clamped to 1.0.  The
    /// scorer is a pure function of its arguments, so two invocations on
    /// equal inputs return equal scores.
    #[verifier::rlimit(100)]
    #[verifier::spinoff_prover]
    pub fn calculate_confidence(
        &self,
        provider: &str,
        evidence: &Vec<Evidence>,
        response_headers: &Vec<(String, String)>,
    ) -> (r: ConfidenceResult)
        requires
            all_evidence_wf(evidence.deep_view()),
            evidence@.len() <= 0x1_0000_0000,
            response_headers@.len() <= 0x1000_0000,
        ensures
            r.score as int == spec_score(
                provider@,
                evidence.deep_view(),
                response_headers.deep_view(),
            ),
            r.score <= CONF_ONE,
            r.level == spec_level_of(r.score as int),
            r.positive_evidence_count == evidence@.len(),
            r.negative_evidence_count as nat == neg_count(
                spec_neg_patterns(provider@),
                header_names(response_headers.deep_view()),
            ),
            r.missing_evidence.deep_view() == spec_missing(provider@, evidence.deep_view()),
            evidence@.len() == 0 ==> r.score == 0,
            r.evidence_breakdown@.len() == 7,
            r.evidence_breakdown@[0] == (EvidenceCategory::Headers, cat_total_u64(evidence.deep_view(), EvidenceCategory::Headers)),
            r.evidence_breakdown@[1] == (EvidenceCategory::Server, cat_total_u64(evidence.deep_view(), EvidenceCategory::Server)),
            r.evidence_breakdown@[2] == (EvidenceCategory::Body, cat_total_u64(evidence.deep_view(), EvidenceCategory::Body)),
            r.evidence_breakdown@[3] == (EvidenceCategory::StatusCode, cat_total_u64(evidence.deep_view(), EvidenceCategory::StatusCode)),
            r.evidence_breakdown@[4] == (EvidenceCategory::Behavioral, cat_total_u64(evidence.deep_view(), EvidenceCategory::Behavioral)),
            r.evidence_breakdown@[5] == (EvidenceCategory::ErrorPage, cat_total_u64(evidence.deep_view(), EvidenceCategory::ErrorPage)),
            r.evidence_breakdown@[6] == (EvidenceCategory::Network, cat_total_u64(evidence.deep_view(), EvidenceCategory::Network)),
    {
        let ghost evs = evidence.deep_view();
        let ghost hs = response_headers.deep_view();
        let n: usize = evidence.len();

        // Contribution sum and per-category subtotals.
        let mut total: u64 = 0;
        let mut sub_headers: u64 = 0;
        let mut sub_server: u64 = 0;
        let mut sub_body: u64 = 0;
        let mut sub_status: u64 = 0;
        let mut sub_behavioral: u64 = 0;
        let mut sub_errorpage: u64 = 0;
        let mut sub_network: u64 = 0;
        let mut i: usize = 0;
        proof {
            assert(evs.take(0) =~= Seq::<EvidenceV>::empty());
        }
        while i < n
            invariant
                n == evidence.len(),
                evs == evidence.deep_view(),
                all_evidence_wf(evs),
                n <= 0x1_0000_0000,
                i <= n,
                total == total_of(evs.take(i as int)),
                total <= i * 1000000,
                sub_headers == cat_total(evs.take(i as int), EvidenceCategory::Headers),
                sub_server == cat_total(evs.take(i as int), EvidenceCategory::Server),
                sub_body == cat_total(evs.take(i as int), EvidenceCategory::Body),
                sub_status == cat_total(evs.take(i as int), EvidenceCategory::StatusCode),
                sub_behavioral == cat_total(evs.take(i as int), EvidenceCategory::Behavioral),
                sub_errorpage == cat_total(evs.take(i as int), EvidenceCategory::ErrorPage),
                sub_network == cat_total(evs.take(i as int), EvidenceCategory::Network),
                sub_headers <= total,
                sub_server <= total,
                sub_body <= total,
                sub_status <= total,
                sub_behavioral <= total,
                sub_errorpage <= total,
                sub_network <= total,
            decreases n - i,
        {
            let e = &evidence[i];
            proof {
                assert(e@ == evs[i as int]);
                assert(evidence_wf(evs[i as int]));
                lemma_weight_wf(evs[i as int]);
            }
            let wt = Self::evidence_weight(e);
            let p1: u64 = wt.base_weight * wt.specificity / 1000000;
            let wprod: u64 = p1 * wt.reliability / 1000000;
            proof {
                assert(0 <= wt.base_weight * wt.specificity <= 1000000 * 1000000)
                    by (nonlinear_arith)
                    requires
                        wt.base_weight <= 1000000,
                        wt.specificity <= 1000000,
                ;
                assert(0 <= p1 * wt.reliability <= 1000000 * 1000000) by (nonlinear_arith)
                    requires
                        p1 <= 1000000,
                        wt.reliability <= 1000000,
                ;
            }
            proof {
                assert(wprod <= 1000000);
                assert(0 <= e.confidence * wprod <= 1000000 * 1000000) by (nonlinear_arith)
                    requires
                        e.confidence <= 1000000,
                        wprod <= 1000000,
                ;
            }
            let score_part: u64 = e.confidence * wprod / 1000000;
            proof {
                assert(score_part as int == contribution(evs[i as int]));
                assert(score_part <= 1000000);
            }
            total = total + score_part;
            match wt.category {
                EvidenceCategory::Headers => { sub_headers = sub_headers + score_part },
                EvidenceCategory::Server => { sub_server = sub_server + score_part },
                EvidenceCategory::Body => { sub_body = sub_body + score_part },
                EvidenceCategory::StatusCode => { sub_status = sub_status + score_part },
                EvidenceCategory::Behavioral => { sub_behavioral = sub_behavioral + score_part },
                EvidenceCategory::ErrorPage => { sub_errorpage = sub_errorpage + score_part },
                EvidenceCategory::Network => { sub_network = sub_network + score_part },
            }
            i = i + 1;
            proof {
                let cur = evs.take(i as int);
                assert(cur.drop_last() =~= evs.take(i - 1));
                assert(cur.last() == evs[i - 1]);
            }
        }
        proof {
            assert(evs.take(n as int) =~= evs);
        }
        let ghost unpenalized: int = total as int;
        let positive_evidence_count: usize = n;

        // Contradiction penalty: each matched (pattern, header-name) pair
        // multiplies the running total by 0.3.
        let pats = Self::neg_patterns(provider);
        let ghost patsv = spec_neg_patterns(provider@);
        let ghost names = header_names(hs);
        let np: usize = pats.len();
        let nh: usize = response_headers.len();
        let mut negative_evidence_count: usize = 0;
        let mut pi: usize = 0;
        proof {
            assert(patsv.take(0) =~= Seq::<Seq<char>>::empty());
        }
        while pi < np
            invariant
                np == pats.len(),
                nh == response_headers.len(),
                pats.deep_view() == patsv,
                hs == response_headers.deep_view(),
                names == header_names(hs),
                patsv.len() <= 5,
                nh <= 0x1000_0000,
                pi <= np,
                negative_evidence_count as nat == neg_count(patsv.take(pi as int), names),
                negative_evidence_count <= pi * nh,
                total as int == penalize(unpenalized, neg_count(patsv.take(pi as int), names)),
                0 <= unpenalized,
                unpenalized <= 0x1_0000_0000 * 1000000,
                total <= unpenalized,
            decreases np - pi,
        {
            proof {
                assert(pats.deep_view()[pi as int] == patsv[pi as int]);
                assert(pats[pi as int]@ == patsv[pi as int]);
            }
            let pat_lower = to_lower(pats[pi].as_str());
            let mut hi: usize = 0;
            proof {
                assert(names.take(0) =~= Seq::<Seq<char>>::empty());
            }
            while hi < nh
                invariant
                    np == pats.len(),
                    nh == response_headers.len(),
                    pats.deep_view() == patsv,
                    hs == response_headers.deep_view(),
                    names == header_names(hs),
                    patsv.len() <= 5,
                    nh <= 0x1000_0000,
                    pi < np,
                    pats[pi as int]@ == patsv[pi as int],
                    pat_lower@ == lower_seq(patsv[pi as int]),
                    hi <= nh,
                    negative_evidence_count as nat == neg_count(patsv.take(pi as int), names)
                        + one_pattern_matches(patsv[pi as int], names.take(hi as int)),
                    negative_evidence_count <= pi * nh + hi,
                    total as int == penalize(
                        unpenalized,
                        neg_count(patsv.take(pi as int), names) + one_pattern_matches(
                            patsv[pi as int],
                            names.take(hi as int),
                        ),
                    ),
                    0 <= unpenalized,
                    unpenalized <= 0x1_0000_0000 * 1000000,
                    total <= unpenalized,
                decreases nh - hi,
            {
                proof {
                    assert(response_headers.deep_view()[hi as int] == hs[hi as int]);
                    assert(response_headers[hi as int].deep_view() == hs[hi as int]);
                    assert(response_headers[hi as int].0@ == hs[hi as int].0);
                    assert(names[hi as int] == hs[hi as int].0);
                }
                let name_lower = to_lower(response_headers[hi].0.as_str());
                if str_contains(name_lower.as_str(), pat_lower.as_str()) {
                    proof {
                        assert(negative_evidence_count < 0x6000_0000) by (nonlinear_arith)
                            requires
                                negative_evidence_count <= pi * nh + hi,
                                pi < 5,
                                nh <= 0x1000_0000,
                                hi < nh,
                        ;
                    }
                    negative_evidence_count = negative_evidence_count + 1;
                    total = total * 3 / 10;
                }
                hi = hi + 1;
                proof {
                    let cur = names.take(hi as int);
                    assert(cur.drop_last() =~= names.take(hi - 1));
                    assert(cur.last() == names[hi - 1]);
                }
            }
            pi = pi + 1;
            proof {
                assert(names.take(nh as int) =~= names);
                let cur = patsv.take(pi as int);
                assert(cur.drop_last() =~= patsv.take(pi - 1));
                assert(cur.last() == patsv[pi - 1]);
                assert(pi * nh == (pi - 1) * nh + nh) by (nonlinear_arith);
            }
        }
        proof {
            assert(patsv.take(np as int) =~= patsv);
            assert(total as int == spec_penalized(provider@, evs, hs));
        }

        // Category bonuses and penalties over the penalised total.
        proof {
            assert(unpenalized <= 0x1_0000_0000 * 1000000int);
        }
        let t1: u64 = if 10 * sub_headers > 7 * total {
            total * 11 / 10
        } else {
            total
        };
        let t2: u64 = if 2 * sub_body > total && 10 * sub_headers < 3 * total {
            t1 * 8 / 10
        } else {
            t1
        };
        let mut nz: u64 = 0;
        if sub_headers > 0 {
            nz = nz + 1;
        }
        if sub_server > 0 {
            nz = nz + 1;
        }
        if sub_body > 0 {
            nz = nz + 1;
        }
        if sub_status > 0 {
            nz = nz + 1;
        }
        if sub_behavioral > 0 {
            nz = nz + 1;
        }
        if sub_errorpage > 0 {
            nz = nz + 1;
        }
        if sub_network > 0 {
            nz = nz + 1;
        }
        proof {
            assert(nz as int == nonzero_categories(evs));
        }
        let t3: u64 = if nz >= 3 {
            t2 * 21 / 20
        } else {
            t2
        };
        proof {
            assert(t3 as int == spec_bonused(provider@, evs, hs));
        }
        let score: u64 = if t3 > CONF_ONE {
            CONF_ONE
        } else {
            t3
        };
        proof {
            reveal(spec_score);
            assert(score as int == spec_score(provider@, evs, hs));
        }

        let level = if score >= 980000 {
            ConfidenceLevel::Absolute
        } else if score >= 950000 {
            ConfidenceLevel::NearCertain
        } else if score >= 900000 {
            ConfidenceLevel::VeryHigh
        } else if score >= 800000 {
            ConfidenceLevel::High
        } else if score >= 600000 {
            ConfidenceLevel::Moderate
        } else if score >= 200000 {
            ConfidenceLevel::Low
        } else {
            ConfidenceLevel::NoConfidence
        };

        let mut evidence_breakdown: Vec<(EvidenceCategory, u64)> = Vec::new();
        evidence_breakdown.push((EvidenceCategory::Headers, sub_headers));
        evidence_breakdown.push((EvidenceCategory::Server, sub_server));
        evidence_breakdown.push((EvidenceCategory::Body, sub_body));
        evidence_breakdown.push((EvidenceCategory::StatusCode, sub_status));
        evidence_breakdown.push((EvidenceCategory::Behavioral, sub_behavioral));
        evidence_breakdown.push((EvidenceCategory::ErrorPage, sub_errorpage));
        evidence_breakdown.push((EvidenceCategory::Network, sub_network));

        let missing_evidence = self.suggest_missing_evidence(provider, evidence);

        let mut explanation = String::from_str("Confidence analysis for ");
        append_str(&mut explanation, provider);
        append_str(&mut explanation, ": score ");
        let score_str = u64_to_string(score);
        append_str(&mut explanation, score_str.as_str());
        append_str(&mut explanation, " micro units; positive evidence ");
        let pos_str = u64_to_string(positive_evidence_count as u64);
        append_str(&mut explanation, pos_str.as_str());
        append_str(&mut explanation, "; negative evidence ");
        let neg_str = u64_to_string(negative_evidence_count as u64);
        append_str(&mut explanation, neg_str.as_str());

        ConfidenceResult {
            score,
            level,
            evidence_breakdown,
            positive_evidence_count,
            negative_evidence_count,
            missing_evidence,
            explanation,
        }
    }
}

} // verus!
