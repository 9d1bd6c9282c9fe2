//! Evidence-fusion detection engine for WAFs and CDNs.
//!
//! Given an already-fetched HTTP response (and, optionally, resolved CNAME
//! records, timing measurements and payload-probe outcomes supplied by the
//! caller), the library runs provider signature matching, fuses the gathered
//! evidence into calibrated per-provider confidence scores, and selects the
//! best-matching WAF and CDN providers.
//!
//! All confidences and scores are fixed-point integers in micro units:
//! `1_000_000` stands for a confidence of 1.0.

use vstd::prelude::*;

pub mod confidence;
pub mod dns;
pub mod engine;
pub mod evasion;
pub mod http;
pub mod outside;
pub mod payload;
pub mod providers;
pub mod registry;
pub mod scoring;
pub mod signatures;
pub mod smoke;
pub mod tally;
pub mod text;
pub mod timing;
pub mod utils;
pub mod waf_mode;

verus! {

/// One unit of confidence: scores and confidences live in `0 ..= CONF_ONE`.
pub const CONF_ONE: u64 = 1_000_000;

/// Kind of service a provider offers.
#[derive(Debug, Clone, PartialEq, Eq, Structural)]
pub enum ProviderType {
    WAF,
    CDN,
    Both,
}

/// How a piece of evidence was observed.
#[derive(Debug, Clone, PartialEq)]
pub enum DetectionMethod {
    Header(String),
    Body(String),
    StatusCode(u16),
    DNS(String),
    Timing,
    Certificate,
    Payload,
}

/// Mathematical model of a `DetectionMethod`.
pub enum MethodV {
    Header(Seq<char>),
    Body(Seq<char>),
    StatusCode(u16),
    DNS(Seq<char>),
    Timing,
    Certificate,
    Payload,
}

impl View for DetectionMethod {
    type V = MethodV;

    open spec fn view(&self) -> MethodV {
        match self {
            DetectionMethod::Header(s) => MethodV::Header(s@),
            DetectionMethod::Body(s) => MethodV::Body(s@),
            DetectionMethod::StatusCode(c) => MethodV::StatusCode(*c),
            DetectionMethod::DNS(s) => MethodV::DNS(s@),
            DetectionMethod::Timing => MethodV::Timing,
            DetectionMethod::Certificate => MethodV::Certificate,
            DetectionMethod::Payload => MethodV::Payload,
        }
    }
}

impl DeepView for DetectionMethod {
    type V = MethodV;

    open spec fn deep_view(&self) -> MethodV {
        self.view()
    }
}

/// One observation supporting a provider hypothesis.
#[derive(Debug, Clone)]
pub struct Evidence {
    pub method_type: DetectionMethod,
    /// Local certainty of the observer, in micro units.
    pub confidence: u64,
    pub description: String,
    /// The exact value that matched.
    pub raw_data: String,
    /// Stable identifier keyed by the signature library.
    pub signature_matched: String,
}

/// Mathematical model of an `Evidence`.
pub struct EvidenceV {
    pub method_type: MethodV,
    pub confidence: u64,
    pub description: Seq<char>,
    pub raw_data: Seq<char>,
    pub signature_matched: Seq<char>,
}

impl View for Evidence {
    type V = EvidenceV;

    open spec fn view(&self) -> EvidenceV {
        EvidenceV {
            method_type: self.method_type@,
            confidence: self.confidence,
            description: self.description@,
            raw_data: self.raw_data@,
            signature_matched: self.signature_matched@,
        }
    }
}

impl DeepView for Evidence {
    type V = EvidenceV;

    open spec fn deep_view(&self) -> EvidenceV {
        self.view()
    }
}

/// Everything a detection run works from: the URL, the fetched response if
/// the probe succeeded, optional resolver output, and the user agent used.
#[derive(Debug, Clone)]
pub struct DetectionContext {
    pub url: String,
    pub response: Option<http::HttpResponse>,
    pub dns_info: Option<DnsInfo>,
    pub user_agent: String,
}

/// Resolver output handed in by the caller.
#[derive(Debug, Clone)]
pub struct DnsInfo {
    pub ip_addresses: Vec<String>,
    pub nameservers: Vec<String>,
}

/// A provider selected for one of the two result slots.
#[derive(Debug, Clone)]
pub struct ProviderDetection {
    pub name: String,
    /// Final fused score, in micro units.
    pub confidence: u64,
}

/// Run metadata: when the detection ran and what it sent.
#[derive(Debug, Clone)]
pub struct DetectionMetadata {
    /// RFC 3339 timestamp of the run.
    pub timestamp: String,
    pub version: String,
    pub user_agent: String,
}

/// Final output for one URL: the winning WAF and CDN providers, every
/// provider's fused score, and the evidence each source produced.
#[derive(Debug, Clone)]
pub struct DetectionResult {
    pub url: String,
    pub detected_waf: Option<ProviderDetection>,
    pub detected_cdn: Option<ProviderDetection>,
    /// One entry per registered provider and synthetic source, in
    /// registration order.
    pub provider_scores: Vec<(String, u64)>,
    /// One entry per registered provider and synthetic source; a source
    /// that observed nothing maps to an empty list, never to a missing key.
    pub evidence_map: Vec<(String, Vec<Evidence>)>,
    pub detection_time_ms: u64,
    pub metadata: DetectionMetadata,
}

/// All evidence of an evidence map, flattened in map order.
pub open spec fn flatten_evidence(em: Seq<(Seq<char>, Seq<EvidenceV>)>) -> Seq<EvidenceV>
    decreases em.len(),
{
    if em.len() == 0 {
        Seq::empty()
    } else {
        flatten_evidence(em.drop_last()) + em.last().1
    }
}

impl DetectionResult {
    pub fn has_waf(&self) -> (r: bool)
        ensures
            r == self.detected_waf is Some,
    {
        self.detected_waf.is_some()
    }

    pub fn has_cdn(&self) -> (r: bool)
        ensures
            r == self.detected_cdn is Some,
    {
        self.detected_cdn.is_some()
    }

    pub fn detected(&self) -> (r: bool)
        ensures
            r == (self.detected_waf is Some || self.detected_cdn is Some),
    {
        self.has_waf() || self.has_cdn()
    }

    pub fn waf_name(&self) -> (r: Option<&str>)
        ensures
            r is Some <==> self.detected_waf is Some,
            r matches Some(s) ==> (self.detected_waf matches Some(d) && s@ == d.name@),
    {
        match &self.detected_waf {
            Some(d) => Some(d.name.as_str()),
            None => None,
        }
    }

    pub fn cdn_name(&self) -> (r: Option<&str>)
        ensures
            r is Some <==> self.detected_cdn is Some,
            r matches Some(s) ==> (self.detected_cdn matches Some(d) && s@ == d.name@),
    {
        match &self.detected_cdn {
            Some(d) => Some(d.name.as_str()),
            None => None,
        }
    }

    pub fn waf_confidence(&self) -> (r: Option<u64>)
        ensures
            r is Some <==> self.detected_waf is Some,
            r matches Some(c) ==> (self.detected_waf matches Some(d) && c == d.confidence),
    {
        match &self.detected_waf {
            Some(d) => Some(d.confidence),
            None => None,
        }
    }

    pub fn cdn_confidence(&self) -> (r: Option<u64>)
        ensures
            r is Some <==> self.detected_cdn is Some,
            r matches Some(c) ==> (self.detected_cdn matches Some(d) && c == d.confidence),
    {
        match &self.detected_cdn {
            Some(d) => Some(d.confidence),
            None => None,
        }
    }

    pub fn analysis_time_ms(&self) -> (r: u64)
        ensures
            r == self.detection_time_ms,
    {
        self.detection_time_ms
    }

    /// All evidence as a flat list, in evidence-map order.
    pub fn evidence(&self) -> (r: Vec<Evidence>)
        ensures
            r.deep_view() == flatten_evidence(self.evidence_map.deep_view()),
    {
        let ghost em = self.evidence_map.deep_view();
        let mut out: Vec<Evidence> = Vec::new();
        let n: usize = self.evidence_map.len();
        let mut i: usize = 0;
        proof {
            assert(em.take(0) =~= Seq::<(Seq<char>, Seq<EvidenceV>)>::empty());
            assert(out.deep_view() =~= flatten_evidence(em.take(0)));
        }
        while i < n
            invariant
                n == self.evidence_map.len(),
                em == self.evidence_map.deep_view(),
                i <= n,
                out.deep_view() == flatten_evidence(em.take(i as int)),
            decreases n - i,
        {
            proof {
                assert(self.evidence_map.deep_view()[i as int] == em[i as int]);
                assert(self.evidence_map[i as int].deep_view() == em[i as int]);
                assert(self.evidence_map[i as int].1.deep_view() == em[i as int].1);
            }
            let bucket = &self.evidence_map[i].1;
            let m: usize = bucket.len();
            let mut j: usize = 0;
            while j < m
                invariant
                    m == bucket.len(),
                    bucket.deep_view() == em[i as int].1,
                    i < n,
                    em == self.evidence_map.deep_view(),
                    j <= m,
                    out.deep_view() == flatten_evidence(em.take(i as int)) + em[i as int].1.take(
                        j as int,
                    ),
                decreases m - j,
            {
                proof {
                    assert(bucket.deep_view()[j as int] == bucket@[j as int].deep_view());
                    assert(bucket.deep_view()[j as int] == em[i as int].1[j as int]);
                }
                let ghost pre = out.deep_view();
                out.push(bucket[j].clone_ev());
                proof {
                    assert(out.deep_view() =~= pre.push(em[i as int].1[j as int]));
                }
                j = j + 1;
                proof {
                    assert(em[i as int].1.take(j as int) =~= em[i as int].1.take(j - 1).push(
                        em[i as int].1[j - 1],
                    ));
                    assert(out.deep_view() =~= flatten_evidence(em.take(i as int)) + em[
                        i as int
                    ].1.take(j as int));
                }
            }
            i = i + 1;
            proof {
                let cur = em.take(i as int);
                assert(cur.drop_last() =~= em.take(i - 1));
                assert(cur.last() == em[i - 1]);
                assert(em[i - 1].1.take(em[i - 1].1.len() as int) =~= em[i - 1].1);
                assert(out.deep_view() =~= flatten_evidence(em.take(i as int)));
            }
        }
        proof {
            assert(em.take(n as int) =~= em);
        }
        out
    }
}

impl Evidence {
    /// A clone carries the same fields.
    pub fn clone_ev(&self) -> (r: Evidence)
        ensures
            r@ == self@,
    {
        Evidence {
            method_type: self.method_type.clone_method(),
            confidence: self.confidence,
            description: self.description.clone(),
            raw_data: self.raw_data.clone(),
            signature_matched: self.signature_matched.clone(),
        }
    }
}

impl DetectionMethod {
    /// A clone carries the same variant and payload.
    pub fn clone_method(&self) -> (r: DetectionMethod)
        ensures
            r@ == self@,
    {
        match self {
            DetectionMethod::Header(s) => DetectionMethod::Header(s.clone()),
            DetectionMethod::Body(s) => DetectionMethod::Body(s.clone()),
            DetectionMethod::StatusCode(c) => DetectionMethod::StatusCode(*c),
            DetectionMethod::DNS(s) => DetectionMethod::DNS(s.clone()),
            DetectionMethod::Timing => DetectionMethod::Timing,
            DetectionMethod::Certificate => DetectionMethod::Certificate,
            DetectionMethod::Payload => DetectionMethod::Payload,
        }
    }
}

/// A single-URL scan request, as a front end hands it over.
#[derive(Debug, Clone)]
pub struct ScanRequest {
    pub url: String,
}

/// A batch scan request.
#[derive(Debug, Clone)]
pub struct BatchScanRequest {
    pub urls: Vec<String>,
    pub workers: Option<usize>,
}

/// An evidence value is well formed when its confidence is a valid
/// probability in micro units.
pub open spec fn evidence_wf(e: EvidenceV) -> bool {
    e.confidence <= CONF_ONE
}

pub open spec fn all_evidence_wf(evs: Seq<EvidenceV>) -> bool {
    forall|i: int| 0 <= i < evs.len() ==> #[trigger] evidence_wf(evs[i])
}

} // verus!
