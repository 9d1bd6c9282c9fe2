//! Fastly CDN/WAF detection provider.

use vstd::prelude::*;
use vstd::string::StringExecFns;
use crate::CONF_ONE;
use crate::DetectionMethod;
use crate::Evidence;
use crate::EvidenceV;
use crate::ProviderType;
use crate::http::HttpResponse;
use crate::http::RespV;
use crate::http::header_lookup;
use crate::http::header_present;
use crate::signatures::header_ev;
use crate::signatures::header_regex_holds;
use crate::signatures::opt_seq;
use crate::signatures::push_opt;
use crate::signatures::sig_header_present;
use crate::signatures::sig_header_regex;
use crate::signatures::status_ev;
use crate::outside::regex_is_match;
use crate::outside::regex_match;
use crate::text::contains_seq;
use crate::text::lower_seq;
use crate::text::str_contains;
use crate::text::to_lower;

verus! {

pub const FASTLY_RESTARTS_PAT: &'static str = "^\\d+$";

pub const FASTLY_VIA_PAT: &'static str = "(?i)1\\.1 varnish";

pub const FASTLY_SERVED_BY_PAT: &'static str = "cache-[a-z]+\\d+-[A-Z]{3}";

pub const FASTLY_CACHE_PAT: &'static str = "(?i)(HIT|MISS|PASS|ERROR)";

pub const FASTLY_TIMING_PAT: &'static str = "S\\d+\\.\\d+,VS\\d+,VE\\d+";

/// Fastly detection provider.
#[derive(Debug)]
pub struct FastlyProvider {
    pub name: String,
    pub version: String,
    pub description: String,
    pub enabled: bool,
}

/// The shared `x-cache` header counts for Fastly only when its value does
/// not carry a CloudFront marker.
pub open spec fn fastly_x_cache_ev(r: RespV) -> Option<EvidenceV> {
    match header_lookup(r.headers, "x-cache"@) {
        Some(v) => if regex_is_match(FASTLY_CACHE_PAT@, v) && !contains_seq(
            lower_seq(v),
            "cloudfront"@,
        ) && !contains_seq(lower_seq(v), "from cloudfront"@) {
            Some(
                header_ev(
                    "x-cache"@,
                    850000,
                    "Fastly cache status header detected"@,
                    v,
                    "fastly-cache-pattern"@,
                ),
            )
        } else {
            None
        },
        None => None,
    }
}

/// All header evidence Fastly's signature list emits on a response.
pub open spec fn fastly_headers_spec(r: RespV) -> Seq<EvidenceV> {
    opt_seq(
        sig_header_regex(
            r,
            "fastly-restarts"@,
            FASTLY_RESTARTS_PAT@,
            980000,
            "Fastly restart counter header detected (definitive signature)"@,
            "fastly-restarts-pattern"@,
        ),
    ) + opt_seq(
        sig_header_regex(
            r,
            "via"@,
            FASTLY_VIA_PAT@,
            900000,
            "Fastly Varnish via header detected"@,
            "fastly-via-pattern"@,
        ),
    ) + opt_seq(
        sig_header_regex(
            r,
            "x-served-by"@,
            FASTLY_SERVED_BY_PAT@,
            950000,
            "Fastly cache node served-by header detected"@,
            "fastly-served-by-pattern"@,
        ),
    ) + opt_seq(fastly_x_cache_ev(r)) + opt_seq(
        sig_header_present(
            r,
            "x-cache-hits"@,
            850000,
            "Fastly cache hits header detected"@,
            "fastly-cache-hits-pattern"@,
        ),
    ) + opt_seq(
        sig_header_regex(
            r,
            "x-timer"@,
            FASTLY_TIMING_PAT@,
            800000,
            "Fastly timing header detected"@,
            "fastly-timing-pattern"@,
        ),
    )
}

/// Body evidence: Fastly error pages name the vendor.
pub open spec fn fastly_body_spec(r: RespV) -> Seq<EvidenceV> {
    if contains_seq(r.body, "Fastly error"@) || contains_seq(r.body, "fastly.com"@) {
        seq![
            EvidenceV {
                method_type: crate::MethodV::Body("fastly-error-page"@),
                confidence: 900000,
                description: "Fastly error page detected in response body"@,
                raw_data: "fastly-error-page-detected"@,
                signature_matched: "fastly-error-page-pattern"@,
            },
        ]
    } else {
        Seq::empty()
    }
}

/// Status-code evidence, gated on definitive Fastly markers.
pub open spec fn fastly_status_spec(r: RespV) -> Seq<EvidenceV> {
    if r.status == 403 && (header_present(r.headers, "fastly-restarts"@) || header_regex_holds(
        r,
        "x-served-by"@,
        FASTLY_SERVED_BY_PAT@,
    )) {
        seq![
            status_ev(
                403,
                800000,
                "Fastly WAF 403 Forbidden response"@,
                "403"@,
                "fastly-403-pattern"@,
            ),
        ]
    } else if r.status == 429 && header_present(r.headers, "fastly-restarts"@) {
        seq![
            status_ev(
                429,
                850000,
                "Fastly rate limiting detected"@,
                "429"@,
                "fastly-429-pattern"@,
            ),
        ]
    } else {
        Seq::empty()
    }
}

/// Everything Fastly's passive inspection emits on a response.
pub open spec fn fastly_passive_spec(r: RespV) -> Seq<EvidenceV> {
    fastly_headers_spec(r) + fastly_body_spec(r) + fastly_status_spec(r)
}

/// Every confidence the Fastly signature list can emit is a valid
/// probability.
pub proof fn lemma_fastly_confidences_wf(r: RespV)
    ensures
        forall|i: int|
            0 <= i < fastly_passive_spec(r).len() ==> #[trigger] fastly_passive_spec(
                r,
            )[i].confidence <= CONF_ONE,
{
}

impl FastlyProvider {
    pub fn new() -> (p: Self)
        ensures
            p.name@ == "Fastly"@,
            p.version@ == "1.0.0"@,
            p.enabled,
    {
        FastlyProvider {
            name: String::from_str("Fastly"),
            version: String::from_str("1.0.0"),
            description: String::from_str(
                "Fastly Next Generation CDN and WAF detection provider",
            ),
            enabled: true,
        }
    }

    pub fn check_headers(&self, resp: &HttpResponse) -> (r: Vec<Evidence>)
        ensures
            r.deep_view() == fastly_headers_spec(resp@),
    {
        let mut ev: Vec<Evidence> = Vec::new();
        push_opt(
            &mut ev,
            resp.check_header_regex(
                "fastly-restarts",
                FASTLY_RESTARTS_PAT,
                980000,
                "Fastly restart counter header detected (definitive signature)",
                "fastly-restarts-pattern",
            ),
        );
        push_opt(
            &mut ev,
            resp.check_header_regex(
                "via",
                FASTLY_VIA_PAT,
                900000,
                "Fastly Varnish via header detected",
                "fastly-via-pattern",
            ),
        );
        push_opt(
            &mut ev,
            resp.check_header_regex(
                "x-served-by",
                FASTLY_SERVED_BY_PAT,
                950000,
                "Fastly cache node served-by header detected",
                "fastly-served-by-pattern",
            ),
        );
        let x_cache_ev: Option<Evidence> = match resp.get_header("x-cache") {
            Some(v) => {
                let low = to_lower(v.as_str());
                if regex_match(FASTLY_CACHE_PAT, v.as_str()) && !str_contains(
                    low.as_str(),
                    "cloudfront",
                ) && !str_contains(low.as_str(), "from cloudfront") {
                    Some(Evidence {
                        method_type: DetectionMethod::Header(String::from_str("x-cache")),
                        confidence: 850000,
                        description: String::from_str("Fastly cache status header detected"),
                        raw_data: v.clone(),
                        signature_matched: String::from_str("fastly-cache-pattern"),
                    })
                } else {
                    None
                }
            },
            None => None,
        };
        proof {
            assert(x_cache_ev.deep_view() == fastly_x_cache_ev(resp@));
        }
        push_opt(&mut ev, x_cache_ev);
        push_opt(
            &mut ev,
            resp.check_header_present(
                "x-cache-hits",
                850000,
                "Fastly cache hits header detected",
                "fastly-cache-hits-pattern",
            ),
        );
        push_opt(
            &mut ev,
            resp.check_header_regex(
                "x-timer",
                FASTLY_TIMING_PAT,
                800000,
                "Fastly timing header detected",
                "fastly-timing-pattern",
            ),
        );
        proof {
            assert(ev.deep_view() =~= fastly_headers_spec(resp@));
        }
        ev
    }

    pub fn check_body_patterns(&self, resp: &HttpResponse) -> (r: Vec<Evidence>)
        ensures
            r.deep_view() == fastly_body_spec(resp@),
    {
        let mut ev: Vec<Evidence> = Vec::new();
        if str_contains(resp.body.as_str(), "Fastly error") || str_contains(
            resp.body.as_str(),
            "fastly.com",
        ) {
            ev.push(Evidence {
                method_type: DetectionMethod::Body(String::from_str("fastly-error-page")),
                confidence: 900000,
                description: String::from_str("Fastly error page detected in response body"),
                raw_data: String::from_str("fastly-error-page-detected"),
                signature_matched: String::from_str("fastly-error-page-pattern"),
            });
        }
        proof {
            assert(ev.deep_view() =~= fastly_body_spec(resp@));
        }
        ev
    }

    pub fn check_status_codes(&self, resp: &HttpResponse) -> (r: Vec<Evidence>)
        ensures
            r.deep_view() == fastly_status_spec(resp@),
    {
        let mut ev: Vec<Evidence> = Vec::new();
        if resp.status == 403 && (resp.has_header("fastly-restarts") || resp.header_regex(
            "x-served-by",
            FASTLY_SERVED_BY_PAT,
        )) {
            ev.push(Evidence {
                method_type: DetectionMethod::StatusCode(403),
                confidence: 800000,
                description: String::from_str("Fastly WAF 403 Forbidden response"),
                raw_data: String::from_str("403"),
                signature_matched: String::from_str("fastly-403-pattern"),
            });
        } else if resp.status == 429 && resp.has_header("fastly-restarts") {
            ev.push(Evidence {
                method_type: DetectionMethod::StatusCode(429),
                confidence: 850000,
                description: String::from_str("Fastly rate limiting detected"),
                raw_data: String::from_str("429"),
                signature_matched: String::from_str("fastly-429-pattern"),
            });
        }
        proof {
            assert(ev.deep_view() =~= fastly_status_spec(resp@));
        }
        ev
    }

    /// Passive detection: headers, then body, then status rules.
    pub fn passive_detect(&self, resp: &HttpResponse) -> (r: Vec<Evidence>)
        ensures
            r.deep_view() == fastly_passive_spec(resp@),
    {
        let mut ev = self.check_headers(resp);
        let mut body = self.check_body_patterns(resp);
        let mut status = self.check_status_codes(resp);
        ev.append(&mut body);
        ev.append(&mut status);
        proof {
            assert(ev.deep_view() =~= fastly_passive_spec(resp@));
        }
        ev
    }

    pub fn provider_type(&self) -> (t: ProviderType)
        ensures
            t == ProviderType::Both,
    {
        ProviderType::Both
    }

    pub fn confidence_base(&self) -> (c: u64)
        ensures
            c == 850000u64,
    {
        850000
    }

    pub fn priority(&self) -> (p: u32)
        ensures
            p == 95u32,
    {
        95
    }
}

impl Clone for FastlyProvider {
    /// A clone carries the same fields.
    fn clone(&self) -> (res: Self)
        ensures
            res == *self,
    {
        FastlyProvider {
            name: self.name.clone(),
            version: self.version.clone(),
            description: self.description.clone(),
            enabled: self.enabled,
        }
    }
}

} // verus!
