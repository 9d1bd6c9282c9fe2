//! Akamai WAF/CDN detection provider.

use vstd::prelude::*;
use vstd::string::StringExecFns;
use crate::CONF_ONE;
use crate::DetectionMethod;
use crate::Evidence;
use crate::EvidenceV;
use crate::ProviderType;
use crate::http::HttpResponse;
use crate::http::RespV;
use crate::signatures::header_ev;
use crate::signatures::opt_seq;
use crate::signatures::push_opt;
use crate::signatures::sig_body_regex;
use crate::signatures::sig_header_present;
use crate::signatures::sig_header_regex;
use crate::signatures::status_ev;
use crate::outside::regex_is_match;
use crate::outside::regex_match;
use crate::text::append_str;
use crate::text::contains_seq;
use crate::text::str_contains;
use crate::text::str_eq;

verus! {

pub const AKAMAI_SERVER_PAT: &'static str = "(?i)akamai";

pub const AKAMAI_CACHE_PAT: &'static str = "\\.akamaitechnologies\\.com";

pub const AKAMAI_REFERENCE_PAT: &'static str = "Reference #\\d+\\.[a-f0-9]+\\.\\d+\\.[a-f0-9]+";

pub const AKAMAI_ERROR_PAGE_PAT: &'static str = "(?i)access denied.*reference #";

pub const AKAMAI_X_HEADER_PAT: &'static str = "^x-akamai-";

/// Akamai detection provider.
#[derive(Debug)]
pub struct AkamaiProvider {
    pub name: String,
    pub version: String,
    pub description: String,
    pub enabled: bool,
}

/// Local confidence of an `x-akamai-*` header, by its exact name.
pub open spec fn akamai_conf_for(name: Seq<char>) -> u64 {
    if name == "x-akamai-request-id"@ {
        950000
    } else if name == "x-akamai-session-info"@ {
        900000
    } else if name == "x-akamai-transformed"@ {
        850000
    } else if name == "x-akamai-edgescape"@ {
        850000
    } else {
        800000
    }
}

/// One evidence per header whose name matches the `x-akamai-` prefix
/// pattern, with a per-name confidence.
pub open spec fn akamai_x_scan(hs: Seq<(Seq<char>, Seq<char>)>) -> Seq<EvidenceV>
    decreases hs.len(),
{
    if hs.len() == 0 {
        Seq::empty()
    } else {
        akamai_x_scan(hs.drop_last()) + (if regex_is_match(AKAMAI_X_HEADER_PAT@, hs.last().0) {
            seq![
                header_ev(
                    hs.last().0,
                    akamai_conf_for(hs.last().0),
                    "Akamai "@ + hs.last().0 + " header detected"@,
                    hs.last().1,
                    "akamai-x-header-pattern"@,
                ),
            ]
        } else {
            Seq::empty()
        })
    }
}

/// Whether some header name starts with the given prefix (case-sensitive).
pub open spec fn any_header_name_prefix(hs: Seq<(Seq<char>, Seq<char>)>, p: Seq<char>) -> bool {
    exists|i: int|
        0 <= i < hs.len() && p.len() <= #[trigger] hs[i].0.len() && hs[i].0.subrange(
            0,
            p.len() as int,
        ) == p
}

/// All header evidence Akamai's signature list emits on a response.
pub open spec fn akamai_headers_spec(r: RespV) -> Seq<EvidenceV> {
    opt_seq(
        sig_header_regex(
            r,
            "server"@,
            AKAMAI_SERVER_PAT@,
            950000,
            "Akamai server header detected"@,
            "akamai-server-pattern"@,
        ),
    ) + opt_seq(
        sig_header_regex(
            r,
            "x-cache"@,
            AKAMAI_CACHE_PAT@,
            900000,
            "Akamai x-cache header detected"@,
            "akamai-cache-pattern"@,
        ),
    ) + opt_seq(
        sig_header_regex(
            r,
            "x-cache-remote"@,
            AKAMAI_CACHE_PAT@,
            900000,
            "Akamai x-cache-remote header detected"@,
            "akamai-cache-pattern"@,
        ),
    ) + akamai_x_scan(r.headers) + opt_seq(
        sig_header_present(
            r,
            "x-check-cacheable"@,
            850000,
            "Akamai cache check header"@,
            "x-check-cacheable-pattern"@,
        ),
    ) + opt_seq(
        sig_header_present(
            r,
            "true-client-ip"@,
            750000,
            "Akamai true client IP header"@,
            "true-client-ip-pattern"@,
        ),
    )
}

/// All body evidence Akamai's signature list emits on a response.
pub open spec fn akamai_body_spec(r: RespV) -> Seq<EvidenceV> {
    opt_seq(
        sig_body_regex(
            r,
            AKAMAI_REFERENCE_PAT@,
            "reference-id-detected"@,
            "reference-id-detected"@,
            900000,
            "Akamai reference ID pattern detected"@,
            "akamai-reference-pattern"@,
        ),
    ) + opt_seq(
        sig_body_regex(
            r,
            AKAMAI_ERROR_PAGE_PAT@,
            "error-page-detected"@,
            "error-page-detected"@,
            900000,
            "Akamai access denied page detected"@,
            "akamai-error-page-pattern"@,
        ),
    ) + (if contains_seq(r.body, "akamai"@) || contains_seq(r.body, "akamaitechnologies"@) {
        seq![
            EvidenceV {
                method_type: crate::MethodV::Body("content-reference-detected"@),
                confidence: 750000,
                description: "Akamai content reference detected"@,
                raw_data: "content-reference-detected"@,
                signature_matched: "akamai-content-pattern"@,
            },
        ]
    } else {
        Seq::empty()
    })
}

/// Status-code evidence, gated on Akamai markers.
pub open spec fn akamai_status_spec(r: RespV) -> Seq<EvidenceV> {
    if r.status == 403 && (any_header_name_prefix(r.headers, "x-akamai-"@) || regex_is_match(
        AKAMAI_REFERENCE_PAT@,
        r.body,
    )) {
        seq![
            status_ev(
                403,
                800000,
                "Akamai 403 Forbidden response"@,
                "403"@,
                "akamai-403-pattern"@,
            ),
        ]
    } else if r.status == 404 && regex_is_match(AKAMAI_REFERENCE_PAT@, r.body) {
        seq![
            status_ev(
                404,
                750000,
                "Akamai 404 Not Found with reference ID"@,
                "404"@,
                "akamai-404-pattern"@,
            ),
        ]
    } else {
        Seq::empty()
    }
}

/// Everything Akamai's passive inspection emits on a response.
pub open spec fn akamai_passive_spec(r: RespV) -> Seq<EvidenceV> {
    akamai_headers_spec(r) + akamai_body_spec(r) + akamai_status_spec(r)
}

/// Every confidence in the header-name scan is a valid probability.
pub proof fn lemma_akamai_scan_wf(hs: Seq<(Seq<char>, Seq<char>)>)
    ensures
        forall|i: int|
            0 <= i < akamai_x_scan(hs).len() ==> #[trigger] akamai_x_scan(
                hs,
            )[i].confidence <= CONF_ONE,
    decreases hs.len(),
{
    if hs.len() > 0 {
        lemma_akamai_scan_wf(hs.drop_last());
    }
}

/// The header-name scan emits at most one evidence per header.
pub proof fn lemma_akamai_scan_len(hs: Seq<(Seq<char>, Seq<char>)>)
    ensures
        akamai_x_scan(hs).len() <= hs.len(),
    decreases hs.len(),
{
    if hs.len() > 0 {
        lemma_akamai_scan_len(hs.drop_last());
    }
}

/// Every confidence the Akamai signature list can emit is a valid
/// probability.
pub proof fn lemma_akamai_confidences_wf(r: RespV)
    ensures
        forall|i: int|
            0 <= i < akamai_passive_spec(r).len() ==> #[trigger] akamai_passive_spec(
                r,
            )[i].confidence <= CONF_ONE,
{
    lemma_akamai_scan_wf(r.headers);
}

impl AkamaiProvider {
    pub fn new() -> (p: Self)
        ensures
            p.name@ == "Akamai"@,
            p.version@ == "1.0.0"@,
            p.enabled,
    {
        AkamaiProvider {
            name: String::from_str("Akamai"),
            version: String::from_str("1.0.0"),
            description: String::from_str(
                "Akamai CDN/WAF detection provider - one of the largest CDN networks globally",
            ),
            enabled: true,
        }
    }

    /// Local confidence of an `x-akamai-*` header, by its exact name.
    fn conf_for(name: &str) -> (c: u64)
        ensures
            c == akamai_conf_for(name@),
    {
        if str_eq(name, "x-akamai-request-id") {
            950000
        } else if str_eq(name, "x-akamai-session-info") {
            900000
        } else if str_eq(name, "x-akamai-transformed") {
            850000
        } else if str_eq(name, "x-akamai-edgescape") {
            850000
        } else {
            800000
        }
    }

    pub fn check_headers(&self, resp: &HttpResponse) -> (r: Vec<Evidence>)
        ensures
            r.deep_view() == akamai_headers_spec(resp@),
    {
        let mut ev: Vec<Evidence> = Vec::new();
        push_opt(
            &mut ev,
            resp.check_header_regex(
                "server",
                AKAMAI_SERVER_PAT,
                950000,
                "Akamai server header detected",
                "akamai-server-pattern",
            ),
        );
        push_opt(
            &mut ev,
            resp.check_header_regex(
                "x-cache",
                AKAMAI_CACHE_PAT,
                900000,
                "Akamai x-cache header detected",
                "akamai-cache-pattern",
            ),
        );
        push_opt(
            &mut ev,
            resp.check_header_regex(
                "x-cache-remote",
                AKAMAI_CACHE_PAT,
                900000,
                "Akamai x-cache-remote header detected",
                "akamai-cache-pattern",
            ),
        );
        let ghost prefix = ev.deep_view();
        let ghost hs = resp@.headers;
        let n: usize = resp.headers.len();
        let mut i: usize = 0;
        proof {
            assert(hs.take(0) =~= Seq::<(Seq<char>, Seq<char>)>::empty());
            assert(ev.deep_view() =~= prefix + akamai_x_scan(hs.take(0)));
        }
        while i < n
            invariant
                n == resp.headers.len(),
                hs == resp@.headers,
                i <= n,
                ev.deep_view() == prefix + akamai_x_scan(hs.take(i as int)),
            decreases n - i,
        {
            proof {
                assert(resp.headers.deep_view()[i as int] == hs[i as int]);
                assert(resp.headers[i as int].deep_view() == hs[i as int]);
                assert(resp.headers[i as int].0@ == hs[i as int].0);
                assert(resp.headers[i as int].1@ == hs[i as int].1);
            }
            let name = &resp.headers[i].0;
            let ghost pre = ev.deep_view();
            if regex_match(AKAMAI_X_HEADER_PAT, name.as_str()) {
                let value = &resp.headers[i].1;
                let conf = Self::conf_for(name.as_str());
                let mut desc = String::from_str("Akamai ");
                append_str(&mut desc, name.as_str());
                append_str(&mut desc, " header detected");
                let e = Evidence {
                    method_type: DetectionMethod::Header(name.clone()),
                    confidence: conf,
                    description: desc,
                    raw_data: value.clone(),
                    signature_matched: String::from_str("akamai-x-header-pattern"),
                };
                proof {
                    assert(e.deep_view() == header_ev(
                        hs[i as int].0,
                        akamai_conf_for(hs[i as int].0),
                        "Akamai "@ + hs[i as int].0 + " header detected"@,
                        hs[i as int].1,
                        "akamai-x-header-pattern"@,
                    ));
                }
                ev.push(e);
                proof {
                    assert(ev.deep_view() =~= pre.push(
                        header_ev(
                            hs[i as int].0,
                            akamai_conf_for(hs[i as int].0),
                            "Akamai "@ + hs[i as int].0 + " header detected"@,
                            hs[i as int].1,
                            "akamai-x-header-pattern"@,
                        ),
                    ));
                }
            }
            i = i + 1;
            proof {
                let cur = hs.take(i as int);
                assert(cur.drop_last() =~= hs.take(i - 1));
                assert(cur.last() == hs[i - 1]);
                assert(ev.deep_view() =~= prefix + akamai_x_scan(cur));
            }
        }
        proof {
            assert(hs.take(n as int) =~= hs);
        }
        push_opt(
            &mut ev,
            resp.check_header_present(
                "x-check-cacheable",
                850000,
                "Akamai cache check header",
                "x-check-cacheable-pattern",
            ),
        );
        push_opt(
            &mut ev,
            resp.check_header_present(
                "true-client-ip",
                750000,
                "Akamai true client IP header",
                "true-client-ip-pattern",
            ),
        );
        proof {
            assert(ev.deep_view() =~= akamai_headers_spec(resp@));
        }
        ev
    }

    pub fn check_body_patterns(&self, resp: &HttpResponse) -> (r: Vec<Evidence>)
        ensures
            r.deep_view() == akamai_body_spec(resp@),
    {
        let mut ev: Vec<Evidence> = Vec::new();
        push_opt(
            &mut ev,
            resp.check_body_regex(
                AKAMAI_REFERENCE_PAT,
                "reference-id-detected",
                "reference-id-detected",
                900000,
                "Akamai reference ID pattern detected",
                "akamai-reference-pattern",
            ),
        );
        push_opt(
            &mut ev,
            resp.check_body_regex(
                AKAMAI_ERROR_PAGE_PAT,
                "error-page-detected",
                "error-page-detected",
                900000,
                "Akamai access denied page detected",
                "akamai-error-page-pattern",
            ),
        );
        if str_contains(resp.body.as_str(), "akamai") || str_contains(
            resp.body.as_str(),
            "akamaitechnologies",
        ) {
            ev.push(Evidence {
                method_type: DetectionMethod::Body(String::from_str("content-reference-detected")),
                confidence: 750000,
                description: String::from_str("Akamai content reference detected"),
                raw_data: String::from_str("content-reference-detected"),
                signature_matched: String::from_str("akamai-content-pattern"),
            });
        }
        proof {
            assert(ev.deep_view() =~= akamai_body_spec(resp@));
        }
        ev
    }

    /// Whether some header name starts with `prefix`.
    fn has_header_name_prefix(resp: &HttpResponse, prefix: &str) -> (r: bool)
        ensures
            r == any_header_name_prefix(resp@.headers, prefix@),
    {
        let ghost hs = resp@.headers;
        let n: usize = resp.headers.len();
        let mut i: usize = 0;
        while i < n
            invariant
                n == resp.headers.len(),
                hs == resp@.headers,
                i <= n,
                forall|j: int|
                    0 <= j < i ==> !(prefix@.len() <= #[trigger] hs[j].0.len() && hs[j].0.subrange(
                        0,
                        prefix@.len() as int,
                    ) == prefix@),
            decreases n - i,
        {
            proof {
                assert(resp.headers.deep_view()[i as int] == hs[i as int]);
                assert(resp.headers[i as int].deep_view() == hs[i as int]);
                assert(resp.headers[i as int].0@ == hs[i as int].0);
            }
            if crate::text::str_starts_with(resp.headers[i].0.as_str(), prefix) {
                return true;
            }
            i = i + 1;
        }
        false
    }

    pub fn check_status_codes(&self, resp: &HttpResponse) -> (r: Vec<Evidence>)
        ensures
            r.deep_view() == akamai_status_spec(resp@),
    {
        let mut ev: Vec<Evidence> = Vec::new();
        if resp.status == 403 && (Self::has_header_name_prefix(resp, "x-akamai-") || regex_match(
            AKAMAI_REFERENCE_PAT,
            resp.body.as_str(),
        )) {
            ev.push(Evidence {
                method_type: DetectionMethod::StatusCode(403),
                confidence: 800000,
                description: String::from_str("Akamai 403 Forbidden response"),
                raw_data: String::from_str("403"),
                signature_matched: String::from_str("akamai-403-pattern"),
            });
        } else if resp.status == 404 && regex_match(AKAMAI_REFERENCE_PAT, resp.body.as_str()) {
            ev.push(Evidence {
                method_type: DetectionMethod::StatusCode(404),
                confidence: 750000,
                description: String::from_str("Akamai 404 Not Found with reference ID"),
                raw_data: String::from_str("404"),
                signature_matched: String::from_str("akamai-404-pattern"),
            });
        }
        proof {
            assert(ev.deep_view() =~= akamai_status_spec(resp@));
        }
        ev
    }

    /// Passive detection: headers, then body, then status rules.
    pub fn passive_detect(&self, resp: &HttpResponse) -> (r: Vec<Evidence>)
        ensures
            r.deep_view() == akamai_passive_spec(resp@),
    {
        let mut ev = self.check_headers(resp);
        let mut body = self.check_body_patterns(resp);
        let mut status = self.check_status_codes(resp);
        ev.append(&mut body);
        ev.append(&mut status);
        proof {
            assert(ev.deep_view() =~= akamai_passive_spec(resp@));
        }
        ev
    }

    pub fn provider_type(&self) -> (t: ProviderType)
        ensures
            t == ProviderType::Both,
    {
        ProviderType::Both
    }

    pub fn confidence_base(&self) -> (c: u64)
        ensures
            c == 920000u64,
    {
        920000
    }

    pub fn priority(&self) -> (p: u32)
        ensures
            p == 95u32,
    {
        95
    }
}

impl Clone for AkamaiProvider {
    /// A clone carries the same fields.
    fn clone(&self) -> (res: Self)
        ensures
            res == *self,
    {
        AkamaiProvider {
            name: self.name.clone(),
            version: self.version.clone(),
            description: self.description.clone(),
            enabled: self.enabled,
        }
    }
}

} // verus!
