//! Vercel edge-network CDN detection provider.

use vstd::prelude::*;
use vstd::string::StringExecFns;
use crate::CONF_ONE;
use crate::DetectionMethod;
use crate::Evidence;
use crate::EvidenceV;
use crate::ProviderType;
use crate::http::HttpResponse;
use crate::http::RespV;
use crate::http::header_lookup;
use crate::http::header_present;
use crate::signatures::header_ev;
use crate::signatures::opt_seq;
use crate::signatures::push_opt;
use crate::signatures::sig_header_present;
use crate::signatures::sig_header_regex;
use crate::signatures::status_ev;
use crate::text::append_str;
use crate::text::contains_seq;
use crate::text::lower_seq;
use crate::text::str_contains;
use crate::text::str_eq_lower;

verus! {

pub const VERCEL_ID_PAT: &'static str = "^[a-z0-9]+::[a-z0-9-]+-[0-9]+-[a-f0-9]+$";

pub const VERCEL_CACHE_PAT: &'static str = "(?i)^(HIT|MISS|BYPASS|STALE)$";

/// Vercel detection provider.
#[derive(Debug)]
pub struct VercelProvider {
    pub name: String,
    pub version: String,
    pub description: String,
    pub enabled: bool,
}

/// The `server: vercel` literal match, compared ASCII-case-insensitively.
pub open spec fn vercel_server_ev(r: RespV) -> Option<EvidenceV> {
    match header_lookup(r.headers, "server"@) {
        Some(v) => if lower_seq(v) == lower_seq("vercel"@) {
            Some(
                header_ev(
                    "server"@,
                    980000,
                    "Vercel server header detected"@,
                    v,
                    "vercel-server-pattern"@,
                ),
            )
        } else {
            None
        },
        None => None,
    }
}

/// One evidence per header whose value names a Vercel domain.
pub open spec fn vercel_domain_scan(hs: Seq<(Seq<char>, Seq<char>)>) -> Seq<EvidenceV>
    decreases hs.len(),
{
    if hs.len() == 0 {
        Seq::empty()
    } else {
        vercel_domain_scan(hs.drop_last()) + (if contains_seq(hs.last().1, "vercel.app"@)
            || contains_seq(hs.last().1, "vercel.com"@) {
            seq![
                header_ev(
                    hs.last().0,
                    650000,
                    "Vercel domain reference in "@ + hs.last().0 + " header"@,
                    hs.last().1,
                    "vercel-domain-pattern"@,
                ),
            ]
        } else {
            Seq::empty()
        })
    }
}

/// All header evidence Vercel's signature list emits on a response.
pub open spec fn vercel_headers_spec(r: RespV) -> Seq<EvidenceV> {
    opt_seq(vercel_server_ev(r)) + opt_seq(
        sig_header_regex(
            r,
            "x-vercel-id"@,
            VERCEL_ID_PAT@,
            950000,
            "Vercel request ID header detected"@,
            "vercel-id-pattern"@,
        ),
    ) + opt_seq(
        sig_header_regex(
            r,
            "x-vercel-cache"@,
            VERCEL_CACHE_PAT@,
            900000,
            "Vercel cache status header detected"@,
            "vercel-cache-pattern"@,
        ),
    ) + opt_seq(
        sig_header_present(
            r,
            "x-vercel-deployment-url"@,
            850000,
            "Vercel deployment URL header detected"@,
            "vercel-deployment-pattern"@,
        ),
    ) + opt_seq(
        sig_header_present(
            r,
            "x-vercel-region"@,
            750000,
            "Vercel region header detected"@,
            "vercel-region-pattern"@,
        ),
    ) + opt_seq(
        sig_header_present(
            r,
            "x-vercel-proxy-signature"@,
            800000,
            "Vercel proxy signature header detected"@,
            "vercel-proxy-pattern"@,
        ),
    ) + opt_seq(
        sig_header_present(
            r,
            "x-vercel-edge"@,
            700000,
            "Vercel edge header detected"@,
            "vercel-edge-pattern"@,
        ),
    ) + vercel_domain_scan(r.headers)
}

/// Status-code evidence: a 404 is attributed to Vercel only with its
/// request-id header present.
pub open spec fn vercel_status_spec(r: RespV) -> Seq<EvidenceV> {
    if r.status == 404 && header_present(r.headers, "x-vercel-id"@) {
        seq![
            status_ev(
                404,
                750000,
                "Vercel 404 Not Found response"@,
                "404"@,
                "vercel-404-pattern"@,
            ),
        ]
    } else {
        Seq::empty()
    }
}

/// Everything Vercel's passive inspection emits on a response.
pub open spec fn vercel_passive_spec(r: RespV) -> Seq<EvidenceV> {
    vercel_headers_spec(r) + vercel_status_spec(r)
}

/// Every confidence in the domain scan is a valid probability.
pub proof fn lemma_vercel_scan_wf(hs: Seq<(Seq<char>, Seq<char>)>)
    ensures
        forall|i: int|
            0 <= i < vercel_domain_scan(hs).len() ==> #[trigger] vercel_domain_scan(
                hs,
            )[i].confidence <= CONF_ONE,
    decreases hs.len(),
{
    if hs.len() > 0 {
        lemma_vercel_scan_wf(hs.drop_last());
    }
}

/// The domain scan emits at most one evidence per header.
pub proof fn lemma_vercel_scan_len(hs: Seq<(Seq<char>, Seq<char>)>)
    ensures
        vercel_domain_scan(hs).len() <= hs.len(),
    decreases hs.len(),
{
    if hs.len() > 0 {
        lemma_vercel_scan_len(hs.drop_last());
    }
}

/// Every confidence the Vercel signature list can emit is a valid
/// probability.
pub proof fn lemma_vercel_confidences_wf(r: RespV)
    ensures
        forall|i: int|
            0 <= i < vercel_passive_spec(r).len() ==> #[trigger] vercel_passive_spec(
                r,
            )[i].confidence <= CONF_ONE,
{
    lemma_vercel_scan_wf(r.headers);
}

impl VercelProvider {
    pub fn new() -> (p: Self)
        ensures
            p.name@ == "Vercel"@,
            p.version@ == "1.0.0"@,
            p.enabled,
    {
        VercelProvider {
            name: String::from_str("Vercel"),
            version: String::from_str("1.0.0"),
            description: String::from_str("Vercel Edge Network CDN detection provider"),
            enabled: true,
        }
    }

    pub fn check_headers(&self, resp: &HttpResponse) -> (r: Vec<Evidence>)
        ensures
            r.deep_view() == vercel_headers_spec(resp@),
    {
        let mut ev: Vec<Evidence> = Vec::new();
        let server_ev: Option<Evidence> = match resp.get_header("server") {
            Some(v) => {
                if str_eq_lower(v.as_str(), "vercel") {
                    Some(Evidence {
                        method_type: DetectionMethod::Header(String::from_str("server")),
                        confidence: 980000,
                        description: String::from_str("Vercel server header detected"),
                        raw_data: v.clone(),
                        signature_matched: String::from_str("vercel-server-pattern"),
                    })
                } else {
                    None
                }
            },
            None => None,
        };
        proof {
            assert(server_ev.deep_view() == vercel_server_ev(resp@));
        }
        push_opt(&mut ev, server_ev);
        push_opt(
            &mut ev,
            resp.check_header_regex(
                "x-vercel-id",
                VERCEL_ID_PAT,
                950000,
                "Vercel request ID header detected",
                "vercel-id-pattern",
            ),
        );
        push_opt(
            &mut ev,
            resp.check_header_regex(
                "x-vercel-cache",
                VERCEL_CACHE_PAT,
                900000,
                "Vercel cache status header detected",
                "vercel-cache-pattern",
            ),
        );
        push_opt(
            &mut ev,
            resp.check_header_present(
                "x-vercel-deployment-url",
                850000,
                "Vercel deployment URL header detected",
                "vercel-deployment-pattern",
            ),
        );
        push_opt(
            &mut ev,
            resp.check_header_present(
                "x-vercel-region",
                750000,
                "Vercel region header detected",
                "vercel-region-pattern",
            ),
        );
        push_opt(
            &mut ev,
            resp.check_header_present(
                "x-vercel-proxy-signature",
                800000,
                "Vercel proxy signature header detected",
                "vercel-proxy-pattern",
            ),
        );
        push_opt(
            &mut ev,
            resp.check_header_present(
                "x-vercel-edge",
                700000,
                "Vercel edge header detected",
                "vercel-edge-pattern",
            ),
        );
        let ghost prefix = ev.deep_view();
        let ghost hs = resp@.headers;
        let n: usize = resp.headers.len();
        let mut i: usize = 0;
        proof {
            assert(hs.take(0) =~= Seq::<(Seq<char>, Seq<char>)>::empty());
            assert(ev.deep_view() =~= prefix + vercel_domain_scan(hs.take(0)));
        }
        while i < n
            invariant
                n == resp.headers.len(),
                hs == resp@.headers,
                i <= n,
                ev.deep_view() == prefix + vercel_domain_scan(hs.take(i as int)),
            decreases n - i,
        {
            proof {
                assert(resp.headers.deep_view()[i as int] == hs[i as int]);
                assert(resp.headers[i as int].deep_view() == hs[i as int]);
                assert(resp.headers[i as int].0@ == hs[i as int].0);
                assert(resp.headers[i as int].1@ == hs[i as int].1);
            }
            let value = &resp.headers[i].1;
            let ghost pre = ev.deep_view();
            if str_contains(value.as_str(), "vercel.app") || str_contains(
                value.as_str(),
                "vercel.com",
            ) {
                let name = &resp.headers[i].0;
                let mut desc = String::from_str("Vercel domain reference in ");
                append_str(&mut desc, name.as_str());
                append_str(&mut desc, " header");
                let e = Evidence {
                    method_type: DetectionMethod::Header(name.clone()),
                    confidence: 650000,
                    description: desc,
                    raw_data: value.clone(),
                    signature_matched: String::from_str("vercel-domain-pattern"),
                };
                proof {
                    assert(e.deep_view() == header_ev(
                        hs[i as int].0,
                        650000,
                        "Vercel domain reference in "@ + hs[i as int].0 + " header"@,
                        hs[i as int].1,
                        "vercel-domain-pattern"@,
                    ));
                }
                ev.push(e);
                proof {
                    assert(ev.deep_view() =~= pre.push(
                        header_ev(
                            hs[i as int].0,
                            650000,
                            "Vercel domain reference in "@ + hs[i as int].0 + " header"@,
                            hs[i as int].1,
                            "vercel-domain-pattern"@,
                        ),
                    ));
                }
            }
            i = i + 1;
            proof {
                let cur = hs.take(i as int);
                assert(cur.drop_last() =~= hs.take(i - 1));
                assert(cur.last() == hs[i - 1]);
                let branch: Seq<EvidenceV> = if contains_seq(hs[i - 1].1, "vercel.app"@)
                    || contains_seq(hs[i - 1].1, "vercel.com"@) {
                    seq![
                        header_ev(
                            hs[i - 1].0,
                            650000,
                            "Vercel domain reference in "@ + hs[i - 1].0 + " header"@,
                            hs[i - 1].1,
                            "vercel-domain-pattern"@,
                        ),
                    ]
                } else {
                    Seq::empty()
                };
                assert(vercel_domain_scan(cur) == vercel_domain_scan(cur.drop_last()) + branch);
                assert(vercel_domain_scan(cur.drop_last()) == vercel_domain_scan(hs.take(i - 1)));
                assert(ev.deep_view() =~= prefix + vercel_domain_scan(hs.take(i as int)));
            }
        }
        proof {
            assert(hs.take(n as int) =~= hs);
            assert(ev.deep_view() =~= vercel_headers_spec(resp@));
        }
        ev
    }

    pub fn check_status_codes(&self, resp: &HttpResponse) -> (r: Vec<Evidence>)
        ensures
            r.deep_view() == vercel_status_spec(resp@),
    {
        let mut ev: Vec<Evidence> = Vec::new();
        if resp.status == 404 && resp.has_header("x-vercel-id") {
            ev.push(Evidence {
                method_type: DetectionMethod::StatusCode(404),
                confidence: 750000,
                description: String::from_str("Vercel 404 Not Found response"),
                raw_data: String::from_str("404"),
                signature_matched: String::from_str("vercel-404-pattern"),
            });
        }
        proof {
            assert(ev.deep_view() =~= vercel_status_spec(resp@));
        }
        ev
    }

    /// Passive detection: headers, then status rules.
    pub fn passive_detect(&self, resp: &HttpResponse) -> (r: Vec<Evidence>)
        ensures
            r.deep_view() == vercel_passive_spec(resp@),
    {
        let mut ev = self.check_headers(resp);
        let mut status = self.check_status_codes(resp);
        ev.append(&mut status);
        proof {
            assert(ev.deep_view() =~= vercel_passive_spec(resp@));
        }
        ev
    }

    pub fn provider_type(&self) -> (t: ProviderType)
        ensures
            t == ProviderType::CDN,
    {
        ProviderType::CDN
    }

    pub fn confidence_base(&self) -> (c: u64)
        ensures
            c == 850000u64,
    {
        850000
    }

    pub fn priority(&self) -> (p: u32)
        ensures
            p == 90u32,
    {
        90
    }
}

impl Clone for VercelProvider {
    /// A clone carries the same fields.
    fn clone(&self) -> (res: Self)
        ensures
            res == *self,
    {
        VercelProvider {
            name: self.name.clone(),
            version: self.version.clone(),
            description: self.description.clone(),
            enabled: self.enabled,
        }
    }
}

} // verus!
