//! CloudFlare WAF/CDN detection provider.

use vstd::prelude::*;
use vstd::string::StringExecFns;
use crate::CONF_ONE;
use crate::DetectionMethod;
use crate::Evidence;
use crate::EvidenceV;
use crate::ProviderType;
use crate::http::HttpResponse;
use crate::http::RespV;
use crate::http::header_present;
use crate::outside::regex_is_match;
use crate::outside::regex_match;
use crate::signatures::opt_seq;
use crate::signatures::sig_body_regex;
use crate::signatures::sig_header_present;
use crate::signatures::sig_header_regex;
use crate::signatures::status_ev;
use crate::signatures::push_opt;

verus! {

pub const CF_RAY_PAT: &'static str = "^[a-f0-9]+-[A-Z]{3}$";

pub const CF_CACHE_PAT: &'static str = "(?i)(HIT|MISS|EXPIRED|BYPASS|DYNAMIC|REVALIDATED)";

pub const CF_SERVER_PAT: &'static str = "(?i)cloudflare";

pub const CF_CHALLENGE_PAT: &'static str =
    "(?i)(checking your browser.*cloudflare|cf_chl_jschl_tk|cf_chl_captcha_tk|challenge-platform.*cloudflare)";

pub const CF_ERROR_PAT: &'static str =
    "(?i)(cloudflare.*error 10\\d{2}|error 10\\d{2}.*cloudflare|cloudflare.*blocked|cloudflare.*access denied)";

pub const CF_JS_PAT: &'static str = "(?i)(cf_chl_jschl_tk|cf_clearance|cf_chl_captcha_tk)";

/// CloudFlare detection provider.
#[derive(Debug)]
pub struct CloudFlareProvider {
    pub name: String,
    pub version: String,
    pub description: String,
    pub enabled: bool,
}

/// All header evidence CloudFlare's signature list emits on a response.
pub open spec fn cf_headers_spec(r: RespV) -> Seq<EvidenceV> {
    opt_seq(
        sig_header_regex(
            r,
            "cf-ray"@,
            CF_RAY_PAT@,
            950000,
            "CloudFlare Ray ID header detected"@,
            "cf-ray-header"@,
        ),
    ) + opt_seq(
        sig_header_regex(
            r,
            "cf-cache-status"@,
            CF_CACHE_PAT@,
            900000,
            "CloudFlare cache status header detected"@,
            "cf-cache-status-header"@,
        ),
    ) + opt_seq(
        sig_header_regex(
            r,
            "server"@,
            CF_SERVER_PAT@,
            850000,
            "CloudFlare server header detected"@,
            "cloudflare-server-header"@,
        ),
    ) + opt_seq(
        sig_header_present(
            r,
            "cf-connecting-ip"@,
            800000,
            "CloudFlare connecting IP header"@,
            "cf-connecting-ip-header"@,
        ),
    ) + opt_seq(
        sig_header_present(
            r,
            "cf-ipcountry"@,
            750000,
            "CloudFlare IP country header"@,
            "cf-ipcountry-header"@,
        ),
    ) + opt_seq(
        sig_header_present(
            r,
            "cf-visitor"@,
            750000,
            "CloudFlare visitor header"@,
            "cf-visitor-header"@,
        ),
    ) + opt_seq(
        sig_header_present(
            r,
            "cf-request-id"@,
            850000,
            "CloudFlare request ID header"@,
            "cf-request-id-header"@,
        ),
    )
}

/// All body evidence CloudFlare's signature list emits on a response.
pub open spec fn cf_body_spec(r: RespV) -> Seq<EvidenceV> {
    opt_seq(
        sig_body_regex(
            r,
            CF_CHALLENGE_PAT@,
            "challenge-page-detected"@,
            "challenge-page-detected"@,
            700000,
            "CloudFlare browser challenge page detected"@,
            "cf-challenge-body"@,
        ),
    ) + opt_seq(
        sig_body_regex(
            r,
            CF_ERROR_PAT@,
            "error-page-detected"@,
            "error-page-detected"@,
            650000,
            "CloudFlare error page detected"@,
            "cf-error-body"@,
        ),
    ) + opt_seq(
        sig_body_regex(
            r,
            CF_JS_PAT@,
            "js-tokens-detected"@,
            "js-tokens-detected"@,
            600000,
            "CloudFlare JavaScript tokens detected"@,
            "cf-js-body"@,
        ),
    )
}

/// Status-code evidence: a 403 or 429 is attributed to CloudFlare only when
/// a definitive CloudFlare marker co-occurs.
pub open spec fn cf_status_spec(r: RespV) -> Seq<EvidenceV> {
    if r.status == 403 && (header_present(r.headers, "cf-ray"@) || regex_is_match(
        CF_CHALLENGE_PAT@,
        r.body,
    )) {
        seq![
            status_ev(
                403,
                750000,
                "CloudFlare 403 Forbidden response"@,
                "403"@,
                "cf-403-status"@,
            ),
        ]
    } else if r.status == 429 && header_present(r.headers, "cf-ray"@) {
        seq![
            status_ev(
                429,
                800000,
                "CloudFlare rate limiting detected"@,
                "429"@,
                "cf-429-status"@,
            ),
        ]
    } else {
        Seq::empty()
    }
}

/// Everything CloudFlare's passive inspection emits on a response.
pub open spec fn cf_passive_spec(r: RespV) -> Seq<EvidenceV> {
    cf_headers_spec(r) + cf_body_spec(r) + cf_status_spec(r)
}

/// Every confidence the CloudFlare signature list can emit is a valid
/// probability.
pub proof fn lemma_cf_confidences_wf(r: RespV)
    ensures
        forall|i: int|
            0 <= i < cf_passive_spec(r).len() ==> #[trigger] cf_passive_spec(
                r,
            )[i].confidence <= CONF_ONE,
{
}

impl CloudFlareProvider {
    pub fn new() -> (p: Self)
        ensures
            p.name@ == "CloudFlare"@,
            p.version@ == "1.0.0"@,
            p.enabled,
    {
        CloudFlareProvider {
            name: String::from_str("CloudFlare"),
            version: String::from_str("1.0.0"),
            description: String::from_str("CloudFlare WAF/CDN detection provider"),
            enabled: true,
        }
    }

    pub fn check_headers(&self, resp: &HttpResponse) -> (r: Vec<Evidence>)
        ensures
            r.deep_view() == cf_headers_spec(resp@),
    {
        let mut ev: Vec<Evidence> = Vec::new();
        push_opt(
            &mut ev,
            resp.check_header_regex(
                "cf-ray",
                CF_RAY_PAT,
                950000,
                "CloudFlare Ray ID header detected",
                "cf-ray-header",
            ),
        );
        push_opt(
            &mut ev,
            resp.check_header_regex(
                "cf-cache-status",
                CF_CACHE_PAT,
                900000,
                "CloudFlare cache status header detected",
                "cf-cache-status-header",
            ),
        );
        push_opt(
            &mut ev,
            resp.check_header_regex(
                "server",
                CF_SERVER_PAT,
                850000,
                "CloudFlare server header detected",
                "cloudflare-server-header",
            ),
        );
        push_opt(
            &mut ev,
            resp.check_header_present(
                "cf-connecting-ip",
                800000,
                "CloudFlare connecting IP header",
                "cf-connecting-ip-header",
            ),
        );
        push_opt(
            &mut ev,
            resp.check_header_present(
                "cf-ipcountry",
                750000,
                "CloudFlare IP country header",
                "cf-ipcountry-header",
            ),
        );
        push_opt(
            &mut ev,
            resp.check_header_present(
                "cf-visitor",
                750000,
                "CloudFlare visitor header",
                "cf-visitor-header",
            ),
        );
        push_opt(
            &mut ev,
            resp.check_header_present(
                "cf-request-id",
                850000,
                "CloudFlare request ID header",
                "cf-request-id-header",
            ),
        );
        proof {
            assert(ev.deep_view() =~= cf_headers_spec(resp@));
        }
        ev
    }

    pub fn check_body_patterns(&self, resp: &HttpResponse) -> (r: Vec<Evidence>)
        ensures
            r.deep_view() == cf_body_spec(resp@),
    {
        let mut ev: Vec<Evidence> = Vec::new();
        push_opt(
            &mut ev,
            resp.check_body_regex(
                CF_CHALLENGE_PAT,
                "challenge-page-detected",
                "challenge-page-detected",
                700000,
                "CloudFlare browser challenge page detected",
                "cf-challenge-body",
            ),
        );
        push_opt(
            &mut ev,
            resp.check_body_regex(
                CF_ERROR_PAT,
                "error-page-detected",
                "error-page-detected",
                650000,
                "CloudFlare error page detected",
                "cf-error-body",
            ),
        );
        push_opt(
            &mut ev,
            resp.check_body_regex(
                CF_JS_PAT,
                "js-tokens-detected",
                "js-tokens-detected",
                600000,
                "CloudFlare JavaScript tokens detected",
                "cf-js-body",
            ),
        );
        proof {
            assert(ev.deep_view() =~= cf_body_spec(resp@));
        }
        ev
    }

    pub fn check_status_codes(&self, resp: &HttpResponse) -> (r: Vec<Evidence>)
        ensures
            r.deep_view() == cf_status_spec(resp@),
    {
        let mut ev: Vec<Evidence> = Vec::new();
        if resp.status == 403 && (resp.has_header("cf-ray") || regex_match(
            CF_CHALLENGE_PAT,
            self_body(resp),
        )) {
            ev.push(Evidence {
                method_type: DetectionMethod::StatusCode(403),
                confidence: 750000,
                description: String::from_str("CloudFlare 403 Forbidden response"),
                raw_data: String::from_str("403"),
                signature_matched: String::from_str("cf-403-status"),
            });
        } else if resp.status == 429 && resp.has_header("cf-ray") {
            ev.push(Evidence {
                method_type: DetectionMethod::StatusCode(429),
                confidence: 800000,
                description: String::from_str("CloudFlare rate limiting detected"),
                raw_data: String::from_str("429"),
                signature_matched: String::from_str("cf-429-status"),
            });
        }
        proof {
            assert(ev.deep_view() =~= cf_status_spec(resp@));
        }
        ev
    }

    /// Passive detection: every signature match on the response, headers
    /// first, then body, then status rules.
    pub fn passive_detect(&self, resp: &HttpResponse) -> (r: Vec<Evidence>)
        ensures
            r.deep_view() == cf_passive_spec(resp@),
    {
        let mut ev = self.check_headers(resp);
        let mut body = self.check_body_patterns(resp);
        let mut status = self.check_status_codes(resp);
        ev.append(&mut body);
        ev.append(&mut status);
        proof {
            assert(ev.deep_view() =~= cf_passive_spec(resp@));
        }
        ev
    }

    pub fn provider_type(&self) -> (t: ProviderType)
        ensures
            t == ProviderType::Both,
    {
        ProviderType::Both
    }

    pub fn confidence_base(&self) -> (c: u64)
        ensures
            c == 950000u64,
    {
        950000
    }

    pub fn priority(&self) -> (p: u32)
        ensures
            p == 100u32,
    {
        100
    }
}

/// The body of a response, as a string slice.
fn self_body(resp: &HttpResponse) -> (r: &str)
    ensures
        r@ == resp@.body,
{
    resp.body.as_str()
}

impl Clone for CloudFlareProvider {
    /// A clone carries the same fields.
    fn clone(&self) -> (res: Self)
        ensures
            res == *self,
    {
        CloudFlareProvider {
            name: self.name.clone(),
            version: self.version.clone(),
            description: self.description.clone(),
            enabled: self.enabled,
        }
    }
}

} // verus!
