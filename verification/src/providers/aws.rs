//! AWS WAF / CloudFront detection provider.
//!
//! CloudFront shares header namespaces with other CDNs, so most of the
//! weaker signals here are gated on a definitive CloudFront marker being
//! present; the gates are spelled out as spec functions.

use vstd::prelude::*;
use vstd::string::StringExecFns;
use crate::CONF_ONE;
use crate::DetectionMethod;
use crate::Evidence;
use crate::EvidenceV;
use crate::ProviderType;
use crate::http::HttpResponse;
use crate::http::RespV;
use crate::http::header_lookup;
use crate::http::header_present;
use crate::signatures::header_contains_holds;
use crate::signatures::header_ev;
use crate::signatures::header_regex_holds;
use crate::signatures::mk_header_evidence;
use crate::signatures::mk_status_evidence;
use crate::signatures::opt_seq;
use crate::signatures::push_opt;
use crate::signatures::sig_header_present;
use crate::signatures::sig_header_regex;
use crate::signatures::status_ev;
use crate::outside::regex_is_match;
use crate::outside::regex_match;
use crate::text::contains_seq;
use crate::text::str_contains;
use crate::text::str_ends_with;

verus! {

pub const AWS_REQUEST_ID_PAT: &'static str =
    "^[a-f0-9]{8}-[a-f0-9]{4}-[a-f0-9]{4}-[a-f0-9]{4}-[a-f0-9]{12}$";

pub const CLOUDFRONT_ID_PAT: &'static str =
    "^[A-Za-z0-9]{8}-[A-Za-z0-9]{4}-[A-Za-z0-9]{4}-[A-Za-z0-9]{4}-[A-Za-z0-9]{12}$";

pub const CLOUDFRONT_POP_PAT: &'static str = "^[A-Z]{3}[0-9]+-[A-Z][0-9]+$";

pub const CLOUDFRONT_VIA_PAT: &'static str = "(?i)(cloudfront|1\\.1 [a-f0-9]+ \\(CloudFront\\))";

pub const CLOUDFRONT_CACHE_PAT: &'static str =
    "(?i)((hit|miss|refresh_hit|error|bypass)\\s+(from\\s+)?cloudfront|cloudfront)";

pub const CLOUDFRONT_SERVER_PAT: &'static str = "(?i)(cloudfront|amazon\\s*cloudfront)";

pub const CLOUDFRONT_AGE_PAT: &'static str = "^\\d+$";

pub const AWS_ERROR_BODY_PAT: &'static str =
    "(?i)(access\\s+denied|request\\s+id|you\\s+don't\\s+have\\s+permission)";

pub const AWS_JSON_ERROR_PAT: &'static str =
    "(?i)(\"__type\"|\"errortype\"|\"requestid\"|\"accessdenied|\"throttling\")";

/// AWS detection provider.
#[derive(Debug)]
pub struct AwsProvider {
    pub name: String,
    pub version: String,
    pub description: String,
    pub enabled: bool,
}

/// Gate for the `age` header: some other CloudFront indicator must be
/// present.
pub open spec fn aws_age_gate(r: RespV) -> bool {
    header_present(r.headers, "x-amz-cf-id"@) || header_present(r.headers, "x-amz-cf-pop"@)
        || header_regex_holds(r, "via"@, CLOUDFRONT_VIA_PAT@) || header_regex_holds(
        r,
        "x-cache"@,
        CLOUDFRONT_CACHE_PAT@,
    )
}

/// A definitive CloudFront marker: PoP or request-id header, or `via`
/// naming CloudFront.
pub open spec fn aws_cf_marker(r: RespV) -> bool {
    header_present(r.headers, "x-amz-cf-pop"@) || header_present(r.headers, "x-amz-cf-id"@)
        || header_contains_holds(r, "via"@, "CloudFront"@)
}

/// Gate for the `x-timer` header.
pub open spec fn aws_timer_gate(r: RespV) -> bool {
    aws_cf_marker(r) || header_contains_holds(r, "server"@, "CloudFront"@)
}

/// Gate for the `cache-control` pattern.
pub open spec fn aws_cc_gate(r: RespV) -> bool {
    aws_timer_gate(r) || header_present(r.headers, "x-amzn-requestid"@)
}

/// Gate for AWS-attributed status codes.
pub open spec fn aws_status_gate(r: RespV) -> bool {
    header_present(r.headers, "x-amzn-requestid"@) || header_present(
        r.headers,
        "x-amzn-errortype"@,
    ) || header_present(r.headers, "x-amz-cf-id"@) || regex_is_match(AWS_ERROR_BODY_PAT@, r.body)
}

/// An ASCII letter.
pub open spec fn is_ascii_alpha(c: char) -> bool {
    ('A' <= c && c <= 'Z') || ('a' <= c && c <= 'z')
}

/// The gated `age` evidence.
pub open spec fn aws_age_ev(r: RespV) -> Option<EvidenceV> {
    match header_lookup(r.headers, "age"@) {
        Some(v) => if regex_is_match(CLOUDFRONT_AGE_PAT@, v) && aws_age_gate(r) {
            Some(
                header_ev(
                    "age"@,
                    600000,
                    "Age header supporting CloudFront evidence"@,
                    v,
                    "cloudfront-age-pattern"@,
                ),
            )
        } else {
            None
        },
        None => None,
    }
}

/// The CloudFront distribution-domain evidence from the `host` header.
pub open spec fn aws_host_ev(r: RespV) -> Option<EvidenceV> {
    match header_lookup(r.headers, "host"@) {
        Some(v) => if (".cloudfront.net"@.len() <= v.len() && v.subrange(
            v.len() - ".cloudfront.net"@.len(),
            v.len() as int,
        ) == ".cloudfront.net"@) || contains_seq(v, "cloudfront"@) {
            Some(
                header_ev(
                    "host"@,
                    950000,
                    "CloudFront distribution domain detected"@,
                    v,
                    "cloudfront-domain-pattern"@,
                ),
            )
        } else {
            None
        },
        None => None,
    }
}

/// The gated `x-served-by` evidence.
pub open spec fn aws_served_by_ev(r: RespV) -> Option<EvidenceV> {
    match header_lookup(r.headers, "x-served-by"@) {
        Some(v) => if contains_seq(v, "cloudfront"@) || (contains_seq(v, "cache"@) && aws_cf_marker(
            r,
        )) {
            Some(
                header_ev(
                    "x-served-by"@,
                    750000,
                    "CloudFront served-by header detected"@,
                    v,
                    "cloudfront-served-by-pattern"@,
                ),
            )
        } else {
            None
        },
        None => None,
    }
}

/// The gated `x-timer` evidence.
pub open spec fn aws_timer_ev(r: RespV) -> Option<EvidenceV> {
    match header_lookup(r.headers, "x-timer"@) {
        Some(v) => if contains_seq(v, "S"@) && aws_timer_gate(r) {
            Some(
                header_ev(
                    "x-timer"@,
                    650000,
                    "CloudFront timing header detected"@,
                    v,
                    "cloudfront-timer-pattern"@,
                ),
            )
        } else {
            None
        },
        None => None,
    }
}

/// The flexible PoP-shape evidence: at least six characters, the first
/// three ASCII letters.
pub open spec fn aws_pop_flexible_ev(r: RespV) -> Option<EvidenceV> {
    match header_lookup(r.headers, "x-amz-cf-pop"@) {
        Some(v) => if v.len() >= 6 && is_ascii_alpha(v[0]) && is_ascii_alpha(v[1])
            && is_ascii_alpha(v[2]) {
            Some(
                header_ev(
                    "x-amz-cf-pop"@,
                    900000,
                    "CloudFront edge location header detected"@,
                    v,
                    "cloudfront-pop-flexible-pattern"@,
                ),
            )
        } else {
            None
        },
        None => None,
    }
}

/// The gated `etag` evidence.
pub open spec fn aws_etag_ev(r: RespV) -> Option<EvidenceV> {
    match header_lookup(r.headers, "etag"@) {
        Some(v) => if contains_seq(v, "-"@) && v.len() > 10 && header_present(r.headers, "age"@)
            && header_present(r.headers, "cache-control"@) {
            Some(
                header_ev(
                    "etag"@,
                    450000,
                    "ETag pattern suggesting CloudFront presence"@,
                    v,
                    "cloudfront-etag-pattern"@,
                ),
            )
        } else {
            None
        },
        None => None,
    }
}

/// The gated `cache-control` evidence.
pub open spec fn aws_cc_ev(r: RespV) -> Option<EvidenceV> {
    match header_lookup(r.headers, "cache-control"@) {
        Some(v) => if contains_seq(v, "max-age"@) && header_present(r.headers, "age"@)
            && aws_cc_gate(r) {
            Some(
                header_ev(
                    "cache-control"@,
                    350000,
                    "Cache-control pattern with CloudFront evidence"@,
                    v,
                    "cloudfront-cache-pattern"@,
                ),
            )
        } else {
            None
        },
        None => None,
    }
}

/// The CSP evidence.
pub open spec fn aws_csp_ev(r: RespV) -> Option<EvidenceV> {
    match header_lookup(r.headers, "content-security-policy"@) {
        Some(v) => if contains_seq(v, "cloudfront.net"@) || contains_seq(v, "amazonaws.com"@) {
            Some(
                header_ev(
                    "content-security-policy"@,
                    700000,
                    "AWS/CloudFront CSP directive detected"@,
                    v,
                    "aws-csp-pattern"@,
                ),
            )
        } else {
            None
        },
        None => None,
    }
}

/// The CORS evidence.
pub open spec fn aws_cors_ev(r: RespV) -> Option<EvidenceV> {
    match header_lookup(r.headers, "access-control-allow-origin"@) {
        Some(v) => if contains_seq(v, "amazonaws.com"@) || contains_seq(v, "cloudfront.net"@) {
            Some(
                header_ev(
                    "access-control-allow-origin"@,
                    800000,
                    "CORS header pointing to AWS services"@,
                    v,
                    "aws-cors-pattern"@,
                ),
            )
        } else {
            None
        },
        None => None,
    }
}

/// All header evidence AWS's signature list emits on a response.
pub open spec fn aws_headers_spec(r: RespV) -> Seq<EvidenceV> {
    opt_seq(
        sig_header_regex(
            r,
            "x-amzn-requestid"@,
            AWS_REQUEST_ID_PAT@,
            850000,
            "AWS request ID header detected"@,
            "aws-request-id-pattern"@,
        ),
    ) + opt_seq(
        sig_header_present(
            r,
            "x-amzn-errortype"@,
            900000,
            "AWS error type header detected"@,
            "aws-error-type-pattern"@,
        ),
    ) + opt_seq(
        sig_header_regex(
            r,
            "x-amz-cf-id"@,
            CLOUDFRONT_ID_PAT@,
            950000,
            "CloudFront request ID header detected"@,
            "cloudfront-id-pattern"@,
        ),
    ) + opt_seq(
        sig_header_regex(
            r,
            "x-amz-cf-pop"@,
            CLOUDFRONT_POP_PAT@,
            900000,
            "CloudFront Point of Presence header detected"@,
            "cloudfront-pop-pattern"@,
        ),
    ) + opt_seq(
        sig_header_regex(
            r,
            "via"@,
            CLOUDFRONT_VIA_PAT@,
            850000,
            "CloudFront via header detected"@,
            "cloudfront-via-pattern"@,
        ),
    ) + opt_seq(
        sig_header_regex(
            r,
            "x-cache"@,
            CLOUDFRONT_CACHE_PAT@,
            800000,
            "CloudFront cache header detected"@,
            "cloudfront-cache-pattern"@,
        ),
    ) + opt_seq(
        sig_header_regex(
            r,
            "server"@,
            CLOUDFRONT_SERVER_PAT@,
            850000,
            "CloudFront server header detected"@,
            "cloudfront-server-pattern"@,
        ),
    ) + opt_seq(aws_age_ev(r)) + opt_seq(aws_host_ev(r)) + opt_seq(aws_served_by_ev(r)) + opt_seq(
        aws_timer_ev(r),
    ) + opt_seq(aws_pop_flexible_ev(r)) + opt_seq(
        sig_header_present(
            r,
            "x-amz-request-id"@,
            800000,
            "AWS request ID header"@,
            "x-amz-request-id-pattern"@,
        ),
    ) + opt_seq(
        sig_header_present(
            r,
            "x-amz-id-2"@,
            750000,
            "AWS extended request ID header"@,
            "x-amz-id-2-pattern"@,
        ),
    ) + opt_seq(
        sig_header_present(
            r,
            "x-amz-bucket-region"@,
            750000,
            "AWS S3 bucket region header"@,
            "x-amz-bucket-region-pattern"@,
        ),
    ) + opt_seq(
        sig_header_present(
            r,
            "x-amz-server-side-encryption"@,
            700000,
            "AWS S3 encryption header"@,
            "x-amz-server-side-encryption-pattern"@,
        ),
    ) + opt_seq(
        sig_header_present(
            r,
            "x-amz-apigw-id"@,
            850000,
            "AWS API Gateway ID header"@,
            "x-amz-apigw-id-pattern"@,
        ),
    ) + opt_seq(
        sig_header_present(
            r,
            "x-amzn-trace-id"@,
            800000,
            "AWS X-Ray trace ID header"@,
            "x-amzn-trace-id-pattern"@,
        ),
    ) + opt_seq(aws_csp_ev(r)) + opt_seq(aws_etag_ev(r)) + opt_seq(aws_cc_ev(r)) + opt_seq(
        aws_cors_ev(r),
    )
}

/// All body evidence AWS's signature list emits on a response.
pub open spec fn aws_body_spec(r: RespV) -> Seq<EvidenceV> {
    opt_seq(
        crate::signatures::sig_body_regex(
            r,
            AWS_ERROR_BODY_PAT@,
            "access-denied-page"@,
            "access-denied-detected"@,
            750000,
            "AWS access denied page pattern detected"@,
            "aws-error-body-pattern"@,
        ),
    ) + opt_seq(
        crate::signatures::sig_body_regex(
            r,
            AWS_JSON_ERROR_PAT@,
            "json-error-response"@,
            "json-error-detected"@,
            800000,
            "AWS JSON error response detected"@,
            "aws-json-error-pattern"@,
        ),
    )
}

/// Status-code evidence, gated on AWS markers.
pub open spec fn aws_status_spec(r: RespV) -> Seq<EvidenceV> {
    if r.status == 403 && aws_status_gate(r) {
        seq![
            status_ev(
                403,
                750000,
                "AWS WAF 403 Forbidden response"@,
                "403"@,
                "aws-403-pattern"@,
            ),
        ]
    } else if r.status == 429 && (header_present(r.headers, "x-amzn-requestid"@) || header_present(
        r.headers,
        "x-amz-cf-id"@,
    )) {
        seq![
            status_ev(429, 800000, "AWS rate limiting detected"@, "429"@, "aws-429-pattern"@),
        ]
    } else if r.status == 503 && (header_present(r.headers, "x-amzn-requestid"@) || header_present(
        r.headers,
        "x-amz-cf-id"@,
    )) {
        seq![
            status_ev(
                503,
                700000,
                "AWS service unavailable response"@,
                "503"@,
                "aws-503-pattern"@,
            ),
        ]
    } else {
        Seq::empty()
    }
}

/// Everything AWS's passive inspection emits on a response.
pub open spec fn aws_passive_spec(r: RespV) -> Seq<EvidenceV> {
    aws_headers_spec(r) + aws_body_spec(r) + aws_status_spec(r)
}

/// Every confidence the AWS signature list can emit is a valid probability.
pub proof fn lemma_aws_confidences_wf(r: RespV)
    ensures
        forall|i: int|
            0 <= i < aws_passive_spec(r).len() ==> #[trigger] aws_passive_spec(
                r,
            )[i].confidence <= CONF_ONE,
{
}

impl AwsProvider {
    pub fn new() -> (p: Self)
        ensures
            p.name@ == "AWS"@,
            p.version@ == "1.0.0"@,
            p.enabled,
    {
        AwsProvider {
            name: String::from_str("AWS"),
            version: String::from_str("1.0.0"),
            description: String::from_str("AWS WAF and CloudFront CDN detection provider"),
            enabled: true,
        }
    }

    /// Whether a definitive CloudFront marker is present.
    fn cf_marker(resp: &HttpResponse) -> (r: bool)
        ensures
            r == aws_cf_marker(resp@),
    {
        resp.has_header("x-amz-cf-pop") || resp.has_header("x-amz-cf-id") || resp.header_contains(
            "via",
            "CloudFront",
        )
    }

    pub fn check_headers(&self, resp: &HttpResponse) -> (r: Vec<Evidence>)
        ensures
            r.deep_view() == aws_headers_spec(resp@),
    {
        let mut ev: Vec<Evidence> = Vec::new();
        push_opt(
            &mut ev,
            resp.check_header_regex(
                "x-amzn-requestid",
                AWS_REQUEST_ID_PAT,
                850000,
                "AWS request ID header detected",
                "aws-request-id-pattern",
            ),
        );
        push_opt(
            &mut ev,
            resp.check_header_present(
                "x-amzn-errortype",
                900000,
                "AWS error type header detected",
                "aws-error-type-pattern",
            ),
        );
        push_opt(
            &mut ev,
            resp.check_header_regex(
                "x-amz-cf-id",
                CLOUDFRONT_ID_PAT,
                950000,
                "CloudFront request ID header detected",
                "cloudfront-id-pattern",
            ),
        );
        push_opt(
            &mut ev,
            resp.check_header_regex(
                "x-amz-cf-pop",
                CLOUDFRONT_POP_PAT,
                900000,
                "CloudFront Point of Presence header detected",
                "cloudfront-pop-pattern",
            ),
        );
        push_opt(
            &mut ev,
            resp.check_header_regex(
                "via",
                CLOUDFRONT_VIA_PAT,
                850000,
                "CloudFront via header detected",
                "cloudfront-via-pattern",
            ),
        );
        push_opt(
            &mut ev,
            resp.check_header_regex(
                "x-cache",
                CLOUDFRONT_CACHE_PAT,
                800000,
                "CloudFront cache header detected",
                "cloudfront-cache-pattern",
            ),
        );
        push_opt(
            &mut ev,
            resp.check_header_regex(
                "server",
                CLOUDFRONT_SERVER_PAT,
                850000,
                "CloudFront server header detected",
                "cloudfront-server-pattern",
            ),
        );
        let age_ev: Option<Evidence> = match resp.get_header("age") {
            Some(v) => {
                if regex_match(CLOUDFRONT_AGE_PAT, v.as_str()) && (resp.has_header("x-amz-cf-id")
                    || resp.has_header("x-amz-cf-pop") || resp.header_regex(
                    "via",
                    CLOUDFRONT_VIA_PAT,
                ) || resp.header_regex("x-cache", CLOUDFRONT_CACHE_PAT)) {
                    Some(
                        mk_header_evidence(
                            "age",
                            600000,
                            "Age header supporting CloudFront evidence",
                            v,
                            "cloudfront-age-pattern",
                        ),
                    )
                } else {
                    None
                }
            },
            None => None,
        };
        proof {
            assert(age_ev.deep_view() == aws_age_ev(resp@));
        }
        push_opt(&mut ev, age_ev);
        let host_ev: Option<Evidence> = match resp.get_header("host") {
            Some(v) => {
                if str_ends_with(v.as_str(), ".cloudfront.net") || str_contains(
                    v.as_str(),
                    "cloudfront",
                ) {
                    Some(
                        mk_header_evidence(
                            "host",
                            950000,
                            "CloudFront distribution domain detected",
                            v,
                            "cloudfront-domain-pattern",
                        ),
                    )
                } else {
                    None
                }
            },
            None => None,
        };
        proof {
            assert(host_ev.deep_view() == aws_host_ev(resp@));
        }
        push_opt(&mut ev, host_ev);
        let served_ev: Option<Evidence> = match resp.get_header("x-served-by") {
            Some(v) => {
                if str_contains(v.as_str(), "cloudfront") || (str_contains(v.as_str(), "cache")
                    && Self::cf_marker(resp)) {
                    Some(
                        mk_header_evidence(
                            "x-served-by",
                            750000,
                            "CloudFront served-by header detected",
                            v,
                            "cloudfront-served-by-pattern",
                        ),
                    )
                } else {
                    None
                }
            },
            None => None,
        };
        proof {
            assert(served_ev.deep_view() == aws_served_by_ev(resp@));
        }
        push_opt(&mut ev, served_ev);
        let timer_ev: Option<Evidence> = match resp.get_header("x-timer") {
            Some(v) => {
                if str_contains(v.as_str(), "S") && (Self::cf_marker(resp) || resp.header_contains(
                    "server",
                    "CloudFront",
                )) {
                    Some(
                        mk_header_evidence(
                            "x-timer",
                            650000,
                            "CloudFront timing header detected",
                            v,
                            "cloudfront-timer-pattern",
                        ),
                    )
                } else {
                    None
                }
            },
            None => None,
        };
        proof {
            assert(timer_ev.deep_view() == aws_timer_ev(resp@));
        }
        push_opt(&mut ev, timer_ev);
        let pop_ev: Option<Evidence> = match resp.get_header("x-amz-cf-pop") {
            Some(v) => {
                let vs = v.as_str();
                let n: usize = vs.unicode_len();
                if n >= 6 && Self::alpha(vs.get_char(0)) && Self::alpha(vs.get_char(1))
                    && Self::alpha(vs.get_char(2)) {
                    Some(
                        mk_header_evidence(
                            "x-amz-cf-pop",
                            900000,
                            "CloudFront edge location header detected",
                            v,
                            "cloudfront-pop-flexible-pattern",
                        ),
                    )
                } else {
                    None
                }
            },
            None => None,
        };
        proof {
            assert(pop_ev.deep_view() == aws_pop_flexible_ev(resp@));
        }
        push_opt(&mut ev, pop_ev);
        push_opt(
            &mut ev,
            resp.check_header_present(
                "x-amz-request-id",
                800000,
                "AWS request ID header",
                "x-amz-request-id-pattern",
            ),
        );
        push_opt(
            &mut ev,
            resp.check_header_present(
                "x-amz-id-2",
                750000,
                "AWS extended request ID header",
                "x-amz-id-2-pattern",
            ),
        );
        push_opt(
            &mut ev,
            resp.check_header_present(
                "x-amz-bucket-region",
                750000,
                "AWS S3 bucket region header",
                "x-amz-bucket-region-pattern",
            ),
        );
        push_opt(
            &mut ev,
            resp.check_header_present(
                "x-amz-server-side-encryption",
                700000,
                "AWS S3 encryption header",
                "x-amz-server-side-encryption-pattern",
            ),
        );
        push_opt(
            &mut ev,
            resp.check_header_present(
                "x-amz-apigw-id",
                850000,
                "AWS API Gateway ID header",
                "x-amz-apigw-id-pattern",
            ),
        );
        push_opt(
            &mut ev,
            resp.check_header_present(
                "x-amzn-trace-id",
                800000,
                "AWS X-Ray trace ID header",
                "x-amzn-trace-id-pattern",
            ),
        );
        let csp_ev: Option<Evidence> = match resp.get_header("content-security-policy") {
            Some(v) => {
                if str_contains(v.as_str(), "cloudfront.net") || str_contains(
                    v.as_str(),
                    "amazonaws.com",
                ) {
                    Some(
                        mk_header_evidence(
                            "content-security-policy",
                            700000,
                            "AWS/CloudFront CSP directive detected",
                            v,
                            "aws-csp-pattern",
                        ),
                    )
                } else {
                    None
                }
            },
            None => None,
        };
        proof {
            assert(csp_ev.deep_view() == aws_csp_ev(resp@));
        }
        push_opt(&mut ev, csp_ev);
        let etag_ev: Option<Evidence> = match resp.get_header("etag") {
            Some(v) => {
                if str_contains(v.as_str(), "-") && v.as_str().unicode_len() > 10
                    && resp.has_header("age") && resp.has_header("cache-control") {
                    Some(
                        mk_header_evidence(
                            "etag",
                            450000,
                            "ETag pattern suggesting CloudFront presence",
                            v,
                            "cloudfront-etag-pattern",
                        ),
                    )
                } else {
                    None
                }
            },
            None => None,
        };
        proof {
            assert(etag_ev.deep_view() == aws_etag_ev(resp@));
        }
        push_opt(&mut ev, etag_ev);
        let cc_ev: Option<Evidence> = match resp.get_header("cache-control") {
            Some(v) => {
                if str_contains(v.as_str(), "max-age") && resp.has_header("age") && (
                Self::cf_marker(resp) || resp.header_contains("server", "CloudFront")
                    || resp.has_header("x-amzn-requestid")) {
                    Some(
                        mk_header_evidence(
                            "cache-control",
                            350000,
                            "Cache-control pattern with CloudFront evidence",
                            v,
                            "cloudfront-cache-pattern",
                        ),
                    )
                } else {
                    None
                }
            },
            None => None,
        };
        proof {
            assert(cc_ev.deep_view() == aws_cc_ev(resp@));
        }
        push_opt(&mut ev, cc_ev);
        let cors_ev: Option<Evidence> = match resp.get_header("access-control-allow-origin") {
            Some(v) => {
                if str_contains(v.as_str(), "amazonaws.com") || str_contains(
                    v.as_str(),
                    "cloudfront.net",
                ) {
                    Some(
                        mk_header_evidence(
                            "access-control-allow-origin",
                            800000,
                            "CORS header pointing to AWS services",
                            v,
                            "aws-cors-pattern",
                        ),
                    )
                } else {
                    None
                }
            },
            None => None,
        };
        proof {
            assert(cors_ev.deep_view() == aws_cors_ev(resp@));
        }
        push_opt(&mut ev, cors_ev);
        proof {
            assert(ev.deep_view() =~= aws_headers_spec(resp@));
        }
        ev
    }

    /// Whether a character is an ASCII letter.
    fn alpha(c: char) -> (r: bool)
        ensures
            r == is_ascii_alpha(c),
    {
        ('A' <= c && c <= 'Z') || ('a' <= c && c <= 'z')
    }

    pub fn check_body_patterns(&self, resp: &HttpResponse) -> (r: Vec<Evidence>)
        ensures
            r.deep_view() == aws_body_spec(resp@),
    {
        let mut ev: Vec<Evidence> = Vec::new();
        push_opt(
            &mut ev,
            resp.check_body_regex(
                AWS_ERROR_BODY_PAT,
                "access-denied-page",
                "access-denied-detected",
                750000,
                "AWS access denied page pattern detected",
                "aws-error-body-pattern",
            ),
        );
        push_opt(
            &mut ev,
            resp.check_body_regex(
                AWS_JSON_ERROR_PAT,
                "json-error-response",
                "json-error-detected",
                800000,
                "AWS JSON error response detected",
                "aws-json-error-pattern",
            ),
        );
        proof {
            assert(ev.deep_view() =~= aws_body_spec(resp@));
        }
        ev
    }

    pub fn check_status_codes(&self, resp: &HttpResponse) -> (r: Vec<Evidence>)
        ensures
            r.deep_view() == aws_status_spec(resp@),
    {
        let mut ev: Vec<Evidence> = Vec::new();
        if resp.status == 403 && (resp.has_header("x-amzn-requestid") || resp.has_header(
            "x-amzn-errortype",
        ) || resp.has_header("x-amz-cf-id") || regex_match(
            AWS_ERROR_BODY_PAT,
            resp.body.as_str(),
        )) {
            ev.push(
                mk_status_evidence(
                    403,
                    750000,
                    "AWS WAF 403 Forbidden response",
                    "403",
                    "aws-403-pattern",
                ),
            );
        } else if resp.status == 429 && (resp.has_header("x-amzn-requestid") || resp.has_header(
            "x-amz-cf-id",
        )) {
            ev.push(
                mk_status_evidence(
                    429,
                    800000,
                    "AWS rate limiting detected",
                    "429",
                    "aws-429-pattern",
                ),
            );
        } else if resp.status == 503 && (resp.has_header("x-amzn-requestid") || resp.has_header(
            "x-amz-cf-id",
        )) {
            ev.push(
                mk_status_evidence(
                    503,
                    700000,
                    "AWS service unavailable response",
                    "503",
                    "aws-503-pattern",
                ),
            );
        }
        proof {
            assert(ev.deep_view() =~= aws_status_spec(resp@));
        }
        ev
    }

    /// Passive detection: headers, then body, then status rules.
    pub fn passive_detect(&self, resp: &HttpResponse) -> (r: Vec<Evidence>)
        ensures
            r.deep_view() == aws_passive_spec(resp@),
    {
        let mut ev = self.check_headers(resp);
        let mut body = self.check_body_patterns(resp);
        let mut status = self.check_status_codes(resp);
        ev.append(&mut body);
        ev.append(&mut status);
        proof {
            assert(ev.deep_view() =~= aws_passive_spec(resp@));
        }
        ev
    }

    pub fn provider_type(&self) -> (t: ProviderType)
        ensures
            t == ProviderType::Both,
    {
        ProviderType::Both
    }

    pub fn confidence_base(&self) -> (c: u64)
        ensures
            c == 500000u64,
    {
        500000
    }

    pub fn priority(&self) -> (p: u32)
        ensures
            p == 100u32,
    {
        100
    }
}

impl Clone for AwsProvider {
    /// A clone carries the same fields.
    fn clone(&self) -> (res: Self)
        ensures
            res == *self,
    {
        AwsProvider {
            name: self.name.clone(),
            version: self.version.clone(),
            description: self.description.clone(),
            enabled: self.enabled,
        }
    }
}

} // verus!
