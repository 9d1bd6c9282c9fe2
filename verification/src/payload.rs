//! Payload-based probing: the attack catalogue, the rules that decide
//! whether a response shows a probe was blocked, and the conversion of
//! blocked-probe tallies into evidence.  Sending the probes is the
//! caller's job.

use vstd::prelude::*;
use vstd::string::StringExecFns;
use crate::CONF_ONE;
use crate::DetectionMethod;
use crate::Evidence;
use crate::http::HttpResponse;
use crate::http::RespV;
use crate::text::append_str;
use crate::text::contains_seq;
use crate::text::lower_seq;
use crate::text::str_contains;
use crate::text::to_lower;
use crate::text::u64_to_string;
use crate::tally::lemma_tally_get_at;
use crate::tally::lemma_tally_get_le;
use crate::tally::sat1;
use crate::tally::tally_bounded;
use crate::tally::tally_bump;
use crate::tally::tally_get;
use crate::tally::tally_wf;

verus! {

/// Categories of attack payloads.
#[derive(Debug, Clone, Copy, PartialEq, Eq, Structural, Hash)]
pub enum PayloadCategory {
    XSS,
    SQLInjection,
    CommandInjection,
    PathTraversal,
    RemoteFileInclusion,
    XMLInjection,
    NoSQLInjection,
}

impl PayloadCategory {
    /// The lowercase tag used in signature ids.
    pub fn tag(&self) -> (r: &'static str)
        ensures
            r@ == match self {
                PayloadCategory::XSS => "xss"@,
                PayloadCategory::SQLInjection => "sqlinjection"@,
                PayloadCategory::CommandInjection => "commandinjection"@,
                PayloadCategory::PathTraversal => "pathtraversal"@,
                PayloadCategory::RemoteFileInclusion => "remotefileinclusion"@,
                PayloadCategory::XMLInjection => "xmlinjection"@,
                PayloadCategory::NoSQLInjection => "nosqlinjection"@,
            },
    {
        match self {
            PayloadCategory::XSS => "xss",
            PayloadCategory::SQLInjection => "sqlinjection",
            PayloadCategory::CommandInjection => "commandinjection",
            PayloadCategory::PathTraversal => "pathtraversal",
            PayloadCategory::RemoteFileInclusion => "remotefileinclusion",
            PayloadCategory::XMLInjection => "xmlinjection",
            PayloadCategory::NoSQLInjection => "nosqlinjection",
        }
    }
}

/// The lowercase tag of a category, as `tag` returns it.
pub open spec fn spec_cat_tag(c: PayloadCategory) -> Seq<char> {
    match c {
        PayloadCategory::XSS => "xss"@,
        PayloadCategory::SQLInjection => "sqlinjection"@,
        PayloadCategory::CommandInjection => "commandinjection"@,
        PayloadCategory::PathTraversal => "pathtraversal"@,
        PayloadCategory::RemoteFileInclusion => "remotefileinclusion"@,
        PayloadCategory::XMLInjection => "xmlinjection"@,
        PayloadCategory::NoSQLInjection => "nosqlinjection"@,
    }
}

impl View for PayloadCategory {
    type V = PayloadCategory;

    open spec fn view(&self) -> PayloadCategory {
        *self
    }
}

impl DeepView for PayloadCategory {
    type V = PayloadCategory;

    open spec fn deep_view(&self) -> PayloadCategory {
        *self
    }
}

/// One payload with the blocking patterns it tends to trigger.
#[derive(Debug, Clone)]
pub struct Payload {
    pub category: PayloadCategory,
    pub payload: String,
    pub description: String,
    pub expected_blocks: Vec<String>,
}

/// Mathematical model of a `Payload`.
pub struct PayloadV {
    pub category: PayloadCategory,
    pub payload: Seq<char>,
    pub description: Seq<char>,
    pub expected_blocks: Seq<Seq<char>>,
}

impl View for Payload {
    type V = PayloadV;

    open spec fn view(&self) -> PayloadV {
        PayloadV {
            category: self.category,
            payload: self.payload@,
            description: self.description@,
            expected_blocks: self.expected_blocks.deep_view(),
        }
    }
}

impl DeepView for Payload {
    type V = PayloadV;

    open spec fn deep_view(&self) -> PayloadV {
        self.view()
    }
}

/// Configuration for payload analysis.
#[derive(Debug, Clone, Copy, PartialEq, Eq, Structural)]
pub struct PayloadConfig {
    pub max_payloads_per_category: usize,
    /// Per-request timeout, in seconds.
    pub request_timeout: u64,
    /// Delay between consecutive probes, in milliseconds.
    pub request_delay_ms: u64,
    pub aggressive_mode: bool,
}

impl Default for PayloadConfig {
    fn default() -> (r: Self)
        ensures
            r == (PayloadConfig {
                max_payloads_per_category: 3usize,
                request_timeout: 10u64,
                request_delay_ms: 500u64,
                aggressive_mode: false,
            }),
    {
        PayloadConfig {
            max_payloads_per_category: 3,
            request_timeout: 10,
            request_delay_ms: 500,
            aggressive_mode: false,
        }
    }
}

/// Baseline response facts a probe outcome is compared against.
#[derive(Debug, Clone)]
pub struct BaselineInfo {
    pub status: u16,
    pub headers: Vec<(String, String)>,
    pub body_length: usize,
    pub response_time_ms: u64,
}

/// One blocked probe.
#[derive(Debug, Clone)]
pub struct BlockedPayload {
    pub category: PayloadCategory,
    pub payload: String,
    pub response_status: u16,
    pub response_headers: Vec<(String, String)>,
    pub response_body_sample: String,
    pub block_reason: String,
}

/// The whole payload analysis outcome.
#[derive(Debug, Clone)]
pub struct PayloadAnalysisResult {
    pub detected_waf: Option<String>,
    /// Confidence in micro units.
    pub confidence: u64,
    pub blocked_payloads: Vec<BlockedPayload>,
    pub baseline_response: BaselineInfo,
    pub analysis_time_ms: u64,
}

/// The payload prober's decision logic.
#[derive(Debug, Clone)]
pub struct PayloadAnalyzer {
    pub config: PayloadConfig,
}

/// A blocking status that differs from the baseline.
pub open spec fn status_shows_block(status: u16, baseline_status: u16) -> bool {
    status != baseline_status && (status == 403 || status == 406 || status == 429 || status
        == 503)
}

/// Whether some header name or value carries a WAF blocking marker.
pub open spec fn headers_show_block(hs: Seq<(Seq<char>, Seq<char>)>) -> bool {
    exists|i: int|
        0 <= i < hs.len() && (contains_seq(lower_seq(#[trigger] hs[i].0), "blocked"@)
            || contains_seq(lower_seq(hs[i].0), "security"@) || contains_seq(
            lower_seq(hs[i].1),
            "blocked"@,
        ) || contains_seq(lower_seq(hs[i].1), "forbidden"@) || contains_seq(
            lower_seq(hs[i].1),
            "violation"@,
        ) || contains_seq(lower_seq(hs[i].1), "waf"@))
}

/// Whether the body carries one of the standard blocking indicators.
pub open spec fn body_shows_block(body: Seq<char>) -> bool {
    ||| contains_seq(lower_seq(body), "access denied"@)
    ||| contains_seq(lower_seq(body), "blocked"@)
    ||| contains_seq(lower_seq(body), "forbidden"@)
    ||| contains_seq(lower_seq(body), "security violation"@)
    ||| contains_seq(lower_seq(body), "malicious request"@)
    ||| contains_seq(lower_seq(body), "attack detected"@)
    ||| contains_seq(lower_seq(body), "suspicious activity"@)
    ||| contains_seq(lower_seq(body), "request blocked"@)
    ||| contains_seq(lower_seq(body), "security alert"@)
    ||| contains_seq(lower_seq(body), "threat detected"@)
}

/// Whether the body matches one of the payload's expected blocking
/// patterns.
pub open spec fn expected_block_hit(body: Seq<char>, expected: Seq<Seq<char>>) -> bool {
    exists|i: int|
        0 <= i < expected.len() && contains_seq(lower_seq(body), lower_seq(#[trigger] expected[i]))
}

/// A sharp body shrink against the baseline also counts as blocking.
pub open spec fn body_shrunk(body_len: int, baseline_len: int) -> bool {
    (if body_len >= baseline_len {
        body_len - baseline_len
    } else {
        baseline_len - body_len
    }) > 1000 && 2 * body_len < baseline_len
}

/// The whole blocking decision for one probe response.
pub open spec fn spec_is_blocked(r: RespV, baseline_status: u16, baseline_len: int, expected: Seq<
    Seq<char>,
>) -> bool {
    ||| status_shows_block(r.status, baseline_status)
    ||| headers_show_block(r.headers)
    ||| body_shows_block(r.body)
    ||| expected_block_hit(r.body, expected)
    ||| body_shrunk(r.body.len() as int, baseline_len)
}

/// The vendor a single header points at, if any.
pub open spec fn spec_waf_from_header(name: Seq<char>, value: Seq<char>) -> Option<Seq<char>> {
    if contains_seq(lower_seq(name), "cf-"@) || contains_seq(lower_seq(value), "cloudflare"@) {
        Some("CloudFlare"@)
    } else if contains_seq(lower_seq(name), "x-amz"@) || contains_seq(lower_seq(value), "aws"@) {
        Some("AWS WAF"@)
    } else if contains_seq(lower_seq(name), "akamai"@) || contains_seq(
        lower_seq(value),
        "akamai"@,
    ) {
        Some("Akamai"@)
    } else if contains_seq(lower_seq(name), "x-sucuri"@) || contains_seq(
        lower_seq(value),
        "sucuri"@,
    ) {
        Some("Sucuri"@)
    } else if contains_seq(lower_seq(name), "x-denied-reason"@) || contains_seq(
        lower_seq(name),
        "x-wzws"@,
    ) {
        Some("WebZealots"@)
    } else {
        None
    }
}

/// The vendor a body sample points at, if any.
pub open spec fn spec_waf_from_body(body: Seq<char>) -> Option<Seq<char>> {
    if contains_seq(lower_seq(body), "cloudflare"@) || contains_seq(lower_seq(body), "cf-ray"@) {
        Some("CloudFlare"@)
    } else if contains_seq(lower_seq(body), "akamai"@) {
        Some("Akamai"@)
    } else if contains_seq(lower_seq(body), "aws"@) && contains_seq(lower_seq(body), "waf"@) {
        Some("AWS WAF"@)
    } else if contains_seq(lower_seq(body), "modsecurity"@) {
        Some("ModSecurity"@)
    } else if contains_seq(lower_seq(body), "f5"@) || contains_seq(lower_seq(body), "bigip"@) {
        Some("F5 BIG-IP"@)
    } else {
        None
    }
}

/// The weight one header contributes to a vendor: a header hit is worth
/// 0.3.
pub open spec fn hdr_vote(hs: Seq<(Seq<char>, Seq<char>)>, v: Seq<char>) -> int
    decreases hs.len(),
{
    if hs.len() == 0 {
        0
    } else {
        hdr_vote(hs.drop_last(), v) + if spec_waf_from_header(hs.last().0, hs.last().1) == Some(
            v,
        ) {
            300000int
        } else {
            0int
        }
    }
}

/// The weight one blocked probe contributes to a vendor: 0.3 per header
/// hit, 0.2 for a body hit, and 0.1 or 0.15 for the status-keyed entries.
pub open spec fn blocked_vote_one(b: BlockedPayload, v: Seq<char>) -> int {
    hdr_vote(b.response_headers.deep_view(), v) + (if spec_waf_from_body(
        b.response_body_sample@,
    ) == Some(v) {
        200000int
    } else {
        0int
    }) + (if b.response_status == 403 && v == "Generic WAF"@ {
        100000int
    } else if b.response_status == 406 && v == "ModSecurity"@ {
        150000int
    } else {
        0int
    })
}

/// The total weight the blocked probes give a vendor.
pub open spec fn blocked_vote(bs: Seq<BlockedPayload>, v: Seq<char>) -> int
    decreases bs.len(),
{
    if bs.len() == 0 {
        0
    } else {
        blocked_vote(bs.drop_last(), v) + blocked_vote_one(bs.last(), v)
    }
}

/// Header votes are never negative.
pub proof fn lemma_hdr_vote_nonneg(hs: Seq<(Seq<char>, Seq<char>)>, v: Seq<char>)
    ensures
        hdr_vote(hs, v) >= 0,
    decreases hs.len(),
{
    if hs.len() > 0 {
        lemma_hdr_vote_nonneg(hs.drop_last(), v);
    }
}

/// Vote totals are never negative.
pub proof fn lemma_blocked_vote_nonneg(bs: Seq<BlockedPayload>, v: Seq<char>)
    ensures
        blocked_vote(bs, v) >= 0,
    decreases bs.len(),
{
    if bs.len() > 0 {
        lemma_blocked_vote_nonneg(bs.drop_last(), v);
        lemma_hdr_vote_nonneg(bs.last().response_headers.deep_view(), v);
    }
}

/// One catalogue entry.
pub open spec fn pl(
    category: PayloadCategory,
    payload: Seq<char>,
    description: Seq<char>,
    expected: Seq<Seq<char>>,
) -> PayloadV {
    PayloadV { category, payload, description, expected_blocks: expected }
}

/// The base probe catalogue: three XSS, three SQL injection, two command
/// injection and two path traversal payloads, each with the blocking
/// patterns it tends to trigger.
pub open spec fn spec_base_payloads() -> Seq<PayloadV> {
    seq![
        pl(
            PayloadCategory::XSS,
            "<script>alert('XSS')</script>"@,
            "Basic XSS payload"@,
            seq!["xss"@, "script"@],
        ),
        pl(
            PayloadCategory::XSS,
            "javascript:alert('XSS')"@,
            "JavaScript URI XSS"@,
            seq!["javascript"@],
        ),
        pl(
            PayloadCategory::XSS,
            "<img src=x onerror=alert('XSS')>"@,
            "Image onerror XSS"@,
            seq!["onerror"@, "img"@],
        ),
        pl(
            PayloadCategory::SQLInjection,
            "' OR '1'='1"@,
            "Basic SQL injection"@,
            seq!["sql"@, "injection"@],
        ),
        pl(
            PayloadCategory::SQLInjection,
            "1; DROP TABLE users--"@,
            "SQL DROP TABLE"@,
            seq!["drop"@, "table"@],
        ),
        pl(
            PayloadCategory::SQLInjection,
            "UNION SELECT * FROM users"@,
            "SQL UNION attack"@,
            seq!["union"@, "select"@],
        ),
        pl(
            PayloadCategory::CommandInjection,
            "; cat /etc/passwd"@,
            "Unix command injection"@,
            seq!["command"@, "injection"@],
        ),
        pl(
            PayloadCategory::CommandInjection,
            "| whoami"@,
            "Pipe command injection"@,
            seq!["whoami"@],
        ),
        pl(
            PayloadCategory::PathTraversal,
            "../../../etc/passwd"@,
            "Path traversal attack"@,
            seq!["traversal"@, "directory"@],
        ),
        pl(
            PayloadCategory::PathTraversal,
            "....//....//....//etc/passwd"@,
            "Double dot traversal"@,
            seq!["traversal"@],
        ),
    ]
}

/// The two extra payloads aggressive mode adds.
pub open spec fn spec_aggressive_payloads() -> Seq<PayloadV> {
    seq![
        pl(
            PayloadCategory::XMLInjection,
            "<?xml version=\"1.0\"?><!DOCTYPE test [<!ENTITY test SYSTEM \"file:///etc/passwd\">]><test>&test;</test>"@,
            "XXE injection"@,
            seq!["xxe"@, "xml"@],
        ),
        pl(
            PayloadCategory::NoSQLInjection,
            "'; return db.users.find(); var dummy='"@,
            "NoSQL injection"@,
            seq!["nosql"@],
        ),
    ]
}

impl PayloadAnalyzer {
    pub fn new() -> (r: Self)
        ensures
            r.config == (PayloadConfig {
                max_payloads_per_category: 3usize,
                request_timeout: 10u64,
                request_delay_ms: 500u64,
                aggressive_mode: false,
            }),
    {
        PayloadAnalyzer { config: PayloadConfig::default() }
    }

    pub fn with_config(self, config: PayloadConfig) -> (r: Self)
        ensures
            r.config == config,
    {
        PayloadAnalyzer { config }
    }

    /// One catalogue entry.
    fn mk_payload(
        category: PayloadCategory,
        payload: &str,
        description: &str,
        expected: Vec<String>,
    ) -> (r: Payload)
        ensures
            r@ == pl(category, payload@, description@, expected.deep_view()),
    {
        Payload {
            category,
            payload: <String as StringExecFns>::from_str(payload),
            description: <String as StringExecFns>::from_str(description),
            expected_blocks: expected,
        }
    }

    /// One expected-blocks list.
    fn blocks1(a: &str) -> (r: Vec<String>)
        ensures
            r.deep_view() == seq![a@],
    {
        let mut v: Vec<String> = Vec::new();
        v.push(<String as StringExecFns>::from_str(a));
        proof {
            assert(v.deep_view() =~= seq![a@]);
        }
        v
    }

    /// A two-entry expected-blocks list.
    fn blocks2(a: &str, b: &str) -> (r: Vec<String>)
        ensures
            r.deep_view() == seq![a@, b@],
    {
        let mut v: Vec<String> = Vec::new();
        v.push(<String as StringExecFns>::from_str(a));
        v.push(<String as StringExecFns>::from_str(b));
        proof {
            assert(v.deep_view() =~= seq![a@, b@]);
        }
        v
    }

    /// The probe catalogue: the base list, plus the aggressive extras when
    /// configured; exactly the pinned tables.
    pub fn get_test_payloads(&self) -> (r: Vec<Payload>)
        ensures
            !self.config.aggressive_mode ==> r.deep_view() == spec_base_payloads(),
            self.config.aggressive_mode ==> r.deep_view() == spec_base_payloads()
                + spec_aggressive_payloads(),
    {
        let mut payloads: Vec<Payload> = Vec::new();
        payloads.push(
            Self::mk_payload(
                PayloadCategory::XSS,
                "<script>alert('XSS')</script>",
                "Basic XSS payload",
                Self::blocks2("xss", "script"),
            ),
        );
        payloads.push(
            Self::mk_payload(
                PayloadCategory::XSS,
                "javascript:alert('XSS')",
                "JavaScript URI XSS",
                Self::blocks1("javascript"),
            ),
        );
        payloads.push(
            Self::mk_payload(
                PayloadCategory::XSS,
                "<img src=x onerror=alert('XSS')>",
                "Image onerror XSS",
                Self::blocks2("onerror", "img"),
            ),
        );
        payloads.push(
            Self::mk_payload(
                PayloadCategory::SQLInjection,
                "' OR '1'='1",
                "Basic SQL injection",
                Self::blocks2("sql", "injection"),
            ),
        );
        payloads.push(
            Self::mk_payload(
                PayloadCategory::SQLInjection,
                "1; DROP TABLE users--",
                "SQL DROP TABLE",
                Self::blocks2("drop", "table"),
            ),
        );
        payloads.push(
            Self::mk_payload(
                PayloadCategory::SQLInjection,
                "UNION SELECT * FROM users",
                "SQL UNION attack",
                Self::blocks2("union", "select"),
            ),
        );
        payloads.push(
            Self::mk_payload(
                PayloadCategory::CommandInjection,
                "; cat /etc/passwd",
                "Unix command injection",
                Self::blocks2("command", "injection"),
            ),
        );
        payloads.push(
            Self::mk_payload(
                PayloadCategory::CommandInjection,
                "| whoami",
                "Pipe command injection",
                Self::blocks1("whoami"),
            ),
        );
        payloads.push(
            Self::mk_payload(
                PayloadCategory::PathTraversal,
                "../../../etc/passwd",
                "Path traversal attack",
                Self::blocks2("traversal", "directory"),
            ),
        );
        payloads.push(
            Self::mk_payload(
                PayloadCategory::PathTraversal,
                "....//....//....//etc/passwd",
                "Double dot traversal",
                Self::blocks1("traversal"),
            ),
        );
        proof {
            assert(payloads.deep_view() =~~= spec_base_payloads());
        }
        if self.config.aggressive_mode {
            payloads.push(
                Self::mk_payload(
                    PayloadCategory::XMLInjection,
                    "<?xml version=\"1.0\"?><!DOCTYPE test [<!ENTITY test SYSTEM \"file:///etc/passwd\">]><test>&test;</test>",
                    "XXE injection",
                    Self::blocks2("xxe", "xml"),
                ),
            );
            payloads.push(
                Self::mk_payload(
                    PayloadCategory::NoSQLInjection,
                    "'; return db.users.find(); var dummy='",
                    "NoSQL injection",
                    Self::blocks1("nosql"),
                ),
            );
            proof {
                assert(payloads.deep_view() =~~= spec_base_payloads()
                    + spec_aggressive_payloads());
            }
        }
        payloads
    }

    /// Whether a probe response shows the request was blocked: a blocking
    /// status differing from the baseline, a blocking header, a blocking
    /// body indicator, an expected per-payload pattern, or a sharp body
    /// shrink.
    pub fn is_blocked_response(
        &self,
        response: &HttpResponse,
        baseline: &BaselineInfo,
        payload: &Payload,
    ) -> (r: bool)
        ensures
            r == spec_is_blocked(
                response@,
                baseline.status,
                baseline.body_length as int,
                payload.expected_blocks.deep_view(),
            ),
    {
        let status_block = response.status != baseline.status && (response.status == 403
            || response.status == 406 || response.status == 429 || response.status == 503);
        let ghost hs = response@.headers;
        let n: usize = response.headers.len();
        let mut i: usize = 0;
        let mut header_block = false;
        while i < n
            invariant
                n == response.headers.len(),
                hs == response@.headers,
                i <= n,
                header_block ==> headers_show_block(hs),
                !header_block ==> forall|k: int|
                    0 <= k < i ==> !(contains_seq(lower_seq(#[trigger] hs[k].0), "blocked"@)
                        || contains_seq(lower_seq(hs[k].0), "security"@) || contains_seq(
                        lower_seq(hs[k].1),
                        "blocked"@,
                    ) || contains_seq(lower_seq(hs[k].1), "forbidden"@) || contains_seq(
                        lower_seq(hs[k].1),
                        "violation"@,
                    ) || contains_seq(lower_seq(hs[k].1), "waf"@)),
            decreases n - i,
        {
            proof {
                assert(response.headers.deep_view()[i as int] == hs[i as int]);
                assert(response.headers[i as int].deep_view() == hs[i as int]);
                assert(response.headers[i as int].0@ == hs[i as int].0);
                assert(response.headers[i as int].1@ == hs[i as int].1);
            }
            let name_lower = to_lower(response.headers[i].0.as_str());
            let value_lower = to_lower(response.headers[i].1.as_str());
            if str_contains(name_lower.as_str(), "blocked") || str_contains(
                name_lower.as_str(),
                "security",
            ) || str_contains(value_lower.as_str(), "blocked") || str_contains(
                value_lower.as_str(),
                "forbidden",
            ) || str_contains(value_lower.as_str(), "violation") || str_contains(
                value_lower.as_str(),
                "waf",
            ) {
                header_block = true;
            }
            i = i + 1;
        }
        let body_lower = to_lower(response.body.as_str());
        let body_block = str_contains(body_lower.as_str(), "access denied") || str_contains(
            body_lower.as_str(),
            "blocked",
        ) || str_contains(body_lower.as_str(), "forbidden") || str_contains(
            body_lower.as_str(),
            "security violation",
        ) || str_contains(body_lower.as_str(), "malicious request") || str_contains(
            body_lower.as_str(),
            "attack detected",
        ) || str_contains(body_lower.as_str(), "suspicious activity") || str_contains(
            body_lower.as_str(),
            "request blocked",
        ) || str_contains(body_lower.as_str(), "security alert") || str_contains(
            body_lower.as_str(),
            "threat detected",
        );
        let ghost exp = payload.expected_blocks.deep_view();
        let m: usize = payload.expected_blocks.len();
        let mut j: usize = 0;
        let mut expected_hit = false;
        while j < m
            invariant
                m == payload.expected_blocks.len(),
                exp == payload.expected_blocks.deep_view(),
                body_lower@ == lower_seq(response@.body),
                j <= m,
                expected_hit ==> expected_block_hit(response@.body, exp),
                !expected_hit ==> forall|k: int|
                    0 <= k < j ==> !contains_seq(lower_seq(response@.body), lower_seq(
                        #[trigger] exp[k],
                    )),
            decreases m - j,
        {
            proof {
                assert(payload.expected_blocks.deep_view()[j as int] == payload.expected_blocks@[
                    j as int
                ].deep_view());
            }
            let needle_lower = to_lower(payload.expected_blocks[j].as_str());
            if str_contains(body_lower.as_str(), needle_lower.as_str()) {
                expected_hit = true;
            }
            j = j + 1;
        }
        let body_len: usize = response.body.as_str().unicode_len();
        let diff: usize = if body_len >= baseline.body_length {
            body_len - baseline.body_length
        } else {
            baseline.body_length - body_len
        };
        let shrunk = diff > 1000 && 2 * (body_len as u128) < (baseline.body_length as u128);
        status_block || header_block || body_block || expected_hit || shrunk
    }

    /// The reason a blocked probe is reported with: the status code when
    /// it is a blocking one, otherwise the vendor the body names, and a
    /// generic note after that.
    pub fn determine_block_reason(&self, response: &HttpResponse, payload: &Payload) -> (r: String)
        ensures
            response@.status == 403 ==> r@ == "HTTP 403 Forbidden - Access blocked"@,
            response@.status == 406 ==> r@ == "HTTP 406 Not Acceptable - Request blocked"@,
            response@.status == 429 ==> r@ == "HTTP 429 Too Many Requests - Rate limited"@,
    {
        if response.status == 403 {
            return <String as StringExecFns>::from_str("HTTP 403 Forbidden - Access blocked");
        }
        if response.status == 406 {
            return <String as StringExecFns>::from_str("HTTP 406 Not Acceptable - Request blocked");
        }
        if response.status == 429 {
            return <String as StringExecFns>::from_str("HTTP 429 Too Many Requests - Rate limited");
        }
        let body_lower = to_lower(response.body.as_str());
        if str_contains(body_lower.as_str(), "cloudflare") {
            return <String as StringExecFns>::from_str("CloudFlare security check");
        }
        if str_contains(body_lower.as_str(), "akamai") {
            return <String as StringExecFns>::from_str("Akamai security block");
        }
        if str_contains(body_lower.as_str(), "aws") && str_contains(body_lower.as_str(), "waf") {
            return <String as StringExecFns>::from_str("AWS WAF block");
        }
        let mut reason = <String as StringExecFns>::from_str("Payload blocked: ");
        append_str(&mut reason, payload.category.tag());
        append_str(&mut reason, " attack detected");
        reason
    }

    /// The vendor one response header points at, if any.
    pub fn identify_waf_from_header(&self, key: &str, value: &str) -> (r: Option<String>)
        ensures
            r.deep_view() == spec_waf_from_header(key@, value@),
    {
        let key_lower = to_lower(key);
        let value_lower = to_lower(value);
        if str_contains(key_lower.as_str(), "cf-") || str_contains(
            value_lower.as_str(),
            "cloudflare",
        ) {
            Some(<String as StringExecFns>::from_str("CloudFlare"))
        } else if str_contains(key_lower.as_str(), "x-amz") || str_contains(
            value_lower.as_str(),
            "aws",
        ) {
            Some(<String as StringExecFns>::from_str("AWS WAF"))
        } else if str_contains(key_lower.as_str(), "akamai") || str_contains(
            value_lower.as_str(),
            "akamai",
        ) {
            Some(<String as StringExecFns>::from_str("Akamai"))
        } else if str_contains(key_lower.as_str(), "x-sucuri") || str_contains(
            value_lower.as_str(),
            "sucuri",
        ) {
            Some(<String as StringExecFns>::from_str("Sucuri"))
        } else if str_contains(key_lower.as_str(), "x-denied-reason") || str_contains(
            key_lower.as_str(),
            "x-wzws",
        ) {
            Some(<String as StringExecFns>::from_str("WebZealots"))
        } else {
            None
        }
    }

    /// The vendor a body sample points at, if any.
    pub fn identify_waf_from_body(&self, body: &str) -> (r: Option<String>)
        ensures
            r.deep_view() == spec_waf_from_body(body@),
    {
        let body_lower = to_lower(body);
        if str_contains(body_lower.as_str(), "cloudflare") || str_contains(
            body_lower.as_str(),
            "cf-ray",
        ) {
            Some(<String as StringExecFns>::from_str("CloudFlare"))
        } else if str_contains(body_lower.as_str(), "akamai") {
            Some(<String as StringExecFns>::from_str("Akamai"))
        } else if str_contains(body_lower.as_str(), "aws") && str_contains(
            body_lower.as_str(),
            "waf",
        ) {
            Some(<String as StringExecFns>::from_str("AWS WAF"))
        } else if str_contains(body_lower.as_str(), "modsecurity") {
            Some(<String as StringExecFns>::from_str("ModSecurity"))
        } else if str_contains(body_lower.as_str(), "f5") || str_contains(
            body_lower.as_str(),
            "bigip",
        ) {
            Some(<String as StringExecFns>::from_str("F5 BIG-IP"))
        } else {
            None
        }
    }

    /// Tallies the blocked probes into the most likely vendor and a
    /// confidence: nothing blocked means nothing detected; with votes the
    /// vendor is one no other value out-votes (weights saturated at one),
    /// and the confidence adds a tenth per blocked probe, up to half, all
    /// clamped to 1.0; without votes the vendor is reported unknown.
    pub fn analyze_blocked_payloads(&self, blocked_payloads: &Vec<BlockedPayload>) -> (r: (
        Option<String>,
        u64,
    ))
        ensures
            blocked_payloads@.len() == 0 ==> (r.0 is None && r.1 == 0),
            blocked_payloads@.len() > 0 ==> r.0 is Some,
            r.1 <= CONF_ONE,
            (blocked_payloads@.len() > 0 && (forall|w: Seq<char>| #[trigger]
                blocked_vote(blocked_payloads@, w) == 0)) ==> (r.0 matches Some(v) && v@
                == "Unknown WAF"@ && r.1 == 300000),
            (exists|w: Seq<char>| #[trigger] blocked_vote(blocked_payloads@, w) > 0) ==> (
            r.0 matches Some(v) && blocked_vote(blocked_payloads@, v@) >= 1 && (forall|
                w: Seq<char>,
            |
                sat1(#[trigger] blocked_vote(blocked_payloads@, w)) <= sat1(
                    blocked_vote(blocked_payloads@, v@),
                )) && r.1 as int == sat1(
                sat1(blocked_vote(blocked_payloads@, v@)) + (if blocked_payloads@.len() > 5 {
                    5int
                } else {
                    blocked_payloads@.len() as int
                }) * 100000,
            )),
    {
        let ghost bs = blocked_payloads@;
        let nb: usize = blocked_payloads.len();
        if nb == 0 {
            return (None, 0);
        }
        let mut tally: Vec<(String, u64)> = Vec::new();
        let mut i: usize = 0;
        proof {
            assert(bs.take(0) =~= Seq::<BlockedPayload>::empty());
        }
        while i < nb
            invariant
                nb == blocked_payloads@.len(),
                bs == blocked_payloads@,
                i <= nb,
                tally_wf(tally@),
                tally_bounded(tally@, 100000),
                forall|v: Seq<char>| #[trigger]
                    tally_get(tally@, v) == sat1(blocked_vote(bs.take(i as int), v)),
            decreases nb - i,
        {
            let b = &blocked_payloads[i];
            let ghost hsv = b.response_headers.deep_view();
            let hn: usize = b.response_headers.len();
            let mut h: usize = 0;
            proof {
                assert(hsv.take(0) =~= Seq::<(Seq<char>, Seq<char>)>::empty());
                assert forall|v: Seq<char>| #[trigger]
                    tally_get(tally@, v) == sat1(
                        blocked_vote(bs.take(i as int), v) + hdr_vote(hsv.take(0), v),
                    ) by {}
            }
            while h < hn
                invariant
                    hn == b.response_headers.len(),
                    i < nb,
                    nb == blocked_payloads@.len(),
                    bs == blocked_payloads@,
                    b == blocked_payloads@[i as int],
                    hsv == b.response_headers.deep_view(),
                    h <= hn,
                    tally_wf(tally@),
                    tally_bounded(tally@, 100000),
                    forall|v: Seq<char>| #[trigger]
                        tally_get(tally@, v) == sat1(
                            blocked_vote(bs.take(i as int), v) + hdr_vote(
                                hsv.take(h as int),
                                v,
                            ),
                        ),
                decreases hn - h,
            {
                proof {
                    assert(b.response_headers.deep_view()[h as int] == b.response_headers@[
                        h as int
                    ].deep_view());
                    assert(b.response_headers[h as int].0@ == hsv[h as int].0);
                    assert(b.response_headers[h as int].1@ == hsv[h as int].1);
                }
                let hit = self.identify_waf_from_header(
                    b.response_headers[h].0.as_str(),
                    b.response_headers[h].1.as_str(),
                );
                match hit {
                    Some(waf) => {
                        tally_bump(&mut tally, waf.as_str(), 300000, Ghost(100000u64));
                    },
                    None => {},
                }
                h = h + 1;
                proof {
                    let cur = hsv.take(h as int);
                    assert(cur.drop_last() =~= hsv.take(h - 1));
                    assert(cur.last() == hsv[h - 1]);
                    assert forall|v: Seq<char>| #[trigger]
                        tally_get(tally@, v) == sat1(
                            blocked_vote(bs.take(i as int), v) + hdr_vote(cur, v),
                        ) by {
                        lemma_blocked_vote_nonneg(bs.take(i as int), v);
                        lemma_hdr_vote_nonneg(hsv.take(h - 1), v);
                    }
                }
            }
            proof {
                assert(hsv.take(hn as int) =~= hsv);
            }
            let body_hit = self.identify_waf_from_body(b.response_body_sample.as_str());
            match body_hit {
                Some(waf) => {
                    tally_bump(&mut tally, waf.as_str(), 200000, Ghost(100000u64));
                },
                None => {},
            }
            if b.response_status == 403 {
                tally_bump(&mut tally, "Generic WAF", 100000, Ghost(100000u64));
            } else if b.response_status == 406 {
                tally_bump(&mut tally, "ModSecurity", 150000, Ghost(100000u64));
            }
            i = i + 1;
            proof {
                let cur = bs.take(i as int);
                assert(cur.drop_last() =~= bs.take(i - 1));
                assert(cur.last() == bs[i - 1]);
                assert forall|v: Seq<char>| #[trigger]
                    tally_get(tally@, v) == sat1(blocked_vote(cur, v)) by {
                    lemma_blocked_vote_nonneg(bs.take(i - 1), v);
                    lemma_hdr_vote_nonneg(hsv, v);
                }
            }
        }
        proof {
            assert(bs.take(nb as int) =~= bs);
        }
        let block_bonus: u64 = (if nb > 5 {
            5
        } else {
            nb
        }) as u64 * 100000;
        if tally.len() == 0 {
            proof {
                assert forall|w: Seq<char>| #[trigger] blocked_vote(bs, w) == 0 by {
                    lemma_blocked_vote_nonneg(bs, w);
                    assert(tally_get(tally@, w) == sat1(blocked_vote(bs, w)));
                }
            }
            return (Some(<String as StringExecFns>::from_str("Unknown WAF")), 300000);
        }
        let best = crate::tally::tally_max(&tally);
        let v = tally[best].0.clone();
        let base = tally[best].1;
        let conf: u64 = if base + block_bonus > 1000000 {
            1000000
        } else {
            base + block_bonus
        };
        proof {
            lemma_tally_get_at(tally@, best as int);
            assert(tally_get(tally@, v@) == tally@[best as int].1 as int);
            assert(tally@[best as int].1 >= 100000);
            lemma_blocked_vote_nonneg(bs, v@);
            assert(sat1(blocked_vote(bs, v@)) >= 100000);
            assert(blocked_vote(bs, v@) >= 1);
            assert forall|w: Seq<char>|
                sat1(#[trigger] blocked_vote(bs, w)) <= sat1(blocked_vote(bs, v@)) by {
                lemma_tally_get_le(tally@, w, tally@[best as int].1 as int);
                assert(tally_get(tally@, w) == sat1(blocked_vote(bs, w)));
            }
        }
        (Some(v), conf)
    }

    /// Converts an analysis into evidence: one summary item for the
    /// identified vendor plus up to three per-payload items, every
    /// confidence a valid probability.
    pub fn to_evidence(&self, analysis: &PayloadAnalysisResult) -> (r: Vec<Evidence>)
        requires
            analysis.confidence <= CONF_ONE,
        ensures
            crate::all_evidence_wf(r.deep_view()),
            analysis.detected_waf is None ==> r@.len() == 0,
            analysis.detected_waf is Some ==> r@.len() == 1 + (
            if analysis.blocked_payloads@.len() > 3 {
                3int
            } else {
                analysis.blocked_payloads@.len() as int
            }),
            analysis.detected_waf matches Some(wn) ==> (r@[0]@.confidence == analysis.confidence
                && r@[0]@.method_type is Payload && r@[0]@.signature_matched
                == "payload_detection_"@ + crate::smoke::spec_replace_all(
                lower_seq(wn@),
                " "@,
                "_"@,
            )),
            analysis.detected_waf is Some ==> forall|j: int|
                1 <= j < r@.len() ==> ((#[trigger] r@[j])@.confidence == 700000
                    && r@[j]@.method_type is Payload && r@[j]@.signature_matched == "blocked_"@
                    + spec_cat_tag(analysis.blocked_payloads@[j - 1].category) + "_payload"@),
    {
        let mut out: Vec<Evidence> = Vec::new();
        match &analysis.detected_waf {
            Some(waf_name) => {
                let lowered = to_lower(waf_name.as_str());
                proof {
                    reveal_strlit(" ");
                }
                let underscored = crate::smoke::replace_all(lowered.as_str(), " ", "_");
                let mut sig = <String as StringExecFns>::from_str("payload_detection_");
                append_str(&mut sig, underscored.as_str());
                let mut desc = <String as StringExecFns>::from_str("Payload-based detection: ");
                append_str(&mut desc, waf_name.as_str());
                append_str(&mut desc, " blocked ");
                let cnt = u64_to_string(analysis.blocked_payloads.len() as u64);
                append_str(&mut desc, cnt.as_str());
                append_str(&mut desc, " payloads");
                let mut raw = <String as StringExecFns>::from_str("blocked payload count: ");
                append_str(&mut raw, cnt.as_str());
                proof {
                    assert(sig@ == "payload_detection_"@ + crate::smoke::spec_replace_all(
                        lower_seq(waf_name@),
                        " "@,
                        "_"@,
                    ));
                }
                out.push(Evidence {
                    method_type: DetectionMethod::Payload,
                    confidence: analysis.confidence,
                    description: desc,
                    raw_data: raw,
                    signature_matched: sig,
                });
                let nb: usize = analysis.blocked_payloads.len();
                let limit: usize = if nb > 3 {
                    3
                } else {
                    nb
                };
                let mut i: usize = 0;
                let ghost first = out@[0]@;
                while i < limit
                    invariant
                        limit <= nb,
                        limit <= 3,
                        nb == analysis.blocked_payloads@.len(),
                        nb > 3 ==> limit == 3,
                        nb <= 3 ==> limit == nb,
                        i <= limit,
                        out@.len() == 1 + i,
                        crate::all_evidence_wf(out.deep_view()),
                        out@[0]@ == first,
                        forall|j: int|
                            1 <= j < out@.len() ==> ((#[trigger] out@[j])@.confidence == 700000
                                && out@[j]@.method_type is Payload && out@[j]@.signature_matched
                                == "blocked_"@ + spec_cat_tag(
                                analysis.blocked_payloads@[j - 1].category,
                            ) + "_payload"@),
                    decreases limit - i,
                {
                    let b = &analysis.blocked_payloads[i];
                    let mut desc = <String as StringExecFns>::from_str("Blocked ");
                    append_str(&mut desc, b.category.tag());
                    append_str(&mut desc, " payload: ");
                    append_str(&mut desc, b.block_reason.as_str());
                    let mut raw = <String as StringExecFns>::from_str("Status: ");
                    let st = u64_to_string(b.response_status as u64);
                    append_str(&mut raw, st.as_str());
                    let mut sig = <String as StringExecFns>::from_str("blocked_");
                    append_str(&mut sig, b.category.tag());
                    append_str(&mut sig, "_payload");
                    proof {
                        assert(sig@ == "blocked_"@ + spec_cat_tag(
                            analysis.blocked_payloads@[i as int].category,
                        ) + "_payload"@);
                    }
                    let ghost pre = out.deep_view();
                    let ghost pre_shallow = out@;
                    out.push(Evidence {
                        method_type: DetectionMethod::Payload,
                        confidence: 700000,
                        description: desc,
                        raw_data: raw,
                        signature_matched: sig,
                    });
                    proof {
                        assert forall|q: int|
                            0 <= q < out.deep_view().len() implies crate::evidence_wf(
                            #[trigger] out.deep_view()[q]) by {
                            if q < pre.len() {
                                assert(out.deep_view()[q] == pre[q]);
                            }
                        }
                        assert forall|j: int|
                            1 <= j < out@.len() implies ((#[trigger] out@[j])@.confidence
                            == 700000 && out@[j]@.method_type is Payload
                            && out@[j]@.signature_matched == "blocked_"@ + spec_cat_tag(
                            analysis.blocked_payloads@[j - 1].category,
                        ) + "_payload"@) by {
                            if j < pre_shallow.len() {
                                assert(out@[j] == pre_shallow[j]);
                            }
                        }
                    }
                    i = i + 1;
                }
            },
            None => {},
        }
        out
    }
}

} // verus!
