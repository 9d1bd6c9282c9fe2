//! WAF effectiveness smoke testing: classifying how each probe payload was
//! answered and aggregating the outcomes into an effectiveness report.
//! Sending the probes is the caller's job.

use vstd::prelude::*;
use vstd::string::StrSliceExecFns;
use vstd::string::StringExecFns;
use crate::http::HttpResponse;
use crate::http::RespV;
use crate::outside::url_encode;
use crate::outside::url_encoded;
use crate::text::append_str;
use crate::text::contains_seq;
use crate::text::first_match_idx;
use crate::text::find_sub;
use crate::text::lower_seq;
use crate::text::str_contains;
use crate::text::str_eq;
use crate::text::to_lower;
use crate::text::u64_to_string;
use crate::tally::lemma_tally_get_at;
use crate::tally::lemma_tally_get_le;
use crate::tally::sat1;
use crate::tally::tally_bounded;
use crate::tally::tally_bump;
use crate::tally::tally_get;
use crate::tally::tally_max;
use crate::tally::tally_wf;
use crate::waf_mode::PayloadType;
use crate::waf_mode::WafMode;

verus! {

/// Smoke-test configuration.
#[derive(Debug, Clone)]
pub struct SmokeTestConfig {
    pub timeout_seconds: u64,
    pub delay_between_requests_ms: u64,
    pub max_concurrent_requests: usize,
    pub include_advanced_payloads: bool,
    pub custom_headers: Vec<(String, String)>,
}

impl Default for SmokeTestConfig {
    fn default() -> (r: Self)
        ensures
            r.timeout_seconds == 10,
            r.delay_between_requests_ms == 100,
            r.max_concurrent_requests == 3,
            r.include_advanced_payloads,
            r.custom_headers@.len() == 0,
    {
        SmokeTestConfig {
            timeout_seconds: 10,
            delay_between_requests_ms: 100,
            max_concurrent_requests: 3,
            include_advanced_payloads: true,
            custom_headers: Vec::new(),
        }
    }
}

/// How the WAF handled one payload.
#[derive(Debug, Clone, Copy, PartialEq, Eq, Structural)]
pub enum PayloadClassification {
    Blocked,
    Allowed,
    Error,
    RateLimited,
    Challenge,
}

impl PayloadClassification {
    /// The terminal colour code for this classification.
    pub fn color_code(&self) -> (r: &'static str)
        ensures
            r@ == match self {
                PayloadClassification::Blocked => "\u{1b}[32m"@,
                PayloadClassification::Allowed => "\u{1b}[31m"@,
                PayloadClassification::Error => "\u{1b}[33m"@,
                PayloadClassification::RateLimited => "\u{1b}[35m"@,
                PayloadClassification::Challenge => "\u{1b}[36m"@,
            },
    {
        match self {
            PayloadClassification::Blocked => "\u{1b}[32m",
            PayloadClassification::Allowed => "\u{1b}[31m",
            PayloadClassification::Error => "\u{1b}[33m",
            PayloadClassification::RateLimited => "\u{1b}[35m",
            PayloadClassification::Challenge => "\u{1b}[36m",
        }
    }

    /// The display text for this classification.
    pub fn display_text(&self) -> (r: &'static str)
        ensures
            r@ == match self {
                PayloadClassification::Blocked => "BLOCKED"@,
                PayloadClassification::Allowed => "ALLOWED"@,
                PayloadClassification::Error => "ERROR"@,
                PayloadClassification::RateLimited => "RATE LIMITED"@,
                PayloadClassification::Challenge => "CHALLENGE"@,
            },
    {
        match self {
            PayloadClassification::Blocked => "BLOCKED",
            PayloadClassification::Allowed => "ALLOWED",
            PayloadClassification::Error => "ERROR",
            PayloadClassification::RateLimited => "RATE LIMITED",
            PayloadClassification::Challenge => "CHALLENGE",
        }
    }

    /// A compact marker for this classification.
    pub fn emoji(&self) -> (r: &'static str)
        ensures
            r@ == match self {
                PayloadClassification::Blocked => "[+]"@,
                PayloadClassification::Allowed => "[!]"@,
                PayloadClassification::Error => "[x]"@,
                PayloadClassification::RateLimited => "[~]"@,
                PayloadClassification::Challenge => "[?]"@,
            },
    {
        match self {
            PayloadClassification::Blocked => "[+]",
            PayloadClassification::Allowed => "[!]",
            PayloadClassification::Error => "[x]",
            PayloadClassification::RateLimited => "[~]",
            PayloadClassification::Challenge => "[?]",
        }
    }
}

/// One payload's test outcome.
#[derive(Debug, Clone)]
pub struct PayloadTestResult {
    pub category: String,
    pub payload: String,
    pub payload_type: PayloadType,
    pub response_status: u16,
    pub response_time_ms: u64,
    pub classification: PayloadClassification,
    pub evidence: Vec<String>,
    pub waf_indicators: Vec<String>,
}

/// Summary statistics for one smoke test; the effectiveness is in
/// per-mille (tenths of a percent).
#[derive(Debug, Clone, Copy, PartialEq, Eq, Structural)]
pub struct TestSummary {
    pub total_tests: usize,
    pub blocked_count: usize,
    pub allowed_count: usize,
    pub error_count: usize,
    pub rate_limited_count: usize,
    pub challenge_count: usize,
    pub effectiveness_permille: u64,
    pub average_response_time_ms: u64,
}

/// A whole smoke-test run.
#[derive(Debug, Clone)]
pub struct SmokeTestResult {
    pub url: String,
    pub test_results: Vec<PayloadTestResult>,
    pub summary: TestSummary,
    pub waf_mode: Option<WafMode>,
    pub detected_waf: Option<String>,
    pub detected_cdn: Option<String>,
    pub recommendations: Vec<String>,
    pub total_time_ms: u64,
    pub timestamp: String,
    pub is_smoke_test: bool,
}

/// The smoke-test engine: configuration plus the payload catalogue.
#[derive(Debug, Clone)]
pub struct WafSmokeTest {
    pub config: SmokeTestConfig,
    pub payloads: Vec<(PayloadType, Vec<String>)>,
}

/// Whether the body shows a browser challenge.
pub open spec fn body_challenge(body: Seq<char>) -> bool {
    contains_seq(lower_seq(body), "checking your browser"@) || contains_seq(
        lower_seq(body),
        "challenge"@,
    ) || contains_seq(lower_seq(body), "captcha"@)
}

/// Whether some header carries a challenge marker in its name or value.
pub open spec fn headers_challenge(hs: Seq<(Seq<char>, Seq<char>)>) -> bool {
    exists|i: int|
        0 <= i < hs.len() && (contains_seq(
            lower_seq(#[trigger] hs[i].0),
            "checking your browser"@,
        ) || contains_seq(lower_seq(hs[i].0), "challenge"@) || contains_seq(
            lower_seq(hs[i].0),
            "captcha"@,
        ) || contains_seq(lower_seq(hs[i].1), "checking your browser"@) || contains_seq(
            lower_seq(hs[i].1),
            "challenge"@,
        ) || contains_seq(lower_seq(hs[i].1), "captcha"@))
}

/// A challenge marker anywhere in the body or the headers.
pub open spec fn challenge_marker(r: RespV) -> bool {
    body_challenge(r.body) || headers_challenge(r.headers)
}

/// A blocking marker in some header: a name naming blocked, denied or
/// security, or a value naming blocked, denied, forbidden, violation or
/// waf.
pub open spec fn headers_blocking(hs: Seq<(Seq<char>, Seq<char>)>) -> bool {
    exists|i: int|
        0 <= i < hs.len() && (contains_seq(lower_seq(#[trigger] hs[i].0), "blocked"@)
            || contains_seq(lower_seq(hs[i].0), "denied"@) || contains_seq(
            lower_seq(hs[i].0),
            "security"@,
        ) || contains_seq(lower_seq(hs[i].1), "blocked"@) || contains_seq(
            lower_seq(hs[i].1),
            "denied"@,
        ) || contains_seq(lower_seq(hs[i].1), "forbidden"@) || contains_seq(
            lower_seq(hs[i].1),
            "violation"@,
        ) || contains_seq(lower_seq(hs[i].1), "waf"@))
}

/// A blocking keyword in the body.
pub open spec fn body_blocking(body: Seq<char>) -> bool {
    ||| contains_seq(lower_seq(body), "access denied"@)
    ||| contains_seq(lower_seq(body), "blocked"@)
    ||| contains_seq(lower_seq(body), "forbidden"@)
    ||| contains_seq(lower_seq(body), "security violation"@)
    ||| contains_seq(lower_seq(body), "malicious request"@)
    ||| contains_seq(lower_seq(body), "attack detected"@)
    ||| contains_seq(lower_seq(body), "threat detected"@)
}

/// A blocking indicator anywhere in the response.
pub open spec fn blocking_indicator(r: RespV) -> bool {
    headers_blocking(r.headers) || body_blocking(r.body)
}

/// The classification rules, evaluated in order: a 429 is rate limited; a
/// challenge marker in the body or a header is a challenge; 403, 406 and
/// 503 are blocked; a clean success with no blocking indicator is allowed;
/// a blocking indicator in the headers or the body blocks anything else,
/// overriding an allowed status; what remains is an error.
pub open spec fn spec_classification(r: RespV) -> PayloadClassification {
    if r.status == 429 {
        PayloadClassification::RateLimited
    } else if challenge_marker(r) {
        PayloadClassification::Challenge
    } else if r.status == 403 || r.status == 406 || r.status == 503 {
        PayloadClassification::Blocked
    } else if (r.status == 200 || r.status == 301 || r.status == 302) && !blocking_indicator(r) {
        PayloadClassification::Allowed
    } else if blocking_indicator(r) {
        PayloadClassification::Blocked
    } else {
        PayloadClassification::Error
    }
}

/// The vendor hints one header contributes, in order.
pub open spec fn hdr_hints_one(name: Seq<char>, value: Seq<char>) -> Seq<Seq<char>> {
    (if contains_seq(lower_seq(name), "cf-"@) || contains_seq(lower_seq(value), "cloudflare"@) {
        seq!["CloudFlare"@]
    } else {
        Seq::empty()
    }) + (if contains_seq(lower_seq(name), "x-amz"@) || contains_seq(lower_seq(value), "aws"@) {
        seq!["AWS WAF"@]
    } else {
        Seq::empty()
    }) + (if contains_seq(lower_seq(name), "akamai"@) || contains_seq(
        lower_seq(value),
        "akamai"@,
    ) {
        seq!["Akamai"@]
    } else {
        Seq::empty()
    })
}

/// All vendor hints the headers contribute.
pub open spec fn hdr_hints(hs: Seq<(Seq<char>, Seq<char>)>) -> Seq<Seq<char>>
    decreases hs.len(),
{
    if hs.len() == 0 {
        Seq::empty()
    } else {
        hdr_hints(hs.drop_last()) + hdr_hints_one(hs.last().0, hs.last().1)
    }
}

/// Whether a reflected payload should be noted: the request went through
/// untouched and the body echoes the payload.
pub open spec fn spec_reflected(r: RespV, payload: Seq<char>) -> bool {
    spec_classification(r) == PayloadClassification::Allowed && contains_seq(r.body, payload)
}

/// How many results carry one classification.
pub open spec fn count_class(rs: Seq<PayloadTestResult>, c: PayloadClassification) -> int
    decreases rs.len(),
{
    if rs.len() == 0 {
        0
    } else {
        count_class(rs.drop_last(), c) + if rs.last().classification == c {
            1int
        } else {
            0int
        }
    }
}

/// Total response time over the results.
pub open spec fn sum_time(rs: Seq<PayloadTestResult>) -> int
    decreases rs.len(),
{
    if rs.len() == 0 {
        0
    } else {
        sum_time(rs.drop_last()) + rs.last().response_time_ms
    }
}

/// Protected outcomes: blocked, rate limited, or challenged.
pub open spec fn protected_count(rs: Seq<PayloadTestResult>) -> int {
    count_class(rs, PayloadClassification::Blocked) + count_class(
        rs,
        PayloadClassification::RateLimited,
    ) + count_class(rs, PayloadClassification::Challenge)
}

/// Whether some result carries a monitoring hint in its evidence.
pub open spec fn results_monitoring_hint(rs: Seq<PayloadTestResult>) -> bool {
    exists|i: int, j: int|
        0 <= i < rs.len() && 0 <= j < rs[i].evidence@.len() && (contains_seq(
            #[trigger] rs[i].evidence@[j]@,
            "monitoring"@,
        ) || contains_seq(rs[i].evidence@[j]@, "reflected"@))
}

/// The inferred mode for a result set.
pub open spec fn spec_smoke_mode(rs: Seq<PayloadTestResult>) -> Option<WafMode> {
    let total = rs.len() as int;
    let blocked = protected_count(rs);
    if total == 0 {
        None
    } else if 10 * blocked >= 8 * total {
        Some(WafMode::Blocking)
    } else if 10 * blocked >= 3 * total {
        Some(WafMode::Mixed)
    } else if blocked > 0 {
        Some(WafMode::Mixed)
    } else if results_monitoring_hint(rs) {
        Some(WafMode::Monitoring)
    } else {
        Some(WafMode::Unknown)
    }
}

/// Whether any result carries at least one vendor indicator.
pub open spec fn any_indicator(rs: Seq<PayloadTestResult>) -> bool {
    exists|i: int| 0 <= i < rs.len() && (#[trigger] rs[i].waf_indicators)@.len() > 0
}

/// How many entries of one indicator list equal `v`.
pub open spec fn ind_count_list(inds: Seq<String>, v: Seq<char>) -> int
    decreases inds.len(),
{
    if inds.len() == 0 {
        0
    } else {
        ind_count_list(inds.drop_last(), v) + if inds.last()@ == v {
            1int
        } else {
            0int
        }
    }
}

/// Total occurrences of `v` over all results' indicator lists.
pub open spec fn indicator_count(rs: Seq<PayloadTestResult>, v: Seq<char>) -> int
    decreases rs.len(),
{
    if rs.len() == 0 {
        0
    } else {
        indicator_count(rs.drop_last(), v) + ind_count_list(rs.last().waf_indicators@, v)
    }
}

/// Occurrence counts are never negative.
pub proof fn lemma_ind_count_nonneg(inds: Seq<String>, v: Seq<char>)
    ensures
        ind_count_list(inds, v) >= 0,
    decreases inds.len(),
{
    if inds.len() > 0 {
        lemma_ind_count_nonneg(inds.drop_last(), v);
    }
}

/// Total occurrence counts are never negative.
pub proof fn lemma_indicator_count_nonneg(rs: Seq<PayloadTestResult>, v: Seq<char>)
    ensures
        indicator_count(rs, v) >= 0,
    decreases rs.len(),
{
    if rs.len() > 0 {
        lemma_indicator_count_nonneg(rs.drop_last(), v);
        lemma_ind_count_nonneg(rs.last().waf_indicators@, v);
    }
}

/// An indicator that occurs somewhere counts at least once.
proof fn lemma_ind_count_at(inds: Seq<String>, b: int)
    requires
        0 <= b < inds.len(),
    ensures
        ind_count_list(inds, inds[b]@) >= 1,
    decreases inds.len(),
{
    if b == inds.len() - 1 {
        lemma_ind_count_nonneg(inds.drop_last(), inds[b]@);
    } else {
        assert(forall|i: int| 0 <= i < inds.drop_last().len() ==> inds.drop_last()[i] == inds[i]);
        lemma_ind_count_at(inds.drop_last(), b);
    }
}

/// An indicator occurring in one result counts in the total.
proof fn lemma_count_at_total(rs: Seq<PayloadTestResult>, a: int, v: Seq<char>)
    requires
        0 <= a < rs.len(),
        ind_count_list(rs[a].waf_indicators@, v) >= 1,
    ensures
        indicator_count(rs, v) >= 1,
    decreases rs.len(),
{
    if a == rs.len() - 1 {
        lemma_indicator_count_nonneg(rs.drop_last(), v);
    } else {
        assert(forall|i: int| 0 <= i < rs.drop_last().len() ==> rs.drop_last()[i] == rs[i]);
        lemma_count_at_total(rs.drop_last(), a, v);
        lemma_ind_count_nonneg(rs.last().waf_indicators@, v);
    }
}

/// A positive total count means some result carries indicators.
proof fn lemma_count_pos_any(rs: Seq<PayloadTestResult>, v: Seq<char>)
    requires
        indicator_count(rs, v) >= 1,
    ensures
        any_indicator(rs),
    decreases rs.len(),
{
    if rs.len() > 0 {
        lemma_indicator_count_nonneg(rs.drop_last(), v);
        lemma_ind_count_nonneg(rs.last().waf_indicators@, v);
        if indicator_count(rs.drop_last(), v) >= 1 {
            lemma_count_pos_any(rs.drop_last(), v);
            let a = choose|a: int|
                0 <= a < rs.drop_last().len() && (#[trigger] rs.drop_last()[
                    a
                ].waf_indicators)@.len() > 0;
            assert(rs[a].waf_indicators@.len() > 0);
        } else {
            assert(ind_count_list(rs.last().waf_indicators@, v) >= 1);
            assert(rs[rs.len() - 1].waf_indicators@.len() > 0);
        }
    }
}

/// The default smoke-test catalogue: attack payloads across the nine
/// categories.
pub open spec fn spec_smoke_payloads() -> Seq<(PayloadType, Seq<Seq<char>>)> {
    seq![
        (
            PayloadType::XssBasic,
            seq![
                "<script>alert('XSS')</script>"@,
                "<img src=x onerror=alert('XSS')>"@,
                "javascript:alert('XSS')"@,
                "<svg onload=alert('XSS')>"@,
            ],
        ),
        (
            PayloadType::XssAdvanced,
            seq![
                "\"><script>alert('XSS')</script>"@,
                "';alert('XSS');//"@,
                "<iframe src=javascript:alert('XSS')>"@,
                "<body onload=alert('XSS')>"@,
                "<<SCRIPT>alert('XSS')//<</SCRIPT>"@,
            ],
        ),
        (
            PayloadType::SqlInjectionBasic,
            seq![
                "' OR '1'='1"@,
                "'; DROP TABLE users; --"@,
                "1' UNION SELECT NULL,NULL,NULL--"@,
                "admin'--"@,
            ],
        ),
        (
            PayloadType::SqlInjectionAdvanced,
            seq![
                "1' AND (SELECT COUNT(*) FROM information_schema.tables)>0--"@,
                "'; WAITFOR DELAY '00:00:05'--"@,
                "' OR 1=1 LIMIT 1 OFFSET 0--"@,
                "1' AND EXTRACTVALUE(1, CONCAT(0x7e, (SELECT version()), 0x7e))--"@,
                "1' UNION SELECT 1,2,3,4,5,6,7,8,9,10,11,12,13,14,15,16,17,18,19,20--"@,
            ],
        ),
        (
            PayloadType::PathTraversal,
            seq![
                "../../../etc/passwd"@,
                "..\\..\\..\\windows\\system32\\drivers\\etc\\hosts"@,
                "....//....//....//etc/passwd"@,
                "%2e%2e%2f%2e%2e%2f%2e%2e%2fetc%2fpasswd"@,
                "..%252f..%252f..%252fetc%252fpasswd"@,
            ],
        ),
        (
            PayloadType::CommandInjection,
            seq![
                "; cat /etc/passwd"@,
                "| whoami"@,
                "`id`"@,
                "$(whoami)"@,
                "&& dir"@,
                "; ls -la"@,
            ],
        ),
        (
            PayloadType::FileUpload,
            seq![
                "shell.php"@,
                "test.php%00.jpg"@,
                "../../../shell.php"@,
                "shell.php.jpg"@,
                "shell.pHp"@,
            ],
        ),
        (
            PayloadType::ScannerDetection,
            seq!["sqlmap"@, "nikto"@, "nessus"@, "burpsuite"@, "acunetix"@],
        ),
        (
            PayloadType::Enumeration,
            seq!["admin"@, "administrator"@, "config.php"@, ".env"@, "wp-config.php"@],
        ),
    ]
}

/// The string with every occurrence of `from` replaced by `to`.
pub open spec fn spec_replace_all(s: Seq<char>, from: Seq<char>, to: Seq<char>) -> Seq<char>
    recommends
        from.len() > 0,
    decreases s.len(),
{
    match first_match_idx(s, from) {
        Some(i) => if i >= 0 && i + from.len() <= s.len() && from.len() > 0 {
            s.take(i) + to + spec_replace_all(s.skip(i + from.len()), from, to)
        } else {
            s
        },
        None => s,
    }
}

/// The URL a payload probe uses: a `FUZZ` marker is substituted in place,
/// otherwise the percent-encoded payload rides in the `test` query
/// parameter.
pub open spec fn spec_build_test_url(base: Seq<char>, payload: Seq<char>) -> Seq<char> {
    if contains_seq(base, "FUZZ"@) {
        spec_replace_all(base, "FUZZ"@, payload)
    } else if contains_seq(base, "?"@) {
        base + "&test="@ + url_encoded(payload)
    } else {
        base + "?test="@ + url_encoded(payload)
    }
}

/// Replaces every occurrence of `from` in `s` by `to`.
pub fn replace_all(s: &str, from: &str, to: &str) -> (r: String)
    requires
        from@.len() > 0,
    ensures
        r@ == spec_replace_all(s@, from@, to@),
    decreases s@.len(),
{
    let n: usize = s.unicode_len();
    let m: usize = from.unicode_len();
    match find_sub(s, from) {
        Some(i) => {
            proof {
                crate::text::lemma_first_match_props(s@, from@, 0);
            }
            let mut out = <String as StringExecFns>::from_str(s.substring_char(0, i));
            append_str(&mut out, to);
            let rest = replace_all(s.substring_char(i + m, n), from, to);
            append_str(&mut out, rest.as_str());
            out
        },
        None => <String as StringExecFns>::from_str(s),
    }
}

impl WafSmokeTest {
    /// The engine with its default advanced payload catalogue, pinned
    /// entry for entry.
    pub fn new(config: SmokeTestConfig) -> (r: Self)
        ensures
            r.config == config,
            r.payloads.deep_view() == spec_smoke_payloads(),
    {
        let payloads = Self::initialize_advanced_payloads();
        WafSmokeTest { config, payloads }
    }

    /// The default catalogue, exactly `spec_smoke_payloads`.
    pub fn initialize_advanced_payloads() -> (r: Vec<(PayloadType, Vec<String>)>)
        ensures
            r.deep_view() == spec_smoke_payloads(),
    {
        let mut payloads: Vec<(PayloadType, Vec<String>)> = Vec::new();
        let mut v: Vec<String> = Vec::new();
        v.push(<String as StringExecFns>::from_str("<script>alert('XSS')</script>"));
        v.push(<String as StringExecFns>::from_str("<img src=x onerror=alert('XSS')>"));
        v.push(<String as StringExecFns>::from_str("javascript:alert('XSS')"));
        v.push(<String as StringExecFns>::from_str("<svg onload=alert('XSS')>"));
        payloads.push((PayloadType::XssBasic, v));
        let mut v: Vec<String> = Vec::new();
        v.push(<String as StringExecFns>::from_str("\"><script>alert('XSS')</script>"));
        v.push(<String as StringExecFns>::from_str("';alert('XSS');//"));
        v.push(<String as StringExecFns>::from_str("<iframe src=javascript:alert('XSS')>"));
        v.push(<String as StringExecFns>::from_str("<body onload=alert('XSS')>"));
        v.push(<String as StringExecFns>::from_str("<<SCRIPT>alert('XSS')//<</SCRIPT>"));
        payloads.push((PayloadType::XssAdvanced, v));
        let mut v: Vec<String> = Vec::new();
        v.push(<String as StringExecFns>::from_str("' OR '1'='1"));
        v.push(<String as StringExecFns>::from_str("'; DROP TABLE users; --"));
        v.push(<String as StringExecFns>::from_str("1' UNION SELECT NULL,NULL,NULL--"));
        v.push(<String as StringExecFns>::from_str("admin'--"));
        payloads.push((PayloadType::SqlInjectionBasic, v));
        let mut v: Vec<String> = Vec::new();
        v.push(
            <String as StringExecFns>::from_str(
                "1' AND (SELECT COUNT(*) FROM information_schema.tables)>0--",
            ),
        );
        v.push(<String as StringExecFns>::from_str("'; WAITFOR DELAY '00:00:05'--"));
        v.push(<String as StringExecFns>::from_str("' OR 1=1 LIMIT 1 OFFSET 0--"));
        v.push(
            <String as StringExecFns>::from_str(
                "1' AND EXTRACTVALUE(1, CONCAT(0x7e, (SELECT version()), 0x7e))--",
            ),
        );
        v.push(
            <String as StringExecFns>::from_str(
                "1' UNION SELECT 1,2,3,4,5,6,7,8,9,10,11,12,13,14,15,16,17,18,19,20--",
            ),
        );
        payloads.push((PayloadType::SqlInjectionAdvanced, v));
        let mut v: Vec<String> = Vec::new();
        v.push(<String as StringExecFns>::from_str("../../../etc/passwd"));
        v.push(
            <String as StringExecFns>::from_str(
                "..\\..\\..\\windows\\system32\\drivers\\etc\\hosts",
            ),
        );
        v.push(<String as StringExecFns>::from_str("....//....//....//etc/passwd"));
        v.push(<String as StringExecFns>::from_str("%2e%2e%2f%2e%2e%2f%2e%2e%2fetc%2fpasswd"));
        v.push(<String as StringExecFns>::from_str("..%252f..%252f..%252fetc%252fpasswd"));
        payloads.push((PayloadType::PathTraversal, v));
        let mut v: Vec<String> = Vec::new();
        v.push(<String as StringExecFns>::from_str("; cat /etc/passwd"));
        v.push(<String as StringExecFns>::from_str("| whoami"));
        v.push(<String as StringExecFns>::from_str("`id`"));
        v.push(<String as StringExecFns>::from_str("$(whoami)"));
        v.push(<String as StringExecFns>::from_str("&& dir"));
        v.push(<String as StringExecFns>::from_str("; ls -la"));
        payloads.push((PayloadType::CommandInjection, v));
        let mut v: Vec<String> = Vec::new();
        v.push(<String as StringExecFns>::from_str("shell.php"));
        v.push(<String as StringExecFns>::from_str("test.php%00.jpg"));
        v.push(<String as StringExecFns>::from_str("../../../shell.php"));
        v.push(<String as StringExecFns>::from_str("shell.php.jpg"));
        v.push(<String as StringExecFns>::from_str("shell.pHp"));
        payloads.push((PayloadType::FileUpload, v));
        let mut v: Vec<String> = Vec::new();
        v.push(<String as StringExecFns>::from_str("sqlmap"));
        v.push(<String as StringExecFns>::from_str("nikto"));
        v.push(<String as StringExecFns>::from_str("nessus"));
        v.push(<String as StringExecFns>::from_str("burpsuite"));
        v.push(<String as StringExecFns>::from_str("acunetix"));
        payloads.push((PayloadType::ScannerDetection, v));
        let mut v: Vec<String> = Vec::new();
        v.push(<String as StringExecFns>::from_str("admin"));
        v.push(<String as StringExecFns>::from_str("administrator"));
        v.push(<String as StringExecFns>::from_str("config.php"));
        v.push(<String as StringExecFns>::from_str(".env"));
        v.push(<String as StringExecFns>::from_str("wp-config.php"));
        payloads.push((PayloadType::Enumeration, v));
        proof {
            assert(payloads.deep_view() =~~= spec_smoke_payloads());
        }
        payloads
    }

    /// The full user-agent string a scanner name stands for.
    pub fn scanner_user_agent(payload: &str) -> (r: &'static str)
        ensures
            payload@ == "sqlmap"@ ==> r@ == "sqlmap/1.6.12 (https://sqlmap.org)"@,
            payload@ == "nikto"@ ==> r@
                == "Mozilla/5.0 (Nikto/2.1.6) (Evasions:None) (Test:Port Check)"@,
    {
        proof {
            reveal_strlit("sqlmap");
            reveal_strlit("nikto");
            assert(("sqlmap"@).len() == 6);
            assert(("nikto"@).len() == 5);
        }
        if str_eq(payload, "sqlmap") {
            "sqlmap/1.6.12 (https://sqlmap.org)"
        } else if str_eq(payload, "nikto") {
            "Mozilla/5.0 (Nikto/2.1.6) (Evasions:None) (Test:Port Check)"
        } else if str_eq(payload, "nessus") {
            "Mozilla/5.0 (compatible; Nessus; https://www.tenable.com/)"
        } else if str_eq(payload, "burpsuite") {
            "Mozilla/5.0 (Windows NT 10.0; Win64; x64) AppleWebKit/537.36 BurpSuite"
        } else if str_eq(payload, "acunetix") {
            "Mozilla/5.0 (Windows NT 10.0; Win64; x64) AppleWebKit/537.36 Acunetix/1.0"
        } else {
            "WAF-Detector/1.0 Scanner Test"
        }
    }

    /// Builds the probe URL for a payload.
    pub fn build_test_url(&self, base_url: &str, payload: &str) -> (r: String)
        ensures
            r@ == spec_build_test_url(base_url@, payload@),
    {
        if str_contains(base_url, "FUZZ") {
            proof {
                reveal_strlit("FUZZ");
            }
            replace_all(base_url, "FUZZ", payload)
        } else if str_contains(base_url, "?") {
            let mut out = <String as StringExecFns>::from_str(base_url);
            append_str(&mut out, "&test=");
            let enc = url_encode(payload);
            append_str(&mut out, enc.as_str());
            out
        } else {
            let mut out = <String as StringExecFns>::from_str(base_url);
            append_str(&mut out, "?test=");
            let enc = url_encode(payload);
            append_str(&mut out, enc.as_str());
            out
        }
    }

    /// Classifies one response by the ordered rules, with the vendor hints
    /// the headers carry and the textual observations that say why; a
    /// reflected payload is noted when an allowed response echoes it.
    #[verifier::rlimit(100)]
    #[verifier::spinoff_prover]
    pub fn classify_response(&self, response: &HttpResponse, payload: &str) -> (r: (
        PayloadClassification,
        Vec<String>,
        Vec<String>,
    ))
        ensures
            r.0 == spec_classification(response@),
            r.2.deep_view() == hdr_hints(response@.headers),
            r.1@.len() >= 1,
            spec_reflected(response@, payload@) ==> exists|j: int|
                0 <= j < r.1@.len() && contains_seq(#[trigger] r.1@[j]@, "reflected"@),
    {
        let mut evidence: Vec<String> = Vec::new();
        let mut waf_indicators: Vec<String> = Vec::new();
        let status = response.status;
        if status == 403 {
            evidence.push(
                <String as StringExecFns>::from_str("HTTP 403 Forbidden - Request blocked"),
            );
        } else if status == 406 {
            evidence.push(
                <String as StringExecFns>::from_str("HTTP 406 Not Acceptable - Request rejected"),
            );
        } else if status == 503 {
            evidence.push(
                <String as StringExecFns>::from_str(
                    "HTTP 503 Service Unavailable - Potentially blocked",
                ),
            );
        } else if status == 429 {
            evidence.push(
                <String as StringExecFns>::from_str("HTTP 429 Too Many Requests - Rate limited"),
            );
        } else if status == 200 || status == 301 || status == 302 {
            let mut line = <String as StringExecFns>::from_str("HTTP ");
            let st = u64_to_string(status as u64);
            append_str(&mut line, st.as_str());
            append_str(&mut line, " - Request allowed through");
            evidence.push(line);
        } else {
            let mut line = <String as StringExecFns>::from_str("HTTP ");
            let st = u64_to_string(status as u64);
            append_str(&mut line, st.as_str());
            append_str(&mut line, " - Unexpected response");
            evidence.push(line);
        }
        let ghost hs = response@.headers;
        let n: usize = response.headers.len();
        let mut i: usize = 0;
        let mut hdr_challenge = false;
        let mut hdr_block = false;
        proof {
            assert(hs.take(0) =~= Seq::<(Seq<char>, Seq<char>)>::empty());
            assert(waf_indicators.deep_view() =~= hdr_hints(hs.take(0)));
        }
        while i < n
            invariant
                n == response.headers.len(),
                hs == response@.headers,
                i <= n,
                evidence@.len() >= 1,
                waf_indicators.deep_view() == hdr_hints(hs.take(i as int)),
                hdr_challenge ==> headers_challenge(hs),
                !hdr_challenge ==> forall|k: int|
                    0 <= k < i ==> !(contains_seq(
                        lower_seq(#[trigger] hs[k].0),
                        "checking your browser"@,
                    ) || contains_seq(lower_seq(hs[k].0), "challenge"@) || contains_seq(
                        lower_seq(hs[k].0),
                        "captcha"@,
                    ) || contains_seq(lower_seq(hs[k].1), "checking your browser"@)
                        || contains_seq(lower_seq(hs[k].1), "challenge"@) || contains_seq(
                        lower_seq(hs[k].1),
                        "captcha"@,
                    )),
                hdr_block ==> headers_blocking(hs),
                !hdr_block ==> forall|k: int|
                    0 <= k < i ==> !(contains_seq(lower_seq(#[trigger] hs[k].0), "blocked"@)
                        || contains_seq(lower_seq(hs[k].0), "denied"@) || contains_seq(
                        lower_seq(hs[k].0),
                        "security"@,
                    ) || contains_seq(lower_seq(hs[k].1), "blocked"@) || contains_seq(
                        lower_seq(hs[k].1),
                        "denied"@,
                    ) || contains_seq(lower_seq(hs[k].1), "forbidden"@) || contains_seq(
                        lower_seq(hs[k].1),
                        "violation"@,
                    ) || contains_seq(lower_seq(hs[k].1), "waf"@)),
            decreases n - i,
        {
            proof {
                assert(response.headers.deep_view()[i as int] == hs[i as int]);
                assert(response.headers[i as int].deep_view() == hs[i as int]);
                assert(response.headers[i as int].0@ == hs[i as int].0);
                assert(response.headers[i as int].1@ == hs[i as int].1);
            }
            let name = &response.headers[i].0;
            let value = &response.headers[i].1;
            let name_lower = to_lower(name.as_str());
            let value_lower = to_lower(value.as_str());
            proof {
                assert(name_lower@ == lower_seq(hs[i as int].0));
                assert(value_lower@ == lower_seq(hs[i as int].1));
            }
            let ghost pre = waf_indicators.deep_view();
            if str_contains(name_lower.as_str(), "cf-") || str_contains(
                value_lower.as_str(),
                "cloudflare",
            ) {
                waf_indicators.push(<String as StringExecFns>::from_str("CloudFlare"));
                let mut line = <String as StringExecFns>::from_str(
                    "CloudFlare header detected: ",
                );
                append_str(&mut line, name.as_str());
                append_str(&mut line, ": ");
                append_str(&mut line, value.as_str());
                evidence.push(line);
            }
            if str_contains(name_lower.as_str(), "x-amz") || str_contains(
                value_lower.as_str(),
                "aws",
            ) {
                waf_indicators.push(<String as StringExecFns>::from_str("AWS WAF"));
                let mut line = <String as StringExecFns>::from_str("AWS WAF header detected: ");
                append_str(&mut line, name.as_str());
                append_str(&mut line, ": ");
                append_str(&mut line, value.as_str());
                evidence.push(line);
            }
            if str_contains(name_lower.as_str(), "akamai") || str_contains(
                value_lower.as_str(),
                "akamai",
            ) {
                waf_indicators.push(<String as StringExecFns>::from_str("Akamai"));
                let mut line = <String as StringExecFns>::from_str("Akamai header detected: ");
                append_str(&mut line, name.as_str());
                append_str(&mut line, ": ");
                append_str(&mut line, value.as_str());
                evidence.push(line);
            }
            if str_contains(name_lower.as_str(), "checking your browser") || str_contains(
                name_lower.as_str(),
                "challenge",
            ) || str_contains(name_lower.as_str(), "captcha") || str_contains(
                value_lower.as_str(),
                "checking your browser",
            ) || str_contains(value_lower.as_str(), "challenge") || str_contains(
                value_lower.as_str(),
                "captcha",
            ) {
                hdr_challenge = true;
                proof {
                    assert(headers_challenge(hs));
                }
            }
            if str_contains(name_lower.as_str(), "blocked") || str_contains(
                name_lower.as_str(),
                "denied",
            ) || str_contains(name_lower.as_str(), "security") || str_contains(
                value_lower.as_str(),
                "blocked",
            ) || str_contains(value_lower.as_str(), "denied") || str_contains(
                value_lower.as_str(),
                "forbidden",
            ) || str_contains(value_lower.as_str(), "violation") || str_contains(
                value_lower.as_str(),
                "waf",
            ) {
                hdr_block = true;
                proof {
                    assert(headers_blocking(hs));
                }
                let mut line = <String as StringExecFns>::from_str("Blocking header detected: ");
                append_str(&mut line, name.as_str());
                append_str(&mut line, ": ");
                append_str(&mut line, value.as_str());
                evidence.push(line);
            }
            proof {
                assert(!hdr_block ==> !contains_seq(lower_seq(hs[i as int].0), "blocked"@));
                assert(!hdr_block ==> !contains_seq(lower_seq(hs[i as int].1), "waf"@));
                assert(!hdr_challenge ==> !contains_seq(
                    lower_seq(hs[i as int].0),
                    "challenge"@,
                ));
                assert(!hdr_challenge ==> !contains_seq(
                    lower_seq(hs[i as int].1),
                    "challenge"@,
                ));
            }
            i = i + 1;
            proof {
                let cur = hs.take(i as int);
                assert(cur.drop_last() =~= hs.take(i - 1));
                assert(cur.last() == hs[i - 1]);
                assert(waf_indicators.deep_view() =~= pre + hdr_hints_one(
                    hs[i - 1].0,
                    hs[i - 1].1,
                ));
                assert(waf_indicators.deep_view() =~= hdr_hints(cur));
                if !hdr_challenge {
                    assert forall|k: int| 0 <= k < i implies !(contains_seq(
                        lower_seq(#[trigger] hs[k].0),
                        "checking your browser"@,
                    ) || contains_seq(lower_seq(hs[k].0), "challenge"@) || contains_seq(
                        lower_seq(hs[k].0),
                        "captcha"@,
                    ) || contains_seq(lower_seq(hs[k].1), "checking your browser"@)
                        || contains_seq(lower_seq(hs[k].1), "challenge"@) || contains_seq(
                        lower_seq(hs[k].1),
                        "captcha"@,
                    )) by {
                        if k == i - 1 {
                            assert(lower_seq(hs[k].0) == name_lower@);
                            assert(lower_seq(hs[k].1) == value_lower@);
                        }
                    }
                }
                if !hdr_block {
                    assert forall|k: int| 0 <= k < i implies !(contains_seq(
                        lower_seq(#[trigger] hs[k].0),
                        "blocked"@,
                    ) || contains_seq(lower_seq(hs[k].0), "denied"@) || contains_seq(
                        lower_seq(hs[k].0),
                        "security"@,
                    ) || contains_seq(lower_seq(hs[k].1), "blocked"@) || contains_seq(
                        lower_seq(hs[k].1),
                        "denied"@,
                    ) || contains_seq(lower_seq(hs[k].1), "forbidden"@) || contains_seq(
                        lower_seq(hs[k].1),
                        "violation"@,
                    ) || contains_seq(lower_seq(hs[k].1), "waf"@)) by {
                        if k == i - 1 {
                            assert(lower_seq(hs[k].0) == name_lower@);
                            assert(lower_seq(hs[k].1) == value_lower@);
                        }
                    }
                }
            }
        }
        proof {
            assert(hs.take(n as int) =~= hs);
        }
        let body_lower = to_lower(response.body.as_str());
        let body_chal = str_contains(body_lower.as_str(), "checking your browser")
            || str_contains(body_lower.as_str(), "challenge") || str_contains(
            body_lower.as_str(),
            "captcha",
        );
        let body_block = str_contains(body_lower.as_str(), "access denied") || str_contains(
            body_lower.as_str(),
            "blocked",
        ) || str_contains(body_lower.as_str(), "forbidden") || str_contains(
            body_lower.as_str(),
            "security violation",
        ) || str_contains(body_lower.as_str(), "malicious request") || str_contains(
            body_lower.as_str(),
            "attack detected",
        ) || str_contains(body_lower.as_str(), "threat detected");
        let challenge = body_chal || hdr_challenge;
        let blocking = hdr_block || body_block;
        proof {
            assert(challenge == challenge_marker(response@));
            assert(blocking == blocking_indicator(response@));
        }
        let classification = if status == 429 {
            PayloadClassification::RateLimited
        } else if challenge {
            PayloadClassification::Challenge
        } else if status == 403 || status == 406 || status == 503 {
            PayloadClassification::Blocked
        } else if (status == 200 || status == 301 || status == 302) && !blocking {
            PayloadClassification::Allowed
        } else if blocking {
            PayloadClassification::Blocked
        } else {
            PayloadClassification::Error
        };
        proof {
            assert(classification == spec_classification(response@));
        }
        if challenge {
            evidence.push(<String as StringExecFns>::from_str("Challenge page detected"));
        } else if body_block {
            evidence.push(<String as StringExecFns>::from_str("Blocking keyword detected"));
        }
        if matches!(classification, PayloadClassification::Allowed) && str_contains(
            response.body.as_str(),
            payload,
        ) {
            let ghost pre_len = evidence@.len();
            evidence.push(
                <String as StringExecFns>::from_str(
                    "Payload reflected in response (possible monitoring mode)",
                ),
            );
            proof {
                reveal_strlit("Payload reflected in response (possible monitoring mode)");
                reveal_strlit("reflected");
                assert(crate::text::matches_at(
                    "Payload reflected in response (possible monitoring mode)"@,
                    "reflected"@,
                    8,
                )) by {
                    assert("Payload reflected in response (possible monitoring mode)"@.subrange(
                        8,
                        17,
                    ) =~= "reflected"@);
                }
                assert(contains_seq(evidence@[pre_len as int]@, "reflected"@));
            }
        }
        (classification, evidence, waf_indicators)
    }

    /// Builds the outcome record for one probe; the payload is carried
    /// over verbatim.
    pub fn result_from_response(
        &self,
        payload_type: PayloadType,
        payload: &str,
        response: &HttpResponse,
        response_time_ms: u64,
    ) -> (r: PayloadTestResult)
        ensures
            r.payload@ == payload@,
            r.payload_type == payload_type,
            r.response_status == response@.status,
            r.response_time_ms == response_time_ms,
            r.classification == spec_classification(response@),
            r.waf_indicators.deep_view() == hdr_hints(response@.headers),
    {
        let (classification, evidence, waf_indicators) = self.classify_response(
            response,
            payload,
        );
        PayloadTestResult {
            category: <String as StringExecFns>::from_str(payload_type.display_name()),
            payload: <String as StringExecFns>::from_str(payload),
            payload_type,
            response_status: response.status,
            response_time_ms,
            classification,
            evidence,
            waf_indicators,
        }
    }

    /// The outcome record for a probe that failed transport-level.
    pub fn result_from_error(
        &self,
        payload_type: PayloadType,
        payload: &str,
        response_time_ms: u64,
    ) -> (r: PayloadTestResult)
        ensures
            r.payload@ == payload@,
            r.classification == PayloadClassification::Error,
            r.response_status == 0,
    {
        let mut evidence: Vec<String> = Vec::new();
        evidence.push(<String as StringExecFns>::from_str("Request failed"));
        PayloadTestResult {
            category: <String as StringExecFns>::from_str(payload_type.display_name()),
            payload: <String as StringExecFns>::from_str(payload),
            payload_type,
            response_status: 0,
            response_time_ms,
            classification: PayloadClassification::Error,
            evidence,
            waf_indicators: Vec::new(),
        }
    }

    /// Aggregates the per-classification counts, the effectiveness in
    /// per-mille (protected outcomes over the total), and the mean
    /// response time.
    pub fn calculate_summary(&self, results: &Vec<PayloadTestResult>) -> (r: TestSummary)
        requires
            results@.len() < 0x1000000,
            forall|i: int| 0 <= i < results@.len() ==> (#[trigger] results@[i]).response_time_ms
                < 0x1000000,
        ensures
            r.total_tests == results@.len(),
            r.blocked_count as int == count_class(results@, PayloadClassification::Blocked),
            r.allowed_count as int == count_class(results@, PayloadClassification::Allowed),
            r.error_count as int == count_class(results@, PayloadClassification::Error),
            r.rate_limited_count as int == count_class(
                results@,
                PayloadClassification::RateLimited,
            ),
            r.challenge_count as int == count_class(results@, PayloadClassification::Challenge),
            results@.len() > 0 ==> r.effectiveness_permille as int == protected_count(results@)
                * 1000 / results@.len() as int,
            results@.len() == 0 ==> r.effectiveness_permille == 0,
            results@.len() > 0 ==> r.average_response_time_ms as int == sum_time(results@)
                / results@.len() as int,
            results@.len() == 0 ==> r.average_response_time_ms == 0,
    {
        let n: usize = results.len();
        let mut blocked: usize = 0;
        let mut allowed: usize = 0;
        let mut errors: usize = 0;
        let mut rate_limited: usize = 0;
        let mut challenges: usize = 0;
        let mut time_total: u64 = 0;
        let mut i: usize = 0;
        proof {
            assert(results@.take(0) =~= Seq::<PayloadTestResult>::empty());
        }
        while i < n
            invariant
                n == results@.len(),
                n < 0x1000000,
                forall|k: int| 0 <= k < n ==> (#[trigger] results@[k]).response_time_ms
                    < 0x1000000,
                i <= n,
                blocked as int == count_class(results@.take(i as int),
                PayloadClassification::Blocked),
                allowed as int == count_class(results@.take(i as int),
                PayloadClassification::Allowed),
                errors as int == count_class(results@.take(i as int), PayloadClassification::Error),
                rate_limited as int == count_class(
                    results@.take(i as int),
                    PayloadClassification::RateLimited,
                ),
                challenges as int == count_class(
                    results@.take(i as int),
                    PayloadClassification::Challenge,
                ),
                time_total as int == sum_time(results@.take(i as int)),
                time_total <= (i as u64) * 0x1000000,
                blocked <= i,
                allowed <= i,
                errors <= i,
                rate_limited <= i,
                challenges <= i,
            decreases n - i,
        {
            match results[i].classification {
                PayloadClassification::Blocked => { blocked = blocked + 1 },
                PayloadClassification::Allowed => { allowed = allowed + 1 },
                PayloadClassification::Error => { errors = errors + 1 },
                PayloadClassification::RateLimited => { rate_limited = rate_limited + 1 },
                PayloadClassification::Challenge => { challenges = challenges + 1 },
            }
            time_total = time_total + results[i].response_time_ms;
            i = i + 1;
            proof {
                let cur = results@.take(i as int);
                assert(cur.drop_last() =~= results@.take(i - 1));
                assert(cur.last() == results@[i - 1]);
                assert((i as u64) * 0x1000000 == ((i - 1) as u64) * 0x1000000 + 0x1000000);
            }
        }
        proof {
            assert(results@.take(n as int) =~= results@);
        }
        let effectiveness: u64 = if n > 0 {
            let protected_total: u64 = (blocked + rate_limited + challenges) as u64;
            protected_total * 1000 / (n as u64)
        } else {
            0
        };
        let average: u64 = if n > 0 {
            time_total / (n as u64)
        } else {
            0
        };
        TestSummary {
            total_tests: n,
            blocked_count: blocked,
            allowed_count: allowed,
            error_count: errors,
            rate_limited_count: rate_limited,
            challenge_count: challenges,
            effectiveness_permille: effectiveness,
            average_response_time_ms: average,
        }
    }

    /// Infers the WAF mode from the result classifications, exactly as the
    /// banding states.
    pub fn determine_waf_mode(&self, results: &Vec<PayloadTestResult>) -> (r: Option<WafMode>)
        requires
            results@.len() < 0x1000000,
        ensures
            r == spec_smoke_mode(results@),
    {
        let total: usize = results.len();
        if total == 0 {
            return None;
        }
        let mut blocked: usize = 0;
        let mut hint = false;
        let mut i: usize = 0;
        proof {
            assert(results@.take(0) =~= Seq::<PayloadTestResult>::empty());
        }
        while i < total
            invariant
                total == results@.len(),
                total < 0x1000000,
                i <= total,
                blocked as int == count_class(results@.take(i as int),
                PayloadClassification::Blocked) + count_class(
                    results@.take(i as int),
                    PayloadClassification::RateLimited,
                ) + count_class(results@.take(i as int), PayloadClassification::Challenge),
                blocked <= i,
                hint ==> results_monitoring_hint(results@),
                !hint ==> forall|a: int, b: int|
                    !(0 <= a < i && 0 <= b < results@[a].evidence@.len() && (contains_seq(
                        #[trigger] results@[a].evidence@[b]@,
                        "monitoring"@,
                    ) || contains_seq(results@[a].evidence@[b]@, "reflected"@))),
            decreases total - i,
        {
            let is_protected = matches!(results[i].classification, PayloadClassification::Blocked)
                || matches!(results[i].classification, PayloadClassification::RateLimited)
                || matches!(results[i].classification, PayloadClassification::Challenge);
            if is_protected {
                blocked = blocked + 1;
            }
            let ev = &results[i].evidence;
            let m: usize = ev.len();
            let mut j: usize = 0;
            while j < m
                invariant
                    m == ev.len(),
                    i < total,
                    total == results@.len(),
                    ev == results@[i as int].evidence,
                    j <= m,
                    hint ==> results_monitoring_hint(results@),
                    !hint ==> forall|b: int|
                        !(0 <= b < j && (contains_seq(
                            #[trigger] results@[i as int].evidence@[b]@,
                            "monitoring"@,
                        ) || contains_seq(results@[i as int].evidence@[b]@, "reflected"@))),
                    !hint ==> forall|a: int, b: int|
                        !(0 <= a < i && 0 <= b < results@[a].evidence@.len() && (contains_seq(
                            #[trigger] results@[a].evidence@[b]@,
                            "monitoring"@,
                        ) || contains_seq(results@[a].evidence@[b]@, "reflected"@))),
                decreases m - j,
            {
                if str_contains(ev[j].as_str(), "monitoring") || str_contains(
                    ev[j].as_str(),
                    "reflected",
                ) {
                    hint = true;
                }
                j = j + 1;
            }
            i = i + 1;
            proof {
                let cur = results@.take(i as int);
                assert(cur.drop_last() =~= results@.take(i - 1));
                assert(cur.last() == results@[i - 1]);
            }
        }
        proof {
            assert(results@.take(total as int) =~= results@);
        }
        let blocked10: u64 = 10 * (blocked as u64);
        let total8: u64 = 8 * (total as u64);
        let total3: u64 = 3 * (total as u64);
        if blocked10 >= total8 {
            Some(WafMode::Blocking)
        } else if blocked10 >= total3 {
            Some(WafMode::Mixed)
        } else if blocked > 0 {
            Some(WafMode::Mixed)
        } else if hint {
            Some(WafMode::Monitoring)
        } else {
            Some(WafMode::Unknown)
        }
    }

    /// Picks the vendor the indicators point at: `None` exactly when no
    /// result carried any indicator; otherwise a vendor that occurs and
    /// whose occurrence count (saturated at one million) no other value
    /// exceeds.
    pub fn identify_waf_from_results(&self, results: &Vec<PayloadTestResult>) -> (r: Option<
        String,
    >)
        ensures
            r is Some <==> any_indicator(results@),
            r matches Some(v) ==> (indicator_count(results@, v@) >= 1 && forall|w: Seq<char>|
                sat1(#[trigger] indicator_count(results@, w)) <= sat1(
                    indicator_count(results@, v@),
                )),
    {
        let ghost rs = results@;
        let mut tally: Vec<(String, u64)> = Vec::new();
        let n: usize = results.len();
        let mut i: usize = 0;
        proof {
            assert(rs.take(0) =~= Seq::<PayloadTestResult>::empty());
        }
        while i < n
            invariant
                n == results@.len(),
                rs == results@,
                i <= n,
                tally_wf(tally@),
                tally_bounded(tally@, 1),
                forall|v: Seq<char>| #[trigger]
                    tally_get(tally@, v) == sat1(indicator_count(rs.take(i as int), v)),
            decreases n - i,
        {
            let inds = &results[i].waf_indicators;
            let m: usize = inds.len();
            let mut j: usize = 0;
            proof {
                assert(inds@.take(0) =~= Seq::<String>::empty());
                assert forall|v: Seq<char>| #[trigger]
                    tally_get(tally@, v) == sat1(
                        indicator_count(rs.take(i as int), v) + ind_count_list(
                            inds@.take(0),
                            v,
                        ),
                    ) by {}
            }
            while j < m
                invariant
                    m == inds.len(),
                    i < n,
                    n == results@.len(),
                    rs == results@,
                    inds == rs[i as int].waf_indicators,
                    j <= m,
                    tally_wf(tally@),
                    tally_bounded(tally@, 1),
                    forall|v: Seq<char>| #[trigger]
                        tally_get(tally@, v) == sat1(
                            indicator_count(rs.take(i as int), v) + ind_count_list(
                                inds@.take(j as int),
                                v,
                            ),
                        ),
                decreases m - j,
            {
                let ghost pre = tally@;
                tally_bump(&mut tally, inds[j].as_str(), 1, Ghost(1));
                j = j + 1;
                proof {
                    let cur = inds@.take(j as int);
                    assert(cur.drop_last() =~= inds@.take(j - 1));
                    assert(cur.last() == inds@[j - 1]);
                    assert forall|v: Seq<char>| #[trigger]
                        tally_get(tally@, v) == sat1(
                            indicator_count(rs.take(i as int), v) + ind_count_list(cur, v),
                        ) by {
                        lemma_indicator_count_nonneg(rs.take(i as int), v);
                        lemma_ind_count_nonneg(inds@.take(j - 1), v);
                    }
                }
            }
            i = i + 1;
            proof {
                assert(inds@.take(m as int) =~= inds@);
                let cur = rs.take(i as int);
                assert(cur.drop_last() =~= rs.take(i - 1));
                assert(cur.last() == rs[i - 1]);
                assert forall|v: Seq<char>| #[trigger]
                    tally_get(tally@, v) == sat1(indicator_count(cur, v)) by {}
            }
        }
        proof {
            assert(rs.take(n as int) =~= rs);
        }
        if tally.len() == 0 {
            proof {
                if any_indicator(rs) {
                    let a = choose|a: int|
                        0 <= a < rs.len() && (#[trigger] rs[a].waf_indicators)@.len() > 0;
                    let v0 = rs[a].waf_indicators@[0]@;
                    lemma_ind_count_at(rs[a].waf_indicators@, 0);
                    lemma_count_at_total(rs, a, v0);
                    assert(tally_get(tally@, v0) == sat1(indicator_count(rs, v0)));
                    assert(false);
                }
            }
            return None;
        }
        let best = tally_max(&tally);
        let v = tally[best].0.clone();
        proof {
            lemma_tally_get_at(tally@, best as int);
            assert(tally_get(tally@, v@) == tally@[best as int].1 as int);
            assert(tally@[best as int].1 >= 1);
            assert(sat1(indicator_count(rs, v@)) >= 1);
            lemma_indicator_count_nonneg(rs, v@);
            assert(indicator_count(rs, v@) >= 1);
            lemma_count_pos_any(rs, v@);
            assert forall|w: Seq<char>|
                sat1(#[trigger] indicator_count(rs, w)) <= sat1(indicator_count(rs, v@)) by {
                lemma_tally_get_le(tally@, w, tally@[best as int].1 as int);
            }
        }
        Some(v)
    }

    /// Advisory strings keyed off the effectiveness band, the inferred
    /// mode and the identified vendor; the first entry names the band.
    pub fn generate_recommendations(
        &self,
        summary: &TestSummary,
        waf_mode: &Option<WafMode>,
        detected_waf: &Option<String>,
    ) -> (r: Vec<String>)
        ensures
            r@.len() >= 1,
            summary.effectiveness_permille >= 900 ==> r@[0]@
                == "Excellent WAF protection. Very few attacks would succeed."@,
            700 <= summary.effectiveness_permille && summary.effectiveness_permille < 900 ==> r@[
                0
            ]@ == "Good WAF protection, but some attack vectors may still be exploitable."@,
            500 <= summary.effectiveness_permille && summary.effectiveness_permille < 700 ==> r@[
                0
            ]@ == "Moderate WAF protection. Consider tuning rules for better coverage."@,
            summary.effectiveness_permille < 500 ==> r@[0]@
                == "Low WAF protection. Many attacks are getting through - review configuration."@,
    {
        let mut recs: Vec<String> = Vec::new();
        if summary.effectiveness_permille >= 900 {
            recs.push(
                <String as StringExecFns>::from_str(
                    "Excellent WAF protection. Very few attacks would succeed.",
                ),
            );
        } else if summary.effectiveness_permille >= 700 {
            recs.push(
                <String as StringExecFns>::from_str(
                    "Good WAF protection, but some attack vectors may still be exploitable.",
                ),
            );
        } else if summary.effectiveness_permille >= 500 {
            recs.push(
                <String as StringExecFns>::from_str(
                    "Moderate WAF protection. Consider tuning rules for better coverage.",
                ),
            );
        } else {
            recs.push(
                <String as StringExecFns>::from_str(
                    "Low WAF protection. Many attacks are getting through - review configuration.",
                ),
            );
        }
        match waf_mode {
            Some(WafMode::Blocking) => {
                recs.push(
                    <String as StringExecFns>::from_str(
                        "WAF is in blocking mode - actively preventing attacks.",
                    ),
                );
            },
            Some(WafMode::Monitoring) => {
                recs.push(
                    <String as StringExecFns>::from_str(
                        "WAF appears to be in monitoring mode - attacks are logged but not blocked.",
                    ),
                );
                recs.push(
                    <String as StringExecFns>::from_str(
                        "Consider enabling blocking mode for better protection.",
                    ),
                );
            },
            Some(WafMode::Mixed) => {
                recs.push(
                    <String as StringExecFns>::from_str(
                        "WAF is in mixed mode - some attacks blocked, others allowed.",
                    ),
                );
                recs.push(
                    <String as StringExecFns>::from_str(
                        "Review WAF rules to ensure consistent protection.",
                    ),
                );
            },
            Some(WafMode::Unknown) => {
                recs.push(
                    <String as StringExecFns>::from_str(
                        "Unable to determine WAF mode. May need manual investigation.",
                    ),
                );
            },
            None => {},
        }
        match detected_waf {
            Some(waf) => {
                if str_eq(waf.as_str(), "CloudFlare") {
                    recs.push(
                        <String as StringExecFns>::from_str(
                            "CloudFlare detected - consider enabling additional security features.",
                        ),
                    );
                } else if str_eq(waf.as_str(), "AWS WAF") {
                    recs.push(
                        <String as StringExecFns>::from_str(
                            "AWS WAF detected - review CloudWatch metrics and managed rules.",
                        ),
                    );
                } else if str_eq(waf.as_str(), "Akamai") {
                    recs.push(
                        <String as StringExecFns>::from_str(
                            "Akamai detected - consider advanced bot protection.",
                        ),
                    );
                } else {
                    let mut line = <String as StringExecFns>::from_str("WAF identified as ");
                    append_str(&mut line, waf.as_str());
                    append_str(&mut line, " - consult vendor documentation for optimization.");
                    recs.push(line);
                }
            },
            None => {},
        }
        if summary.average_response_time_ms > 1000 {
            recs.push(
                <String as StringExecFns>::from_str(
                    "High response times detected - WAF may be causing performance impact.",
                ),
            );
        }
        recs
    }

    /// Shortens a string for table display.
    pub fn truncate_string(&self, s: &str, max_len: usize) -> (r: String)
        ensures
            s@.len() <= max_len ==> r@ == s@,
            s@.len() > max_len && max_len >= 3 ==> r@ == s@.take(max_len - 3) + "..."@,
    {
        let n: usize = s.unicode_len();
        if n <= max_len {
            <String as StringExecFns>::from_str(s)
        } else if max_len >= 3 {
            let mut out = <String as StringExecFns>::from_str(s.substring_char(0, max_len - 3));
            append_str(&mut out, "...");
            out
        } else {
            <String as StringExecFns>::from_str(s.substring_char(0, max_len))
        }
    }
}

} // verus!
