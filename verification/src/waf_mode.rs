//! WAF mode inference: classifying how a WAF handled a set of probe
//! payloads.  Sending the probes is the caller's job; deciding whether a
//! response was blocked and what mode the block rate implies is verified.

use vstd::prelude::*;
use vstd::string::StringExecFns;
use crate::http::HttpResponse;
use crate::http::RespV;
use crate::text::append_str;
use crate::text::contains_seq;
use crate::text::lower_seq;
use crate::text::str_contains;
use crate::text::to_lower;
use crate::text::u64_to_string;

verus! {

/// WAF operational mode.
#[derive(Debug, Clone, Copy, PartialEq, Eq, Structural, Hash)]
pub enum WafMode {
    Blocking,
    Monitoring,
    Mixed,
    Unknown,
}

impl WafMode {
    /// The mode's display name.
    pub fn display_name(&self) -> (r: &'static str)
        ensures
            r@ == match self {
                WafMode::Blocking => "Blocking"@,
                WafMode::Monitoring => "Monitoring"@,
                WafMode::Mixed => "Mixed"@,
                WafMode::Unknown => "Unknown"@,
            },
    {
        match self {
            WafMode::Blocking => "Blocking",
            WafMode::Monitoring => "Monitoring",
            WafMode::Mixed => "Mixed",
            WafMode::Unknown => "Unknown",
        }
    }
}

/// Categories of probe payloads.
#[derive(Debug, Clone, Copy, PartialEq, Eq, Structural, Hash)]
pub enum PayloadType {
    XssBasic,
    XssAdvanced,
    SqlInjectionBasic,
    SqlInjectionAdvanced,
    PathTraversal,
    CommandInjection,
    FileUpload,
    ScannerDetection,
    Enumeration,
}

impl PayloadType {
    /// The category's display name.
    pub fn display_name(&self) -> (r: &'static str)
        ensures
            r@ == match self {
                PayloadType::XssBasic => "XSS Basic"@,
                PayloadType::XssAdvanced => "XSS Advanced"@,
                PayloadType::SqlInjectionBasic => "SQL Injection Basic"@,
                PayloadType::SqlInjectionAdvanced => "SQL Injection Advanced"@,
                PayloadType::PathTraversal => "Path Traversal"@,
                PayloadType::CommandInjection => "Command Injection"@,
                PayloadType::FileUpload => "File Upload"@,
                PayloadType::ScannerDetection => "Scanner Detection"@,
                PayloadType::Enumeration => "Enumeration"@,
            },
    {
        match self {
            PayloadType::XssBasic => "XSS Basic",
            PayloadType::XssAdvanced => "XSS Advanced",
            PayloadType::SqlInjectionBasic => "SQL Injection Basic",
            PayloadType::SqlInjectionAdvanced => "SQL Injection Advanced",
            PayloadType::PathTraversal => "Path Traversal",
            PayloadType::CommandInjection => "Command Injection",
            PayloadType::FileUpload => "File Upload",
            PayloadType::ScannerDetection => "Scanner Detection",
            PayloadType::Enumeration => "Enumeration",
        }
    }
}

impl View for PayloadType {
    type V = PayloadType;

    open spec fn view(&self) -> PayloadType {
        *self
    }
}

impl DeepView for PayloadType {
    type V = PayloadType;

    open spec fn deep_view(&self) -> PayloadType {
        *self
    }
}

/// One probe outcome.
#[derive(Debug, Clone)]
pub struct ProbeResult {
    pub payload_type: PayloadType,
    pub payload: String,
    pub response_status: u16,
    pub blocked: bool,
    pub evidence: Vec<String>,
    pub response_time_ms: u64,
}

/// The whole mode-detection outcome.
#[derive(Debug, Clone)]
pub struct WafModeResult {
    pub mode: WafMode,
    /// Confidence in micro units.
    pub confidence: u64,
    pub test_results: Vec<ProbeResult>,
    pub detection_time_ms: u64,
}

/// The mode detector, with its probe catalogue.
#[derive(Debug, Clone)]
pub struct WafModeDetector {
    pub payloads: Vec<(PayloadType, Vec<String>)>,
}

/// A blocking status code: one a WAF typically answers with.
pub open spec fn is_blocking_status(status: u16) -> bool {
    status == 403 || status == 406 || status == 418 || status == 429 || status == 503
}

/// Whether some header name or value carries a blocking marker.
pub open spec fn headers_indicate_block(hs: Seq<(Seq<char>, Seq<char>)>) -> bool {
    exists|i: int|
        0 <= i < hs.len() && (contains_seq(lower_seq(#[trigger] hs[i].0), "x-blocked"@)
            || contains_seq(lower_seq(hs[i].0), "x-denied"@) || contains_seq(
            lower_seq(hs[i].1),
            "blocked"@,
        ) || contains_seq(lower_seq(hs[i].1), "denied"@) || contains_seq(
            lower_seq(hs[i].1),
            "forbidden"@,
        ))
}

/// Whether the body carries one of the blocking keywords.
pub open spec fn body_indicates_block(body: Seq<char>) -> bool {
    ||| contains_seq(lower_seq(body), "access denied"@)
    ||| contains_seq(lower_seq(body), "blocked"@)
    ||| contains_seq(lower_seq(body), "forbidden"@)
    ||| contains_seq(lower_seq(body), "not allowed"@)
    ||| contains_seq(lower_seq(body), "security violation"@)
    ||| contains_seq(lower_seq(body), "malicious request"@)
    ||| contains_seq(lower_seq(body), "attack detected"@)
    ||| contains_seq(lower_seq(body), "waf"@)
    ||| contains_seq(lower_seq(body), "firewall"@)
    ||| contains_seq(lower_seq(body), "protection"@)
    ||| contains_seq(lower_seq(body), "security policy"@)
}

/// Whether a response shows the request was blocked.
pub open spec fn spec_blocked(r: RespV) -> bool {
    is_blocking_status(r.status) || headers_indicate_block(r.headers) || body_indicates_block(
        r.body,
    )
}

/// How many of the results were blocked.
pub open spec fn blocked_count(rs: Seq<ProbeResult>) -> int
    decreases rs.len(),
{
    if rs.len() == 0 {
        0
    } else {
        blocked_count(rs.drop_last()) + if rs.last().blocked {
            1int
        } else {
            0int
        }
    }
}

/// Whether some result carries a monitoring hint in its evidence.
pub open spec fn has_monitoring_hint(rs: Seq<ProbeResult>) -> bool {
    exists|i: int, j: int|
        0 <= i < rs.len() && 0 <= j < rs[i].evidence@.len() && (contains_seq(
            #[trigger] rs[i].evidence@[j]@,
            "monitoring"@,
        ) || contains_seq(rs[i].evidence@[j]@, "reflected"@))
}

/// The mode a block rate implies: 80% and up is Blocking, any other
/// positive rate is Mixed, zero falls back to Monitoring when a payload
/// was reflected and Unknown otherwise.
pub open spec fn spec_mode(rs: Seq<ProbeResult>) -> (WafMode, u64) {
    let total = rs.len() as int;
    let blocked = blocked_count(rs);
    if total == 0 {
        (WafMode::Unknown, 0)
    } else if 10 * blocked >= 8 * total {
        (WafMode::Blocking, 900000)
    } else if 10 * blocked >= 3 * total {
        (WafMode::Mixed, 700000)
    } else if blocked > 0 {
        (WafMode::Mixed, 600000)
    } else if has_monitoring_hint(rs) {
        (WafMode::Monitoring, 700000)
    } else {
        (WafMode::Unknown, 300000)
    }
}

/// The default mode-probe catalogue: three payloads in each of the nine
/// categories.
pub open spec fn spec_mode_payloads() -> Seq<(PayloadType, Seq<Seq<char>>)> {
    seq![
        (
            PayloadType::XssBasic,
            seq![
                "<script>alert('XSS')</script>"@,
                "<img src=x onerror=alert('XSS')>"@,
                "javascript:alert('XSS')"@,
            ],
        ),
        (
            PayloadType::XssAdvanced,
            seq![
                "<svg onload=alert('XSS')>"@,
                "';alert('XSS');//"@,
                "\"><script>alert('XSS')</script>"@,
            ],
        ),
        (
            PayloadType::SqlInjectionBasic,
            seq![
                "' OR '1'='1"@,
                "'; DROP TABLE users; --"@,
                "1' UNION SELECT NULL,NULL,NULL--"@,
            ],
        ),
        (
            PayloadType::SqlInjectionAdvanced,
            seq![
                "1' AND (SELECT COUNT(*) FROM information_schema.tables)>0--"@,
                "'; WAITFOR DELAY '00:00:05'--"@,
                "' OR 1=1 LIMIT 1 OFFSET 0--"@,
            ],
        ),
        (
            PayloadType::PathTraversal,
            seq![
                "../../../etc/passwd"@,
                "..\\..\\..\\windows\\system32\\drivers\\etc\\hosts"@,
                "....//....//....//etc/passwd"@,
            ],
        ),
        (
            PayloadType::CommandInjection,
            seq!["; cat /etc/passwd"@, "| whoami"@, "`id`"@],
        ),
        (
            PayloadType::FileUpload,
            seq!["shell.php"@, "test.php%00.jpg"@, "../../../shell.php"@],
        ),
        (
            PayloadType::ScannerDetection,
            seq!["sqlmap"@, "nikto"@, "nessus"@],
        ),
        (
            PayloadType::Enumeration,
            seq!["admin"@, "administrator"@, "config.php"@],
        ),
    ]
}

impl WafModeDetector {
    /// The detector with its default probe catalogue, pinned entry for
    /// entry.
    pub fn new() -> (r: Self)
        ensures
            r.payloads.deep_view() == spec_mode_payloads(),
    {
        let mut payloads: Vec<(PayloadType, Vec<String>)> = Vec::new();
        let mut v: Vec<String> = Vec::new();
        v.push(<String as StringExecFns>::from_str("<script>alert('XSS')</script>"));
        v.push(<String as StringExecFns>::from_str("<img src=x onerror=alert('XSS')>"));
        v.push(<String as StringExecFns>::from_str("javascript:alert('XSS')"));
        payloads.push((PayloadType::XssBasic, v));
        let mut v: Vec<String> = Vec::new();
        v.push(<String as StringExecFns>::from_str("<svg onload=alert('XSS')>"));
        v.push(<String as StringExecFns>::from_str("';alert('XSS');//"));
        v.push(<String as StringExecFns>::from_str("\"><script>alert('XSS')</script>"));
        payloads.push((PayloadType::XssAdvanced, v));
        let mut v: Vec<String> = Vec::new();
        v.push(<String as StringExecFns>::from_str("' OR '1'='1"));
        v.push(<String as StringExecFns>::from_str("'; DROP TABLE users; --"));
        v.push(<String as StringExecFns>::from_str("1' UNION SELECT NULL,NULL,NULL--"));
        payloads.push((PayloadType::SqlInjectionBasic, v));
        let mut v: Vec<String> = Vec::new();
        v.push(
            <String as StringExecFns>::from_str(
                "1' AND (SELECT COUNT(*) FROM information_schema.tables)>0--",
            ),
        );
        v.push(<String as StringExecFns>::from_str("'; WAITFOR DELAY '00:00:05'--"));
        v.push(<String as StringExecFns>::from_str("' OR 1=1 LIMIT 1 OFFSET 0--"));
        payloads.push((PayloadType::SqlInjectionAdvanced, v));
        let mut v: Vec<String> = Vec::new();
        v.push(<String as StringExecFns>::from_str("../../../etc/passwd"));
        v.push(
            <String as StringExecFns>::from_str(
                "..\\..\\..\\windows\\system32\\drivers\\etc\\hosts",
            ),
        );
        v.push(<String as StringExecFns>::from_str("....//....//....//etc/passwd"));
        payloads.push((PayloadType::PathTraversal, v));
        let mut v: Vec<String> = Vec::new();
        v.push(<String as StringExecFns>::from_str("; cat /etc/passwd"));
        v.push(<String as StringExecFns>::from_str("| whoami"));
        v.push(<String as StringExecFns>::from_str("`id`"));
        payloads.push((PayloadType::CommandInjection, v));
        let mut v: Vec<String> = Vec::new();
        v.push(<String as StringExecFns>::from_str("shell.php"));
        v.push(<String as StringExecFns>::from_str("test.php%00.jpg"));
        v.push(<String as StringExecFns>::from_str("../../../shell.php"));
        payloads.push((PayloadType::FileUpload, v));
        let mut v: Vec<String> = Vec::new();
        v.push(<String as StringExecFns>::from_str("sqlmap"));
        v.push(<String as StringExecFns>::from_str("nikto"));
        v.push(<String as StringExecFns>::from_str("nessus"));
        payloads.push((PayloadType::ScannerDetection, v));
        let mut v: Vec<String> = Vec::new();
        v.push(<String as StringExecFns>::from_str("admin"));
        v.push(<String as StringExecFns>::from_str("administrator"));
        v.push(<String as StringExecFns>::from_str("config.php"));
        payloads.push((PayloadType::Enumeration, v));
        let r = WafModeDetector { payloads };
        proof {
            assert(r.payloads.deep_view() =~~= spec_mode_payloads());
        }
        r
    }

    /// Whether a response shows the probe was blocked, with the textual
    /// observations that say why.
    pub fn analyze_response(&self, response: &HttpResponse, payload: &str) -> (r: (
        bool,
        Vec<String>,
    ))
        ensures
            r.0 == spec_blocked(response@),
    {
        let mut evidence: Vec<String> = Vec::new();
        let mut blocked = false;
        if response.status == 403 || response.status == 406 || response.status == 418
            || response.status == 429 || response.status == 503 {
            blocked = true;
            let mut line = <String as StringExecFns>::from_str("Blocking status code: ");
            let st = u64_to_string(response.status as u64);
            append_str(&mut line, st.as_str());
            evidence.push(line);
        }
        let ghost hs = response@.headers;
        let n: usize = response.headers.len();
        let mut i: usize = 0;
        let mut header_block = false;
        while i < n
            invariant
                n == response.headers.len(),
                hs == response@.headers,
                i <= n,
                header_block ==> headers_indicate_block(hs),
                !header_block ==> forall|k: int|
                    0 <= k < i ==> !(contains_seq(lower_seq(#[trigger] hs[k].0), "x-blocked"@)
                        || contains_seq(lower_seq(hs[k].0), "x-denied"@) || contains_seq(
                        lower_seq(hs[k].1),
                        "blocked"@,
                    ) || contains_seq(lower_seq(hs[k].1), "denied"@) || contains_seq(
                        lower_seq(hs[k].1),
                        "forbidden"@,
                    )),
            decreases n - i,
        {
            proof {
                assert(response.headers.deep_view()[i as int] == hs[i as int]);
                assert(response.headers[i as int].deep_view() == hs[i as int]);
                assert(response.headers[i as int].0@ == hs[i as int].0);
                assert(response.headers[i as int].1@ == hs[i as int].1);
            }
            let name_lower = to_lower(response.headers[i].0.as_str());
            let value_lower = to_lower(response.headers[i].1.as_str());
            proof {
                assert(name_lower@ == lower_seq(hs[i as int].0));
                assert(value_lower@ == lower_seq(hs[i as int].1));
            }
            if str_contains(name_lower.as_str(), "x-blocked") || str_contains(
                name_lower.as_str(),
                "x-denied",
            ) || str_contains(value_lower.as_str(), "blocked") || str_contains(
                value_lower.as_str(),
                "denied",
            ) || str_contains(value_lower.as_str(), "forbidden") {
                header_block = true;
                proof {
                    assert(headers_indicate_block(hs));
                }
                let mut line = <String as StringExecFns>::from_str("Blocking header: ");
                append_str(&mut line, response.headers[i].0.as_str());
                append_str(&mut line, ": ");
                append_str(&mut line, response.headers[i].1.as_str());
                evidence.push(line);
            }
            i = i + 1;
        }
        if header_block {
            blocked = true;
        }
        let body_lower = to_lower(response.body.as_str());
        let body_block = str_contains(body_lower.as_str(), "access denied") || str_contains(
            body_lower.as_str(),
            "blocked",
        ) || str_contains(body_lower.as_str(), "forbidden") || str_contains(
            body_lower.as_str(),
            "not allowed",
        ) || str_contains(body_lower.as_str(), "security violation") || str_contains(
            body_lower.as_str(),
            "malicious request",
        ) || str_contains(body_lower.as_str(), "attack detected") || str_contains(
            body_lower.as_str(),
            "waf",
        ) || str_contains(body_lower.as_str(), "firewall") || str_contains(
            body_lower.as_str(),
            "protection",
        ) || str_contains(body_lower.as_str(), "security policy");
        if body_block {
            blocked = true;
            evidence.push(<String as StringExecFns>::from_str("Blocking keyword in body"));
        }
        if !blocked && str_contains(response.body.as_str(), payload) {
            evidence.push(
                <String as StringExecFns>::from_str(
                    "Payload reflected in response (possible monitoring mode)",
                ),
            );
        }
        (blocked, evidence)
    }

    /// Infers the overall mode from the probe results, with a confidence:
    /// exactly the banding `spec_mode` states.
    pub fn analyze_results(&self, results: &Vec<ProbeResult>) -> (r: (WafMode, u64))
        ensures
            results@.len() == 0 ==> r == (WafMode::Unknown, 0u64),
            results@.len() > 0 ==> r == spec_mode(results@),
            r.1 <= crate::CONF_ONE,
    {
        let total: usize = results.len();
        if total == 0 {
            return (WafMode::Unknown, 0);
        }
        let mut blocked: usize = 0;
        let mut hint = false;
        let mut i: usize = 0;
        proof {
            assert(results@.take(0) =~= Seq::<ProbeResult>::empty());
        }
        while i < total
            invariant
                total == results@.len(),
                i <= total,
                blocked as int == blocked_count(results@.take(i as int)),
                blocked <= i,
                hint ==> has_monitoring_hint(results@),
                !hint ==> forall|a: int, b: int|
                    !(0 <= a < i && 0 <= b < results@[a].evidence@.len() && (contains_seq(
                        #[trigger] results@[a].evidence@[b]@,
                        "monitoring"@,
                    ) || contains_seq(results@[a].evidence@[b]@, "reflected"@))),
            decreases total - i,
        {
            if results[i].blocked {
                blocked = blocked + 1;
            }
            let ev = &results[i].evidence;
            let m: usize = ev.len();
            let mut j: usize = 0;
            while j < m
                invariant
                    m == ev.len(),
                    i < total,
                    total == results@.len(),
                    ev == results@[i as int].evidence,
                    j <= m,
                    hint ==> has_monitoring_hint(results@),
                    !hint ==> forall|b: int|
                        !(0 <= b < j && (contains_seq(
                            #[trigger] results@[i as int].evidence@[b]@,
                            "monitoring"@,
                        ) || contains_seq(results@[i as int].evidence@[b]@, "reflected"@))),
                    !hint ==> forall|a: int, b: int|
                        !(0 <= a < i && 0 <= b < results@[a].evidence@.len() && (contains_seq(
                            #[trigger] results@[a].evidence@[b]@,
                            "monitoring"@,
                        ) || contains_seq(results@[a].evidence@[b]@, "reflected"@))),
                decreases m - j,
            {
                if str_contains(ev[j].as_str(), "monitoring") || str_contains(
                    ev[j].as_str(),
                    "reflected",
                ) {
                    hint = true;
                }
                j = j + 1;
            }
            i = i + 1;
            proof {
                let cur = results@.take(i as int);
                assert(cur.drop_last() =~= results@.take(i - 1));
                assert(cur.last() == results@[i - 1]);
            }
        }
        proof {
            assert(results@.take(total as int) =~= results@);
        }
        let blocked10: u128 = 10 * (blocked as u128);
        let total8: u128 = 8 * (total as u128);
        let total3: u128 = 3 * (total as u128);
        if blocked10 >= total8 {
            (WafMode::Blocking, 900000)
        } else if blocked10 >= total3 {
            (WafMode::Mixed, 700000)
        } else if blocked > 0 {
            (WafMode::Mixed, 600000)
        } else if hint {
            (WafMode::Monitoring, 700000)
        } else {
            (WafMode::Unknown, 300000)
        }
    }
}

} // verus!
