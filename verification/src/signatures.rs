//! Shared signature primitives: each helper inspects one aspect of a
//! response (a header against a regex, a header's presence, a body pattern)
//! and emits at most one `Evidence`, exactly as its spec-level twin states.

use vstd::prelude::*;
use vstd::string::StringExecFns;
use crate::DetectionMethod;
use crate::Evidence;
use crate::EvidenceV;
use crate::MethodV;
use crate::http::HttpResponse;
use crate::http::RespV;
use crate::http::header_lookup;
use crate::outside::regex_is_match;
use crate::outside::regex_match;
use crate::text::contains_seq;
use crate::text::lower_seq;
use crate::text::str_contains;
use crate::text::to_lower;

verus! {

/// An optional evidence as a sequence of zero or one elements.
pub open spec fn opt_seq(o: Option<EvidenceV>) -> Seq<EvidenceV> {
    match o {
        Some(e) => seq![e],
        None => Seq::empty(),
    }
}

/// Evidence attributed to a header observation.
pub open spec fn header_ev(
    name: Seq<char>,
    conf: u64,
    desc: Seq<char>,
    raw: Seq<char>,
    sig: Seq<char>,
) -> EvidenceV {
    EvidenceV {
        method_type: MethodV::Header(name),
        confidence: conf,
        description: desc,
        raw_data: raw,
        signature_matched: sig,
    }
}

/// Evidence attributed to a body observation.
pub open spec fn body_ev(
    tag: Seq<char>,
    conf: u64,
    desc: Seq<char>,
    raw: Seq<char>,
    sig: Seq<char>,
) -> EvidenceV {
    EvidenceV {
        method_type: MethodV::Body(tag),
        confidence: conf,
        description: desc,
        raw_data: raw,
        signature_matched: sig,
    }
}

/// Evidence attributed to a status-code observation.
pub open spec fn status_ev(
    code: u16,
    conf: u64,
    desc: Seq<char>,
    raw: Seq<char>,
    sig: Seq<char>,
) -> EvidenceV {
    EvidenceV {
        method_type: MethodV::StatusCode(code),
        confidence: conf,
        description: desc,
        raw_data: raw,
        signature_matched: sig,
    }
}

/// One evidence when the named header is present and its value matches the
/// regex pattern; none otherwise.
pub open spec fn sig_header_regex(
    r: RespV,
    name: Seq<char>,
    pat: Seq<char>,
    conf: u64,
    desc: Seq<char>,
    sig: Seq<char>,
) -> Option<EvidenceV> {
    match header_lookup(r.headers, name) {
        Some(v) => if regex_is_match(pat, v) {
            Some(header_ev(name, conf, desc, v, sig))
        } else {
            None
        },
        None => None,
    }
}

/// One evidence when the named header is present, whatever its value.
pub open spec fn sig_header_present(
    r: RespV,
    name: Seq<char>,
    conf: u64,
    desc: Seq<char>,
    sig: Seq<char>,
) -> Option<EvidenceV> {
    match header_lookup(r.headers, name) {
        Some(v) => Some(header_ev(name, conf, desc, v, sig)),
        None => None,
    }
}

/// One evidence when the body matches the regex pattern.
pub open spec fn sig_body_regex(
    r: RespV,
    pat: Seq<char>,
    tag: Seq<char>,
    raw: Seq<char>,
    conf: u64,
    desc: Seq<char>,
    sig: Seq<char>,
) -> Option<EvidenceV> {
    if regex_is_match(pat, r.body) {
        Some(body_ev(tag, conf, desc, raw, sig))
    } else {
        None
    }
}

impl HttpResponse {
    /// Checks one header against a regex signature.
    pub fn check_header_regex(
        &self,
        name: &str,
        pat: &str,
        conf: u64,
        desc: &str,
        sig: &str,
    ) -> (r: Option<Evidence>)
        ensures
            r.deep_view() == sig_header_regex(self@, name@, pat@, conf, desc@, sig@),
    {
        match self.get_header(name) {
            Some(v) => {
                if regex_match(pat, v.as_str()) {
                    Some(Evidence {
                        method_type: DetectionMethod::Header(String::from_str(name)),
                        confidence: conf,
                        description: String::from_str(desc),
                        raw_data: v.clone(),
                        signature_matched: String::from_str(sig),
                    })
                } else {
                    None
                }
            },
            None => None,
        }
    }

    /// Checks one header for presence.
    pub fn check_header_present(&self, name: &str, conf: u64, desc: &str, sig: &str) -> (r: Option<
        Evidence,
    >)
        ensures
            r.deep_view() == sig_header_present(self@, name@, conf, desc@, sig@),
    {
        match self.get_header(name) {
            Some(v) => Some(
                Evidence {
                    method_type: DetectionMethod::Header(String::from_str(name)),
                    confidence: conf,
                    description: String::from_str(desc),
                    raw_data: v.clone(),
                    signature_matched: String::from_str(sig),
                },
            ),
            None => None,
        }
    }

    /// Checks the body against a regex signature.
    pub fn check_body_regex(
        &self,
        pat: &str,
        tag: &str,
        raw: &str,
        conf: u64,
        desc: &str,
        sig: &str,
    ) -> (r: Option<Evidence>)
        ensures
            r.deep_view() == sig_body_regex(self@, pat@, tag@, raw@, conf, desc@, sig@),
    {
        if regex_match(pat, self.body.as_str()) {
            Some(Evidence {
                method_type: DetectionMethod::Body(String::from_str(tag)),
                confidence: conf,
                description: String::from_str(desc),
                raw_data: String::from_str(raw),
                signature_matched: String::from_str(sig),
            })
        } else {
            None
        }
    }
}

/// Whether the named header is present and its value matches the regex.
pub open spec fn header_regex_holds(r: RespV, name: Seq<char>, pat: Seq<char>) -> bool {
    match header_lookup(r.headers, name) {
        Some(v) => regex_is_match(pat, v),
        None => false,
    }
}

/// Whether the named header is present and its value contains `needle`
/// (case-sensitive).
pub open spec fn header_contains_holds(r: RespV, name: Seq<char>, needle: Seq<char>) -> bool {
    match header_lookup(r.headers, name) {
        Some(v) => contains_seq(v, needle),
        None => false,
    }
}

/// Whether the named header is present and its ASCII-lowercased value
/// contains `needle`.
pub open spec fn header_contains_lower_holds(
    r: RespV,
    name: Seq<char>,
    needle: Seq<char>,
) -> bool {
    match header_lookup(r.headers, name) {
        Some(v) => contains_seq(lower_seq(v), needle),
        None => false,
    }
}

impl HttpResponse {
    /// Whether the named header's value matches the regex.
    pub fn header_regex(&self, name: &str, pat: &str) -> (r: bool)
        ensures
            r == header_regex_holds(self@, name@, pat@),
    {
        match self.get_header(name) {
            Some(v) => regex_match(pat, v.as_str()),
            None => false,
        }
    }

    /// Whether the named header's value contains `needle` (case-sensitive).
    pub fn header_contains(&self, name: &str, needle: &str) -> (r: bool)
        ensures
            r == header_contains_holds(self@, name@, needle@),
    {
        match self.get_header(name) {
            Some(v) => str_contains(v.as_str(), needle),
            None => false,
        }
    }

    /// Whether the named header's ASCII-lowercased value contains `needle`.
    pub fn header_contains_lower(&self, name: &str, needle: &str) -> (r: bool)
        ensures
            r == header_contains_lower_holds(self@, name@, needle@),
    {
        match self.get_header(name) {
            Some(v) => {
                let low = to_lower(v.as_str());
                str_contains(low.as_str(), needle)
            },
            None => false,
        }
    }

    /// One evidence when the named header's value contains `needle`.
    pub fn check_header_contains(
        &self,
        name: &str,
        needle: &str,
        conf: u64,
        desc: &str,
        sig: &str,
    ) -> (r: Option<Evidence>)
        ensures
            r.deep_view() == sig_header_contains(self@, name@, needle@, conf, desc@, sig@),
    {
        match self.get_header(name) {
            Some(v) => {
                if str_contains(v.as_str(), needle) {
                    Some(Evidence {
                        method_type: DetectionMethod::Header(String::from_str(name)),
                        confidence: conf,
                        description: String::from_str(desc),
                        raw_data: v.clone(),
                        signature_matched: String::from_str(sig),
                    })
                } else {
                    None
                }
            },
            None => None,
        }
    }
}

/// One evidence when the named header is present and its value contains
/// `needle` (case-sensitive); none otherwise.
pub open spec fn sig_header_contains(
    r: RespV,
    name: Seq<char>,
    needle: Seq<char>,
    conf: u64,
    desc: Seq<char>,
    sig: Seq<char>,
) -> Option<EvidenceV> {
    match header_lookup(r.headers, name) {
        Some(v) => if contains_seq(v, needle) {
            Some(header_ev(name, conf, desc, v, sig))
        } else {
            None
        },
        None => None,
    }
}

/// Builds a header evidence value.
pub fn mk_header_evidence(name: &str, conf: u64, desc: &str, raw: &String, sig: &str) -> (e:
    Evidence)
    ensures
        e@ == header_ev(name@, conf, desc@, raw@, sig@),
{
    Evidence {
        method_type: DetectionMethod::Header(String::from_str(name)),
        confidence: conf,
        description: String::from_str(desc),
        raw_data: raw.clone(),
        signature_matched: String::from_str(sig),
    }
}

/// Builds a status-code evidence value.
pub fn mk_status_evidence(code: u16, conf: u64, desc: &str, raw: &str, sig: &str) -> (e: Evidence)
    ensures
        e@ == status_ev(code, conf, desc@, raw@, sig@),
{
    Evidence {
        method_type: DetectionMethod::StatusCode(code),
        confidence: conf,
        description: String::from_str(desc),
        raw_data: String::from_str(raw),
        signature_matched: String::from_str(sig),
    }
}

/// Appends an optional evidence to the accumulator.
pub fn push_opt(acc: &mut Vec<Evidence>, o: Option<Evidence>)
    ensures
        final(acc).deep_view() == old(acc).deep_view() + opt_seq(o.deep_view()),
{
    match o {
        Some(e) => {
            acc.push(e);
            proof {
                assert(acc.deep_view() =~= old(acc).deep_view() + opt_seq(o.deep_view()));
            }
        },
        None => {
            proof {
                assert(acc.deep_view() =~= old(acc).deep_view() + opt_seq(o.deep_view()));
            }
        },
    }
}

} // verus!
