//! Small verified helpers: URL validation, timeout clamping, header value
//! sanitising and duration formatting.

use vstd::prelude::*;
use vstd::string::StrSliceExecFns;
use vstd::string::StringExecFns;
use crate::outside::parse_url;
use crate::outside::url_parts;
use crate::text::append_str;
use crate::text::dec_str;
use crate::text::lower_seq;
use crate::text::push_char;
use crate::text::str_eq;
use crate::text::to_lower;
use crate::text::u64_to_string;

verus! {

/// Whether a parsed URL is acceptable: it parses, uses http or https, and
/// names a host.
pub open spec fn spec_url_valid(s: Seq<char>) -> bool {
    match url_parts(s) {
        Some(p) => (p.0 == "http"@ || p.0 == "https"@) && p.1 is Some,
        None => false,
    }
}

/// Validates a URL and returns its normalised form: `Ok` exactly when the
/// string parses as an http or https URL with a host.
pub fn validate_url(url: &str) -> (r: Result<String, String>)
    ensures
        r is Ok <==> spec_url_valid(url@),
        r matches Ok(s) ==> (url_parts(url@) matches Some(p) && s@ == p.2),
{
    match parse_url(url) {
        Some(parts) => {
            let scheme_ok = str_eq(parts.scheme.as_str(), "http") || str_eq(
                parts.scheme.as_str(),
                "https",
            );
            if !scheme_ok {
                return Err(
                    <String as StringExecFns>::from_str("URL must use http or https scheme"),
                );
            }
            match parts.host {
                Some(_) => Ok(parts.normalized),
                None => Err(<String as StringExecFns>::from_str("URL must have a host")),
            }
        },
        None => {
            let mut msg = <String as StringExecFns>::from_str("Invalid URL '");
            append_str(&mut msg, url);
            append_str(&mut msg, "'");
            Err(msg)
        },
    }
}

/// Clamps a timeout in seconds to one second up to five minutes.
pub fn parse_timeout(seconds: u64) -> (r: u64)
    ensures
        r == (if seconds < 1 {
            1u64
        } else if seconds > 300 {
            300u64
        } else {
            seconds
        }),
{
    if seconds < 1 {
        1
    } else if seconds > 300 {
        300
    } else {
        seconds
    }
}

/// A control character: the ASCII range below space, delete, and the C1
/// block.
pub open spec fn is_control_char(c: char) -> bool {
    (c as u32) < 0x20 || (0x7f <= (c as u32) && (c as u32) <= 0x9f)
}

/// The sanitised form of a header value: control characters removed, the
/// first hundred remaining characters kept.
pub open spec fn spec_sanitized(s: Seq<char>) -> Seq<char>
    decreases s.len(),
{
    if s.len() == 0 {
        Seq::empty()
    } else {
        let rest = spec_sanitized(s.drop_last());
        if is_control_char(s.last()) || rest.len() >= 100 {
            rest
        } else {
            rest.push(s.last())
        }
    }
}

/// Removes control characters from a header value and caps it at one
/// hundred characters.
pub fn sanitize_header_value(value: &str) -> (r: String)
    ensures
        r@ == spec_sanitized(value@),
{
    let n: usize = value.unicode_len();
    let mut out: String = String::new();
    let mut i: usize = 0;
    proof {
        assert(value@.take(0) =~= Seq::<char>::empty());
    }
    while i < n
        invariant
            n == value@.len(),
            i <= n,
            out@ == spec_sanitized(value@.take(i as int)),
            out@.len() <= 100,
        decreases n - i,
    {
        let c = value.get_char(i);
        let is_ctl = (c as u32) < 0x20 || (0x7f <= (c as u32) && (c as u32) <= 0x9f);
        if !is_ctl && out.as_str().unicode_len() < 100 {
            push_char(&mut out, c);
        }
        i = i + 1;
        proof {
            let cur = value@.take(i as int);
            assert(cur.drop_last() =~= value@.take(i - 1));
            assert(cur.last() == value@[i - 1]);
        }
    }
    proof {
        assert(value@.take(n as int) =~= value@);
    }
    out
}

/// Extracts the lowercased host of a URL; errors when the URL does not
/// parse or has no host.
pub fn extract_domain(url: &str) -> (r: Result<String, String>)
    ensures
        r is Ok <==> (url_parts(url@) matches Some(p) && p.1 is Some),
        r matches Ok(s) ==> (url_parts(url@) matches Some(p) && p.1 matches Some(h) && s@
            == lower_seq(h)),
{
    match parse_url(url) {
        Some(parts) => {
            match parts.host {
                Some(h) => Ok(to_lower(h.as_str())),
                None => Err(
                    <String as StringExecFns>::from_str("Could not extract domain from URL"),
                ),
            }
        },
        None => Err(<String as StringExecFns>::from_str("Could not parse URL")),
    }
}

/// Formats a duration in milliseconds: below one second as `<n>ms`,
/// otherwise as seconds with one decimal place.
pub fn format_duration(ms: u64) -> (r: String)
    ensures
        ms < 1000 ==> r@ == dec_str(ms as nat) + "ms"@,
        ms >= 1000 ==> r@ == dec_str((ms / 1000) as nat) + "."@ + dec_str(
            (ms % 1000 / 100) as nat,
        ) + "s"@,
{
    if ms < 1000 {
        let mut s = u64_to_string(ms);
        append_str(&mut s, "ms");
        s
    } else {
        let mut s = u64_to_string(ms / 1000);
        append_str(&mut s, ".");
        let tenth = u64_to_string(ms % 1000 / 100);
        append_str(&mut s, tenth.as_str());
        append_str(&mut s, "s");
        s
    }
}

} // verus!
