//! The response record that passive analysis works on, with a verified
//! case-insensitive header lookup.  The header collection is a multimap kept
//! as a list of name/value pairs in arrival order; names are compared
//! ASCII-case-insensitively and a lookup returns the first match.

use vstd::prelude::*;
use crate::text::lower_seq;
use crate::text::str_eq_lower;

verus! {

/// A fetched HTTP response as plain values: status, header multimap, body,
/// and the final URL.
#[derive(Debug, Clone)]
pub struct HttpResponse {
    pub status: u16,
    pub headers: Vec<(String, String)>,
    pub body: String,
    pub url: String,
}

/// Mathematical model of an `HttpResponse`.
pub struct RespV {
    pub status: u16,
    pub headers: Seq<(Seq<char>, Seq<char>)>,
    pub body: Seq<char>,
    pub url: Seq<char>,
}

impl View for HttpResponse {
    type V = RespV;

    open spec fn view(&self) -> RespV {
        RespV {
            status: self.status,
            headers: self.headers.deep_view(),
            body: self.body@,
            url: self.url@,
        }
    }
}

/// The value of the first header whose name equals `name` up to ASCII case,
/// or `None`.
pub open spec fn header_lookup(hs: Seq<(Seq<char>, Seq<char>)>, name: Seq<char>) -> Option<
    Seq<char>,
>
    decreases hs.len(),
{
    if hs.len() == 0 {
        None
    } else if lower_seq(hs[0].0) == lower_seq(name) {
        Some(hs[0].1)
    } else {
        header_lookup(hs.drop_first(), name)
    }
}

/// Whether some header name equals `name` up to ASCII case.
pub open spec fn header_present(hs: Seq<(Seq<char>, Seq<char>)>, name: Seq<char>) -> bool {
    header_lookup(hs, name) is Some
}

/// The suffix of `hs` from index `i` looks up as the whole sequence when the
/// first `i` entries do not match.
proof fn lemma_lookup_skip(hs: Seq<(Seq<char>, Seq<char>)>, name: Seq<char>, i: int)
    requires
        0 <= i < hs.len(),
        lower_seq(hs[i].0) != lower_seq(name),
    ensures
        header_lookup(hs.skip(i), name) == header_lookup(hs.skip(i + 1), name),
{
    assert(hs.skip(i)[0] == hs[i]);
    assert(hs.skip(i).drop_first() =~= hs.skip(i + 1));
}

impl HttpResponse {
    /// First value of the given header, compared ASCII-case-insensitively.
    pub fn get_header(&self, name: &str) -> (r: Option<&String>)
        ensures
            r.deep_view() == header_lookup(self@.headers, name@),
    {
        let ghost hs = self@.headers;
        let n: usize = self.headers.len();
        let mut i: usize = 0;
        proof {
            assert(hs.skip(0) =~= hs);
        }
        while i < n
            invariant
                n == self.headers.len(),
                hs == self@.headers,
                i <= n,
                header_lookup(hs, name@) == header_lookup(hs.skip(i as int), name@),
            decreases n - i,
        {
            proof {
                assert(hs.skip(i as int)[0] == hs[i as int]);
                assert(hs[i as int].0 == self.headers[i as int].0.deep_view());
            }
            if str_eq_lower(self.headers[i].0.as_str(), name) {
                return Some(&self.headers[i].1);
            }
            proof {
                lemma_lookup_skip(hs, name@, i as int);
            }
            i = i + 1;
        }
        proof {
            assert(hs.skip(n as int) =~= Seq::<(Seq<char>, Seq<char>)>::empty());
        }
        None
    }

    /// Whether the given header is present, compared ASCII-case-insensitively.
    pub fn has_header(&self, name: &str) -> (r: bool)
        ensures
            r == header_present(self@.headers, name@),
    {
        self.get_header(name).is_some()
    }
}

} // verus!
