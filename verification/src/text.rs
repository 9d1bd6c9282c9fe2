//! Verified text utilities: ASCII case folding, substring search, equality,
//! and decimal formatting.  Signature matching and report building are all
//! defined over these.

use vstd::prelude::*;
use vstd::string::StrSliceExecFns;

verus! {

/// ASCII lower-casing of one character: `'A'..='Z'` map to `'a'..='z'`,
/// every other character is unchanged.
pub open spec fn lower_char(c: char) -> char {
    if 'A' <= c && c <= 'Z' {
        (((c as u8) + 0x20) as char)
    } else {
        c
    }
}

/// ASCII lower-casing of a character sequence.
pub open spec fn lower_seq(s: Seq<char>) -> Seq<char> {
    Seq::new(s.len(), |i: int| lower_char(s[i]))
}

/// Executable ASCII lower-casing of one character.
pub fn lower_char_ex(c: char) -> (r: char)
    ensures
        r == lower_char(c),
{
    if 'A' <= c && c <= 'Z' {
        ((c as u8) + 0x20) as char
    } else {
        c
    }
}

/// Relies on std's `String::push`: appends the given character to the end of
/// the string.
#[verifier::external_body]
pub fn push_char(s: &mut String, c: char)
    ensures
        final(s)@ == old(s)@ + seq![c],
{
    s.push(c)
}

/// ASCII lower-casing of a string.
pub fn to_lower(s: &str) -> (r: String)
    ensures
        r@ == lower_seq(s@),
{
    let n: usize = s.unicode_len();
    let mut out: String = String::new();
    let mut i: usize = 0;
    while i < n
        invariant
            n == s@.len(),
            i <= n,
            out@ == lower_seq(s@).take(i as int),
        decreases n - i,
    {
        let c = s.get_char(i);
        push_char(&mut out, lower_char_ex(c));
        i = i + 1;
        proof {
            assert(out@ =~= lower_seq(s@).take(i as int));
        }
    }
    proof {
        assert(out@ =~= lower_seq(s@));
    }
    out
}

/// String equality on views.
pub fn str_eq(a: &str, b: &str) -> (r: bool)
    ensures
        r == (a@ == b@),
{
    let na: usize = a.unicode_len();
    let nb: usize = b.unicode_len();
    if na != nb {
        proof {
            assert(a@ != b@);
        }
        return false;
    }
    let mut i: usize = 0;
    while i < na
        invariant
            na == a@.len(),
            na == b@.len(),
            i <= na,
            forall|j: int| 0 <= j < i ==> a@[j] == b@[j],
        decreases na - i,
    {
        if a.get_char(i) != b.get_char(i) {
            proof {
                assert(a@[i as int] != b@[i as int]);
            }
            return false;
        }
        i = i + 1;
    }
    proof {
        assert(a@ =~= b@);
    }
    true
}

/// Case-insensitive (ASCII) string equality on views.
pub fn str_eq_lower(a: &str, b: &str) -> (r: bool)
    ensures
        r == (lower_seq(a@) == lower_seq(b@)),
{
    let na: usize = a.unicode_len();
    let nb: usize = b.unicode_len();
    if na != nb {
        proof {
            assert(lower_seq(a@).len() != lower_seq(b@).len());
        }
        return false;
    }
    let mut i: usize = 0;
    while i < na
        invariant
            na == a@.len(),
            na == b@.len(),
            i <= na,
            forall|j: int| 0 <= j < i ==> lower_seq(a@)[j] == lower_seq(b@)[j],
        decreases na - i,
    {
        if lower_char_ex(a.get_char(i)) != lower_char_ex(b.get_char(i)) {
            proof {
                assert(lower_seq(a@)[i as int] != lower_seq(b@)[i as int]);
            }
            return false;
        }
        i = i + 1;
    }
    proof {
        assert(lower_seq(a@) =~= lower_seq(b@));
    }
    true
}

/// `sub` occurs in `hay` starting at index `i`.
pub open spec fn matches_at(hay: Seq<char>, sub: Seq<char>, i: int) -> bool {
    0 <= i && i + sub.len() <= hay.len() && hay.subrange(i, i + sub.len()) == sub
}

/// `sub` occurs somewhere in `hay`.
pub open spec fn contains_seq(hay: Seq<char>, sub: Seq<char>) -> bool {
    exists|i: int| matches_at(hay, sub, i)
}

/// Whether `sub` occurs in `hay` starting exactly at `i`.
fn matches_at_ex(hay: &str, sub: &str, i: usize) -> (r: bool)
    requires
        i + sub@.len() <= hay@.len(),
    ensures
        r == matches_at(hay@, sub@, i as int),
{
    let n: usize = hay.unicode_len();
    let m: usize = sub.unicode_len();
    let mut j: usize = 0;
    while j < m
        invariant
            n == hay@.len(),
            m == sub@.len(),
            i + m <= n,
            j <= m,
            forall|k: int| 0 <= k < j ==> hay@[i + k] == sub@[k],
        decreases m - j,
    {
        if hay.get_char(i + j) != sub.get_char(j) {
            proof {
                assert(hay@[i + j] != sub@[j as int]);
                assert(!matches_at(hay@, sub@, i as int)) by {
                    if matches_at(hay@, sub@, i as int) {
                        assert(hay@.subrange(i as int, i + sub@.len())[j as int] == sub@[j as int]);
                    }
                }
            }
            return false;
        }
        j = j + 1;
    }
    proof {
        assert(hay@.subrange(i as int, i + sub@.len()) =~= sub@);
    }
    true
}

/// Substring search: whether `sub` occurs anywhere in `hay`.
pub fn str_contains(hay: &str, sub: &str) -> (r: bool)
    ensures
        r == contains_seq(hay@, sub@),
{
    let n: usize = hay.unicode_len();
    let m: usize = sub.unicode_len();
    if m > n {
        proof {
            assert(!contains_seq(hay@, sub@)) by {
                if contains_seq(hay@, sub@) {
                    let i = choose|i: int| matches_at(hay@, sub@, i);
                }
            }
        }
        return false;
    }
    if m == 0 {
        proof {
            assert(hay@.subrange(0, 0) =~= sub@);
            assert(matches_at(hay@, sub@, 0));
        }
        return true;
    }
    let mut i: usize = 0;
    while i <= n - m
        invariant
            n == hay@.len(),
            m == sub@.len(),
            1 <= m <= n,
            i <= n - m + 1,
            forall|k: int| 0 <= k < i ==> !matches_at(hay@, sub@, k),
        decreases n - i,
    {
        if matches_at_ex(hay, sub, i) {
            return true;
        }
        i = i + 1;
    }
    proof {
        assert(!contains_seq(hay@, sub@)) by {
            if contains_seq(hay@, sub@) {
                let k = choose|k: int| matches_at(hay@, sub@, k);
                assert(k <= n - m);
            }
        }
    }
    false
}

/// Whether `hay` starts with `sub`.
pub fn str_starts_with(hay: &str, sub: &str) -> (r: bool)
    ensures
        r == (sub@.len() <= hay@.len() && hay@.subrange(0, sub@.len() as int) == sub@),
{
    let n: usize = hay.unicode_len();
    let m: usize = sub.unicode_len();
    if m > n {
        return false;
    }
    matches_at_ex(hay, sub, 0)
}

/// Whether `hay` ends with `sub`.
pub fn str_ends_with(hay: &str, sub: &str) -> (r: bool)
    ensures
        r == (sub@.len() <= hay@.len() && hay@.subrange(
            hay@.len() - sub@.len(),
            hay@.len() as int,
        ) == sub@),
{
    let n: usize = hay.unicode_len();
    let m: usize = sub.unicode_len();
    if m > n {
        return false;
    }
    matches_at_ex(hay, sub, n - m)
}

/// The first index at or after `i` where `sub` occurs in `s`, if any.
pub open spec fn first_match_from(s: Seq<char>, sub: Seq<char>, i: int) -> Option<int>
    decreases s.len() + 1 - i,
{
    if i < 0 || i + sub.len() > s.len() {
        None
    } else if matches_at(s, sub, i) {
        Some(i)
    } else {
        first_match_from(s, sub, i + 1)
    }
}

/// The first index where `sub` occurs in `s`, if any.
pub open spec fn first_match_idx(s: Seq<char>, sub: Seq<char>) -> Option<int> {
    first_match_from(s, sub, 0)
}

/// Finds the first occurrence of `sub` in `hay`.
pub fn find_sub(hay: &str, sub: &str) -> (r: Option<usize>)
    ensures
        r is Some <==> first_match_idx(hay@, sub@) is Some,
        r matches Some(i) ==> first_match_idx(hay@, sub@) == Some(i as int),
{
    let n: usize = hay.unicode_len();
    let m: usize = sub.unicode_len();
    if m > n {
        return None;
    }
    if m == 0 {
        proof {
            assert(hay@.subrange(0, 0) =~= sub@);
            assert(matches_at(hay@, sub@, 0));
        }
        return Some(0);
    }
    let mut i: usize = 0;
    while i <= n - m
        invariant
            n == hay@.len(),
            m == sub@.len(),
            1 <= m <= n,
            i <= n - m + 1,
            first_match_idx(hay@, sub@) == first_match_from(hay@, sub@, i as int),
        decreases n - i,
    {
        if matches_at_ex(hay, sub, i) {
            return Some(i);
        }
        i = i + 1;
    }
    None
}

/// A found first match really is a match, at or after the start index.
pub proof fn lemma_first_match_props(s: Seq<char>, sub: Seq<char>, j: int)
    ensures
        first_match_from(s, sub, j) matches Some(i) ==> (j <= i && matches_at(s, sub, i)),
    decreases s.len() + 1 - j,
{
    if !(j < 0 || j + sub.len() > s.len()) && !matches_at(s, sub, j) {
        lemma_first_match_props(s, sub, j + 1);
    }
}

/// The last index where the character occurs, if any.
pub open spec fn last_char_idx(s: Seq<char>, c: char) -> Option<int>
    decreases s.len(),
{
    if s.len() == 0 {
        None
    } else if s.last() == c {
        Some(s.len() - 1)
    } else {
        last_char_idx(s.drop_last(), c)
    }
}

/// Finds the last occurrence of a character.
pub fn rfind_char(s: &str, c: char) -> (r: Option<usize>)
    ensures
        r is Some <==> last_char_idx(s@, c) is Some,
        r matches Some(i) ==> last_char_idx(s@, c) == Some(i as int),
{
    let n: usize = s.unicode_len();
    let mut b: usize = n;
    proof {
        assert(s@.take(n as int) =~= s@);
    }
    while b > 0
        invariant
            n == s@.len(),
            b <= n,
            last_char_idx(s@, c) == last_char_idx(s@.take(b as int), c),
        decreases b,
    {
        if s.get_char(b - 1) == c {
            proof {
                assert(s@.take(b as int).last() == s@[b - 1]);
            }
            return Some(b - 1);
        }
        proof {
            assert(s@.take(b as int).last() == s@[b - 1]);
            assert(s@.take(b as int).drop_last() =~= s@.take(b - 1));
        }
        b = b - 1;
    }
    proof {
        assert(s@.take(0) =~= Seq::<char>::empty());
    }
    None
}

/// A found last occurrence really is one, inside the sequence.
pub proof fn lemma_last_char_props(s: Seq<char>, c: char)
    ensures
        last_char_idx(s, c) matches Some(i) ==> (0 <= i < s.len() && s[i] == c),
    decreases s.len(),
{
    if s.len() > 0 && s.last() != c {
        lemma_last_char_props(s.drop_last(), c);
    }
}

/// Every character in the range is an ASCII digit.
pub open spec fn all_digits_range(s: Seq<char>, from: int, to: int) -> bool {
    forall|j: int| from <= j < to ==> '0' <= #[trigger] s[j] && s[j] <= '9'
}

/// Whether every character from `from` to the end is an ASCII digit.
pub fn all_digits_from(s: &str, from: usize) -> (r: bool)
    requires
        from <= s@.len(),
    ensures
        r == all_digits_range(s@, from as int, s@.len() as int),
{
    let n: usize = s.unicode_len();
    let mut i: usize = from;
    while i < n
        invariant
            n == s@.len(),
            from <= i <= n,
            all_digits_range(s@, from as int, i as int),
        decreases n - i,
    {
        let c = s.get_char(i);
        if !('0' <= c && c <= '9') {
            return false;
        }
        i = i + 1;
    }
    true
}

/// An ASCII whitespace character.
pub open spec fn is_ascii_space(c: char) -> bool {
    c == ' ' || c == '\t' || c == '\n' || c == '\r'
}

/// The sequence with leading ASCII whitespace removed.
pub open spec fn trim_front(s: Seq<char>) -> Seq<char>
    decreases s.len(),
{
    if s.len() > 0 && is_ascii_space(s[0]) {
        trim_front(s.drop_first())
    } else {
        s
    }
}

/// The sequence with trailing ASCII whitespace removed.
pub open spec fn trim_back(s: Seq<char>) -> Seq<char>
    decreases s.len(),
{
    if s.len() > 0 && is_ascii_space(s.last()) {
        trim_back(s.drop_last())
    } else {
        s
    }
}

/// The sequence with surrounding ASCII whitespace removed.
pub open spec fn trim_spaces(s: Seq<char>) -> Seq<char> {
    trim_back(trim_front(s))
}

/// A prefix of whitespace drops off the front, one character at a time.
proof fn lemma_trim_front_skip(s: Seq<char>, a: int)
    requires
        0 <= a <= s.len(),
        forall|j: int| 0 <= j < a ==> is_ascii_space(#[trigger] s[j]),
    ensures
        trim_front(s) == trim_front(s.skip(a)),
    decreases a,
{
    if a > 0 {
        assert(s.len() > 0 && is_ascii_space(s[0]));
        assert(s.drop_first() =~= s.skip(1));
        lemma_trim_front_skip(s.skip(1), a - 1);
        assert(s.skip(1).skip(a - 1) =~= s.skip(a));
    } else {
        assert(s.skip(0) =~= s);
    }
}

/// A suffix of whitespace drops off the back, one character at a time.
proof fn lemma_trim_back_take(s: Seq<char>, b: int)
    requires
        0 <= b <= s.len(),
        forall|j: int| b <= j < s.len() ==> is_ascii_space(#[trigger] s[j]),
    ensures
        trim_back(s) == trim_back(s.take(b)),
    decreases s.len() - b,
{
    if b < s.len() {
        assert(is_ascii_space(s.last()));
        assert(s.drop_last() =~= s.take(s.len() - 1));
        lemma_trim_back_take(s.take(s.len() - 1), b);
        assert(s.take(s.len() - 1).take(b) =~= s.take(b));
    } else {
        assert(s.take(s.len() as int) =~= s);
    }
}

/// Whether a character is ASCII whitespace.
fn is_space_ex(c: char) -> (r: bool)
    ensures
        r == is_ascii_space(c),
{
    c == ' ' || c == '\t' || c == '\n' || c == '\r'
}

/// Strips surrounding ASCII whitespace.
pub fn trim_ascii(s: &str) -> (r: String)
    ensures
        r@ == trim_spaces(s@),
{
    let n: usize = s.unicode_len();
    let mut a: usize = 0;
    while a < n && is_space_ex(s.get_char(a))
        invariant
            n == s@.len(),
            a <= n,
            forall|j: int| 0 <= j < a ==> is_ascii_space(#[trigger] s@[j]),
        decreases n - a,
    {
        a = a + 1;
    }
    proof {
        lemma_trim_front_skip(s@, a as int);
        if a < n {
            assert(trim_front(s@.skip(a as int)) == s@.skip(a as int));
        } else {
            assert(s@.skip(a as int) =~= Seq::<char>::empty());
        }
    }
    let mut b: usize = n;
    while b > a && is_space_ex(s.get_char(b - 1))
        invariant
            n == s@.len(),
            a <= b <= n,
            forall|j: int| b <= j < n ==> is_ascii_space(#[trigger] s@[j]),
        decreases b,
    {
        b = b - 1;
    }
    let piece = s.substring_char(a, b);
    let out = <String as vstd::string::StringExecFns>::from_str(piece);
    proof {
        let front = s@.skip(a as int);
        assert(trim_front(s@) == front);
        assert(front.len() == n - a);
        assert(forall|j: int| 0 <= j < front.len() ==> front[j] == s@[j + a]);
        lemma_trim_back_take(front, b - a);
        if b > a {
            assert(!is_ascii_space(s@[b - 1]));
            assert(front.take(b - a)[b - a - 1] == s@[b - 1]);
            assert(trim_back(front.take(b - a)) == front.take(b - a));
        } else {
            assert(front.take(0) =~= Seq::<char>::empty());
        }
        assert(out@ =~= trim_spaces(s@));
    }
    out
}

/// Strict lexicographic order on character sequences, by code point, with
/// a proper prefix ordered first.
pub open spec fn lex_lt(a: Seq<char>, b: Seq<char>) -> bool
    decreases a.len(),
{
    if b.len() == 0 {
        false
    } else if a.len() == 0 {
        true
    } else if a[0] != b[0] {
        (a[0] as u32) < (b[0] as u32)
    } else {
        lex_lt(a.drop_first(), b.drop_first())
    }
}

/// Sequences that agree on their first `i` characters compare as their
/// suffixes from `i` do.
proof fn lemma_lex_skip(a: Seq<char>, b: Seq<char>, i: int)
    requires
        0 <= i <= a.len(),
        i <= b.len(),
        forall|j: int| 0 <= j < i ==> a[j] == b[j],
    ensures
        lex_lt(a, b) == lex_lt(a.skip(i), b.skip(i)),
    decreases i,
{
    if i > 0 {
        assert(a.len() > 0 && b.len() > 0);
        assert(a[0] == b[0]);
        assert(a.drop_first() =~= a.skip(1));
        assert(b.drop_first() =~= b.skip(1));
        lemma_lex_skip(a.skip(1), b.skip(1), i - 1);
        assert(a.skip(1).skip(i - 1) =~= a.skip(i));
        assert(b.skip(1).skip(i - 1) =~= b.skip(i));
    } else {
        assert(a.skip(0) =~= a);
        assert(b.skip(0) =~= b);
    }
}

/// Lexicographic comparison of two strings.
pub fn str_lex_lt(a: &str, b: &str) -> (r: bool)
    ensures
        r == lex_lt(a@, b@),
{
    let na: usize = a.unicode_len();
    let nb: usize = b.unicode_len();
    let n: usize = if na < nb {
        na
    } else {
        nb
    };
    let mut i: usize = 0;
    while i < n
        invariant
            na == a@.len(),
            nb == b@.len(),
            n <= na,
            n <= nb,
            i <= n,
            forall|j: int| 0 <= j < i ==> a@[j] == b@[j],
        decreases n - i,
    {
        let ca = a.get_char(i);
        let cb = b.get_char(i);
        if ca != cb {
            proof {
                lemma_lex_skip(a@, b@, i as int);
                assert(a@.skip(i as int)[0] == a@[i as int]);
                assert(b@.skip(i as int)[0] == b@[i as int]);
            }
            return (ca as u32) < (cb as u32);
        }
        i = i + 1;
    }
    proof {
        lemma_lex_skip(a@, b@, n as int);
    }
    na < nb
}

/// Decimal representation of a number, most significant digit first.
pub open spec fn dec_str(n: nat) -> Seq<char>
    decreases n,
{
    if n < 10 {
        seq![digit_char(n)]
    } else {
        dec_str(n / 10) + seq![digit_char(n % 10)]
    }
}

/// The character for one decimal digit.
pub open spec fn digit_char(d: nat) -> char {
    if d == 0 {
        '0'
    } else if d == 1 {
        '1'
    } else if d == 2 {
        '2'
    } else if d == 3 {
        '3'
    } else if d == 4 {
        '4'
    } else if d == 5 {
        '5'
    } else if d == 6 {
        '6'
    } else if d == 7 {
        '7'
    } else if d == 8 {
        '8'
    } else {
        '9'
    }
}

fn digit_char_ex(d: u64) -> (r: char)
    requires
        d < 10,
    ensures
        r == digit_char(d as nat),
{
    if d == 0 {
        '0'
    } else if d == 1 {
        '1'
    } else if d == 2 {
        '2'
    } else if d == 3 {
        '3'
    } else if d == 4 {
        '4'
    } else if d == 5 {
        '5'
    } else if d == 6 {
        '6'
    } else if d == 7 {
        '7'
    } else if d == 8 {
        '8'
    } else {
        '9'
    }
}

/// Decimal formatting of a `u64`.
pub fn u64_to_string(n: u64) -> (r: String)
    ensures
        r@ == dec_str(n as nat),
    decreases n,
{
    if n < 10 {
        let mut s: String = String::new();
        push_char(&mut s, digit_char_ex(n));
        proof {
            assert(s@ =~= dec_str(n as nat));
        }
        s
    } else {
        let mut s = u64_to_string(n / 10);
        push_char(&mut s, digit_char_ex(n % 10));
        proof {
            assert(s@ =~= dec_str(n as nat));
        }
        s
    }
}

/// Appends `piece` to `out`.
pub fn append_str(out: &mut String, piece: &str)
    ensures
        final(out)@ == old(out)@ + piece@,
{
    let n: usize = piece.unicode_len();
    let mut i: usize = 0;
    while i < n
        invariant
            n == piece@.len(),
            i <= n,
            out@ == old(out)@ + piece@.take(i as int),
        decreases n - i,
    {
        push_char(out, piece.get_char(i));
        i = i + 1;
        proof {
            assert(out@ =~= old(out)@ + piece@.take(i as int));
        }
    }
    proof {
        assert(out@ =~= old(out)@ + piece@);
    }
}

} // verus!
