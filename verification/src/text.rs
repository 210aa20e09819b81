//! Character classes and the small string operations that the station form
//! relies on: trimming, prefix tests, lower-casing and identifier derivation.
//!
//! ASCII text is handled by the code in this module, character by character.
//! Text outside ASCII is classified and lower-cased by the standard library,
//! whose answers are named here and not defined.

use vstd::prelude::*;
use vstd::string::StrSliceExecFns;

verus! {

/// What `char::is_whitespace` answers for `c`: whether `c` carries the Unicode
/// property `White_Space`.
pub uninterp spec fn unicode_white_space(c: char) -> bool;

/// What `char::is_alphanumeric` answers for `c`: whether `c` is alphabetic or
/// numeric in the sense of the Unicode character database.
pub uninterp spec fn unicode_alphanumeric(c: char) -> bool;

/// What `str::to_lowercase` returns for the text `s`.
pub uninterp spec fn unicode_lowercase(s: Seq<char>) -> Seq<char>;

/// `char::is_whitespace` of the standard library. Trusted: the result is the
/// named answer; nothing is said about which characters count as white space.
pub assume_specification[ char::is_whitespace ](c: char) -> (b: bool)
    ensures
        b == unicode_white_space(c),
;

/// `char::is_alphanumeric` of the standard library. Trusted: the result is the
/// named answer; nothing is said about which characters are alphanumeric.
pub assume_specification[ char::is_alphanumeric ](c: char) -> (b: bool)
    ensures
        b == unicode_alphanumeric(c),
;

/// `str::to_lowercase` of the standard library. Trusted: the result is the
/// named lower-case form of the argument; nothing is said about its contents.
pub assume_specification[ str::to_lowercase ](s: &str) -> (r: String)
    ensures
        r@ == unicode_lowercase(s@),
;

/// `String::push` of the standard library. Trusted: the character is appended
/// and the text before it is unchanged.
pub assume_specification[ String::push ](s: &mut String, c: char)
    ensures
        final(s)@ == old(s)@.push(c),
;

/// Whether `c` lies in the seven-bit ASCII range.
pub open spec fn is_ascii_char(c: char) -> bool {
    c <= '\u{7f}'
}

/// White space: for ASCII the space and the control characters from tab to
/// carriage return, otherwise what Unicode calls white space.
pub open spec fn is_space(c: char) -> bool {
    if is_ascii_char(c) {
        c == ' ' || ('\t' <= c && c <= '\r')
    } else {
        unicode_white_space(c)
    }
}

/// Letters and digits: for ASCII the 26 letters in both cases and the ten
/// digits, otherwise what Unicode calls alphabetic or numeric.
pub open spec fn is_alphanumeric(c: char) -> bool {
    if is_ascii_char(c) {
        ('a' <= c && c <= 'z') || ('A' <= c && c <= 'Z') || ('0' <= c && c <= '9')
    } else {
        unicode_alphanumeric(c)
    }
}

/// The lower-case form of an ASCII letter; every other character is unchanged.
pub open spec fn ascii_lower(c: char) -> char {
    if 'A' <= c && c <= 'Z' {
        ((c as u8) + 32) as char
    } else {
        c
    }
}

/// Decides [`is_space`].
pub fn is_space_char(c: char) -> (b: bool)
    ensures
        b == is_space(c),
{
    if c <= '\u{7f}' {
        c == ' ' || ('\t' <= c && c <= '\r')
    } else {
        c.is_whitespace()
    }
}

/// Decides [`is_alphanumeric`].
pub fn is_alphanumeric_char(c: char) -> (b: bool)
    ensures
        b == is_alphanumeric(c),
{
    if c <= '\u{7f}' {
        ('a' <= c && c <= 'z') || ('A' <= c && c <= 'Z') || ('0' <= c && c <= '9')
    } else {
        c.is_alphanumeric()
    }
}

/// Computes [`ascii_lower`].
pub fn to_ascii_lower(c: char) -> (r: char)
    ensures
        r == ascii_lower(c),
{
    if 'A' <= c && c <= 'Z' {
        let code: u8 = c as u8;
        let lowered: u8 = code + 32;
        lowered as char
    } else {
        c
    }
}

/// `s` without its leading white space.
pub open spec fn trim_start(s: Seq<char>) -> Seq<char>
    decreases s.len(),
{
    if s.len() > 0 && is_space(s[0]) {
        trim_start(s.drop_first())
    } else {
        s
    }
}

/// `s` without its trailing white space.
pub open spec fn trim_end(s: Seq<char>) -> Seq<char>
    decreases s.len(),
{
    if s.len() > 0 && is_space(s.last()) {
        trim_end(s.drop_last())
    } else {
        s
    }
}

/// `s` without leading and trailing white space.
pub open spec fn trimmed(s: Seq<char>) -> Seq<char> {
    trim_end(trim_start(s))
}

/// Whether `s` begins with `prefix`.
pub open spec fn has_prefix(s: Seq<char>, prefix: Seq<char>) -> bool {
    prefix.len() <= s.len() && s.subrange(0, prefix.len() as int) == prefix
}

/// Whether every character of `s` is an ASCII character.
pub open spec fn all_ascii(s: Seq<char>) -> bool {
    vstd::utf8::is_ascii_chars(s)
}

/// The lower-case form of `s`: letter by letter for ASCII text, the Unicode
/// lower-casing of the whole text otherwise.
pub open spec fn lowercased(s: Seq<char>) -> Seq<char> {
    if all_ascii(s) {
        s.map_values(|c: char| ascii_lower(c))
    } else {
        unicode_lowercase(s)
    }
}

/// A space becomes a dash; every other character is unchanged.
pub open spec fn dashed(c: char) -> char {
    if c == ' ' {
        '-'
    } else {
        c
    }
}

/// Whether `c` may stand in a station identifier: letters, digits and the dash.
pub open spec fn kept_in_id(c: char) -> bool {
    is_alphanumeric(c) || c == '-'
}

/// The identifier made from text in lower case: spaces turned into dashes,
/// and every character dropped that is neither a letter, a digit nor a dash.
pub open spec fn slug_of(lowered: Seq<char>) -> Seq<char> {
    lowered.map_values(|c: char| dashed(c)).filter(|c: char| kept_in_id(c))
}

/// The identifier derived from a station name: the name in lower case, spaces
/// turned into dashes, and every character dropped that is neither a letter,
/// a digit nor a dash.
pub open spec fn derived_id(name: Seq<char>) -> Seq<char> {
    slug_of(lowercased(name))
}

/// The characters of `s`, in order.
pub fn chars_of(s: &str) -> (chars: Vec<char>)
    ensures
        chars@ == s@,
{
    let mut chars: Vec<char> = Vec::new();
    for c in it: s.chars()
        invariant
            it.seq() == s@,
            chars@ == s@.take(it.index() as int),
    {
        chars.push(c);
    }
    chars
}

/// Removes leading and trailing white space.
pub fn trim(s: &str) -> (r: &str)
    ensures
        r@ == trimmed(s@),
{
    let chars = chars_of(s);
    let n = chars.len();
    let mut start: usize = 0;
    assert(s@.subrange(0, n as int) == s@);
    while start < n && is_space_char(chars[start])
        invariant
            start <= n,
            n == s@.len(),
            chars@ == s@,
            trim_start(s@) == trim_start(s@.subrange(start as int, n as int)),
        decreases n - start,
    {
        assert(s@.subrange(start as int, n as int).drop_first() == s@.subrange(
            start as int + 1,
            n as int,
        ));
        start = start + 1;
    }
    assert(trim_start(s@) == s@.subrange(start as int, n as int));
    let mut end: usize = n;
    while end > start && is_space_char(chars[end - 1])
        invariant
            start <= end <= n,
            n == s@.len(),
            chars@ == s@,
            trimmed(s@) == trim_end(s@.subrange(start as int, end as int)),
        decreases end - start,
    {
        assert(s@.subrange(start as int, end as int).drop_last() == s@.subrange(
            start as int,
            end as int - 1,
        ));
        end = end - 1;
    }
    s.substring_char(start, end)
}

/// Tests whether `s` begins with `prefix`.
pub fn starts_with(s: &str, prefix: &str) -> (b: bool)
    ensures
        b == has_prefix(s@, prefix@),
{
    let text = chars_of(s);
    let head = chars_of(prefix);
    let n = text.len();
    let m = head.len();
    if m > n {
        return false;
    }
    let mut i: usize = 0;
    while i < m
        invariant
            i <= m <= n,
            n == s@.len(),
            m == prefix@.len(),
            text@ == s@,
            head@ == prefix@,
            s@.subrange(0, i as int) == prefix@.subrange(0, i as int),
        decreases m - i,
    {
        if text[i] != head[i] {
            assert(s@.subrange(0, m as int)[i as int] != prefix@[i as int]);
            return false;
        }
        assert(s@.subrange(0, i as int + 1) == s@.subrange(0, i as int).push(s@[i as int]));
        assert(prefix@.subrange(0, i as int + 1) == prefix@.subrange(0, i as int).push(
            prefix@[i as int],
        ));
        i = i + 1;
    }
    assert(prefix@.subrange(0, m as int) == prefix@);
    true
}

/// Lower-cases `s`.
pub fn to_lowercase(s: &str) -> (r: String)
    ensures
        r@ == lowercased(s@),
{
    if s.is_ascii() {
        let mut out = String::new();
        for c in it: s.chars()
            invariant
                it.seq() == s@,
                out@ == s@.take(it.index() as int).map_values(|c: char| ascii_lower(c)),
        {
            assert(s@.take(it.index() + 1) == s@.take(it.index() as int).push(c));
            out.push(to_ascii_lower(c));
        }
        assert(s@.take(s@.len() as int) == s@);
        out
    } else {
        s.to_lowercase()
    }
}

/// Makes the identifier from text that is in lower case already.
pub fn slug(lowered: &str) -> (id: String)
    ensures
        id@ == slug_of(lowered@),
{
    let mut id = String::new();
    for c in it: lowered.chars()
        invariant
            it.seq() == lowered@,
            id@ == slug_of(lowered@.take(it.index() as int)),
    {
        let d = if c == ' ' {
            '-'
        } else {
            c
        };
        proof {
            let dash = |c: char| dashed(c);
            let before = lowered@.take(it.index() as int).map_values(dash);
            let after = lowered@.take(it.index() + 1).map_values(dash);
            assert(lowered@.take(it.index() + 1) == lowered@.take(it.index() as int).push(c));
            assert(after == before.push(d));
            assert(after.drop_last() == before);
            reveal(Seq::filter);
        }
        if d == '-' || is_alphanumeric_char(d) {
            id.push(d);
        }
    }
    assert(lowered@.take(lowered@.len() as int) == lowered@);
    id
}

/// Derives the station identifier from a station name.
pub fn derive_id(name: &str) -> (id: String)
    ensures
        id@ == derived_id(name@),
{
    let lowered = to_lowercase(name);
    slug(lowered.as_str())
}

} // verus!
