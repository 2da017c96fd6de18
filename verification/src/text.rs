//! String helpers shared by the API: prefix and substring tests, trimming,
//! case mapping and number parsing.

use vstd::prelude::*;
use vstd::string::*;
use vstd::utf8::*;

verus! {

// ---------------------------------------------------------------------------
// Decimal numbers
// ---------------------------------------------------------------------------

/// Whether every character is an ASCII decimal digit.
pub open spec fn all_digits(s: Seq<char>) -> bool {
    forall|i: int| 0 <= i < s.len() ==> '0' <= #[trigger] s[i] && s[i] <= '9'
}

/// The number that a string of decimal digits denotes.
pub open spec fn digits_value(s: Seq<char>) -> nat
    decreases s.len(),
{
    if s.len() == 0 {
        0
    } else {
        digits_value(s.drop_last()) * 10 + (s.last() as nat - 48) as nat
    }
}

/// What `str::parse::<u64>` gives: an optional `+` followed by at least one
/// decimal digit, with a value that fits in `u64`.
pub open spec fn parse_u64_spec(s: Seq<char>) -> Option<u64> {
    let d = if s.len() > 0 && s[0] == '+' { s.drop_first() } else { s };
    if d.len() > 0 && all_digits(d) && digits_value(d) <= u64::MAX {
        Some(digits_value(d) as u64)
    } else {
        None
    }
}

/// What `str::parse::<u8>` gives: an optional `+` followed by at least one
/// decimal digit, with a value that fits in `u8`.
pub open spec fn parse_u8_spec(s: Seq<char>) -> Option<u8> {
    let d = if s.len() > 0 && s[0] == '+' { s.drop_first() } else { s };
    if d.len() > 0 && all_digits(d) && digits_value(d) <= u8::MAX {
        Some(digits_value(d) as u8)
    } else {
        None
    }
}

/// What `str::parse::<i64>` gives: an optional `+` or `-` followed by at least
/// one decimal digit, with a value in the range of `i64`.
pub open spec fn parse_i64_spec(s: Seq<char>) -> Option<i64> {
    let neg = s.len() > 0 && s[0] == '-';
    let d = if s.len() > 0 && (s[0] == '+' || s[0] == '-') { s.drop_first() } else { s };
    if d.len() > 0 && all_digits(d) {
        let v: int = if neg { -(digits_value(d) as int) } else { digits_value(d) as int };
        if i64::MIN <= v && v <= i64::MAX {
            Some(v as i64)
        } else {
            None
        }
    } else {
        None
    }
}

/// Calls `str::parse::<u64>`.
#[verifier::external_body]
pub(crate) fn parse_u64(s: &str) -> (res: Option<u64>)
    ensures
        res == parse_u64_spec(s@),
{
    s.parse::<u64>().ok()
}

/// Calls `str::parse::<u8>`.
#[verifier::external_body]
pub(crate) fn parse_u8(s: &str) -> (res: Option<u8>)
    ensures
        res == parse_u8_spec(s@),
{
    s.parse::<u8>().ok()
}

/// Calls `str::parse::<i64>`.
#[verifier::external_body]
pub(crate) fn parse_i64(s: &str) -> (res: Option<i64>)
    ensures
        res == parse_i64_spec(s@),
{
    s.parse::<i64>().ok()
}

/// Decimal digits of a natural number, without leading zeros (`"0"` for zero).
pub open spec fn decimal_digits(n: nat) -> Seq<char>
    decreases n,
{
    if n < 10 {
        seq![(48 + n) as char]
    } else {
        decimal_digits(n / 10).push((48 + n % 10) as char)
    }
}

/// Decimal representation of an integer, as `format!("{}", v)` writes it.
pub open spec fn decimal(v: int) -> Seq<char> {
    if v < 0 {
        seq!['-'] + decimal_digits((-v) as nat)
    } else {
        decimal_digits(v as nat)
    }
}

/// Calls `i64::to_string`.
#[verifier::external_body]
pub(crate) fn i64_to_string(v: i64) -> (s: String)
    ensures
        s@ == decimal(v as int),
{
    v.to_string()
}

/// Calls `u8::to_string`.
#[verifier::external_body]
pub(crate) fn u8_to_string(v: u8) -> (s: String)
    ensures
        s@ == decimal(v as int),
{
    v.to_string()
}

// ---------------------------------------------------------------------------
// Prefixes, substrings, case and whitespace
// ---------------------------------------------------------------------------

/// Whether `s` starts with `prefix`.
pub open spec fn starts_with(s: Seq<char>, prefix: Seq<char>) -> bool {
    prefix.len() <= s.len() && s.subrange(0, prefix.len() as int) == prefix
}

/// Whether `needle` occurs in `s` at position `i`.
pub open spec fn occurs_at(s: Seq<char>, needle: Seq<char>, i: int) -> bool {
    0 <= i && i + needle.len() <= s.len() && s.subrange(i, i + needle.len()) == needle
}

/// Whether `needle` occurs in `s`.
pub open spec fn contains(s: Seq<char>, needle: Seq<char>) -> bool {
    exists|i: int| occurs_at(s, needle, i)
}

/// The characters of a string, one at a time (O(n) per character).
fn char_at(s: &str, i: usize) -> (c: char)
    requires
        i < s@.len(),
    ensures
        c == s@[i as int],
{
    s.get_char(i)
}

/// Whether `s` starts with `prefix`.
pub fn str_starts_with(s: &str, prefix: &str) -> (res: bool)
    ensures
        res == starts_with(s@, prefix@),
{
    let n = prefix.unicode_len();
    let m = s.unicode_len();
    if n > m {
        return false;
    }
    let mut i: usize = 0;
    while i < n
        invariant
            n == prefix@.len(),
            m == s@.len(),
            n <= m,
            0 <= i <= n,
            forall|j: int| 0 <= j < i ==> s@[j] == prefix@[j],
        decreases n - i,
    {
        if char_at(s, i) != char_at(prefix, i) {
            assert(s@.subrange(0, n as int)[i as int] != prefix@[i as int]);
            return false;
        }
        i = i + 1;
    }
    assert(s@.subrange(0, n as int) =~= prefix@);
    true
}

/// Whether `needle` occurs in `s`.
pub fn str_contains(s: &str, needle: &str) -> (res: bool)
    ensures
        res == contains(s@, needle@),
{
    let n = needle.unicode_len();
    let m = s.unicode_len();
    if n > m {
        assert forall|i: int| !occurs_at(s@, needle@, i) by {}
        return false;
    }
    if n == 0 {
        assert(s@.subrange(0, 0) =~= needle@);
        assert(occurs_at(s@, needle@, 0));
        return true;
    }
    let mut start: usize = 0;
    while start <= m - n
        invariant
            n == needle@.len(),
            m == s@.len(),
            0 < n <= m,
            0 <= start <= m - n + 1,
            forall|k: int| 0 <= k < start ==> !occurs_at(s@, needle@, k),
        decreases m - n + 1 - start,
    {
        let mut i: usize = 0;
        let mut matched = true;
        while i < n
            invariant
                n == needle@.len(),
                m == s@.len(),
                n <= m,
                start + n <= m,
                0 <= i <= n,
                matched ==> forall|j: int| 0 <= j < i ==> s@[start + j] == needle@[j],
                !matched ==> !occurs_at(s@, needle@, start as int),
            decreases n - i,
        {
            if matched && char_at(s, start + i) != char_at(needle, i) {
                matched = false;
                assert(s@.subrange(start as int, start + n)[i as int] != needle@[i as int]);
            }
            i = i + 1;
        }
        if matched {
            assert(s@.subrange(start as int, start + n) =~= needle@);
            assert(occurs_at(s@, needle@, start as int));
            return true;
        }
        start = start + 1;
    }
    assert forall|i: int| !occurs_at(s@, needle@, i) by {
        if 0 <= i && i + needle@.len() <= s@.len() {
            assert(i < start);
        }
    }
    false
}

/// Whether a character is Unicode `White_Space`, the set that `str::trim`
/// removes.
pub open spec fn is_whitespace(c: char) -> bool {
    ('\u{9}' <= c && c <= '\u{d}') || c == ' ' || c == '\u{85}' || c == '\u{a0}' || c == '\u{1680}'
        || ('\u{2000}' <= c && c <= '\u{200a}') || c == '\u{2028}' || c == '\u{2029}' || c == '\u{202f}'
        || c == '\u{205f}' || c == '\u{3000}'
}

/// Whether `t` is `s` without its leading and trailing whitespace.
pub open spec fn is_trim_of(s: Seq<char>, t: Seq<char>) -> bool {
    exists|a: int, b: int|
        #![trigger s.subrange(a, b)]
        0 <= a <= b <= s.len() && t == s.subrange(a, b)
            && (forall|i: int| 0 <= i < a ==> is_whitespace(#[trigger] s[i]))
            && (forall|i: int| b <= i < s.len() ==> is_whitespace(#[trigger] s[i]))
            && (t.len() > 0 ==> !is_whitespace(t[0]) && !is_whitespace(t.last()))
}

/// Calls `str::trim`.
#[verifier::external_body]
pub(crate) fn str_trim(s: &str) -> (t: &str)
    ensures
        is_trim_of(s@, t@),
{
    s.trim()
}

/// ASCII upper case of a character; other characters are unchanged.
pub open spec fn ascii_upper(c: char) -> char {
    if 'a' <= c && c <= 'z' { ((c as int) - 32) as char } else { c }
}

/// ASCII lower case of a character; other characters are unchanged.
pub open spec fn ascii_lower(c: char) -> char {
    if 'A' <= c && c <= 'Z' { ((c as int) + 32) as char } else { c }
}

/// The full Unicode upper case of a string, as `str::to_uppercase` gives it;
/// on ASCII letters it is the ASCII upper case.
pub uninterp spec fn unicode_upper(s: Seq<char>) -> Seq<char>;

/// The full Unicode lower case of a string, as `str::to_lowercase` gives it;
/// on ASCII letters it is the ASCII lower case.
pub uninterp spec fn unicode_lower(s: Seq<char>) -> Seq<char>;

/// Calls `str::to_uppercase`: the result is the Unicode upper case; an ASCII
/// string maps character by character to its ASCII upper case.
#[verifier::external_body]
pub(crate) fn str_to_uppercase(s: &str) -> (u: String)
    ensures
        u@ == unicode_upper(s@),
        is_ascii_chars(s@) ==> u@ == s@.map_values(|c: char| ascii_upper(c)),
{
    s.to_uppercase()
}

/// Calls `str::to_lowercase`: the result is the Unicode lower case; an ASCII
/// string maps character by character to its ASCII lower case.
#[verifier::external_body]
pub(crate) fn str_to_lowercase(s: &str) -> (l: String)
    ensures
        l@ == unicode_lower(s@),
        is_ascii_chars(s@) ==> l@ == s@.map_values(|c: char| ascii_lower(c)),
{
    s.to_lowercase()
}

/// Whether two strings hold the same characters.
pub fn str_eq(a: &str, b: &str) -> (res: bool)
    ensures
        res == (a@ == b@),
{
    let n = a.unicode_len();
    if n != b.unicode_len() {
        return false;
    }
    let mut i: usize = 0;
    while i < n
        invariant
            n == a@.len(),
            n == b@.len(),
            0 <= i <= n,
            forall|j: int| 0 <= j < i ==> a@[j] == b@[j],
        decreases n - i,
    {
        if char_at(a, i) != char_at(b, i) {
            return false;
        }
        i = i + 1;
    }
    assert(a@ =~= b@);
    true
}

} // verus!
