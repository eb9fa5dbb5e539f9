//! String utilities shared by the rest of the library.
//!
//! Strings are reasoned about through their view, the sequence of `char`s.
//! Byte lengths are reasoned about through vstd's UTF-8 encoding of that view.

use vstd::prelude::*;
use vstd::string::StringSliceAdditionalSpecFns;
use vstd::utf8::*;
use vstd::std_specs::iter::IteratorSpec;

verus! {

/// `needle` occurs in `hay` starting at `start`.
pub open spec fn occurs_at(hay: Seq<char>, needle: Seq<char>, start: int) -> bool {
    &&& 0 <= start
    &&& start + needle.len() <= hay.len()
    &&& hay.subrange(start, start + needle.len()) == needle
}

/// `needle` occurs somewhere in `hay`.
pub open spec fn seq_contains(hay: Seq<char>, needle: Seq<char>) -> bool {
    exists|i: int| occurs_at(hay, needle, i)
}

/// `prefix` is a prefix of `s`.
pub open spec fn seq_starts_with(s: Seq<char>, prefix: Seq<char>) -> bool {
    occurs_at(s, prefix, 0)
}

/// `suffix` is a suffix of `s`.
pub open spec fn seq_ends_with(s: Seq<char>, suffix: Seq<char>) -> bool {
    occurs_at(s, suffix, s.len() - suffix.len())
}

/// `needle` occurs in the byte sequence `hay` starting at `start`.
pub open spec fn occurs_at_bytes(hay: Seq<u8>, needle: Seq<u8>, start: int) -> bool {
    &&& 0 <= start
    &&& start + needle.len() <= hay.len()
    &&& hay.subrange(start, start + needle.len()) == needle
}

/// The greatest start index `<= k` of an occurrence of `needle` in `hay`.
pub open spec fn last_occurrence_upto(hay: Seq<u8>, needle: Seq<u8>, k: int) -> Option<int>
    decreases k + 1,
{
    if k < 0 {
        None
    } else if occurs_at_bytes(hay, needle, k) {
        Some(k)
    } else {
        last_occurrence_upto(hay, needle, k - 1)
    }
}

/// The byte index of the last occurrence of `needle` in `hay`.
pub open spec fn last_occurrence(hay: Seq<u8>, needle: Seq<u8>) -> Option<int> {
    last_occurrence_upto(hay, needle, hay.len() - needle.len())
}

/// Every character is an ASCII decimal digit.
pub open spec fn all_ascii_digits(s: Seq<char>) -> bool {
    forall|i: int| 0 <= i < s.len() ==> '0' <= #[trigger] s[i] && s[i] <= '9'
}

/// The characters whose UTF-8 encoding is the first `cut` bytes of the encoding of `s`.
pub open spec fn byte_prefix(s: Seq<char>, cut: int) -> Seq<char> {
    decode_utf8(encode_utf8(s).subrange(0, cut))
}

/// The characters whose UTF-8 encoding is the bytes of the encoding of `s` from `cut` on.
pub open spec fn byte_suffix(s: Seq<char>, cut: int) -> Seq<char> {
    decode_utf8(encode_utf8(s).subrange(cut, encode_utf8(s).len() as int))
}

/// The number of UTF-8 bytes of `s`.
pub open spec fn byte_len(s: Seq<char>) -> nat {
    encode_utf8(s).len()
}

/// The result of `str::to_lowercase`: the lowercase equivalent of a string
/// according to the Unicode `Lowercase` property.
pub uninterp spec fn lowercase_of(s: Seq<char>) -> Seq<char>;

/// The result of `str::trim`: the string without leading and trailing
/// Unicode white space.
pub uninterp spec fn trimmed(s: Seq<char>) -> Seq<char>;

/// The character for a decimal digit.
pub open spec fn digit_char(d: nat) -> char {
    if d == 0 { '0' } else if d == 1 { '1' } else if d == 2 { '2' } else if d == 3 { '3' }
    else if d == 4 { '4' } else if d == 5 { '5' } else if d == 6 { '6' } else if d == 7 { '7' }
    else if d == 8 { '8' } else { '9' }
}

/// Decimal representation of a natural number, without leading zeros.
pub open spec fn decimal(n: nat) -> Seq<char>
    decreases n,
{
    if n < 10 {
        seq![digit_char(n)]
    } else {
        decimal(n / 10).push(digit_char(n % 10))
    }
}

/// Decimal representation of an integer, with a leading `-` when negative.
pub open spec fn signed_decimal(n: int) -> Seq<char> {
    if n < 0 {
        seq!['-'] + decimal((-n) as nat)
    } else {
        decimal(n as nat)
    }
}

/// Wraps `str::contains` with a `&str` pattern: true when `pat` is a substring of `s`.
#[verifier::external_body]
pub(crate) fn str_contains(s: &str, pat: &str) -> (r: bool)
    ensures
        r == seq_contains(s@, pat@),
{
    s.contains(pat)
}

/// Wraps `str::starts_with` with a `&str` pattern.
#[verifier::external_body]
pub(crate) fn str_starts_with(s: &str, pat: &str) -> (r: bool)
    ensures
        r == seq_starts_with(s@, pat@),
{
    s.starts_with(pat)
}

/// Wraps `str::ends_with` with a `&str` pattern.
#[verifier::external_body]
pub(crate) fn str_ends_with(s: &str, pat: &str) -> (r: bool)
    ensures
        r == seq_ends_with(s@, pat@),
{
    s.ends_with(pat)
}

/// Wraps `str::rfind` with a `&str` pattern: the byte index of the start of the
/// last match of `pat` in `s`.
#[verifier::external_body]
pub(crate) fn str_rfind(s: &str, pat: &str) -> (r: Option<usize>)
    ensures
        r matches Some(i) ==> last_occurrence(s.spec_bytes(), pat.spec_bytes()) == Some(i as int),
        r is None ==> last_occurrence(s.spec_bytes(), pat.spec_bytes()) is None,
{
    s.rfind(pat)
}

/// Wraps `str::to_lowercase`.
#[verifier::external_body]
pub(crate) fn to_lowercase(s: &str) -> (r: String)
    ensures
        r@ == lowercase_of(s@),
{
    s.to_lowercase()
}

/// Wraps `str::trim`.
#[verifier::external_body]
pub(crate) fn trim(s: &str) -> (r: &str)
    ensures
        r@ == trimmed(s@),
{
    s.trim()
}

/// Wraps `<str as PartialEq>::eq`: whether two strings hold the same characters.
#[verifier::external_body]
pub(crate) fn str_eq(a: &str, b: &str) -> (r: bool)
    ensures
        r == (a@ == b@),
{
    a == b
}

/// Wraps `String::push`: appends one character.
#[verifier::external_body]
pub(crate) fn push_char(s: &mut String, c: char)
    ensures
        final(s)@ == old(s)@.push(c),
{
    s.push(c);
}

/// Wraps `String::push_str`: appends a string slice.
#[verifier::external_body]
pub(crate) fn push_str(s: &mut String, t: &str)
    ensures
        final(s)@ == old(s)@ + t@,
{
    s.push_str(t);
}

/// Appends the decimal representation of `n`.
pub fn push_decimal(s: &mut String, n: u64)
    ensures
        final(s)@ == old(s)@ + decimal(n as nat),
    decreases n,
{
    if n >= 10 {
        push_decimal(s, n / 10);
    }
    let d = n % 10;
    let c = if d == 0 { '0' } else if d == 1 { '1' } else if d == 2 { '2' } else if d == 3 { '3' }
        else if d == 4 { '4' } else if d == 5 { '5' } else if d == 6 { '6' } else if d == 7 { '7' }
        else if d == 8 { '8' } else { '9' };
    push_char(s, c);
    proof {
        if n >= 10 {
            assert(decimal(n as nat) == decimal((n / 10) as nat).push(digit_char((n % 10) as nat)));
        }
    }
}

/// Wraps `str::as_bytes`, adding the bound that every Rust allocation obeys:
/// a string never holds more than `isize::MAX` bytes.
#[verifier::external_body]
pub(crate) fn str_bytes(s: &str) -> (r: &[u8])
    ensures
        r@ == s.spec_bytes(),
        r@.len() <= isize::MAX,
{
    s.as_bytes()
}

/// Appends the decimal representation of `n`, with a leading `-` when negative.
pub fn push_i64(s: &mut String, n: i64)
    ensures
        final(s)@ == old(s)@ + signed_decimal(n as int),
{
    if n < 0 {
        push_char(s, '-');
        let m: u64 = if n == i64::MIN {
            9223372036854775808u64
        } else {
            (-n) as u64
        };
        push_decimal(s, m);
        assert(seq!['-'] + decimal((-n) as nat) == seq!['-'].add(decimal(m as nat)));
        assert(old(s)@.push('-') + decimal(m as nat) == old(s)@ + (seq!['-'] + decimal(m as nat)));
    } else {
        push_decimal(s, n as u64);
    }
}

/// The characters of `s`.
pub fn chars_of(s: &str) -> (r: Vec<char>)
    ensures
        r@ == s@,
{
    broadcast use vstd::string::axiom_spec_iter;

    let mut out: Vec<char> = Vec::new();
    for c in it: s.chars()
        invariant
            out@ == it.seq().take(it.index() as int),
    {
        out.push(c);
    }
    assert(out@ =~= s@);
    out
}

/// A fresh string holding `t`.
pub fn string_of(t: &str) -> (r: String)
    ensures
        r@ == t@,
{
    t.to_owned()
}

/// The first `cut` bytes of `s` as a new string, when `cut` falls on a
/// character boundary; `None` otherwise.
pub fn prefix_at_byte(s: &str, cut: usize) -> (r: Option<String>)
    ensures
        r is Some <==> is_char_boundary(s.spec_bytes(), cut as int),
        r matches Some(t) ==> t@ == byte_prefix(s@, cut as int),
        r matches Some(t) ==> byte_len(t@) == cut,
{
    if s.is_char_boundary(cut) {
        let (a, _b) = s.split_at(cut);
        let t = a.to_owned();
        proof {
            let bytes = s.spec_bytes();
            encode_utf8_valid_utf8(s@);
            valid_utf8_split(bytes, cut as int);
            encode_utf8_decode_utf8(a@);
            decode_utf8_encode_utf8(bytes.subrange(0, cut as int));
        }
        Some(t)
    } else {
        None
    }
}

/// The bytes of `s` from `cut` on as a string slice, when `cut` falls on a
/// character boundary; `None` otherwise.
pub fn suffix_at_byte(s: &str, cut: usize) -> (r: Option<&str>)
    ensures
        r is Some <==> is_char_boundary(s.spec_bytes(), cut as int),
        r matches Some(t) ==> t@ == byte_suffix(s@, cut as int),
{
    if s.is_char_boundary(cut) {
        let (_a, b) = s.split_at(cut);
        proof {
            encode_utf8_decode_utf8(b@);
        }
        Some(b)
    } else {
        None
    }
}

} // verus!
