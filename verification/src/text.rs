//! Byte-level text helpers: ASCII case folding and decimal port numbers.

use vstd::prelude::*;
use vstd::string::StringSliceAdditionalSpecFns;
use vstd::utf8::valid_utf8;

verus! {

/// The separator of the fields of a `Host` header value.
pub const COLON: u8 = 0x3a;

/// An ASCII upper-case letter folded to lower case; any other byte as it is.
pub open spec fn ascii_lower(b: u8) -> u8 {
    if 0x41 <= b <= 0x5a {
        (b + 0x20) as u8
    } else {
        b
    }
}

/// Two byte strings are equal when ASCII letters are compared without case.
pub open spec fn eq_ignoring_ascii_case(a: Seq<u8>, b: Seq<u8>) -> bool {
    &&& a.len() == b.len()
    &&& forall|i: int| 0 <= i < a.len() ==> ascii_lower(a[i]) == ascii_lower(b[i])
}

/// Folds one byte to lower case.
fn fold_ascii(b: u8) -> (r: u8)
    ensures
        r == ascii_lower(b),
{
    if 0x41 <= b && b <= 0x5a {
        b + 0x20
    } else {
        b
    }
}

/// Compares two byte strings, ASCII letters without case.
pub fn eq_ignore_ascii_case(a: &[u8], b: &[u8]) -> (r: bool)
    ensures
        r == eq_ignoring_ascii_case(a@, b@),
{
    if a.len() != b.len() {
        return false;
    }
    let mut i: usize = 0;
    while i < a.len()
        invariant
            i <= a@.len(),
            a@.len() == b@.len(),
            forall|k: int| 0 <= k < i ==> ascii_lower(a@[k]) == ascii_lower(b@[k]),
        decreases a@.len() - i,
    {
        if fold_ascii(a[i]) != fold_ascii(b[i]) {
            return false;
        }
        i += 1;
    }
    true
}

/// An ASCII decimal digit.
pub open spec fn is_digit(b: u8) -> bool {
    0x30 <= b <= 0x39
}

/// The number that a string of decimal digits writes, most significant
/// digit first.
pub open spec fn decimal_value(digits: Seq<u8>) -> nat
    decreases digits.len(),
{
    if digits.len() == 0 {
        0
    } else {
        decimal_value(digits.drop_last()) * 10 + (digits.last() - 0x30) as nat
    }
}

/// The digits of a port text: what follows an optional leading plus sign.
pub open spec fn port_digits(text: Seq<u8>) -> Seq<u8> {
    if text.len() > 0 && text[0] == 0x2b {
        text.skip(1)
    } else {
        text
    }
}

/// The port that a text writes: an optional plus sign, then one or more
/// decimal digits whose value is at most 65535.  Anything else, the empty
/// text and a lone sign included, writes no port.
pub open spec fn port_of(text: Seq<u8>) -> Option<u16> {
    let digits = port_digits(text);
    if digits.len() > 0 && (forall|i: int| 0 <= i < digits.len() ==> is_digit(digits[i]))
        && decimal_value(digits) <= u16::MAX {
        Some(decimal_value(digits) as u16)
    } else {
        None
    }
}

/// The value of a digit string never shrinks when digits are appended.
proof fn decimal_value_grows(digits: Seq<u8>, n: int)
    requires
        0 <= n <= digits.len(),
        forall|i: int| 0 <= i < digits.len() ==> is_digit(digits[i]),
    ensures
        decimal_value(digits.take(n)) <= decimal_value(digits),
    decreases digits.len() - n,
{
    if n < digits.len() {
        decimal_value_grows(digits, n + 1);
        assert(digits.take(n + 1).drop_last() =~= digits.take(n));
    } else {
        assert(digits.take(n) =~= digits);
    }
}

/// Reads a port number from its decimal text.
pub fn parse_port(text: &[u8]) -> (r: Option<u16>)
    ensures
        r == port_of(text@),
{
    let start: usize = if text.len() > 0 && text[0] == 0x2b {
        1
    } else {
        0
    };
    let ghost digits = port_digits(text@);
    assert(digits =~= text@.skip(start as int));
    if start == text.len() {
        return None;
    }
    let mut value: u32 = 0;
    let mut i: usize = start;
    while i < text.len()
        invariant
            start <= i <= text@.len(),
            digits == port_digits(text@),
            digits == text@.skip(start as int),
            forall|k: int| 0 <= k < i - start ==> is_digit(digits[k]),
            value == decimal_value(digits.take(i - start)),
            value <= u16::MAX,
        decreases text@.len() - i,
    {
        let b = text[i];
        if b < 0x30 || b > 0x39 {
            assert(!is_digit(digits[i - start]));
            return None;
        }
        assert(digits.take(i - start + 1).drop_last() =~= digits.take(i - start));
        assert(digits.take(i - start + 1).last() == b);
        value = value * 10 + (b - 0x30) as u32;
        assert(value == decimal_value(digits.take(i - start + 1)));
        if value > 0xffff {
            proof {
                if forall|k: int| 0 <= k < digits.len() ==> is_digit(digits[k]) {
                    decimal_value_grows(digits, i - start + 1);
                }
            }
            return None;
        }
        i += 1;
    }
    assert(digits.take(i - start) =~= digits);
    Some(value as u16)
}

/// `n` is where the first field of `s` ends: at the first colon, or at the
/// end of `s` when it holds none.
pub open spec fn is_field_end(s: Seq<u8>, n: int) -> bool {
    &&& 0 <= n <= s.len()
    &&& forall|k: int| 0 <= k < n ==> s[k] != COLON
    &&& n < s.len() ==> s[n] == COLON
}

/// The length of the first colon-separated field of `s`.
pub open spec fn field_len(s: Seq<u8>) -> int {
    choose|n: int| is_field_end(s, n)
}

/// A byte string has exactly one place where its first field ends.
pub proof fn field_end_is_unique(s: Seq<u8>, n: int)
    requires
        is_field_end(s, n),
    ensures
        field_len(s) == n,
{
    let m = field_len(s);
    assert(is_field_end(s, m));
    if m < n {
        assert(s[m] != COLON);
    } else if n < m {
        assert(s[n] != COLON);
    }
}

/// Finds where the first colon-separated field of `s` ends.
pub fn first_field_len(s: &[u8]) -> (n: usize)
    ensures
        n == field_len(s@),
        is_field_end(s@, n as int),
{
    let mut i: usize = 0;
    while i < s.len() && s[i] != COLON
        invariant
            i <= s@.len(),
            forall|k: int| 0 <= k < i ==> s@[k] != COLON,
        decreases s@.len() - i,
    {
        i += 1;
    }
    proof {
        field_end_is_unique(s@, i as int);
    }
    i
}

/// Reads bytes as text, by `core::str::from_utf8`.
///
/// Trusted: the call succeeds exactly on valid UTF-8, and the text it
/// returns is made of the very bytes it was given.
#[verifier::external_body]
pub(crate) fn utf8_text(bytes: &[u8]) -> (r: Option<&str>)
    ensures
        r is Some <==> valid_utf8(bytes@),
        r matches Some(text) ==> text.spec_bytes() == bytes@,
{
    match core::str::from_utf8(bytes) {
        Ok(text) => Some(text),
        Err(_) => None,
    }
}

} // verus!
