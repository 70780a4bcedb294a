//! Questions about a string's UTF-8 bytes: which decimal integer it spells,
//! and whether another string occurs in it.

use vstd::prelude::*;
use vstd::string::*;
use vstd::utf8::encode_utf8;

verus! {

/// An ASCII decimal digit.
pub open spec fn is_digit(byte: u8) -> bool {
    0x30 <= byte <= 0x39
}

/// Every byte is an ASCII decimal digit.
pub open spec fn all_digits(bytes: Seq<u8>) -> bool {
    forall|i: int| 0 <= i < bytes.len() ==> is_digit(#[trigger] bytes[i])
}

/// The number that a run of decimal digits spells, most significant first.
pub open spec fn digits_value(digits: Seq<u8>) -> int
    decreases digits.len(),
{
    if digits.len() == 0 {
        0
    } else {
        10 * digits_value(digits.drop_last()) + (digits.last() - 0x30)
    }
}

/// The bytes begin with `+` or `-`.
pub open spec fn has_sign(bytes: Seq<u8>) -> bool {
    bytes.len() > 0 && (bytes[0] == 0x2b || bytes[0] == 0x2d)
}

/// The integer that the bytes spell: an optional sign, then one or more
/// decimal digits and nothing else, with a value that an `i64` can hold.
/// Anything else spells no integer.
pub open spec fn decimal_i64(bytes: Seq<u8>) -> Option<i64> {
    let digits = if has_sign(bytes) {
        bytes.skip(1)
    } else {
        bytes
    };
    let magnitude = digits_value(digits);
    let value = if has_sign(bytes) && bytes[0] == 0x2d {
        -magnitude
    } else {
        magnitude
    };
    if digits.len() > 0 && all_digits(digits) && i64::MIN <= value <= i64::MAX {
        Some(value as i64)
    } else {
        None
    }
}

/// The unsigned integer that the bytes spell: an optional `+`, then one or
/// more decimal digits, with a value that a `u16` can hold. A `-` spells
/// none, not even before a zero.
pub open spec fn decimal_u16(bytes: Seq<u8>) -> Option<u16> {
    if bytes.len() > 0 && bytes[0] == 0x2d {
        None
    } else {
        match decimal_i64(bytes) {
            Some(value) => if 0 <= value <= 0xffff {
                Some(value as u16)
            } else {
                None
            },
            None => None,
        }
    }
}

/// `needle` stands in `hay` at offset `at`.
pub open spec fn occurs_at(needle: Seq<u8>, hay: Seq<u8>, at: int) -> bool {
    0 <= at && at + needle.len() <= hay.len() && hay.subrange(at, at + needle.len()) == needle
}

/// `needle` stands somewhere in `hay`.
pub open spec fn occurs_in(needle: Seq<u8>, hay: Seq<u8>) -> bool {
    exists|at: int| occurs_at(needle, hay, at)
}

/// The characters of an optional text.
pub open spec fn text_view(text: Option<&str>) -> Option<Seq<char>> {
    match text {
        Some(t) => Some(t@),
        None => None,
    }
}

/// The integer that a text spells, read through its UTF-8 bytes.
pub open spec fn spelled_i64(text: Seq<char>) -> Option<i64> {
    decimal_i64(encode_utf8(text))
}

/// The unsigned 16-bit integer that a text spells, read through its UTF-8
/// bytes.
pub open spec fn spelled_u16(text: Seq<char>) -> Option<u16> {
    decimal_u16(encode_utf8(text))
}

/// `needle` occurs in `hay`, both read through their UTF-8 bytes.
pub open spec fn mentions(hay: Seq<char>, needle: Seq<char>) -> bool {
    occurs_in(encode_utf8(needle), encode_utf8(hay))
}

/// A run of digits spells at least what any of its prefixes spells, and never
/// a negative number.
pub proof fn lemma_digits_value_grows(digits: Seq<u8>, k: int)
    requires
        all_digits(digits),
        0 <= k <= digits.len(),
    ensures
        0 <= digits_value(digits.take(k)) <= digits_value(digits),
    decreases digits.len() - k,
{
    lemma_digits_value_nonnegative(digits.take(k));
    if k == digits.len() {
        assert(digits.take(k) == digits);
    } else {
        lemma_digits_value_grows(digits, k + 1);
        assert(digits.take(k + 1).drop_last() == digits.take(k));
    }
}

/// A run of digits spells no negative number.
pub proof fn lemma_digits_value_nonnegative(digits: Seq<u8>)
    requires
        all_digits(digits),
    ensures
        0 <= digits_value(digits),
    decreases digits.len(),
{
    if digits.len() > 0 {
        lemma_digits_value_nonnegative(digits.drop_last());
    }
}

/// Reads `text` as a decimal integer.
pub fn parse_i64(text: &str) -> (parsed: Option<i64>)
    ensures
        parsed == spelled_i64(text@),
{
    let bytes = text.as_bytes();
    let n: usize = bytes.len();
    if n == 0 {
        return None;
    }
    let first: u8 = bytes[0];
    let negative = first == 0x2d;
    let start: usize = if first == 0x2b || first == 0x2d {
        1
    } else {
        0
    };
    let ghost digits = bytes@.skip(start as int);
    assert(bytes@.skip(0) == bytes@);
    let mut magnitude: i128 = 0;
    let mut i: usize = start;
    while i < n
        invariant
            start <= i <= n,
            n == bytes@.len(),
            bytes@ == text.spec_bytes(),
            start == if has_sign(bytes@) { 1int } else { 0int },
            negative == (has_sign(bytes@) && bytes@[0] == 0x2d),
            digits == if has_sign(bytes@) { bytes@.skip(1) } else { bytes@ },
            digits.len() == n - start,
            all_digits(digits.take(i - start)),
            magnitude == digits_value(digits.take(i - start)),
            0 <= magnitude <= 0x8000_0000_0000_0000,
        decreases n - i,
    {
        let byte: u8 = bytes[i];
        if byte < 0x30 || byte > 0x39 {
            assert(!is_digit(digits[i - start]));
            return None;
        }
        let grown: i128 = magnitude * 10 + (byte - 0x30) as i128;
        proof {
            let longer = digits.take(i + 1 - start);
            assert(longer.drop_last() == digits.take(i - start));
            assert(longer.last() == byte);
            assert(grown == digits_value(longer));
            assert forall|j: int| 0 <= j < longer.len() implies is_digit(#[trigger] longer[j]) by {
                if j < i - start {
                    assert(digits.take(i - start)[j] == longer[j]);
                }
            }
        }
        if grown > 0x8000_0000_0000_0000 {
            proof {
                if all_digits(digits) {
                    lemma_digits_value_grows(digits, i + 1 - start);
                }
            }
            return None;
        }
        magnitude = grown;
        i += 1;
    }
    assert(digits.take(n - start) == digits);
    if i == start {
        return None;
    }
    let value: i128 = if negative {
        -magnitude
    } else {
        magnitude
    };
    if value > i64::MAX as i128 {
        None
    } else {
        Some(value as i64)
    }
}

/// Reads `text` as an unsigned 16-bit decimal integer.
pub fn parse_u16(text: &str) -> (parsed: Option<u16>)
    ensures
        parsed == spelled_u16(text@),
{
    let bytes = text.as_bytes();
    if bytes.len() > 0 && bytes[0] == 0x2d {
        return None;
    }
    match parse_i64(text) {
        Some(value) => if 0 <= value && value <= 0xffff {
            Some(value as u16)
        } else {
            None
        },
        None => None,
    }
}

/// Whether `needle` stands in `hay` at offset `at`.
fn matches_at(hay: &[u8], needle: &[u8], at: usize) -> (same: bool)
    requires
        at + needle@.len() <= hay@.len(),
    ensures
        same == occurs_at(needle@, hay@, at as int),
{
    let m: usize = needle.len();
    let limit: usize = hay.len();
    let mut j: usize = 0;
    while j < m
        invariant
            j <= m,
            m == needle@.len(),
            limit == hay@.len(),
            at + m <= limit,
            forall|k: int| 0 <= k < j ==> hay@[at + k] == needle@[k],
        decreases m - j,
    {
        if hay[at + j] != needle[j] {
            assert(hay@.subrange(at as int, at + m)[j as int] == hay@[at + j]);
            return false;
        }
        j += 1;
    }
    assert(hay@.subrange(at as int, at + m) =~= needle@);
    true
}

/// Whether `needle` occurs in `hay`. The empty string occurs in every string.
pub fn contains(hay: &str, needle: &str) -> (found: bool)
    ensures
        found == mentions(hay@, needle@),
{
    let h = hay.as_bytes();
    let p = needle.as_bytes();
    if p.len() > h.len() {
        return false;
    }
    let last: usize = h.len() - p.len();
    let mut at: usize = 0;
    loop
        invariant
            at <= last,
            last == h@.len() - p@.len(),
            h@ == hay.spec_bytes(),
            p@ == needle.spec_bytes(),
            forall|k: int| 0 <= k < at ==> !occurs_at(p@, h@, k),
        decreases last - at,
    {
        if matches_at(h, p, at) {
            return true;
        }
        if at == last {
            return false;
        }
        at += 1;
    }
}

} // verus!
