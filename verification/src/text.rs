//! Byte-level text helpers for the tokenizer: decimal and hexadecimal
//! parsing with exact mathematical models, decimal formatting, and the
//! bridge from raw bytes to `String` via UTF-8 validation.

use vstd::prelude::*;
use vstd::bytes::{
    lemma_auto_spec_u64_to_from_le_bytes, spec_u64_from_le_bytes, spec_u64_to_le_bytes,
    u64_from_le_bytes,
};
use vstd::utf8::{
    decode_utf8, encode_utf8_decode_utf8, encode_utf8_valid_utf8, is_ascii_chars,
    is_ascii_chars_encode_utf8, valid_utf8,
};

verus! {

// ---------------------------------------------------------------------------
// Decimal numbers
// ---------------------------------------------------------------------------
/// ASCII decimal digit.
pub open spec fn is_dec_digit(b: u8) -> bool {
    0x30 <= b && b <= 0x39
}

/// Numeric value of an ASCII decimal digit.
pub open spec fn dec_digit_val(b: u8) -> nat {
    (b - 0x30) as nat
}

/// Every byte of `s` is an ASCII decimal digit.
pub open spec fn all_dec_digits(s: Seq<u8>) -> bool {
    forall|i: int| 0 <= i < s.len() ==> is_dec_digit(#[trigger] s[i])
}

/// The number denoted by the digit string `s`, most significant digit first.
pub open spec fn dec_val(s: Seq<u8>) -> nat
    decreases s.len(),
{
    if s.len() == 0 {
        0
    } else {
        dec_val(s.drop_last()) * 10 + dec_digit_val(s.last())
    }
}

proof fn lemma_dec_val_take_succ(s: Seq<u8>, i: int)
    requires
        0 <= i < s.len(),
    ensures
        dec_val(s.take(i + 1)) == dec_val(s.take(i)) * 10 + dec_digit_val(s[i]),
{
    assert(s.take(i + 1).drop_last() =~= s.take(i));
    assert(s.take(i + 1).last() == s[i]);
}

proof fn lemma_dec_val_take_le(s: Seq<u8>, i: int, j: int)
    requires
        0 <= i <= j <= s.len(),
    ensures
        dec_val(s.take(i)) <= dec_val(s.take(j)),
    decreases j - i,
{
    if i < j {
        lemma_dec_val_take_le(s, i, j - 1);
        lemma_dec_val_take_succ(s, j - 1);
    }
}

/// Parses a decimal digit string as a `u64`.
///
/// Succeeds exactly when the string is non-empty, contains only decimal
/// digits, and the denoted number fits in a `u64`.
pub fn parse_dec_u64(s: &Vec<u8>) -> (r: Option<u64>)
    ensures
        r is Some <==> (s@.len() > 0 && all_dec_digits(s@) && dec_val(s@) <= u64::MAX),
        r matches Some(v) ==> v == dec_val(s@),
{
    if s.len() == 0 {
        return None;
    }
    let mut acc: u64 = 0;
    let mut i: usize = 0;
    while i < s.len()
        invariant
            0 <= i <= s@.len(),
            all_dec_digits(s@.take(i as int)),
            acc == dec_val(s@.take(i as int)),
        decreases s@.len() - i,
    {
        let b = s[i];
        if b < 0x30 || b > 0x39 {
            assert(!is_dec_digit(s@[i as int]));
            return None;
        }
        let d: u64 = (b - 0x30) as u64;
        proof {
            lemma_dec_val_take_succ(s@, i as int);
        }
        let next = match acc.checked_mul(10) {
            Some(x) => x,
            None => {
                proof {
                    lemma_dec_val_take_le(s@, i as int + 1, s@.len() as int);
                    assert(s@.take(s@.len() as int) =~= s@);
                }
                return None;
            },
        };
        acc = match next.checked_add(d) {
            Some(x) => x,
            None => {
                proof {
                    lemma_dec_val_take_le(s@, i as int + 1, s@.len() as int);
                    assert(s@.take(s@.len() as int) =~= s@);
                }
                return None;
            },
        };
        assert(s@.take(i as int + 1) =~= s@.take(i as int).push(s@[i as int]));
        i += 1;
    }
    proof {
        assert(s@.take(s@.len() as int) =~= s@);
    }
    Some(acc)
}

/// Parses a decimal digit string as a `usize`.
///
/// Succeeds exactly when the string is non-empty, contains only decimal
/// digits, and the denoted number fits in a `usize`.
pub fn parse_dec_usize(s: &Vec<u8>) -> (r: Option<usize>)
    ensures
        r is Some <==> (s@.len() > 0 && all_dec_digits(s@) && dec_val(s@) <= usize::MAX),
        r matches Some(v) ==> v == dec_val(s@),
{
    match parse_dec_u64(s) {
        Some(v) => {
            if v <= usize::MAX as u64 {
                Some(v as usize)
            } else {
                None
            }
        },
        None => None,
    }
}

/// The ASCII byte of a decimal digit.
pub open spec fn dec_char(d: nat) -> u8 {
    (0x30 + d) as u8
}

/// The shortest decimal digit string denoting `v` (a single `0` for zero).
pub open spec fn dec_bytes(v: nat) -> Seq<u8>
    decreases v,
{
    if v < 10 {
        seq![dec_char(v)]
    } else {
        dec_bytes(v / 10).push(dec_char(v % 10))
    }
}

/// The decimal digit string of `v` as characters.
pub open spec fn dec_string(v: nat) -> Seq<char> {
    dec_bytes(v).map_values(|b: u8| b as char)
}

proof fn lemma_dec_bytes_are_digits(v: nat)
    ensures
        forall|i: int| 0 <= i < dec_bytes(v).len() ==> is_dec_digit(#[trigger] dec_bytes(v)[i]),
    decreases v,
{
    if v < 10 {
        assert(dec_bytes(v) =~= seq![dec_char(v)]);
    } else {
        lemma_dec_bytes_are_digits(v / 10);
        let prefix = dec_bytes(v / 10);
        assert(dec_bytes(v) =~= prefix.push(dec_char(v % 10)));
        assert forall|i: int| 0 <= i < dec_bytes(v).len() implies is_dec_digit(
            #[trigger] dec_bytes(v)[i],
        ) by {
            if i < prefix.len() {
                assert(dec_bytes(v)[i] == prefix[i]);
            } else {
                assert(dec_bytes(v)[i] == dec_char(v % 10));
            }
        }
    }
}

fn u64_to_dec_bytes(v: u64) -> (r: Vec<u8>)
    ensures
        r@ == dec_bytes(v as nat),
    decreases v,
{
    if v < 10 {
        let mut r: Vec<u8> = Vec::new();
        r.push(0x30 + (v as u8));
        r
    } else {
        let mut r = u64_to_dec_bytes(v / 10);
        r.push(0x30 + ((v % 10) as u8));
        proof {
            assert(r@ =~= dec_bytes((v / 10) as nat).push(dec_char((v % 10) as nat)));
        }
        r
    }
}

/// Formats `v` in decimal, matching `dec_string`.
pub fn u64_to_decimal(v: u64) -> (r: String)
    ensures
        r@ == dec_string(v as nat),
{
    let bytes = u64_to_dec_bytes(v);
    proof {
        lemma_dec_bytes_are_digits(v as nat);
        lemma_ascii_bytes_utf8(bytes@);
    }
    match string_from_utf8(bytes) {
        Some(s) => s,
        None => unreached(),
    }
}

// ---------------------------------------------------------------------------
// Hexadecimal doubles
// ---------------------------------------------------------------------------
/// ASCII hexadecimal digit, either case.
pub open spec fn is_hex_digit(b: u8) -> bool {
    (0x30 <= b && b <= 0x39) || (0x41 <= b && b <= 0x46) || (0x61 <= b && b <= 0x66)
}

/// Numeric value of an ASCII hexadecimal digit.
pub open spec fn hex_digit_val(b: u8) -> nat {
    if 0x30 <= b && b <= 0x39 {
        (b - 0x30) as nat
    } else if 0x41 <= b && b <= 0x46 {
        (b - 0x41 + 10) as nat
    } else if 0x61 <= b && b <= 0x66 {
        (b - 0x61 + 10) as nat
    } else {
        0
    }
}

/// Every byte of `s` is an ASCII hexadecimal digit.
pub open spec fn all_hex_digits(s: Seq<u8>) -> bool {
    forall|i: int| 0 <= i < s.len() ==> is_hex_digit(#[trigger] s[i])
}

/// The byte denoted by two hexadecimal digits, high digit first.
pub open spec fn hex_pair_byte(hi: u8, lo: u8) -> u8 {
    (hex_digit_val(hi) * 16 + hex_digit_val(lo)) as u8
}

/// The eight bytes denoted by sixteen hexadecimal digits, first pair first.
pub open spec fn double_payload_bytes(s: Seq<u8>) -> Seq<u8> {
    Seq::new(8, |i: int| hex_pair_byte(s[2 * i], s[2 * i + 1]))
}

/// The IEEE-754 binary64 bit pattern denoted by a double's textual prefix:
/// sixteen hexadecimal digits spelling the eight bytes of the double in
/// little-endian memory order.
pub open spec fn spec_double_bits(s: Seq<u8>) -> Option<u64> {
    if s.len() == 16 && all_hex_digits(s) {
        Some(spec_u64_from_le_bytes(double_payload_bytes(s)))
    } else {
        None
    }
}

fn hex_val(b: u8) -> (r: Option<u8>)
    ensures
        r is Some <==> is_hex_digit(b),
        r matches Some(v) ==> v == hex_digit_val(b),
{
    if 0x30 <= b && b <= 0x39 {
        Some(b - 0x30)
    } else if 0x41 <= b && b <= 0x46 {
        Some(b - 0x41 + 10)
    } else if 0x61 <= b && b <= 0x66 {
        Some(b - 0x61 + 10)
    } else {
        None
    }
}

/// Parses a double's textual prefix into its bit pattern.
///
/// Succeeds exactly when the prefix is sixteen hexadecimal digits.
pub fn parse_double_bits(s: &Vec<u8>) -> (r: Option<u64>)
    ensures
        r == spec_double_bits(s@),
        r is Some <==> (s@.len() == 16 && all_hex_digits(s@)),
{
    if s.len() != 16 {
        return None;
    }
    let mut bytes: Vec<u8> = Vec::new();
    let mut i: usize = 0;
    while i < 8
        invariant
            0 <= i <= 8,
            s@.len() == 16,
            bytes@.len() == i,
            forall|j: int| 0 <= j < 2 * i ==> is_hex_digit(#[trigger] s@[j]),
            forall|j: int|
                0 <= j < i ==> #[trigger] bytes@[j] == hex_pair_byte(s@[2 * j], s@[2 * j + 1]),
        decreases 8 - i,
    {
        let hi = match hex_val(s[2 * i]) {
            Some(v) => v,
            None => {
                return None;
            },
        };
        let lo = match hex_val(s[2 * i + 1]) {
            Some(v) => v,
            None => {
                return None;
            },
        };
        bytes.push(hi * 16 + lo);
        i += 1;
    }
    let bits = u64_from_le_bytes(bytes.as_slice());
    proof {
        assert(bytes@ =~= double_payload_bytes(s@));
    }
    Some(bits)
}

/// The ASCII byte of a hexadecimal digit, lower case.
pub open spec fn hex_char(d: nat) -> u8 {
    if d < 10 {
        (0x30 + d) as u8
    } else {
        (0x61 + (d - 10)) as u8
    }
}

/// The sixteen lower-case hexadecimal digits spelling the little-endian
/// bytes of `bits`: the encoding whose decoder is [`spec_double_bits`].
pub open spec fn double_hex_le(bits: u64) -> Seq<u8> {
    let bytes = spec_u64_to_le_bytes(bits);
    Seq::new(
        16,
        |i: int|
            if i % 2 == 0 {
                hex_char((bytes[i / 2] / 16) as nat)
            } else {
                hex_char((bytes[i / 2] % 16) as nat)
            },
    )
}

proof fn lemma_hex_char_val(d: nat)
    requires
        d < 16,
    ensures
        is_hex_digit(hex_char(d)),
        hex_digit_val(hex_char(d)) == d,
{
}

/// The double decoder inverts the hex-little-endian encoding: for any bit
/// pattern, spelling its little-endian bytes as sixteen lower-case
/// hexadecimal digits and parsing them back yields the same bit pattern.
pub proof fn lemma_double_hex_round_trip(bits: u64)
    ensures
        spec_double_bits(double_hex_le(bits)) == Some(bits),
{
    lemma_auto_spec_u64_to_from_le_bytes();
    let bytes = spec_u64_to_le_bytes(bits);
    let s = double_hex_le(bits);
    assert forall|j: int| 0 <= j < 16 implies is_hex_digit(#[trigger] s[j]) by {
        let b = bytes[j / 2];
        if j % 2 == 0 {
            lemma_hex_char_val((b / 16) as nat);
        } else {
            lemma_hex_char_val((b % 16) as nat);
        }
    }
    assert forall|k: int| 0 <= k < 8 implies #[trigger] double_payload_bytes(s)[k] == bytes[k] by {
        let b = bytes[k];
        lemma_hex_char_val((b / 16) as nat);
        lemma_hex_char_val((b % 16) as nat);
        assert(s[2 * k] == hex_char((b / 16) as nat));
        assert(s[2 * k + 1] == hex_char((b % 16) as nat));
        assert(hex_pair_byte(s[2 * k], s[2 * k + 1]) == b);
    }
    assert(double_payload_bytes(s) =~= bytes);
}

// ---------------------------------------------------------------------------
// UTF-8
// ---------------------------------------------------------------------------
/// A sequence of ASCII bytes is valid UTF-8 and decodes byte-for-byte.
pub proof fn lemma_ascii_bytes_utf8(bytes: Seq<u8>)
    requires
        forall|i: int| 0 <= i < bytes.len() ==> #[trigger] bytes[i] < 0x80,
    ensures
        valid_utf8(bytes),
        decode_utf8(bytes) == bytes.map_values(|b: u8| b as char),
{
    let chars = bytes.map_values(|b: u8| b as char);
    assert(is_ascii_chars(chars)) by {
        assert forall|i: int| 0 <= i < chars.len() implies '\0' <= #[trigger] chars[i]
            <= '\u{7f}' by {
            assert(chars[i] == bytes[i] as char);
        }
    }
    is_ascii_chars_encode_utf8(chars);
    assert(vstd::utf8::encode_utf8(chars) =~= bytes);
    encode_utf8_valid_utf8(chars);
    encode_utf8_decode_utf8(chars);
}

/// Relies on `String::from_utf8`: it succeeds exactly on valid UTF-8 input
/// (vstd's `valid_utf8`) and returns the string of the decoded characters
/// (vstd's `decode_utf8`).
#[verifier::external_body]
pub fn string_from_utf8(bytes: Vec<u8>) -> (r: Option<String>)
    ensures
        r is Some <==> valid_utf8(bytes@),
        r matches Some(s) ==> s@ == decode_utf8(bytes@),
{
    String::from_utf8(bytes).ok()
}

} // verus!
