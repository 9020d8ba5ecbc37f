//! Hexadecimal text for keys, signatures and checksums.
use vstd::prelude::*;
use vstd::string::StringSliceAdditionalSpecFns;
use vstd::utf8::{encode_utf8, is_ascii_chars, is_ascii_chars_encode_utf8};

use crate::text::push_char;

verus! {

/// Why a hexadecimal text could not be decoded.
#[derive(Clone, Copy, Debug, PartialEq, Eq)]
pub enum HexError {
    /// The text does not have two characters per expected byte.
    WrongLength,
    /// Some pair of characters is not a hexadecimal number.
    NotHex,
}

/// The lower-case hexadecimal digit for `v` (`0` to `15`).
pub open spec fn hex_digit_char(v: nat) -> char
    recommends
        v < 16,
{
    if v < 10 {
        (48 + v) as char
    } else {
        (87 + v) as char
    }
}

/// Two lower-case hexadecimal digits per byte, most significant first.
pub open spec fn spec_encode_hex(b: Seq<u8>) -> Seq<char> {
    Seq::new(
        2 * b.len(),
        |i: int|
            if i % 2 == 0 {
                hex_digit_char((b[i / 2] / 16) as nat)
            } else {
                hex_digit_char((b[i / 2] % 16) as nat)
            },
    )
}

/// The value of one ASCII hexadecimal digit byte, of either case.
pub open spec fn hex_value(c: u8) -> Option<u8> {
    if 48 <= c <= 57 {
        Some((c - 48) as u8)
    } else if 97 <= c <= 102 {
        Some((c - 87) as u8)
    } else if 65 <= c <= 70 {
        Some((c - 55) as u8)
    } else {
        None
    }
}

/// The byte that two hexadecimal digits denote, the first the more
/// significant.
pub open spec fn hex_pair(hi: u8, lo: u8) -> Option<u8> {
    if hex_value(hi) is Some && hex_value(lo) is Some {
        Some((hex_value(hi)->0 * 16 + hex_value(lo)->0) as u8)
    } else {
        None
    }
}

/// Decoding of the UTF-8 bytes of a text into `n` bytes, two characters each.
pub open spec fn spec_decode_hex(text: Seq<u8>, n: nat) -> Result<Seq<u8>, HexError> {
    if text.len() != 2 * n {
        Err(HexError::WrongLength)
    } else if exists|i: int| 0 <= i < n && (#[trigger] hex_pair(text[2 * i], text[2 * i + 1])) is None {
        Err(HexError::NotHex)
    } else {
        Ok(Seq::new(n, |i: int| hex_pair(text[2 * i], text[2 * i + 1])->0))
    }
}

fn hex_digit(v: u8) -> (c: char)
    requires
        v < 16,
    ensures
        c == hex_digit_char(v as nat),
{
    if v < 10 {
        ((48 + v) as u8) as char
    } else {
        ((87 + v) as u8) as char
    }
}

/// Lower-case hexadecimal text of `bytes`.
pub fn encode_hex(bytes: &[u8]) -> (s: String)
    ensures
        s@ == spec_encode_hex(bytes@),
{
    let mut s = String::new();
    let mut i: usize = 0;
    while i < bytes.len()
        invariant
            i <= bytes@.len(),
            s@ == spec_encode_hex(bytes@.subrange(0, i as int)),
        decreases bytes@.len() - i,
    {
        let b = bytes[i];
        push_char(&mut s, hex_digit(b / 16));
        push_char(&mut s, hex_digit(b % 16));
        i = i + 1;
        assert(s@ =~= spec_encode_hex(bytes@.subrange(0, i as int)));
    }
    assert(bytes@.subrange(0, i as int) =~= bytes@);
    s
}

fn hex_byte_value(c: u8) -> (r: Option<u8>)
    ensures
        r == hex_value(c),
{
    if 48 <= c && c <= 57 {
        Some(c - 48)
    } else if 97 <= c && c <= 102 {
        Some(c - 87)
    } else if 65 <= c && c <= 70 {
        Some(c - 55)
    } else {
        None
    }
}

fn hex_pair_value(hi: u8, lo: u8) -> (r: Option<u8>)
    ensures
        r == hex_pair(hi, lo),
{
    match (hex_byte_value(hi), hex_byte_value(lo)) {
        (Some(h), Some(l)) => Some(h * 16 + l),
        _ => None,
    }
}

/// Decodes `n` bytes written as `2 * n` hexadecimal characters.
pub fn decode_hex(value: &str, n: usize) -> (r: Result<Vec<u8>, HexError>)
    ensures
        match r {
            Ok(bytes) => spec_decode_hex(value.spec_bytes(), n as nat) == Ok::<Seq<u8>, HexError>(bytes@),
            Err(e) => spec_decode_hex(value.spec_bytes(), n as nat) == Err::<Seq<u8>, HexError>(e),
        },
{
    let text = value.as_bytes();
    let length = text.len();
    if n > usize::MAX / 2 {
        assert(value.spec_bytes().len() == length);
        return Err(HexError::WrongLength);
    }
    if length != n * 2 {
        return Err(HexError::WrongLength);
    }
    let mut out: Vec<u8> = Vec::new();
    let mut i: usize = 0;
    while i < n
        invariant
            i <= n,
            text@ == value.spec_bytes(),
            text@.len() == 2 * n,
            out@.len() == i,
            forall|j: int| 0 <= j < i ==> (#[trigger] hex_pair(text@[2 * j], text@[2 * j + 1])) is Some,
            forall|j: int| 0 <= j < i ==> out@[j] == hex_pair(text@[2 * j], text@[2 * j + 1])->0,
        decreases n - i,
    {
        match hex_pair_value(text[2 * i], text[2 * i + 1]) {
            Some(b) => out.push(b),
            None => {
                assert(hex_pair(text@[2 * (i as int)], text@[2 * (i as int) + 1]) is None);
                return Err(HexError::NotHex);
            },
        }
        i = i + 1;
    }
    assert(out@ =~= Seq::new(n as nat, |j: int| hex_pair(text@[2 * j], text@[2 * j + 1])->0));
    Ok(out)
}

/// ASCII lower-case form of a byte.
pub open spec fn ascii_lower(b: u8) -> u8 {
    if 65 <= b <= 90 {
        (b + 32) as u8
    } else {
        b
    }
}

/// Equality of two byte texts up to ASCII case.
pub open spec fn equal_ignoring_ascii_case(a: Seq<u8>, b: Seq<u8>) -> bool {
    a.len() == b.len() && forall|i: int| 0 <= i < a.len() ==> ascii_lower(#[trigger] a[i]) == ascii_lower(b[i])
}

/// Whether two texts are equal when ASCII letters are compared without
/// regard to case (`str::eq_ignore_ascii_case`).
pub fn eq_ignore_ascii_case(a: &str, b: &str) -> (r: bool)
    ensures
        r == equal_ignoring_ascii_case(a.spec_bytes(), b.spec_bytes()),
{
    let x = a.as_bytes();
    let y = b.as_bytes();
    if x.len() != y.len() {
        return false;
    }
    let mut i: usize = 0;
    while i < x.len()
        invariant
            x@ == a.spec_bytes(),
            y@ == b.spec_bytes(),
            x@.len() == y@.len(),
            i <= x@.len(),
            forall|j: int| 0 <= j < i ==> ascii_lower(#[trigger] x@[j]) == ascii_lower(y@[j]),
        decreases x@.len() - i,
    {
        let p = x[i];
        let q = y[i];
        let lp = if 65 <= p && p <= 90 { p + 32 } else { p };
        let lq = if 65 <= q && q <= 90 { q + 32 } else { q };
        if lp != lq {
            return false;
        }
        i = i + 1;
    }
    true
}

/// Hexadecimal text is ASCII, so its UTF-8 bytes are its characters.
pub proof fn lemma_encode_hex_is_ascii(b: Seq<u8>)
    ensures
        is_ascii_chars(spec_encode_hex(b)),
        encode_utf8(spec_encode_hex(b)).len() == 2 * b.len(),
        forall|i: int|
            0 <= i < 2 * b.len() ==> #[trigger] encode_utf8(spec_encode_hex(b))[i] == (
            spec_encode_hex(b)[i] as u8),
{
    let s = spec_encode_hex(b);
    assert forall|i: int| 0 <= i < s.len() implies '\0' <= #[trigger] s[i] <= '\u{7f}' by {
        let v: nat = if i % 2 == 0 {
            (b[i / 2] / 16) as nat
        } else {
            (b[i / 2] % 16) as nat
        };
        assert(v < 16);
    }
    is_ascii_chars_encode_utf8(s);
}

/// Decoding the hexadecimal text of some bytes gives those bytes back.
pub proof fn law_hex_round_trip(b: Seq<u8>)
    ensures
        spec_decode_hex(encode_utf8(spec_encode_hex(b)), b.len()) == Ok::<Seq<u8>, HexError>(b),
{
    lemma_encode_hex_is_ascii(b);
    let text = encode_utf8(spec_encode_hex(b));
    assert forall|i: int| 0 <= i < b.len() implies (#[trigger] hex_pair(text[2 * i], text[2 * i + 1]))
        == Some(b[i]) by {
        let hi = (b[i] / 16) as nat;
        let lo = (b[i] % 16) as nat;
        assert(spec_encode_hex(b)[2 * i] == hex_digit_char(hi));
        assert(spec_encode_hex(b)[2 * i + 1] == hex_digit_char(lo));
        assert(text[2 * i] == spec_encode_hex(b)[2 * i] as u8);
        assert(text[2 * i + 1] == spec_encode_hex(b)[2 * i + 1] as u8);
        assert(b[i] == hi * 16 + lo);
    }
    assert(spec_decode_hex(text, b.len()) matches Ok(d) && d =~= b);
}

} // verus!
