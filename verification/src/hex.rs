//! Hexadecimal text, the form in which certificates and salts are written down.

use bitcoin_hashes::hex::{FromHex, ToHex};
use vstd::prelude::*;

verus! {

/// The lowercase digit that stands for a value below sixteen.
pub open spec fn hex_digit(n: int) -> char {
    if n < 10 {
        (48 + n) as char
    } else {
        (87 + n) as char
    }
}

/// Whether `c` is one of `0-9`, `a-f`, `A-F`.
pub open spec fn is_hex_digit(c: char) -> bool {
    ('0' <= c && c <= '9') || ('a' <= c && c <= 'f') || ('A' <= c && c <= 'F')
}

/// The value of a hexadecimal digit, of either case.
pub open spec fn hex_value(c: char) -> int {
    if '0' <= c && c <= '9' {
        c as int - 48
    } else if 'a' <= c && c <= 'f' {
        c as int - 87
    } else {
        c as int - 55
    }
}

/// `c` with an ASCII capital letter replaced by its small letter.
pub open spec fn lower(c: char) -> char {
    if 'A' <= c && c <= 'Z' {
        (c as int + 32) as char
    } else {
        c
    }
}

/// `text` with every ASCII capital letter replaced by its small letter.
pub open spec fn lowercase(text: Seq<char>) -> Seq<char> {
    Seq::new(text.len(), |i: int| lower(text[i]))
}

/// The encoding of `bytes`: two lowercase digits for each byte, the high
/// half first.
pub open spec fn hex_encode(bytes: Seq<u8>) -> Seq<char> {
    Seq::new(
        2 * bytes.len(),
        |i: int|
            hex_digit(
                if i % 2 == 0 {
                    bytes[i / 2] as int / 16
                } else {
                    bytes[i / 2] as int % 16
                },
            ),
    )
}

/// Whether `text` encodes a byte string: an even number of hexadecimal
/// digits, of either case.
pub open spec fn is_hex(text: Seq<char>) -> bool {
    text.len() % 2 == 0 && forall|i: int| 0 <= i < text.len() ==> is_hex_digit(#[trigger] text[i])
}

/// The bytes that `text` encodes, where `is_hex(text)`.
pub open spec fn hex_decode(text: Seq<char>) -> Seq<u8> {
    Seq::new(
        text.len() / 2,
        |i: int| (16 * hex_value(text[2 * i]) + hex_value(text[2 * i + 1])) as u8,
    )
}

/// Decoding gives back what was encoded.
pub proof fn lemma_decode_encode(bytes: Seq<u8>)
    ensures
        is_hex(hex_encode(bytes)),
        hex_decode(hex_encode(bytes)) == bytes,
{
    let text = hex_encode(bytes);
    assert forall|i: int| 0 <= i < text.len() implies is_hex_digit(#[trigger] text[i]) by {
        let b = bytes[i / 2] as int;
        assert(0 <= b / 16 < 16 && 0 <= b % 16 < 16);
    }
    assert forall|i: int| 0 <= i < bytes.len() implies hex_decode(text)[i] == bytes[i] by {
        let b = bytes[i] as int;
        assert(0 <= b / 16 < 16 && 0 <= b % 16 < 16);
        assert((2 * i) / 2 == i && (2 * i) % 2 == 0);
        assert((2 * i + 1) / 2 == i && (2 * i + 1) % 2 == 1);
        assert(hex_value(hex_digit(b / 16)) == b / 16);
        assert(hex_value(hex_digit(b % 16)) == b % 16);
        assert(16 * (b / 16) + b % 16 == b);
    }
    assert(hex_decode(text) =~= bytes);
}

/// Encoding what was decoded gives the text back in lowercase.
pub proof fn lemma_encode_decode(text: Seq<char>)
    requires
        is_hex(text),
    ensures
        hex_encode(hex_decode(text)) == lowercase(text),
{
    let bytes = hex_decode(text);
    assert forall|i: int| 0 <= i < text.len() implies hex_encode(bytes)[i] == lower(text[i]) by {
        let k = i / 2;
        let hi = text[2 * k];
        let lo = text[2 * k + 1];
        assert(is_hex_digit(hi) && is_hex_digit(lo));
        let v = 16 * hex_value(hi) + hex_value(lo);
        assert(0 <= v < 256);
        assert(bytes[k] as int == v);
        assert(v / 16 == hex_value(hi) && v % 16 == hex_value(lo));
        assert(hex_digit(hex_value(hi)) == lower(hi));
        assert(hex_digit(hex_value(lo)) == lower(lo));
        if i % 2 == 0 {
            assert(i == 2 * k);
        } else {
            assert(i == 2 * k + 1);
        }
    }
    assert(hex_encode(bytes) =~= lowercase(text));
}

/// An encoding holds hexadecimal digits only, so nothing else occurs in it.
pub proof fn lemma_encode_digits_only(bytes: Seq<u8>, c: char)
    requires
        !is_hex_digit(c),
    ensures
        !hex_encode(bytes).contains(c),
{
    lemma_decode_encode(bytes);
}

/// `ToHex::to_hex` of `bitcoin_hashes`, on a byte slice: two lowercase
/// digits for each byte, in order.
#[verifier::external_body]
pub(crate) fn to_hex(bytes: &[u8]) -> (text: String)
    ensures
        text@ == hex_encode(bytes@),
{
    bytes.to_hex()
}

/// `FromHex::from_hex` of `bitcoin_hashes`, for a byte vector: the bytes
/// that `text` encodes, and nothing where its length is odd or one of its
/// characters is no hexadecimal digit.
#[verifier::external_body]
pub(crate) fn from_hex(text: &str) -> (bytes: Option<Vec<u8>>)
    ensures
        match bytes {
            Some(b) => is_hex(text@) && b@ == hex_decode(text@),
            None => !is_hex(text@),
        },
{
    Vec::from_hex(text).ok()
}

} // verus!
