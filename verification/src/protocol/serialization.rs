//! Byte-level encodings of the wire protocol that do not depend on the
//! payload's Rust type: the encoded `Ok(())` answer and the Base64 text
//! form of raw payload bytes.

use base64::Engine;
use vstd::prelude::*;
use vstd::string::*;
use vstd::utf8::*;

verus! {

/// The character of the standard Base64 alphabet for the six-bit value `v`
/// (`A`-`Z`, `a`-`z`, `0`-`9`, `+`, `/`).
pub open spec fn base64_char(v: int) -> char {
    if v < 26 {
        (65 + v) as char
    } else if v < 52 {
        (97 + v - 26) as char
    } else if v < 62 {
        (48 + v - 52) as char
    } else if v == 62 {
        '+'
    } else {
        '/'
    }
}

/// The standard-alphabet, padded Base64 text of `bytes`: every three bytes
/// become four characters of six bits each, and a last group of one or two
/// bytes becomes two or three characters followed by `=` padding.
pub open spec fn base64_encoding(bytes: Seq<u8>) -> Seq<char>
    decreases bytes.len(),
{
    if bytes.len() == 0 {
        seq![]
    } else if bytes.len() == 1 {
        let b0 = bytes[0] as int;
        seq![base64_char(b0 / 4), base64_char((b0 % 4) * 16), '=', '=']
    } else if bytes.len() == 2 {
        let b0 = bytes[0] as int;
        let b1 = bytes[1] as int;
        seq![base64_char(b0 / 4), base64_char((b0 % 4) * 16 + b1 / 16), base64_char((b1 % 16) * 4), '=']
    } else {
        let b0 = bytes[0] as int;
        let b1 = bytes[1] as int;
        let b2 = bytes[2] as int;
        seq![
            base64_char(b0 / 4),
            base64_char((b0 % 4) * 16 + b1 / 16),
            base64_char((b1 % 16) * 4 + b2 / 64),
            base64_char(b2 % 64),
        ] + base64_encoding(bytes.skip(3))
    }
}

/// What the standard-alphabet Base64 decoder that requires canonical
/// padding makes of the bytes `text`: it accepts exactly the padded
/// standard encodings, and gives back the bytes encoded; it refuses any
/// other text.
pub open spec fn base64_decoding(text: Seq<u8>) -> Option<Seq<u8>> {
    if exists|b: Seq<u8>| encode_utf8(#[trigger] base64_encoding(b)) == text {
        Some(choose|b: Seq<u8>| encode_utf8(#[trigger] base64_encoding(b)) == text)
    } else {
        None
    }
}

/// `base64::engine::general_purpose::STANDARD.encode`. Claims that the text
/// is the padded standard Base64 of `bytes` (RFC 4648, as [`base64_encoding`]
/// spells it out) and that the same engine decodes it back to `bytes`, as
/// the crate documents for its padded engines.
#[verifier::external_body]
fn encode_base64(bytes: &[u8]) -> (r: String)
    ensures
        r@ == base64_encoding(bytes@),
        base64_decoding(encode_utf8(r@)) == Some(bytes@),
{
    base64::engine::general_purpose::STANDARD.encode(bytes)
}

/// `base64::engine::general_purpose::STANDARD.decode`. Claims that it
/// succeeds exactly where the text is a padded standard encoding (the
/// engine's configuration requires canonical padding and refuses trailing
/// bits), with the bytes encoded; the text of its error (the
/// `DecodeError`'s message) is left unsaid.
#[verifier::external_body]
fn decode_base64(text: &str) -> (r: Result<Vec<u8>, String>)
    ensures
        match base64_decoding(text.spec_bytes()) {
            Some(b) => r matches Ok(v) && v@ == b,
            None => r is Err,
        },
{
    match base64::engine::general_purpose::STANDARD.decode(text) {
        Ok(v) => Ok(v),
        Err(e) => Err(e.to_string()),
    }
}

/// `bincode::serialize` of an `Ok(())` result. Claims the four bytes that
/// bincode 1's default format writes for it: variant index 0 as a
/// little-endian `u32`, and nothing for the unit value.
#[verifier::external_body]
fn bincode_ok_unit() -> (r: Vec<u8>)
    ensures
        r@ == seq![0u8, 0u8, 0u8, 0u8],
{
    match bincode::serialize(&Ok::<(), ()>(())) {
        Ok(v) => v,
        Err(_) => Vec::new(),
    }
}

/// The encoded answer of an operation that succeeded and returns nothing.
pub fn ok_serialized() -> (r: Vec<u8>)
    ensures
        r@ == seq![0u8, 0u8, 0u8, 0u8],
{
    bincode_ok_unit()
}

/// Payload bytes that travel as Base64 text inside JSON messages.
#[derive(Debug, Clone, PartialEq, Eq)]
pub struct Base64Bytes(pub Vec<u8>);

impl Base64Bytes {
    /// The Base64 text this payload is written as; decoding it gives the
    /// payload back.
    pub fn to_base64(&self) -> (r: String)
        ensures
            r@ == base64_encoding(self.0@),
            base64_decoding(encode_utf8(r@)) == Some(self.0@),
    {
        encode_base64(self.0.as_slice())
    }

    /// The payload written as the Base64 text `text`, or the decoder's
    /// complaint where the text is not padded standard Base64.
    pub fn from_base64(text: &str) -> (r: Result<Base64Bytes, String>)
        ensures
            match base64_decoding(text.spec_bytes()) {
                Some(b) => r matches Ok(p) && p.0@ == b,
                None => r is Err,
            },
    {
        match decode_base64(text) {
            Ok(v) => Ok(Base64Bytes(v)),
            Err(e) => Err(e),
        }
    }
}

} // verus!
