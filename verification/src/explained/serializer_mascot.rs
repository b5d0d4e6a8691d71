//! The wrapper that takes and gives encoded bytes. The bytes are bincode 1
//! in its default format: fixed-width little-endian integers, a string as
//! its byte length (`u64`) followed by its UTF-8 bytes, a struct as its
//! fields in order, an enum variant as its index (`u32`) followed by its
//! fields.

use vstd::prelude::*;
use vstd::string::*;
use vstd::utf8::*;

use super::db_operations::{get_other_thing, get_thing, other_thing, thing_text};
use super::payload::DummyError;

verus! {

/// `n` as four little-endian bytes.
pub open spec fn le_u32_bytes(n: nat) -> Seq<u8> {
    seq![(n % 256) as u8, ((n / 256) % 256) as u8, ((n / 65536) % 256) as u8, ((n / 16777216) % 256) as u8]
}

/// `n` as eight little-endian bytes.
pub open spec fn le_u64_bytes(n: nat) -> Seq<u8> {
    le_u32_bytes(n % 4294967296) + le_u32_bytes(n / 4294967296)
}

/// The number the first four bytes of `b` spell, little-endian.
pub open spec fn le_u32_value(b: Seq<u8>) -> nat {
    (b[0] + 256 * b[1] + 65536 * b[2] + 16777216 * b[3]) as nat
}

/// A string as bincode writes it.
pub open spec fn encoded_string(s: Seq<char>) -> Seq<u8> {
    le_u64_bytes(encode_utf8(s).len()) + encode_utf8(s)
}

/// The first variant of an enum whose one field is the string `s`, as
/// bincode writes it (how a `DummyError::Msg` travels).
pub open spec fn encoded_message(s: Seq<char>) -> Seq<u8> {
    le_u32_bytes(0) + encoded_string(s)
}

/// `bincode::deserialize::<u32>`: the first four bytes, little-endian,
/// where there are four (bytes after them are allowed); an error where there
/// are fewer, handed back as its message, whose text is left unsaid. A
/// struct whose one field is a `u32` decodes the same way.
#[verifier::external_body]
fn decode_u32(data: &[u8]) -> (r: Result<u32, String>)
    ensures
        r matches Ok(v) ==> 4 <= data@.len() && v == le_u32_value(data@) as u32,
        r is Err ==> data@.len() <= 3,
{
    match bincode::deserialize::<u32>(data) {
        Ok(v) => Ok(v),
        Err(e) => Err(e.to_string()),
    }
}

/// `bincode::serialize` of a string (and so of a struct whose one field
/// is that string). Writing into a growable buffer does not fail.
#[verifier::external_body]
fn encode_text(s: &str) -> (r: Vec<u8>)
    ensures
        r@ == encoded_string(s@),
{
    bincode::serialize(s).unwrap_or_default()
}

/// `bincode::serialize` of a string and a `u32` (and so of a struct with
/// those two fields, in that order).
#[verifier::external_body]
fn encode_text_and_u32(s: &str, n: u32) -> (r: Vec<u8>)
    ensures
        r@ == encoded_string(s@) + le_u32_bytes(n as nat),
{
    bincode::serialize(&(s, n)).unwrap_or_default()
}

/// `bincode::serialize` of the first variant of an enum holding one
/// string, written with `Ok` of a `Result` (variant 0 of its enum).
#[verifier::external_body]
fn encode_message(s: &str) -> (r: Vec<u8>)
    ensures
        r@ == encoded_message(s@),
{
    bincode::serialize(&Ok::<&str, ()>(s)).unwrap_or_default()
}

/// A wrapper whose operations take and give encoded bytes: a `GetThingIn`
/// or `GetCombinedIn` in, the answer or the encoded `DummyError` out.
pub struct SerializerMascot {
    pub conn: String,
}

impl SerializerMascot {
    fn get_conn(&self) -> (r: Result<&String, DummyError>)
        ensures
            r matches Ok(c) && *c == self.conn,
    {
        Ok(&self.conn)
    }

    /// The encoded `GetThingOut` for the encoded `GetThingIn` `data`; bytes
    /// too short for an id give an encoded error instead.
    pub fn get_thing(&self, data: Vec<u8>) -> (r: Vec<u8>)
        ensures
            data@.len() >= 4 ==> r@ == encoded_string(thing_text(self.conn@, le_u32_value(data@) % 4294967296)),
            data@.len() < 4 ==> exists|m: Seq<char>| r@ == #[trigger] encoded_message(m),
    {
        let id = match decode_u32(data.as_slice()) {
            Ok(id) => id,
            Err(m) => return encode_message(m.as_str()),
        };
        let conn = match self.get_conn() {
            Ok(c) => c,
            Err(DummyError::Msg(m)) => return encode_message(m.as_str()),
        };
        let value = match get_thing(conn.as_str(), id) {
            Ok(v) => v,
            Err(DummyError::Msg(m)) => return encode_message(m.as_str()),
        };
        encode_text(value.as_str())
    }

    /// The encoded `CombinedOut` for the encoded `GetCombinedIn` `data`;
    /// bytes too short for an id give an encoded error instead.
    pub fn get_combined(&self, data: Vec<u8>) -> (r: Vec<u8>)
        ensures
            data@.len() >= 4 ==> r@ == encoded_string(thing_text(self.conn@, le_u32_value(data@) % 4294967296))
                + le_u32_bytes(other_thing(self.conn@) as nat),
            data@.len() < 4 ==> exists|m: Seq<char>| r@ == #[trigger] encoded_message(m),
    {
        let id = match decode_u32(data.as_slice()) {
            Ok(id) => id,
            Err(m) => return encode_message(m.as_str()),
        };
        let conn = match self.get_conn() {
            Ok(c) => c,
            Err(DummyError::Msg(m)) => return encode_message(m.as_str()),
        };
        let value = match get_thing(conn.as_str(), id) {
            Ok(v) => v,
            Err(DummyError::Msg(m)) => return encode_message(m.as_str()),
        };
        let other = match get_other_thing(conn.as_str()) {
            Ok(o) => o,
            Err(DummyError::Msg(m)) => return encode_message(m.as_str()),
        };
        encode_text_and_u32(value.as_str(), other)
    }
}

/// An id written as the four bytes of a `u32` reads back as the same id.
pub proof fn lemma_id_bytes_round_trip(id: u32)
    ensures
        le_u32_bytes(id as nat).len() == 4,
        le_u32_value(le_u32_bytes(id as nat)) == id,
{
    let n = id as nat;
    let b0 = n % 256;
    let b1 = (n / 256) % 256;
    let b2 = (n / 65536) % 256;
    let b3 = (n / 16777216) % 256;
    assert(b0 + 256 * b1 + 65536 * b2 + 16777216 * b3 == n) by (nonlinear_arith)
        requires
            n < 4294967296,
            b0 == n % 256,
            b1 == (n / 256) % 256,
            b2 == (n / 65536) % 256,
            b3 == (n / 16777216) % 256,
    ;
}

/// The byte wrapper answers the encoding of what the typed wrapper
/// answers: for the encoded `GetThingIn` of any id, the encoded
/// `GetThingOut` of the same thing.
pub proof fn lemma_serializer_agrees_with_plain(conn: Seq<char>, id: u32)
    ensures
        encoded_string(thing_text(conn, le_u32_value(le_u32_bytes(id as nat)) % 4294967296)) == encoded_string(
            thing_text(conn, id as nat),
        ),
{
    lemma_id_bytes_round_trip(id);
}

} // verus!
