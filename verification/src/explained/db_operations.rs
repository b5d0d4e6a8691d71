//! The model operations, on a connection that is only a name.

use vstd::prelude::*;
use vstd::string::*;

use super::payload::DummyError;
use crate::text::{append_decimal, decimal};

verus! {

/// What the connection `conn` says about thing `id`.
pub open spec fn thing_text(conn: Seq<char>, id: nat) -> Seq<char> {
    conn + " says thing #"@ + decimal(id)
}

/// The other thing about the connection `conn`: the length of its name in
/// UTF-8 bytes (a `usize`), truncated to 32 bits.
pub open spec fn other_thing(conn: Seq<char>) -> u32 {
    (vstd::utf8::encode_utf8(conn).len() as usize) as u32
}

/// `"{conn} says thing #{id}"`.
pub fn get_thing(conn: &str, id: u32) -> (r: Result<String, DummyError>)
    ensures
        r matches Ok(s) && s@ == thing_text(conn@, id as nat),
{
    let mut s = String::from_str(conn);
    s.append(" says thing #");
    append_decimal(&mut s, id as u64);
    Ok(s)
}

/// The byte length of the connection's name, truncated to 32 bits.
pub fn get_other_thing(conn: &str) -> (r: Result<u32, DummyError>)
    ensures
        r == Ok::<u32, DummyError>(other_thing(conn@)),
{
    let n = conn.len();
    Ok(#[verifier::truncate] (n as u32))
}

} // verus!
