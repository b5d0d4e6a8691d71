use std::sync::Mutex;
use vstd::prelude::*;
use vstd::string::*;

use super::db_operations::{get_other_thing, get_thing, other_thing, thing_text};
use super::payload::{CombinedOut, DummyError, GetCombinedIn, GetThingIn, GetThingOut};

verus! {

#[verifier::external_type_specification]
#[verifier::external_body]
#[verifier::reject_recursive_types(T)]
pub struct ExMutex<T: ?Sized>(std::sync::Mutex<T>);

/// The text a mutex of this library holds.
pub uninterp spec fn held_text(m: Mutex<String>) -> Seq<char>;

/// `std::sync::Mutex::new`: a mutex holding `value`, as std documents.
#[verifier::external_body]
fn new_mutex(value: String) -> (r: Mutex<String>)
    ensures
        held_text(r) == value@,
{
    Mutex::new(value)
}

/// `std::sync::Mutex::lock`, then a copy of the guarded text. Claims that
/// a successful lock gives the text the mutex holds: the library's mutexes
/// sit in private fields and nothing writes through their locks, so that
/// text is the one they were made with. A lock fails only where the mutex
/// is poisoned; the error is handed back as its message.
#[verifier::external_body]
fn lock_and_read(m: &Mutex<String>) -> (r: Result<String, String>)
    ensures
        r matches Ok(s) ==> s@ == held_text(*m),
{
    match m.lock() {
        Ok(guard) => Ok(guard.clone()),
        Err(e) => Err(e.to_string()),
    }
}

/// The message a failed lock is reported with.
pub open spec fn lock_failure(message: Seq<char>) -> Seq<char> {
    "lock failed: "@ + message
}

/// A wrapper whose connection is guarded by a mutex, for callers on
/// several threads.
pub struct AndroidMascot {
    conn: Mutex<String>,
}

impl AndroidMascot {
    /// The connection text the mascot's mutex holds.
    pub closed spec fn text(&self) -> Seq<char> {
        held_text(self.conn)
    }

    /// A mascot whose mutex holds the connection text `conn`.
    pub fn new(conn: String) -> (r: Self)
        ensures
            r.text() == conn@,
    {
        AndroidMascot { conn: new_mutex(conn) }
    }

    fn get_conn(&self) -> (r: Result<String, DummyError>)
        ensures
            r matches Ok(c) ==> c@ == self.text(),
            r matches Err(DummyError::Msg(m)) ==> exists|e: Seq<char>| #[trigger] lock_failure(e) == m@,
    {
        match lock_and_read(&self.conn) {
            Ok(c) => Ok(c),
            Err(e) => {
                let mut m = String::from_str("lock failed: ");
                m.append(e.as_str());
                assert(lock_failure(e@) == m@);
                Err(DummyError::Msg(m))
            },
        }
    }

    /// The thing `data.id` on the connection the mutex holds, or the lock's
    /// failure (a poisoned mutex).
    pub fn get_thing(&self, data: GetThingIn) -> (r: Result<GetThingOut, DummyError>)
        ensures
            r matches Ok(out) ==> out.value@ == thing_text(self.text(), data.id as nat),
            r matches Err(DummyError::Msg(m)) ==> exists|e: Seq<char>| #[trigger] lock_failure(e) == m@,
    {
        let conn = self.get_conn()?;
        let value = get_thing(conn.as_str(), data.id)?;
        Ok(GetThingOut { value })
    }

    /// The thing `data.id` and the other thing, both read from one hold of
    /// the lock, or the lock's failure.
    pub fn get_combined(&self, data: GetCombinedIn) -> (r: Result<CombinedOut, DummyError>)
        ensures
            r matches Ok(out) ==> out.value@ == thing_text(self.text(), data.id as nat) && out.other == other_thing(
                self.text(),
            ),
            r matches Err(DummyError::Msg(m)) ==> exists|e: Seq<char>| #[trigger] lock_failure(e) == m@,
    {
        let conn = self.get_conn()?;
        let value = get_thing(conn.as_str(), data.id)?;
        let other = get_other_thing(conn.as_str())?;
        Ok(CombinedOut { value, other })
    }
}

} // verus!
