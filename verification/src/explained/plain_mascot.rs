use vstd::prelude::*;

use super::db_operations::{get_other_thing, get_thing, other_thing, thing_text};
use super::payload::{CombinedOut, DummyError, GetCombinedIn, GetThingIn, GetThingOut};

verus! {

/// A wrapper that owns its connection and hands typed values in and out.
pub struct PlainMascot {
    pub conn: String,
}

impl PlainMascot {
    fn get_conn(&self) -> (r: Result<&String, DummyError>)
        ensures
            r matches Ok(c) && *c == self.conn,
    {
        Ok(&self.conn)
    }

    /// The thing `data.id` on this mascot's connection.
    pub fn get_thing(&self, data: GetThingIn) -> (r: Result<GetThingOut, DummyError>)
        ensures
            r matches Ok(out) && out.value@ == thing_text(self.conn@, data.id as nat),
    {
        let conn = self.get_conn()?;
        let value = get_thing(conn.as_str(), data.id)?;
        Ok(GetThingOut { value })
    }

    /// The thing `data.id` and the other thing, on this mascot's connection.
    pub fn get_combined(&self, data: GetCombinedIn) -> (r: Result<CombinedOut, DummyError>)
        ensures
            r matches Ok(out) && out.value@ == thing_text(self.conn@, data.id as nat) && out.other == other_thing(self.conn@),
    {
        let conn = self.get_conn()?;
        let value = get_thing(conn.as_str(), data.id)?;
        let other = get_other_thing(conn.as_str())?;
        Ok(CombinedOut { value, other })
    }
}

} // verus!
