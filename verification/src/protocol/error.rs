use vstd::prelude::*;

verus! {

/// Everything that can go wrong on the way between a request and the database.
#[derive(Debug, Clone, PartialEq, Eq)]
pub enum DbError {
    /// A payload could not be decoded.
    CureFail(String),
    /// The connection could not be opened or used.
    ConnError(String),
    /// The request itself is not acceptable.
    IllegalInput(String),
    /// SQLite refused a statement.
    SqlExecuteFail(String),
    /// A value could not be encoded.
    SerializeError(String),
    /// An internal invariant did not hold.
    BadCode(String),
}

impl DbError {
    /// `IllegalInput` carrying exactly `m`.
    pub open spec fn is_illegal_input(self, m: Seq<char>) -> bool {
        self matches DbError::IllegalInput(s) && s@ == m
    }
}

} // verus!
