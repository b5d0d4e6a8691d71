//! What the library does on a connection, as it sees it: every SQL text it
//! hands to SQLite, whether SQLite accepted it, and every time it asks
//! whether a transaction is open. The record is ghost: it is kept by the
//! verified code that makes the calls, and exists only for the contracts.

use vstd::prelude::*;

verus! {

/// One thing the library did on a connection.
pub enum SqlEvent {
    /// SQL text was run; whether SQLite accepted it.
    Ran { sql: Seq<char>, succeeded: bool },
    /// The connection was asked whether it is in autocommit mode (no
    /// transaction open); its answer.
    Autocommit { answer: bool },
}

/// The record of what the library did on a connection, in order.
pub struct SqlLog {
    pub events: Ghost<Seq<SqlEvent>>,
}

impl View for SqlLog {
    type V = Seq<SqlEvent>;

    open spec fn view(&self) -> Seq<SqlEvent> {
        self.events@
    }
}

impl SqlLog {
    /// An empty record.
    pub fn new() -> (r: SqlLog)
        ensures
            r@ == Seq::<SqlEvent>::empty(),
    {
        SqlLog { events: Ghost(Seq::empty()) }
    }
}

/// `sql` was run, and SQLite accepted it or not.
pub open spec fn ran(sql: Seq<char>, succeeded: bool) -> SqlEvent {
    SqlEvent::Ran { sql, succeeded }
}

/// The answer recorded at `i`, where an autocommit question is recorded there.
pub open spec fn answer_at(events: Seq<SqlEvent>, i: int) -> bool {
    match events[i] {
        SqlEvent::Autocommit { answer } => answer,
        _ => false,
    }
}

/// Whether the SQL recorded at `i` was accepted, where SQL is recorded there.
pub open spec fn succeeded_at(events: Seq<SqlEvent>, i: int) -> bool {
    match events[i] {
        SqlEvent::Ran { succeeded, .. } => succeeded,
        _ => false,
    }
}

/// `rusqlite::Connection::execute_batch`: runs every statement of the
/// text. Whether SQLite accepts them depends on the database's state, so
/// nothing is claimed of the outcome; an error is handed back as its message.
#[verifier::external_body]
fn execute_batch(conn: &rusqlite::Connection, sql: &str) -> (r: Result<(), String>) {
    match conn.execute_batch(sql) {
        Ok(()) => Ok(()),
        Err(e) => Err(e.to_string()),
    }
}

/// `rusqlite::Connection::execute` without parameters: runs one statement
/// (the crate refuses text holding several). Whether SQLite accepts it
/// depends on the database's state, so nothing is claimed of the outcome;
/// an error is handed back as its message.
#[verifier::external_body]
fn execute(conn: &rusqlite::Connection, sql: &str) -> (r: Result<usize, String>) {
    match conn.execute(sql, []) {
        Ok(n) => Ok(n),
        Err(e) => Err(e.to_string()),
    }
}

/// `rusqlite::Connection::is_autocommit`: whether no transaction is open,
/// which depends on the database's state; nothing is claimed of it.
#[verifier::external_body]
fn is_autocommit(conn: &rusqlite::Connection) -> (r: bool) {
    conn.is_autocommit()
}

/// Runs the SQL text as a batch (every statement in it), and records it.
pub fn run_batch(conn: &rusqlite::Connection, log: &mut SqlLog, sql: &str) -> (r: Result<(), String>)
    ensures
        final(log)@ == old(log)@.push(ran(sql@, r is Ok)),
{
    let r = execute_batch(conn, sql);
    log.events = Ghost(log.events@.push(ran(sql@, r is Ok)));
    r
}

/// Runs one SQL statement, and records it.
pub fn run_one(conn: &rusqlite::Connection, log: &mut SqlLog, sql: &str) -> (r: Result<(), String>)
    ensures
        final(log)@ == old(log)@.push(ran(sql@, r is Ok)),
{
    let r = match execute(conn, sql) {
        Ok(_) => Ok(()),
        Err(m) => Err(m),
    };
    log.events = Ghost(log.events@.push(ran(sql@, r is Ok)));
    r
}

/// Asks whether the connection is in autocommit mode (no transaction
/// open), and records the answer.
pub fn ask_autocommit(conn: &rusqlite::Connection, log: &mut SqlLog) -> (r: bool)
    ensures
        final(log)@ == old(log)@.push(SqlEvent::Autocommit { answer: r }),
{
    let r = is_autocommit(conn);
    log.events = Ghost(log.events@.push(SqlEvent::Autocommit { answer: r }));
    r
}

} // verus!
