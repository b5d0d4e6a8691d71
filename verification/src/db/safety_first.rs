//! Transactions: starting, committing and rolling back, and the rule by
//! which an operation that may run inside a caller's transaction starts
//! one of its own only where there is none, and ends only the one it
//! started.

use vstd::prelude::*;
use vstd::string::*;

use crate::db::rebuild::column_specs;
use crate::db::sql_text::statement_sql;
use crate::db::statements::StatementSpec;
use crate::db::table_ops::{self, create_table_failure, run_outcome};
use crate::db::sql_log::{answer_at, ask_autocommit, ran, run_batch, succeeded_at, SqlEvent, SqlLog};
use crate::protocol::error::DbError;
use crate::protocol::payload::{CopyTableIn, CreateIndexIn, CreateTableIn, DropTableIn, RemoveColumnIn};
use crate::text::has_prefix;

verus! {

#[verifier::external_type_specification]
#[verifier::external_body]
pub struct ExConnection(rusqlite::Connection);

/// `rusqlite::Connection::open_in_memory`. Whether SQLite can open a
/// database depends on the machine; an error is handed back as its message.
#[verifier::external_body]
fn open_in_memory() -> (r: Result<rusqlite::Connection, String>) {
    match rusqlite::Connection::open_in_memory() {
        Ok(c) => Ok(c),
        Err(e) => Err(e.to_string()),
    }
}

/// The error a failed statement of operation `operation` is reported as.
pub open spec fn statement_failure(operation: Seq<char>, message: Seq<char>) -> Seq<char> {
    operation + " failed: "@ + message
}

/// A failed statement of `operation` is `SqlExecuteFail`, its message
/// prefixed with the operation's name; success stays success.
pub fn report_statement(operation: &str, outcome: Result<(), String>) -> (r: Result<(), DbError>)
    ensures
        match outcome {
            Ok(()) => r is Ok,
            Err(m) => r matches Err(DbError::SqlExecuteFail(s)) && s@ == statement_failure(operation@, m@),
        },
{
    match outcome {
        Ok(()) => Ok(()),
        Err(m) => {
            let mut s = String::from_str(operation);
            s.append(" failed: ");
            s.append(m.as_str());
            Err(DbError::SqlExecuteFail(s))
        },
    }
}

/// Outcome of running a statement of `operation`: success, or
/// `SqlExecuteFail` with a message prefixed by the operation's name.
pub open spec fn statement_outcome(operation: Seq<char>, r: Result<(), DbError>) -> bool {
    r is Ok || (r matches Err(DbError::SqlExecuteFail(s)) && exists|m: Seq<char>| #[trigger] statement_failure(
        operation,
        m,
    ) == s@)
}

/// The statements that control a transaction.
#[derive(Debug, Clone, Copy, PartialEq, Eq, Structural)]
pub enum TxStatement {
    /// Start a transaction that takes the write lock at once.
    Begin,
    /// Commit the open transaction.
    Commit,
    /// Roll the open transaction back.
    Rollback,
}

/// The SQL text of a transaction statement.
pub open spec fn tx_sql(s: TxStatement) -> Seq<char> {
    match s {
        TxStatement::Begin => "BEGIN IMMEDIATE"@,
        TxStatement::Commit => "COMMIT"@,
        TxStatement::Rollback => "ROLLBACK"@,
    }
}

/// The operation a failure of the statement is reported under.
pub open spec fn tx_operation(s: TxStatement) -> Seq<char> {
    match s {
        TxStatement::Begin => "begin_all_or_nothing"@,
        TxStatement::Commit => "everything_went_perfectly"@,
        TxStatement::Rollback => "regret_everything"@,
    }
}

/// The SQL text of a transaction statement.
pub fn tx_statement_sql(s: TxStatement) -> (r: &'static str)
    ensures
        r@ == tx_sql(s),
{
    match s {
        TxStatement::Begin => {
            proof { reveal_strlit("BEGIN IMMEDIATE"); }
            "BEGIN IMMEDIATE"
        },
        TxStatement::Commit => {
            proof { reveal_strlit("COMMIT"); }
            "COMMIT"
        },
        TxStatement::Rollback => {
            proof { reveal_strlit("ROLLBACK"); }
            "ROLLBACK"
        },
    }
}

fn tx_operation_name(s: TxStatement) -> (r: &'static str)
    ensures
        r@ == tx_operation(s),
{
    match s {
        TxStatement::Begin => {
            proof { reveal_strlit("begin_all_or_nothing"); }
            "begin_all_or_nothing"
        },
        TxStatement::Commit => {
            proof { reveal_strlit("everything_went_perfectly"); }
            "everything_went_perfectly"
        },
        TxStatement::Rollback => {
            proof { reveal_strlit("regret_everything"); }
            "regret_everything"
        },
    }
}

/// Runs the transaction statement `s` (its text is `tx_sql(s)`) and
/// records it; a failure is `SqlExecuteFail` under the statement's
/// operation name.
pub fn run_tx_statement(conn: &rusqlite::Connection, log: &mut SqlLog, s: TxStatement) -> (r: Result<(), DbError>)
    ensures
        final(log)@ == old(log)@.push(ran(tx_sql(s), r is Ok)),
        statement_outcome(tx_operation(s), r),
{
    report_statement(tx_operation_name(s), run_batch(conn, log, tx_statement_sql(s)))
}

/// Starts a transaction that takes the write lock at once (`BEGIN IMMEDIATE`).
pub fn begin_all_or_nothing(conn: &rusqlite::Connection, log: &mut SqlLog) -> (r: Result<(), DbError>)
    ensures
        final(log)@ == old(log)@.push(ran("BEGIN IMMEDIATE"@, r is Ok)),
        statement_outcome("begin_all_or_nothing"@, r),
{
    run_tx_statement(conn, log, TxStatement::Begin)
}

/// Commits the open transaction (`COMMIT`).
pub fn everything_went_perfectly(conn: &rusqlite::Connection, log: &mut SqlLog) -> (r: Result<(), DbError>)
    ensures
        final(log)@ == old(log)@.push(ran("COMMIT"@, r is Ok)),
        statement_outcome("everything_went_perfectly"@, r),
{
    run_tx_statement(conn, log, TxStatement::Commit)
}

/// Rolls the open transaction back (`ROLLBACK`).
pub fn regret_everything(conn: &rusqlite::Connection, log: &mut SqlLog) -> (r: Result<(), DbError>)
    ensures
        final(log)@ == old(log)@.push(ran("ROLLBACK"@, r is Ok)),
        statement_outcome("regret_everything"@, r),
{
    run_tx_statement(conn, log, TxStatement::Rollback)
}

/// Whether a transaction is open on the connection: the connection is not
/// in autocommit mode.
pub fn are_we_in_middle_of_transaction(conn: &rusqlite::Connection, log: &mut SqlLog) -> (r: bool)
    ensures
        final(log)@ == old(log)@.push(SqlEvent::Autocommit { answer: !r }),
{
    !ask_autocommit(conn, log)
}

/// Whether an operation has to begin a transaction of its own: exactly
/// where none is open.
pub fn must_begin(in_transaction: bool) -> (r: bool)
    ensures
        r == !in_transaction,
{
    !in_transaction
}

/// Starting an operation's transaction, given whether one is open: where
/// one is, nothing is run and the operation started none (`Ok(false)`);
/// where none is, `BEGIN IMMEDIATE` is run and the operation started it
/// (`Ok(true)`) unless the statement failed.
pub fn begin_if_needed(conn: &rusqlite::Connection, log: &mut SqlLog, in_transaction: bool) -> (r: Result<
    bool,
    DbError,
>)
    ensures
        in_transaction ==> r == Ok::<bool, DbError>(false) && final(log)@ == old(log)@,
        !in_transaction ==> final(log)@ == old(log)@.push(ran(tx_sql(TxStatement::Begin), r is Ok)),
        !in_transaction ==> r == Ok::<bool, DbError>(true) || (r matches Err(e) && statement_outcome(
            tx_operation(TxStatement::Begin),
            Err::<(), DbError>(e),
        )),
{
    let started_here = must_begin(in_transaction);
    if started_here {
        run_tx_statement(conn, log, TxStatement::Begin)?;
    }
    Ok(started_here)
}

/// What starting an operation's transaction records, given the answer to
/// whether the connection is in autocommit mode: the question, then,
/// where it is (no transaction open), `BEGIN IMMEDIATE` and whether it was
/// accepted.
pub open spec fn start_events(autocommit: bool, begun: bool) -> Seq<SqlEvent> {
    if autocommit {
        seq![SqlEvent::Autocommit { answer: true }, ran(tx_sql(TxStatement::Begin), begun)]
    } else {
        seq![SqlEvent::Autocommit { answer: false }]
    }
}

/// Starts a transaction where none is open; says whether it did. It asks
/// the connection first; where a transaction is open it runs nothing more
/// and answers `Ok(false)`; where none is, it runs `BEGIN IMMEDIATE` and
/// answers `Ok(true)`, or the statement's failure.
pub fn start_transaction_if_not_in_one(conn: &rusqlite::Connection, log: &mut SqlLog) -> (r: Result<
    bool,
    DbError,
>)
    ensures
        final(log)@ == old(log)@ + start_events(answer_at(final(log)@, old(log)@.len() as int), r is Ok),
        !answer_at(final(log)@, old(log)@.len() as int) ==> r == Ok::<bool, DbError>(false),
        answer_at(final(log)@, old(log)@.len() as int) ==> (r is Ok ==> r == Ok::<bool, DbError>(true)),
        r matches Err(e) ==> statement_outcome("begin_all_or_nothing"@, Err::<(), DbError>(e)),
{
    let ghost l0 = log@;
    let in_transaction = are_we_in_middle_of_transaction(conn, log);
    let ghost l1 = log@;
    let r = begin_if_needed(conn, log, in_transaction);
    proof {
        assert(log@[l0.len() as int] == l1[l0.len() as int]);
        assert(answer_at(log@, l0.len() as int) == !in_transaction);
        assert(log@ =~= l0 + start_events(!in_transaction, r is Ok));
    }
    r
}

/// The statement that ends an operation's transaction: none where the
/// operation did not start it; `COMMIT` after success; `ROLLBACK` after
/// failure.
pub open spec fn ending_spec(started_here: bool, succeeded: bool) -> Option<TxStatement> {
    if !started_here {
        None
    } else if succeeded {
        Some(TxStatement::Commit)
    } else {
        Some(TxStatement::Rollback)
    }
}

/// The statement that ends an operation's transaction, as [`ending_spec`] says.
pub fn ending_action(started_here: bool, succeeded: bool) -> (r: Option<TxStatement>)
    ensures
        r == ending_spec(started_here, succeeded),
{
    if !started_here {
        None
    } else if succeeded {
        Some(TxStatement::Commit)
    } else {
        Some(TxStatement::Rollback)
    }
}

/// What ending an operation's transaction records: the statement
/// [`ending_spec`] owes, if any, and whether it was accepted.
pub open spec fn end_events(started_here: bool, succeeded: bool, accepted: bool) -> Seq<SqlEvent> {
    match ending_spec(started_here, succeeded) {
        Some(s) => seq![ran(tx_sql(s), accepted)],
        None => Seq::<SqlEvent>::empty(),
    }
}

/// What ending an operation's work reports, given the ending statement
/// [`ending_spec`] owes and whether it was accepted: the operation's own
/// result where nothing is run or the work is rolled back (a failed
/// operation's error stays unchanged, whatever the rollback does); after a
/// commit, the result where it was accepted, the commit's failure otherwise.
pub open spec fn ended_with<T>(started_here: bool, result: Result<T, DbError>, accepted: bool, r: Result<T, DbError>) -> bool {
    match ending_spec(started_here, result is Ok) {
        Some(TxStatement::Commit) => if accepted {
            r == result
        } else {
            r matches Err(e) && statement_outcome(tx_operation(TxStatement::Commit), Err::<(), DbError>(e))
        },
        _ => r == result,
    }
}

/// Ends the transaction an operation started, if it started one: carries
/// out [`ending_action`] (commit after success, roll back after failure),
/// and runs nothing where the operation did not start it.
pub fn end_transaction_if_in_one<T>(
    conn: &rusqlite::Connection,
    log: &mut SqlLog,
    started_here: bool,
    result: Result<T, DbError>,
) -> (r: Result<T, DbError>)
    ensures
        final(log)@ == old(log)@ + end_events(
            started_here,
            result is Ok,
            succeeded_at(final(log)@, old(log)@.len() as int),
        ),
        ended_with(started_here, result, succeeded_at(final(log)@, old(log)@.len() as int), r),
{
    let ghost l0 = log@;
    let ghost succeeded = result is Ok;
    let r = match ending_action(started_here, result.is_ok()) {
        Some(TxStatement::Commit) => match run_tx_statement(conn, log, TxStatement::Commit) {
            Ok(()) => result,
            Err(e) => Err(e),
        },
        Some(s) => {
            let _ = run_tx_statement(conn, log, s);
            result
        },
        None => result,
    };
    proof {
        assert(log@ =~= l0 + end_events(started_here, succeeded, succeeded_at(log@, l0.len() as int)));
    }
    r
}

/// A connection to an in-memory database, and the operations on it.
pub struct LiveForever {
    pub db_conn: rusqlite::Connection,
}

impl LiveForever {
    /// Opens a fresh in-memory database; a failure is `ConnError` with
    /// SQLite's message.
    pub fn new() -> (r: Result<LiveForever, DbError>)
        ensures
            r matches Err(e) ==> e is ConnError,
    {
        match open_in_memory() {
            Ok(db_conn) => Ok(LiveForever { db_conn }),
            Err(m) => Err(DbError::ConnError(m)),
        }
    }

    pub fn begin_all_or_nothing(&self) -> (r: Result<(), DbError>)
        ensures
            statement_outcome("begin_all_or_nothing"@, r),
    {
        let mut log = SqlLog::new();
        begin_all_or_nothing(&self.db_conn, &mut log)
    }

    pub fn everything_went_perfectly(&self) -> (r: Result<(), DbError>)
        ensures
            statement_outcome("everything_went_perfectly"@, r),
    {
        let mut log = SqlLog::new();
        everything_went_perfectly(&self.db_conn, &mut log)
    }

    pub fn regret_everything(&self) -> (r: Result<(), DbError>)
        ensures
            statement_outcome("regret_everything"@, r),
    {
        let mut log = SqlLog::new();
        regret_everything(&self.db_conn, &mut log)
    }

    /// Creates a table, as [`table_ops::create_table`] does; success is `Ok(())`.
    pub fn create_table(&self, data: CreateTableIn) -> (r: Result<(), DbError>)
        ensures
            data.table_name@.len() == 0 ==> (r matches Err(e) && e.is_illegal_input("table_name is empty"@)),
            data.table_name@.len() != 0 && has_prefix(vstd::utf8::encode_utf8(data.table_name@), "fts5_".spec_bytes()) ==> (r matches Err(
                e,
            ) && e.is_illegal_input("table_name cannot start with reserved prefix 'fts5_'"@)),
            data.table_name@.len() != 0 && !has_prefix(vstd::utf8::encode_utf8(data.table_name@), "fts5_".spec_bytes()) ==> (r is Ok
                || (r matches Err(DbError::SqlExecuteFail(m)) && exists|msg: Seq<char>| m@ == #[trigger] create_table_failure(
                msg,
                statement_sql(
                    StatementSpec::CreateTableIfNotExists {
                        table_name: data.table_name@,
                        columns: column_specs(data.columns@),
                    },
                ),
            ))),
    {
        let mut log = SqlLog::new();
        match table_ops::create_table(&self.db_conn, &mut log, data.table_name.as_str(), data.columns) {
            Some(err) => Err(err),
            None => Ok(()),
        }
    }

    /// Drops a table if it exists.
    pub fn drop_table(&self, data: DropTableIn) -> (r: Result<(), DbError>)
        ensures
            run_outcome("drop_table"@, StatementSpec::DropTableIfExists { table_name: data.table_name@ }, r),
    {
        let mut log = SqlLog::new();
        table_ops::drop_table(&self.db_conn, &mut log, data.table_name.as_str())
    }

    /// Indexes a column.
    pub fn create_index(&self, data: CreateIndexIn) -> (r: Result<(), DbError>)
        ensures
            run_outcome(
                "create_index"@,
                StatementSpec::CreateIndex {
                    name: "idx_"@ + data.table_name@ + "_"@ + data.column_name@,
                    table_name: data.table_name@,
                    columns: seq![data.column_name@],
                    unique: false,
                    if_not_exists: true,
                },
                r,
            ),
    {
        let mut log = SqlLog::new();
        table_ops::create_index(&self.db_conn, &mut log, data.table_name.as_str(), data.column_name.as_str())
    }

    /// Drops a column in place.
    pub fn remove_column(&self, data: RemoveColumnIn) -> (r: Result<(), DbError>)
        ensures
            run_outcome(
                "remove_column"@,
                StatementSpec::DropColumn { table_name: data.table_name@, column_name: data.column_name@ },
                r,
            ),
    {
        let mut log = SqlLog::new();
        table_ops::remove_column(&self.db_conn, &mut log, data.table_name.as_str(), data.column_name.as_str())
    }

    /// Copies a table with its rows under a new name.
    pub fn copy_table(&self, data: CopyTableIn) -> (r: Result<(), DbError>)
        ensures
            run_outcome(
                "copy_table"@,
                StatementSpec::CopyTable { from: data.source_table_name@, to: data.new_table_name@ },
                r,
            ),
    {
        let mut log = SqlLog::new();
        table_ops::copy_table(&self.db_conn, &mut log, data.source_table_name.as_str(), data.new_table_name.as_str())
    }
}

} // verus!
