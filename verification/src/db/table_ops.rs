//! The plain table operations carried out on a connection: each checks its
//! input as `black_magic` decides, then runs one statement.

use vstd::prelude::*;
use vstd::string::*;

use crate::db::black_magic::{add_column_refusal, check_added_column, check_new_table_name};
use crate::db::sql_log::{ran, run_one, SqlLog};
use crate::db::sql_text::{statement_sql, statement_text};
use crate::db::rebuild::column_specs;
use crate::db::statements::{create_index_statement, drop_column_statement, Statement, StatementSpec};
use crate::protocol::error::DbError;
use crate::protocol::new_table::ColumnDef;
use crate::text::has_prefix;

verus! {

/// The message of a failed statement of `operation`.
pub open spec fn run_failure(operation: Seq<char>, message: Seq<char>, sql: Seq<char>) -> Seq<char> {
    operation + " failed: "@ + message + ", sql: "@ + sql
}

/// The outcome of running statement `s` for `operation`: success, or
/// `SqlExecuteFail` with SQLite's message and the statement's text.
pub open spec fn run_outcome(operation: Seq<char>, s: StatementSpec, r: Result<(), DbError>) -> bool {
    r is Ok || (r matches Err(DbError::SqlExecuteFail(m)) && exists|msg: Seq<char>| m@ == #[trigger] run_failure(
        operation,
        msg,
        statement_sql(s),
    ))
}

/// Runs one statement as its SQL text.
pub fn execute_statement(conn: &rusqlite::Connection, log: &mut SqlLog, operation: &str, s: &Statement) -> (r: Result<
    (),
    DbError,
>)
    ensures
        final(log)@ == old(log)@.push(ran(statement_sql(s@), r is Ok)),
        run_outcome(operation@, s@, r),
{
    let sql = statement_text(s);
    match run_one(conn, log, sql.as_str()) {
        Ok(()) => Ok(()),
        Err(message) => {
            let mut m = String::from_str(operation);
            m.append(" failed: ");
            m.append(message.as_str());
            m.append(", sql: ");
            m.append(sql.as_str());
            proof {
                reveal_strlit(" failed: ");
                reveal_strlit(", sql: ");
                assert(m@ =~= run_failure(operation@, message@, statement_sql(s@)));
            }
            Err(DbError::SqlExecuteFail(m))
        },
    }
}

/// `create_table`: refused for an empty name or the reserved `fts5_`
/// prefix (as [`check_new_table_name`] says); otherwise `CREATE TABLE IF
/// NOT EXISTS` with the columns, whose failure is `SqlExecuteFail`
/// (`err: <message>, sql: <text>`). `None` is success.
pub fn create_table(conn: &rusqlite::Connection, log: &mut SqlLog, table_name: &str, columns: Vec<ColumnDef>) -> (r: Option<
    DbError,
>)
    ensures
        !acceptable_name(table_name@) ==> final(log)@ == old(log)@,
        acceptable_name(table_name@) ==> final(log)@ == old(log)@.push(
            ran(
                statement_sql(
                    StatementSpec::CreateTableIfNotExists { table_name: table_name@, columns: column_specs(columns@) },
                ),
                r is None,
            ),
        ),
        table_name@.len() == 0 ==> (r matches Some(e) && e.is_illegal_input("table_name is empty"@)),
        table_name@.len() != 0 && has_prefix(table_name.spec_bytes(), "fts5_".spec_bytes()) ==> (r matches Some(e)
            && e.is_illegal_input("table_name cannot start with reserved prefix 'fts5_'"@)),
        table_name@.len() != 0 && !has_prefix(table_name.spec_bytes(), "fts5_".spec_bytes()) ==> (r is None || (r matches Some(
            DbError::SqlExecuteFail(m),
        ) && exists|msg: Seq<char>| m@ == #[trigger] create_table_failure(
            msg,
            statement_sql(
                StatementSpec::CreateTableIfNotExists { table_name: table_name@, columns: column_specs(columns@) },
            ),
        ))),
{
    match check_new_table_name(table_name) {
        Some(e) => return Some(e),
        None => {},
    }
    let s = Statement::CreateTableIfNotExists { table_name: String::from_str(table_name), columns };
    let sql = statement_text(&s);
    match run_one(conn, log, sql.as_str()) {
        Ok(()) => None,
        Err(message) => {
            let mut m = String::from_str("err: ");
            m.append(message.as_str());
            m.append(", sql: ");
            m.append(sql.as_str());
            proof {
                reveal_strlit("err: ");
                reveal_strlit(", sql: ");
                assert(m@ =~= create_table_failure(message@, statement_sql(s@)));
            }
            Some(DbError::SqlExecuteFail(m))
        },
    }
}

/// A table name that `create_table` accepts: not empty, without the
/// reserved `fts5_` prefix.
pub open spec fn acceptable_name(name: Seq<char>) -> bool {
    name.len() != 0 && !has_prefix(vstd::utf8::encode_utf8(name), "fts5_".spec_bytes())
}

/// The message of a failed `CREATE TABLE`.
pub open spec fn create_table_failure(message: Seq<char>, sql: Seq<char>) -> Seq<char> {
    "err: "@ + message + ", sql: "@ + sql
}

/// `drop_table`: `DROP TABLE IF EXISTS`.
pub fn drop_table(conn: &rusqlite::Connection, log: &mut SqlLog, table_name: &str) -> (r: Result<(), DbError>)
    ensures
        final(log)@ == old(log)@.push(ran(statement_sql(StatementSpec::DropTableIfExists { table_name: table_name@ }), r is Ok)),
        run_outcome("drop_table"@, StatementSpec::DropTableIfExists { table_name: table_name@ }, r),
{
    proof { reveal_strlit("drop_table"); }
    execute_statement(conn, log, "drop_table", &Statement::DropTableIfExists { table_name: String::from_str(table_name) })
}

/// `create_index`: the index `idx_<table>_<column>` on the column, if it
/// does not exist yet.
pub fn create_index(conn: &rusqlite::Connection, log: &mut SqlLog, table_name: &str, column_name: &str) -> (r: Result<(), DbError>)
    ensures
        final(log)@ == old(log)@.push(
            ran(
                statement_sql(
                    StatementSpec::CreateIndex {
                        name: "idx_"@ + table_name@ + "_"@ + column_name@,
                        table_name: table_name@,
                        columns: seq![column_name@],
                        unique: false,
                        if_not_exists: true,
                    },
                ),
                r is Ok,
            ),
        ),
        run_outcome(
            "create_index"@,
            StatementSpec::CreateIndex {
                name: "idx_"@ + table_name@ + "_"@ + column_name@,
                table_name: table_name@,
                columns: seq![column_name@],
                unique: false,
                if_not_exists: true,
            },
            r,
        ),
{
    proof { reveal_strlit("create_index"); }
    execute_statement(conn, log, "create_index", &create_index_statement(table_name, column_name))
}

/// `add_column`: refused as [`check_added_column`] says (no key, no
/// autoincrement, no unique, a default for a `NOT NULL` column); otherwise
/// `ALTER TABLE ... ADD COLUMN`.
pub fn add_column(conn: &rusqlite::Connection, log: &mut SqlLog, table_name: &str, column: ColumnDef) -> (r: Result<(), DbError>)
    ensures
        add_column_refusal(table_name@, column@, false) matches Some(m) ==> (r matches Err(e) && e.is_illegal_input(m))
            && final(log)@ == old(log)@,
        add_column_refusal(table_name@, column@, false) is None ==> final(log)@ == old(log)@.push(
            ran(statement_sql(StatementSpec::AddColumn { table_name: table_name@, column: column@ }), r is Ok),
        ),
        add_column_refusal(table_name@, column@, false) is None ==> run_outcome(
            "add_column"@,
            StatementSpec::AddColumn { table_name: table_name@, column: column@ },
            r,
        ),
{
    check_added_column(table_name, &column)?;
    proof { reveal_strlit("add_column"); }
    execute_statement(conn, log, "add_column", &Statement::AddColumn { table_name: String::from_str(table_name), column })
}

/// `remove_column`: `ALTER TABLE ... DROP COLUMN`.
pub fn remove_column(conn: &rusqlite::Connection, log: &mut SqlLog, table_name: &str, column_name: &str) -> (r: Result<(), DbError>)
    ensures
        final(log)@ == old(log)@.push(
            ran(statement_sql(StatementSpec::DropColumn { table_name: table_name@, column_name: column_name@ }), r is Ok),
        ),
        run_outcome(
            "remove_column"@,
            StatementSpec::DropColumn { table_name: table_name@, column_name: column_name@ },
            r,
        ),
{
    proof { reveal_strlit("remove_column"); }
    execute_statement(conn, log, "remove_column", &drop_column_statement(table_name, column_name))
}

/// `copy_table`: a new table with the source's columns and rows.
pub fn copy_table(conn: &rusqlite::Connection, log: &mut SqlLog, source_table_name: &str, new_table_name: &str) -> (r: Result<
    (),
    DbError,
>)
    ensures
        final(log)@ == old(log)@.push(
            ran(statement_sql(StatementSpec::CopyTable { from: source_table_name@, to: new_table_name@ }), r is Ok),
        ),
        run_outcome("copy_table"@, StatementSpec::CopyTable { from: source_table_name@, to: new_table_name@ }, r),
{
    proof { reveal_strlit("copy_table"); }
    execute_statement(
        conn,
        log,
        "copy_table",
        &Statement::CopyTable { from: String::from_str(source_table_name), to: String::from_str(new_table_name) },
    )
}

} // verus!
