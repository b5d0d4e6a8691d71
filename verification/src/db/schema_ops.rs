//! Schema operations carried out on a connection: the decisions and
//! statements of the other modules, run as SQL inside the caller's
//! transaction or one of their own.

use vstd::prelude::*;
use vstd::string::*;

use crate::db::black_magic::{add_column_refusal, prepare_added_column};
use crate::db::rebuild::texts;
use crate::db::safety_first::statement_outcome;
use crate::db::sql_log::SqlLog;
use crate::db::sql_text::{operation_events, operation_succeeded, run_in_transaction, step_failed};
use crate::db::statements::{add_column_statements, statement_specs, Statement, StatementSpec};
use crate::protocol::error::DbError;
use crate::protocol::new_table::ColumnSpec;
use crate::protocol::payload::AddColumnIn;

verus! {

/// The statements the migration's `add_column` runs for `column`: the
/// column declared without `UNIQUE`, then, where it asked to be unique, a
/// unique index `uidx_<table>_<column>` on it.
pub open spec fn add_column_specs(table_name: Seq<char>, column: ColumnSpec) -> Seq<StatementSpec> {
    seq![StatementSpec::AddColumn { table_name, column: ColumnSpec { unique: false, ..column } }] + if column.unique {
        seq![
            StatementSpec::CreateIndex {
                name: "uidx_"@ + table_name + "_"@ + column.name,
                table_name,
                columns: seq![column.name],
                unique: true,
                if_not_exists: true,
            },
        ]
    } else {
        Seq::<StatementSpec>::empty()
    }
}

/// The label a failure of a statement of the migration's `add_column` carries.
pub open spec fn add_column_label(s: StatementSpec) -> Seq<char> {
    match s {
        StatementSpec::CreateIndex { .. } => "add_column: unique index"@,
        _ => "add_column"@,
    }
}

fn add_column_label_list(v: &Vec<Statement>) -> (r: Vec<String>)
    ensures
        r@.len() == v@.len(),
        texts(r@) == statement_specs(v@).map_values(|s: StatementSpec| add_column_label(s)),
{
    let mut r: Vec<String> = Vec::new();
    let mut i: usize = 0;
    while i < v.len()
        invariant
            i <= v@.len(),
            r@.len() == i,
            forall|j: int| 0 <= j < i ==> (#[trigger] r@[j])@ == add_column_label(v@[j]@),
        decreases v@.len() - i,
    {
        let label = match &v[i] {
            Statement::CreateIndex { .. } => String::from_str("add_column: unique index"),
            _ => String::from_str("add_column"),
        };
        proof {
            reveal_strlit("add_column: unique index");
            reveal_strlit("add_column");
        }
        r.push(label);
        i = i + 1;
    }
    assert(texts(r@) =~= statement_specs(v@).map_values(|s: StatementSpec| add_column_label(s)));
    r
}

/// The migration's `add_column`: refused as [`add_column_refusal`] says
/// (a `UNIQUE` column is allowed), running nothing; otherwise the
/// statements of [`add_column_specs`] run as one operation
/// ([`operation_events`]): inside the caller's transaction where one is
/// open, otherwise in one of its own, committed where both statements were
/// accepted and rolled back otherwise (so a column whose unique index
/// fails is not left behind). A failure is `SqlExecuteFail`: starting the
/// transaction, a statement (`add_column failed: ...` or `add_column:
/// unique index failed: ...`, with its text), or the commit.
pub fn add_column(conn: &rusqlite::Connection, log: &mut SqlLog, input: AddColumnIn) -> (r: Result<(), DbError>)
    ensures
        add_column_refusal(input.table_name@, input.column@, true) matches Some(m) ==> (r matches Err(e)
            && e.is_illegal_input(m)) && final(log)@ == old(log)@,
        add_column_refusal(input.table_name@, input.column@, true) is None ==> {
            &&& old(log)@.len() <= final(log)@.len()
            &&& final(log)@.subrange(0, old(log)@.len() as int) == old(log)@
            &&& operation_events(
                final(log)@.skip(old(log)@.len() as int),
                add_column_specs(input.table_name@, input.column@),
            )
            &&& (r is Ok <==> operation_succeeded(
                final(log)@.skip(old(log)@.len() as int),
                add_column_specs(input.table_name@, input.column@),
            ))
            &&& r matches Err(e) ==> e matches DbError::SqlExecuteFail(m) && (statement_outcome(
                "begin_all_or_nothing"@,
                Err::<(), DbError>(e),
            ) || statement_outcome("everything_went_perfectly"@, Err::<(), DbError>(e)) || step_failed(
                add_column_specs(input.table_name@, input.column@).map_values(|s: StatementSpec| add_column_label(s)),
                add_column_specs(input.table_name@, input.column@),
                m@,
            ))
        },
{
    let table_name = input.table_name;
    let prepared = prepare_added_column(table_name.as_str(), input.column)?;
    let statements = add_column_statements(table_name.as_str(), &prepared);
    proof {
        assert(statement_specs(statements@) =~= add_column_specs(input.table_name@, input.column@));
    }
    let labels = add_column_label_list(&statements);
    run_in_transaction(conn, log, &labels, &statements)
}

} // verus!
