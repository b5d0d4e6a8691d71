use vstd::prelude::*;
use vstd::string::*;

use crate::db::rebuild::column_specs;
use crate::db::safety_first::LiveForever;
use crate::db::sql_log::{ran, SqlEvent, SqlLog};
use crate::db::sql_text::statement_sql;
use crate::db::statements::{clone_columns, StatementSpec};
use crate::db::table_ops::{self, acceptable_name, create_table_failure};
use crate::protocol::error::DbError;
use crate::protocol::new_table::{ColumnDef, ColumnSpec};
use crate::protocol::payload::CreateTableIn;
use crate::text::has_prefix;

verus! {

/// A table as a schema version defines it.
#[derive(Debug, Clone)]
pub struct ADbTable {
    pub table_name: String,
    pub columns: Vec<ColumnDef>,
}

pub struct TableSpec {
    pub table_name: Seq<char>,
    pub columns: Seq<ColumnSpec>,
}

impl View for ADbTable {
    type V = TableSpec;

    open spec fn view(&self) -> TableSpec {
        TableSpec { table_name: self.table_name@, columns: column_specs(self.columns@) }
    }
}

/// The values of a list of table definitions.
pub open spec fn table_specs(v: Seq<ADbTable>) -> Seq<TableSpec> {
    v.map_values(|t: ADbTable| t@)
}

/// Why `create_table` refuses a name it does not accept.
pub open spec fn name_refusal(name: Seq<char>) -> Seq<char> {
    if name.len() == 0 {
        "table_name is empty"@
    } else {
        "table_name cannot start with reserved prefix 'fts5_'"@
    }
}

/// The `CREATE TABLE IF NOT EXISTS` of a table, as run, and whether it was accepted.
pub open spec fn creation_event(t: TableSpec, accepted: bool) -> SqlEvent {
    ran(
        statement_sql(StatementSpec::CreateTableIfNotExists { table_name: t.table_name, columns: t.columns }),
        accepted,
    )
}

/// The record of creating every table of `tables`, each accepted.
pub open spec fn created_all(tables: Seq<TableSpec>) -> Seq<SqlEvent> {
    tables.map_values(|t: TableSpec| creation_event(t, true))
}

/// Creating `tables` stopped at the `k`-th: the tables before it were
/// created; its name was refused (nothing run, `IllegalInput`), or its
/// `CREATE TABLE` was run and refused by SQLite (`SqlExecuteFail`).
pub open spec fn stopped_at(tables: Seq<TableSpec>, k: int, events: Seq<SqlEvent>, r: Result<(), DbError>) -> bool {
    if acceptable_name(tables[k].table_name) {
        &&& events == created_all(tables.take(k)).push(creation_event(tables[k], false))
        &&& r matches Err(DbError::SqlExecuteFail(m)) && exists|msg: Seq<char>| m@ == #[trigger] create_table_failure(
            msg,
            statement_sql(
                StatementSpec::CreateTableIfNotExists { table_name: tables[k].table_name, columns: tables[k].columns },
            ),
        )
    } else {
        &&& events == created_all(tables.take(k))
        &&& r matches Err(e) && e.is_illegal_input(name_refusal(tables[k].table_name))
    }
}

/// Creates every table, in order (`CREATE TABLE IF NOT EXISTS`), and
/// stops at the first that fails: a table is handed to SQLite only after
/// every table before it was created. No tables is success with nothing
/// run; a first table whose name is refused is that refusal, with nothing
/// run.
pub fn create_table_from_scratch(db_tables: Vec<ADbTable>, db_wrapper: &LiveForever, log: &mut SqlLog) -> (r: Result<
    (),
    DbError,
>)
    ensures
        db_tables@.len() == 0 ==> r is Ok && final(log)@ == old(log)@,
        db_tables@.len() > 0 && !acceptable_name(db_tables@[0].table_name@) ==> (r matches Err(e) && e.is_illegal_input(
            name_refusal(db_tables@[0].table_name@),
        )) && final(log)@ == old(log)@,
        old(log)@.len() <= final(log)@.len(),
        final(log)@.subrange(0, old(log)@.len() as int) == old(log)@,
        r is Ok ==> final(log)@ == old(log)@ + created_all(table_specs(db_tables@)),
        r is Err ==> exists|k: int|
            0 <= k < db_tables@.len() && #[trigger] stopped_at(
                table_specs(db_tables@),
                k,
                final(log)@.skip(old(log)@.len() as int),
                r,
            ),
{
    let ghost l0 = log@;
    let ghost specs = table_specs(db_tables@);
    let mut i: usize = 0;
    let n = db_tables.len();
    while i < n
        invariant
            n == db_tables@.len(),
            i <= n,
            specs == table_specs(db_tables@),
            l0 == old(log)@,
            log@ == l0 + created_all(specs.take(i as int)),
            n > 0 && !acceptable_name(specs[0].table_name) ==> i == 0,
        decreases n - i,
    {
        let t = &db_tables[i];
        let name = t.table_name.clone();
        let columns = clone_columns(&t.columns);
        let ghost before = log@;
        proof {
            assert(specs[i as int] == t@);
        }
        match table_ops::create_table(&db_wrapper.db_conn, log, name.as_str(), columns) {
            None => {
                proof {
                    assert(created_all(specs.take(i as int + 1)) =~= created_all(specs.take(i as int)).push(
                        creation_event(specs[i as int], true),
                    ));
                }
            },
            Some(e) => {
                proof {
                    let ev = log@.skip(l0.len() as int);
                    assert(created_all(specs.take(i as int)).len() == i);
                    if acceptable_name(specs[i as int].table_name) {
                        assert(ev =~= created_all(specs.take(i as int)).push(creation_event(specs[i as int], false)));
                    } else {
                        assert(ev =~= created_all(specs.take(i as int)));
                    }
                    assert(stopped_at(specs, i as int, ev, Err::<(), DbError>(e)));
                    if i == 0 {
                        assert(specs.take(0) =~= Seq::<TableSpec>::empty());
                        assert(created_all(specs.take(0)) =~= Seq::<SqlEvent>::empty());
                    }
                    assert(log@.subrange(0, l0.len() as int) =~= l0);
                }
                return Err(e);
            },
        }
        i = i + 1;
    }
    proof {
        assert(specs.take(i as int) =~= specs);
        assert(log@.subrange(0, l0.len() as int) =~= l0);
    }
    Ok(())
}

} // verus!
