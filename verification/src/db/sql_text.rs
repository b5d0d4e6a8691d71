//! The SQL text of the schema statements, and running them: identifiers
//! are written in double quotes with each double quote inside doubled, as
//! SQLite reads them; expressions are written as given.

use vstd::prelude::*;
use vstd::string::*;

use crate::db::rebuild::{texts, text_groups, mapping_specs, column_specs, MappingSpec, SourceExpr, SourceSpec, ColumnMapping};
use crate::db::statements::{rebuild_statement_specs, rebuild_statements, statement_specs, Statement, StatementSpec};
use crate::db::rebuild::RebuildPlan;
use crate::db::safety_first::{end_events, end_transaction_if_in_one, start_events, start_transaction_if_not_in_one, statement_outcome, tx_sql, TxStatement};
use crate::db::sql_log::{answer_at, ran, run_one, succeeded_at, SqlEvent, SqlLog};
use crate::protocol::error::DbError;
use crate::protocol::new_table::{ColumnDef, ColumnSpec};

verus! {

/// `s` with every double quote doubled.
pub open spec fn doubled_quotes(s: Seq<char>) -> Seq<char>
    decreases s.len(),
{
    if s.len() == 0 {
        seq![]
    } else if s.last() == '"' {
        doubled_quotes(s.drop_last()) + seq!['"', '"']
    } else {
        doubled_quotes(s.drop_last()).push(s.last())
    }
}

/// An identifier as SQL text: in double quotes, inner double quotes doubled.
pub open spec fn quoted(name: Seq<char>) -> Seq<char> {
    seq!['"'] + doubled_quotes(name) + seq!['"']
}

/// Every name quoted.
pub open spec fn quoted_all(names: Seq<Seq<char>>) -> Seq<Seq<char>> {
    names.map_values(|n: Seq<char>| quoted(n))
}

/// The items separated by `", "`.
pub open spec fn joined(items: Seq<Seq<char>>) -> Seq<char>
    decreases items.len(),
{
    if items.len() == 0 {
        seq![]
    } else if items.len() == 1 {
        items[0]
    } else {
        joined(items.drop_last()) + ", "@ + items.last()
    }
}

/// `text` where `b` holds, nothing otherwise.
pub open spec fn flag(b: bool, text: Seq<char>) -> Seq<char> {
    if b {
        text
    } else {
        seq![]
    }
}

/// A column declaration: quoted name, type, then `PRIMARY KEY`,
/// `AUTOINCREMENT`, `NOT NULL`, `UNIQUE` and `DEFAULT` as the column asks.
pub open spec fn column_decl(c: ColumnSpec) -> Seq<char> {
    quoted(c.name) + " "@ + c.column_type + flag(c.primary_key, " PRIMARY KEY"@) + flag(
        c.autoincrement,
        " AUTOINCREMENT"@,
    ) + flag(c.not_null, " NOT NULL"@) + flag(c.unique, " UNIQUE"@) + flag(
        c.default_value.len() > 0,
        " DEFAULT "@ + c.default_value,
    )
}

/// A table-level unique constraint over the columns `g`.
pub open spec fn unique_clause(g: Seq<Seq<char>>) -> Seq<char> {
    "UNIQUE ("@ + joined(quoted_all(g)) + ")"@
}

/// The items of a `CREATE TABLE`: the column declarations, the unique
/// constraints, and the table-level key where there is one.
pub open spec fn table_items(cols: Seq<ColumnSpec>, groups: Seq<Seq<Seq<char>>>, pk: Seq<Seq<char>>) -> Seq<Seq<char>> {
    cols.map_values(|c: ColumnSpec| column_decl(c)) + groups.map_values(|g: Seq<Seq<char>>| unique_clause(g)) + if pk.len()
        > 0 {
        seq!["PRIMARY KEY ("@ + joined(quoted_all(pk)) + ")"@]
    } else {
        Seq::<Seq<char>>::empty()
    }
}

/// Where a copied column's values come from, as SQL text.
pub open spec fn source_text(s: SourceSpec) -> Seq<char> {
    match s {
        SourceSpec::Column(c) => quoted(c),
        SourceSpec::Expression(e) => e,
    }
}

/// The SQL text of a statement.
pub open spec fn statement_sql(s: StatementSpec) -> Seq<char> {
    match s {
        StatementSpec::CreateTable { table_name, columns, unique_groups, primary_key } => "CREATE TABLE "@ + quoted(
            table_name,
        ) + " ("@ + joined(table_items(columns, unique_groups, primary_key)) + ");"@,
        StatementSpec::CopyRows { into, from, mappings } => "INSERT INTO "@ + quoted(into) + " ("@ + joined(
            quoted_all(mappings.map_values(|m: MappingSpec| m.target)),
        ) + ") SELECT "@ + joined(mappings.map_values(|m: MappingSpec| source_text(m.source))) + " FROM "@ + quoted(
            from,
        ) + ";"@,
        StatementSpec::DropTable { table_name } => "DROP TABLE "@ + quoted(table_name) + ";"@,
        StatementSpec::RenameTable { from, to } => "ALTER TABLE "@ + quoted(from) + " RENAME TO "@ + quoted(to) + ";"@,
        StatementSpec::AddColumn { table_name, column } => "ALTER TABLE "@ + quoted(table_name) + " ADD COLUMN "@
            + column_decl(column) + ";"@,
        StatementSpec::CreateTableIfNotExists { table_name, columns } => "CREATE TABLE IF NOT EXISTS "@ + quoted(
            table_name,
        ) + " ("@ + joined(columns.map_values(|c: ColumnSpec| column_decl(c))) + ");"@,
        StatementSpec::DropTableIfExists { table_name } => "DROP TABLE IF EXISTS "@ + quoted(table_name) + ";"@,
        StatementSpec::CopyTable { from, to } => "CREATE TABLE "@ + quoted(to) + " AS SELECT * FROM "@ + quoted(from)
            + ";"@,
        StatementSpec::DropColumn { table_name, column_name } => "ALTER TABLE "@ + quoted(table_name) + " DROP COLUMN "@
            + quoted(column_name) + ";"@,
        StatementSpec::CreateIndex { name, table_name, columns, unique, if_not_exists } => "CREATE "@ + flag(
            unique,
            "UNIQUE "@,
        ) + "INDEX "@ + flag(if_not_exists, "IF NOT EXISTS "@) + quoted(name) + " ON "@ + quoted(table_name) + " ("@
            + joined(quoted_all(columns)) + ");"@,
    }
}

/// `name` as a quoted identifier.
pub fn quote_ident(name: &str) -> (r: String)
    ensures
        r@ == quoted(name@),
{
    let mut r = String::from_str("\"");
    proof { reveal_strlit("\""); }
    let n = name.unicode_len();
    let mut i: usize = 0;
    while i < n
        invariant
            n == name@.len(),
            i <= n,
            r@ == seq!['"'] + doubled_quotes(name@.take(i as int)),
        decreases n - i,
    {
        assert(name@.take(i as int + 1).drop_last() =~= name@.take(i as int));
        assert(name@.take(i as int + 1).last() == name@[i as int]);
        let c = name.get_char(i);
        if c == '"' {
            r.append("\"\"");
            proof { reveal_strlit("\"\""); }
            assert(r@ =~= seq!['"'] + doubled_quotes(name@.take(i as int + 1)));
        } else {
            let one = name.substring_char(i, i + 1);
            assert(one@ =~= seq![c]);
            r.append(one);
            assert(r@ =~= seq!['"'] + doubled_quotes(name@.take(i as int + 1)));
        }
        i = i + 1;
    }
    assert(name@.take(n as int) =~= name@);
    r.append("\"");
    r
}

/// Every name quoted.
pub fn quote_all(names: &Vec<String>) -> (r: Vec<String>)
    ensures
        texts(r@) == quoted_all(texts(names@)),
{
    let mut r: Vec<String> = Vec::new();
    let mut i: usize = 0;
    while i < names.len()
        invariant
            i <= names@.len(),
            r@.len() == i,
            forall|j: int| 0 <= j < i ==> (#[trigger] r@[j])@ == quoted(names@[j]@),
        decreases names@.len() - i,
    {
        r.push(quote_ident(names[i].as_str()));
        i = i + 1;
    }
    assert(texts(r@) =~= quoted_all(texts(names@)));
    r
}

/// Appends the items, separated by `", "`.
pub fn append_joined(out: &mut String, items: &Vec<String>)
    ensures
        final(out)@ == old(out)@ + joined(texts(items@)),
{
    let ghost start = out@;
    let ghost t = texts(items@);
    let mut i: usize = 0;
    assert(t.take(0) =~= Seq::<Seq<char>>::empty());
    while i < items.len()
        invariant
            i <= items@.len(),
            t == texts(items@),
            out@ == start + joined(t.take(i as int)),
        decreases items@.len() - i,
    {
        assert(t.take(i as int + 1).drop_last() =~= t.take(i as int));
        assert(t.take(i as int + 1).last() == items@[i as int]@);
        if i > 0 {
            out.append(", ");
            proof { reveal_strlit(", "); }
        } else {
            assert(t.take(1)[0] == items@[0]@);
        }
        out.append(items[i].as_str());
        assert(out@ =~= start + joined(t.take(i as int + 1)));
        i = i + 1;
    }
    assert(t.take(i as int) =~= t);
}

fn append_flag(out: &mut String, b: bool, text: &str)
    ensures
        final(out)@ == old(out)@ + flag(b, text@),
{
    if b {
        out.append(text);
    } else {
        assert(out@ =~= out@ + flag(b, text@));
    }
}

/// A column declaration as SQL text.
pub fn column_decl_text(c: &ColumnDef) -> (r: String)
    ensures
        r@ == column_decl(c@),
{
    let mut r = quote_ident(c.name.as_str());
    r.append(" ");
    r.append(c.column_type.as_str());
    append_flag(&mut r, c.primary_key, " PRIMARY KEY");
    append_flag(&mut r, c.autoincrement, " AUTOINCREMENT");
    append_flag(&mut r, c.not_null, " NOT NULL");
    append_flag(&mut r, c.unique, " UNIQUE");
    let has_default = c.default_value.unicode_len() > 0;
    let mut d = String::from_str(" DEFAULT ");
    d.append(c.default_value.as_str());
    append_flag(&mut r, has_default, d.as_str());
    proof {
        reveal_strlit(" ");
        reveal_strlit(" PRIMARY KEY");
        reveal_strlit(" AUTOINCREMENT");
        reveal_strlit(" NOT NULL");
        reveal_strlit(" UNIQUE");
        reveal_strlit(" DEFAULT ");
    }
    assert(r@ =~= column_decl(c@));
    r
}

fn column_decl_texts(columns: &Vec<ColumnDef>) -> (r: Vec<String>)
    ensures
        texts(r@) == column_specs(columns@).map_values(|c: ColumnSpec| column_decl(c)),
{
    let mut r: Vec<String> = Vec::new();
    let mut i: usize = 0;
    while i < columns.len()
        invariant
            i <= columns@.len(),
            r@.len() == i,
            forall|j: int| 0 <= j < i ==> (#[trigger] r@[j])@ == column_decl(columns@[j]@),
        decreases columns@.len() - i,
    {
        r.push(column_decl_text(&columns[i]));
        i = i + 1;
    }
    assert(texts(r@) =~= column_specs(columns@).map_values(|c: ColumnSpec| column_decl(c)));
    r
}

fn quoted_joined(names: &Vec<String>) -> (r: String)
    ensures
        r@ == joined(quoted_all(texts(names@))),
{
    let q = quote_all(names);
    let mut r = String::new();
    append_joined(&mut r, &q);
    assert(r@ =~= joined(quoted_all(texts(names@))));
    r
}

fn table_item_texts(columns: &Vec<ColumnDef>, groups: &Vec<Vec<String>>, pk: &Vec<String>) -> (r: Vec<String>)
    ensures
        texts(r@) == table_items(column_specs(columns@), text_groups(groups@), texts(pk@)),
{
    let ghost expected = table_items(column_specs(columns@), text_groups(groups@), texts(pk@));
    let mut r: Vec<String> = Vec::new();
    let mut i: usize = 0;
    while i < columns.len()
        invariant
            i <= columns@.len(),
            r@.len() == i,
            forall|j: int| 0 <= j < i ==> (#[trigger] r@[j])@ == column_decl(columns@[j]@),
        decreases columns@.len() - i,
    {
        r.push(column_decl_text(&columns[i]));
        i = i + 1;
    }
    let mut k: usize = 0;
    while k < groups.len()
        invariant
            k <= groups@.len(),
            r@.len() == columns@.len() + k,
            forall|j: int| 0 <= j < columns@.len() ==> (#[trigger] r@[j])@ == column_decl(columns@[j]@),
            forall|j: int| 0 <= j < k ==> (#[trigger] r@[columns@.len() + j])@ == unique_clause(texts(groups@[j]@)),
        decreases groups@.len() - k,
    {
        let mut s = String::from_str("UNIQUE (");
        let inner = quoted_joined(&groups[k]);
        s.append(inner.as_str());
        s.append(")");
        proof {
            reveal_strlit("UNIQUE (");
            reveal_strlit(")");
        }
        assert(s@ =~= unique_clause(texts(groups@[k as int]@)));
        r.push(s);
        assert(r@[columns@.len() + k as int]@ == unique_clause(texts(groups@[k as int]@)));
        k = k + 1;
    }
    if pk.len() > 0 {
        let mut s = String::from_str("PRIMARY KEY (");
        let inner = quoted_joined(pk);
        s.append(inner.as_str());
        s.append(")");
        proof {
            reveal_strlit("PRIMARY KEY (");
            reveal_strlit(")");
        }
        assert(s@ =~= "PRIMARY KEY ("@ + joined(quoted_all(texts(pk@))) + ")"@);
        r.push(s);
    }
    let ghost ncols = columns@.len();
    let ghost ng = groups@.len();
    assert(expected.len() == r@.len());
    assert forall|j: int| 0 <= j < r@.len() implies #[trigger] texts(r@)[j] == expected[j] by {
        if j < ncols {
            assert(column_specs(columns@)[j] == columns@[j]@);
        } else if j < ncols + ng {
            assert(text_groups(groups@)[j - ncols] == texts(groups@[j - ncols]@));
            assert(r@[ncols + (j - ncols)] == r@[j]);
        }
    }
    assert(texts(r@) =~= expected);
    r
}

fn source_sql(s: &SourceExpr) -> (r: String)
    ensures
        r@ == source_text(s@),
{
    match s {
        SourceExpr::Column(c) => quote_ident(c.as_str()),
        SourceExpr::Expression(e) => e.clone(),
    }
}

fn mapping_targets(mappings: &Vec<ColumnMapping>) -> (r: Vec<String>)
    ensures
        texts(r@) == quoted_all(mapping_specs(mappings@).map_values(|m: MappingSpec| m.target)),
{
    let mut r: Vec<String> = Vec::new();
    let mut i: usize = 0;
    while i < mappings.len()
        invariant
            i <= mappings@.len(),
            r@.len() == i,
            forall|j: int| 0 <= j < i ==> (#[trigger] r@[j])@ == quoted(mappings@[j].target@),
        decreases mappings@.len() - i,
    {
        r.push(quote_ident(mappings[i].target.as_str()));
        i = i + 1;
    }
    assert(texts(r@) =~= quoted_all(mapping_specs(mappings@).map_values(|m: MappingSpec| m.target)));
    r
}

fn mapping_sources(mappings: &Vec<ColumnMapping>) -> (r: Vec<String>)
    ensures
        texts(r@) == mapping_specs(mappings@).map_values(|m: MappingSpec| source_text(m.source)),
{
    let mut r: Vec<String> = Vec::new();
    let mut i: usize = 0;
    while i < mappings.len()
        invariant
            i <= mappings@.len(),
            r@.len() == i,
            forall|j: int| 0 <= j < i ==> (#[trigger] r@[j])@ == source_text(mappings@[j].source@),
        decreases mappings@.len() - i,
    {
        r.push(source_sql(&mappings[i].source));
        i = i + 1;
    }
    assert(texts(r@) =~= mapping_specs(mappings@).map_values(|m: MappingSpec| source_text(m.source)));
    r
}

/// The SQL text of a statement.
pub fn statement_text(s: &Statement) -> (r: String)
    ensures
        r@ == statement_sql(s@),
{
    match s {
        Statement::CreateTable { table_name, columns, unique_groups, primary_key } => {
            let mut r = String::from_str("CREATE TABLE ");
            r.append(quote_ident(table_name.as_str()).as_str());
            r.append(" (");
            append_joined(&mut r, &table_item_texts(columns, unique_groups, primary_key));
            r.append(");");
            proof {
                reveal_strlit("CREATE TABLE ");
                reveal_strlit(" (");
                reveal_strlit(");");
            }
            assert(r@ =~= statement_sql(s@));
            r
        },
        Statement::CopyRows { into, from, mappings } => {
            let mut r = String::from_str("INSERT INTO ");
            r.append(quote_ident(into.as_str()).as_str());
            r.append(" (");
            append_joined(&mut r, &mapping_targets(mappings));
            r.append(") SELECT ");
            append_joined(&mut r, &mapping_sources(mappings));
            r.append(" FROM ");
            r.append(quote_ident(from.as_str()).as_str());
            r.append(";");
            proof {
                reveal_strlit("INSERT INTO ");
                reveal_strlit(" (");
                reveal_strlit(") SELECT ");
                reveal_strlit(" FROM ");
                reveal_strlit(";");
            }
            assert(r@ =~= statement_sql(s@));
            r
        },
        Statement::DropTable { table_name } => {
            let mut r = String::from_str("DROP TABLE ");
            r.append(quote_ident(table_name.as_str()).as_str());
            r.append(";");
            proof {
                reveal_strlit("DROP TABLE ");
                reveal_strlit(";");
            }
            assert(r@ =~= statement_sql(s@));
            r
        },
        Statement::RenameTable { from, to } => {
            let mut r = String::from_str("ALTER TABLE ");
            r.append(quote_ident(from.as_str()).as_str());
            r.append(" RENAME TO ");
            r.append(quote_ident(to.as_str()).as_str());
            r.append(";");
            proof {
                reveal_strlit("ALTER TABLE ");
                reveal_strlit(" RENAME TO ");
                reveal_strlit(";");
            }
            assert(r@ =~= statement_sql(s@));
            r
        },
        Statement::AddColumn { table_name, column } => {
            let mut r = String::from_str("ALTER TABLE ");
            r.append(quote_ident(table_name.as_str()).as_str());
            r.append(" ADD COLUMN ");
            r.append(column_decl_text(column).as_str());
            r.append(";");
            proof {
                reveal_strlit("ALTER TABLE ");
                reveal_strlit(" ADD COLUMN ");
                reveal_strlit(";");
            }
            assert(r@ =~= statement_sql(s@));
            r
        },
        Statement::CreateTableIfNotExists { table_name, columns } => {
            let mut r = String::from_str("CREATE TABLE IF NOT EXISTS ");
            r.append(quote_ident(table_name.as_str()).as_str());
            r.append(" (");
            append_joined(&mut r, &column_decl_texts(columns));
            r.append(");");
            proof {
                reveal_strlit("CREATE TABLE IF NOT EXISTS ");
                reveal_strlit(" (");
                reveal_strlit(");");
            }
            assert(r@ =~= statement_sql(s@));
            r
        },
        Statement::DropTableIfExists { table_name } => {
            let mut r = String::from_str("DROP TABLE IF EXISTS ");
            r.append(quote_ident(table_name.as_str()).as_str());
            r.append(";");
            proof {
                reveal_strlit("DROP TABLE IF EXISTS ");
                reveal_strlit(";");
            }
            assert(r@ =~= statement_sql(s@));
            r
        },
        Statement::CopyTable { from, to } => {
            let mut r = String::from_str("CREATE TABLE ");
            r.append(quote_ident(to.as_str()).as_str());
            r.append(" AS SELECT * FROM ");
            r.append(quote_ident(from.as_str()).as_str());
            r.append(";");
            proof {
                reveal_strlit("CREATE TABLE ");
                reveal_strlit(" AS SELECT * FROM ");
                reveal_strlit(";");
            }
            assert(r@ =~= statement_sql(s@));
            r
        },
        Statement::DropColumn { table_name, column_name } => {
            let mut r = String::from_str("ALTER TABLE ");
            r.append(quote_ident(table_name.as_str()).as_str());
            r.append(" DROP COLUMN ");
            r.append(quote_ident(column_name.as_str()).as_str());
            r.append(";");
            proof {
                reveal_strlit("ALTER TABLE ");
                reveal_strlit(" DROP COLUMN ");
                reveal_strlit(";");
            }
            assert(r@ =~= statement_sql(s@));
            r
        },
        Statement::CreateIndex { name, table_name, columns, unique, if_not_exists } => {
            let mut r = String::from_str("CREATE ");
            append_flag(&mut r, *unique, "UNIQUE ");
            r.append("INDEX ");
            append_flag(&mut r, *if_not_exists, "IF NOT EXISTS ");
            r.append(quote_ident(name.as_str()).as_str());
            r.append(" ON ");
            r.append(quote_ident(table_name.as_str()).as_str());
            r.append(" (");
            r.append(quoted_joined(columns).as_str());
            r.append(");");
            proof {
                reveal_strlit("CREATE ");
                reveal_strlit("UNIQUE ");
                reveal_strlit("INDEX ");
                reveal_strlit("IF NOT EXISTS ");
                reveal_strlit(" ON ");
                reveal_strlit(" (");
                reveal_strlit(");");
            }
            assert(r@ =~= statement_sql(s@));
            r
        },
    }
}

/// The label a failure of statement `s` of a rebuild carries.
pub open spec fn rebuild_label(s: StatementSpec) -> Seq<char> {
    "execute_delete_old_table_and_create_from_scratch: "@ + match s {
        StatementSpec::CreateTable { .. } => "create temp table"@,
        StatementSpec::CopyRows { .. } => "copy rows"@,
        StatementSpec::DropTable { .. } => "drop old table"@,
        StatementSpec::RenameTable { .. } => "rename"@,
        StatementSpec::CreateIndex { .. } => "recreate index"@,
        _ => "statement"@,
    }
}

fn rebuild_label_text(s: &Statement) -> (r: String)
    ensures
        r@ == rebuild_label(s@),
{
    let mut r = String::from_str("execute_delete_old_table_and_create_from_scratch: ");
    let step = match s {
        Statement::CreateTable { .. } => "create temp table",
        Statement::CopyRows { .. } => "copy rows",
        Statement::DropTable { .. } => "drop old table",
        Statement::RenameTable { .. } => "rename",
        Statement::CreateIndex { .. } => "recreate index",
        _ => "statement",
    };
    r.append(step);
    proof {
        reveal_strlit("execute_delete_old_table_and_create_from_scratch: ");
        reveal_strlit("create temp table");
        reveal_strlit("copy rows");
        reveal_strlit("drop old table");
        reveal_strlit("rename");
        reveal_strlit("recreate index");
        reveal_strlit("statement");
    }
    r
}

/// The labels of a rebuild's statements.
pub open spec fn rebuild_labels(v: Seq<StatementSpec>) -> Seq<Seq<char>> {
    v.map_values(|s: StatementSpec| rebuild_label(s))
}

fn rebuild_label_list(v: &Vec<Statement>) -> (r: Vec<String>)
    ensures
        r@.len() == v@.len(),
        texts(r@) == rebuild_labels(statement_specs(v@)),
{
    let mut r: Vec<String> = Vec::new();
    let mut i: usize = 0;
    while i < v.len()
        invariant
            i <= v@.len(),
            r@.len() == i,
            forall|j: int| 0 <= j < i ==> (#[trigger] r@[j])@ == rebuild_label(v@[j]@),
        decreases v@.len() - i,
    {
        r.push(rebuild_label_text(&v[i]));
        i = i + 1;
    }
    assert(texts(r@) =~= rebuild_labels(statement_specs(v@)));
    r
}

/// The message of a failed step: its label, SQLite's message and the
/// statement's text.
pub open spec fn step_failure(label: Seq<char>, message: Seq<char>, sql: Seq<char>) -> Seq<char> {
    label + " failed: "@ + message + ", sql: "@ + sql
}

/// `m` is the message of the failure of some statement of `stmts`, under its label.
pub open spec fn step_failed(labels: Seq<Seq<char>>, stmts: Seq<StatementSpec>, m: Seq<char>) -> bool {
    exists|k: int, msg: Seq<char>|
        0 <= k < stmts.len() && m == #[trigger] step_failure(labels[k], msg, statement_sql(stmts[k]))
}

/// The record of running every statement, each accepted.
pub open spec fn all_ran(stmts: Seq<StatementSpec>) -> Seq<SqlEvent> {
    stmts.map_values(|s: StatementSpec| ran(statement_sql(s), true))
}

/// The record of running the statements up to the `k`-th, which failed.
pub open spec fn failed_at(stmts: Seq<StatementSpec>, k: int) -> Seq<SqlEvent> {
    all_ran(stmts.take(k)).push(ran(statement_sql(stmts[k]), false))
}

/// `body` records running `stmts` in order up to the first that failed,
/// or all of them.
pub open spec fn steps_ran(stmts: Seq<StatementSpec>, body: Seq<SqlEvent>) -> bool {
    body == all_ran(stmts) || (1 <= body.len() <= stmts.len() && body == failed_at(stmts, body.len() - 1))
}

proof fn lemma_failed_is_not_all(stmts: Seq<StatementSpec>, k: int)
    requires
        0 <= k < stmts.len(),
    ensures
        failed_at(stmts, k) != all_ran(stmts),
{
    if failed_at(stmts, k).len() == all_ran(stmts).len() {
        assert(failed_at(stmts, k)[k] != all_ran(stmts)[k]);
    }
}

/// Runs the statements in order, each as one SQL statement, and stops at
/// the first that fails: `SqlExecuteFail` with its label, SQLite's message
/// and its text.
pub(crate) fn run_steps(conn: &rusqlite::Connection, log: &mut SqlLog, labels: &Vec<String>, statements: &Vec<Statement>) -> (r: Result<
    (),
    DbError,
>)
    requires
        labels@.len() == statements@.len(),
    ensures
        old(log)@.len() <= final(log)@.len(),
        r is Ok ==> final(log)@ == old(log)@ + all_ran(statement_specs(statements@)),
        r is Err ==> 0 <= final(log)@.len() - old(log)@.len() - 1 < statements@.len() && final(log)@ == old(log)@
            + failed_at(statement_specs(statements@), final(log)@.len() - old(log)@.len() - 1),
        r matches Err(e) ==> e matches DbError::SqlExecuteFail(m) && step_failed(
            texts(labels@),
            statement_specs(statements@),
            m@,
        ),
{
    let ghost l0 = log@;
    let ghost specs = statement_specs(statements@);
    let mut i: usize = 0;
    while i < statements.len()
        invariant
            i <= statements@.len(),
            labels@.len() == statements@.len(),
            specs == statement_specs(statements@),
            l0 == old(log)@,
            log@ == l0 + all_ran(specs.take(i as int)),
        decreases statements@.len() - i,
    {
        let sql = statement_text(&statements[i]);
        let ghost before = log@;
        match run_one(conn, log, sql.as_str()) {
            Ok(()) => {
                proof {
                    assert(specs[i as int] == statements@[i as int]@);
                    assert(all_ran(specs.take(i as int + 1)) =~= all_ran(specs.take(i as int)).push(
                        ran(statement_sql(specs[i as int]), true),
                    ));
                }
            },
            Err(message) => {
                let mut m = labels[i].clone();
                m.append(" failed: ");
                m.append(message.as_str());
                m.append(", sql: ");
                m.append(sql.as_str());
                proof {
                    reveal_strlit(" failed: ");
                    reveal_strlit(", sql: ");
                    assert(specs[i as int] == statements@[i as int]@);
                    assert(texts(labels@)[i as int] == labels@[i as int]@);
                    assert(m@ =~= step_failure(texts(labels@)[i as int], message@, statement_sql(specs[i as int])));
                    assert(sql@ == statement_sql(specs[i as int]));
                    assert(log@ == before.push(ran(statement_sql(specs[i as int]), false)));
                    assert(failed_at(specs, i as int) =~= all_ran(specs.take(i as int)).push(
                        ran(statement_sql(specs[i as int]), false),
                    ));
                    assert(all_ran(specs.take(i as int)).len() == i);
                    assert(log@ =~= l0 + failed_at(specs, i as int));
                    assert(log@.len() == l0.len() + i + 1);
                }
                return Err(DbError::SqlExecuteFail(m));
            },
        }
        i = i + 1;
    }
    assert(specs.take(i as int) =~= specs);
    Ok(())
}

/// The record of running `stmts` as one operation: the question whether a
/// transaction is open; where none is, `BEGIN IMMEDIATE`, and, where it was
/// accepted, the statements in order up to the first that failed, then
/// `COMMIT` where all were accepted and `ROLLBACK` otherwise; where one is
/// open, only the statements, and no `BEGIN`, `COMMIT` or `ROLLBACK`.
pub open spec fn operation_events(events: Seq<SqlEvent>, stmts: Seq<StatementSpec>) -> bool {
    &&& events.len() >= 1
    &&& events[0] == SqlEvent::Autocommit { answer: answer_at(events, 0) }
    &&& if answer_at(events, 0) {
        &&& events.len() >= 2
        &&& events[1] == ran(tx_sql(TxStatement::Begin), succeeded_at(events, 1))
        &&& if !succeeded_at(events, 1) {
            events.len() == 2
        } else {
            &&& events.len() >= 3
            &&& steps_ran(stmts, events.subrange(2, events.len() - 1))
            &&& events.last() == ran(
                tx_sql(
                    if events.subrange(2, events.len() - 1) == all_ran(stmts) {
                        TxStatement::Commit
                    } else {
                        TxStatement::Rollback
                    },
                ),
                succeeded_at(events, events.len() - 1),
            )
        }
    } else {
        steps_ran(stmts, events.subrange(1, events.len() as int))
    }
}

/// Whether the operation recorded by `events` succeeded: every statement
/// was accepted, and so were its own `BEGIN` and `COMMIT` where it ran them.
pub open spec fn operation_succeeded(events: Seq<SqlEvent>, stmts: Seq<StatementSpec>) -> bool {
    if answer_at(events, 0) {
        succeeded_at(events, 1) && events.subrange(2, events.len() - 1) == all_ran(stmts) && succeeded_at(
            events,
            events.len() - 1,
        )
    } else {
        events.subrange(1, events.len() as int) == all_ran(stmts)
    }
}

/// Runs the statements as one operation: inside the caller's transaction
/// where one is open, in one of its own otherwise, committed where every
/// statement was accepted and rolled back otherwise.
pub(crate) fn run_in_transaction(
    conn: &rusqlite::Connection,
    log: &mut SqlLog,
    labels: &Vec<String>,
    statements: &Vec<Statement>,
) -> (r: Result<(), DbError>)
    requires
        labels@.len() == statements@.len(),
    ensures
        old(log)@.len() <= final(log)@.len(),
        final(log)@.subrange(0, old(log)@.len() as int) == old(log)@,
        operation_events(final(log)@.skip(old(log)@.len() as int), statement_specs(statements@)),
        r is Ok <==> operation_succeeded(final(log)@.skip(old(log)@.len() as int), statement_specs(statements@)),
        r matches Err(e) ==> e matches DbError::SqlExecuteFail(m) && (statement_outcome(
            "begin_all_or_nothing"@,
            Err::<(), DbError>(e),
        ) || statement_outcome("everything_went_perfectly"@, Err::<(), DbError>(e)) || step_failed(
            texts(labels@),
            statement_specs(statements@),
            m@,
        )),
{
    let ghost l0 = log@;
    let ghost specs = statement_specs(statements@);
    let started = start_transaction_if_not_in_one(conn, log);
    let ghost l1 = log@;
    let ghost ac = answer_at(l1, l0.len() as int);
    let started_here = match started {
        Ok(b) => b,
        Err(e) => {
            proof {
                let ev = log@.skip(l0.len() as int);
                assert(ev =~= start_events(true, false));
                assert(answer_at(ev, 0));
                assert(log@.subrange(0, l0.len() as int) =~= l0);
            }
            return Err(e);
        },
    };
    let result = run_steps(conn, log, labels, statements);
    let ghost l2 = log@;
    let ghost body = l2.skip(l1.len() as int);
    proof {
        assert(l2 =~= l1 + body);
        if result is Err {
            let k = l2.len() - l1.len() - 1;
            assert(body =~= failed_at(specs, k));
            assert(failed_at(specs, k).len() == k + 1) by {
                assert(all_ran(specs.take(k)).len() == k);
            }
            lemma_failed_is_not_all(specs, k);
        } else {
            assert(body =~= all_ran(specs));
        }
        assert(steps_ran(specs, body));
        assert((body == all_ran(specs)) == (result is Ok));
    }
    let r = end_transaction_if_in_one(conn, log, started_here, result);
    proof {
        let l3 = log@;
        let ev = l3.skip(l0.len() as int);
        assert(l3.subrange(0, l0.len() as int) =~= l0);
        assert(started_here == ac);
        if ac {
            assert(ev =~= start_events(true, true) + body + end_events(true, result is Ok, succeeded_at(l3, l2.len() as int)));
            assert(ev.subrange(2, ev.len() - 1) =~= body);
            assert(succeeded_at(ev, ev.len() - 1) == succeeded_at(l3, l2.len() as int));
        } else {
            assert(ev =~= start_events(false, true) + body);
            assert(ev.subrange(1, ev.len() as int) =~= body);
        }
    }
    r
}

/// The transaction rule of an operation, read off its record: inside the
/// caller's transaction it runs only its statements, in order up to the
/// first failure (no `BEGIN`, `COMMIT` or `ROLLBACK`); otherwise it runs
/// `BEGIN IMMEDIATE` first, nothing more where that failed, and ends with
/// `COMMIT` where every statement was accepted and `ROLLBACK` where one
/// failed; and it succeeded exactly where every statement, and its own
/// `BEGIN` and `COMMIT`, were accepted.
pub proof fn lemma_operation_ends_what_it_began(events: Seq<SqlEvent>, stmts: Seq<StatementSpec>)
    requires
        operation_events(events, stmts),
    ensures
        !answer_at(events, 0) ==> steps_ran(stmts, events.skip(1)),
        answer_at(events, 0) ==> events[1] == ran("BEGIN IMMEDIATE"@, succeeded_at(events, 1)),
        answer_at(events, 0) && !succeeded_at(events, 1) ==> events.len() == 2,
        answer_at(events, 0) && succeeded_at(events, 1) ==> {
            let body = events.subrange(2, events.len() - 1);
            &&& steps_ran(stmts, body)
            &&& body == all_ran(stmts) ==> events.last() == ran("COMMIT"@, succeeded_at(events, events.len() - 1))
            &&& body != all_ran(stmts) ==> events.last() == ran("ROLLBACK"@, succeeded_at(events, events.len() - 1))
        },
        operation_succeeded(events, stmts) ==> if answer_at(events, 0) {
            events.subrange(2, events.len() - 1) == all_ran(stmts)
        } else {
            events.skip(1) == all_ran(stmts)
        },
{
    assert(events.skip(1) =~= events.subrange(1, events.len() as int));
}

/// Carries out a rebuild plan: its statements ([`rebuild_statements`]) as
/// one operation ([`operation_events`]): inside the caller's transaction
/// where one is open (no `BEGIN`, `COMMIT` or `ROLLBACK` then), otherwise
/// in one of its own, committed after success and rolled back after a
/// failure. A failure is `SqlExecuteFail`: starting the transaction, a
/// statement (named with its step and text), or the commit.
pub fn execute_delete_old_table_and_create_from_scratch(conn: &rusqlite::Connection, log: &mut SqlLog, plan: &RebuildPlan) -> (r: Result<
    (),
    DbError,
>)
    ensures
        old(log)@.len() <= final(log)@.len(),
        final(log)@.subrange(0, old(log)@.len() as int) == old(log)@,
        operation_events(final(log)@.skip(old(log)@.len() as int), rebuild_statement_specs(plan@)),
        r is Ok <==> operation_succeeded(final(log)@.skip(old(log)@.len() as int), rebuild_statement_specs(plan@)),
        r matches Err(e) ==> e matches DbError::SqlExecuteFail(m) && (statement_outcome(
            "begin_all_or_nothing"@,
            Err::<(), DbError>(e),
        ) || statement_outcome("everything_went_perfectly"@, Err::<(), DbError>(e)) || step_failed(
            rebuild_labels(rebuild_statement_specs(plan@)),
            rebuild_statement_specs(plan@),
            m@,
        )),
{
    let statements = rebuild_statements(plan);
    let labels = rebuild_label_list(&statements);
    run_in_transaction(conn, log, &labels, &statements)
}

} // verus!
