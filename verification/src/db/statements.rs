//! The statements the schema operations run, in order, as data: what each
//! creates, copies, drops, renames or indexes. Their SQL text is written by
//! `sql_text`.

use vstd::prelude::*;
use vstd::string::*;

use crate::db::black_magic::PreparedColumn;
use crate::db::black_magic::unique_index_name;
use crate::db::rebuild::{
    any_name_matches, drop_plan, lemma_drop_plan_keeps_keys_and_constraints, SnapshotSpec, clone_source, clone_strings, column_specs, index_specs, mapping_specs, temp_name, text_groups, texts, ColumnMapping, IndexState,
    IndexStateSpec, MappingSpec, PlanSpec, RebuildPlan,
};
use crate::protocol::new_table::{ColumnDef, ColumnSpec};

verus! {

/// One schema statement.
#[derive(Debug, Clone, PartialEq)]
pub enum Statement {
    /// `CREATE TABLE` with the columns, table-level `UNIQUE` groups and
    /// table-level primary key given.
    CreateTable { table_name: String, columns: Vec<ColumnDef>, unique_groups: Vec<Vec<String>>, primary_key: Vec<String> },
    /// `INSERT INTO into (targets) SELECT sources FROM from`.
    CopyRows { into: String, from: String, mappings: Vec<ColumnMapping> },
    /// `DROP TABLE`.
    DropTable { table_name: String },
    /// `ALTER TABLE from RENAME TO to`.
    RenameTable { from: String, to: String },
    /// `ALTER TABLE ... ADD COLUMN`.
    AddColumn { table_name: String, column: ColumnDef },
    /// `ALTER TABLE ... DROP COLUMN`.
    DropColumn { table_name: String, column_name: String },
    /// `CREATE [UNIQUE] INDEX [IF NOT EXISTS] name ON table_name (columns)`.
    CreateIndex { name: String, table_name: String, columns: Vec<String>, unique: bool, if_not_exists: bool },
    /// `CREATE TABLE IF NOT EXISTS` with the columns given.
    CreateTableIfNotExists { table_name: String, columns: Vec<ColumnDef> },
    /// `DROP TABLE IF EXISTS`.
    DropTableIfExists { table_name: String },
    /// `CREATE TABLE to AS SELECT * FROM from`.
    CopyTable { from: String, to: String },
}

pub enum StatementSpec {
    CreateTable {
        table_name: Seq<char>,
        columns: Seq<ColumnSpec>,
        unique_groups: Seq<Seq<Seq<char>>>,
        primary_key: Seq<Seq<char>>,
    },
    CopyRows { into: Seq<char>, from: Seq<char>, mappings: Seq<MappingSpec> },
    DropTable { table_name: Seq<char> },
    RenameTable { from: Seq<char>, to: Seq<char> },
    AddColumn { table_name: Seq<char>, column: ColumnSpec },
    DropColumn { table_name: Seq<char>, column_name: Seq<char> },
    CreateIndex { name: Seq<char>, table_name: Seq<char>, columns: Seq<Seq<char>>, unique: bool, if_not_exists: bool },
    CreateTableIfNotExists { table_name: Seq<char>, columns: Seq<ColumnSpec> },
    DropTableIfExists { table_name: Seq<char> },
    CopyTable { from: Seq<char>, to: Seq<char> },
}

impl View for Statement {
    type V = StatementSpec;

    open spec fn view(&self) -> StatementSpec {
        match self {
            Statement::CreateTable { table_name, columns, unique_groups, primary_key } => StatementSpec::CreateTable {
                table_name: table_name@,
                columns: column_specs(columns@),
                unique_groups: text_groups(unique_groups@),
                primary_key: texts(primary_key@),
            },
            Statement::CopyRows { into, from, mappings } => StatementSpec::CopyRows {
                into: into@,
                from: from@,
                mappings: mapping_specs(mappings@),
            },
            Statement::DropTable { table_name } => StatementSpec::DropTable { table_name: table_name@ },
            Statement::RenameTable { from, to } => StatementSpec::RenameTable { from: from@, to: to@ },
            Statement::AddColumn { table_name, column } => StatementSpec::AddColumn {
                table_name: table_name@,
                column: column@,
            },
            Statement::DropColumn { table_name, column_name } => StatementSpec::DropColumn {
                table_name: table_name@,
                column_name: column_name@,
            },
            Statement::CreateIndex { name, table_name, columns, unique, if_not_exists } => StatementSpec::CreateIndex {
                name: name@,
                table_name: table_name@,
                columns: texts(columns@),
                unique: *unique,
                if_not_exists: *if_not_exists,
            },
            Statement::CreateTableIfNotExists { table_name, columns } => StatementSpec::CreateTableIfNotExists {
                table_name: table_name@,
                columns: column_specs(columns@),
            },
            Statement::DropTableIfExists { table_name } => StatementSpec::DropTableIfExists { table_name: table_name@ },
            Statement::CopyTable { from, to } => StatementSpec::CopyTable { from: from@, to: to@ },
        }
    }
}

pub open spec fn statement_specs(v: Seq<Statement>) -> Seq<StatementSpec> {
    v.map_values(|s: Statement| s@)
}

/// The created index made again on the rebuilt table.
pub open spec fn recreated_index(table_name: Seq<char>, x: IndexStateSpec) -> StatementSpec {
    StatementSpec::CreateIndex {
        name: x.name,
        table_name,
        columns: x.columns,
        unique: x.is_unique,
        if_not_exists: false,
    }
}

/// `execute_delete_old_table_and_create_from_scratch`'s statements: create
/// the new table under the temporary name, copy the rows into it, drop the
/// old table, give the new one the old name, and make every created index
/// again, in the order the plan lists them.
pub open spec fn rebuild_statement_specs(p: PlanSpec) -> Seq<StatementSpec> {
    seq![
        StatementSpec::CreateTable {
            table_name: p.temp_table_name,
            columns: p.new_columns,
            unique_groups: p.composite_unique_groups,
            primary_key: p.composite_primary_key,
        },
        StatementSpec::CopyRows { into: p.temp_table_name, from: p.table_name, mappings: p.column_mappings },
        StatementSpec::DropTable { table_name: p.table_name },
        StatementSpec::RenameTable { from: p.temp_table_name, to: p.table_name },
    ] + p.index_state.map_values(|x: IndexStateSpec| recreated_index(p.table_name, x))
}

pub(crate) fn clone_columns(v: &Vec<ColumnDef>) -> (r: Vec<ColumnDef>)
    ensures
        column_specs(r@) == column_specs(v@),
{
    let mut r: Vec<ColumnDef> = Vec::new();
    let mut i: usize = 0;
    while i < v.len()
        invariant
            i <= v@.len(),
            r@.len() == i,
            forall|j: int| 0 <= j < i ==> (#[trigger] r@[j])@ == v@[j]@,
        decreases v@.len() - i,
    {
        let c = &v[i];
        r.push(ColumnDef {
            name: c.name.clone(),
            column_type: c.column_type.clone(),
            primary_key: c.primary_key,
            not_null: c.not_null,
            unique: c.unique,
            default_value: c.default_value.clone(),
            autoincrement: c.autoincrement,
        });
        i = i + 1;
    }
    assert(column_specs(r@) =~= column_specs(v@));
    r
}

fn clone_groups(v: &Vec<Vec<String>>) -> (r: Vec<Vec<String>>)
    ensures
        text_groups(r@) == text_groups(v@),
{
    let mut r: Vec<Vec<String>> = Vec::new();
    let mut i: usize = 0;
    while i < v.len()
        invariant
            i <= v@.len(),
            r@.len() == i,
            forall|j: int| 0 <= j < i ==> texts(#[trigger] r@[j]@) == texts(v@[j]@),
        decreases v@.len() - i,
    {
        r.push(clone_strings(&v[i]));
        i = i + 1;
    }
    assert(text_groups(r@) =~= text_groups(v@));
    r
}

fn clone_mappings(v: &Vec<ColumnMapping>) -> (r: Vec<ColumnMapping>)
    ensures
        mapping_specs(r@) == mapping_specs(v@),
{
    let mut r: Vec<ColumnMapping> = Vec::new();
    let mut i: usize = 0;
    while i < v.len()
        invariant
            i <= v@.len(),
            r@.len() == i,
            forall|j: int| 0 <= j < i ==> (#[trigger] r@[j])@ == v@[j]@,
        decreases v@.len() - i,
    {
        let m = &v[i];
        r.push(ColumnMapping { target: m.target.clone(), source: clone_source(&m.source) });
        i = i + 1;
    }
    assert(mapping_specs(r@) =~= mapping_specs(v@));
    r
}

/// The statements that carry out a rebuild plan, in the order they run.
pub fn rebuild_statements(plan: &RebuildPlan) -> (r: Vec<Statement>)
    ensures
        statement_specs(r@) == rebuild_statement_specs(plan@),
{
    let mut r: Vec<Statement> = Vec::new();
    r.push(Statement::CreateTable {
        table_name: plan.temp_table_name.clone(),
        columns: clone_columns(&plan.new_columns),
        unique_groups: clone_groups(&plan.composite_unique_groups),
        primary_key: clone_strings(&plan.composite_primary_key),
    });
    r.push(Statement::CopyRows {
        into: plan.temp_table_name.clone(),
        from: plan.table_name.clone(),
        mappings: clone_mappings(&plan.column_mappings),
    });
    r.push(Statement::DropTable { table_name: plan.table_name.clone() });
    r.push(Statement::RenameTable { from: plan.temp_table_name.clone(), to: plan.table_name.clone() });
    let ghost expected = rebuild_statement_specs(plan@);
    assert(statement_specs(r@) =~= expected.take(4));
    let ghost idx = index_specs(plan.index_state@);
    let mut i: usize = 0;
    while i < plan.index_state.len()
        invariant
            i <= plan.index_state@.len(),
            idx == index_specs(plan.index_state@),
            expected == rebuild_statement_specs(plan@),
            expected.len() == 4 + idx.len(),
            r@.len() == 4 + i,
            forall|j: int| 0 <= j < 4 + i ==> (#[trigger] r@[j])@ == expected[j],
        decreases plan.index_state@.len() - i,
    {
        let x = &plan.index_state[i];
        r.push(Statement::CreateIndex {
            name: x.name.clone(),
            table_name: plan.table_name.clone(),
            columns: clone_strings(&x.columns),
            unique: x.is_unique,
            if_not_exists: false,
        });
        assert(r@[4 + i as int]@ == expected[4 + i as int]);
        i = i + 1;
    }
    assert(statement_specs(r@) =~= rebuild_statement_specs(plan@));
    r
}

/// The migration's `add_column` statements: add the column, then, where
/// it asked to be unique, a unique index `uidx_<table>_<column>` on it.
pub fn add_column_statements(table_name: &str, prepared: &PreparedColumn) -> (r: Vec<Statement>)
    ensures
        statement_specs(r@) == seq![StatementSpec::AddColumn { table_name: table_name@, column: prepared.column@ }]
            + if prepared.wants_unique {
            seq![
                StatementSpec::CreateIndex {
                    name: "uidx_"@ + table_name@ + "_"@ + prepared.column.name@,
                    table_name: table_name@,
                    columns: seq![prepared.column.name@],
                    unique: true,
                    if_not_exists: true,
                },
            ]
        } else {
            Seq::<StatementSpec>::empty()
        },
{
    let c = &prepared.column;
    let mut r: Vec<Statement> = Vec::new();
    r.push(Statement::AddColumn {
        table_name: String::from_str(table_name),
        column: ColumnDef {
            name: c.name.clone(),
            column_type: c.column_type.clone(),
            primary_key: c.primary_key,
            not_null: c.not_null,
            unique: c.unique,
            default_value: c.default_value.clone(),
            autoincrement: c.autoincrement,
        },
    });
    if prepared.wants_unique {
        let columns = vec![c.name.clone()];
        assert(texts(columns@) =~= seq![c.name@]);
        r.push(Statement::CreateIndex {
            name: unique_index_name(table_name, c.name.as_str()),
            table_name: String::from_str(table_name),
            columns,
            unique: true,
            if_not_exists: true,
        });
    }
    proof {
        let expected = seq![StatementSpec::AddColumn { table_name: table_name@, column: prepared.column@ }]
            + if prepared.wants_unique {
            seq![
                StatementSpec::CreateIndex {
                    name: "uidx_"@ + table_name@ + "_"@ + prepared.column.name@,
                    table_name: table_name@,
                    columns: seq![prepared.column.name@],
                    unique: true,
                    if_not_exists: true,
                },
            ]
        } else {
            Seq::<StatementSpec>::empty()
        };
        assert(statement_specs(r@) =~= expected);
    }
    r
}

/// `make_col_disappear`'s statement where the column can be dropped in place.
pub fn drop_column_statement(table_name: &str, column_name: &str) -> (r: Statement)
    ensures
        r@ == (StatementSpec::DropColumn { table_name: table_name@, column_name: column_name@ }),
{
    Statement::DropColumn { table_name: String::from_str(table_name), column_name: String::from_str(column_name) }
}

/// `create_index`'s statement: index `idx_<table>_<column>` on the column,
/// if it does not exist yet.
pub fn create_index_statement(table_name: &str, column_name: &str) -> (r: Statement)
    ensures
        r@ == (StatementSpec::CreateIndex {
            name: "idx_"@ + table_name@ + "_"@ + column_name@,
            table_name: table_name@,
            columns: seq![column_name@],
            unique: false,
            if_not_exists: true,
        }),
{
    let columns = vec![String::from_str(column_name)];
    assert(texts(columns@) =~= seq![column_name@]);
    Statement::CreateIndex {
        name: crate::db::black_magic::index_name(table_name, column_name),
        table_name: String::from_str(table_name),
        columns,
        unique: false,
        if_not_exists: true,
    }
}

/// A rebuild replaces the table and makes every index of its plan again
/// exactly as the plan keeps it: it creates the new table under the
/// temporary name with the plan's columns and table-level constraints,
/// copies the rows through the plan's mappings, drops the old table, gives
/// the new one the old name, then runs one `CREATE INDEX` per index, in
/// order, on the rebuilt table, with the index's name and columns, unique
/// exactly where the index is.
pub proof fn lemma_rebuild_recreates_indexes_as_planned(plan: PlanSpec)
    ensures
        rebuild_statement_specs(plan).len() == 4 + plan.index_state.len(),
        rebuild_statement_specs(plan)[0] == (StatementSpec::CreateTable {
            table_name: plan.temp_table_name,
            columns: plan.new_columns,
            unique_groups: plan.composite_unique_groups,
            primary_key: plan.composite_primary_key,
        }),
        rebuild_statement_specs(plan)[1] == (StatementSpec::CopyRows {
            into: plan.temp_table_name,
            from: plan.table_name,
            mappings: plan.column_mappings,
        }),
        rebuild_statement_specs(plan)[2] == (StatementSpec::DropTable { table_name: plan.table_name }),
        rebuild_statement_specs(plan)[3] == (StatementSpec::RenameTable { from: plan.temp_table_name, to: plan.table_name }),
        forall|k: int| 0 <= k < plan.index_state.len() ==> #[trigger] rebuild_statement_specs(plan)[4 + k] == (StatementSpec::CreateIndex {
            name: plan.index_state[k].name,
            table_name: plan.table_name,
            columns: plan.index_state[k].columns,
            unique: plan.index_state[k].is_unique,
            if_not_exists: false,
        }),
{
}

/// Dropping a column by rebuilding makes every created index that does not
/// name the dropped column again on the table, with its name and columns,
/// unique exactly where it was.
pub proof fn lemma_drop_rebuild_keeps_indexes_and_their_uniqueness(
    table_name: Seq<char>,
    dropped: Seq<char>,
    snap: SnapshotSpec,
)
    ensures
        forall|k: int| 0 <= k < snap.index_state.len() && !any_name_matches(
            (#[trigger] snap.index_state[k]).columns,
            dropped,
        ) ==> rebuild_statement_specs(drop_plan(table_name, dropped, snap)).contains(
            StatementSpec::CreateIndex {
                name: snap.index_state[k].name,
                table_name,
                columns: snap.index_state[k].columns,
                unique: snap.index_state[k].is_unique,
                if_not_exists: false,
            },
        ),
{
    let p = drop_plan(table_name, dropped, snap);
    lemma_drop_plan_keeps_keys_and_constraints(table_name, dropped, snap);
    lemma_rebuild_recreates_indexes_as_planned(p);
    assert forall|k: int| 0 <= k < snap.index_state.len() && !any_name_matches(
        (#[trigger] snap.index_state[k]).columns,
        dropped,
    ) implies rebuild_statement_specs(p).contains(
        StatementSpec::CreateIndex {
            name: snap.index_state[k].name,
            table_name,
            columns: snap.index_state[k].columns,
            unique: snap.index_state[k].is_unique,
            if_not_exists: false,
        },
    ) by {
        assert(p.index_state.contains(snap.index_state[k]));
        let j = choose|j: int| 0 <= j < p.index_state.len() && p.index_state[j] == snap.index_state[k];
        assert(rebuild_statement_specs(p)[4 + j] == StatementSpec::CreateIndex {
            name: p.index_state[j].name,
            table_name: p.table_name,
            columns: p.index_state[j].columns,
            unique: p.index_state[j].is_unique,
            if_not_exists: false,
        });
    }
}

} // verus!
