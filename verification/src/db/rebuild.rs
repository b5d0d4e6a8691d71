//! Planning of the "rebuild the table" migrations: dropping a column that
//! SQLite cannot drop in place, and fundamentally editing a column. A plan
//! says which table to create under a temporary name, which columns and
//! table-level constraints it gets, how its rows are filled from the old
//! table, and which indexes are created again afterwards.

use vstd::prelude::*;
use vstd::string::*;

use crate::protocol::new_table::{ColumnDef, ColumnSpec};
use crate::protocol::error::DbError;
use crate::protocol::payload::{ColumnSource, FundamentallyEditExistingColIn, TableColumnInfo, TableColumnSpec};
use crate::text::{eq_ignore_ascii_case, names_match, str_eq};

verus! {

/// The texts of a list of strings.
pub open spec fn texts(v: Seq<String>) -> Seq<Seq<char>> {
    v.map_values(|s: String| s@)
}

/// The texts of a list of lists of strings.
pub open spec fn text_groups(v: Seq<Vec<String>>) -> Seq<Seq<Seq<char>>> {
    v.map_values(|g: Vec<String>| texts(g@))
}

/// `name`, or `new_name` where `name` is `old_name` up to ASCII case.
pub open spec fn renamed(name: Seq<char>, old_name: Seq<char>, new_name: Seq<char>) -> Seq<char> {
    if names_match(name, old_name) { new_name } else { name }
}

/// Some entry of `list` is `name` up to ASCII case.
pub open spec fn any_name_matches(list: Seq<Seq<char>>, name: Seq<char>) -> bool {
    exists|i: int| 0 <= i < list.len() && names_match(#[trigger] list[i], name)
}

/// The members of the one-column groups, in order.
pub open spec fn single_members(groups: Seq<Seq<Seq<char>>>) -> Seq<Seq<char>>
    decreases groups.len(),
{
    if groups.len() == 0 {
        seq![]
    } else if groups.last().len() == 1 {
        single_members(groups.drop_last()).push(groups.last()[0])
    } else {
        single_members(groups.drop_last())
    }
}

/// The groups of other than one column, in order.
pub open spec fn composite_groups(groups: Seq<Seq<Seq<char>>>) -> Seq<Seq<Seq<char>>>
    decreases groups.len(),
{
    if groups.len() == 0 {
        seq![]
    } else if groups.last().len() == 1 {
        composite_groups(groups.drop_last())
    } else {
        composite_groups(groups.drop_last()).push(groups.last())
    }
}

pub(crate) fn clone_strings(v: &Vec<String>) -> (r: Vec<String>)
    ensures
        texts(r@) == texts(v@),
{
    let mut r: Vec<String> = Vec::new();
    let mut i: usize = 0;
    while i < v.len()
        invariant
            i <= v@.len(),
            r@.len() == i,
            forall|j: int| 0 <= j < i ==> #[trigger] r@[j]@ == v@[j]@,
        decreases v@.len() - i,
    {
        r.push(v[i].clone());
        i = i + 1;
    }
    assert(texts(r@) =~= texts(v@));
    r
}

/// `rename_col`: the new name where `name` is the renamed column.
pub fn rename_col(name: String, old_name: &str, new_name: &str) -> (r: String)
    ensures
        r@ == renamed(name@, old_name@, new_name@),
{
    if eq_ignore_ascii_case(name.as_str(), old_name) {
        String::from_str(new_name)
    } else {
        name
    }
}

/// Renames every name of `names`.
pub fn rename_all(names: &Vec<String>, old_name: &str, new_name: &str) -> (r: Vec<String>)
    ensures
        r@.len() == names@.len(),
        forall|i: int| 0 <= i < names@.len() ==> #[trigger] r@[i]@ == renamed(names@[i]@, old_name@, new_name@),
{
    let mut r: Vec<String> = Vec::new();
    let mut i: usize = 0;
    while i < names.len()
        invariant
            i <= names@.len(),
            r@.len() == i,
            forall|j: int| 0 <= j < i ==> #[trigger] r@[j]@ == renamed(names@[j]@, old_name@, new_name@),
        decreases names@.len() - i,
    {
        r.push(rename_col(names[i].clone(), old_name, new_name));
        i = i + 1;
    }
    r
}

/// Some name of `list` is `name` up to ASCII case.
pub fn any_matches(list: &Vec<String>, name: &str) -> (r: bool)
    ensures
        r == any_name_matches(texts(list@), name@),
{
    let mut i: usize = 0;
    while i < list.len()
        invariant
            i <= list@.len(),
            forall|j: int| 0 <= j < i ==> !names_match(#[trigger] texts(list@)[j], name@),
        decreases list@.len() - i,
    {
        if eq_ignore_ascii_case(list[i].as_str(), name) {
            assert(names_match(texts(list@)[i as int], name@));
            return true;
        }
        i = i + 1;
    }
    false
}

/// Splits unique-constraint groups into the members of the one-column
/// groups and the groups of several columns, both in order.
pub fn split_unique_groups(groups: &Vec<Vec<String>>) -> (r: (Vec<String>, Vec<Vec<String>>))
    ensures
        texts(r.0@) == single_members(text_groups(groups@)),
        text_groups(r.1@) == composite_groups(text_groups(groups@)),
{
    let mut singles: Vec<String> = Vec::new();
    let mut composites: Vec<Vec<String>> = Vec::new();
    let mut i: usize = 0;
    while i < groups.len()
        invariant
            i <= groups@.len(),
            texts(singles@) == single_members(text_groups(groups@.take(i as int))),
            text_groups(composites@) == composite_groups(text_groups(groups@.take(i as int))),
        decreases groups@.len() - i,
    {
        let ghost before = groups@.take(i as int);
        let ghost after = groups@.take(i as int + 1);
        assert(text_groups(after).drop_last() =~= text_groups(before));
        assert(text_groups(after).last() == texts(groups@[i as int]@));
        if groups[i].len() == 1 {
            singles.push(groups[i][0].clone());
            assert(texts(singles@) =~= single_members(text_groups(after)));
            assert(text_groups(composites@) =~= composite_groups(text_groups(after)));
        } else {
            composites.push(clone_strings(&groups[i]));
            assert(texts(singles@) =~= single_members(text_groups(after)));
            assert(text_groups(composites@) =~= composite_groups(text_groups(after)));
        }
        i = i + 1;
    }
    assert(groups@.take(i as int) =~= groups@);
    (singles, composites)
}

/// The text of an optional string.
pub open spec fn opt_text(o: Option<String>) -> Option<Seq<char>> {
    match o {
        Some(s) => Some(s@),
        None => None,
    }
}

/// The values of a list of column definitions.
pub open spec fn column_specs(v: Seq<ColumnDef>) -> Seq<ColumnSpec> {
    v.map_values(|c: ColumnDef| c@)
}

/// The values of a list of `PRAGMA table_info` lines.
pub open spec fn info_specs(v: Seq<TableColumnInfo>) -> Seq<TableColumnSpec> {
    v.map_values(|c: TableColumnInfo| c@)
}

/// A created index (one not made by SQLite for a constraint) as it has to
/// be created again: its name, its columns in order, and whether it is unique.
#[derive(Debug, Clone, PartialEq)]
pub struct IndexState {
    pub name: String,
    pub columns: Vec<String>,
    pub is_unique: bool,
}

pub struct IndexStateSpec {
    pub name: Seq<char>,
    pub columns: Seq<Seq<char>>,
    pub is_unique: bool,
}

impl View for IndexState {
    type V = IndexStateSpec;

    open spec fn view(&self) -> IndexStateSpec {
        IndexStateSpec { name: self.name@, columns: texts(self.columns@), is_unique: self.is_unique }
    }
}

pub open spec fn index_specs(v: Seq<IndexState>) -> Seq<IndexStateSpec> {
    v.map_values(|x: IndexState| x@)
}

/// Where a column of the rebuilt table takes its values from: a column of
/// the old table (to be written as a quoted identifier), or an SQL
/// expression over the old table's columns.
#[derive(Debug, Clone, PartialEq)]
pub enum SourceExpr {
    Column(String),
    Expression(String),
}

pub enum SourceSpec {
    Column(Seq<char>),
    Expression(Seq<char>),
}

impl View for SourceExpr {
    type V = SourceSpec;

    open spec fn view(&self) -> SourceSpec {
        match self {
            SourceExpr::Column(c) => SourceSpec::Column(c@),
            SourceExpr::Expression(e) => SourceSpec::Expression(e@),
        }
    }
}

/// A column of the rebuilt table and where its values come from. Columns
/// without a mapping are left to their default (or NULL).
#[derive(Debug, Clone, PartialEq)]
pub struct ColumnMapping {
    pub target: String,
    pub source: SourceExpr,
}

pub struct MappingSpec {
    pub target: Seq<char>,
    pub source: SourceSpec,
}

impl View for ColumnMapping {
    type V = MappingSpec;

    open spec fn view(&self) -> MappingSpec {
        MappingSpec { target: self.target@, source: self.source@ }
    }
}

pub open spec fn mapping_specs(v: Seq<ColumnMapping>) -> Seq<MappingSpec> {
    v.map_values(|m: ColumnMapping| m@)
}

/// What the database says about a table before it is rebuilt: its columns
/// (`PRAGMA table_info`), the column groups of its inline `UNIQUE`
/// constraints, its created indexes, and its `AUTOINCREMENT` column.
#[derive(Debug, Clone)]
pub struct TableSnapshot {
    pub columns: Vec<TableColumnInfo>,
    pub unique_groups: Vec<Vec<String>>,
    pub index_state: Vec<IndexState>,
    pub autoincrement_col: Option<String>,
}

pub struct SnapshotSpec {
    pub columns: Seq<TableColumnSpec>,
    pub unique_groups: Seq<Seq<Seq<char>>>,
    pub index_state: Seq<IndexStateSpec>,
    pub autoincrement_col: Option<Seq<char>>,
}

impl View for TableSnapshot {
    type V = SnapshotSpec;

    open spec fn view(&self) -> SnapshotSpec {
        SnapshotSpec {
            columns: info_specs(self.columns@),
            unique_groups: text_groups(self.unique_groups@),
            index_state: index_specs(self.index_state@),
            autoincrement_col: opt_text(self.autoincrement_col),
        }
    }
}

/// How a table is rebuilt: created as `temp_table_name` with `new_columns`
/// and the table-level `UNIQUE` groups and composite primary key given,
/// filled from `table_name` through `column_mappings`, then put in place of
/// `table_name`, whose created indexes are made again as `index_state` says.
#[derive(Debug, Clone)]
pub struct RebuildPlan {
    pub table_name: String,
    pub temp_table_name: String,
    pub new_columns: Vec<ColumnDef>,
    pub index_state: Vec<IndexState>,
    pub composite_unique_groups: Vec<Vec<String>>,
    pub composite_primary_key: Vec<String>,
    pub column_mappings: Vec<ColumnMapping>,
}

pub struct PlanSpec {
    pub table_name: Seq<char>,
    pub temp_table_name: Seq<char>,
    pub new_columns: Seq<ColumnSpec>,
    pub index_state: Seq<IndexStateSpec>,
    pub composite_unique_groups: Seq<Seq<Seq<char>>>,
    pub composite_primary_key: Seq<Seq<char>>,
    pub column_mappings: Seq<MappingSpec>,
}

impl View for RebuildPlan {
    type V = PlanSpec;

    open spec fn view(&self) -> PlanSpec {
        PlanSpec {
            table_name: self.table_name@,
            temp_table_name: self.temp_table_name@,
            new_columns: column_specs(self.new_columns@),
            index_state: index_specs(self.index_state@),
            composite_unique_groups: text_groups(self.composite_unique_groups@),
            composite_primary_key: texts(self.composite_primary_key@),
            column_mappings: mapping_specs(self.column_mappings@),
        }
    }
}

/// The name the rebuilt table is created under.
pub open spec fn temp_name(table_name: Seq<char>) -> Seq<char> {
    table_name + "__rebuild_tmp"@
}

/// A surviving column as the rebuilt table declares it: its own type, not
/// null flag and default; primary key only where the key is not composite;
/// unique where it is a one-column inline unique group; autoincrement where
/// it is the table's autoincrement column.
pub open spec fn rebuilt_column(
    c: TableColumnSpec,
    single_unique: Seq<Seq<char>>,
    keep_pk_flags: bool,
    autoinc: Option<Seq<char>>,
) -> ColumnSpec {
    ColumnSpec {
        name: c.name,
        column_type: c.declared_type,
        primary_key: c.primary_key && keep_pk_flags,
        not_null: c.not_null,
        unique: any_name_matches(single_unique, c.name),
        default_value: match c.default_value {
            Some(d) => d,
            None => Seq::empty(),
        },
        autoincrement: autoinc == Some(c.name),
    }
}

/// The primary-key columns other than `dropped`, in order.
pub open spec fn pk_names_except(cols: Seq<TableColumnSpec>, dropped: Seq<char>) -> Seq<Seq<char>>
    decreases cols.len(),
{
    if cols.len() == 0 {
        seq![]
    } else if cols.last().primary_key && cols.last().name != dropped {
        pk_names_except(cols.drop_last(), dropped).push(cols.last().name)
    } else {
        pk_names_except(cols.drop_last(), dropped)
    }
}

/// The key as a table-level constraint: the names where there are several,
/// none otherwise.
pub open spec fn composite_key(pk: Seq<Seq<char>>) -> Seq<Seq<char>> {
    if pk.len() > 1 { pk } else { seq![] }
}

/// The rebuilt declarations of the columns other than `dropped`, in order.
pub open spec fn kept_columns(
    cols: Seq<TableColumnSpec>,
    dropped: Seq<char>,
    single_unique: Seq<Seq<char>>,
    keep_pk_flags: bool,
    autoinc: Option<Seq<char>>,
) -> Seq<ColumnSpec>
    decreases cols.len(),
{
    if cols.len() == 0 {
        seq![]
    } else if cols.last().name == dropped {
        kept_columns(cols.drop_last(), dropped, single_unique, keep_pk_flags, autoinc)
    } else {
        kept_columns(cols.drop_last(), dropped, single_unique, keep_pk_flags, autoinc).push(
            rebuilt_column(cols.last(), single_unique, keep_pk_flags, autoinc),
        )
    }
}

/// Every column filled from the old column of the same name.
pub open spec fn same_name_mappings(cols: Seq<ColumnSpec>) -> Seq<MappingSpec> {
    cols.map_values(|c: ColumnSpec| MappingSpec { target: c.name, source: SourceSpec::Column(c.name) })
}

/// The created indexes that name no column `dropped` (up to ASCII case), in order.
pub open spec fn indexes_without(states: Seq<IndexStateSpec>, dropped: Seq<char>) -> Seq<IndexStateSpec>
    decreases states.len(),
{
    if states.len() == 0 {
        seq![]
    } else if any_name_matches(states.last().columns, dropped) {
        indexes_without(states.drop_last(), dropped)
    } else {
        indexes_without(states.drop_last(), dropped).push(states.last())
    }
}

/// The column groups that name no column `dropped` (up to ASCII case), in order.
pub open spec fn groups_without(groups: Seq<Seq<Seq<char>>>, dropped: Seq<char>) -> Seq<Seq<Seq<char>>>
    decreases groups.len(),
{
    if groups.len() == 0 {
        seq![]
    } else if any_name_matches(groups.last(), dropped) {
        groups_without(groups.drop_last(), dropped)
    } else {
        groups_without(groups.drop_last(), dropped).push(groups.last())
    }
}

/// The plan that drops `dropped` from `table_name` by rebuilding it: the
/// created indexes and the table-level unique constraints that name the
/// dropped column go with it.
pub open spec fn drop_plan(table_name: Seq<char>, dropped: Seq<char>, snap: SnapshotSpec) -> PlanSpec {
    let single = single_members(snap.unique_groups);
    let pk = composite_key(pk_names_except(snap.columns, dropped));
    let cols = kept_columns(snap.columns, dropped, single, pk.len() == 0, snap.autoincrement_col);
    PlanSpec {
        table_name,
        temp_table_name: temp_name(table_name),
        new_columns: cols,
        index_state: indexes_without(snap.index_state, dropped),
        composite_unique_groups: groups_without(composite_groups(snap.unique_groups), dropped),
        composite_primary_key: pk,
        column_mappings: same_name_mappings(cols),
    }
}

/// A surviving column as the rebuilt table declares it.
pub fn rebuild_column(
    c: &TableColumnInfo,
    single_unique: &Vec<String>,
    keep_pk_flags: bool,
    autoinc: &Option<String>,
) -> (r: ColumnDef)
    ensures
        r@ == rebuilt_column(c@, texts(single_unique@), keep_pk_flags, opt_text(*autoinc)),
{
    let is_autoinc = match autoinc {
        Some(a) => *a == c.name,
        None => false,
    };
    let default_value = match &c.default_value {
        Some(d) => d.clone(),
        None => String::new(),
    };
    ColumnDef {
        name: c.name.clone(),
        column_type: c.declared_type.clone(),
        primary_key: c.primary_key && keep_pk_flags,
        not_null: c.not_null,
        unique: any_matches(single_unique, c.name.as_str()),
        default_value,
        autoincrement: is_autoinc,
    }
}

fn indexes_not_naming(v: &Vec<IndexState>, dropped: &str) -> (r: Vec<IndexState>)
    ensures
        index_specs(r@) == indexes_without(index_specs(v@), dropped@),
{
    let ghost specs = index_specs(v@);
    let mut r: Vec<IndexState> = Vec::new();
    let mut i: usize = 0;
    while i < v.len()
        invariant
            i <= v@.len(),
            specs == index_specs(v@),
            index_specs(r@) == indexes_without(specs.take(i as int), dropped@),
        decreases v@.len() - i,
    {
        assert(specs.take(i as int + 1).drop_last() =~= specs.take(i as int));
        let x = &v[i];
        assert(specs.take(i as int + 1).last() == x@);
        if !any_matches(&x.columns, dropped) {
            r.push(IndexState { name: x.name.clone(), columns: clone_strings(&x.columns), is_unique: x.is_unique });
        }
        assert(index_specs(r@) =~= indexes_without(specs.take(i as int + 1), dropped@));
        i = i + 1;
    }
    assert(specs.take(i as int) =~= specs);
    r
}

fn groups_not_naming(groups: &Vec<Vec<String>>, dropped: &str) -> (r: Vec<Vec<String>>)
    ensures
        text_groups(r@) == groups_without(text_groups(groups@), dropped@),
{
    let ghost g = text_groups(groups@);
    let mut r: Vec<Vec<String>> = Vec::new();
    let mut i: usize = 0;
    while i < groups.len()
        invariant
            i <= groups@.len(),
            g == text_groups(groups@),
            text_groups(r@) == groups_without(g.take(i as int), dropped@),
        decreases groups@.len() - i,
    {
        assert(g.take(i as int + 1).drop_last() =~= g.take(i as int));
        assert(g.take(i as int + 1).last() == texts(groups@[i as int]@));
        if !any_matches(&groups[i], dropped) {
            r.push(clone_strings(&groups[i]));
        }
        assert(text_groups(r@) =~= groups_without(g.take(i as int + 1), dropped@));
        i = i + 1;
    }
    assert(g.take(i as int) =~= g);
    r
}

/// `table_name` followed by the temporary-table suffix.
pub fn temp_table_name(table_name: &str) -> (r: String)
    ensures
        r@ == temp_name(table_name@),
{
    let mut r = String::from_str(table_name);
    r.append("__rebuild_tmp");
    r
}

fn primary_keys_except(cols: &Vec<TableColumnInfo>, dropped: &str) -> (r: Vec<String>)
    ensures
        texts(r@) == pk_names_except(info_specs(cols@), dropped@),
{
    let ghost specs = info_specs(cols@);
    let mut r: Vec<String> = Vec::new();
    let mut i: usize = 0;
    while i < cols.len()
        invariant
            i <= cols@.len(),
            specs == info_specs(cols@),
            texts(r@) == pk_names_except(specs.take(i as int), dropped@),
        decreases cols@.len() - i,
    {
        let ghost before = specs.take(i as int);
        assert(specs.take(i as int + 1).drop_last() =~= before);
        let c = &cols[i];
        assert(specs.take(i as int + 1).last() == c@);
        if c.primary_key && !str_eq(c.name.as_str(), dropped) {
            r.push(c.name.clone());
            assert(texts(r@) =~= pk_names_except(specs.take(i as int + 1), dropped@));
        } else {
            assert(texts(r@) =~= pk_names_except(specs.take(i as int + 1), dropped@));
        }
        i = i + 1;
    }
    assert(specs.take(i as int) =~= specs);
    r
}

fn composite_key_of(pk: Vec<String>) -> (r: Vec<String>)
    ensures
        texts(r@) == composite_key(texts(pk@)),
{
    if pk.len() > 1 {
        pk
    } else {
        let r: Vec<String> = Vec::new();
        assert(texts(r@) =~= Seq::<Seq<char>>::empty());
        r
    }
}

fn same_name_mapping_list(cols: &Vec<ColumnDef>) -> (r: Vec<ColumnMapping>)
    ensures
        mapping_specs(r@) == same_name_mappings(column_specs(cols@)),
{
    let mut r: Vec<ColumnMapping> = Vec::new();
    let mut i: usize = 0;
    while i < cols.len()
        invariant
            i <= cols@.len(),
            r@.len() == i,
            forall|j: int| 0 <= j < i ==> #[trigger] r@[j]@ == (MappingSpec {
                target: cols@[j].name@,
                source: SourceSpec::Column(cols@[j].name@),
            }),
        decreases cols@.len() - i,
    {
        r.push(ColumnMapping { target: cols[i].name.clone(), source: SourceExpr::Column(cols[i].name.clone()) });
        i = i + 1;
    }
    assert(mapping_specs(r@) =~= same_name_mappings(column_specs(cols@)));
    r
}

/// `remake_entire_table_from_scratch`: the plan that removes `column_name`
/// from `table_name` by rebuilding the table, given what the database says
/// about it. One-column inline unique groups become per-column `UNIQUE`
/// flags and the other groups table-level constraints, except those that
/// name the removed column; a primary key left with several columns becomes
/// a table-level key; the created indexes that do not name the removed
/// column are made again unchanged; every surviving column is copied by name.
pub fn remake_entire_table_from_scratch(
    table_name: &str,
    column_name: &str,
    snapshot: &TableSnapshot,
) -> (r: RebuildPlan)
    ensures
        r@ == drop_plan(table_name@, column_name@, snapshot@),
{
    let (single, composites) = split_unique_groups(&snapshot.unique_groups);
    let pk = composite_key_of(primary_keys_except(&snapshot.columns, column_name));
    let keep_pk_flags = pk.len() == 0;
    let ghost specs = info_specs(snapshot.columns@);
    let mut new_columns: Vec<ColumnDef> = Vec::new();
    let mut i: usize = 0;
    while i < snapshot.columns.len()
        invariant
            i <= snapshot.columns@.len(),
            specs == info_specs(snapshot.columns@),
            column_specs(new_columns@) == kept_columns(
                specs.take(i as int),
                column_name@,
                texts(single@),
                keep_pk_flags,
                opt_text(snapshot.autoincrement_col),
            ),
        decreases snapshot.columns@.len() - i,
    {
        assert(specs.take(i as int + 1).drop_last() =~= specs.take(i as int));
        let c = &snapshot.columns[i];
        assert(specs.take(i as int + 1).last() == c@);
        if str_eq(c.name.as_str(), column_name) {
            assert(column_specs(new_columns@) =~= kept_columns(
                specs.take(i as int + 1),
                column_name@,
                texts(single@),
                keep_pk_flags,
                opt_text(snapshot.autoincrement_col),
            ));
        } else {
            let d = rebuild_column(c, &single, keep_pk_flags, &snapshot.autoincrement_col);
            new_columns.push(d);
            assert(column_specs(new_columns@) =~= kept_columns(
                specs.take(i as int + 1),
                column_name@,
                texts(single@),
                keep_pk_flags,
                opt_text(snapshot.autoincrement_col),
            ));
        }
        i = i + 1;
    }
    assert(specs.take(i as int) =~= specs);
    let column_mappings = same_name_mapping_list(&new_columns);
    RebuildPlan {
        table_name: String::from_str(table_name),
        temp_table_name: temp_table_name(table_name),
        new_columns,
        index_state: indexes_not_naming(&snapshot.index_state, column_name),
        composite_unique_groups: groups_not_naming(&composites, column_name),
        composite_primary_key: pk,
        column_mappings,
    }
}

/// Every group with each member renamed.
pub open spec fn renamed_groups(groups: Seq<Seq<Seq<char>>>, old_name: Seq<char>, new_name: Seq<char>) -> Seq<Seq<Seq<char>>> {
    groups.map_values(|g: Seq<Seq<char>>| g.map_values(|n: Seq<char>| renamed(n, old_name, new_name)))
}

/// Every created index with its columns renamed.
pub open spec fn renamed_indexes(states: Seq<IndexStateSpec>, old_name: Seq<char>, new_name: Seq<char>) -> Seq<IndexStateSpec> {
    states.map_values(|x: IndexStateSpec| IndexStateSpec {
        name: x.name,
        columns: x.columns.map_values(|n: Seq<char>| renamed(n, old_name, new_name)),
        is_unique: x.is_unique,
    })
}

/// The primary-key columns, with the edited one renamed, in order.
pub open spec fn pk_names_renamed(cols: Seq<TableColumnSpec>, old_name: Seq<char>, new_name: Seq<char>) -> Seq<Seq<char>>
    decreases cols.len(),
{
    if cols.len() == 0 {
        seq![]
    } else if cols.last().primary_key {
        pk_names_renamed(cols.drop_last(), old_name, new_name).push(renamed(cols.last().name, old_name, new_name))
    } else {
        pk_names_renamed(cols.drop_last(), old_name, new_name)
    }
}

/// The edited column's new declaration: as requested, unique also where it
/// is a one-column inline unique group, primary key only where the key is
/// not composite.
pub open spec fn edited_column(new_col: ColumnSpec, single_unique: Seq<Seq<char>>, keep_pk_flags: bool) -> ColumnSpec {
    ColumnSpec {
        name: new_col.name,
        column_type: new_col.column_type,
        primary_key: new_col.primary_key && keep_pk_flags,
        not_null: new_col.not_null,
        unique: new_col.unique || any_name_matches(single_unique, new_col.name),
        default_value: new_col.default_value,
        autoincrement: new_col.autoincrement,
    }
}

/// The columns of the rebuilt table: the edited one replaced, the others rebuilt.
pub open spec fn edited_columns(
    cols: Seq<TableColumnSpec>,
    old_name: Seq<char>,
    new_col: ColumnSpec,
    single_unique: Seq<Seq<char>>,
    keep_pk_flags: bool,
    autoinc: Option<Seq<char>>,
) -> Seq<ColumnSpec>
    decreases cols.len(),
{
    if cols.len() == 0 {
        seq![]
    } else {
        let rest = edited_columns(cols.drop_last(), old_name, new_col, single_unique, keep_pk_flags, autoinc);
        if cols.last().name == old_name {
            rest.push(edited_column(new_col, single_unique, keep_pk_flags))
        } else {
            rest.push(rebuilt_column(cols.last(), single_unique, keep_pk_flags, autoinc))
        }
    }
}

/// Where the edited column's values come from, if anywhere.
pub open spec fn resolved_source(old_name: Seq<char>, source: ColumnSource) -> Option<SourceSpec> {
    match source {
        ColumnSource::SameName => Some(SourceSpec::Column(old_name)),
        ColumnSource::FromColumn(c) => Some(SourceSpec::Column(c@)),
        ColumnSource::Expression(e) => Some(SourceSpec::Expression(e@)),
        ColumnSource::UseDefault => None,
    }
}

/// The copy of the rows: the edited column from its source (or not at all),
/// every other column by its name.
pub open spec fn edit_mappings(
    cols: Seq<TableColumnSpec>,
    old_name: Seq<char>,
    new_name: Seq<char>,
    source: Option<SourceSpec>,
) -> Seq<MappingSpec>
    decreases cols.len(),
{
    if cols.len() == 0 {
        seq![]
    } else {
        let rest = edit_mappings(cols.drop_last(), old_name, new_name, source);
        if cols.last().name == old_name {
            match source {
                Some(e) => rest.push(MappingSpec { target: new_name, source: e }),
                None => rest,
            }
        } else {
            rest.push(MappingSpec { target: cols.last().name, source: SourceSpec::Column(cols.last().name) })
        }
    }
}

/// The plan that replaces column `old_name` of `table_name` by `new_col`,
/// filled from `source`; every reference to the column by name (unique
/// groups, indexes, the key) follows it to its new name.
pub open spec fn edit_plan(
    table_name: Seq<char>,
    old_name: Seq<char>,
    new_col: ColumnSpec,
    source: ColumnSource,
    snap: SnapshotSpec,
) -> PlanSpec {
    let groups = renamed_groups(snap.unique_groups, old_name, new_col.name);
    let single = single_members(groups);
    let pk = composite_key(pk_names_renamed(snap.columns, old_name, new_col.name));
    PlanSpec {
        table_name,
        temp_table_name: temp_name(table_name),
        new_columns: edited_columns(snap.columns, old_name, new_col, single, pk.len() == 0, snap.autoincrement_col),
        index_state: renamed_indexes(snap.index_state, old_name, new_col.name),
        composite_unique_groups: composite_groups(groups),
        composite_primary_key: pk,
        column_mappings: edit_mappings(snap.columns, old_name, new_col.name, resolved_source(old_name, source)),
    }
}

/// Some column is called `name` exactly.
pub open spec fn has_column_named(cols: Seq<TableColumnSpec>, name: Seq<char>) -> bool {
    exists|i: int| 0 <= i < cols.len() && (#[trigger] cols[i]).name == name
}

/// The message for a column that is not there.
pub open spec fn no_such_column_message(column_name: Seq<char>, table_name: Seq<char>) -> Seq<char> {
    "column '"@ + column_name + "' does not exist in table '"@ + table_name + "'"@
}

/// The message for a name that another column already has.
pub open spec fn column_exists_message(column_name: Seq<char>, table_name: Seq<char>) -> Seq<char> {
    "column '"@ + column_name + "' already exists in table '"@ + table_name + "'"@
}

/// `IllegalInput` for an empty table name.
pub fn empty_table_name_error() -> (e: DbError)
    ensures
        e.is_illegal_input("table_name is empty"@),
{
    DbError::IllegalInput(String::from_str("table_name is empty"))
}

fn quoted_pair_message(first: &str, column: &str, middle: &str, table: &str) -> (r: String)
    ensures
        r@ == first@ + column@ + middle@ + table@ + "'"@,
{
    let mut m = String::from_str(first);
    m.append(column);
    m.append(middle);
    m.append(table);
    m.append("'");
    m
}

/// Some column of `cols` is called `name` exactly.
pub fn has_column(cols: &Vec<TableColumnInfo>, name: &str) -> (r: bool)
    ensures
        r == has_column_named(info_specs(cols@), name@),
{
    let ghost specs = info_specs(cols@);
    let mut i: usize = 0;
    while i < cols.len()
        invariant
            i <= cols@.len(),
            specs == info_specs(cols@),
            forall|j: int| 0 <= j < i ==> (#[trigger] specs[j]).name != name@,
        decreases cols@.len() - i,
    {
        assert(specs[i as int] == cols@[i as int]@);
        if str_eq(cols[i].name.as_str(), name) {
            return true;
        }
        i = i + 1;
    }
    false
}

fn rename_groups(groups: &Vec<Vec<String>>, old_name: &str, new_name: &str) -> (r: Vec<Vec<String>>)
    ensures
        text_groups(r@) == renamed_groups(text_groups(groups@), old_name@, new_name@),
{
    let mut r: Vec<Vec<String>> = Vec::new();
    let mut i: usize = 0;
    while i < groups.len()
        invariant
            i <= groups@.len(),
            r@.len() == i,
            forall|j: int| 0 <= j < i ==> texts(#[trigger] r@[j]@) == texts(groups@[j]@).map_values(
                |n: Seq<char>| renamed(n, old_name@, new_name@),
            ),
        decreases groups@.len() - i,
    {
        let g = rename_all(&groups[i], old_name, new_name);
        assert(texts(g@) =~= texts(groups@[i as int]@).map_values(|n: Seq<char>| renamed(n, old_name@, new_name@)));
        r.push(g);
        i = i + 1;
    }
    assert(text_groups(r@) =~= renamed_groups(text_groups(groups@), old_name@, new_name@));
    r
}

fn rename_indexes(states: &Vec<IndexState>, old_name: &str, new_name: &str) -> (r: Vec<IndexState>)
    ensures
        index_specs(r@) == renamed_indexes(index_specs(states@), old_name@, new_name@),
{
    let mut r: Vec<IndexState> = Vec::new();
    let mut i: usize = 0;
    while i < states.len()
        invariant
            i <= states@.len(),
            r@.len() == i,
            forall|j: int| 0 <= j < i ==> (#[trigger] r@[j])@ == (IndexStateSpec {
                name: states@[j].name@,
                columns: texts(states@[j].columns@).map_values(|n: Seq<char>| renamed(n, old_name@, new_name@)),
                is_unique: states@[j].is_unique,
            }),
        decreases states@.len() - i,
    {
        let x = &states[i];
        let cols = rename_all(&x.columns, old_name, new_name);
        assert(texts(cols@) =~= texts(x.columns@).map_values(|n: Seq<char>| renamed(n, old_name@, new_name@)));
        r.push(IndexState { name: x.name.clone(), columns: cols, is_unique: x.is_unique });
        i = i + 1;
    }
    assert(index_specs(r@) =~= renamed_indexes(index_specs(states@), old_name@, new_name@));
    r
}

fn primary_keys_renamed(cols: &Vec<TableColumnInfo>, old_name: &str, new_name: &str) -> (r: Vec<String>)
    ensures
        texts(r@) == pk_names_renamed(info_specs(cols@), old_name@, new_name@),
{
    let ghost specs = info_specs(cols@);
    let mut r: Vec<String> = Vec::new();
    let mut i: usize = 0;
    while i < cols.len()
        invariant
            i <= cols@.len(),
            specs == info_specs(cols@),
            texts(r@) == pk_names_renamed(specs.take(i as int), old_name@, new_name@),
        decreases cols@.len() - i,
    {
        assert(specs.take(i as int + 1).drop_last() =~= specs.take(i as int));
        let c = &cols[i];
        assert(specs.take(i as int + 1).last() == c@);
        if c.primary_key {
            r.push(rename_col(c.name.clone(), old_name, new_name));
        }
        assert(texts(r@) =~= pk_names_renamed(specs.take(i as int + 1), old_name@, new_name@));
        i = i + 1;
    }
    assert(specs.take(i as int) =~= specs);
    r
}

/// `resolve_source_expr`: where the edited column's values come from.
pub fn resolve_source_expr(old_column_name: &str, source: &ColumnSource) -> (r: Option<SourceExpr>)
    ensures
        match r {
            Some(e) => resolved_source(old_column_name@, *source) == Some(e@),
            None => resolved_source(old_column_name@, *source) is None,
        },
{
    match source {
        ColumnSource::SameName => Some(SourceExpr::Column(String::from_str(old_column_name))),
        ColumnSource::FromColumn(old_name) => Some(SourceExpr::Column(old_name.clone())),
        ColumnSource::Expression(expr) => Some(SourceExpr::Expression(expr.clone())),
        ColumnSource::UseDefault => None,
    }
}

pub(crate) fn clone_source(e: &SourceExpr) -> (r: SourceExpr)
    ensures
        r@ == e@,
{
    match e {
        SourceExpr::Column(c) => SourceExpr::Column(c.clone()),
        SourceExpr::Expression(x) => SourceExpr::Expression(x.clone()),
    }
}

/// `fundamentally_edit_existing_col`: the plan that replaces a column by a
/// new declaration, given what the database says about the table. Refused
/// with `IllegalInput` where the table name is empty, where the table has
/// no such column, or where the new name is that of another column.
pub fn fundamentally_edit_existing_col(
    input: &FundamentallyEditExistingColIn,
    snapshot: &TableSnapshot,
) -> (r: Result<RebuildPlan, DbError>)
    ensures
        input.table_name@.len() == 0 ==> (r matches Err(e) && e.is_illegal_input("table_name is empty"@)),
        input.table_name@.len() != 0 && !has_column_named(snapshot@.columns, input.column_name@) ==> (r matches Err(e)
            && e.is_illegal_input(no_such_column_message(input.column_name@, input.table_name@))),
        input.table_name@.len() != 0 && has_column_named(snapshot@.columns, input.column_name@)
            && input.new_column.name@ != input.column_name@
            && has_column_named(snapshot@.columns, input.new_column.name@) ==> (r matches Err(e)
            && e.is_illegal_input(column_exists_message(input.new_column.name@, input.table_name@))),
        input.table_name@.len() != 0 && has_column_named(snapshot@.columns, input.column_name@)
            && !(input.new_column.name@ != input.column_name@ && has_column_named(snapshot@.columns, input.new_column.name@))
            ==> (r matches Ok(p) && p@ == edit_plan(
                input.table_name@,
                input.column_name@,
                input.new_column@,
                input.source,
                snapshot@,
            )),
{
    let table_name = input.table_name.as_str();
    let column_name = input.column_name.as_str();
    let new_name = input.new_column.name.as_str();
    if table_name.is_empty() {
        return Err(empty_table_name_error());
    }
    if !has_column(&snapshot.columns, column_name) {
        return Err(DbError::IllegalInput(
            quoted_pair_message("column '", column_name, "' does not exist in table '", table_name),
        ));
    }
    if !str_eq(new_name, column_name) && has_column(&snapshot.columns, new_name) {
        return Err(DbError::IllegalInput(
            quoted_pair_message("column '", new_name, "' already exists in table '", table_name),
        ));
    }
    let groups = rename_groups(&snapshot.unique_groups, column_name, new_name);
    let index_state = rename_indexes(&snapshot.index_state, column_name, new_name);
    let (single, composites) = split_unique_groups(&groups);
    let pk = composite_key_of(primary_keys_renamed(&snapshot.columns, column_name, new_name));
    let keep_pk_flags = pk.len() == 0;
    let source = resolve_source_expr(column_name, &input.source);
    let ghost specs = info_specs(snapshot.columns@);
    let ghost new_col = input.new_column@;
    let ghost autoinc = opt_text(snapshot.autoincrement_col);
    let ghost src = resolved_source(column_name@, input.source);
    let mut new_columns: Vec<ColumnDef> = Vec::new();
    let mut column_mappings: Vec<ColumnMapping> = Vec::new();
    let mut i: usize = 0;
    while i < snapshot.columns.len()
        invariant
            i <= snapshot.columns@.len(),
            specs == info_specs(snapshot.columns@),
            new_col == input.new_column@,
            autoinc == opt_text(snapshot.autoincrement_col),
            src == resolved_source(column_name@, input.source),
            match source {
                Some(e) => src == Some(e@),
                None => src is None,
            },
            column_name@ == input.column_name@,
            column_specs(new_columns@) == edited_columns(
                specs.take(i as int),
                column_name@,
                new_col,
                texts(single@),
                keep_pk_flags,
                autoinc,
            ),
            mapping_specs(column_mappings@) == edit_mappings(
                specs.take(i as int),
                column_name@,
                new_col.name,
                src,
            ),
        decreases snapshot.columns@.len() - i,
    {
        assert(specs.take(i as int + 1).drop_last() =~= specs.take(i as int));
        let c = &snapshot.columns[i];
        assert(specs.take(i as int + 1).last() == c@);
        if str_eq(c.name.as_str(), column_name) {
            let d = ColumnDef {
                name: input.new_column.name.clone(),
                column_type: input.new_column.column_type.clone(),
                primary_key: input.new_column.primary_key && keep_pk_flags,
                not_null: input.new_column.not_null,
                unique: input.new_column.unique || any_matches(&single, input.new_column.name.as_str()),
                default_value: input.new_column.default_value.clone(),
                autoincrement: input.new_column.autoincrement,
            };
            new_columns.push(d);
            match &source {
                Some(e) => {
                    column_mappings.push(ColumnMapping { target: input.new_column.name.clone(), source: clone_source(e) });
                },
                None => {},
            }
        } else {
            let d = rebuild_column(c, &single, keep_pk_flags, &snapshot.autoincrement_col);
            new_columns.push(d);
            column_mappings.push(ColumnMapping { target: c.name.clone(), source: SourceExpr::Column(c.name.clone()) });
        }
        assert(column_specs(new_columns@) =~= edited_columns(
            specs.take(i as int + 1),
            column_name@,
            new_col,
            texts(single@),
            keep_pk_flags,
            autoinc,
        ));
        assert(mapping_specs(column_mappings@) =~= edit_mappings(
            specs.take(i as int + 1),
            column_name@,
            new_col.name,
            src,
        ));
        i = i + 1;
    }
    assert(specs.take(i as int) =~= specs);
    Ok(RebuildPlan {
        table_name: String::from_str(table_name),
        temp_table_name: temp_table_name(table_name),
        new_columns,
        index_state,
        composite_unique_groups: composites,
        composite_primary_key: pk,
        column_mappings,
    })
}

/// The names of the columns other than `dropped`, in order.
pub open spec fn kept_names(cols: Seq<TableColumnSpec>, dropped: Seq<char>) -> Seq<Seq<char>>
    decreases cols.len(),
{
    if cols.len() == 0 {
        seq![]
    } else if cols.last().name == dropped {
        kept_names(cols.drop_last(), dropped)
    } else {
        kept_names(cols.drop_last(), dropped).push(cols.last().name)
    }
}

proof fn lemma_kept_columns_names(
    cols: Seq<TableColumnSpec>,
    dropped: Seq<char>,
    single: Seq<Seq<char>>,
    keep: bool,
    autoinc: Option<Seq<char>>,
)
    ensures
        kept_columns(cols, dropped, single, keep, autoinc).len() == kept_names(cols, dropped).len(),
        forall|i: int| 0 <= i < kept_names(cols, dropped).len() ==> {
            &&& (#[trigger] kept_columns(cols, dropped, single, keep, autoinc)[i]).name == kept_names(cols, dropped)[i]
            &&& kept_columns(cols, dropped, single, keep, autoinc)[i].name != dropped
            &&& !keep ==> !kept_columns(cols, dropped, single, keep, autoinc)[i].primary_key
        },
    decreases cols.len(),
{
    if cols.len() > 0 {
        lemma_kept_columns_names(cols.drop_last(), dropped, single, keep, autoinc);
    }
}

/// Dropping a column by rebuilding keeps every other column, in order and
/// under its name, and no column of that name; fills each kept column from
/// the old column of the same name; and never declares a column a primary
/// key where the key has become a table-level (composite) one.
pub proof fn lemma_drop_plan_keeps_the_other_columns(table_name: Seq<char>, dropped: Seq<char>, snap: SnapshotSpec)
    ensures
        ({
            let p = drop_plan(table_name, dropped, snap);
            &&& p.new_columns.len() == kept_names(snap.columns, dropped).len()
            &&& forall|i: int| 0 <= i < p.new_columns.len() ==> {
                &&& (#[trigger] p.new_columns[i]).name == kept_names(snap.columns, dropped)[i]
                &&& p.new_columns[i].name != dropped
                &&& p.column_mappings[i].target == p.new_columns[i].name
                &&& p.column_mappings[i].source == SourceSpec::Column(p.new_columns[i].name)
                &&& p.composite_primary_key.len() > 0 ==> !p.new_columns[i].primary_key
            }
            &&& p.column_mappings.len() == p.new_columns.len()
        }),
{
    let single = single_members(snap.unique_groups);
    let pk = composite_key(pk_names_except(snap.columns, dropped));
    lemma_kept_columns_names(snap.columns, dropped, single, pk.len() == 0, snap.autoincrement_col);
}

/// The columns other than `dropped`, in order.
pub open spec fn kept_infos(cols: Seq<TableColumnSpec>, dropped: Seq<char>) -> Seq<TableColumnSpec>
    decreases cols.len(),
{
    if cols.len() == 0 {
        seq![]
    } else if cols.last().name == dropped {
        kept_infos(cols.drop_last(), dropped)
    } else {
        kept_infos(cols.drop_last(), dropped).push(cols.last())
    }
}

proof fn lemma_kept_columns_are_rebuilt(
    cols: Seq<TableColumnSpec>,
    dropped: Seq<char>,
    single: Seq<Seq<char>>,
    keep: bool,
    autoinc: Option<Seq<char>>,
)
    ensures
        kept_columns(cols, dropped, single, keep, autoinc).len() == kept_infos(cols, dropped).len(),
        forall|i: int| 0 <= i < kept_infos(cols, dropped).len() ==> (#[trigger] kept_columns(cols, dropped, single, keep, autoinc)[i])
            == rebuilt_column(kept_infos(cols, dropped)[i], single, keep, autoinc),
        forall|i: int| 0 <= i < kept_infos(cols, dropped).len() ==> (#[trigger] kept_infos(cols, dropped)[i]).name != dropped,
    decreases cols.len(),
{
    if cols.len() > 0 {
        lemma_kept_columns_are_rebuilt(cols.drop_last(), dropped, single, keep, autoinc);
    }
}

proof fn lemma_kept_keys_are_named(cols: Seq<TableColumnSpec>, dropped: Seq<char>)
    ensures
        forall|i: int| 0 <= i < kept_infos(cols, dropped).len() && (#[trigger] kept_infos(cols, dropped)[i]).primary_key
            ==> pk_names_except(cols, dropped).contains(kept_infos(cols, dropped)[i].name),
    decreases cols.len(),
{
    if cols.len() > 0 {
        let prev = cols.drop_last();
        lemma_kept_keys_are_named(prev, dropped);
        let k = kept_infos(cols, dropped);
        let pk = pk_names_except(cols, dropped);
        assert forall|i: int| 0 <= i < k.len() && (#[trigger] k[i]).primary_key implies pk.contains(k[i].name) by {
            if cols.last().name != dropped && i == k.len() - 1 {
                assert(pk.last() == k[i].name);
            } else {
                let j = choose|j: int| 0 <= j < pk_names_except(prev, dropped).len() && pk_names_except(prev, dropped)[j]
                    == kept_infos(prev, dropped)[i].name;
                assert(pk[j] == k[i].name);
            }
        }
    }
}

proof fn lemma_groups_are_split(groups: Seq<Seq<Seq<char>>>)
    ensures
        forall|k: int| 0 <= k < groups.len() && (#[trigger] groups[k]).len() == 1 ==> single_members(groups).contains(groups[k][0]),
        forall|k: int| 0 <= k < groups.len() && (#[trigger] groups[k]).len() != 1 ==> composite_groups(groups).contains(groups[k]),
    decreases groups.len(),
{
    if groups.len() > 0 {
        let prev = groups.drop_last();
        lemma_groups_are_split(prev);
        let s = single_members(groups);
        let c = composite_groups(groups);
        assert forall|k: int| 0 <= k < groups.len() && (#[trigger] groups[k]).len() == 1 implies s.contains(groups[k][0]) by {
            if k == groups.len() - 1 {
                assert(s.last() == groups[k][0]);
            } else {
                assert(prev[k] == groups[k]);
                let j = choose|j: int| 0 <= j < single_members(prev).len() && single_members(prev)[j] == prev[k][0];
                assert(s[j] == groups[k][0]);
            }
        }
        assert forall|k: int| 0 <= k < groups.len() && (#[trigger] groups[k]).len() != 1 implies c.contains(groups[k]) by {
            if k == groups.len() - 1 {
                assert(c.last() == groups[k]);
            } else {
                assert(prev[k] == groups[k]);
                let j = choose|j: int| 0 <= j < composite_groups(prev).len() && composite_groups(prev)[j] == prev[k];
                assert(c[j] == groups[k]);
            }
        }
    }
}

proof fn lemma_indexes_without(states: Seq<IndexStateSpec>, dropped: Seq<char>)
    ensures
        forall|k: int| 0 <= k < states.len() && !any_name_matches((#[trigger] states[k]).columns, dropped)
            ==> indexes_without(states, dropped).contains(states[k]),
        forall|k: int| 0 <= k < indexes_without(states, dropped).len() ==> !any_name_matches(
            (#[trigger] indexes_without(states, dropped)[k]).columns,
            dropped,
        ) && states.contains(indexes_without(states, dropped)[k]),
    decreases states.len(),
{
    if states.len() > 0 {
        let prev = states.drop_last();
        lemma_indexes_without(prev, dropped);
        let w = indexes_without(states, dropped);
        let pw = indexes_without(prev, dropped);
        assert forall|k: int| 0 <= k < states.len() && !any_name_matches((#[trigger] states[k]).columns, dropped)
            implies w.contains(states[k]) by {
            if k == states.len() - 1 {
                assert(w.last() == states[k]);
            } else {
                assert(prev[k] == states[k]);
                let j = choose|j: int| 0 <= j < pw.len() && pw[j] == prev[k];
                assert(w[j] == pw[j]);
            }
        }
        assert forall|k: int| 0 <= k < w.len() implies !any_name_matches((#[trigger] w[k]).columns, dropped)
            && states.contains(w[k]) by {
            if k < pw.len() {
                assert(w[k] == pw[k]);
                let j = choose|j: int| 0 <= j < prev.len() && prev[j] == pw[k];
                assert(states[j] == prev[j]);
            } else {
                assert(w[k] == states.last());
                assert(states[states.len() - 1] == states.last());
            }
        }
    }
}

proof fn lemma_groups_without(groups: Seq<Seq<Seq<char>>>, dropped: Seq<char>)
    ensures
        forall|k: int| 0 <= k < groups.len() && !any_name_matches(#[trigger] groups[k], dropped)
            ==> groups_without(groups, dropped).contains(groups[k]),
        forall|k: int| 0 <= k < groups_without(groups, dropped).len() ==> !any_name_matches(
            #[trigger] groups_without(groups, dropped)[k],
            dropped,
        ),
    decreases groups.len(),
{
    if groups.len() > 0 {
        let prev = groups.drop_last();
        lemma_groups_without(prev, dropped);
        let w = groups_without(groups, dropped);
        let pw = groups_without(prev, dropped);
        assert forall|k: int| 0 <= k < groups.len() && !any_name_matches(#[trigger] groups[k], dropped)
            implies w.contains(groups[k]) by {
            if k == groups.len() - 1 {
                assert(w.last() == groups[k]);
            } else {
                assert(prev[k] == groups[k]);
                let j = choose|j: int| 0 <= j < pw.len() && pw[j] == prev[k];
                assert(w[j] == pw[j]);
            }
        }
        assert forall|k: int| 0 <= k < w.len() implies !any_name_matches(#[trigger] w[k], dropped) by {
            if k < pw.len() {
                assert(w[k] == pw[k]);
            }
        }
    }
}

/// Dropping a column by rebuilding keeps everything else about the table:
/// every other column keeps its type, not-null flag and default; a key
/// column stays in the key (flagged, or in the table-level key); a column
/// named by a one-column unique constraint stays unique, and the columns
/// flagged unique are exactly those; a unique constraint over several
/// columns stays a table-level constraint, and a created index is made again
/// as it was, exactly where it does not name the dropped column (up to
/// ASCII case); nothing made again names the dropped column.
pub proof fn lemma_drop_plan_keeps_keys_and_constraints(table_name: Seq<char>, dropped: Seq<char>, snap: SnapshotSpec)
    ensures
        ({
            let p = drop_plan(table_name, dropped, snap);
            let kept = kept_infos(snap.columns, dropped);
            &&& forall|k: int| 0 <= k < snap.index_state.len() && !any_name_matches(
                (#[trigger] snap.index_state[k]).columns,
                dropped,
            ) ==> p.index_state.contains(snap.index_state[k])
            &&& forall|k: int| 0 <= k < p.index_state.len() ==> !any_name_matches(
                (#[trigger] p.index_state[k]).columns,
                dropped,
            ) && snap.index_state.contains(p.index_state[k])
            &&& forall|k: int| 0 <= k < p.composite_unique_groups.len() ==> !any_name_matches(
                #[trigger] p.composite_unique_groups[k],
                dropped,
            )
            &&& p.new_columns.len() == kept.len()
            &&& forall|i: int| 0 <= i < kept.len() ==> {
                &&& (#[trigger] p.new_columns[i]).name == kept[i].name
                &&& p.new_columns[i].column_type == kept[i].declared_type
                &&& p.new_columns[i].not_null == kept[i].not_null
                &&& kept[i].primary_key ==> p.new_columns[i].primary_key || p.composite_primary_key.contains(kept[i].name)
                &&& p.new_columns[i].unique == any_name_matches(single_members(snap.unique_groups), kept[i].name)
                &&& forall|k: int| 0 <= k < snap.unique_groups.len() && snap.unique_groups[k].len() == 1 && names_match(
                    #[trigger] snap.unique_groups[k][0],
                    kept[i].name,
                ) ==> p.new_columns[i].unique
            }
            &&& forall|k: int| 0 <= k < snap.unique_groups.len() && (#[trigger] snap.unique_groups[k]).len() != 1
                && !any_name_matches(snap.unique_groups[k], dropped) ==> p.composite_unique_groups.contains(
                snap.unique_groups[k],
            )
        }),
{
    let single = single_members(snap.unique_groups);
    let pk = composite_key(pk_names_except(snap.columns, dropped));
    lemma_indexes_without(snap.index_state, dropped);
    lemma_groups_without(composite_groups(snap.unique_groups), dropped);
    let keep = pk.len() == 0;
    lemma_kept_columns_are_rebuilt(snap.columns, dropped, single, keep, snap.autoincrement_col);
    lemma_kept_keys_are_named(snap.columns, dropped);
    lemma_groups_are_split(snap.unique_groups);
    let p = drop_plan(table_name, dropped, snap);
    let kept = kept_infos(snap.columns, dropped);
    assert forall|i: int| 0 <= i < kept.len() implies {
        &&& (#[trigger] p.new_columns[i]).name == kept[i].name
        &&& p.new_columns[i].column_type == kept[i].declared_type
        &&& p.new_columns[i].not_null == kept[i].not_null
        &&& kept[i].primary_key ==> p.new_columns[i].primary_key || p.composite_primary_key.contains(kept[i].name)
        &&& p.new_columns[i].unique == any_name_matches(single, kept[i].name)
        &&& forall|k: int| 0 <= k < snap.unique_groups.len() && snap.unique_groups[k].len() == 1 && names_match(
            #[trigger] snap.unique_groups[k][0],
            kept[i].name,
        ) ==> p.new_columns[i].unique
    } by {
        assert(p.new_columns[i] == rebuilt_column(kept[i], single, keep, snap.autoincrement_col));
        assert forall|k: int| 0 <= k < snap.unique_groups.len() && snap.unique_groups[k].len() == 1 && names_match(
            #[trigger] snap.unique_groups[k][0],
            kept[i].name,
        ) implies p.new_columns[i].unique by {
            assert(snap.unique_groups[k].len() == 1);
            let j = choose|j: int| 0 <= j < single.len() && single[j] == snap.unique_groups[k][0];
            assert(names_match(single[j], kept[i].name));
        }
    }
}

proof fn lemma_edited_columns_in_place(
    cols: Seq<TableColumnSpec>,
    old_name: Seq<char>,
    new_col: ColumnSpec,
    single: Seq<Seq<char>>,
    keep: bool,
    autoinc: Option<Seq<char>>,
)
    ensures
        edited_columns(cols, old_name, new_col, single, keep, autoinc).len() == cols.len(),
        forall|i: int| 0 <= i < cols.len() ==> {
            &&& (#[trigger] edited_columns(cols, old_name, new_col, single, keep, autoinc)[i]).name == if cols[i].name
                == old_name {
                new_col.name
            } else {
                cols[i].name
            }
            &&& !keep ==> !edited_columns(cols, old_name, new_col, single, keep, autoinc)[i].primary_key
        },
{
    lemma_edited_columns_are(cols, old_name, new_col, single, keep, autoinc);
}

proof fn lemma_default_fills_nothing(cols: Seq<TableColumnSpec>, old_name: Seq<char>, new_name: Seq<char>)
    requires
        forall|i: int| 0 <= i < cols.len() && (#[trigger] cols[i]).name != old_name ==> cols[i].name != new_name,
    ensures
        forall|j: int| 0 <= j < edit_mappings(cols, old_name, new_name, None).len() ==> (#[trigger] edit_mappings(
            cols,
            old_name,
            new_name,
            None,
        )[j]).target != new_name,
    decreases cols.len(),
{
    if cols.len() > 0 {
        let prev = cols.drop_last();
        assert forall|i: int| 0 <= i < prev.len() && (#[trigger] prev[i]).name != old_name implies prev[i].name != new_name by {
            assert(cols[i] == prev[i]);
        }
        lemma_default_fills_nothing(prev, old_name, new_name);
        assert(cols[cols.len() - 1] == cols.last());
    }
}

proof fn lemma_source_fills_the_column(cols: Seq<TableColumnSpec>, old_name: Seq<char>, new_name: Seq<char>, e: SourceSpec)
    requires
        has_column_named(cols, old_name),
    ensures
        edit_mappings(cols, old_name, new_name, Some(e)).contains(MappingSpec { target: new_name, source: e }),
    decreases cols.len(),
{
    let m = edit_mappings(cols, old_name, new_name, Some(e));
    if cols.last().name == old_name {
        assert(m.last() == MappingSpec { target: new_name, source: e });
    } else {
        let prev = cols.drop_last();
        let i = choose|i: int| 0 <= i < cols.len() && (#[trigger] cols[i]).name == old_name;
        assert(i != cols.len() - 1);
        assert(prev[i] == cols[i]);
        lemma_source_fills_the_column(prev, old_name, new_name, e);
        let pm = edit_mappings(prev, old_name, new_name, Some(e));
        let j = choose|j: int| 0 <= j < pm.len() && pm[j] == MappingSpec { target: new_name, source: e };
        assert(m[j] == pm[j]);
    }
}

/// An accepted edit fills the edited column from its source: where it has
/// one, the copy of the rows fills the column, under its new name, from
/// that source; where it is left to its default, no column of that name is
/// filled at all, so every row gets the default.
pub proof fn lemma_edit_plan_fills_the_edited_column(
    table_name: Seq<char>,
    old_name: Seq<char>,
    new_col: ColumnSpec,
    source: ColumnSource,
    snap: SnapshotSpec,
)
    requires
        has_column_named(snap.columns, old_name),
        !(new_col.name != old_name && has_column_named(snap.columns, new_col.name)),
    ensures
        ({
            let p = edit_plan(table_name, old_name, new_col, source, snap);
            match resolved_source(old_name, source) {
                Some(e) => p.column_mappings.contains(MappingSpec { target: new_col.name, source: e }),
                None => forall|j: int| 0 <= j < p.column_mappings.len() ==> (#[trigger] p.column_mappings[j]).target
                    != new_col.name,
            }
        }),
{
    match resolved_source(old_name, source) {
        Some(e) => lemma_source_fills_the_column(snap.columns, old_name, new_col.name, e),
        None => {
            assert forall|i: int| 0 <= i < snap.columns.len() && (#[trigger] snap.columns[i]).name != old_name implies snap.columns[i].name
                != new_col.name by {
                if new_col.name != old_name && snap.columns[i].name == new_col.name {
                    assert(has_column_named(snap.columns, new_col.name));
                }
            }
            lemma_default_fills_nothing(snap.columns, old_name, new_col.name);
        },
    }
}

proof fn lemma_edited_columns_are(
    cols: Seq<TableColumnSpec>,
    old_name: Seq<char>,
    new_col: ColumnSpec,
    single: Seq<Seq<char>>,
    keep: bool,
    autoinc: Option<Seq<char>>,
)
    ensures
        edited_columns(cols, old_name, new_col, single, keep, autoinc).len() == cols.len(),
        forall|i: int| 0 <= i < cols.len() ==> (#[trigger] edited_columns(cols, old_name, new_col, single, keep, autoinc)[i])
            == if cols[i].name == old_name {
            edited_column(new_col, single, keep)
        } else {
            rebuilt_column(cols[i], single, keep, autoinc)
        },
    decreases cols.len(),
{
    if cols.len() > 0 {
        lemma_edited_columns_are(cols.drop_last(), old_name, new_col, single, keep, autoinc);
        let e = edited_columns(cols, old_name, new_col, single, keep, autoinc);
        let prev = edited_columns(cols.drop_last(), old_name, new_col, single, keep, autoinc);
        assert forall|i: int| 0 <= i < cols.len() - 1 implies e[i] == prev[i] && cols[i] == cols.drop_last()[i] by {}
    }
}

proof fn lemma_renamed_keys_are_named(cols: Seq<TableColumnSpec>, old_name: Seq<char>, new_name: Seq<char>)
    ensures
        forall|i: int| 0 <= i < cols.len() && (#[trigger] cols[i]).primary_key ==> pk_names_renamed(
            cols,
            old_name,
            new_name,
        ).contains(renamed(cols[i].name, old_name, new_name)),
    decreases cols.len(),
{
    if cols.len() > 0 {
        let prev = cols.drop_last();
        lemma_renamed_keys_are_named(prev, old_name, new_name);
        let pk = pk_names_renamed(cols, old_name, new_name);
        let ppk = pk_names_renamed(prev, old_name, new_name);
        assert forall|i: int| 0 <= i < cols.len() && (#[trigger] cols[i]).primary_key implies pk.contains(
            renamed(cols[i].name, old_name, new_name),
        ) by {
            if i == cols.len() - 1 {
                assert(pk.last() == renamed(cols[i].name, old_name, new_name));
            } else {
                assert(prev[i] == cols[i]);
                let j = choose|j: int| 0 <= j < ppk.len() && ppk[j] == renamed(prev[i].name, old_name, new_name);
                assert(pk[j] == ppk[j]);
            }
        }
    }
}

/// Editing a column keeps everything else about the table, under the
/// column's new name: every other column keeps its type and not-null flag,
/// and a key column among them stays in the key (flagged, or in the
/// table-level key); the edited column is declared with the requested type,
/// not-null flag and default, and is unique where asked; a column named by
/// a one-column unique constraint stays unique; a unique constraint over
/// several columns stays a table-level constraint.
pub proof fn lemma_edit_plan_keeps_keys_and_constraints(
    table_name: Seq<char>,
    old_name: Seq<char>,
    new_col: ColumnSpec,
    source: ColumnSource,
    snap: SnapshotSpec,
)
    ensures
        ({
            let p = edit_plan(table_name, old_name, new_col, source, snap);
            let groups = renamed_groups(snap.unique_groups, old_name, new_col.name);
            &&& p.new_columns.len() == snap.columns.len()
            &&& forall|i: int| 0 <= i < snap.columns.len() ==> {
                &&& snap.columns[i].name != old_name ==> {
                    &&& (#[trigger] p.new_columns[i]).column_type == snap.columns[i].declared_type
                    &&& p.new_columns[i].not_null == snap.columns[i].not_null
                    &&& snap.columns[i].primary_key ==> p.new_columns[i].primary_key
                        || p.composite_primary_key.contains(renamed(snap.columns[i].name, old_name, new_col.name))
                }
                &&& snap.columns[i].name == old_name ==> {
                    &&& p.new_columns[i].column_type == new_col.column_type
                    &&& p.new_columns[i].not_null == new_col.not_null
                    &&& p.new_columns[i].default_value == new_col.default_value
                    &&& new_col.unique ==> p.new_columns[i].unique
                }
                &&& forall|k: int| 0 <= k < groups.len() && groups[k].len() == 1 && names_match(
                    #[trigger] groups[k][0],
                    p.new_columns[i].name,
                ) ==> p.new_columns[i].unique
            }
            &&& forall|k: int| 0 <= k < groups.len() && (#[trigger] groups[k]).len() != 1
                ==> p.composite_unique_groups.contains(groups[k])
        }),
{
    let groups = renamed_groups(snap.unique_groups, old_name, new_col.name);
    let single = single_members(groups);
    let pk = composite_key(pk_names_renamed(snap.columns, old_name, new_col.name));
    let keep = pk.len() == 0;
    lemma_edited_columns_are(snap.columns, old_name, new_col, single, keep, snap.autoincrement_col);
    lemma_renamed_keys_are_named(snap.columns, old_name, new_col.name);
    lemma_groups_are_split(groups);
    let p = edit_plan(table_name, old_name, new_col, source, snap);
    assert forall|i: int| 0 <= i < snap.columns.len() implies {
        &&& snap.columns[i].name != old_name ==> {
            &&& (#[trigger] p.new_columns[i]).column_type == snap.columns[i].declared_type
            &&& p.new_columns[i].not_null == snap.columns[i].not_null
            &&& snap.columns[i].primary_key ==> p.new_columns[i].primary_key
                || p.composite_primary_key.contains(renamed(snap.columns[i].name, old_name, new_col.name))
        }
        &&& snap.columns[i].name == old_name ==> {
            &&& p.new_columns[i].column_type == new_col.column_type
            &&& p.new_columns[i].not_null == new_col.not_null
            &&& p.new_columns[i].default_value == new_col.default_value
            &&& new_col.unique ==> p.new_columns[i].unique
        }
        &&& forall|k: int| 0 <= k < groups.len() && groups[k].len() == 1 && names_match(
            #[trigger] groups[k][0],
            p.new_columns[i].name,
        ) ==> p.new_columns[i].unique
    } by {
        assert forall|k: int| 0 <= k < groups.len() && groups[k].len() == 1 && names_match(
            #[trigger] groups[k][0],
            p.new_columns[i].name,
        ) implies p.new_columns[i].unique by {
            assert(groups[k].len() == 1);
            let j = choose|j: int| 0 <= j < single.len() && single[j] == groups[k][0];
            assert(names_match(single[j], p.new_columns[i].name));
        }
    }
}

/// A name after renaming no longer refers to the old column, unless it is
/// the new name itself.
proof fn lemma_renamed_leaves_no_old_name(n: Seq<char>, old_name: Seq<char>, new_name: Seq<char>)
    ensures
        !names_match(renamed(n, old_name, new_name), old_name) || renamed(n, old_name, new_name) == new_name,
{
}

/// Editing a column keeps every column in its place: the edited one under
/// its new name, the others under theirs; every unique group and every
/// index to be made again refers to the column by its new name only; and
/// no column is declared a primary key where the key has become a
/// table-level (composite) one.
pub proof fn lemma_edit_plan_edits_in_place(
    table_name: Seq<char>,
    old_name: Seq<char>,
    new_col: ColumnSpec,
    source: ColumnSource,
    snap: SnapshotSpec,
)
    ensures
        ({
            let p = edit_plan(table_name, old_name, new_col, source, snap);
            &&& p.new_columns.len() == snap.columns.len()
            &&& forall|i: int| 0 <= i < snap.columns.len() ==> {
                &&& (#[trigger] p.new_columns[i]).name == if snap.columns[i].name == old_name {
                    new_col.name
                } else {
                    snap.columns[i].name
                }
                &&& p.composite_primary_key.len() > 0 ==> !p.new_columns[i].primary_key
            }
            &&& forall|i: int, j: int|
                0 <= i < p.index_state.len() && 0 <= j < p.index_state[i].columns.len() ==> !names_match(
                    #[trigger] p.index_state[i].columns[j],
                    old_name,
                ) || p.index_state[i].columns[j] == new_col.name
            &&& forall|i: int, j: int|
                0 <= i < renamed_groups(snap.unique_groups, old_name, new_col.name).len() && 0 <= j
                    < renamed_groups(snap.unique_groups, old_name, new_col.name)[i].len() ==> !names_match(
                    #[trigger] renamed_groups(snap.unique_groups, old_name, new_col.name)[i][j],
                    old_name,
                ) || renamed_groups(snap.unique_groups, old_name, new_col.name)[i][j] == new_col.name
        }),
{
    let groups = renamed_groups(snap.unique_groups, old_name, new_col.name);
    let single = single_members(groups);
    let pk = composite_key(pk_names_renamed(snap.columns, old_name, new_col.name));
    lemma_edited_columns_in_place(snap.columns, old_name, new_col, single, pk.len() == 0, snap.autoincrement_col);
    let p = edit_plan(table_name, old_name, new_col, source, snap);
    assert forall|i: int, j: int|
        0 <= i < p.index_state.len() && 0 <= j < p.index_state[i].columns.len() implies !names_match(
        #[trigger] p.index_state[i].columns[j],
        old_name,
    ) || p.index_state[i].columns[j] == new_col.name by {
        lemma_renamed_leaves_no_old_name(snap.index_state[i].columns[j], old_name, new_col.name);
    }
    assert forall|i: int, j: int|
        0 <= i < groups.len() && 0 <= j < groups[i].len() implies !names_match(#[trigger] groups[i][j], old_name)
        || groups[i][j] == new_col.name by {
        lemma_renamed_leaves_no_old_name(snap.unique_groups[i][j], old_name, new_col.name);
    }
}

/// The declared default a column reports: its text, or nothing where it has none.
pub open spec fn default_text(d: Option<Seq<char>>) -> Seq<char> {
    match d {
        Some(t) => t,
        None => Seq::empty(),
    }
}

proof fn lemma_other_columns_are_mapped(cols: Seq<TableColumnSpec>, old_name: Seq<char>, new_name: Seq<char>, src: Option<SourceSpec>)
    ensures
        forall|i: int| 0 <= i < cols.len() && (#[trigger] cols[i]).name != old_name ==> edit_mappings(
            cols,
            old_name,
            new_name,
            src,
        ).contains(MappingSpec { target: cols[i].name, source: SourceSpec::Column(cols[i].name) }),
    decreases cols.len(),
{
    if cols.len() > 0 {
        let prev = cols.drop_last();
        lemma_other_columns_are_mapped(prev, old_name, new_name, src);
        let m = edit_mappings(cols, old_name, new_name, src);
        let pm = edit_mappings(prev, old_name, new_name, src);
        assert forall|i: int| 0 <= i < cols.len() && (#[trigger] cols[i]).name != old_name implies m.contains(
            MappingSpec { target: cols[i].name, source: SourceSpec::Column(cols[i].name) },
        ) by {
            if i == cols.len() - 1 {
                assert(m.last() == MappingSpec { target: cols[i].name, source: SourceSpec::Column(cols[i].name) });
            } else {
                assert(prev[i] == cols[i]);
                let j = choose|j: int|
                    0 <= j < pm.len() && pm[j] == MappingSpec { target: prev[i].name, source: SourceSpec::Column(prev[i].name) };
                assert(m[j] == pm[j]);
            }
        }
    }
}

/// Editing a column copies every other column's values: for every column
/// of the old table other than the edited one, the copy of the rows fills
/// the column of the same name from the old column of that name, whatever
/// the columns' defaults.
pub proof fn lemma_edit_plan_copies_every_other_column(
    table_name: Seq<char>,
    old_name: Seq<char>,
    new_col: ColumnSpec,
    source: ColumnSource,
    snap: SnapshotSpec,
)
    ensures
        forall|i: int| 0 <= i < snap.columns.len() && (#[trigger] snap.columns[i]).name != old_name ==> edit_plan(
            table_name,
            old_name,
            new_col,
            source,
            snap,
        ).column_mappings.contains(
            MappingSpec { target: snap.columns[i].name, source: SourceSpec::Column(snap.columns[i].name) },
        ),
{
    lemma_other_columns_are_mapped(snap.columns, old_name, new_col.name, resolved_source(old_name, source));
}

/// Dropping a column keeps every other column's declaration: its name,
/// type, not-null flag and default (none where it had none); it stays a
/// key column flagged as such unless the key has become a table-level one,
/// and is declared `AUTOINCREMENT` exactly where it is the table's
/// autoincrement column.
pub proof fn lemma_drop_plan_keeps_declarations(table_name: Seq<char>, dropped: Seq<char>, snap: SnapshotSpec)
    ensures
        ({
            let p = drop_plan(table_name, dropped, snap);
            let kept = kept_infos(snap.columns, dropped);
            &&& p.new_columns.len() == kept.len()
            &&& forall|i: int| 0 <= i < kept.len() ==> {
                &&& (#[trigger] p.new_columns[i]).name == kept[i].name
                &&& p.new_columns[i].column_type == kept[i].declared_type
                &&& p.new_columns[i].not_null == kept[i].not_null
                &&& p.new_columns[i].default_value == default_text(kept[i].default_value)
                &&& p.new_columns[i].primary_key == (kept[i].primary_key && p.composite_primary_key.len() == 0)
                &&& p.new_columns[i].autoincrement == (snap.autoincrement_col == Some(kept[i].name))
            }
        }),
{
    let single = single_members(snap.unique_groups);
    let pk = composite_key(pk_names_except(snap.columns, dropped));
    lemma_kept_columns_are_rebuilt(snap.columns, dropped, single, pk.len() == 0, snap.autoincrement_col);
}

/// Editing a column keeps every other column's declaration in its place:
/// its name, type, not-null flag and default (none where it had none), its
/// key flag unless the key has become a table-level one, and its
/// `AUTOINCREMENT` exactly where it is the table's autoincrement column;
/// the edited column is declared as requested (name, type, not-null flag,
/// default, autoincrement), unique where requested, and a key column where
/// requested unless the key has become a table-level one.
pub proof fn lemma_edit_plan_keeps_other_declarations(
    table_name: Seq<char>,
    old_name: Seq<char>,
    new_col: ColumnSpec,
    source: ColumnSource,
    snap: SnapshotSpec,
)
    ensures
        ({
            let p = edit_plan(table_name, old_name, new_col, source, snap);
            &&& p.new_columns.len() == snap.columns.len()
            &&& forall|i: int| 0 <= i < snap.columns.len() && snap.columns[i].name != old_name ==> {
                &&& (#[trigger] p.new_columns[i]).name == snap.columns[i].name
                &&& p.new_columns[i].column_type == snap.columns[i].declared_type
                &&& p.new_columns[i].not_null == snap.columns[i].not_null
                &&& p.new_columns[i].default_value == default_text(snap.columns[i].default_value)
                &&& p.new_columns[i].primary_key == (snap.columns[i].primary_key && p.composite_primary_key.len() == 0)
                &&& p.new_columns[i].autoincrement == (snap.autoincrement_col == Some(snap.columns[i].name))
            }
            &&& forall|i: int| 0 <= i < snap.columns.len() && snap.columns[i].name == old_name ==> {
                &&& (#[trigger] p.new_columns[i]).name == new_col.name
                &&& p.new_columns[i].column_type == new_col.column_type
                &&& p.new_columns[i].not_null == new_col.not_null
                &&& p.new_columns[i].default_value == new_col.default_value
                &&& p.new_columns[i].autoincrement == new_col.autoincrement
                &&& p.new_columns[i].primary_key == (new_col.primary_key && p.composite_primary_key.len() == 0)
                &&& new_col.unique ==> p.new_columns[i].unique
            }
        }),
{
    let groups = renamed_groups(snap.unique_groups, old_name, new_col.name);
    let single = single_members(groups);
    let pk = composite_key(pk_names_renamed(snap.columns, old_name, new_col.name));
    lemma_edited_columns_are(snap.columns, old_name, new_col, single, pk.len() == 0, snap.autoincrement_col);
}

} // verus!
