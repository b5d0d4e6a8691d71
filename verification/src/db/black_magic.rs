//! The decisions of the table operations: which table names and added
//! columns are acceptable, how row ids are read, how an exported table is
//! turned back into column declarations and insertable rows, how the lines
//! of `PRAGMA table_info` are read, and whether an index covers a column.

use vstd::prelude::*;
use vstd::string::*;

use crate::db::rebuild::{info_specs, texts};
use crate::protocol::error::DbError;
use crate::protocol::new_table::{ColumnDef, ColumnSpec};
use crate::protocol::payload::{
    ColumnValue, EditColInRowIn, GetDataIn, SelectArgument, SelectArguments, SwapColumnsIn, TableColumnInfo,
    TableColumnSpec, TableExport,
};
use crate::protocol::row_col::{Col, ColValue, Row};
use crate::text::{has_prefix, names_match, parse_usize, parse_usize_spec, starts_with, eq_ignore_ascii_case};

verus! {

/// `create_table`'s refusal of a table name, if any: an empty name, or one
/// with the reserved `fts5_` prefix.
pub fn check_new_table_name(table_name: &str) -> (r: Option<DbError>)
    ensures
        table_name@.len() == 0 ==> (r matches Some(e) && e.is_illegal_input("table_name is empty"@)),
        table_name@.len() != 0 && has_prefix(table_name.spec_bytes(), "fts5_".spec_bytes()) ==> (r matches Some(e)
            && e.is_illegal_input("table_name cannot start with reserved prefix 'fts5_'"@)),
        table_name@.len() != 0 && !has_prefix(table_name.spec_bytes(), "fts5_".spec_bytes()) ==> r is None,
{
    if table_name.is_empty() {
        return Some(DbError::IllegalInput(String::from_str("table_name is empty")));
    }
    if starts_with(table_name, "fts5_") {
        return Some(DbError::IllegalInput(String::from_str("table_name cannot start with reserved prefix 'fts5_'")));
    }
    None
}

pub open spec fn pk_message() -> Seq<char> {
    "ADD COLUMN does not support PRIMARY KEY"@
}

pub open spec fn autoincrement_message() -> Seq<char> {
    "ADD COLUMN does not support AUTOINCREMENT"@
}

pub open spec fn unique_message() -> Seq<char> {
    "ADD COLUMN does not support UNIQUE"@
}

pub open spec fn not_null_message() -> Seq<char> {
    "NOT NULL column requires a DEFAULT value when adding to an existing table"@
}

/// The first rule of `ALTER TABLE ... ADD COLUMN` that `column` breaks, in
/// the order the checks are made, if any; `unique_allowed` says whether a
/// `UNIQUE` column can be added (it can where a unique index is made for it).
pub open spec fn add_column_refusal(table_name: Seq<char>, column: ColumnSpec, unique_allowed: bool) -> Option<Seq<char>> {
    if table_name.len() == 0 {
        Some("table_name is empty"@)
    } else if column.primary_key {
        Some(pk_message())
    } else if column.autoincrement {
        Some(autoincrement_message())
    } else if !unique_allowed && column.unique {
        Some(unique_message())
    } else if column.not_null && column.default_value.len() == 0 {
        Some(not_null_message())
    } else {
        None
    }
}

fn illegal(message: &str) -> (e: DbError)
    ensures
        e.is_illegal_input(message@),
{
    DbError::IllegalInput(String::from_str(message))
}

fn add_column_check(table_name: &str, column: &ColumnDef, unique_allowed: bool) -> (r: Result<(), DbError>)
    ensures
        match add_column_refusal(table_name@, column@, unique_allowed) {
            Some(m) => r matches Err(e) && e.is_illegal_input(m),
            None => r is Ok,
        },
{
    if table_name.is_empty() {
        return Err(illegal("table_name is empty"));
    }
    if column.primary_key {
        return Err(illegal("ADD COLUMN does not support PRIMARY KEY"));
    }
    if column.autoincrement {
        return Err(illegal("ADD COLUMN does not support AUTOINCREMENT"));
    }
    if !unique_allowed && column.unique {
        return Err(illegal("ADD COLUMN does not support UNIQUE"));
    }
    if column.not_null && column.default_value.as_str().is_empty() {
        return Err(illegal("NOT NULL column requires a DEFAULT value when adding to an existing table"));
    }
    Ok(())
}

/// `add_column`'s checks of a column before `ALTER TABLE ... ADD COLUMN`:
/// no primary key, no autoincrement, no unique, and a default for a
/// `NOT NULL` column; each refusal is `IllegalInput` with its message.
pub fn check_added_column(table_name: &str, column: &ColumnDef) -> (r: Result<(), DbError>)
    ensures
        match add_column_refusal(table_name@, column@, false) {
            Some(m) => r matches Err(e) && e.is_illegal_input(m),
            None => r is Ok,
        },
{
    add_column_check(table_name, column, false)
}

/// A column to add, as the migration adds it: declared without `UNIQUE`,
/// with a unique index to be made for it afterwards where it asked for one.
pub struct PreparedColumn {
    pub column: ColumnDef,
    pub wants_unique: bool,
}

/// The migration's `add_column` checks and preparation: the same rules as
/// [`check_added_column`] except that `UNIQUE` is allowed, and the column is
/// then declared without it, its uniqueness left to an index.
pub fn prepare_added_column(table_name: &str, column: ColumnDef) -> (r: Result<PreparedColumn, DbError>)
    ensures
        match add_column_refusal(table_name@, column@, true) {
            Some(m) => r matches Err(e) && e.is_illegal_input(m),
            None => r matches Ok(p) && p.wants_unique == column.unique && p.column@ == (ColumnSpec {
                unique: false,
                ..column@
            }),
        },
{
    add_column_check(table_name, &column, true)?;
    let wants_unique = column.unique;
    let mut column = column;
    column.unique = false;
    Ok(PreparedColumn { column, wants_unique })
}

/// The name of the unique index made for a column the migration added.
pub fn unique_index_name(table_name: &str, column_name: &str) -> (r: String)
    ensures
        r@ == "uidx_"@ + table_name@ + "_"@ + column_name@,
{
    let mut r = String::from_str("uidx_");
    r.append(table_name);
    r.append("_");
    r.append(column_name);
    r
}

/// The name of the index `create_index` makes for a column.
pub fn index_name(table_name: &str, column_name: &str) -> (r: String)
    ensures
        r@ == "idx_"@ + table_name@ + "_"@ + column_name@,
{
    let mut r = String::from_str("idx_");
    r.append(table_name);
    r.append("_");
    r.append(column_name);
    r
}

/// `edit_col_in_row`'s reading of a row id: the number `row` spells, as
/// `str::parse::<usize>` reads it, or `IllegalInput` with the parser's
/// complaint.
pub fn parse_row_id(row: &str) -> (r: Result<usize, DbError>)
    ensures
        match parse_usize_spec(row.spec_bytes()) {
            Ok(v) => r == Ok::<usize, DbError>(v as usize),
            Err(k) => r matches Err(e) && e.is_illegal_input("row id is not a number: "@ + k.spec_message()),
        },
{
    match parse_usize(row) {
        Ok(v) => Ok(v),
        Err(k) => {
            let mut m = String::from_str("row id is not a number: ");
            m.append(k.message().as_str());
            Err(DbError::IllegalInput(m))
        },
    }
}

/// The declaration `create_table_from_export` gives a column of an exported
/// table: its name, type, key and not-null flags and default (none becomes
/// empty); never unique, never autoincrement.
pub open spec fn exported_column(c: TableColumnSpec) -> ColumnSpec {
    ColumnSpec {
        name: c.name,
        column_type: c.declared_type,
        primary_key: c.primary_key,
        not_null: c.not_null,
        unique: false,
        default_value: match c.default_value {
            Some(d) => d,
            None => Seq::empty(),
        },
        autoincrement: false,
    }
}

/// What a declared default says: none where the declaration has none.
pub open spec fn declared_default(d: Seq<char>) -> Option<Seq<char>> {
    if d.len() == 0 {
        None
    } else {
        Some(d)
    }
}

/// An exported column declared again carries what was exported: its name,
/// type, not-null and key flags, and its default (none for none), wherever
/// the exported default is not empty text.
pub proof fn lemma_exported_column_round_trip(c: TableColumnSpec)
    requires
        c.default_value != Some(Seq::<char>::empty()),
    ensures
        exported_column(c).name == c.name,
        exported_column(c).column_type == c.declared_type,
        exported_column(c).not_null == c.not_null,
        exported_column(c).primary_key == c.primary_key,
        declared_default(exported_column(c).default_value) == c.default_value,
{
    if let Some(d) = c.default_value {
        if d.len() == 0 {
            assert(d =~= Seq::<char>::empty());
        }
    }
}

/// The column declarations of an exported table, in order.
pub fn columns_from_export(columns: &Vec<TableColumnInfo>) -> (r: Vec<ColumnDef>)
    ensures
        r@.len() == columns@.len(),
        forall|i: int| 0 <= i < columns@.len() ==> (#[trigger] r@[i])@ == exported_column(columns@[i]@),
{
    let mut r: Vec<ColumnDef> = Vec::new();
    let mut i: usize = 0;
    while i < columns.len()
        invariant
            i <= columns@.len(),
            r@.len() == i,
            forall|j: int| 0 <= j < i ==> (#[trigger] r@[j])@ == exported_column(columns@[j]@),
        decreases columns@.len() - i,
    {
        let c = &columns[i];
        let default_value = match &c.default_value {
            Some(d) => d.clone(),
            None => String::new(),
        };
        r.push(ColumnDef {
            name: c.name.clone(),
            column_type: c.declared_type.clone(),
            primary_key: c.primary_key,
            not_null: c.not_null,
            unique: false,
            default_value,
            autoincrement: false,
        });
        i = i + 1;
    }
    r
}

/// The values `create_table_from_export` inserts for one exported row: the
/// i-th cell goes to the i-th exported column, or to a column with an empty
/// name where the row has more cells than the table has columns.
pub fn values_from_export_row(row: &Row, columns: &Vec<TableColumnInfo>) -> (r: Vec<ColumnValue>)
    ensures
        r@.len() == row.cols@.len(),
        forall|i: int| 0 <= i < row.cols@.len() ==> {
            &&& (#[trigger] r@[i]).value@ == row.cols@[i]@
            &&& r@[i].column_name@ == if i < columns@.len() { columns@[i].name@ } else { Seq::empty() }
        },
{
    let mut r: Vec<ColumnValue> = Vec::new();
    let mut i: usize = 0;
    while i < row.cols.len()
        invariant
            i <= row.cols@.len(),
            r@.len() == i,
            forall|j: int| 0 <= j < i ==> {
                &&& (#[trigger] r@[j]).value@ == row.cols@[j]@
                &&& r@[j].column_name@ == if j < columns@.len() { columns@[j].name@ } else { Seq::empty() }
            },
        decreases row.cols@.len() - i,
    {
        let column_name = if i < columns.len() { columns[i].name.clone() } else { String::new() };
        r.push(ColumnValue { column_name, value: row.cols[i].duplicate() });
        i = i + 1;
    }
    r
}

/// One line of `PRAGMA table_info` (cid, name, type, notnull, dflt_value,
/// pk) as `table_shape` reads it: the two flags are set where non-zero.
pub fn column_info_from_pragma(
    cid: i64,
    name: String,
    declared_type: String,
    not_null_raw: i64,
    default_value: Option<String>,
    pk_raw: i64,
) -> (r: TableColumnInfo)
    ensures
        r.cid == cid,
        r.name == name,
        r.declared_type == declared_type,
        r.not_null == (not_null_raw != 0),
        r.default_value == default_value,
        r.primary_key == (pk_raw != 0),
{
    TableColumnInfo { cid, name, declared_type, not_null: not_null_raw != 0, default_value, primary_key: pk_raw != 0 }
}

/// Some index of `indexes` (each given by its column names) has a column
/// that is `column_name` up to ASCII case.
pub open spec fn some_index_covers(indexes: Seq<Seq<Seq<char>>>, column_name: Seq<char>) -> bool {
    exists|i: int, j: int|
        0 <= i < indexes.len() && 0 <= j < indexes[i].len() && names_match(#[trigger] indexes[i][j], column_name)
}

/// `check_index`'s decision: whether one of the table's indexes, given by
/// their columns, covers `column_name`.
pub fn index_covers_column(indexes: &Vec<Vec<String>>, column_name: &str) -> (r: bool)
    ensures
        r == some_index_covers(crate::db::rebuild::text_groups(indexes@), column_name@),
{
    let ghost g = crate::db::rebuild::text_groups(indexes@);
    let mut i: usize = 0;
    while i < indexes.len()
        invariant
            i <= indexes@.len(),
            g == crate::db::rebuild::text_groups(indexes@),
            forall|a: int, b: int| 0 <= a < i && 0 <= b < g[a].len() ==> !names_match(#[trigger] g[a][b], column_name@),
        decreases indexes@.len() - i,
    {
        let cols = &indexes[i];
        let mut j: usize = 0;
        while j < cols.len()
            invariant
                i < indexes@.len(),
                g == crate::db::rebuild::text_groups(indexes@),
                *cols == indexes@[i as int],
                j <= cols@.len(),
                forall|a: int, b: int| 0 <= a < i && 0 <= b < g[a].len() ==> !names_match(#[trigger] g[a][b], column_name@),
                forall|b: int| 0 <= b < j ==> !names_match(#[trigger] g[i as int][b], column_name@),
            decreases cols@.len() - j,
        {
            assert(g[i as int][j as int] == cols@[j as int]@);
            if eq_ignore_ascii_case(cols[j].as_str(), column_name) {
                return true;
            }
            j = j + 1;
        }
        i = i + 1;
    }
    false
}

/// The message for a row id that selected no row.
pub open spec fn no_row_message(row_id: Seq<char>) -> Seq<char> {
    "No row found for id "@ + row_id
}

/// The message for a selected row without cells.
pub open spec fn no_value_message(row_id: Seq<char>) -> Seq<char> {
    "No column value for id "@ + row_id
}

/// `swap_columns`' reading of one value: the first cell of the first row
/// read for `row_id`, refused where there is no row or no cell.
pub fn first_value_of(rows: &Vec<Row>, row_id: &str) -> (r: Result<Col, DbError>)
    ensures
        rows@.len() == 0 ==> (r matches Err(e) && e.is_illegal_input(no_row_message(row_id@))),
        rows@.len() > 0 && rows@[0].cols@.len() == 0 ==> (r matches Err(e) && e.is_illegal_input(
            no_value_message(row_id@),
        )),
        rows@.len() > 0 && rows@[0].cols@.len() > 0 ==> (r matches Ok(c) && c@ == rows@[0].cols@[0]@),
{
    if rows.len() == 0 {
        let mut m = String::from_str("No row found for id ");
        m.append(row_id);
        return Err(DbError::IllegalInput(m));
    }
    if rows[0].cols.len() == 0 {
        let mut m = String::from_str("No column value for id ");
        m.append(row_id);
        return Err(DbError::IllegalInput(m));
    }
    Ok(rows[0].cols[0].duplicate())
}

/// The text of the first cell of the first row, where that cell is text;
/// how the full-text index learns a row's current value.
pub fn first_text_value(rows: &Vec<Row>) -> (r: Option<String>)
    ensures
        match r {
            Some(s) => rows@.len() > 0 && rows@[0].cols@.len() > 0 && rows@[0].cols@[0]@ == ColValue::Text(s@),
            None => !(rows@.len() > 0 && rows@[0].cols@.len() > 0 && rows@[0].cols@[0]@ is Text),
        },
{
    if rows.len() == 0 || rows[0].cols.len() == 0 {
        return None;
    }
    match rows[0].cols[0].as_str() {
        Ok(s) => Some(String::from_str(s)),
        Err(_) => None,
    }
}

/// What `create_table_from_export` creates and inserts: the columns of the
/// new table, and for each exported row the values to insert.
pub struct ExportImport {
    pub columns: Vec<ColumnDef>,
    pub rows: Vec<Vec<ColumnValue>>,
}

/// The values inserted for one exported row, as [`values_from_export_row`] gives them.
pub open spec fn export_row_values(row: Row, columns: Seq<TableColumnInfo>, values: Seq<ColumnValue>) -> bool {
    &&& values.len() == row.cols@.len()
    &&& forall|i: int| 0 <= i < row.cols@.len() ==> {
        &&& (#[trigger] values[i]).value@ == row.cols@[i]@
        &&& values[i].column_name@ == if i < columns.len() { columns[i].name@ } else { Seq::empty() }
    }
}

/// `create_table_from_export`'s decisions, given whether a table of that
/// name exists: refused where it exists (`Table already exists: <name>`)
/// or where `create_table` refuses the name; otherwise the exported
/// columns' declarations and, row by row, the values to insert.
pub fn create_table_from_export(table_name: &str, table_export: &TableExport, table_exists: bool) -> (r: Result<
    ExportImport,
    DbError,
>)
    ensures
        table_exists ==> (r matches Err(e) && e.is_illegal_input("Table already exists: "@ + table_name@)),
        !table_exists && table_name@.len() == 0 ==> (r matches Err(e) && e.is_illegal_input("table_name is empty"@)),
        !table_exists && table_name@.len() != 0 && has_prefix(table_name.spec_bytes(), "fts5_".spec_bytes()) ==> (r matches Err(e)
            && e.is_illegal_input("table_name cannot start with reserved prefix 'fts5_'"@)),
        !table_exists && table_name@.len() != 0 && !has_prefix(table_name.spec_bytes(), "fts5_".spec_bytes()) ==> (r matches Ok(
            imp,
        ) && imp.columns@.len() == table_export.columns@.len() && (forall|i: int|
            0 <= i < table_export.columns@.len() ==> (#[trigger] imp.columns@[i])@ == exported_column(
                table_export.columns@[i]@,
            )) && imp.rows@.len() == table_export.rows@.len() && (forall|i: int|
            0 <= i < table_export.rows@.len() ==> export_row_values(
                table_export.rows@[i],
                table_export.columns@,
                #[trigger] imp.rows@[i]@,
            ))),
{
    if table_exists {
        let mut m = String::from_str("Table already exists: ");
        m.append(table_name);
        return Err(DbError::IllegalInput(m));
    }
    match check_new_table_name(table_name) {
        Some(e) => return Err(e),
        None => {},
    }
    let columns = columns_from_export(&table_export.columns);
    let mut rows: Vec<Vec<ColumnValue>> = Vec::new();
    let mut i: usize = 0;
    while i < table_export.rows.len()
        invariant
            i <= table_export.rows@.len(),
            rows@.len() == i,
            forall|j: int| 0 <= j < i ==> export_row_values(table_export.rows@[j], table_export.columns@, #[trigger] rows@[j]@),
        decreases table_export.rows@.len() - i,
    {
        rows.push(values_from_export_row(&table_export.rows[i], &table_export.columns));
        i = i + 1;
    }
    Ok(ExportImport { columns, rows })
}

/// The read `swap_columns` makes for one row: the swapped column of the
/// row whose `id` is `row_id`.
pub fn swap_value_query(input: &SwapColumnsIn, row_id: &str) -> (r: GetDataIn)
    ensures
        r.table_name@ == input.table_name@,
        r.arguments matches SelectArguments::Single(SelectArgument::XEqualY { x, y }) && x@ == "id"@ && y@ == row_id@,
        r.columns_to_read@.len() == 1,
        r.columns_to_read@[0]@ == input.column@,
{
    GetDataIn {
        table_name: input.table_name.clone(),
        arguments: SelectArguments::Single(SelectArgument::XEqualY { x: String::from_str("id"), y: String::from_str(row_id) }),
        columns_to_read: vec![input.column.clone()],
    }
}

/// The edit that puts `value` into the swapped column of row `row_id`.
pub open spec fn swap_edit(input: SwapColumnsIn, row_id: Seq<char>, value: ColValue, e: EditColInRowIn) -> bool {
    &&& e.table_name@ == input.table_name@
    &&& e.row_id@ == row_id
    &&& e.column@ == input.column@
    &&& e.new_value@ == value
}

/// `swap_columns`' decisions, given what was read for each of the two rows:
/// each row's value is the first cell read for it (refused as in
/// [`first_value_of`], the first row first), and the two edits give row 1
/// the value of row 2 and row 2 the value of row 1.
pub fn swap_columns_edits(input: &SwapColumnsIn, rows_1: &Vec<Row>, rows_2: &Vec<Row>) -> (r: Result<
    (EditColInRowIn, EditColInRowIn),
    DbError,
>)
    ensures
        rows_1@.len() == 0 ==> (r matches Err(e) && e.is_illegal_input(no_row_message(input.row_id_1@))),
        rows_1@.len() > 0 && rows_1@[0].cols@.len() == 0 ==> (r matches Err(e) && e.is_illegal_input(
            no_value_message(input.row_id_1@),
        )),
        rows_1@.len() > 0 && rows_1@[0].cols@.len() > 0 && rows_2@.len() == 0 ==> (r matches Err(e)
            && e.is_illegal_input(no_row_message(input.row_id_2@))),
        rows_1@.len() > 0 && rows_1@[0].cols@.len() > 0 && rows_2@.len() > 0 && rows_2@[0].cols@.len() == 0 ==> (r matches Err(
            e,
        ) && e.is_illegal_input(no_value_message(input.row_id_2@))),
        rows_1@.len() > 0 && rows_1@[0].cols@.len() > 0 && rows_2@.len() > 0 && rows_2@[0].cols@.len() > 0 ==> (r matches Ok(
            (e1, e2),
        ) && swap_edit(*input, input.row_id_1@, rows_2@[0].cols@[0]@, e1) && swap_edit(
            *input,
            input.row_id_2@,
            rows_1@[0].cols@[0]@,
            e2,
        )),
{
    let value1 = first_value_of(rows_1, input.row_id_1.as_str())?;
    let value2 = first_value_of(rows_2, input.row_id_2.as_str())?;
    let first = EditColInRowIn {
        table_name: input.table_name.clone(),
        row_id: input.row_id_1.clone(),
        column: input.column.clone(),
        new_value: value2,
    };
    let second = EditColInRowIn {
        table_name: input.table_name.clone(),
        row_id: input.row_id_2.clone(),
        column: input.column.clone(),
        new_value: value1,
    };
    Ok((first, second))
}

/// A table as its rows by id, each row as its cells by column name.
pub open spec fn set_cell(
    t: Map<Seq<char>, Map<Seq<char>, ColValue>>,
    row: Seq<char>,
    column: Seq<char>,
    value: ColValue,
) -> Map<Seq<char>, Map<Seq<char>, ColValue>> {
    t.insert(row, t[row].insert(column, value))
}

/// What an edit of one cell (`edit_col_in_row`) does to such a table.
pub open spec fn apply_edit(t: Map<Seq<char>, Map<Seq<char>, ColValue>>, e: EditColInRowIn) -> Map<
    Seq<char>,
    Map<Seq<char>, ColValue>,
> {
    set_cell(t, e.row_id@, e.column@, e.new_value@)
}

/// The table with the cells of column `c` in rows `r1` and `r2` exchanged.
pub open spec fn swapped(t: Map<Seq<char>, Map<Seq<char>, ColValue>>, r1: Seq<char>, r2: Seq<char>, c: Seq<char>) -> Map<
    Seq<char>,
    Map<Seq<char>, ColValue>,
> {
    set_cell(set_cell(t, r1, c, t[r2][c]), r2, c, t[r1][c])
}

/// Swapping two cells: the two edits that [`swap_columns_edits`] gives for
/// the values read from a table, applied in order, exchange the two cells
/// and leave every other cell as it was; swapping again restores the
/// table; swapping a row with itself changes nothing.
pub proof fn lemma_swap_law(
    t: Map<Seq<char>, Map<Seq<char>, ColValue>>,
    input: SwapColumnsIn,
    e1: EditColInRowIn,
    e2: EditColInRowIn,
)
    requires
        t.dom().contains(input.row_id_1@),
        t.dom().contains(input.row_id_2@),
        t[input.row_id_1@].dom().contains(input.column@),
        t[input.row_id_2@].dom().contains(input.column@),
        swap_edit(input, input.row_id_1@, t[input.row_id_2@][input.column@], e1),
        swap_edit(input, input.row_id_2@, t[input.row_id_1@][input.column@], e2),
    ensures
        ({
            let r1 = input.row_id_1@;
            let r2 = input.row_id_2@;
            let c = input.column@;
            let u = apply_edit(apply_edit(t, e1), e2);
            &&& u == swapped(t, r1, r2, c)
            &&& u.dom() == t.dom()
            &&& u[r1][c] == t[r2][c]
            &&& u[r2][c] == t[r1][c]
            &&& forall|row: Seq<char>| t.dom().contains(row) ==> (#[trigger] u[row]).dom() == t[row].dom()
            &&& forall|row: Seq<char>, col: Seq<char>|
                t.dom().contains(row) && !((row == r1 || row == r2) && col == c) ==> #[trigger] u[row][col]
                    == t[row][col]
            &&& swapped(u, r1, r2, c) == t
            &&& r1 == r2 ==> u == t
        }),
{
    let r1 = input.row_id_1@;
    let r2 = input.row_id_2@;
    let c = input.column@;
    let u = apply_edit(apply_edit(t, e1), e2);
    assert(u == swapped(t, r1, r2, c));
    assert(u.dom() =~= t.dom());
    assert forall|row: Seq<char>| t.dom().contains(row) implies (#[trigger] u[row]).dom() == t[row].dom() by {
        assert(u[row].dom() =~= t[row].dom());
    }
    let w = swapped(u, r1, r2, c);
    assert forall|row: Seq<char>| #[trigger] t.dom().contains(row) implies w[row] == t[row] by {
        assert(w[row] =~= t[row]);
    }
    assert(w =~= t);
    if r1 == r2 {
        assert forall|row: Seq<char>| #[trigger] t.dom().contains(row) implies u[row] == t[row] by {
            assert(u[row] =~= t[row]);
        }
        assert(u =~= t);
    }
}

/// The read that learns a row's current value for the full-text index:
/// column `column_name` of the row whose `id` is `row_id`.
pub fn current_value_query(source_table_name: &str, row_id: &str, column_name: &str) -> (r: GetDataIn)
    ensures
        r.table_name@ == source_table_name@,
        r.arguments matches SelectArguments::Single(SelectArgument::XEqualY { x, y }) && x@ == "id"@ && y@ == row_id@,
        r.columns_to_read@.len() == 1,
        r.columns_to_read@[0]@ == column_name@,
{
    GetDataIn {
        table_name: String::from_str(source_table_name),
        arguments: SelectArguments::Single(SelectArgument::XEqualY { x: String::from_str("id"), y: String::from_str(row_id) }),
        columns_to_read: vec![String::from_str(column_name)],
    }
}

/// What keeping a row's full-text entry in step does: the entry for the
/// old value is deleted where the index has the row and the old value was
/// text; the new value, if any, is inserted.
pub struct Fts5Sync {
    pub delete_old: Option<String>,
    pub insert_new: Option<String>,
}

/// `sync_fts5_row`'s decisions, given whether the index has the row, the
/// row's current text (if it is text) and its new value.
pub fn fts5_sync_actions(index_has_row: bool, current: Option<String>, new_value: Option<String>) -> (r: Fts5Sync)
    ensures
        r.delete_old == (if index_has_row { current } else { None::<String> }),
        r.insert_new == new_value,
{
    let delete_old = if index_has_row { current } else { None };
    Fts5Sync { delete_old, insert_new: new_value }
}

/// The migration adds every column that the plain `add_column` adds, and
/// more only where the column asks to be unique; where both refuse, they
/// refuse for the same reason.
pub proof fn lemma_migration_add_column_accepts_more(table_name: Seq<char>, column: ColumnSpec)
    ensures
        add_column_refusal(table_name, column, false) is None ==> add_column_refusal(table_name, column, true) is None,
        add_column_refusal(table_name, column, true) != add_column_refusal(table_name, column, false) ==> column.unique
            && add_column_refusal(table_name, column, false) == Some(unique_message()),
        !column.unique ==> add_column_refusal(table_name, column, true) == add_column_refusal(table_name, column, false),
{
}

} // verus!
