use vstd::prelude::*;
use vstd::string::*;

use crate::db::rebuild::column_specs;
use crate::migration_template::version0::table1_spec;
use crate::protocol::new_table::{id_column, id_column_spec, not_null_col, not_null_spec, ColumnDef, ColumnSpec, ColumnType};
use crate::schema_migration::helpers::{table_specs, ADbTable, TableSpec};

verus! {

/// `table2`: an id and a label.
pub open spec fn table2_spec() -> Seq<ColumnSpec> {
    seq![id_column_spec(), not_null_spec(ColumnType::Text, "label"@)]
}

/// The tables of version 1: version 0's `table1`, and `table2`.
pub fn entire_table() -> (r: Vec<ADbTable>)
    ensures
        table_specs(r@) == seq![
            TableSpec { table_name: "table1"@, columns: table1_spec() },
            TableSpec { table_name: "table2"@, columns: table2_spec() },
        ],
{
    let mut entire_table: Vec<ADbTable> = Vec::new();
    entire_table.push(ADbTable { table_name: String::from_str("table1"), columns: table1_columns() });
    entire_table.push(ADbTable { table_name: String::from_str("table2"), columns: table2_columns() });
    assert(table_specs(entire_table@) =~= seq![
        TableSpec { table_name: "table1"@, columns: table1_spec() },
        TableSpec { table_name: "table2"@, columns: table2_spec() },
    ]);
    entire_table
}

/// `table1` is unchanged from version 0.
pub fn table1_columns() -> (r: Vec<ColumnDef>)
    ensures
        column_specs(r@) == table1_spec(),
{
    let r = vec![id_column(), not_null_col(ColumnType::Text, "text"), not_null_col(ColumnType::Integer, "number")];
    assert(column_specs(r@) =~= table1_spec());
    r
}

pub fn table2_columns() -> (r: Vec<ColumnDef>)
    ensures
        column_specs(r@) == table2_spec(),
{
    let r = vec![id_column(), not_null_col(ColumnType::Text, "label")];
    assert(column_specs(r@) =~= table2_spec());
    r
}

} // verus!
