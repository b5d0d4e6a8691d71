use vstd::prelude::*;
use vstd::string::*;

use crate::db::rebuild::column_specs;
use crate::protocol::new_table::{id_column, id_column_spec, not_null_col, not_null_spec, ColumnDef, ColumnSpec, ColumnType};
use crate::schema_migration::helpers::{table_specs, ADbTable, TableSpec};

verus! {

/// `table1`: an id, a text and a number.
pub open spec fn table1_spec() -> Seq<ColumnSpec> {
    seq![
        id_column_spec(),
        not_null_spec(ColumnType::Text, "text"@),
        not_null_spec(ColumnType::Integer, "number"@),
    ]
}

pub fn entire_table() -> (r: Vec<ADbTable>)
    ensures
        table_specs(r@) == seq![TableSpec { table_name: "table1"@, columns: table1_spec() }],
{
    let mut entire_table: Vec<ADbTable> = Vec::new();
    entire_table.push(ADbTable { table_name: String::from_str("table1"), columns: table1_columns() });
    assert(table_specs(entire_table@) =~= seq![TableSpec { table_name: "table1"@, columns: table1_spec() }]);
    entire_table
}

pub fn table1_columns() -> (r: Vec<ColumnDef>)
    ensures
        column_specs(r@) == table1_spec(),
{
    let r = vec![id_column(), not_null_col(ColumnType::Text, "text"), not_null_col(ColumnType::Integer, "number")];
    assert(column_specs(r@) =~= table1_spec());
    r
}

} // verus!
