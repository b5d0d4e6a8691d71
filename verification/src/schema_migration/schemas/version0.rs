use vstd::prelude::*;
use vstd::string::*;

use crate::db::rebuild::column_specs;
use crate::protocol::new_table::{
    id_column, id_column_spec, not_null_col, not_null_spec, ColumnDef, ColumnSpec, ColumnType, ForeignKeyDef,
};
use crate::schema_migration::helpers::{table_specs, ADbTable, TableSpec};

verus! {

/// `texts`: an id, a title and a body.
pub open spec fn texts_spec() -> Seq<ColumnSpec> {
    seq![
        id_column_spec(),
        not_null_spec(ColumnType::Text, "title"@),
        not_null_spec(ColumnType::Text, "body"@),
    ]
}

/// `keyword_lookup`: an id, the text it points to and a keyword.
pub open spec fn keyword_lookup_spec() -> Seq<ColumnSpec> {
    seq![
        id_column_spec(),
        not_null_spec(ColumnType::Integer, "text_id"@),
        not_null_spec(ColumnType::Text, "keyword"@),
    ]
}

/// The tables of version 0.
pub open spec fn version0_spec() -> Seq<TableSpec> {
    seq![
        TableSpec { table_name: "texts"@, columns: texts_spec() },
        TableSpec { table_name: "keyword_lookup"@, columns: keyword_lookup_spec() },
    ]
}

pub fn entire_table() -> (r: Vec<ADbTable>)
    ensures
        table_specs(r@) == version0_spec(),
{
    let mut entire_table: Vec<ADbTable> = Vec::new();
    entire_table.push(ADbTable { table_name: String::from_str("texts"), columns: texts_columns() });
    entire_table.push(ADbTable { table_name: String::from_str("keyword_lookup"), columns: keyword_lookup_columns() });
    assert(table_specs(entire_table@) =~= version0_spec());
    entire_table
}

pub fn texts_columns() -> (r: Vec<ColumnDef>)
    ensures
        column_specs(r@) == texts_spec(),
{
    let r = vec![id_column(), not_null_col(ColumnType::Text, "title"), not_null_col(ColumnType::Text, "body")];
    assert(column_specs(r@) =~= texts_spec());
    r
}

pub fn keyword_lookup_columns() -> (r: Vec<ColumnDef>)
    ensures
        column_specs(r@) == keyword_lookup_spec(),
{
    let r = vec![
        id_column(),
        not_null_col(ColumnType::Integer, "text_id"),
        not_null_col(ColumnType::Text, "keyword"),
    ];
    assert(column_specs(r@) =~= keyword_lookup_spec());
    r
}

/// `keyword_lookup.text_id` refers to `texts.id`.
pub fn get_foreign_def_keyword_lookup() -> (r: Vec<ForeignKeyDef>)
    ensures
        r@.len() == 1,
        r@[0].column@ == "text_id"@,
        r@[0].referenced_table@ == "texts"@,
        r@[0].referenced_column@ == "id"@,
{
    vec![
        ForeignKeyDef {
            column: String::from_str("text_id"),
            referenced_table: String::from_str("texts"),
            referenced_column: String::from_str("id"),
        },
    ]
}

} // verus!
