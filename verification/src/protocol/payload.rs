//! The request and response bodies of every operation the service offers.

use vstd::prelude::*;

use super::error::DbError;
use super::new_table::{ColumnDef, ForeignKeyDef};
use super::row_col::{Col, Row};

verus! {

#[derive(Debug)]
pub struct CreateTableIn {
    pub table_name: String,
    pub columns: Vec<ColumnDef>,
}

#[derive(Debug)]
pub struct CreateTableOut {
    pub result: Option<DbError>,
}

#[derive(Debug, Clone)]
pub struct ListTablesOut {
    pub table_names: Vec<String>,
}

/// How two conditions are combined.
#[derive(Debug, Clone, Copy, PartialEq, Eq, Structural)]
pub enum JoinType {
    And,
    Or,
}

/// One condition of a `WHERE` clause.
#[derive(Debug, Clone)]
#[allow(inconsistent_fields)]
pub enum SelectArgument {
    XEqualY { x: String, y: String },
    XNotEqualY { x: String, y: String },
    XGreaterThanY { x: String, y: String },
    XLessThanY { x: String, y: String },
    XGreaterThanOrEqualY { x: String, y: String },
    XLessThanOrEqualY { x: String, y: String },
    XLikeY { x: String, y: String },
    XInY { x: String, y: Vec<String> },
    All,
}

/// A `WHERE` clause of one condition, or of two joined ones.
#[derive(Debug, Clone)]
pub enum SelectArguments {
    Single(SelectArgument),
    Two { first: SelectArgument, join: JoinType, second: SelectArgument },
}

#[derive(Debug, Clone)]
pub struct GetDataIn {
    pub table_name: String,
    pub arguments: SelectArguments,
    pub columns_to_read: Vec<String>,
}

#[derive(Debug, Clone)]
pub struct GetDataOut {
    pub rows: Vec<Row>,
}

#[derive(Debug, Clone)]
pub struct GetDataOrderedIn {
    pub table_name: String,
    pub arguments: SelectArguments,
    pub columns_to_read: Vec<String>,
    pub order_by: String,
}

/// A value for one named column of a row being inserted.
#[derive(Debug, Clone)]
pub struct ColumnValue {
    pub column_name: String,
    pub value: Col,
}

#[derive(Debug, Clone)]
pub struct InsertDataIn {
    pub table_name: String,
    pub values: Vec<ColumnValue>,
}

#[derive(Debug)]
pub struct InsertDataOut {
    pub result: Option<DbError>,
}

#[derive(Debug, Clone)]
pub struct DropTableIn {
    pub table_name: String,
}

#[derive(Debug, Clone)]
pub struct EditColInRowIn {
    pub table_name: String,
    pub row_id: String,
    pub column: String,
    pub new_value: Col,
}

#[derive(Debug, Clone)]
pub struct EditColInRowWhereIn {
    pub table_name: String,
    pub where_clause: SelectArguments,
    pub column: String,
    pub new_value: Col,
}

#[derive(Debug, Clone)]
pub struct CheckTableIn {
    pub table_name: String,
}

/// One line of `PRAGMA table_info`; `declared_type` is the column's declared
/// type as SQLite reports it.
#[derive(Debug, Clone, PartialEq)]
pub struct TableColumnInfo {
    pub cid: i64,
    pub name: String,
    pub declared_type: String,
    pub not_null: bool,
    pub default_value: Option<String>,
    pub primary_key: bool,
}

/// The mathematical value of a [`TableColumnInfo`].
pub struct TableColumnSpec {
    pub cid: i64,
    pub name: Seq<char>,
    pub declared_type: Seq<char>,
    pub not_null: bool,
    pub default_value: Option<Seq<char>>,
    pub primary_key: bool,
}

impl View for TableColumnInfo {
    type V = TableColumnSpec;

    open spec fn view(&self) -> TableColumnSpec {
        TableColumnSpec {
            cid: self.cid,
            name: self.name@,
            declared_type: self.declared_type@,
            not_null: self.not_null,
            default_value: match self.default_value {
                Some(d) => Some(d@),
                None => None,
            },
            primary_key: self.primary_key,
        }
    }
}

#[derive(Debug, Clone, PartialEq)]
pub struct CheckTableOut {
    pub columns: Vec<TableColumnInfo>,
}

#[derive(Debug, Clone)]
pub struct DeleteRowIn {
    pub table_name: String,
    pub row_id: String,
}

#[derive(Debug, Clone)]
pub struct SwapColumnsIn {
    pub table_name: String,
    pub row_id_1: String,
    pub row_id_2: String,
    pub column: String,
}

#[derive(Debug, Clone)]
pub struct CreateIndexIn {
    pub table_name: String,
    pub column_name: String,
}

#[derive(Debug, Clone)]
pub struct CheckIndexIn {
    pub table_name: String,
    pub column_name: String,
}

#[derive(Debug, Clone)]
pub struct CheckIndexOut {
    pub is_indexed: bool,
}

#[derive(Debug, Clone)]
pub struct AddColumnIn {
    pub table_name: String,
    pub column: ColumnDef,
}

#[derive(Debug, Clone)]
pub struct ExportDatabaseIn {}

#[derive(Debug, Clone)]
pub struct ExportDatabaseOut {
    pub data: Vec<u8>,
}

#[derive(Debug, Clone)]
pub struct RemoveColumnIn {
    pub table_name: String,
    pub column_name: String,
}

/// Where an edited column's data comes from when the table gets rebuilt.
#[derive(Debug, Clone)]
pub enum ColumnSource {
    SameName,
    FromColumn(String),
    Expression(String),
    UseDefault,
}

#[derive(Debug, Clone)]
pub struct FundamentallyEditExistingColIn {
    pub table_name: String,
    pub column_name: String,
    pub new_column: ColumnDef,
    pub source: ColumnSource,
}

#[derive(Debug, Clone)]
pub struct ExportTablesIn {
    pub table_names: Vec<String>,
}

/// A table's shape and contents, as exported.
#[derive(Debug, Clone)]
pub struct TableExport {
    pub table_name: String,
    pub columns: Vec<TableColumnInfo>,
    pub rows: Vec<Row>,
}

#[derive(Debug, Clone)]
pub struct ExportTablesOut {
    pub tables: Vec<TableExport>,
}

#[derive(Debug, Clone)]
pub struct CreateTableFromExportIn {
    pub table_name: String,
    pub table: TableExport,
}

#[derive(Debug, Clone)]
pub struct CopyTableIn {
    pub source_table_name: String,
    pub new_table_name: String,
}

#[derive(Debug, Clone)]
pub struct CreateFts5TableIn {
    pub source_table_name: String,
    pub columns: Vec<String>,
}

#[derive(Debug, Clone)]
pub struct SearchFts5In {
    pub table_name: String,
    pub text_to_lookup: String,
}

pub type SearchFts5Out = GetDataOut;

#[derive(Debug, Clone)]
pub struct RebuildFts5In {
    pub table_name: String,
}

pub type ForceDropTableIn = DropTableIn;

#[derive(Debug, Clone)]
pub struct CreateForeignTableIn {
    pub table_name: String,
    pub columns: Vec<ColumnDef>,
    pub foreign_keys: Vec<ForeignKeyDef>,
}

/// The filters for one column, used when counting rows.
#[derive(Debug, Clone)]
pub struct ColumnFilter {
    pub col_name: String,
    pub arguments: SelectArguments,
    pub join: Option<JoinType>,
}

#[derive(Debug, Clone)]
pub struct CountRowsIn {
    pub table_name: String,
    pub filters: Vec<ColumnFilter>,
}

#[derive(Debug, Clone)]
pub struct CountRowsOut {
    pub count: u64,
}

#[derive(Debug, Clone)]
pub struct CountAllRowsIn {
    pub table_name: String,
}

pub type CountAllRowsOut = CountRowsOut;

} // verus!
