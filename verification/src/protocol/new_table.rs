use vstd::prelude::*;
use vstd::string::*;

verus! {

#[derive(Debug, Clone, PartialEq)]
/// A column as it is handed to `CREATE TABLE` / `ALTER TABLE ... ADD COLUMN`.
pub struct ColumnDef {
    pub name: String,
    pub column_type: String,
    pub primary_key: bool,
    pub not_null: bool,
    pub unique: bool,
    pub default_value: String,
    pub autoincrement: bool,
}

/// The mathematical value of a [`ColumnDef`].
pub struct ColumnSpec {
    pub name: Seq<char>,
    pub column_type: Seq<char>,
    pub primary_key: bool,
    pub not_null: bool,
    pub unique: bool,
    pub default_value: Seq<char>,
    pub autoincrement: bool,
}

impl View for ColumnDef {
    type V = ColumnSpec;

    open spec fn view(&self) -> ColumnSpec {
        ColumnSpec {
            name: self.name@,
            column_type: self.column_type@,
            primary_key: self.primary_key,
            not_null: self.not_null,
            unique: self.unique,
            default_value: self.default_value@,
            autoincrement: self.autoincrement,
        }
    }
}

#[derive(Debug, Clone, Copy, PartialEq, Eq, Structural)]
/// The SQLite storage classes a column can be declared with.
pub enum ColumnType {
    Integer,
    Text,
    Real,
    Blob,
}

/// The SQL type name written for a column type.
pub open spec fn sql_type_name(t: ColumnType) -> Seq<char> {
    match t {
        ColumnType::Integer => "INTEGER"@,
        ColumnType::Text => "TEXT"@,
        ColumnType::Real => "REAL"@,
        ColumnType::Blob => "BLOB"@,
    }
}

/// Positional description of a column: name, type, primary key, not null,
/// unique, default value, autoincrement.
pub struct ColumnDefBuilder(
    pub String,
    pub ColumnType,
    pub bool,
    pub bool,
    pub bool,
    pub String,
    pub bool,
);

/// The value of the conventional `id` key column.
pub open spec fn id_column_spec() -> ColumnSpec {
    ColumnSpec {
        name: "id"@,
        column_type: "INTEGER"@,
        primary_key: true,
        not_null: true,
        unique: true,
        default_value: Seq::empty(),
        autoincrement: true,
    }
}

/// The value of a `NOT NULL` column of type `t` called `name`, without a default.
pub open spec fn not_null_spec(t: ColumnType, name: Seq<char>) -> ColumnSpec {
    ColumnSpec {
        name,
        column_type: sql_type_name(t),
        primary_key: false,
        not_null: true,
        unique: false,
        default_value: Seq::empty(),
        autoincrement: false,
    }
}

/// Turns the positional description into a [`ColumnDef`], spelling the type
/// out as its SQL name.
pub fn builder_to_column_def(builder: ColumnDefBuilder) -> (r: ColumnDef)
    ensures
        r@ == (ColumnSpec {
            name: builder.0@,
            column_type: sql_type_name(builder.1),
            primary_key: builder.2,
            not_null: builder.3,
            unique: builder.4,
            default_value: builder.5@,
            autoincrement: builder.6,
        }),
{
    let column_type = match builder.1 {
        ColumnType::Integer => String::from_str("INTEGER"),
        ColumnType::Text => String::from_str("TEXT"),
        ColumnType::Real => String::from_str("REAL"),
        ColumnType::Blob => String::from_str("BLOB"),
    };
    ColumnDef {
        name: builder.0,
        column_type,
        primary_key: builder.2,
        not_null: builder.3,
        unique: builder.4,
        default_value: builder.5,
        autoincrement: builder.6,
    }
}

/// The conventional `id INTEGER PRIMARY KEY NOT NULL UNIQUE AUTOINCREMENT` column.
pub fn id_column() -> (r: ColumnDef)
    ensures
        r@ == id_column_spec(),
{
    builder_to_column_def(
        ColumnDefBuilder(String::from_str("id"), ColumnType::Integer, true, true, true, String::new(), true),
    )
}

/// A plain nullable column of the given type, without a default.
pub fn default_col(column_type: ColumnType, column_name: &str) -> (r: ColumnDef)
    ensures
        r@ == (ColumnSpec {
            name: column_name@,
            column_type: sql_type_name(column_type),
            primary_key: false,
            not_null: false,
            unique: false,
            default_value: Seq::empty(),
            autoincrement: false,
        }),
{
    builder_to_column_def(
        ColumnDefBuilder(
            String::from_str(column_name),
            column_type,
            false,
            false,
            false,
            String::new(),
            false,
        ),
    )
}

/// A nullable column of the given type whose default is the SQL expression
/// `default_value`.
pub fn col_with_default_value(column_type: ColumnType, default_value: String, column_name: &str) -> (r: ColumnDef)
    ensures
        r@ == (ColumnSpec {
            name: column_name@,
            column_type: sql_type_name(column_type),
            primary_key: false,
            not_null: false,
            unique: false,
            default_value: default_value@,
            autoincrement: false,
        }),
{
    builder_to_column_def(
        ColumnDefBuilder(
            String::from_str(column_name),
            column_type,
            false,
            false,
            false,
            default_value,
            false,
        ),
    )
}

/// A `NOT NULL` column of the given type, without a default.
pub fn not_null_col(column_type: ColumnType, column_name: &str) -> (r: ColumnDef)
    ensures
        r@ == not_null_spec(column_type, column_name@),
{
    builder_to_column_def(
        ColumnDefBuilder(
            String::from_str(column_name),
            column_type,
            false,
            true,
            false,
            String::new(),
            false,
        ),
    )
}

/// A foreign key: `column` refers to `referenced_column` of `referenced_table`.
#[derive(Debug, Clone, PartialEq)]
pub struct ForeignKeyDef {
    pub column: String,
    pub referenced_table: String,
    pub referenced_column: String,
}

} // verus!
