use db_wrapper::db::black_magic::{check_new_table_name, first_value_of, parse_row_id, prepare_added_column};
use db_wrapper::db::rebuild::{fundamentally_edit_existing_col, IndexState, TableSnapshot};
use db_wrapper::protocol::error::DbError;
use db_wrapper::protocol::new_table::{id_column, not_null_col, ColumnDef, ColumnType};
use db_wrapper::protocol::payload::{ColumnSource, FundamentallyEditExistingColIn, TableColumnInfo};
use db_wrapper::protocol::row_col::Row;

fn info(cid: i64, name: &str, declared_type: &str, not_null: bool, pk: bool) -> TableColumnInfo {
    TableColumnInfo {
        cid,
        name: name.to_string(),
        declared_type: declared_type.to_string(),
        not_null,
        default_value: None,
        primary_key: pk,
    }
}

// create_table rejects an empty table name.
#[test]
fn create_table_rejects_empty_name() {
    let result = check_new_table_name("");
    assert!(matches!(result, Some(DbError::IllegalInput(_))));
}

// create_table rejects names starting with the reserved "fts5_" prefix.
#[test]
fn create_table_rejects_fts5_prefix() {
    let result = check_new_table_name("fts5_users");
    assert!(matches!(result, Some(DbError::IllegalInput(_))));
}

#[test]
fn create_table_accepts_ordinary_names() {
    assert_eq!(check_new_table_name("users"), None);
    assert_eq!(check_new_table_name("fts5"), None);
    assert_eq!(
        check_new_table_name(""),
        Some(DbError::IllegalInput("table_name is empty".to_string()))
    );
    assert_eq!(
        check_new_table_name("fts5_x"),
        Some(DbError::IllegalInput("table_name cannot start with reserved prefix 'fts5_'".to_string()))
    );
}

// add_column rejects PRIMARY KEY columns.
#[test]
fn add_column_rejects_primary_key() {
    let result = prepare_added_column(
        "users",
        ColumnDef {
            name: "new_pk".into(),
            column_type: "INTEGER".into(),
            primary_key: true,
            not_null: false,
            unique: false,
            default_value: String::new(),
            autoincrement: false,
        },
    );
    assert!(matches!(result, Err(DbError::IllegalInput(_))));
}

// add_column rejects NOT NULL columns without a default value.
#[test]
fn add_column_rejects_not_null_without_default() {
    let result = prepare_added_column("users", not_null_col(ColumnType::Text, "required"));
    assert!(matches!(result, Err(DbError::IllegalInput(_))));
}

// add_column rejects AUTOINCREMENT columns.
#[test]
fn add_column_rejects_autoincrement() {
    let result = prepare_added_column(
        "users",
        ColumnDef {
            name: "counter".into(),
            column_type: "INTEGER".into(),
            primary_key: false,
            not_null: false,
            unique: false,
            default_value: String::new(),
            autoincrement: true,
        },
    );
    assert!(matches!(result, Err(DbError::IllegalInput(_))));
}

// edit_col_in_row rejects row ids that are not numbers.
#[test]
fn edit_col_in_row_rejects_non_numeric_id() {
    let result = parse_row_id("not-a-number");
    assert!(matches!(result, Err(DbError::IllegalInput(_))));
    assert_eq!(
        result,
        Err(DbError::IllegalInput("row id is not a number: invalid digit found in string".to_string()))
    );
    assert_eq!(parse_row_id("12"), Ok(12));
}

// swap_columns fails when one of the row ids does not exist.
#[test]
fn swap_columns_rejects_missing_row() {
    let rows_for_999: Vec<Row> = Vec::new();
    let result = first_value_of(&rows_for_999, "999");
    assert!(matches!(result, Err(DbError::IllegalInput(_))));
    assert_eq!(result, Err(DbError::IllegalInput("No row found for id 999".to_string())));
}

#[test]
fn edit_column_to_a_name_that_already_exists() {
    let snapshot = TableSnapshot {
        columns: vec![
            info(0, "id", "INTEGER", true, true),
            info(1, "name", "TEXT", true, false),
            info(2, "age", "INTEGER", true, false),
        ],
        unique_groups: Vec::new(),
        index_state: Vec::<IndexState>::new(),
        autoincrement_col: Some("id".to_string()),
    };
    let result = fundamentally_edit_existing_col(
        &FundamentallyEditExistingColIn {
            table_name: "users".into(),
            column_name: "name".into(),
            new_column: not_null_col(ColumnType::Text, "age"),
            source: ColumnSource::SameName,
        },
        &snapshot,
    );
    assert!(matches!(result, Err(DbError::IllegalInput(_))));
    assert!(matches!(
        result,
        Err(DbError::IllegalInput(m)) if m == "column 'age' already exists in table 'users'"
    ));
    let _ = id_column();
}
