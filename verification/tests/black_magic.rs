use std::collections::HashMap;
use db_wrapper::db::black_magic::{
    check_added_column, columns_from_export, column_info_from_pragma, create_table_from_export,
    current_value_query, first_text_value, fts5_sync_actions, index_covers_column, index_name,
    prepare_added_column, swap_columns_edits, swap_value_query, unique_index_name,
    values_from_export_row,
};
use db_wrapper::db::statements::{add_column_statements, create_index_statement, Statement};
use db_wrapper::protocol::error::DbError;
use db_wrapper::protocol::new_table::{col_with_default_value, not_null_col, ColumnDef, ColumnType};
use db_wrapper::protocol::payload::{
    SelectArgument, SelectArguments, SwapColumnsIn, TableColumnInfo, TableExport,
};
use db_wrapper::protocol::row_col::{Col, Row};

fn info(cid: i64, name: &str, declared_type: &str, not_null: bool, default: Option<&str>, pk: bool) -> TableColumnInfo {
    TableColumnInfo {
        cid,
        name: name.to_string(),
        declared_type: declared_type.to_string(),
        not_null,
        default_value: default.map(|d| d.to_string()),
        primary_key: pk,
    }
}

fn unique_text_col(name: &str) -> ColumnDef {
    let mut c = col_with_default_value(ColumnType::Text, String::new(), name);
    c.unique = true;
    c
}

fn strings(v: &[&str]) -> Vec<String> {
    v.iter().map(|s| s.to_string()).collect()
}

fn row(cols: Vec<Col>) -> Row {
    Row { cols }
}

#[test]
fn plain_add_column_refuses_unique_but_the_migration_indexes_it() {
    let email = unique_text_col("email");
    match check_added_column("users", &email) {
        Err(DbError::IllegalInput(_)) => {},
        other => panic!("unexpected {:?}", other),
    }
    let prepared = prepare_added_column("users", email).unwrap();
    assert!(prepared.wants_unique);
    assert!(!prepared.column.unique);
    let statements = add_column_statements("users", &prepared);
    assert_eq!(statements.len(), 2);
    match &statements[0] {
        Statement::AddColumn { table_name, column } => {
            assert_eq!(table_name, "users");
            assert_eq!(column.name, "email");
            assert!(!column.unique);
        },
        other => panic!("unexpected {:?}", other),
    }
    assert_eq!(
        statements[1],
        Statement::CreateIndex {
            name: "uidx_users_email".to_string(),
            table_name: "users".to_string(),
            columns: strings(&["email"]),
            unique: true,
            if_not_exists: true,
        }
    );
}

#[test]
fn not_null_column_with_default_is_added_as_is() {
    let mut note = col_with_default_value(ColumnType::Text, "'seed'".to_string(), "note");
    note.not_null = true;
    assert!(check_added_column("users", &note).is_ok());
    let prepared = prepare_added_column("users", note.clone()).unwrap();
    assert!(!prepared.wants_unique);
    assert_eq!(prepared.column, note);
    let statements = add_column_statements("users", &prepared);
    assert_eq!(
        statements,
        vec![Statement::AddColumn { table_name: "users".to_string(), column: note }]
    );
}

#[test]
fn add_column_refuses_an_empty_table_name() {
    let c = not_null_col(ColumnType::Text, "x");
    assert!(matches!(check_added_column("", &c), Err(DbError::IllegalInput(_))));
}

#[test]
fn index_names_follow_the_convention() {
    assert_eq!(index_name("users", "name"), "idx_users_name");
    assert_eq!(unique_index_name("users", "email"), "uidx_users_email");
    assert_eq!(
        create_index_statement("users", "name"),
        Statement::CreateIndex {
            name: "idx_users_name".to_string(),
            table_name: "users".to_string(),
            columns: strings(&["name"]),
            unique: false,
            if_not_exists: true,
        }
    );
}

#[test]
fn pragma_lines_become_column_info() {
    let c = column_info_from_pragma(2, "age".to_string(), "INTEGER".to_string(), 1, Some("0".to_string()), 0);
    assert_eq!(c, info(2, "age", "INTEGER", true, Some("0"), false));
    let c = column_info_from_pragma(0, "id".to_string(), "INTEGER".to_string(), 0, None, 1);
    assert_eq!(c, info(0, "id", "INTEGER", false, None, true));
}

#[test]
fn index_coverage_ignores_ascii_case() {
    let indexes = vec![strings(&["a", "b"]), strings(&["Name"])];
    assert!(index_covers_column(&indexes, "name"));
    assert!(index_covers_column(&indexes, "B"));
    assert!(!index_covers_column(&indexes, "age"));
    assert!(!index_covers_column(&vec![], "name"));
}

#[test]
fn export_columns_drop_unique_and_autoincrement() {
    let columns = vec![
        info(0, "id", "INTEGER", true, None, true),
        info(1, "name", "TEXT", false, Some("'x'"), false),
    ];
    let defs = columns_from_export(&columns);
    assert_eq!(defs.len(), 2);
    assert_eq!(defs[0].name, "id");
    assert!(defs[0].primary_key && defs[0].not_null && !defs[0].unique && !defs[0].autoincrement);
    assert_eq!(defs[0].default_value, "");
    assert_eq!(defs[1].column_type, "TEXT");
    assert_eq!(defs[1].default_value, "'x'");
    assert!(!defs[1].not_null && !defs[1].primary_key);
}

#[test]
fn export_row_values_follow_the_columns() {
    let columns = vec![info(0, "id", "INTEGER", true, None, true), info(1, "name", "TEXT", true, None, false)];
    let r = row(vec![Col::Integer(1), Col::Text("alice".to_string()), Col::Null]);
    let values = values_from_export_row(&r, &columns);
    assert_eq!(values.len(), 3);
    assert_eq!(values[0].column_name, "id");
    assert_eq!(values[0].value, Col::Integer(1));
    assert_eq!(values[1].column_name, "name");
    assert_eq!(values[1].value, Col::Text("alice".to_string()));
    assert_eq!(values[2].column_name, "");
    assert_eq!(values[2].value, Col::Null);
}

#[test]
fn table_from_export_is_refused_or_planned() {
    let export = TableExport {
        table_name: "users".to_string(),
        columns: vec![info(0, "id", "INTEGER", true, None, true), info(1, "name", "TEXT", true, None, false)],
        rows: vec![row(vec![Col::Integer(1), Col::Text("alice".to_string())]), row(vec![Col::Integer(2)])],
    };
    match create_table_from_export("copy", &export, true) {
        Err(DbError::IllegalInput(m)) => assert_eq!(m, "Table already exists: copy"),
        other => panic!("unexpected {:?}", other.map(|_| ())),
    }
    match create_table_from_export("", &export, false) {
        Err(DbError::IllegalInput(m)) => assert_eq!(m, "table_name is empty"),
        other => panic!("unexpected {:?}", other.map(|_| ())),
    }
    match create_table_from_export("fts5_copy", &export, false) {
        Err(DbError::IllegalInput(m)) => assert_eq!(m, "table_name cannot start with reserved prefix 'fts5_'"),
        other => panic!("unexpected {:?}", other.map(|_| ())),
    }
    let plan = create_table_from_export("copy", &export, false).unwrap();
    assert_eq!(plan.columns.len(), 2);
    assert_eq!(plan.rows.len(), 2);
    assert_eq!(plan.rows[0].len(), 2);
    assert_eq!(plan.rows[0][1].column_name, "name");
    assert_eq!(plan.rows[1].len(), 1);
    assert_eq!(plan.rows[1][0].value, Col::Integer(2));
}

fn swap_input() -> SwapColumnsIn {
    SwapColumnsIn {
        table_name: "users".to_string(),
        row_id_1: "1".to_string(),
        row_id_2: "2".to_string(),
        column: "name".to_string(),
    }
}

#[test]
fn swap_exchanges_the_two_values() {
    let input = swap_input();
    let rows_1 = vec![row(vec![Col::Text("alice".to_string())])];
    let rows_2 = vec![row(vec![Col::Text("bob".to_string())])];
    let (e1, e2) = swap_columns_edits(&input, &rows_1, &rows_2).unwrap();
    assert_eq!(e1.row_id, "1");
    assert_eq!(e1.new_value, Col::Text("bob".to_string()));
    assert_eq!(e2.row_id, "2");
    assert_eq!(e2.new_value, Col::Text("alice".to_string()));
    assert_eq!(e1.column, "name");
    assert_eq!(e2.table_name, "users");
}

#[test]
fn swap_refuses_a_row_without_value() {
    let input = swap_input();
    let rows_1 = vec![row(vec![Col::Integer(3)])];
    let rows_2 = vec![row(vec![])];
    match swap_columns_edits(&input, &rows_1, &rows_2) {
        Err(DbError::IllegalInput(m)) => assert_eq!(m, "No column value for id 2"),
        other => panic!("unexpected {:?}", other),
    }
}

#[test]
fn reads_select_by_id() {
    let q = swap_value_query(&swap_input(), "7");
    assert_eq!(q.table_name, "users");
    assert_eq!(q.columns_to_read, strings(&["name"]));
    match q.arguments {
        SelectArguments::Single(SelectArgument::XEqualY { x, y }) => {
            assert_eq!(x, "id");
            assert_eq!(y, "7");
        },
        other => panic!("unexpected {:?}", other),
    }
    let q = current_value_query("docs", "3", "body");
    assert_eq!(q.table_name, "docs");
    assert_eq!(q.columns_to_read, strings(&["body"]));
    match q.arguments {
        SelectArguments::Single(SelectArgument::XEqualY { x, y }) => {
            assert_eq!(x, "id");
            assert_eq!(y, "3");
        },
        other => panic!("unexpected {:?}", other),
    }
}

#[test]
fn first_text_value_takes_only_text() {
    assert_eq!(first_text_value(&vec![row(vec![Col::Text("alpha".to_string())])]), Some("alpha".to_string()));
    assert_eq!(first_text_value(&vec![row(vec![Col::Integer(1)])]), None);
    assert_eq!(first_text_value(&vec![row(vec![])]), None);
    assert_eq!(first_text_value(&vec![]), None);
}

#[test]
fn fts5_sync_decisions_through_insert_update_delete() {
    // insert: the index has no entry for the row yet
    let s = fts5_sync_actions(false, None, Some("alpha".to_string()));
    assert_eq!(s.delete_old, None);
    assert_eq!(s.insert_new, Some("alpha".to_string()));
    // update: the old entry goes, the new one comes
    let s = fts5_sync_actions(true, Some("alpha".to_string()), Some("beta".to_string()));
    assert_eq!(s.delete_old, Some("alpha".to_string()));
    assert_eq!(s.insert_new, Some("beta".to_string()));
    // delete: the old entry goes, nothing comes
    let s = fts5_sync_actions(true, Some("beta".to_string()), None);
    assert_eq!(s.delete_old, Some("beta".to_string()));
    assert_eq!(s.insert_new, None);
    // an index without the row deletes nothing, whatever the row held
    let s = fts5_sync_actions(false, Some("gamma".to_string()), Some("delta".to_string()));
    assert_eq!(s.delete_old, None);
    assert_eq!(s.insert_new, Some("delta".to_string()));
}

#[test]
fn swapping_twice_restores_the_table() {
    let mut table: HashMap<String, Col> = HashMap::new();
    table.insert("1".to_string(), Col::Text("alice".to_string()));
    table.insert("2".to_string(), Col::Integer(7));
    table.insert("3".to_string(), Col::Null);
    let original = table.clone();
    let input = swap_input();
    for _ in 0..2 {
        let rows_1 = vec![row(vec![table["1"].clone()])];
        let rows_2 = vec![row(vec![table["2"].clone()])];
        let (e1, e2) = swap_columns_edits(&input, &rows_1, &rows_2).unwrap();
        table.insert(e1.row_id.clone(), e1.new_value.clone());
        table.insert(e2.row_id.clone(), e2.new_value.clone());
        if table != original {
            assert_eq!(table["1"], Col::Integer(7));
            assert_eq!(table["2"], Col::Text("alice".to_string()));
            assert_eq!(table["3"], Col::Null);
        }
    }
    assert_eq!(table, original);
}
