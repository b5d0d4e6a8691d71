use db_wrapper::db::safety_first::LiveForever;
use db_wrapper::db::sql_log::SqlLog;
use db_wrapper::db::table_ops::{add_column, copy_table, create_index, create_table, drop_table, remove_column};
use db_wrapper::protocol::error::DbError;
use db_wrapper::protocol::new_table::{col_with_default_value, id_column, not_null_col, ColumnType};
use db_wrapper::protocol::payload::{CopyTableIn, CreateIndexIn, CreateTableIn, DropTableIn, RemoveColumnIn};

fn names(db: &LiveForever, table: &str) -> Vec<String> {
    let mut stmt = db.db_conn.prepare("SELECT name FROM pragma_table_info(?1)").unwrap();
    stmt.query_map([table], |r| r.get::<_, String>(0)).unwrap().collect::<Result<Vec<_>, _>>().unwrap()
}

fn count(db: &LiveForever, table: &str) -> i64 {
    db.db_conn.query_row(&format!("SELECT COUNT(*) FROM \"{}\"", table), [], |r| r.get(0)).unwrap()
}

fn users(db: &LiveForever) {
    db.create_table(CreateTableIn {
        table_name: "users".into(),
        columns: vec![id_column(), not_null_col(ColumnType::Text, "name")],
    })
    .unwrap();
}

#[test]
fn create_table_duplicate_name_is_silent() {
    let db = LiveForever::new().unwrap();
    users(&db);
    users(&db);
    assert_eq!(names(&db, "users"), vec!["id", "name"]);
}

#[test]
fn create_table_refuses_names_before_running_anything() {
    let db = LiveForever::new().unwrap();
    let r = db.create_table(CreateTableIn { table_name: "fts5_x".into(), columns: vec![id_column()] });
    assert_eq!(r, Err(DbError::IllegalInput("table_name cannot start with reserved prefix 'fts5_'".into())));
    assert_eq!(create_table(&db.db_conn, &mut SqlLog::new(), "", vec![id_column()]), Some(DbError::IllegalInput("table_name is empty".into())));
    // a bad column type is SQLite's to refuse
    let mut bad = not_null_col(ColumnType::Text, "x");
    bad.column_type = "NOT A (TYPE".into();
    match create_table(&db.db_conn, &mut SqlLog::new(), "t", vec![bad]) {
        Some(DbError::SqlExecuteFail(m)) => {
            assert!(m.starts_with("err: "));
            assert!(m.ends_with(", sql: CREATE TABLE IF NOT EXISTS \"t\" (\"x\" NOT A (TYPE NOT NULL);"));
        },
        other => panic!("unexpected {:?}", other),
    }
}

#[test]
fn index_copy_drop_and_columns() {
    let db = LiveForever::new().unwrap();
    users(&db);
    db.db_conn.execute_batch("INSERT INTO users (name) VALUES ('alice'); INSERT INTO users (name) VALUES ('bob');").unwrap();

    db.create_index(CreateIndexIn { table_name: "users".into(), column_name: "name".into() }).unwrap();
    let n: i64 = db
        .db_conn
        .query_row("SELECT COUNT(*) FROM pragma_index_list('users') WHERE name = 'idx_users_name'", [], |r| r.get(0))
        .unwrap();
    assert_eq!(n, 1);
    // creating it again is silent
    create_index(&db.db_conn, &mut SqlLog::new(), "users", "name").unwrap();

    db.copy_table(CopyTableIn { source_table_name: "users".into(), new_table_name: "users_copy".into() }).unwrap();
    assert_eq!(count(&db, "users_copy"), 2);

    add_column(&db.db_conn, &mut SqlLog::new(), "users", col_with_default_value(ColumnType::Integer, "0".into(), "age")).unwrap();
    assert_eq!(names(&db, "users"), vec!["id", "name", "age"]);
    let mut pk = not_null_col(ColumnType::Integer, "k");
    pk.primary_key = true;
    assert_eq!(
        add_column(&db.db_conn, &mut SqlLog::new(), "users", pk),
        Err(DbError::IllegalInput("ADD COLUMN does not support PRIMARY KEY".into()))
    );

    db.remove_column(RemoveColumnIn { table_name: "users".into(), column_name: "age".into() }).unwrap();
    assert_eq!(names(&db, "users"), vec!["id", "name"]);
    match remove_column(&db.db_conn, &mut SqlLog::new(), "users", "nope") {
        Err(DbError::SqlExecuteFail(m)) => assert!(m.starts_with("remove_column failed: ")),
        other => panic!("unexpected {:?}", other),
    }

    db.drop_table(DropTableIn { table_name: "users_copy".into() }).unwrap();
    drop_table(&db.db_conn, &mut SqlLog::new(), "users_copy").unwrap();
    assert!(names(&db, "users_copy").is_empty());
}

fn create_users_table(db: &LiveForever) {
    db.create_table(CreateTableIn {
        table_name: "users".to_string(),
        columns: vec![id_column(), not_null_col(ColumnType::Text, "name"), not_null_col(ColumnType::Integer, "age")],
    })
    .unwrap();
}

fn drop_column(db: &LiveForever, table_name: &str, column_name: &str) {
    db.remove_column(RemoveColumnIn { table_name: table_name.to_string(), column_name: column_name.to_string() })
        .unwrap();
}

#[test]
fn how_test_should_be_written_drop_plain_column() {
    let db = LiveForever::new().unwrap();
    create_users_table(&db);

    drop_column(&db, "users", "age");

    let result = names(&db, "users");
    let expected_result = vec!["id", "name"];
    assert_eq!(result, expected_result);
}

#[test]
fn drop_plain_column_expanded() {
    let db = LiveForever::new().unwrap();

    db.create_table(CreateTableIn {
        table_name: "users".to_string(),
        columns: vec![id_column(), not_null_col(ColumnType::Text, "name"), not_null_col(ColumnType::Integer, "age")],
    })
    .unwrap();

    db.remove_column(RemoveColumnIn { table_name: "users".to_string(), column_name: "age".to_string() }).unwrap();

    let result = names(&db, "users");
    let expected_result = vec!["id", "name"];
    assert_eq!(result, expected_result);
}
