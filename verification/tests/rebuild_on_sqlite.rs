use db_wrapper::db::black_magic::{column_info_from_pragma, index_covers_column};
use db_wrapper::db::migration::{
    autoincrement_column, column_is_unique, created_entries, created_index_state, flatten_groups,
    inline_unique_entries, make_col_disappear, ColumnRemoval, IndexListEntry,
};
use db_wrapper::db::rebuild::{
    fundamentally_edit_existing_col, remake_entire_table_from_scratch, IndexState, TableSnapshot,
};
use db_wrapper::db::safety_first::{begin_all_or_nothing, regret_everything};
use db_wrapper::db::schema_ops::add_column;
use db_wrapper::db::sql_log::SqlLog;
use db_wrapper::db::sql_text::{execute_delete_old_table_and_create_from_scratch, statement_text};
use db_wrapper::db::table_ops::execute_statement;
use db_wrapper::db::statements::{create_index_statement, drop_column_statement, Statement};
use db_wrapper::protocol::error::DbError;
use db_wrapper::protocol::new_table::{col_with_default_value, id_column, not_null_col, ColumnDef, ColumnType};
use db_wrapper::protocol::payload::{AddColumnIn, ColumnSource, FundamentallyEditExistingColIn, TableColumnInfo};
use rusqlite::Connection;

// ---- reading what the database says ----

fn table_shape(conn: &Connection, table: &str) -> Vec<TableColumnInfo> {
    let mut stmt = conn
        .prepare("SELECT cid, name, type, \"notnull\", dflt_value, pk FROM pragma_table_info(?1)")
        .unwrap();
    stmt.query_map([table], |r| {
        Ok(column_info_from_pragma(r.get(0)?, r.get(1)?, r.get(2)?, r.get(3)?, r.get(4)?, r.get(5)?))
    })
    .unwrap()
    .collect::<Result<Vec<_>, _>>()
    .unwrap()
}

fn index_list(conn: &Connection, table: &str) -> Vec<IndexListEntry> {
    let mut stmt = conn.prepare("SELECT name, \"unique\", origin FROM pragma_index_list(?1)").unwrap();
    stmt.query_map([table], |r| Ok(IndexListEntry { name: r.get(0)?, unique: r.get(1)?, origin: r.get(2)? }))
        .unwrap()
        .collect::<Result<Vec<_>, _>>()
        .unwrap()
}

fn index_info(conn: &Connection, index: &str) -> Vec<String> {
    let mut stmt = conn.prepare("SELECT name FROM pragma_index_info(?1)").unwrap();
    stmt.query_map([index], |r| r.get::<_, String>(0)).unwrap().collect::<Result<Vec<_>, _>>().unwrap()
}

fn created_indexes(conn: &Connection, table: &str) -> Vec<IndexState> {
    created_entries(&index_list(conn, table))
        .iter()
        .map(|e| created_index_state(e, index_info(conn, &e.name)))
        .collect()
}

fn unique_groups(conn: &Connection, table: &str) -> Vec<Vec<String>> {
    inline_unique_entries(&index_list(conn, table)).iter().map(|e| index_info(conn, &e.name)).collect()
}

fn snapshot(conn: &Connection, table: &str) -> TableSnapshot {
    let create_sql: Option<String> = conn
        .query_row("SELECT sql FROM sqlite_master WHERE type='table' AND name=?1", [table], |r| r.get(0))
        .ok();
    let columns = table_shape(conn, table);
    let autoincrement_col = autoincrement_column(&create_sql, &columns);
    TableSnapshot {
        columns,
        unique_groups: unique_groups(conn, table),
        index_state: created_indexes(conn, table),
        autoincrement_col,
    }
}

fn column_names(conn: &Connection, table: &str) -> Vec<String> {
    table_shape(conn, table).into_iter().map(|c| c.name).collect()
}

fn is_indexed(conn: &Connection, table: &str, column: &str) -> bool {
    let indexes: Vec<Vec<String>> = index_list(conn, table).iter().map(|e| index_info(conn, &e.name)).collect();
    index_covers_column(&indexes, column)
}

fn is_unique(conn: &Connection, table: &str, column: &str) -> bool {
    column_is_unique(&flatten_groups(&unique_groups(conn, table)), &created_indexes(conn, table), column)
}

fn strings_in(conn: &Connection, table: &str, column: &str) -> Vec<String> {
    let sql = format!("SELECT CAST(\"{}\" AS TEXT) FROM \"{}\" ORDER BY id", column, table);
    let mut stmt = conn.prepare(&sql).unwrap();
    stmt.query_map([], |r| r.get::<_, String>(0)).unwrap().collect::<Result<Vec<_>, _>>().unwrap()
}

// ---- acting on it through the library ----

fn create_table(conn: &Connection, table: &str, columns: Vec<ColumnDef>) {
    let sql = statement_text(&Statement::CreateTable {
        table_name: table.to_string(),
        columns,
        unique_groups: Vec::new(),
        primary_key: Vec::new(),
    });
    conn.execute_batch(&sql).unwrap();
}

fn unique_col(t: ColumnType, name: &str) -> ColumnDef {
    let mut c = col_with_default_value(t, String::new(), name);
    c.unique = true;
    c
}

fn create_users(conn: &Connection, with_email: bool) {
    let mut columns = vec![id_column(), not_null_col(ColumnType::Text, "name"), not_null_col(ColumnType::Integer, "age")];
    if with_email {
        columns.push(unique_col(ColumnType::Text, "email"));
    }
    create_table(conn, "users", columns);
}

fn seed_users(conn: &Connection) {
    conn.execute_batch(
        "INSERT INTO users (name, age) VALUES ('alice', 30);
         INSERT INTO users (name, age) VALUES ('bob', 25);
         INSERT INTO users (name, age) VALUES ('carol', 30);",
    )
    .unwrap();
}

fn index_column(conn: &Connection, column: &str) {
    conn.execute_batch(&statement_text(&create_index_statement("users", column))).unwrap();
}

fn drop_column(conn: &Connection, table: &str, column: &str) -> Result<(), DbError> {
    let columns = table_shape(conn, table);
    let removal = make_col_disappear(table, column, &columns, is_indexed(conn, table, column), false)?;
    match removal {
        ColumnRemoval::DropInPlace => {
            execute_statement(conn, &mut SqlLog::new(), "make_col_disappear", &drop_column_statement(table, column))
        },
        ColumnRemoval::RebuildTable => {
            let plan = remake_entire_table_from_scratch(table, column, &snapshot(conn, table));
            execute_delete_old_table_and_create_from_scratch(conn, &mut SqlLog::new(), &plan)
        },
    }
}

fn edit_column(conn: &Connection, column: &str, new_column: ColumnDef, source: ColumnSource) -> Result<(), DbError> {
    let input = FundamentallyEditExistingColIn {
        table_name: "users".to_string(),
        column_name: column.to_string(),
        new_column,
        source,
    };
    let plan = fundamentally_edit_existing_col(&input, &snapshot(conn, "users"))?;
    execute_delete_old_table_and_create_from_scratch(conn, &mut SqlLog::new(), &plan)
}

fn strings(v: &[&str]) -> Vec<String> {
    v.iter().map(|s| s.to_string()).collect()
}

// ---- the scenarios ----

#[test]
fn drop_indexed_column_preserves_everything_else() {
    let conn = Connection::open_in_memory().unwrap();
    create_users(&conn, true);
    index_column(&conn, "name");
    index_column(&conn, "age");
    conn.execute_batch(
        "INSERT INTO users (name, age, email) VALUES ('alice', 30, 'a@x');
         INSERT INTO users (name, age, email) VALUES ('bob', 25, 'b@x');",
    )
    .unwrap();

    drop_column(&conn, "users", "age").unwrap();

    assert_eq!(column_names(&conn, "users"), strings(&["id", "name", "email"]));
    assert!(is_unique(&conn, "users", "email"));
    assert!(is_indexed(&conn, "users", "name"));
    assert_eq!(strings_in(&conn, "users", "name"), strings(&["alice", "bob"]));
}

#[test]
fn migration_drop_plain_column() {
    let conn = Connection::open_in_memory().unwrap();
    create_users(&conn, false);
    seed_users(&conn);

    drop_column(&conn, "users", "age").unwrap();

    assert_eq!(column_names(&conn, "users"), strings(&["id", "name"]));
}

#[test]
fn rename_column() {
    let conn = Connection::open_in_memory().unwrap();
    create_users(&conn, false);
    index_column(&conn, "name");
    seed_users(&conn);

    edit_column(&conn, "name", not_null_col(ColumnType::Text, "full_name"), ColumnSource::SameName).unwrap();

    assert_eq!(strings_in(&conn, "users", "full_name"), strings(&["alice", "bob", "carol"]));
    assert!(is_indexed(&conn, "users", "full_name"));
}

#[test]
fn change_column_type() {
    let conn = Connection::open_in_memory().unwrap();
    create_users(&conn, false);
    seed_users(&conn);

    edit_column(
        &conn,
        "age",
        not_null_col(ColumnType::Text, "age"),
        ColumnSource::Expression("CAST(age AS TEXT)".to_string()),
    )
    .unwrap();

    let types: Vec<String> = table_shape(&conn, "users").into_iter().map(|c| c.declared_type).collect();
    assert!(types.contains(&"TEXT".to_string()));
    assert_eq!(strings_in(&conn, "users", "age"), strings(&["30", "25", "30"]));
}

#[test]
fn edit_column_with_use_default() {
    let conn = Connection::open_in_memory().unwrap();
    create_users(&conn, false);
    seed_users(&conn);

    edit_column(
        &conn,
        "name",
        col_with_default_value(ColumnType::Text, "'unknown'".to_string(), "name"),
        ColumnSource::UseDefault,
    )
    .unwrap();

    assert_eq!(strings_in(&conn, "users", "name"), strings(&["unknown", "unknown", "unknown"]));
}

#[test]
fn edit_column_inside_an_outer_transaction() {
    let conn = Connection::open_in_memory().unwrap();
    create_users(&conn, false);
    seed_users(&conn);

    begin_all_or_nothing(&conn, &mut SqlLog::new()).unwrap();
    edit_column(&conn, "name", not_null_col(ColumnType::Text, "full_name"), ColumnSource::SameName).unwrap();
    regret_everything(&conn, &mut SqlLog::new()).unwrap();

    assert_eq!(column_names(&conn, "users"), strings(&["id", "name", "age"]));
}

#[test]
fn rebuild_that_fails_partway() {
    let conn = Connection::open_in_memory().unwrap();
    create_users(&conn, false);
    seed_users(&conn);

    // alice and carol are both 30: a unique age cannot be filled
    let mut age = not_null_col(ColumnType::Integer, "age");
    age.unique = true;
    let result = edit_column(&conn, "age", age, ColumnSource::SameName);
    match result {
        Err(DbError::SqlExecuteFail(m)) => {
            assert!(m.starts_with("execute_delete_old_table_and_create_from_scratch: copy rows failed: "))
        },
        other => panic!("unexpected {:?}", other),
    }

    assert!(!is_unique(&conn, "users", "age"));
    assert_eq!(column_names(&conn, "users"), strings(&["id", "name", "age"]));
    assert_eq!(strings_in(&conn, "users", "name"), strings(&["alice", "bob", "carol"]));
}

#[test]
fn add_unique_and_not_null_columns_to_populated_table() {
    let conn = Connection::open_in_memory().unwrap();
    create_users(&conn, false);
    seed_users(&conn);

    // unique without a default: existing rows get NULL, exempt from uniqueness
    add_column(&conn, &mut SqlLog::new(), AddColumnIn { table_name: "users".into(), column: unique_col(ColumnType::Text, "email") })
        .unwrap();
    assert!(is_unique(&conn, "users", "email"));

    // unique with a default: every row gets the same value, so the index fails
    let mut username = col_with_default_value(ColumnType::Text, "'x'".to_string(), "username");
    username.unique = true;
    let result = add_column(&conn, &mut SqlLog::new(), AddColumnIn { table_name: "users".into(), column: username });
    assert!(result.is_err());
    assert!(!column_names(&conn, "users").contains(&"username".to_string()));

    // not null with a default: existing rows get the default
    let mut note = col_with_default_value(ColumnType::Text, "'seed'".to_string(), "note");
    note.not_null = true;
    add_column(&conn, &mut SqlLog::new(), AddColumnIn { table_name: "users".into(), column: note }).unwrap();
    assert_eq!(strings_in(&conn, "users", "note"), strings(&["seed", "seed", "seed"]));
}

#[test]
fn identifiers_are_quoted_and_statements_spelled_out() {
    assert_eq!(db_wrapper::db::sql_text::quote_ident("we\"ird"), "\"we\"\"ird\"");
    assert_eq!(
        statement_text(&create_index_statement("users", "name")),
        "CREATE INDEX IF NOT EXISTS \"idx_users_name\" ON \"users\" (\"name\");"
    );
    assert_eq!(
        statement_text(&Statement::CreateTable {
            table_name: "t".into(),
            columns: vec![id_column(), col_with_default_value(ColumnType::Text, "'a'".into(), "x")],
            unique_groups: vec![strings(&["x", "y"])],
            primary_key: Vec::new(),
        }),
        "CREATE TABLE \"t\" (\"id\" INTEGER PRIMARY KEY AUTOINCREMENT NOT NULL UNIQUE, \"x\" TEXT DEFAULT 'a', UNIQUE (\"x\", \"y\"));"
    );
    assert_eq!(
        statement_text(&drop_column_statement("t", "x")),
        "ALTER TABLE \"t\" DROP COLUMN \"x\";"
    );
}
