use db_wrapper::db::migration::{
    autoincrement_column, column_is_unique, created_index_state, flatten_groups, is_created_index, is_inline_unique,
    make_col_disappear, created_entries, inline_unique_entries, ColumnRemoval, IndexListEntry,
};
use db_wrapper::db::rebuild::{
    fundamentally_edit_existing_col, remake_entire_table_from_scratch, rename_col, resolve_source_expr,
    split_unique_groups, ColumnMapping, IndexState, SourceExpr, TableSnapshot,
};
use db_wrapper::db::statements::{rebuild_statements, Statement};
use db_wrapper::protocol::error::DbError;
use db_wrapper::protocol::new_table::{col_with_default_value, not_null_col, ColumnType};
use db_wrapper::protocol::payload::{ColumnSource, FundamentallyEditExistingColIn, TableColumnInfo};

fn info(cid: i64, name: &str, declared_type: &str, not_null: bool, pk: bool) -> TableColumnInfo {
    TableColumnInfo {
        cid,
        name: name.to_string(),
        declared_type: declared_type.to_string(),
        not_null,
        default_value: None,
        primary_key: pk,
    }
}

fn strings(v: &[&str]) -> Vec<String> {
    v.iter().map(|s| s.to_string()).collect()
}

// users (id, name, age) with an index on name.
fn users_snapshot() -> TableSnapshot {
    TableSnapshot {
        columns: vec![
            info(0, "id", "INTEGER", true, true),
            info(1, "name", "TEXT", true, false),
            info(2, "age", "INTEGER", true, false),
        ],
        unique_groups: vec![strings(&["id"])],
        index_state: vec![IndexState { name: "idx_users_name".into(), columns: strings(&["name"]), is_unique: false }],
        autoincrement_col: Some("id".to_string()),
    }
}

fn names(plan_columns: &[db_wrapper::protocol::new_table::ColumnDef]) -> Vec<String> {
    plan_columns.iter().map(|c| c.name.clone()).collect()
}

#[test]
fn drop_indexed_column_plan_keeps_everything_else() {
    let mut snapshot = users_snapshot();
    snapshot.columns.push(info(3, "email", "TEXT", false, false));
    snapshot.unique_groups.push(strings(&["email"]));
    snapshot.index_state.push(IndexState { name: "idx_users_age".into(), columns: strings(&["age"]), is_unique: false });
    let plan = remake_entire_table_from_scratch("users", "age", &snapshot);
    assert_eq!(plan.temp_table_name, "users__rebuild_tmp");
    assert_eq!(names(&plan.new_columns), strings(&["id", "name", "email"]));
    let email = &plan.new_columns[2];
    assert!(email.unique && !email.not_null);
    let id = &plan.new_columns[0];
    assert!(id.primary_key && id.autoincrement && id.unique);
    assert!(plan.composite_primary_key.is_empty() && plan.composite_unique_groups.is_empty());
    assert_eq!(plan.column_mappings.len(), 3);
    assert_eq!(
        plan.column_mappings[1],
        ColumnMapping { target: "name".into(), source: SourceExpr::Column("name".into()) }
    );
    // the index on name is made again as it was; the one on age goes with age
    assert_eq!(
        plan.index_state,
        vec![IndexState { name: "idx_users_name".into(), columns: strings(&["name"]), is_unique: false }]
    );
    let statements = rebuild_statements(&plan);
    assert_eq!(statements.len(), 5);
    assert!(statements.iter().all(|s| !matches!(s, Statement::CreateIndex { name, .. } if name == "idx_users_age")));
}

#[test]
fn drop_leaves_out_constraints_and_indexes_naming_the_column() {
    let snapshot = TableSnapshot {
        columns: vec![
            info(0, "id", "INTEGER", true, true),
            info(1, "a", "TEXT", false, false),
            info(2, "b", "TEXT", false, false),
            info(3, "c", "TEXT", false, false),
        ],
        unique_groups: vec![strings(&["a", "B"]), strings(&["a", "c"])],
        index_state: vec![
            IndexState { name: "ix_ab".into(), columns: strings(&["a", "b"]), is_unique: true },
            IndexState { name: "ix_c".into(), columns: strings(&["c"]), is_unique: false },
        ],
        autoincrement_col: None,
    };
    let plan = remake_entire_table_from_scratch("t", "b", &snapshot);
    assert_eq!(names(&plan.new_columns), strings(&["id", "a", "c"]));
    assert_eq!(plan.composite_unique_groups, vec![strings(&["a", "c"])]);
    assert_eq!(plan.index_state.len(), 1);
    assert_eq!(plan.index_state[0].name, "ix_c");
}

#[test]
fn composite_keys_and_groups_become_table_constraints() {
    let snapshot = TableSnapshot {
        columns: vec![
            info(0, "a", "INTEGER", true, true),
            info(1, "b", "INTEGER", true, true),
            info(2, "c", "TEXT", false, false),
            info(3, "d", "TEXT", false, false),
        ],
        unique_groups: vec![strings(&["c", "d"]), strings(&["C"])],
        index_state: Vec::new(),
        autoincrement_col: None,
    };
    let plan = remake_entire_table_from_scratch("t", "d", &snapshot);
    assert_eq!(plan.composite_primary_key, strings(&["a", "b"]));
    assert!(plan.new_columns.iter().all(|c| !c.primary_key));
    // the group over c and d goes with d
    assert!(plan.composite_unique_groups.is_empty());
    let plan_a = remake_entire_table_from_scratch("t", "a", &snapshot);
    assert_eq!(plan_a.composite_unique_groups, vec![strings(&["c", "d"])]);
    // a one-column group names "C": "c" is unique up to ASCII case
    assert!(plan.new_columns[2].unique);
    // dropping one of two key columns leaves a single-column key
    let plan = remake_entire_table_from_scratch("t", "b", &snapshot);
    assert!(plan.composite_primary_key.is_empty());
    assert!(plan.new_columns[0].primary_key);
}

#[test]
fn rename_column_plan_renames_everywhere() {
    let plan = fundamentally_edit_existing_col(
        &FundamentallyEditExistingColIn {
            table_name: "users".into(),
            column_name: "name".into(),
            new_column: not_null_col(ColumnType::Text, "full_name"),
            source: ColumnSource::SameName,
        },
        &users_snapshot(),
    )
    .unwrap();
    assert_eq!(names(&plan.new_columns), strings(&["id", "full_name", "age"]));
    assert_eq!(plan.index_state[0].columns, strings(&["full_name"]));
    assert_eq!(plan.index_state[0].name, "idx_users_name");
    assert_eq!(
        plan.column_mappings[1],
        ColumnMapping { target: "full_name".into(), source: SourceExpr::Column("name".into()) }
    );
}

#[test]
fn change_column_type_plan_copies_through_the_expression() {
    let plan = fundamentally_edit_existing_col(
        &FundamentallyEditExistingColIn {
            table_name: "users".into(),
            column_name: "age".into(),
            new_column: not_null_col(ColumnType::Text, "age"),
            source: ColumnSource::Expression("CAST(age AS TEXT)".to_string()),
        },
        &users_snapshot(),
    )
    .unwrap();
    assert_eq!(plan.new_columns[2].column_type, "TEXT");
    assert_eq!(
        plan.column_mappings[2],
        ColumnMapping { target: "age".into(), source: SourceExpr::Expression("CAST(age AS TEXT)".into()) }
    );
}

#[test]
fn edit_column_with_use_default_leaves_it_to_the_default() {
    let plan = fundamentally_edit_existing_col(
        &FundamentallyEditExistingColIn {
            table_name: "users".into(),
            column_name: "name".into(),
            new_column: col_with_default_value(ColumnType::Text, "'unknown'".into(), "name"),
            source: ColumnSource::UseDefault,
        },
        &users_snapshot(),
    )
    .unwrap();
    assert_eq!(plan.column_mappings.len(), 2);
    assert!(plan.column_mappings.iter().all(|m| m.target != "name"));
    assert_eq!(plan.new_columns[1].default_value, "'unknown'");
}

#[test]
fn edit_refuses_missing_table_name_and_column() {
    let input = |table: &str, column: &str| FundamentallyEditExistingColIn {
        table_name: table.into(),
        column_name: column.into(),
        new_column: not_null_col(ColumnType::Text, "x"),
        source: ColumnSource::SameName,
    };
    assert_eq!(
        fundamentally_edit_existing_col(&input("", "name"), &users_snapshot()).unwrap_err(),
        DbError::IllegalInput("table_name is empty".into())
    );
    assert_eq!(
        fundamentally_edit_existing_col(&input("users", "nope"), &users_snapshot()).unwrap_err(),
        DbError::IllegalInput("column 'nope' does not exist in table 'users'".into())
    );
}

#[test]
fn rebuild_runs_create_copy_drop_rename_then_indexes() {
    let plan = remake_entire_table_from_scratch("users", "age", &users_snapshot());
    let statements = rebuild_statements(&plan);
    assert_eq!(statements.len(), 5);
    assert!(matches!(&statements[0], Statement::CreateTable { table_name, .. } if table_name == "users__rebuild_tmp"));
    assert!(matches!(&statements[1], Statement::CopyRows { into, from, .. } if into == "users__rebuild_tmp" && from == "users"));
    assert_eq!(statements[2], Statement::DropTable { table_name: "users".into() });
    assert_eq!(statements[3], Statement::RenameTable { from: "users__rebuild_tmp".into(), to: "users".into() });
    assert_eq!(
        statements[4],
        Statement::CreateIndex {
            name: "idx_users_name".into(),
            table_name: "users".into(),
            columns: strings(&["name"]),
            unique: false,
            if_not_exists: false,
        }
    );
}

#[test]
fn removal_decision() {
    let cols = users_snapshot().columns;
    assert_eq!(make_col_disappear("users", "age", &cols, false, false), Ok(ColumnRemoval::DropInPlace));
    assert_eq!(make_col_disappear("users", "age", &cols, true, false), Ok(ColumnRemoval::RebuildTable));
    assert_eq!(make_col_disappear("users", "age", &cols, false, true), Ok(ColumnRemoval::RebuildTable));
    assert_eq!(make_col_disappear("users", "id", &cols, false, false), Ok(ColumnRemoval::RebuildTable));
    assert_eq!(
        make_col_disappear("users", "Age", &cols, false, false),
        Err(DbError::IllegalInput("column 'Age' does not exist in table 'users'".into()))
    );
    assert_eq!(
        make_col_disappear("", "age", &cols, false, false),
        Err(DbError::IllegalInput("table_name is empty".into()))
    );
}

#[test]
fn index_list_classification() {
    let entry = |name: &str, unique: i64, origin: &str| IndexListEntry { name: name.into(), unique, origin: origin.into() };
    assert!(is_inline_unique(&entry("sqlite_autoindex_users_1", 1, "u")));
    assert!(!is_inline_unique(&entry("sqlite_autoindex_users_2", 1, "pk")));
    assert!(!is_inline_unique(&entry("x", 0, "u")));
    assert!(is_created_index(&entry("idx", 0, "c")));
    assert!(!is_created_index(&entry("idx", 0, "u")));
    let state = created_index_state(&entry("uidx", 1, "c"), strings(&["email"]));
    assert_eq!(state, IndexState { name: "uidx".into(), columns: strings(&["email"]), is_unique: true });
}

#[test]
fn uniqueness_decision() {
    let groups = vec![strings(&["a", "b"]), strings(&["c"])];
    assert_eq!(flatten_groups(&groups), strings(&["a", "b", "c"]));
    let (single, composite) = split_unique_groups(&groups);
    assert_eq!(single, strings(&["c"]));
    assert_eq!(composite, vec![strings(&["a", "b"])]);
    let created = vec![
        IndexState { name: "i1".into(), columns: strings(&["x"]), is_unique: false },
        IndexState { name: "i2".into(), columns: strings(&["Y"]), is_unique: true },
    ];
    assert!(column_is_unique(&strings(&["email"]), &created, "EMAIL"));
    assert!(column_is_unique(&Vec::new(), &created, "y"));
    assert!(!column_is_unique(&Vec::new(), &created, "x"));
}

#[test]
fn autoincrement_detection() {
    let cols = users_snapshot().columns;
    let sql = Some("CREATE TABLE users (id INTEGER PRIMARY KEY autoincrement, name TEXT)".to_string());
    assert_eq!(autoincrement_column(&sql, &cols), Some("id".to_string()));
    let sql = Some("CREATE TABLE users (id INTEGER PRIMARY KEY, name TEXT)".to_string());
    assert_eq!(autoincrement_column(&sql, &cols), None);
    assert_eq!(autoincrement_column(&None, &cols), None);
}

#[test]
fn renames_and_sources() {
    assert_eq!(rename_col("Name".into(), "name", "full"), "full");
    assert_eq!(rename_col("age".into(), "name", "full"), "age");
    assert_eq!(resolve_source_expr("old", &ColumnSource::SameName), Some(SourceExpr::Column("old".into())));
    assert_eq!(
        resolve_source_expr("old", &ColumnSource::FromColumn("other".into())),
        Some(SourceExpr::Column("other".into()))
    );
    assert_eq!(resolve_source_expr("old", &ColumnSource::UseDefault), None);
}

#[test]
fn edit_keeps_keys_and_unique_constraints_under_the_new_name() {
    let snapshot = TableSnapshot {
        columns: vec![
            info(0, "a", "INTEGER", true, true),
            info(1, "b", "INTEGER", true, true),
            info(2, "email", "TEXT", false, false),
            info(3, "c", "TEXT", false, false),
        ],
        unique_groups: vec![strings(&["email"]), strings(&["email", "c"])],
        index_state: Vec::new(),
        autoincrement_col: None,
    };
    let plan = fundamentally_edit_existing_col(
        &FundamentallyEditExistingColIn {
            table_name: "t".into(),
            column_name: "email".into(),
            new_column: not_null_col(ColumnType::Text, "mail"),
            source: ColumnSource::SameName,
        },
        &snapshot,
    )
    .unwrap();
    assert_eq!(names(&plan.new_columns), strings(&["a", "b", "mail", "c"]));
    // the one-column unique constraint follows the rename
    assert!(plan.new_columns[2].unique);
    assert!(plan.new_columns[2].not_null);
    // the two-column constraint stays table-level, renamed
    assert_eq!(plan.composite_unique_groups, vec![strings(&["mail", "c"])]);
    // the composite key stays table-level
    assert_eq!(plan.composite_primary_key, strings(&["a", "b"]));
    assert!(plan.new_columns.iter().all(|c| !c.primary_key));
    assert_eq!(plan.new_columns[0].column_type, "INTEGER");
    assert!(!plan.new_columns[3].unique);
}

#[test]
fn index_list_lines_are_sorted_into_created_and_inline_unique() {
    let conn = rusqlite::Connection::open_in_memory().unwrap();
    conn.execute_batch(
        "CREATE TABLE users (id INTEGER PRIMARY KEY, name TEXT, email TEXT UNIQUE, a TEXT, b TEXT, UNIQUE (a, b));
         CREATE INDEX idx_users_name ON users (name);
         CREATE UNIQUE INDEX uidx_users_a ON users (a);",
    )
    .unwrap();
    let mut stmt = conn.prepare("SELECT name, \"unique\", origin FROM pragma_index_list('users')").unwrap();
    let entries: Vec<IndexListEntry> = stmt
        .query_map([], |r| Ok(IndexListEntry { name: r.get(0)?, unique: r.get(1)?, origin: r.get(2)? }))
        .unwrap()
        .collect::<Result<Vec<_>, _>>()
        .unwrap();
    let mut created: Vec<String> = created_entries(&entries).into_iter().map(|e| e.name).collect();
    created.sort();
    assert_eq!(created, strings(&["idx_users_name", "uidx_users_a"]));
    let inline = inline_unique_entries(&entries);
    assert_eq!(inline.len(), 2);
    assert!(inline.iter().all(|e| e.origin == "u" && e.unique != 0));
}
