use db_wrapper::db::safety_first::LiveForever;
use db_wrapper::migration_template::{version0 as template_v0, version1 as template_v1};
use db_wrapper::protocol::new_table::ColumnDef;
use db_wrapper::protocol::row_col::Col;
use db_wrapper::schema_migration::new_row_helper::{new_row_keyword_lookup, new_row_text};
use db_wrapper::schema_migration::schema_versions::{SchemaVersion, CURRENT_VERSION};
use db_wrapper::schema_migration::schemas::{current, version0};
use db_wrapper::schema_migration::update_from_old_schema::{update_once, update_until_newest_version};

/// The shape a table reports for each column: position, name, declared
/// type, not null, primary key.
fn shape(columns: &[ColumnDef]) -> Vec<(i64, String, String, bool, bool)> {
    columns
        .iter()
        .enumerate()
        .map(|(i, c)| (i as i64, c.name.clone(), c.column_type.clone(), c.not_null, c.primary_key))
        .collect()
}

fn col(cid: i64, name: &str, declared_type: &str, not_null: bool, pk: bool) -> (i64, String, String, bool, bool) {
    (cid, name.to_string(), declared_type.to_string(), not_null, pk)
}

#[test]
fn texts_table_has_expected_shape() {
    let result = shape(&version0::texts_columns());
    let expected_result = vec![
        col(0, "id", "INTEGER", true, true),
        col(1, "title", "TEXT", true, false),
        col(2, "body", "TEXT", true, false),
    ];
    assert_eq!(result, expected_result);
}

#[test]
fn keyword_lookup_table_is_correct() {
    let columns = version0::keyword_lookup_columns();
    let result = shape(&columns);
    let expected_result = vec![
        col(0, "id", "INTEGER", true, true),
        col(1, "text_id", "INTEGER", true, false),
        col(2, "keyword", "TEXT", true, false),
    ];
    assert_eq!(result, expected_result);

    let result: Vec<String> = version0::get_foreign_def_keyword_lookup()
        .iter()
        .filter(|fk| !columns.iter().any(|c| c.name == fk.column))
        .map(|fk| fk.column.clone())
        .collect();
    let expected_result: Vec<String> = vec![];
    assert_eq!(result, expected_result);
}

#[test]
fn migration_chain_reaches_current_version() {
    let db = LiveForever::new().unwrap();
    let result = update_until_newest_version(SchemaVersion::Version0, &db);
    let expected_result = CURRENT_VERSION;
    assert_eq!(result, expected_result);

    let fresh = current::entire_table();
    let migrated = version0::entire_table();
    assert_eq!(fresh.len(), migrated.len());
    for (a, b) in fresh.iter().zip(migrated.iter()) {
        assert_eq!(a.table_name, b.table_name);
        assert_eq!(a.columns, b.columns);
    }
}

#[test]
fn current_version_is_a_fixed_point() {
    let db = LiveForever::new().unwrap();
    assert_eq!(update_once(CURRENT_VERSION, &db), CURRENT_VERSION);
}

#[test]
fn version0_lists_texts_then_keyword_lookup() {
    let tables = version0::entire_table();
    let names: Vec<&str> = tables.iter().map(|t| t.table_name.as_str()).collect();
    assert_eq!(names, vec!["texts", "keyword_lookup"]);
    assert_eq!(tables[0].columns, version0::texts_columns());
    assert_eq!(tables[1].columns, version0::keyword_lookup_columns());
}

#[test]
fn foreign_key_points_at_texts_id() {
    let fks = version0::get_foreign_def_keyword_lookup();
    assert_eq!(fks.len(), 1);
    assert_eq!(fks[0].column, "text_id");
    assert_eq!(fks[0].referenced_table, "texts");
    assert_eq!(fks[0].referenced_column, "id");
}

#[test]
fn new_rows_hold_their_values_in_column_order() {
    let r = new_row_text("hello".to_string(), "world".to_string());
    assert_eq!(r.cols, vec![Col::Text("hello".to_string()), Col::Text("world".to_string())]);
    let r = new_row_keyword_lookup(4, "rust".to_string());
    assert_eq!(r.cols, vec![Col::Integer(4), Col::Text("rust".to_string())]);
}

#[test]
fn template_versions_keep_table1_and_add_table2() {
    let v0 = template_v0::entire_table();
    let v1 = template_v1::entire_table();
    assert_eq!(v0.len(), 1);
    assert_eq!(v1.len(), 2);
    assert_eq!(v0[0].table_name, "table1");
    assert_eq!(v1[0].table_name, "table1");
    assert_eq!(v0[0].columns, v1[0].columns);
    assert_eq!(v1[1].table_name, "table2");
    let result = shape(&v1[1].columns);
    assert_eq!(
        result,
        vec![col(0, "id", "INTEGER", true, true), col(1, "label", "TEXT", true, false)]
    );
    let result = shape(&template_v0::table1_columns());
    assert_eq!(
        result,
        vec![
            col(0, "id", "INTEGER", true, true),
            col(1, "text", "TEXT", true, false),
            col(2, "number", "INTEGER", true, false),
        ]
    );
}

#[test]
fn fresh_database_gets_every_table_of_the_current_version() {
    let db = LiveForever::new().unwrap();
    db_wrapper::schema_migration::helpers::create_table_from_scratch(current::entire_table(), &db, &mut db_wrapper::db::sql_log::SqlLog::new()).unwrap();
    let mut stmt = db
        .db_conn
        .prepare("SELECT name FROM sqlite_master WHERE type = 'table' AND name NOT LIKE 'sqlite_%' ORDER BY name")
        .unwrap();
    let names: Vec<String> = stmt.query_map([], |r| r.get(0)).unwrap().collect::<Result<Vec<_>, _>>().unwrap();
    assert_eq!(names, vec!["keyword_lookup".to_string(), "texts".to_string()]);
    // creating them again is silent
    db_wrapper::schema_migration::helpers::create_table_from_scratch(current::entire_table(), &db, &mut db_wrapper::db::sql_log::SqlLog::new()).unwrap();
}
