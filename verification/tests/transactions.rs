use db_wrapper::db::safety_first::{
    are_we_in_middle_of_transaction, begin_if_needed, end_transaction_if_in_one, ending_action, must_begin,
    run_tx_statement, start_transaction_if_not_in_one, tx_statement_sql, LiveForever, TxStatement,
};
use db_wrapper::db::sql_log::SqlLog;
use db_wrapper::protocol::error::DbError;

fn setup_users() -> LiveForever {
    let db = LiveForever::new().unwrap();
    db.db_conn
        .execute_batch("CREATE TABLE users (id INTEGER PRIMARY KEY AUTOINCREMENT, name TEXT NOT NULL)")
        .unwrap();
    db
}

fn insert_user(db: &LiveForever, name: &str) {
    let sql = format!("INSERT INTO users (name) VALUES ('{}')", name);
    db.db_conn.execute_batch(&sql).unwrap();
}

fn row_count(db: &LiveForever) -> i64 {
    db.db_conn
        .query_row("SELECT COUNT(*) FROM users", [], |r| r.get::<_, i64>(0))
        .unwrap()
}

#[test]
fn commit_persists_and_rollback_discards() {
    let db = setup_users();

    db.begin_all_or_nothing().unwrap();
    insert_user(&db, "alice");
    db.everything_went_perfectly().unwrap();
    assert_eq!(row_count(&db), 1);

    db.begin_all_or_nothing().unwrap();
    insert_user(&db, "bob");
    db.regret_everything().unwrap();
    assert_eq!(row_count(&db), 1);
}

#[test]
fn reads_see_own_writes_inside_transaction() {
    let db = setup_users();

    db.begin_all_or_nothing().unwrap();
    insert_user(&db, "alice");
    assert_eq!(row_count(&db), 1);
}

#[test]
fn transaction_misuse_returns_errors() {
    let db = setup_users();

    assert!(db.everything_went_perfectly().is_err());
    assert!(db.regret_everything().is_err());

    db.begin_all_or_nothing().unwrap();
    assert!(db.begin_all_or_nothing().is_err());

    db.regret_everything().unwrap();
}

#[test]
fn error_mid_transaction_then_rollback_leaves_nothing() {
    let db = setup_users();

    db.begin_all_or_nothing().unwrap();
    insert_user(&db, "alice");

    // name is NOT NULL, so this fails
    let result = db.db_conn.execute_batch("INSERT INTO users (name) VALUES (NULL)");
    assert!(result.is_err());

    db.regret_everything().unwrap();
    assert_eq!(row_count(&db), 0);
}

#[test]
fn misuse_errors_name_the_operation() {
    let db = setup_users();
    match db.everything_went_perfectly() {
        Err(DbError::SqlExecuteFail(m)) => assert!(m.starts_with("everything_went_perfectly failed: ")),
        other => panic!("unexpected {:?}", other),
    }
    match db.regret_everything() {
        Err(DbError::SqlExecuteFail(m)) => assert!(m.starts_with("regret_everything failed: ")),
        other => panic!("unexpected {:?}", other),
    }
    db.begin_all_or_nothing().unwrap();
    match db.begin_all_or_nothing() {
        Err(DbError::SqlExecuteFail(m)) => assert!(m.starts_with("begin_all_or_nothing failed: ")),
        other => panic!("unexpected {:?}", other),
    }
}

#[test]
fn nested_operation_joins_the_outer_transaction() {
    let db = setup_users();
    assert!(!are_we_in_middle_of_transaction(&db.db_conn, &mut SqlLog::new()));

    db.begin_all_or_nothing().unwrap();
    assert!(are_we_in_middle_of_transaction(&db.db_conn, &mut SqlLog::new()));

    // an inner operation finds a transaction open and starts none
    let started_here = start_transaction_if_not_in_one(&db.db_conn, &mut SqlLog::new()).unwrap();
    assert!(!started_here);
    insert_user(&db, "alice");
    let ended = end_transaction_if_in_one(&db.db_conn, &mut SqlLog::new(), started_here, Ok::<i32, DbError>(7));
    assert_eq!(ended, Ok(7));
    // the outer transaction is still open, and its rollback undoes the work
    assert!(are_we_in_middle_of_transaction(&db.db_conn, &mut SqlLog::new()));
    db.regret_everything().unwrap();
    assert_eq!(row_count(&db), 0);
}

#[test]
fn standalone_operation_commits_its_own_transaction() {
    let db = setup_users();
    let started_here = start_transaction_if_not_in_one(&db.db_conn, &mut SqlLog::new()).unwrap();
    assert!(started_here);
    insert_user(&db, "alice");
    let ended = end_transaction_if_in_one(&db.db_conn, &mut SqlLog::new(), started_here, Ok::<(), DbError>(()));
    assert_eq!(ended, Ok(()));
    assert!(!are_we_in_middle_of_transaction(&db.db_conn, &mut SqlLog::new()));
    assert_eq!(row_count(&db), 1);
}

#[test]
fn failed_standalone_operation_rolls_back_and_keeps_its_error() {
    let db = setup_users();
    let started_here = start_transaction_if_not_in_one(&db.db_conn, &mut SqlLog::new()).unwrap();
    insert_user(&db, "alice");
    let failure: Result<(), DbError> = Err(DbError::IllegalInput("no".to_string()));
    let ended = end_transaction_if_in_one(&db.db_conn, &mut SqlLog::new(), started_here, failure);
    assert_eq!(ended, Err(DbError::IllegalInput("no".to_string())));
    assert!(!are_we_in_middle_of_transaction(&db.db_conn, &mut SqlLog::new()));
    assert_eq!(row_count(&db), 0);
}

#[test]
fn transaction_statements_and_decisions() {
    assert_eq!(tx_statement_sql(TxStatement::Begin), "BEGIN IMMEDIATE");
    assert_eq!(tx_statement_sql(TxStatement::Commit), "COMMIT");
    assert_eq!(tx_statement_sql(TxStatement::Rollback), "ROLLBACK");
    assert!(must_begin(false));
    assert!(!must_begin(true));
    assert_eq!(ending_action(false, true), None);
    assert_eq!(ending_action(false, false), None);
    assert_eq!(ending_action(true, true), Some(TxStatement::Commit));
    assert_eq!(ending_action(true, false), Some(TxStatement::Rollback));
}

#[test]
fn begin_if_needed_begins_only_where_none_is_open() {
    let db = setup_users();
    // told a transaction is open, it runs nothing
    assert_eq!(begin_if_needed(&db.db_conn, &mut SqlLog::new(), true), Ok(false));
    assert!(!are_we_in_middle_of_transaction(&db.db_conn, &mut SqlLog::new()));
    // told none is open, it begins one
    assert_eq!(begin_if_needed(&db.db_conn, &mut SqlLog::new(), false), Ok(true));
    assert!(are_we_in_middle_of_transaction(&db.db_conn, &mut SqlLog::new()));
    // a second BEGIN fails, reported under begin_all_or_nothing
    match begin_if_needed(&db.db_conn, &mut SqlLog::new(), false) {
        Err(DbError::SqlExecuteFail(m)) => assert!(m.starts_with("begin_all_or_nothing failed: ")),
        other => panic!("unexpected {:?}", other),
    }
    run_tx_statement(&db.db_conn, &mut SqlLog::new(), TxStatement::Rollback).unwrap();
    assert!(!are_we_in_middle_of_transaction(&db.db_conn, &mut SqlLog::new()));
}
