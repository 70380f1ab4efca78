use aia::schema::{add_column_sql, column_exists, escape_sql_literal, legacy_migration_sql, rollback_failure, table_info_sql};

#[test]
fn columns_are_found_by_exact_name() {
    let existing = vec!["id".to_string(), "title".to_string()];
    assert!(column_exists(&existing, "title"));
    assert!(!column_exists(&existing, "Title"));
    assert!(!column_exists(&Vec::new(), "id"));
}

#[test]
fn schema_statements_are_spelled_out() {
    assert_eq!(table_info_sql("sessions"), "PRAGMA table_info(sessions)");
    assert_eq!(
        add_column_sql("sessions", "model", "TEXT NOT NULL DEFAULT ''"),
        "ALTER TABLE sessions ADD COLUMN model TEXT NOT NULL DEFAULT ''"
    );
}

#[test]
fn legacy_paths_are_quoted_for_sql() {
    assert_eq!(escape_sql_literal("it's"), "it''s");
    assert_eq!(escape_sql_literal("''"), "''''");
    assert_eq!(escape_sql_literal("plain"), "plain");
    assert_eq!(
        legacy_migration_sql("/tmp/o'neil.db", "sessions"),
        "ATTACH DATABASE '/tmp/o''neil.db' AS legacy;\n                 INSERT OR IGNORE INTO sessions SELECT * FROM legacy.sessions;\n                 DETACH DATABASE legacy;"
    );
}

#[test]
fn failed_rollbacks_report_both_errors() {
    assert_eq!(
        rollback_failure("disk I/O error", "no transaction is active").to_message(),
        "transaction failed: disk I/O error; rollback failed: no transaction is active"
    );
}
