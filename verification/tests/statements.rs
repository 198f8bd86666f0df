use async_sqlx_session::{
    MySqlSessionStore, SqliteStore, MYSQL_CLEANUP, MYSQL_CLEAR, MYSQL_COUNT, MYSQL_DESTROY, MYSQL_LOAD,
    MYSQL_MIGRATE, MYSQL_STORE, SQLITE_CLEANUP, SQLITE_CLEAR, SQLITE_DESTROY, SQLITE_LOAD,
    SQLITE_MIGRATE, SQLITE_STORE,
};

#[test]
fn mysql_statements_name_the_default_table() {
    let store = MySqlSessionStore::from_client(());
    assert_eq!(store.cleanup_query(), "DELETE FROM async_sessions WHERE expires < ?");
    assert_eq!(store.count_query(), "SELECT COUNT(*) FROM async_sessions");
    assert_eq!(
        store.load_query(),
        "SELECT session, expires FROM async_sessions WHERE id = ? AND (expires IS NULL OR expires > ?)"
    );
    assert_eq!(store.destroy_query(), "DELETE FROM async_sessions WHERE id = ?");
    assert_eq!(store.clear_query(), "TRUNCATE async_sessions");
    assert_eq!(
        store.migrate_query(),
        "
            CREATE TABLE IF NOT EXISTS async_sessions (
                `id` VARCHAR(128) NOT NULL,
                `expires` TIMESTAMP(6) NULL,
                `session` TEXT NOT NULL,
                PRIMARY KEY (`id`),
                KEY `expires` (`expires`)
            )
            ENGINE=InnoDB
            DEFAULT CHARSET=utf8
            "
    );
    assert_eq!(
        store.store_query(),
        "
            INSERT INTO async_sessions
              (id, session, expires) VALUES(?, ?, ?)
            ON DUPLICATE KEY UPDATE
              expires = VALUES(expires),
              session = VALUES(session)
            "
    );
}

#[test]
fn mysql_statements_name_a_custom_table() {
    let store = MySqlSessionStore::from_client(()).with_table_name("custom_table_name");
    let cases = [
        (store.migrate_query(), MYSQL_MIGRATE),
        (store.cleanup_query(), MYSQL_CLEANUP),
        (store.count_query(), MYSQL_COUNT),
        (store.load_query(), MYSQL_LOAD),
        (store.store_query(), MYSQL_STORE),
        (store.destroy_query(), MYSQL_DESTROY),
        (store.clear_query(), MYSQL_CLEAR),
    ];
    for (query, template) in cases {
        assert_eq!(query, template.replace("%%TABLE_NAME%%", "custom_table_name"));
        assert!(query.contains("custom_table_name"));
        assert!(!query.contains("%%TABLE_NAME%%"));
        assert!(!query.contains("async_sessions"));
    }
    assert_eq!(store.clear_query(), "TRUNCATE custom_table_name");
}

#[test]
fn sqlite_statements_name_the_table() {
    let store = SqliteStore::from_client(()).with_table_name("sessions-2");
    let cases = [
        (store.migrate_query(), SQLITE_MIGRATE),
        (store.cleanup_query(), SQLITE_CLEANUP),
        (store.load_query(), SQLITE_LOAD),
        (store.store_query(), SQLITE_STORE),
        (store.destroy_query(), SQLITE_DESTROY),
        (store.clear_query(), SQLITE_CLEAR),
    ];
    for (query, template) in cases {
        assert_eq!(query, template.replace("%%TABLE_NAME%%", "sessions-2"));
        assert!(query.contains("sessions-2"));
    }
    assert_eq!(
        store.load_query(),
        "
            SELECT session FROM sessions-2
              WHERE id = ? AND (expires IS NULL OR expires > ?)
            "
    );
    assert!(!store.load_query().contains("||"));
    assert_eq!(
        store.destroy_query(),
        "
            DELETE FROM sessions-2 WHERE id = ?
            "
    );
    let store = SqliteStore::from_client(());
    assert_eq!(
        store.clear_query(),
        "
            DELETE FROM async_sessions
            "
    );
}

#[test]
fn substituted_statements_hold_only_template_and_name_characters() {
    let name = "Tbl_9-x";
    let store = MySqlSessionStore::from_client(()).with_table_name(name);
    let cases = [(store.migrate_query(), MYSQL_MIGRATE), (store.store_query(), MYSQL_STORE)];
    for (query, template) in cases {
        for c in query.chars() {
            assert!(template.contains(c) || c.is_ascii_alphanumeric() || c == '-' || c == '_');
        }
    }
}
