use async_session::Session;
use async_sqlx_session::{
    session_from_parts_row, session_from_row_or_none, session_id_from_cookie, stored_session_cookie,
    MySqlSessionStore, SqliteStore, StoreError,
};
use std::time::Duration;

#[test]
fn cookie_value_of_a_new_session_gives_its_id() {
    let session = Session::new();
    let id = session.id().to_owned();
    let cookie = stored_session_cookie(session).expect("a new session has a cookie value");
    let found = session_id_from_cookie(&cookie).expect("the cookie value is base64");
    assert_eq!(found, id);
    assert_ne!(found, cookie);
}

#[test]
fn cookie_value_that_is_not_base64_is_a_base64_error() {
    match session_id_from_cookie("not base64 !!!") {
        Err(StoreError::Base64(_)) => {}
        other => panic!("expected a base64 error, got {:?}", other),
    }
}

#[test]
fn same_cookie_value_gives_same_id() {
    let a = session_id_from_cookie("aGVsbG8=").unwrap();
    let b = session_id_from_cookie("aGVsbG8=").unwrap();
    assert_eq!(a, b);
    let c = session_id_from_cookie("d29ybGQ=").unwrap();
    assert_ne!(a, c);
}

#[test]
fn missing_row_is_no_session() {
    assert!(matches!(session_from_parts_row(String::from("id"), None), Ok(None)));
    assert!(session_from_row_or_none(None).is_none());
}

#[test]
fn data_that_is_not_a_map_of_strings_is_a_json_error() {
    for data in ["{ not json", "[1, 2]", "{\"key\": 1}"] {
        match session_from_parts_row(String::from("id"), Some((String::from(data), None))) {
            Err(StoreError::SerdeJson(_)) => {}
            other => panic!("expected a JSON error for {:?}, got {:?}", data, other),
        }
    }
}

#[test]
fn a_row_of_plain_data_rebuilds_a_session() {
    let session = session_from_parts_row(String::from("the-id"), Some((String::from("{}"), None)))
        .unwrap()
        .unwrap();
    assert_eq!(session.id(), "the-id");
    assert_eq!(session.expiry(), None);
    assert_eq!(session.len(), 0);
    let session = session_from_parts_row(
        String::from("x"),
        Some((String::from("{\"key\":\"\\\"value\\\"\"}"), Some((1_700_000_000, 250_000_000)))),
    )
    .unwrap()
    .unwrap();
    assert_eq!(session.get::<String>("key").unwrap(), "value");
    let expiry = session.expiry().unwrap();
    assert_eq!(expiry.timestamp(), 1_700_000_000);
    assert_eq!(expiry.timestamp_subsec_nanos(), 250_000_000);
    assert_eq!(stored_session_cookie(session), None);
}

#[test]
fn mysql_row_reads_back_with_id_data_and_expiry() {
    let mut session = Session::new();
    session.insert("key", "value").unwrap();
    session.expire_in(Duration::from_secs(10));
    let store = MySqlSessionStore::from_client(());
    let write = store.store_statement(&session).expect("a session serializes");
    assert_eq!(write.id, session.id());
    let expiry = session.expiry().unwrap();
    assert_eq!(write.expires, Some((expiry.timestamp(), expiry.timestamp_subsec_nanos())));
    let data: serde_json::Value = serde_json::from_str(&write.json).unwrap();
    assert!(data.get("key").is_some());
    assert!(data.get("id").is_none());
    let loaded = session_from_parts_row(write.id.clone(), Some((write.json, write.expires)))
        .unwrap()
        .unwrap();
    assert_eq!(loaded.id(), session.id());
    assert_eq!(loaded.get::<String>("key").unwrap(), "value");
    assert_eq!(loaded.expiry(), session.expiry());
    assert!(!loaded.is_expired());
    assert_eq!(stored_session_cookie(loaded), None);
}

#[test]
fn sqlite_row_reads_back_with_id_data_and_expiry() {
    let mut session = Session::new();
    session.insert("key", "value").unwrap();
    session.expire_in(Duration::from_secs(20));
    let store = SqliteStore::from_client(()).with_table_name("s");
    let write = store.store_statement(&session).expect("a session serializes");
    assert_eq!(write.id, session.id());
    assert!(write.sql.contains("INSERT INTO s\n"));
    assert_eq!(write.expires.map(|(secs, _)| secs), session.expiry().map(|e| e.timestamp()));
    let loaded = session_from_row_or_none(Some(write.json)).expect("the row holds a session");
    assert_eq!(loaded.id(), session.id());
    assert_eq!(loaded.get::<String>("key").unwrap(), "value");
    assert_eq!(loaded.expiry(), session.expiry());
    assert_eq!(stored_session_cookie(loaded), None);
}

#[test]
fn session_without_expiry_is_written_without_one() {
    let session = Session::new();
    assert_eq!(MySqlSessionStore::from_client(()).store_statement(&session).unwrap().expires, None);
    assert_eq!(SqliteStore::from_client(()).store_statement(&session).unwrap().expires, None);
}

#[test]
fn load_statement_reads_by_the_cookie_id() {
    let session = Session::new();
    let id = session.id().to_owned();
    let cookie = stored_session_cookie(session).unwrap();
    let store = MySqlSessionStore::from_client(()).with_table_name("web_sessions");
    let statement = store.load_statement(&cookie).unwrap();
    assert_eq!(statement.id, id);
    assert_eq!(
        statement.sql,
        "SELECT session, expires FROM web_sessions WHERE id = ? AND (expires IS NULL OR expires > ?)"
    );
    let store = SqliteStore::from_client(());
    let statement = store.load_statement(&cookie).unwrap();
    assert_eq!(statement.id, id);
    assert_eq!(statement.sql, store.load_query());
}

#[test]
fn load_statement_for_a_bad_cookie() {
    let store = MySqlSessionStore::from_client(());
    assert!(matches!(store.load_statement("%%%"), Err(StoreError::Base64(_))));
    let store = SqliteStore::from_client(());
    assert!(store.load_statement("%%%").is_none());
    assert!(store.load_statement("not base64 !!!").is_none());
}

#[test]
fn whole_session_row_reads_as_no_session_where_unreadable() {
    assert!(session_from_row_or_none(Some(String::from("{ not json"))).is_none());
    assert!(session_from_row_or_none(Some(String::from("{\"key\":\"value\"}"))).is_none());
}

#[test]
fn destroy_statement_names_the_session() {
    let session = Session::new();
    let store = MySqlSessionStore::from_client(());
    let destroy = store.destroy_statement(&session);
    assert_eq!(destroy.id, session.id());
    assert_eq!(destroy.sql, "DELETE FROM async_sessions WHERE id = ?");
    let store = SqliteStore::from_client(()).with_table_name("s");
    let destroy = store.destroy_statement(&session);
    assert_eq!(destroy.id, session.id());
    assert_eq!(destroy.sql, store.destroy_query());
}
