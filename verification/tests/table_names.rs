use async_sqlx_session::{is_valid_table_name, MySqlSessionStore, SqliteStore, DEFAULT_TABLE_NAME};

#[test]
fn accepts_letters_digits_dashes_and_underscores() {
    assert!(is_valid_table_name("async_sessions"));
    assert!(is_valid_table_name("custom_table_name"));
    assert!(is_valid_table_name("custom-name-2"));
    assert!(is_valid_table_name("A"));
    assert!(is_valid_table_name("0_-9zZ"));
}

#[test]
fn rejects_empty_name() {
    assert!(!is_valid_table_name(""));
}

#[test]
fn rejects_sql_syntax_in_name() {
    assert!(!is_valid_table_name("johnny (); drop users;"));
    assert!(!is_valid_table_name("a b"));
    assert!(!is_valid_table_name("sessions;"));
    assert!(!is_valid_table_name("`sessions`"));
    assert!(!is_valid_table_name("%%TABLE_NAME%%"));
}

#[test]
fn rejects_non_ascii_letters() {
    assert!(!is_valid_table_name("séssions"));
    assert!(!is_valid_table_name("表"));
}

#[test]
fn default_table_name_is_async_sessions() {
    assert_eq!(DEFAULT_TABLE_NAME, "async_sessions");
    let store = MySqlSessionStore::from_client(7u8);
    assert_eq!(store.table_name(), "async_sessions");
    assert_eq!(*store.client(), 7u8);
    let store = SqliteStore::from_client("pool");
    assert_eq!(store.table_name(), "async_sessions");
}

#[test]
fn with_table_name_replaces_the_name_and_keeps_the_client() {
    let store = MySqlSessionStore::from_client(3u32).with_table_name("custom_table_name");
    assert_eq!(store.table_name(), "custom_table_name");
    assert_eq!(*store.client(), 3u32);
    let store = store.with_table_name("other");
    assert_eq!(store.table_name(), "other");
    let store = SqliteStore::from_client(5u32).with_table_name("custom-name");
    assert_eq!(store.table_name(), "custom-name");
    assert_eq!(*store.client(), 5u32);
}

#[test]
fn clone_keeps_table_name_and_client() {
    let store = MySqlSessionStore::from_client(String::from("pool")).with_table_name("t1");
    let copy = store.clone();
    assert_eq!(copy.table_name(), "t1");
    assert_eq!(copy.client(), "pool");
    let store = SqliteStore::from_client(1i64).with_table_name("t2");
    let copy = store.clone();
    assert_eq!(copy.table_name(), "t2");
    assert_eq!(*copy.client(), 1i64);
}

#[test]
fn try_with_table_name_accepts_only_valid_names() {
    let store = MySqlSessionStore::from_client(9u8).try_with_table_name("good_name").unwrap();
    assert_eq!(store.table_name(), "good_name");
    assert_eq!(*store.client(), 9u8);
    assert!(MySqlSessionStore::from_client(9u8).try_with_table_name("johnny (); drop users;").is_none());
    assert!(MySqlSessionStore::from_client(9u8).try_with_table_name("").is_none());
    let store = SqliteStore::from_client(1u8).try_with_table_name("s-1").unwrap();
    assert_eq!(store.table_name(), "s-1");
    assert!(SqliteStore::from_client(1u8).try_with_table_name("a b").is_none());
}
