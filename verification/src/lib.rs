//! Session stores for `async-session` backed by SQL databases through `sqlx`.
//!
//! The crate holds what the stores decide for themselves: which table
//! names are accepted, how the table name is put into each SQL statement,
//! and how a cookie value, a stored row and a session are turned into one
//! another. Running the statements on a database is left to the
//! asynchronous code that uses it.

mod error;
mod mysql;
mod outside;
mod session;
mod sqlite;
mod substitute;
mod table_name;

pub use error::StoreError;
pub use mysql::{
    lemma_mysql_statements_name_the_table, MySqlSessionStore, MYSQL_CLEANUP, MYSQL_CLEAR,
    MYSQL_COUNT, MYSQL_DESTROY, MYSQL_LOAD, MYSQL_MIGRATE, MYSQL_STORE,
};
pub use session::{
    cookie_value_of, expiry_of, id_of, is_utc_timestamp, lemma_parts_read_after_write,
    lemma_whole_session_read_after_write, rebuilt_expiry, session_data_readable,
    session_from_parts_row, session_from_row_or_none, session_id_from_cookie, session_id_of_cookie,
    session_json_read, stored_session_cookie, SessionStatement, SessionWrite,
};
pub use sqlite::{
    lemma_sqlite_statements_name_the_table, SqliteStore, SQLITE_CLEANUP, SQLITE_CLEAR,
    SQLITE_DESTROY, SQLITE_LOAD, SQLITE_MIGRATE, SQLITE_STORE,
};
pub use substitute::{
    lacks, lemma_pattern_absent, lemma_replace_all_draws_from_inputs,
    lemma_replace_all_leaves_text_without_pattern_start, lemma_replace_all_single_occurrence,
    lemma_single_placeholder_substitution,
    lemma_substituted_chars_come_from_template_or_table_name_set, lemma_template_names_table,
    names_table_without_placeholder,
    occurs_in, replace_all, replace_all_occurrences, TABLE_NAME_MARKER,
};
pub use table_name::{
    is_table_name_char, is_valid_table_name, lemma_accepted_table_names,
    lemma_default_table_name_is_valid, valid_table_name,
    DEFAULT_TABLE_NAME,
};
