use vstd::prelude::*;
use vstd::string::*;

use async_session::Session;

use crate::substitute::{
    lemma_template_names_table, names_table_without_placeholder, occurs_in, replace_all,
    replace_all_occurrences, TABLE_NAME_MARKER,
};
use crate::session::{
    expiry_of, id_of, is_utc_timestamp, session_expiry, session_id, session_id_from_cookie,
    session_id_of_cookie, session_json_read, session_to_json,
    SessionStatement, SessionWrite,
};
use crate::table_name::{
    is_valid_table_name, lemma_default_table_name_is_valid, valid_table_name, DEFAULT_TABLE_NAME,
};

verus! {

/// Template of the statement that creates the session table unless it exists.
pub const SQLITE_MIGRATE: &'static str = r#"
            CREATE TABLE IF NOT EXISTS %%TABLE_NAME%% (
                id TEXT PRIMARY KEY NOT NULL,
                expires INTEGER NULL,
                session TEXT NOT NULL
            )
            "#;

/// Template of the statement that deletes the sessions that expired before
/// the bound time.
pub const SQLITE_CLEANUP: &'static str = r#"
            DELETE FROM %%TABLE_NAME%%
            WHERE expires < ?
            "#;

/// Template of the statement that reads the session with the bound id,
/// unless it expired before the bound time. The two conditions on the
/// expiry are joined with `OR`: joined with `||`, which is string
/// concatenation in SQLite and binds tighter than `>`, they would read only
/// as `expires IS NULL`, and a session with an expiry would never load.
pub const SQLITE_LOAD: &'static str = r#"
            SELECT session FROM %%TABLE_NAME%%
              WHERE id = ? AND (expires IS NULL OR expires > ?)
            "#;

/// Template of the statement that inserts a session, or updates the expiry
/// and the data of the session with the same id.
pub const SQLITE_STORE: &'static str = r#"
            INSERT INTO %%TABLE_NAME%%
              (id, session, expires) VALUES (?, ?, ?)
            ON CONFLICT(id) DO UPDATE SET
              expires = excluded.expires,
              session = excluded.session
            "#;

/// Template of the statement that deletes the session with the bound id.
pub const SQLITE_DESTROY: &'static str = r#"
            DELETE FROM %%TABLE_NAME%% WHERE id = ?
            "#;

/// Template of the statement that deletes every session.
pub const SQLITE_CLEAR: &'static str = r#"
            DELETE FROM %%TABLE_NAME%%
            "#;

/// Every statement of a SQLite store whose table name is accepted names
/// that table and holds no placeholder any more: each template holds the
/// placeholder once, and no other `%`.
pub proof fn lemma_sqlite_statements_name_the_table(name: Seq<char>)
    requires
        valid_table_name(name),
    ensures
        names_table_without_placeholder(SQLITE_MIGRATE@, name),
        names_table_without_placeholder(SQLITE_CLEANUP@, name),
        names_table_without_placeholder(SQLITE_LOAD@, name),
        names_table_without_placeholder(SQLITE_STORE@, name),
        names_table_without_placeholder(SQLITE_DESTROY@, name),
        names_table_without_placeholder(SQLITE_CLEAR@, name),
{
    assert(names_table_without_placeholder(SQLITE_MIGRATE@, name)) by {
        reveal_strlit("\n            CREATE TABLE IF NOT EXISTS %%TABLE_NAME%% (\n                id TEXT PRIMARY KEY NOT NULL,\n                expires INTEGER NULL,\n                session TEXT NOT NULL\n            )\n            ");
        reveal_strlit("\n            CREATE TABLE IF NOT EXISTS ");
        reveal_strlit(" (\n                id TEXT PRIMARY KEY NOT NULL,\n                expires INTEGER NULL,\n                session TEXT NOT NULL\n            )\n            ");
        reveal_strlit("%%TABLE_NAME%%");
        lemma_template_names_table(SQLITE_MIGRATE@, "\n            CREATE TABLE IF NOT EXISTS "@, " (\n                id TEXT PRIMARY KEY NOT NULL,\n                expires INTEGER NULL,\n                session TEXT NOT NULL\n            )\n            "@, name);
    }
    assert(names_table_without_placeholder(SQLITE_CLEANUP@, name)) by {
        reveal_strlit("\n            DELETE FROM %%TABLE_NAME%%\n            WHERE expires < ?\n            ");
        reveal_strlit("\n            DELETE FROM ");
        reveal_strlit("\n            WHERE expires < ?\n            ");
        reveal_strlit("%%TABLE_NAME%%");
        lemma_template_names_table(SQLITE_CLEANUP@, "\n            DELETE FROM "@, "\n            WHERE expires < ?\n            "@, name);
    }
    assert(names_table_without_placeholder(SQLITE_LOAD@, name)) by {
        reveal_strlit("\n            SELECT session FROM %%TABLE_NAME%%\n              WHERE id = ? AND (expires IS NULL OR expires > ?)\n            ");
        reveal_strlit("\n            SELECT session FROM ");
        reveal_strlit("\n              WHERE id = ? AND (expires IS NULL OR expires > ?)\n            ");
        reveal_strlit("%%TABLE_NAME%%");
        lemma_template_names_table(SQLITE_LOAD@, "\n            SELECT session FROM "@, "\n              WHERE id = ? AND (expires IS NULL OR expires > ?)\n            "@, name);
    }
    assert(names_table_without_placeholder(SQLITE_STORE@, name)) by {
        reveal_strlit("\n            INSERT INTO %%TABLE_NAME%%\n              (id, session, expires) VALUES (?, ?, ?)\n            ON CONFLICT(id) DO UPDATE SET\n              expires = excluded.expires,\n              session = excluded.session\n            ");
        reveal_strlit("\n            INSERT INTO ");
        reveal_strlit("\n              (id, session, expires) VALUES (?, ?, ?)\n            ON CONFLICT(id) DO UPDATE SET\n              expires = excluded.expires,\n              session = excluded.session\n            ");
        reveal_strlit("%%TABLE_NAME%%");
        lemma_template_names_table(SQLITE_STORE@, "\n            INSERT INTO "@, "\n              (id, session, expires) VALUES (?, ?, ?)\n            ON CONFLICT(id) DO UPDATE SET\n              expires = excluded.expires,\n              session = excluded.session\n            "@, name);
    }
    assert(names_table_without_placeholder(SQLITE_DESTROY@, name)) by {
        reveal_strlit("\n            DELETE FROM %%TABLE_NAME%% WHERE id = ?\n            ");
        reveal_strlit("\n            DELETE FROM ");
        reveal_strlit(" WHERE id = ?\n            ");
        reveal_strlit("%%TABLE_NAME%%");
        lemma_template_names_table(SQLITE_DESTROY@, "\n            DELETE FROM "@, " WHERE id = ?\n            "@, name);
    }
    assert(names_table_without_placeholder(SQLITE_CLEAR@, name)) by {
        reveal_strlit("\n            DELETE FROM %%TABLE_NAME%%\n            ");
        reveal_strlit("\n            DELETE FROM ");
        reveal_strlit("\n            ");
        reveal_strlit("%%TABLE_NAME%%");
        lemma_template_names_table(SQLITE_CLEAR@, "\n            DELETE FROM "@, "\n            "@, name);
    }
}

/// A SQLite session store: the client that reaches the database (a
/// `sqlx::SqlitePool` in use) and the name of the table that holds the
/// sessions.
#[derive(Debug)]
pub struct SqliteStore<C> {
    client: C,
    table_name: String,
}

impl<C> SqliteStore<C> {
    #[verifier::type_invariant]
    spec fn well_formed(self) -> bool {
        valid_table_name(self.table_name@)
    }

    /// The name of the session table.
    pub closed spec fn spec_table_name(&self) -> Seq<char> {
        self.table_name@
    }

    /// The client that reaches the database.
    pub closed spec fn spec_client(&self) -> C {
        self.client
    }

    /// A store that reaches the database through `client`, with the table
    /// `async_sessions`.
    pub fn from_client(client: C) -> (store: Self)
        ensures
            store.spec_client() == client,
            store.spec_table_name() == DEFAULT_TABLE_NAME@,
    {
        let table_name = String::from_str(DEFAULT_TABLE_NAME);
        proof {
            lemma_default_table_name_is_valid();
        }
        SqliteStore { client, table_name }
    }

    /// This store, with the table `table_name`.
    pub fn with_table_name(self, table_name: &str) -> (store: Self)
        requires
            valid_table_name(table_name@),
        ensures
            store.spec_table_name() == table_name@,
            store.spec_client() == self.spec_client(),
    {
        let mut store = self;
        store.table_name = table_name.to_owned();
        store
    }

    /// This store, with the table `table_name` where that name is accepted;
    /// `None` where it is not.
    pub fn try_with_table_name(self, table_name: &str) -> (r: Option<Self>)
        ensures
            match r {
                Some(store) => {
                    &&& valid_table_name(table_name@)
                    &&& store.spec_table_name() == table_name@
                    &&& store.spec_client() == self.spec_client()
                },
                None => !valid_table_name(table_name@),
            },
    {
        if is_valid_table_name(table_name) {
            Some(self.with_table_name(table_name))
        } else {
            None
        }
    }

    /// The name of the session table.
    pub fn table_name(&self) -> (name: &str)
        ensures
            name@ == self.spec_table_name(),
            valid_table_name(name@),
    {
        proof {
            use_type_invariant(self);
        }
        self.table_name.as_str()
    }

    /// The client that reaches the database.
    pub fn client(&self) -> (client: &C)
        ensures
            *client == self.spec_client(),
    {
        &self.client
    }

    /// `query` with the name of this store's table in place of each
    /// `%%TABLE_NAME%%`.
    fn substitute_table_name(&self, query: &str) -> (q: String)
        ensures
            q@ == replace_all(query@, TABLE_NAME_MARKER@, self.spec_table_name()),
    {
        replace_all_occurrences(query, TABLE_NAME_MARKER, self.table_name.as_str())
    }

    /// The statement that creates this store's table unless it exists.
    pub fn migrate_query(&self) -> (q: String)
        ensures
            q@ == replace_all(SQLITE_MIGRATE@, TABLE_NAME_MARKER@, self.spec_table_name()),
            occurs_in(self.spec_table_name(), q@),
            !occurs_in(TABLE_NAME_MARKER@, q@),
    {
        proof {
            use_type_invariant(self);
            lemma_sqlite_statements_name_the_table(self.table_name@);
        }
        self.substitute_table_name(SQLITE_MIGRATE)
    }

    /// The statement that deletes the sessions of this store that expired
    /// before the time bound to it.
    pub fn cleanup_query(&self) -> (q: String)
        ensures
            q@ == replace_all(SQLITE_CLEANUP@, TABLE_NAME_MARKER@, self.spec_table_name()),
            occurs_in(self.spec_table_name(), q@),
            !occurs_in(TABLE_NAME_MARKER@, q@),
    {
        proof {
            use_type_invariant(self);
            lemma_sqlite_statements_name_the_table(self.table_name@);
        }
        self.substitute_table_name(SQLITE_CLEANUP)
    }

    /// The statement that reads the session of this store with the id bound
    /// first to it, unless it expired before the time bound second.
    pub fn load_query(&self) -> (q: String)
        ensures
            q@ == replace_all(SQLITE_LOAD@, TABLE_NAME_MARKER@, self.spec_table_name()),
            occurs_in(self.spec_table_name(), q@),
            !occurs_in(TABLE_NAME_MARKER@, q@),
    {
        proof {
            use_type_invariant(self);
            lemma_sqlite_statements_name_the_table(self.table_name@);
        }
        self.substitute_table_name(SQLITE_LOAD)
    }

    /// The statement that writes a session into this store, or updates the
    /// stored session with the same id.
    pub fn store_query(&self) -> (q: String)
        ensures
            q@ == replace_all(SQLITE_STORE@, TABLE_NAME_MARKER@, self.spec_table_name()),
            occurs_in(self.spec_table_name(), q@),
            !occurs_in(TABLE_NAME_MARKER@, q@),
    {
        proof {
            use_type_invariant(self);
            lemma_sqlite_statements_name_the_table(self.table_name@);
        }
        self.substitute_table_name(SQLITE_STORE)
    }

    /// The statement that deletes the session of this store with the id
    /// bound to it.
    pub fn destroy_query(&self) -> (q: String)
        ensures
            q@ == replace_all(SQLITE_DESTROY@, TABLE_NAME_MARKER@, self.spec_table_name()),
            occurs_in(self.spec_table_name(), q@),
            !occurs_in(TABLE_NAME_MARKER@, q@),
    {
        proof {
            use_type_invariant(self);
            lemma_sqlite_statements_name_the_table(self.table_name@);
        }
        self.substitute_table_name(SQLITE_DESTROY)
    }

    /// The statement that deletes every session of this store.
    pub fn clear_query(&self) -> (q: String)
        ensures
            q@ == replace_all(SQLITE_CLEAR@, TABLE_NAME_MARKER@, self.spec_table_name()),
            occurs_in(self.spec_table_name(), q@),
            !occurs_in(TABLE_NAME_MARKER@, q@),
    {
        proof {
            use_type_invariant(self);
            lemma_sqlite_statements_name_the_table(self.table_name@);
        }
        self.substitute_table_name(SQLITE_CLEAR)
    }

    /// What loading the session of `cookie_value` runs: the statement that
    /// reads it, with the session id that the cookie value stands for.
    /// `None` where the cookie value is not base64: this store answers "no
    /// session" for such a cookie.
    pub fn load_statement(&self, cookie_value: &str) -> (r: Option<SessionStatement>)
        ensures
            match r {
                Some(st) => {
                    &&& st.sql@ == replace_all(SQLITE_LOAD@, TABLE_NAME_MARKER@, self.spec_table_name())
                    &&& session_id_of_cookie(cookie_value@) == Some(st.id@)
                },
                None => session_id_of_cookie(cookie_value@) is None,
            },
    {
        match session_id_from_cookie(cookie_value) {
            Ok(id) => Some(SessionStatement { sql: self.load_query(), id }),
            Err(_) => None,
        }
    }

    /// What storing `session` runs: the statement that writes it, with its
    /// id, its JSON text, which reads back as a session with its id and
    /// expiry, and its expiry. `None` where the session cannot be written
    /// as JSON: this store then answers "no cookie".
    pub fn store_statement(&self, session: &Session) -> (r: Option<SessionWrite>)
        ensures
            r matches Some(w) ==> {
                &&& w.sql@ == replace_all(SQLITE_STORE@, TABLE_NAME_MARKER@, self.spec_table_name())
                &&& w.id@ == id_of(*session)
                &&& session_json_read(w.json@) == Some((id_of(*session), expiry_of(*session)))
                &&& w.expires == expiry_of(*session)
                &&& w.expires matches Some((secs, nanos)) ==> is_utc_timestamp(secs, nanos)
            },
    {
        let id = session_id(session);
        let expires = session_expiry(session);
        match session_to_json(session) {
            Ok(json) => Some(SessionWrite { sql: self.store_query(), id, json, expires }),
            Err(_) => None,
        }
    }

    /// What destroying `session` runs: the statement that deletes it, with
    /// its id.
    pub fn destroy_statement(&self, session: &Session) -> (st: SessionStatement)
        ensures
            st.sql@ == replace_all(SQLITE_DESTROY@, TABLE_NAME_MARKER@, self.spec_table_name()),
            st.id@ == id_of(*session),
    {
        let (sql, id) = (self.destroy_query(), session_id(session));
        SessionStatement { sql, id }
    }

}

impl<C: Clone> Clone for SqliteStore<C> {
    /// A store with a clone of the client and the same table name.
    fn clone(&self) -> (store: Self)
        ensures
            store.spec_table_name() == self.spec_table_name(),
            cloned::<C>(self.spec_client(), store.spec_client()),
    {
        proof {
            use_type_invariant(self);
        }
        SqliteStore { client: self.client.clone(), table_name: self.table_name.clone() }
    }
}

} // verus!
