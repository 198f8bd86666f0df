use vstd::prelude::*;
use vstd::string::*;

use async_session::Session;

use crate::substitute::{
    lemma_template_names_table, names_table_without_placeholder, occurs_in, replace_all,
    replace_all_occurrences, TABLE_NAME_MARKER,
};
use crate::error::StoreError;
use crate::session::{
    expiry_of, id_of, is_utc_timestamp, session_data_json, session_data_readable, session_expiry,
    session_id, session_id_from_cookie, session_id_of_cookie,
    SessionStatement, SessionWrite,
};
use crate::table_name::{
    is_valid_table_name, lemma_default_table_name_is_valid, valid_table_name, DEFAULT_TABLE_NAME,
};

verus! {

/// Template of the statement that creates the session table unless it exists.
pub const MYSQL_MIGRATE: &'static str = r#"
            CREATE TABLE IF NOT EXISTS %%TABLE_NAME%% (
                `id` VARCHAR(128) NOT NULL,
                `expires` TIMESTAMP(6) NULL,
                `session` TEXT NOT NULL,
                PRIMARY KEY (`id`),
                KEY `expires` (`expires`)
            )
            ENGINE=InnoDB
            DEFAULT CHARSET=utf8
            "#;

/// Template of the statement that deletes the sessions that expired before
/// the bound time.
pub const MYSQL_CLEANUP: &'static str = "DELETE FROM %%TABLE_NAME%% WHERE expires < ?";

/// Template of the statement that counts the stored sessions, expired ones
/// included.
pub const MYSQL_COUNT: &'static str = "SELECT COUNT(*) FROM %%TABLE_NAME%%";

/// Template of the statement that reads the session with the bound id,
/// unless it expired before the bound time.
pub const MYSQL_LOAD: &'static str = "SELECT session, expires FROM %%TABLE_NAME%% WHERE id = ? AND (expires IS NULL OR expires > ?)";

/// Template of the statement that inserts a session, or updates the expiry
/// and the data of the session with the same id.
pub const MYSQL_STORE: &'static str = r#"
            INSERT INTO %%TABLE_NAME%%
              (id, session, expires) VALUES(?, ?, ?)
            ON DUPLICATE KEY UPDATE
              expires = VALUES(expires),
              session = VALUES(session)
            "#;

/// Template of the statement that deletes the session with the bound id.
pub const MYSQL_DESTROY: &'static str = "DELETE FROM %%TABLE_NAME%% WHERE id = ?";

/// Template of the statement that deletes every session.
pub const MYSQL_CLEAR: &'static str = "TRUNCATE %%TABLE_NAME%%";

/// Every statement of a MySQL store whose table name is accepted names
/// that table and holds no placeholder any more: each template holds the
/// placeholder once, and no other `%`.
pub proof fn lemma_mysql_statements_name_the_table(name: Seq<char>)
    requires
        valid_table_name(name),
    ensures
        names_table_without_placeholder(MYSQL_MIGRATE@, name),
        names_table_without_placeholder(MYSQL_CLEANUP@, name),
        names_table_without_placeholder(MYSQL_COUNT@, name),
        names_table_without_placeholder(MYSQL_LOAD@, name),
        names_table_without_placeholder(MYSQL_STORE@, name),
        names_table_without_placeholder(MYSQL_DESTROY@, name),
        names_table_without_placeholder(MYSQL_CLEAR@, name),
{
    assert(names_table_without_placeholder(MYSQL_MIGRATE@, name)) by {
        reveal_strlit("\n            CREATE TABLE IF NOT EXISTS %%TABLE_NAME%% (\n                `id` VARCHAR(128) NOT NULL,\n                `expires` TIMESTAMP(6) NULL,\n                `session` TEXT NOT NULL,\n                PRIMARY KEY (`id`),\n                KEY `expires` (`expires`)\n            )\n            ENGINE=InnoDB\n            DEFAULT CHARSET=utf8\n            ");
        reveal_strlit("\n            CREATE TABLE IF NOT EXISTS ");
        reveal_strlit(" (\n                `id` VARCHAR(128) NOT NULL,\n                `expires` TIMESTAMP(6) NULL,\n                `session` TEXT NOT NULL,\n                PRIMARY KEY (`id`),\n                KEY `expires` (`expires`)\n            )\n            ENGINE=InnoDB\n            DEFAULT CHARSET=utf8\n            ");
        reveal_strlit("%%TABLE_NAME%%");
        lemma_template_names_table(MYSQL_MIGRATE@, "\n            CREATE TABLE IF NOT EXISTS "@, " (\n                `id` VARCHAR(128) NOT NULL,\n                `expires` TIMESTAMP(6) NULL,\n                `session` TEXT NOT NULL,\n                PRIMARY KEY (`id`),\n                KEY `expires` (`expires`)\n            )\n            ENGINE=InnoDB\n            DEFAULT CHARSET=utf8\n            "@, name);
    }
    assert(names_table_without_placeholder(MYSQL_CLEANUP@, name)) by {
        reveal_strlit("DELETE FROM %%TABLE_NAME%% WHERE expires < ?");
        reveal_strlit("DELETE FROM ");
        reveal_strlit(" WHERE expires < ?");
        reveal_strlit("%%TABLE_NAME%%");
        lemma_template_names_table(MYSQL_CLEANUP@, "DELETE FROM "@, " WHERE expires < ?"@, name);
    }
    assert(names_table_without_placeholder(MYSQL_COUNT@, name)) by {
        reveal_strlit("SELECT COUNT(*) FROM %%TABLE_NAME%%");
        reveal_strlit("SELECT COUNT(*) FROM ");
        reveal_strlit("");
        reveal_strlit("%%TABLE_NAME%%");
        lemma_template_names_table(MYSQL_COUNT@, "SELECT COUNT(*) FROM "@, ""@, name);
    }
    assert(names_table_without_placeholder(MYSQL_LOAD@, name)) by {
        reveal_strlit("SELECT session, expires FROM %%TABLE_NAME%% WHERE id = ? AND (expires IS NULL OR expires > ?)");
        reveal_strlit("SELECT session, expires FROM ");
        reveal_strlit(" WHERE id = ? AND (expires IS NULL OR expires > ?)");
        reveal_strlit("%%TABLE_NAME%%");
        lemma_template_names_table(MYSQL_LOAD@, "SELECT session, expires FROM "@, " WHERE id = ? AND (expires IS NULL OR expires > ?)"@, name);
    }
    assert(names_table_without_placeholder(MYSQL_STORE@, name)) by {
        reveal_strlit("\n            INSERT INTO %%TABLE_NAME%%\n              (id, session, expires) VALUES(?, ?, ?)\n            ON DUPLICATE KEY UPDATE\n              expires = VALUES(expires),\n              session = VALUES(session)\n            ");
        reveal_strlit("\n            INSERT INTO ");
        reveal_strlit("\n              (id, session, expires) VALUES(?, ?, ?)\n            ON DUPLICATE KEY UPDATE\n              expires = VALUES(expires),\n              session = VALUES(session)\n            ");
        reveal_strlit("%%TABLE_NAME%%");
        lemma_template_names_table(MYSQL_STORE@, "\n            INSERT INTO "@, "\n              (id, session, expires) VALUES(?, ?, ?)\n            ON DUPLICATE KEY UPDATE\n              expires = VALUES(expires),\n              session = VALUES(session)\n            "@, name);
    }
    assert(names_table_without_placeholder(MYSQL_DESTROY@, name)) by {
        reveal_strlit("DELETE FROM %%TABLE_NAME%% WHERE id = ?");
        reveal_strlit("DELETE FROM ");
        reveal_strlit(" WHERE id = ?");
        reveal_strlit("%%TABLE_NAME%%");
        lemma_template_names_table(MYSQL_DESTROY@, "DELETE FROM "@, " WHERE id = ?"@, name);
    }
    assert(names_table_without_placeholder(MYSQL_CLEAR@, name)) by {
        reveal_strlit("TRUNCATE %%TABLE_NAME%%");
        reveal_strlit("TRUNCATE ");
        reveal_strlit("");
        reveal_strlit("%%TABLE_NAME%%");
        lemma_template_names_table(MYSQL_CLEAR@, "TRUNCATE "@, ""@, name);
    }
}

/// A MySQL session store: the client that reaches the database (a
/// `sqlx::MySqlPool` in use) and the name of the table that holds the
/// sessions.
#[derive(Debug)]
pub struct MySqlSessionStore<C> {
    client: C,
    table_name: String,
}

impl<C> MySqlSessionStore<C> {
    #[verifier::type_invariant]
    spec fn well_formed(self) -> bool {
        valid_table_name(self.table_name@)
    }

    /// The name of the session table.
    pub closed spec fn spec_table_name(&self) -> Seq<char> {
        self.table_name@
    }

    /// The client that reaches the database.
    pub closed spec fn spec_client(&self) -> C {
        self.client
    }

    /// A store that reaches the database through `client`, with the table
    /// `async_sessions`.
    pub fn from_client(client: C) -> (store: Self)
        ensures
            store.spec_client() == client,
            store.spec_table_name() == DEFAULT_TABLE_NAME@,
    {
        let table_name = String::from_str(DEFAULT_TABLE_NAME);
        proof {
            lemma_default_table_name_is_valid();
        }
        MySqlSessionStore { client, table_name }
    }

    /// This store, with the table `table_name`.
    pub fn with_table_name(self, table_name: &str) -> (store: Self)
        requires
            valid_table_name(table_name@),
        ensures
            store.spec_table_name() == table_name@,
            store.spec_client() == self.spec_client(),
    {
        let mut store = self;
        store.table_name = table_name.to_owned();
        store
    }

    /// This store, with the table `table_name` where that name is accepted;
    /// `None` where it is not.
    pub fn try_with_table_name(self, table_name: &str) -> (r: Option<Self>)
        ensures
            match r {
                Some(store) => {
                    &&& valid_table_name(table_name@)
                    &&& store.spec_table_name() == table_name@
                    &&& store.spec_client() == self.spec_client()
                },
                None => !valid_table_name(table_name@),
            },
    {
        if is_valid_table_name(table_name) {
            Some(self.with_table_name(table_name))
        } else {
            None
        }
    }

    /// The name of the session table.
    pub fn table_name(&self) -> (name: &str)
        ensures
            name@ == self.spec_table_name(),
            valid_table_name(name@),
    {
        proof {
            use_type_invariant(self);
        }
        self.table_name.as_str()
    }

    /// The client that reaches the database.
    pub fn client(&self) -> (client: &C)
        ensures
            *client == self.spec_client(),
    {
        &self.client
    }

    /// `query` with the name of this store's table in place of each
    /// `%%TABLE_NAME%%`.
    fn substitute_table_name(&self, query: &str) -> (q: String)
        ensures
            q@ == replace_all(query@, TABLE_NAME_MARKER@, self.spec_table_name()),
    {
        replace_all_occurrences(query, TABLE_NAME_MARKER, self.table_name.as_str())
    }

    /// The statement that creates this store's table unless it exists.
    pub fn migrate_query(&self) -> (q: String)
        ensures
            q@ == replace_all(MYSQL_MIGRATE@, TABLE_NAME_MARKER@, self.spec_table_name()),
            occurs_in(self.spec_table_name(), q@),
            !occurs_in(TABLE_NAME_MARKER@, q@),
    {
        proof {
            use_type_invariant(self);
            lemma_mysql_statements_name_the_table(self.table_name@);
        }
        self.substitute_table_name(MYSQL_MIGRATE)
    }

    /// The statement that deletes the sessions of this store that expired
    /// before the time bound to it.
    pub fn cleanup_query(&self) -> (q: String)
        ensures
            q@ == replace_all(MYSQL_CLEANUP@, TABLE_NAME_MARKER@, self.spec_table_name()),
            occurs_in(self.spec_table_name(), q@),
            !occurs_in(TABLE_NAME_MARKER@, q@),
    {
        proof {
            use_type_invariant(self);
            lemma_mysql_statements_name_the_table(self.table_name@);
        }
        self.substitute_table_name(MYSQL_CLEANUP)
    }

    /// The statement that counts the sessions of this store, expired ones
    /// included.
    pub fn count_query(&self) -> (q: String)
        ensures
            q@ == replace_all(MYSQL_COUNT@, TABLE_NAME_MARKER@, self.spec_table_name()),
            occurs_in(self.spec_table_name(), q@),
            !occurs_in(TABLE_NAME_MARKER@, q@),
    {
        proof {
            use_type_invariant(self);
            lemma_mysql_statements_name_the_table(self.table_name@);
        }
        self.substitute_table_name(MYSQL_COUNT)
    }

    /// The statement that reads the session of this store with the id bound
    /// first to it, unless it expired before the time bound second.
    pub fn load_query(&self) -> (q: String)
        ensures
            q@ == replace_all(MYSQL_LOAD@, TABLE_NAME_MARKER@, self.spec_table_name()),
            occurs_in(self.spec_table_name(), q@),
            !occurs_in(TABLE_NAME_MARKER@, q@),
    {
        proof {
            use_type_invariant(self);
            lemma_mysql_statements_name_the_table(self.table_name@);
        }
        self.substitute_table_name(MYSQL_LOAD)
    }

    /// The statement that writes a session into this store, or updates the
    /// stored session with the same id.
    pub fn store_query(&self) -> (q: String)
        ensures
            q@ == replace_all(MYSQL_STORE@, TABLE_NAME_MARKER@, self.spec_table_name()),
            occurs_in(self.spec_table_name(), q@),
            !occurs_in(TABLE_NAME_MARKER@, q@),
    {
        proof {
            use_type_invariant(self);
            lemma_mysql_statements_name_the_table(self.table_name@);
        }
        self.substitute_table_name(MYSQL_STORE)
    }

    /// The statement that deletes the session of this store with the id
    /// bound to it.
    pub fn destroy_query(&self) -> (q: String)
        ensures
            q@ == replace_all(MYSQL_DESTROY@, TABLE_NAME_MARKER@, self.spec_table_name()),
            occurs_in(self.spec_table_name(), q@),
            !occurs_in(TABLE_NAME_MARKER@, q@),
    {
        proof {
            use_type_invariant(self);
            lemma_mysql_statements_name_the_table(self.table_name@);
        }
        self.substitute_table_name(MYSQL_DESTROY)
    }

    /// The statement that deletes every session of this store.
    pub fn clear_query(&self) -> (q: String)
        ensures
            q@ == replace_all(MYSQL_CLEAR@, TABLE_NAME_MARKER@, self.spec_table_name()),
            occurs_in(self.spec_table_name(), q@),
            !occurs_in(TABLE_NAME_MARKER@, q@),
    {
        proof {
            use_type_invariant(self);
            lemma_mysql_statements_name_the_table(self.table_name@);
        }
        self.substitute_table_name(MYSQL_CLEAR)
    }

    /// What loading the session of `cookie_value` runs: the statement that
    /// reads it, with the session id that the cookie value stands for. Fails
    /// where the cookie value is not base64.
    pub fn load_statement(&self, cookie_value: &str) -> (r: Result<SessionStatement, StoreError>)
        ensures
            match r {
                Ok(st) => {
                    &&& st.sql@ == replace_all(MYSQL_LOAD@, TABLE_NAME_MARKER@, self.spec_table_name())
                    &&& session_id_of_cookie(cookie_value@) == Some(st.id@)
                },
                Err(e) => session_id_of_cookie(cookie_value@) is None && e is Base64,
            },
    {
        match session_id_from_cookie(cookie_value) {
            Ok(id) => Ok(SessionStatement { sql: self.load_query(), id }),
            Err(e) => Err(e),
        }
    }

    /// What storing `session` runs: the statement that writes it, with its
    /// id, its data as JSON text that reads back, and its expiry. Fails
    /// where the session's data cannot be written.
    pub fn store_statement(&self, session: &Session) -> (r: Result<SessionWrite, StoreError>)
        ensures
            match r {
                Ok(w) => {
                    &&& w.sql@ == replace_all(MYSQL_STORE@, TABLE_NAME_MARKER@, self.spec_table_name())
                    &&& w.id@ == id_of(*session)
                    &&& session_data_readable(w.json@)
                    &&& w.expires == expiry_of(*session)
                    &&& w.expires matches Some((secs, nanos)) ==> is_utc_timestamp(secs, nanos)
                },
                Err(e) => e is SerdeJson,
            },
    {
        let id = session_id(session);
        let expires = session_expiry(session);
        match session_data_json(session) {
            Ok(json) => Ok(SessionWrite { sql: self.store_query(), id, json, expires }),
            Err(e) => Err(StoreError::SerdeJson(e)),
        }
    }

    /// What destroying `session` runs: the statement that deletes it, with
    /// its id.
    pub fn destroy_statement(&self, session: &Session) -> (st: SessionStatement)
        ensures
            st.sql@ == replace_all(MYSQL_DESTROY@, TABLE_NAME_MARKER@, self.spec_table_name()),
            st.id@ == id_of(*session),
    {
        let (sql, id) = (self.destroy_query(), session_id(session));
        SessionStatement { sql, id }
    }

}

impl<C: Clone> Clone for MySqlSessionStore<C> {
    /// A store with a clone of the client and the same table name.
    fn clone(&self) -> (store: Self)
        ensures
            store.spec_table_name() == self.spec_table_name(),
            cloned::<C>(self.spec_client(), store.spec_client()),
    {
        proof {
            use_type_invariant(self);
        }
        MySqlSessionStore { client: self.client.clone(), table_name: self.table_name.clone() }
    }
}

} // verus!
