# async_sqlx_session

Session stores for `async-session` on MySQL and SQLite through `sqlx`.

- `src/` is the verified library: the rule for table names
  (`[a-zA-Z0-9_-]+`), the substitution of the table name into each SQL
  statement (a verified replace-all with its specification), the two store
  types with the statements they run, and the steps that turn a cookie value
  into a session id, a stored row into a session and a session into a row.
- `app/` runs the statements: connecting, migrating, cleaning up, counting,
  and the `async_session::SessionStore` implementations, all asynchronous.
- `tests/` exercises the library on concrete values.
