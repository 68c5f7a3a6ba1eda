# accounts

User accounts for a web service: registering, logging in with a password and with one-time
passwords, sessions, and the subscriptions and filters that an account keeps.

- `src/` is the library, verified with Verus. `db` and `auth` decide: they say what to ask the
  database for and what to answer, and take its replies as values. `password`, `session`, `totp`,
  `encoding`, `form` and `clock` hold what they are built from, with the calls into other crates.
  `sql` and `request` hold the statements. `laws` states what holds across the operations.
- `app/` works the SQLite database and the HTTP requests. The service that uses it writes the pages
  by implementing `server::Pages`.
- `tests/` runs the library on concrete values, in part against a database in memory.
