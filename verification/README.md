# hustle_tracker

The decision core of a desktop time tracker's daemon, written and proved in
Verus.

- `src/models/session.rs`: a tracked session.
- `src/daemon/database/`: the session store on PostgreSQL.
  - `connection.rs`: the open store; who may write, and what is sent.
  - `startup.rs`, `startup_laws.rs`, `writer_laws.rs`: opening it and taking the
    writer lock.
  - `migrations.rs`, `migrator.rs`, `migration_laws.rs`, `checksum.rs`: the schema.
  - `store.rs`, `columns.rs`, `statement.rs`: the statements that write sessions.
  - `renames.rs`: renames and categories looked up before a session is stored.
- `src/daemon/tracker/`: Wayland idle detection (`idle_wayland.rs`) and what holds
  of it (`idle_laws.rs`).
- `app/`: the I/O around it, with `sqlx` and `wayland-client`.

Every exchange with the outside is a state machine: `pending` names the next
action, `resume` takes its outcome. The texts of the schema migrations are not part
of this project: the program that links it embeds them and hands them to
`Database::new` in `app/`.
