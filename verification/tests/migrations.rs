use hustle_tracker::daemon::database::checksum::checksum;
use hustle_tracker::daemon::database::connection::{Database, WRITER_LOCK_KEY};
use hustle_tracker::daemon::database::error::DatabaseError;
use hustle_tracker::daemon::database::migrations::{
    applied_record, embedded_migrations, execution_time, failed_record, EmbeddedMigration,
    APPLIED_RECORD_SQL, CREATE_TABLE_SQL, EXISTS_SQL, FAILED_RECORD_SQL,
};
use hustle_tracker::daemon::database::migrator::{Migrator, Reply};
use hustle_tracker::daemon::database::startup::{Action, Outcome, Startup};
use hustle_tracker::daemon::database::statement::{Fetch, Value};

fn hex(bytes: &[u8]) -> String {
    bytes.iter().map(|b| format!("{:02x}", b)).collect()
}

fn two() -> Vec<EmbeddedMigration> {
    vec![
        EmbeddedMigration { version: 1, description: "one.sql", sql: "hello world".to_string() },
        EmbeddedMigration { version: 2, description: "two.sql", sql: "CREATE B".to_string() },
    ]
}

/// Runs the migrator against a store that holds `held`, and in which the text
/// `broken` fails.  Returns the texts that were applied.
fn run(
    migrations: Vec<EmbeddedMigration>,
    held: &mut Vec<i64>,
    broken: Option<&str>,
) -> (Vec<String>, Result<(), DatabaseError>) {
    let mut migrator = Migrator::new(migrations);
    let mut applied = vec![];
    while let Some(statement) = migrator.pending() {
        let reply = match statement.fetch {
            Fetch::One => match statement.params[0] {
                Value::Int8(Some(version)) => Reply::Answer(held.contains(&version)),
                _ => panic!("no version"),
            },
            Fetch::ExecuteRaw => {
                applied.push(statement.sql.clone());
                if broken == Some(statement.sql.as_str()) {
                    Reply::Failed { reason: "broken".to_string() }
                } else {
                    Reply::Applied { elapsed_millis: 12 }
                }
            }
            _ => {
                if let Some(Value::Int8(Some(version))) = statement.params.first() {
                    held.push(*version);
                }
                Reply::Executed
            }
        };
        migrator = migrator.resume(reply);
    }
    match migrator.result() {
        Some(result) => (applied, result),
        None => panic!("the migrator did not finish"),
    }
}

#[test]
fn checksum_is_sha256() {
    assert_eq!(
        hex(&checksum("hello world")),
        "b94d27b9934d3e08a52e52d7da7dabfac484efe37a5380ee9088f7ace2efcde9"
    );
    assert_eq!(
        hex(&checksum("")),
        "e3b0c44298fc1c149afbf4c8996fb92427ae41e4649b934ca495991b7852b855"
    );
}

#[test]
fn tracker_migrations_in_order() {
    let list = embedded_migrations(
        "a".to_string(),
        "b".to_string(),
        "c".to_string(),
        "d".to_string(),
        "e".to_string(),
    );
    let found: Vec<(i64, &str, &str)> =
        list.iter().map(|m| (m.version, m.description, m.sql.as_str())).collect();
    assert_eq!(
        found,
        vec![
            (20231019000000, "20231019000000_initial_schema.sql", "a"),
            (20251020000000, "20251020000000_add_parsed_data_columns.sql", "b"),
            (20251030000000, "20251030000000_add_idle_tracking.sql", "c"),
            (20251103000000, "20251103000000_add_idle_accumulation.sql", "d"),
            (20251128000000, "20251128000000_add_app_renames.sql", "e"),
        ]
    );
    for pair in list.windows(2) {
        assert!(pair[0].version < pair[1].version);
    }
    for migration in &list {
        assert!(migration.description.starts_with(&format!("{}_", migration.version)));
    }
}

#[test]
fn statements_of_a_full_run() {
    let one = two().remove(0);
    let mut migrator = Migrator::new(vec![one]);

    let create = migrator.pending().unwrap();
    assert_eq!(create.sql, CREATE_TABLE_SQL);
    assert!(create.sql.contains("CREATE TABLE IF NOT EXISTS _sqlx_migrations ("));
    assert_eq!(create.params, vec![]);
    assert_eq!(create.fetch, Fetch::Execute);
    migrator = migrator.resume(Reply::Executed);

    let exists = migrator.pending().unwrap();
    assert_eq!(exists.sql, EXISTS_SQL);
    assert_eq!(exists.params, vec![Value::Int8(Some(1))]);
    assert_eq!(exists.fetch, Fetch::One);
    migrator = migrator.resume(Reply::Answer(false));

    let apply = migrator.pending().unwrap();
    assert_eq!(apply.sql, "hello world");
    assert_eq!(apply.params, vec![]);
    assert_eq!(apply.fetch, Fetch::ExecuteRaw);
    migrator = migrator.resume(Reply::Applied { elapsed_millis: 250 });

    let record = migrator.pending().unwrap();
    assert_eq!(record.sql, APPLIED_RECORD_SQL);
    assert_eq!(
        record.params,
        vec![
            Value::Int8(Some(1)),
            Value::Text(Some("one.sql".to_string())),
            Value::Bytes(checksum("hello world")),
            Value::Int8(Some(250)),
        ]
    );
    assert_eq!(record.fetch, Fetch::Execute);
    migrator = migrator.resume(Reply::Executed);

    assert!(migrator.pending().is_none());
    assert_eq!(migrator.result(), Some(Ok(())));
}

#[test]
fn texts_of_the_records() {
    assert_eq!(
        APPLIED_RECORD_SQL,
        r#"
                            INSERT INTO _sqlx_migrations (version, description, success, checksum, execution_time)
                            VALUES ($1, $2, true, $3, $4)
                            "#
    );
    assert_eq!(
        FAILED_RECORD_SQL,
        r#"
                            INSERT INTO _sqlx_migrations (version, description, success, checksum, execution_time)
                            VALUES ($1, $2, false, $3, 0)
                            "#
    );
    assert_eq!(
        CREATE_TABLE_SQL,
        r#"
            CREATE TABLE IF NOT EXISTS _sqlx_migrations (
                version BIGINT NOT NULL PRIMARY KEY,
                description TEXT NOT NULL,
                installed_on TIMESTAMPTZ NOT NULL DEFAULT now(),
                success BOOLEAN NOT NULL,
                checksum BYTEA NOT NULL,
                execution_time BIGINT NOT NULL
            )
            "#
    );
    let one = two().remove(0);
    let record = failed_record(&one, vec![1, 2]);
    assert_eq!(record.sql, FAILED_RECORD_SQL);
    assert_eq!(
        record.params,
        vec![
            Value::Int8(Some(1)),
            Value::Text(Some("one.sql".to_string())),
            Value::Bytes(vec![1, 2]),
        ]
    );
    assert_eq!(applied_record(&one, vec![3], -4).params[2..], [Value::Bytes(vec![3]), Value::Int8(Some(-4))]);
}

#[test]
fn missing_migrations_are_applied_once_in_order() {
    let mut held = vec![];
    let (applied, result) = run(two(), &mut held, None);
    assert_eq!(applied, vec!["hello world", "CREATE B"]);
    assert_eq!(result, Ok(()));
    assert_eq!(held, vec![1, 2]);
    // A second run finds everything recorded.
    let (applied, result) = run(two(), &mut held, None);
    assert!(applied.is_empty());
    assert_eq!(result, Ok(()));
    assert_eq!(held, vec![1, 2]);
}

#[test]
fn held_migration_is_skipped() {
    let mut held = vec![1];
    let (applied, result) = run(two(), &mut held, None);
    assert_eq!(applied, vec!["CREATE B"]);
    assert_eq!(result, Ok(()));
}

#[test]
fn failed_migration_ends_the_run_and_is_not_retried() {
    let mut held = vec![];
    let (applied, result) = run(two(), &mut held, Some("hello world"));
    assert_eq!(applied, vec!["hello world"]);
    assert_eq!(
        result,
        Err(DatabaseError::MigrationFailed {
            description: "one.sql".to_string(),
            reason: "broken".to_string(),
        })
    );
    assert_eq!(held, vec![1]);
    let (applied, result) = run(two(), &mut held, Some("hello world"));
    assert_eq!(applied, vec!["CREATE B"]);
    assert_eq!(result, Ok(()));
}

#[test]
fn unrecorded_failure_reports_the_migration() {
    let migrator = Migrator::new(two())
        .resume(Reply::Executed)
        .resume(Reply::Answer(false))
        .resume(Reply::Failed { reason: "broken".to_string() });
    assert_eq!(migrator.pending().unwrap().sql, FAILED_RECORD_SQL);
    let migrator = migrator.resume(Reply::Failed { reason: "no table".to_string() });
    assert_eq!(
        migrator.result(),
        Some(Err(DatabaseError::MigrationFailed {
            description: "one.sql".to_string(),
            reason: "broken".to_string(),
        }))
    );
}

#[test]
fn unrecorded_success_is_an_error() {
    let migrator = Migrator::new(two())
        .resume(Reply::Executed)
        .resume(Reply::Answer(false))
        .resume(Reply::Applied { elapsed_millis: 1 })
        .resume(Reply::Failed { reason: "no table".to_string() });
    assert_eq!(
        migrator.result(),
        Some(Err(DatabaseError::Backend { reason: "no table".to_string() }))
    );
}

#[test]
fn unfinished_migrator_has_no_result() {
    assert_eq!(Migrator::new(two()).result(), None);
    let failed = Migrator::new(two()).resume(Reply::Failed { reason: "down".to_string() });
    assert_eq!(
        failed.result(),
        Some(Err(DatabaseError::Backend { reason: "down".to_string() }))
    );
}

#[test]
fn execution_times() {
    assert_eq!(execution_time(0), 0);
    assert_eq!(execution_time(1234), 1234);
    assert_eq!(execution_time(i64::MAX as u128), i64::MAX);
    assert_eq!(execution_time(i64::MAX as u128 + 1), i64::MIN);
    assert_eq!(execution_time(1u128 << 64), 0);
    assert_eq!(execution_time(u128::MAX), -1);
}

type Opening = Startup<u8, u16>;

fn begin() -> Opening {
    Database::<u8, u16>::new("postgres://db", two())
}

#[test]
fn opening_as_the_writer() {
    let opening = begin();
    assert!(opening.pool().is_none());
    match opening.pending() {
        Some(Action::Connect { url }) => assert_eq!(url, "postgres://db"),
        _ => panic!("not connecting"),
    }
    let opening = opening.resume(Outcome::Connected { pool: 7 });
    assert_eq!(opening.pool(), Some(&7));
    assert!(matches!(opening.pending(), Some(Action::Acquire)));
    let opening = opening.resume(Outcome::Acquired);
    match opening.pending() {
        Some(Action::AskForLock { statement }) => {
            assert_eq!(statement.sql, "SELECT pg_try_advisory_lock($1)");
            assert_eq!(statement.params, vec![Value::Int8(Some(WRITER_LOCK_KEY))]);
            assert_eq!(statement.fetch, Fetch::One);
        }
        _ => panic!("not asking for the lock"),
    }
    let mut opening = opening.resume(Outcome::Lock { connection: 300, granted: true });
    for reply in [Reply::Executed, Reply::Answer(true), Reply::Answer(true)] {
        assert!(matches!(opening.pending(), Some(Action::Migrate { .. })));
        assert_eq!(opening.pool(), Some(&7));
        opening = opening.resume(Outcome::Migration { reply });
    }
    assert!(opening.pending().is_none());
    match opening.finish() {
        Some(Ok(database)) => {
            assert!(database.is_writer());
            assert_eq!(*database.pool(), 7);
        }
        _ => panic!("not open"),
    }
}

#[test]
fn opening_as_a_reader_migrates_nothing() {
    let opening = begin()
        .resume(Outcome::Connected { pool: 7 })
        .resume(Outcome::Acquired)
        .resume(Outcome::Lock { connection: 300, granted: false });
    assert!(opening.pending().is_none());
    match opening.finish() {
        Some(Ok(database)) => assert!(!database.is_writer()),
        _ => panic!("not open"),
    }
}

fn reason(opening: Opening) -> String {
    assert!(opening.pending().is_none());
    match opening.finish() {
        Some(Err(error)) => error.message(),
        _ => panic!("not failed"),
    }
}

#[test]
fn first_failure_ends_the_opening() {
    let down = || Outcome::Failed { reason: "down".to_string() };
    assert_eq!(reason(begin().resume(down())), "down");
    let connected = begin().resume(Outcome::Connected { pool: 1 });
    assert_eq!(reason(connected.resume(down())), "down");
    let acquired = begin().resume(Outcome::Connected { pool: 1 }).resume(Outcome::Acquired);
    assert_eq!(reason(acquired.resume(down())), "down");
}

#[test]
fn failed_migration_fails_the_opening() {
    let mut opening = begin()
        .resume(Outcome::Connected { pool: 7 })
        .resume(Outcome::Acquired)
        .resume(Outcome::Lock { connection: 300, granted: true });
    for reply in [
        Reply::Executed,
        Reply::Answer(false),
        Reply::Failed { reason: "syntax".to_string() },
        Reply::Executed,
    ] {
        opening = opening.resume(Outcome::Migration { reply });
    }
    assert_eq!(reason(opening), "Migration failed: one.sql: syntax");
}

#[test]
fn unfinished_opening_has_no_result() {
    assert!(begin().finish().is_none());
}

/// A lock that one connection at a time can hold.
struct Lock {
    holder: Option<u16>,
}

impl Lock {
    fn open(&mut self, connection: u16) -> Database<u8, u16> {
        let granted = self.holder.is_none();
        if granted {
            self.holder = Some(connection);
        }
        let mut opening = begin()
            .resume(Outcome::Connected { pool: 0 })
            .resume(Outcome::Acquired)
            .resume(Outcome::Lock { connection, granted });
        while let Some(Action::Migrate { statement }) = opening.pending() {
            let reply = match statement.fetch {
                Fetch::One => Reply::Answer(true),
                _ => Reply::Executed,
            };
            opening = opening.resume(Outcome::Migration { reply });
        }
        match opening.finish() {
            Some(Ok(database)) => database,
            _ => panic!("not open"),
        }
    }

    fn close(&mut self, connection: u16) {
        if self.holder == Some(connection) {
            self.holder = None;
        }
    }
}

#[test]
fn at_most_one_live_store_writes() {
    let mut lock = Lock { holder: None };
    let first = lock.open(1);
    let second = lock.open(2);
    assert!(first.is_writer());
    assert!(!second.is_writer());
    // A reader's connection does not free the lock.
    lock.close(2);
    assert!(!lock.open(3).is_writer());
    // The writer's does.
    drop(first);
    lock.close(1);
    assert!(lock.open(4).is_writer());
}

/// The version and success flag of each row that the run adds.
fn rows(broken: Option<&str>) -> Vec<(i64, bool)> {
    let mut migrator = Migrator::new(two());
    let mut rows = vec![];
    while let Some(statement) = migrator.pending() {
        let reply = match statement.fetch {
            Fetch::One => Reply::Answer(false),
            Fetch::ExecuteRaw if broken == Some(statement.sql.as_str()) => {
                Reply::Failed { reason: "broken".to_string() }
            }
            Fetch::ExecuteRaw => Reply::Applied { elapsed_millis: 1 },
            _ => {
                if let Some(Value::Int8(Some(version))) = statement.params.first() {
                    rows.push((*version, statement.sql == APPLIED_RECORD_SQL));
                }
                Reply::Executed
            }
        };
        migrator = migrator.resume(reply);
    }
    rows
}

#[test]
fn only_the_last_row_can_be_a_failure() {
    assert_eq!(rows(None), vec![(1, true), (2, true)]);
    assert_eq!(rows(Some("CREATE B")), vec![(1, true), (2, false)]);
    assert_eq!(rows(Some("hello world")), vec![(1, false)]);
}

#[test]
fn second_run_adds_nothing_beside_later_records() {
    let mut held = vec![];
    assert_eq!(run(two(), &mut held, None).1, Ok(()));
    // The store has gained a record that this program does not list.
    held.push(99);
    let (applied, result) = run(two(), &mut held, None);
    assert!(applied.is_empty());
    assert_eq!(result, Ok(()));
    assert_eq!(held, vec![1, 2, 99]);
}

#[test]
fn failure_comes_after_every_missing_migration_before_it() {
    let listed = || -> Vec<EmbeddedMigration> {
        vec![
            EmbeddedMigration { version: 1, description: "one.sql", sql: "A".to_string() },
            EmbeddedMigration { version: 2, description: "two.sql", sql: "B".to_string() },
            EmbeddedMigration { version: 3, description: "three.sql", sql: "C".to_string() },
            EmbeddedMigration { version: 4, description: "four.sql", sql: "D".to_string() },
            EmbeddedMigration { version: 5, description: "five.sql", sql: "E".to_string() },
        ]
    };
    let mut held = vec![2];
    let (applied, result) = run(listed(), &mut held, Some("D"));
    assert_eq!(applied, vec!["A", "C", "D"]);
    assert_eq!(
        result,
        Err(DatabaseError::MigrationFailed {
            description: "four.sql".to_string(),
            reason: "broken".to_string(),
        })
    );
    // A run that succeeds applies the missing ones, and no others.
    let mut held = vec![2, 4];
    let (applied, result) = run(listed(), &mut held, None);
    assert_eq!(applied, vec!["A", "C", "E"]);
    assert_eq!(result, Ok(()));
}

#[test]
fn open_writer_holds_every_migration() {
    let startup: Startup<u16, u16> = Database::new("url", two());
    let mut opening = startup
        .resume(Outcome::Connected { pool: 0 })
        .resume(Outcome::Acquired)
        .resume(Outcome::Lock { connection: 0, granted: true });
    let mut held: Vec<i64> = vec![7, 1];
    while let Some(action) = opening.pending() {
        let statement = match action {
            Action::Migrate { statement } => statement,
            _ => panic!("not migrating"),
        };
        let version = match statement.params.first() {
            Some(Value::Int8(Some(version))) => Some(*version),
            _ => None,
        };
        let reply = match (statement.fetch, version) {
            (Fetch::One, Some(version)) => Reply::Answer(held.contains(&version)),
            (Fetch::ExecuteRaw, _) => Reply::Applied { elapsed_millis: 3 },
            (_, recorded) => {
                held.extend(recorded);
                Reply::Executed
            }
        };
        opening = opening.resume(Outcome::Migration { reply });
    }
    match opening.finish() {
        Some(Ok(database)) => assert!(database.is_writer()),
        _ => panic!("not open"),
    }
    assert_eq!(held, vec![7, 1, 2]);
}
