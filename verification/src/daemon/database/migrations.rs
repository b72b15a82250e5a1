//! Schema migrations, applied in order and recorded in `_sqlx_migrations`.
use vstd::prelude::*;
use crate::daemon::database::statement::{
    params_view, Fetch, Statement, StatementView, Value, ValueView,
};

verus! {

/// A migration: its text and the name and version it is recorded under.
#[derive(Clone, Debug, PartialEq, Eq)]
pub struct EmbeddedMigration {
    pub version: i64,
    pub description: &'static str,
    pub sql: String,
}

/// What an [`EmbeddedMigration`] says.
#[verifier::ext_equal]
pub struct MigrationView {
    pub version: i64,
    pub description: Seq<char>,
    pub sql: Seq<char>,
}

impl View for EmbeddedMigration {
    type V = MigrationView;

    open spec fn view(&self) -> MigrationView {
        MigrationView {
            version: self.version,
            description: self.description@,
            sql: self.sql@,
        }
    }
}

/// The migrations of a list, in its order.
pub open spec fn migrations_view(migrations: Seq<EmbeddedMigration>) -> Seq<MigrationView> {
    Seq::new(migrations.len(), |i: int| migrations[i]@)
}

/// The tracker's migrations, oldest first.  Each takes its text from the file
/// that its description names.
pub open spec fn tracker_migrations(
    initial_schema: Seq<char>,
    add_parsed_data_columns: Seq<char>,
    add_idle_tracking: Seq<char>,
    add_idle_accumulation: Seq<char>,
    add_app_renames: Seq<char>,
) -> Seq<MigrationView> {
    seq![
        MigrationView {
            version: 20231019000000,
            description: "20231019000000_initial_schema.sql"@,
            sql: initial_schema,
        },
        MigrationView {
            version: 20251020000000,
            description: "20251020000000_add_parsed_data_columns.sql"@,
            sql: add_parsed_data_columns,
        },
        MigrationView {
            version: 20251030000000,
            description: "20251030000000_add_idle_tracking.sql"@,
            sql: add_idle_tracking,
        },
        MigrationView {
            version: 20251103000000,
            description: "20251103000000_add_idle_accumulation.sql"@,
            sql: add_idle_accumulation,
        },
        MigrationView {
            version: 20251128000000,
            description: "20251128000000_add_app_renames.sql"@,
            sql: add_app_renames,
        },
    ]
}

/// The tracker's migrations, given their texts.
pub fn embedded_migrations(
    initial_schema: String,
    add_parsed_data_columns: String,
    add_idle_tracking: String,
    add_idle_accumulation: String,
    add_app_renames: String,
) -> (migrations: Vec<EmbeddedMigration>)
    ensures
        migrations_view(migrations@) == tracker_migrations(
            initial_schema@,
            add_parsed_data_columns@,
            add_idle_tracking@,
            add_idle_accumulation@,
            add_app_renames@,
        ),
{
    let migrations: Vec<EmbeddedMigration> = vec![
        EmbeddedMigration {
            version: 20231019000000,
            description: "20231019000000_initial_schema.sql",
            sql: initial_schema,
        },
        EmbeddedMigration {
            version: 20251020000000,
            description: "20251020000000_add_parsed_data_columns.sql",
            sql: add_parsed_data_columns,
        },
        EmbeddedMigration {
            version: 20251030000000,
            description: "20251030000000_add_idle_tracking.sql",
            sql: add_idle_tracking,
        },
        EmbeddedMigration {
            version: 20251103000000,
            description: "20251103000000_add_idle_accumulation.sql",
            sql: add_idle_accumulation,
        },
        EmbeddedMigration {
            version: 20251128000000,
            description: "20251128000000_add_app_renames.sql",
            sql: add_app_renames,
        },
    ];
    assert(migrations_view(migrations@) =~= tracker_migrations(
        initial_schema@,
        add_parsed_data_columns@,
        add_idle_tracking@,
        add_idle_accumulation@,
        add_app_renames@,
    ));
    migrations
}

/// Creates the table of recorded migrations.
pub const CREATE_TABLE_SQL: &'static str = r#"
            CREATE TABLE IF NOT EXISTS _sqlx_migrations (
                version BIGINT NOT NULL PRIMARY KEY,
                description TEXT NOT NULL,
                installed_on TIMESTAMPTZ NOT NULL DEFAULT now(),
                success BOOLEAN NOT NULL,
                checksum BYTEA NOT NULL,
                execution_time BIGINT NOT NULL
            )
            "#;

/// Asks whether a version is recorded.
pub const EXISTS_SQL: &'static str = "SELECT EXISTS(SELECT 1 FROM _sqlx_migrations WHERE version = $1)";

/// Records a migration that was applied.
pub const APPLIED_RECORD_SQL: &'static str = r#"
                            INSERT INTO _sqlx_migrations (version, description, success, checksum, execution_time)
                            VALUES ($1, $2, true, $3, $4)
                            "#;

/// Records a migration that failed.
pub const FAILED_RECORD_SQL: &'static str = r#"
                            INSERT INTO _sqlx_migrations (version, description, success, checksum, execution_time)
                            VALUES ($1, $2, false, $3, 0)
                            "#;

/// The statement that creates the table of applied migrations.
pub open spec fn create_table_statement() -> StatementView {
    StatementView {
        sql: CREATE_TABLE_SQL@,
        params: seq![],
        fetch: Fetch::Execute,
    }
}

/// The statement that asks whether `version` is recorded.
pub open spec fn exists_statement(version: i64) -> StatementView {
    StatementView {
        sql: EXISTS_SQL@,
        params: seq![ValueView::Int8(Some(version))],
        fetch: Fetch::One,
    }
}

/// The statement that applies a migration.
pub open spec fn apply_statement(migration: MigrationView) -> StatementView {
    StatementView { sql: migration.sql, params: seq![], fetch: Fetch::ExecuteRaw }
}

/// The statement that records that a migration with this checksum was applied.
pub open spec fn applied_record_statement(
    migration: MigrationView,
    checksum: Seq<u8>,
    execution_time: i64,
) -> StatementView {
    StatementView {
        sql: APPLIED_RECORD_SQL@,
        params: seq![
            ValueView::Int8(Some(migration.version)),
            ValueView::Text(Some(migration.description)),
            ValueView::Bytes(checksum),
            ValueView::Int8(Some(execution_time)),
        ],
        fetch: Fetch::Execute,
    }
}

/// The statement that records that a migration with this checksum failed.
pub open spec fn failed_record_statement(
    migration: MigrationView,
    checksum: Seq<u8>,
) -> StatementView {
    StatementView {
        sql: FAILED_RECORD_SQL@,
        params: seq![
            ValueView::Int8(Some(migration.version)),
            ValueView::Text(Some(migration.description)),
            ValueView::Bytes(checksum),
        ],
        fetch: Fetch::Execute,
    }
}

/// `millis` reduced to a 64-bit two's complement number.
pub open spec fn wrapped_millis(millis: u128) -> int {
    let low = millis as int % 0x1_0000_0000_0000_0000;
    if low < 0x8000_0000_0000_0000 {
        low
    } else {
        low - 0x1_0000_0000_0000_0000
    }
}

/// The execution time that is recorded for a migration that took `millis`
/// milliseconds.
pub fn execution_time(millis: u128) -> (recorded: i64)
    ensures
        recorded == wrapped_millis(millis),
{
    let recorded: i64 = #[verifier::truncate]
    (millis as i64);
    assert(({
        let low = millis % 0x1_0000_0000_0000_0000u128;
        (millis as i64) == if low < 0x8000_0000_0000_0000u128 {
            low as int
        } else {
            low - 0x1_0000_0000_0000_0000u128
        }
    })) by (bit_vector);
    recorded
}

pub(crate) fn build_create_table() -> (statement: Statement)
    ensures
        statement@ == create_table_statement(),
{
    let params: Vec<Value> = Vec::new();
    assert(params_view(params@) =~= seq![]);
    Statement {
        sql: CREATE_TABLE_SQL.to_owned(),
        params,
        fetch: Fetch::Execute,
    }
}

pub(crate) fn build_exists(version: i64) -> (statement: Statement)
    ensures
        statement@ == exists_statement(version),
{
    let params: Vec<Value> = vec![Value::Int8(Some(version))];
    assert(params_view(params@) =~= seq![ValueView::Int8(Some(version))]);
    Statement {
        sql: EXISTS_SQL.to_owned(),
        params,
        fetch: Fetch::One,
    }
}

pub(crate) fn build_apply(migration: &EmbeddedMigration) -> (statement: Statement)
    ensures
        statement@ == apply_statement(migration@),
{
    let params: Vec<Value> = Vec::new();
    assert(params_view(params@) =~= seq![]);
    Statement { sql: migration.sql.clone(), params, fetch: Fetch::ExecuteRaw }
}

/// Builds [`applied_record_statement`].
pub fn applied_record(
    migration: &EmbeddedMigration,
    checksum: Vec<u8>,
    execution_time: i64,
) -> (statement: Statement)
    ensures
        statement@ == applied_record_statement(migration@, checksum@, execution_time),
{
    let ghost sum = checksum@;
    let params: Vec<Value> = vec![
        Value::Int8(Some(migration.version)),
        Value::Text(Some(migration.description.to_owned())),
        Value::Bytes(checksum),
        Value::Int8(Some(execution_time)),
    ];
    assert(params_view(params@) =~= applied_record_statement(
        migration@,
        sum,
        execution_time,
    ).params);
    Statement {
        sql: APPLIED_RECORD_SQL.to_owned(),
        params,
        fetch: Fetch::Execute,
    }
}

/// Builds [`failed_record_statement`].
pub fn failed_record(migration: &EmbeddedMigration, checksum: Vec<u8>) -> (statement: Statement)
    ensures
        statement@ == failed_record_statement(migration@, checksum@),
{
    let ghost sum = checksum@;
    let params: Vec<Value> = vec![
        Value::Int8(Some(migration.version)),
        Value::Text(Some(migration.description.to_owned())),
        Value::Bytes(checksum),
    ];
    assert(params_view(params@) =~= failed_record_statement(migration@, sum).params);
    Statement {
        sql: FAILED_RECORD_SQL.to_owned(),
        params,
        fetch: Fetch::Execute,
    }
}

} // verus!
