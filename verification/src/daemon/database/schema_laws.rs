//! What bringing the schema up to date does: what PostgreSQL makes of the
//! migrator's statements, from the first to the last.
use vstd::prelude::*;
use vstd::utf8::encode_utf8;
use crate::daemon::database::checksum::{checksum, sha256_digest};
use crate::daemon::database::connection::Database;
use crate::daemon::database::error::{DatabaseError, DatabaseErrorView};
use crate::daemon::database::migrations::{
    applied_record, applied_record_statement, embedded_migrations, execution_time,
    exists_statement, failed_record, failed_record_statement, migrations_view, wrapped_millis,
    EmbeddedMigration, MigrationView, APPLIED_RECORD_SQL, CREATE_TABLE_SQL, EXISTS_SQL, FAILED_RECORD_SQL,
};
use crate::daemon::database::migrator::{Migrator, PhaseView, Reply};
use crate::daemon::database::sql::{
    agree, asks_whether, insert_columns, insert_count, inserted_columns, is_insert,
    is_placeholder, is_text, is_word_char, lemma_next_spaces, lemma_next_symbol, lemma_next_word,
    number, parameter, row_added, spaces, tokens, wordy, written_value, Row,
};
use crate::daemon::database::statement::{params_view, Fetch, Statement, Value};

verus! {

/// The text that creates the table.
#[verifier::rlimit(80)]
proof fn lemma_create_tokens()
    ensures
        tokens(CREATE_TABLE_SQL@) == seq!["CREATE"@, "TABLE"@, "IF"@, "NOT"@, "EXISTS"@, "_sqlx_migrations"@, "("@, "version"@, "BIGINT"@, "NOT"@, "NULL"@, "PRIMARY"@, "KEY"@, ","@, "description"@, "TEXT"@, "NOT"@, "NULL"@, ","@, "installed_on"@, "TIMESTAMPTZ"@, "NOT"@, "NULL"@, "DEFAULT"@, "now"@, "("@, ")"@, ","@, "success"@, "BOOLEAN"@, "NOT"@, "NULL"@, ","@, "checksum"@, "BYTEA"@, "NOT"@, "NULL"@, ","@, "execution_time"@, "BIGINT"@, "NOT"@, "NULL"@, ")"@],
        CREATE_TABLE_SQL@.len() == 376,
        !is_word_char(CREATE_TABLE_SQL@[0]),
        !is_word_char(CREATE_TABLE_SQL@[375]),
{
    reveal_strlit("\n            CREATE TABLE IF NOT EXISTS _sqlx_migrations (\n                version BIGINT NOT NULL PRIMARY KEY,\n                description TEXT NOT NULL,\n                installed_on TIMESTAMPTZ NOT NULL DEFAULT now(),\n                success BOOLEAN NOT NULL,\n                checksum BYTEA NOT NULL,\n                execution_time BIGINT NOT NULL\n            )\n            ");
    reveal_strlit("CREATE");
    reveal_strlit("TABLE");
    reveal_strlit("IF");
    reveal_strlit("NOT");
    reveal_strlit("EXISTS");
    reveal_strlit("_sqlx_migrations");
    reveal_strlit("(");
    reveal_strlit("version");
    reveal_strlit("BIGINT");
    reveal_strlit("NULL");
    reveal_strlit("PRIMARY");
    reveal_strlit("KEY");
    reveal_strlit(",");
    reveal_strlit("description");
    reveal_strlit("TEXT");
    reveal_strlit("installed_on");
    reveal_strlit("TIMESTAMPTZ");
    reveal_strlit("DEFAULT");
    reveal_strlit("now");
    reveal_strlit(")");
    reveal_strlit("success");
    reveal_strlit("BOOLEAN");
    reveal_strlit("checksum");
    reveal_strlit("BYTEA");
    reveal_strlit("execution_time");
    reveal_with_fuel(agree, 17);
    reveal_with_fuel(wordy, 17);
    reveal_with_fuel(spaces, 18);
    let text = CREATE_TABLE_SQL@;
    lemma_next_word(text, 0, 13, "CREATE"@);
    lemma_next_word(text, 19, 1, "TABLE"@);
    lemma_next_word(text, 25, 1, "IF"@);
    lemma_next_word(text, 28, 1, "NOT"@);
    lemma_next_word(text, 32, 1, "EXISTS"@);
    lemma_next_word(text, 39, 1, "_sqlx_migrations"@);
    lemma_next_symbol(text, 56, 1, "("@);
    lemma_next_word(text, 58, 17, "version"@);
    lemma_next_word(text, 82, 1, "BIGINT"@);
    lemma_next_word(text, 89, 1, "NOT"@);
    lemma_next_word(text, 93, 1, "NULL"@);
    lemma_next_word(text, 98, 1, "PRIMARY"@);
    lemma_next_word(text, 106, 1, "KEY"@);
    lemma_next_symbol(text, 110, 0, ","@);
    lemma_next_word(text, 111, 17, "description"@);
    lemma_next_word(text, 139, 1, "TEXT"@);
    lemma_next_word(text, 144, 1, "NOT"@);
    lemma_next_word(text, 148, 1, "NULL"@);
    lemma_next_symbol(text, 153, 0, ","@);
    lemma_next_word(text, 154, 17, "installed_on"@);
    lemma_next_word(text, 183, 1, "TIMESTAMPTZ"@);
    lemma_next_word(text, 195, 1, "NOT"@);
    lemma_next_word(text, 199, 1, "NULL"@);
    lemma_next_word(text, 204, 1, "DEFAULT"@);
    lemma_next_word(text, 212, 1, "now"@);
    lemma_next_symbol(text, 216, 0, "("@);
    lemma_next_symbol(text, 217, 0, ")"@);
    lemma_next_symbol(text, 218, 0, ","@);
    lemma_next_word(text, 219, 17, "success"@);
    lemma_next_word(text, 243, 1, "BOOLEAN"@);
    lemma_next_word(text, 251, 1, "NOT"@);
    lemma_next_word(text, 255, 1, "NULL"@);
    lemma_next_symbol(text, 260, 0, ","@);
    lemma_next_word(text, 261, 17, "checksum"@);
    lemma_next_word(text, 286, 1, "BYTEA"@);
    lemma_next_word(text, 292, 1, "NOT"@);
    lemma_next_word(text, 296, 1, "NULL"@);
    lemma_next_symbol(text, 301, 0, ","@);
    lemma_next_word(text, 302, 17, "execution_time"@);
    lemma_next_word(text, 333, 1, "BIGINT"@);
    lemma_next_word(text, 340, 1, "NOT"@);
    lemma_next_word(text, 344, 1, "NULL"@);
    lemma_next_symbol(text, 349, 13, ")"@);
    lemma_next_spaces(text, 363, 13);
    assert(tokens(text) =~= seq!["CREATE"@, "TABLE"@, "IF"@, "NOT"@, "EXISTS"@, "_sqlx_migrations"@, "("@, "version"@, "BIGINT"@, "NOT"@, "NULL"@, "PRIMARY"@, "KEY"@, ","@, "description"@, "TEXT"@, "NOT"@, "NULL"@, ","@, "installed_on"@, "TIMESTAMPTZ"@, "NOT"@, "NULL"@, "DEFAULT"@, "now"@, "("@, ")"@, ","@, "success"@, "BOOLEAN"@, "NOT"@, "NULL"@, ","@, "checksum"@, "BYTEA"@, "NOT"@, "NULL"@, ","@, "execution_time"@, "BIGINT"@, "NOT"@, "NULL"@, ")"@]);
}

/// The text that asks for a version.
proof fn lemma_exists_tokens()
    ensures
        tokens(EXISTS_SQL@) == seq!["SELECT"@, "EXISTS"@, "("@, "SELECT"@, "1"@, "FROM"@, "_sqlx_migrations"@, "WHERE"@, "version"@, "="@, "$1"@, ")"@],
        EXISTS_SQL@.len() == 64,
        is_word_char(EXISTS_SQL@[0]),
        !is_word_char(EXISTS_SQL@[63]),
{
    reveal_strlit("SELECT EXISTS(SELECT 1 FROM _sqlx_migrations WHERE version = $1)");
    reveal_strlit("SELECT");
    reveal_strlit("EXISTS");
    reveal_strlit("(");
    reveal_strlit("1");
    reveal_strlit("FROM");
    reveal_strlit("_sqlx_migrations");
    reveal_strlit("WHERE");
    reveal_strlit("version");
    reveal_strlit("=");
    reveal_strlit("$1");
    reveal_strlit(")");
    reveal_with_fuel(agree, 17);
    reveal_with_fuel(wordy, 17);
    reveal_with_fuel(spaces, 2);
    let text = EXISTS_SQL@;
    lemma_next_word(text, 0, 0, "SELECT"@);
    lemma_next_word(text, 6, 1, "EXISTS"@);
    lemma_next_symbol(text, 13, 0, "("@);
    lemma_next_word(text, 14, 0, "SELECT"@);
    lemma_next_word(text, 20, 1, "1"@);
    lemma_next_word(text, 22, 1, "FROM"@);
    lemma_next_word(text, 27, 1, "_sqlx_migrations"@);
    lemma_next_word(text, 44, 1, "WHERE"@);
    lemma_next_word(text, 50, 1, "version"@);
    lemma_next_symbol(text, 58, 1, "="@);
    lemma_next_word(text, 60, 1, "$1"@);
    lemma_next_symbol(text, 63, 0, ")"@);
    lemma_next_spaces(text, 64, 0);
    assert(tokens(text) =~= seq!["SELECT"@, "EXISTS"@, "("@, "SELECT"@, "1"@, "FROM"@, "_sqlx_migrations"@, "WHERE"@, "version"@, "="@, "$1"@, ")"@]);
}

/// The text that records a migration that was applied.
#[verifier::rlimit(60)]
proof fn lemma_applied_tokens()
    ensures
        tokens(APPLIED_RECORD_SQL@) == seq!["INSERT"@, "INTO"@, "_sqlx_migrations"@, "("@, "version"@, ","@, "description"@, ","@, "success"@, ","@, "checksum"@, ","@, "execution_time"@, ")"@, "VALUES"@, "("@, "$1"@, ","@, "$2"@, ","@, "true"@, ","@, "$3"@, ","@, "$4"@, ")"@],
        APPLIED_RECORD_SQL@.len() == 202,
        !is_word_char(APPLIED_RECORD_SQL@[0]),
        !is_word_char(APPLIED_RECORD_SQL@[201]),
{
    reveal_strlit("\n                            INSERT INTO _sqlx_migrations (version, description, success, checksum, execution_time)\n                            VALUES ($1, $2, true, $3, $4)\n                            ");
    reveal_strlit("INSERT");
    reveal_strlit("INTO");
    reveal_strlit("_sqlx_migrations");
    reveal_strlit("(");
    reveal_strlit("version");
    reveal_strlit(",");
    reveal_strlit("description");
    reveal_strlit("success");
    reveal_strlit("checksum");
    reveal_strlit("execution_time");
    reveal_strlit(")");
    reveal_strlit("VALUES");
    reveal_strlit("$1");
    reveal_strlit("$2");
    reveal_strlit("true");
    reveal_strlit("$3");
    reveal_strlit("$4");
    reveal_with_fuel(agree, 17);
    reveal_with_fuel(wordy, 17);
    reveal_with_fuel(spaces, 30);
    let text = APPLIED_RECORD_SQL@;
    lemma_next_word(text, 0, 29, "INSERT"@);
    lemma_next_word(text, 35, 1, "INTO"@);
    lemma_next_word(text, 40, 1, "_sqlx_migrations"@);
    lemma_next_symbol(text, 57, 1, "("@);
    lemma_next_word(text, 59, 0, "version"@);
    lemma_next_symbol(text, 66, 0, ","@);
    lemma_next_word(text, 67, 1, "description"@);
    lemma_next_symbol(text, 79, 0, ","@);
    lemma_next_word(text, 80, 1, "success"@);
    lemma_next_symbol(text, 88, 0, ","@);
    lemma_next_word(text, 89, 1, "checksum"@);
    lemma_next_symbol(text, 98, 0, ","@);
    lemma_next_word(text, 99, 1, "execution_time"@);
    lemma_next_symbol(text, 114, 0, ")"@);
    lemma_next_word(text, 115, 29, "VALUES"@);
    lemma_next_symbol(text, 150, 1, "("@);
    lemma_next_word(text, 152, 0, "$1"@);
    lemma_next_symbol(text, 154, 0, ","@);
    lemma_next_word(text, 155, 1, "$2"@);
    lemma_next_symbol(text, 158, 0, ","@);
    lemma_next_word(text, 159, 1, "true"@);
    lemma_next_symbol(text, 164, 0, ","@);
    lemma_next_word(text, 165, 1, "$3"@);
    lemma_next_symbol(text, 168, 0, ","@);
    lemma_next_word(text, 169, 1, "$4"@);
    lemma_next_symbol(text, 172, 0, ")"@);
    lemma_next_spaces(text, 173, 29);
    assert(tokens(text) =~= seq!["INSERT"@, "INTO"@, "_sqlx_migrations"@, "("@, "version"@, ","@, "description"@, ","@, "success"@, ","@, "checksum"@, ","@, "execution_time"@, ")"@, "VALUES"@, "("@, "$1"@, ","@, "$2"@, ","@, "true"@, ","@, "$3"@, ","@, "$4"@, ")"@]);
}

/// The text that records a migration that failed.
#[verifier::rlimit(60)]
proof fn lemma_failed_tokens()
    ensures
        tokens(FAILED_RECORD_SQL@) == seq!["INSERT"@, "INTO"@, "_sqlx_migrations"@, "("@, "version"@, ","@, "description"@, ","@, "success"@, ","@, "checksum"@, ","@, "execution_time"@, ")"@, "VALUES"@, "("@, "$1"@, ","@, "$2"@, ","@, "false"@, ","@, "$3"@, ","@, "0"@, ")"@],
        FAILED_RECORD_SQL@.len() == 202,
        !is_word_char(FAILED_RECORD_SQL@[0]),
        !is_word_char(FAILED_RECORD_SQL@[201]),
{
    reveal_strlit("\n                            INSERT INTO _sqlx_migrations (version, description, success, checksum, execution_time)\n                            VALUES ($1, $2, false, $3, 0)\n                            ");
    reveal_strlit("INSERT");
    reveal_strlit("INTO");
    reveal_strlit("_sqlx_migrations");
    reveal_strlit("(");
    reveal_strlit("version");
    reveal_strlit(",");
    reveal_strlit("description");
    reveal_strlit("success");
    reveal_strlit("checksum");
    reveal_strlit("execution_time");
    reveal_strlit(")");
    reveal_strlit("VALUES");
    reveal_strlit("$1");
    reveal_strlit("$2");
    reveal_strlit("false");
    reveal_strlit("$3");
    reveal_strlit("0");
    reveal_with_fuel(agree, 17);
    reveal_with_fuel(wordy, 17);
    reveal_with_fuel(spaces, 30);
    let text = FAILED_RECORD_SQL@;
    lemma_next_word(text, 0, 29, "INSERT"@);
    lemma_next_word(text, 35, 1, "INTO"@);
    lemma_next_word(text, 40, 1, "_sqlx_migrations"@);
    lemma_next_symbol(text, 57, 1, "("@);
    lemma_next_word(text, 59, 0, "version"@);
    lemma_next_symbol(text, 66, 0, ","@);
    lemma_next_word(text, 67, 1, "description"@);
    lemma_next_symbol(text, 79, 0, ","@);
    lemma_next_word(text, 80, 1, "success"@);
    lemma_next_symbol(text, 88, 0, ","@);
    lemma_next_word(text, 89, 1, "checksum"@);
    lemma_next_symbol(text, 98, 0, ","@);
    lemma_next_word(text, 99, 1, "execution_time"@);
    lemma_next_symbol(text, 114, 0, ")"@);
    lemma_next_word(text, 115, 29, "VALUES"@);
    lemma_next_symbol(text, 150, 1, "("@);
    lemma_next_word(text, 152, 0, "$1"@);
    lemma_next_symbol(text, 154, 0, ","@);
    lemma_next_word(text, 155, 1, "$2"@);
    lemma_next_symbol(text, 158, 0, ","@);
    lemma_next_word(text, 159, 1, "false"@);
    lemma_next_symbol(text, 165, 0, ","@);
    lemma_next_word(text, 166, 1, "$3"@);
    lemma_next_symbol(text, 169, 0, ","@);
    lemma_next_word(text, 170, 1, "0"@);
    lemma_next_symbol(text, 172, 0, ")"@);
    lemma_next_spaces(text, 173, 29);
    assert(tokens(text) =~= seq!["INSERT"@, "INTO"@, "_sqlx_migrations"@, "("@, "version"@, ","@, "description"@, ","@, "success"@, ","@, "checksum"@, ","@, "execution_time"@, ")"@, "VALUES"@, "("@, "$1"@, ","@, "$2"@, ","@, "false"@, ","@, "$3"@, ","@, "0"@, ")"@]);
}

proof fn lemma_parameter_1(params: Seq<Value>)
    requires
        params.len() >= 1,
    ensures
        is_placeholder("$1"@, params.len()),
        parameter("$1"@, params) == params[0],
        written_value("$1"@, params) == Some(params[0]),
{
    reveal_strlit("$1");
    reveal_with_fuel(number, 2);
    assert("$1"@.skip(1) =~= seq!['1']);
    assert(seq!['1'].drop_last() =~= Seq::empty());
    assert(number("$1"@.skip(1)) == 1);
}

proof fn lemma_parameter_2(params: Seq<Value>)
    requires
        params.len() >= 2,
    ensures
        is_placeholder("$2"@, params.len()),
        parameter("$2"@, params) == params[1],
        written_value("$2"@, params) == Some(params[1]),
{
    reveal_strlit("$2");
    reveal_with_fuel(number, 2);
    assert("$2"@.skip(1) =~= seq!['2']);
    assert(seq!['2'].drop_last() =~= Seq::empty());
    assert(number("$2"@.skip(1)) == 2);
}

proof fn lemma_parameter_3(params: Seq<Value>)
    requires
        params.len() >= 3,
    ensures
        is_placeholder("$3"@, params.len()),
        parameter("$3"@, params) == params[2],
        written_value("$3"@, params) == Some(params[2]),
{
    reveal_strlit("$3");
    reveal_with_fuel(number, 2);
    assert("$3"@.skip(1) =~= seq!['3']);
    assert(seq!['3'].drop_last() =~= Seq::empty());
    assert(number("$3"@.skip(1)) == 3);
}

proof fn lemma_parameter_4(params: Seq<Value>)
    requires
        params.len() >= 4,
    ensures
        is_placeholder("$4"@, params.len()),
        parameter("$4"@, params) == params[3],
        written_value("$4"@, params) == Some(params[3]),
{
    reveal_strlit("$4");
    reveal_with_fuel(number, 2);
    assert("$4"@.skip(1) =~= seq!['4']);
    assert(seq!['4'].drop_last() =~= Seq::empty());
    assert(number("$4"@.skip(1)) == 4);
}

proof fn lemma_constants(params: Seq<Value>)
    ensures
        written_value("true"@, params) == Some(Value::Bool(Some(true))),
        written_value("false"@, params) == Some(Value::Bool(Some(false))),
        written_value("0"@, params) == Some(Value::Int8(Some(0))),
{
    reveal_strlit("true");
    reveal_strlit("false");
    reveal_strlit("0");
    assert("true"@.len() != "false"@.len());
    assert("true"@.len() != "0"@.len());
    assert("false"@.len() != "0"@.len());
}

proof fn lemma_record_columns()
    ensures
        ({
            let names = seq![
                "version"@,
                "description"@,
                "success"@,
                "checksum"@,
                "execution_time"@,
            ];
            names.no_duplicates()
        }),
{
    reveal_strlit("version");
    reveal_strlit("description");
    reveal_strlit("success");
    reveal_strlit("checksum");
    reveal_strlit("execution_time");
    assert("version"@[0] != "success"@[0]);
    assert("version"@.len() == 7 && "success"@.len() == 7);
    assert("description"@.len() == 11 && "checksum"@.len() == 8);
    assert("execution_time"@.len() == 14);
}

/// `row` records a migration with this version, description and text: as applied
/// or as failed, with the SHA-256 digest of the text.
pub open spec fn is_record(
    row: Row,
    version: i64,
    description: Seq<char>,
    text: Seq<char>,
    success: bool,
) -> bool {
    &&& row["version"@] == Value::Int8(Some(version))
    &&& is_text(row["description"@], description)
    &&& row["success"@] == Value::Bool(Some(success))
    &&& row["checksum"@] matches Value::Bytes(sum) && sum@ == sha256_digest(encode_utf8(text))
}

/// What PostgreSQL makes of the record of a migration that was applied.
#[verifier::rlimit(60)]
proof fn lemma_applied_record(
    statement: Statement,
    migration: MigrationView,
    sum: Seq<u8>,
    time: i64,
)
    requires
        statement@ == applied_record_statement(migration, sum, time),
    ensures
        statement.fetch == Fetch::Execute,
        row_added(statement, "_sqlx_migrations"@) is Some,
        ({
            let row = row_added(statement, "_sqlx_migrations"@)->0;
            &&& row["version"@] == Value::Int8(Some(migration.version))
            &&& is_text(row["description"@], migration.description)
            &&& row["success"@] == Value::Bool(Some(true))
            &&& row["checksum"@] matches Value::Bytes(stored) && stored@ == sum
            &&& row["execution_time"@] == Value::Int8(Some(time))
        }),
{
    let found = tokens(statement.sql@);
    let params = statement.params@;
    assert(statement.sql@ == APPLIED_RECORD_SQL@);
    lemma_applied_tokens();
    lemma_record_columns();
    assert(params_view(params) == applied_record_statement(migration, sum, time).params);
    assert(params.len() == params_view(params).len() == 4);
    assert(params_view(params)[0] == params[0]@);
    lemma_parameter_1(params);
    assert(params_view(params)[1] == params[1]@);
    lemma_parameter_2(params);
    assert(params_view(params)[2] == params[2]@);
    lemma_parameter_3(params);
    assert(params_view(params)[3] == params[3]@);
    lemma_parameter_4(params);
    lemma_constants(params);
    assert(found.len() == 26);
    assert(insert_count(found) == 5);
    let names = seq!["version"@, "description"@, "success"@, "checksum"@, "execution_time"@];
    assert(insert_columns(found) =~= names);
    assert(is_insert(found));
    assert(names[0] == "version"@ && names[1] == "description"@ && names[2] == "success"@);
    assert(names[3] == "checksum"@ && names[4] == "execution_time"@);
    reveal_with_fuel(inserted_columns, 6);
}

/// What PostgreSQL makes of the record of a migration that failed.
#[verifier::rlimit(60)]
proof fn lemma_failed_record(
    statement: Statement,
    migration: MigrationView,
    sum: Seq<u8>,
    )
    requires
        statement@ == failed_record_statement(migration, sum),
    ensures
        statement.fetch == Fetch::Execute,
        row_added(statement, "_sqlx_migrations"@) is Some,
        ({
            let row = row_added(statement, "_sqlx_migrations"@)->0;
            &&& row["version"@] == Value::Int8(Some(migration.version))
            &&& is_text(row["description"@], migration.description)
            &&& row["success"@] == Value::Bool(Some(false))
            &&& row["checksum"@] matches Value::Bytes(stored) && stored@ == sum
            &&& row["execution_time"@] == Value::Int8(Some(0))
        }),
{
    let found = tokens(statement.sql@);
    let params = statement.params@;
    assert(statement.sql@ == FAILED_RECORD_SQL@);
    lemma_failed_tokens();
    lemma_record_columns();
    assert(params_view(params) == failed_record_statement(migration, sum).params);
    assert(params.len() == params_view(params).len() == 3);
    assert(params_view(params)[0] == params[0]@);
    lemma_parameter_1(params);
    assert(params_view(params)[1] == params[1]@);
    lemma_parameter_2(params);
    assert(params_view(params)[2] == params[2]@);
    lemma_parameter_3(params);
    lemma_constants(params);
    assert(found.len() == 26);
    assert(insert_count(found) == 5);
    let names = seq!["version"@, "description"@, "success"@, "checksum"@, "execution_time"@];
    assert(insert_columns(found) =~= names);
    assert(is_insert(found));
    assert(names[0] == "version"@ && names[1] == "description"@ && names[2] == "success"@);
    assert(names[3] == "checksum"@ && names[4] == "execution_time"@);
    reveal_with_fuel(inserted_columns, 6);
}

proof fn lemma_question(statement: Statement, version: i64)
    requires
        statement@ == exists_statement(version),
    ensures
        statement.fetch == Fetch::One,
        forall|v: Value| #[trigger]
            asks_whether(statement, "_sqlx_migrations"@, "version"@, v) <==> v == Value::Int8(Some(version)),
{
    let params = statement.params@;
    assert(statement.sql@ == EXISTS_SQL@);
    lemma_exists_tokens();
    assert(params_view(params) == exists_statement(version).params);
    assert(params.len() == params_view(params).len() == 1);
    assert(params_view(params)[0] == params[0]@);
    lemma_parameter_1(params);
}

/// The record of a migration that was applied says what was handed in, as a
/// success.
pub proof fn law_applied_record(
    migration: &EmbeddedMigration,
    sum: Vec<u8>,
    time: i64,
    statement: Statement,
)
    requires
        call_ensures(applied_record, (migration, sum, time), statement),
    ensures
        statement.fetch == Fetch::Execute,
        row_added(statement, "_sqlx_migrations"@) is Some,
        ({
            let row = row_added(statement, "_sqlx_migrations"@)->0;
            &&& row["version"@] == Value::Int8(Some(migration.version))
            &&& is_text(row["description"@], migration.description@)
            &&& row["success"@] == Value::Bool(Some(true))
            &&& row["checksum"@] matches Value::Bytes(stored) && stored@ == sum@
            &&& row["execution_time"@] == Value::Int8(Some(time))
        }),
{
    lemma_applied_record(statement, migration@, sum@, time);
}

/// The record of a migration that failed says what was handed in, as a failure that
/// took no time.
pub proof fn law_failed_record(migration: &EmbeddedMigration, sum: Vec<u8>, statement: Statement)
    requires
        call_ensures(failed_record, (migration, sum), statement),
    ensures
        statement.fetch == Fetch::Execute,
        row_added(statement, "_sqlx_migrations"@) is Some,
        ({
            let row = row_added(statement, "_sqlx_migrations"@)->0;
            &&& row["version"@] == Value::Int8(Some(migration.version))
            &&& is_text(row["description"@], migration.description@)
            &&& row["success"@] == Value::Bool(Some(false))
            &&& row["checksum"@] matches Value::Bytes(stored) && stored@ == sum@
            &&& row["execution_time"@] == Value::Int8(Some(0))
        }),
{
    lemma_failed_record(statement, migration@, sum@);
}

/// The checksum of a text is the SHA-256 digest of its UTF-8 bytes.
pub proof fn law_checksum_is_the_digest(text: &str, sum: Vec<u8>)
    requires
        call_ensures(checksum, (text,), sum),
    ensures
        sum@ == sha256_digest(encode_utf8(text@)),
        sum@.len() == 32,
{
}

/// The time that is recorded is the measured one, up to multiples of the range of
/// 64 bits.
pub proof fn law_recorded_time(millis: u128, recorded: i64)
    requires
        call_ensures(execution_time, (millis,), recorded),
    ensures
        (recorded - millis) % 0x1_0000_0000_0000_0000 == 0,
        millis <= i64::MAX ==> recorded == millis,
{
    lemma_wrapped(millis);
}

/// The tracker's migrations: each text under the version and the name of its file,
/// oldest first.
pub proof fn law_embedded_migrations(
    initial_schema: String,
    add_parsed_data_columns: String,
    add_idle_tracking: String,
    add_idle_accumulation: String,
    add_app_renames: String,
    migrations: Vec<EmbeddedMigration>,
)
    requires
        call_ensures(
            embedded_migrations,
            (
                initial_schema,
                add_parsed_data_columns,
                add_idle_tracking,
                add_idle_accumulation,
                add_app_renames,
            ),
            migrations,
        ),
    ensures
        migrations@.len() == 5,
        migrations@[0].version == 20231019000000,
        migrations@[0].description@ == "20231019000000_initial_schema.sql"@,
        migrations@[0].sql@ == initial_schema@,
        migrations@[1].version == 20251020000000,
        migrations@[1].description@ == "20251020000000_add_parsed_data_columns.sql"@,
        migrations@[1].sql@ == add_parsed_data_columns@,
        migrations@[2].version == 20251030000000,
        migrations@[2].description@ == "20251030000000_add_idle_tracking.sql"@,
        migrations@[2].sql@ == add_idle_tracking@,
        migrations@[3].version == 20251103000000,
        migrations@[3].description@ == "20251103000000_add_idle_accumulation.sql"@,
        migrations@[3].sql@ == add_idle_accumulation@,
        migrations@[4].version == 20251128000000,
        migrations@[4].description@ == "20251128000000_add_app_renames.sql"@,
        migrations@[4].sql@ == add_app_renames@,
{
    let views = migrations_view(migrations@);
    assert(views.len() == 5);
    assert(views[0] == migrations@[0]@);
    assert(views[1] == migrations@[1]@);
    assert(views[2] == migrations@[2]@);
    assert(views[3] == migrations@[3]@);
    assert(views[4] == migrations@[4]@);
}

/// `reply` is of a kind that `statement` can get, going by how it is run.
pub open spec fn suits(statement: Statement, reply: Reply) -> bool {
    match reply {
        Reply::Failed { .. } => true,
        Reply::Answer(_) => statement.fetch == Fetch::One,
        Reply::Applied { .. } => statement.fetch == Fetch::ExecuteRaw,
        Reply::Executed => statement.fetch == Fetch::Execute,
    }
}

/// `reply` reports a failure for this reason.
pub open spec fn failed_with(reply: Reply, reason: Seq<char>) -> bool {
    reply matches Reply::Failed { reason: given } && given@ == reason
}

/// A reply that suits the statement that was sent is taken.
pub proof fn law_suitable_reply_is_taken(migrator: Migrator, statement: Statement, reply: Reply)
    requires
        call_ensures(Migrator::pending, (&migrator,), Some(statement)),
        suits(statement, reply),
    ensures
        call_requires(Migrator::resume, (migrator, reply)),
{
}

/// `before` sends `statement`, gets `reply` and goes on as `after`.
pub open spec fn sends(
    before: Migrator,
    statement: Statement,
    reply: Reply,
    after: Migrator,
) -> bool {
    &&& call_ensures(Migrator::pending, (&before,), Some(statement))
    &&& call_ensures(Migrator::resume, (before, reply), after)
}

/// First of all the table of recorded migrations is created, unless it exists.
pub proof fn law_first_the_table_is_created(
    migrations: Vec<EmbeddedMigration>,
    migrator: Migrator,
    sent: Option<Statement>,
)
    requires
        call_ensures(Migrator::new, (migrations,), migrator),
        call_ensures(Migrator::pending, (&migrator,), sent),
    ensures
        sent is Some,
        sent->0.fetch == Fetch::Execute,
        sent->0.params@.len() == 0,
        tokens(sent->0.sql@) == seq!["CREATE"@, "TABLE"@, "IF"@, "NOT"@, "EXISTS"@, "_sqlx_migrations"@, "("@, "version"@, "BIGINT"@, "NOT"@, "NULL"@, "PRIMARY"@, "KEY"@, ","@, "description"@, "TEXT"@, "NOT"@, "NULL"@, ","@, "installed_on"@, "TIMESTAMPTZ"@, "NOT"@, "NULL"@, "DEFAULT"@, "now"@, "("@, ")"@, ","@, "success"@, "BOOLEAN"@, "NOT"@, "NULL"@, ","@, "checksum"@, "BYTEA"@, "NOT"@, "NULL"@, ","@, "execution_time"@, "BIGINT"@, "NOT"@, "NULL"@, ")"@],
{
    lemma_create_tokens();
    assert(params_view(sent->0.params@).len() == 0);
}

/// The version that a migration is asked for by is the one that it is recorded
/// under, whether it could be applied or not; between the two its text is sent, as
/// it is.
pub proof fn law_asked_for_and_recorded_by_one_version(
    asking: Migrator,
    question: Statement,
    applying: Migrator,
    text: Statement,
    reply: Reply,
    recording: Migrator,
    record: Statement,
)
    requires
        sends(asking, question, Reply::Answer(false), applying),
        question.fetch == Fetch::One,
        sends(applying, text, reply, recording),
        suits(text, reply),
        call_ensures(Migrator::pending, (&recording,), Some(record)),
    ensures
        text.fetch == Fetch::ExecuteRaw,
        text.params@.len() == 0,
        row_added(record, "_sqlx_migrations"@) is Some,
        ({
            let row = row_added(record, "_sqlx_migrations"@)->0;
            &&& row["version"@] matches Value::Int8(Some(_))
            &&& asks_whether(question, "_sqlx_migrations"@, "version"@, row["version"@])
            &&& row["success"@] == Value::Bool(Some(reply is Applied))
            &&& row["checksum"@] matches Value::Bytes(sum) && sum@ == sha256_digest(
                encode_utf8(text.sql@),
            )
            &&& match reply {
                Reply::Applied { elapsed_millis } => row["execution_time"@] matches Value::Int8(
                    Some(time),
                ) && (time - elapsed_millis) % 0x1_0000_0000_0000_0000 == 0,
                _ => row["execution_time"@] == Value::Int8(Some(0)),
            }
        }),
{
    assert(asking@.phase is Checking);
    let at = asking@.phase->Checking_at;
    let migration = asking@.migrations[at];
    lemma_question(question, migration.version);
    assert(applying@.phase == (PhaseView::Applying { at }));
    assert(params_view(text.params@).len() == 0);
    let sum = sha256_digest(encode_utf8(migration.sql));
    match reply {
        Reply::Applied { elapsed_millis } => {
            let time = wrapped_millis(elapsed_millis);
            lemma_applied_record(record, migration, sum, time as i64);
            lemma_wrapped(elapsed_millis);
        },
        _ => {
            lemma_failed_record(record, migration, sum);
        },
    }
}

proof fn lemma_wrapped(millis: u128)
    ensures
        ({
            let time = wrapped_millis(millis);
            &&& i64::MIN <= time <= i64::MAX
            &&& (time - millis) % 0x1_0000_0000_0000_0000 == 0
        }),
{
    let range: int = 0x1_0000_0000_0000_0000;
    let m = millis as int;
    let low = m % range;
    let q = m / range;
    let time = wrapped_millis(millis);
    assert(m == range * q + low) by (nonlinear_arith)
        requires
            range > 0,
            low == m % range,
            q == m / range,
    ;
    if time == low {
        assert(time - m == (-q) * range) by (nonlinear_arith)
            requires
                time == low,
                m == range * q + low,
        ;
        vstd::arithmetic::div_mod::lemma_mod_multiples_basic(-q, range);
    } else {
        assert(time - m == (-q - 1) * range) by (nonlinear_arith)
            requires
                time == low - range,
                m == range * q + low,
        ;
        vstd::arithmetic::div_mod::lemma_mod_multiples_basic(-q - 1, range);
    }
}

/// The table of recorded migrations: its rows by their versions.
pub type Records = Map<i64, Row>;

/// The table after `statement` was sent and got `reply`.
pub open spec fn records_after(records: Records, statement: Statement, reply: Reply) -> Records {
    match (reply, row_added(statement, "_sqlx_migrations"@)) {
        (Reply::Executed, Some(row)) => match row["version"@] {
            Value::Int8(Some(version)) => records.insert(version, row),
            _ => records,
        },
        _ => records,
    }
}

/// `reply` is true of the table: a version that `statement` asks for is answered by
/// whether the table holds it.
pub open spec fn is_true(records: Records, statement: Statement, reply: Reply) -> bool {
    reply matches Reply::Answer(answer) ==> forall|version: i64| #[trigger]
        asks_whether(statement, "_sqlx_migrations"@, "version"@, Value::Int8(Some(version)))
            ==> answer == records.contains_key(version)
}

/// An exchange between a migrator and the store: the migrator before each statement
/// and at the end, what it sent, and what came back.
pub struct Exchange {
    pub migrators: Seq<Migrator>,
    pub statements: Seq<Statement>,
    pub replies: Seq<Reply>,
}

impl Exchange {
    /// The table after the first `n` replies.
    pub open spec fn records(self, records: Records, n: nat) -> Records
        decreases n,
    {
        if n == 0 {
            records
        } else {
            records_after(
                self.records(records, (n - 1) as nat),
                self.statements[n - 1],
                self.replies[n - 1],
            )
        }
    }

    /// The texts of migrations among the first `n` statements.
    pub open spec fn texts(self, n: nat) -> Seq<Seq<char>>
        decreases n,
    {
        if n == 0 {
            Seq::empty()
        } else if self.statements[n - 1].fetch == Fetch::ExecuteRaw {
            self.texts((n - 1) as nat).push(self.statements[n - 1].sql@)
        } else {
            self.texts((n - 1) as nat)
        }
    }

    /// The statement in place `i` was sent, and the reply to it taken, which suited it
    /// and was true of a table that began as `records`.
    pub open spec fn went_on(self, records: Records, i: int) -> bool {
        &&& sends(self.migrators[i], self.statements[i], self.replies[i], self.migrators[i + 1])
        &&& suits(self.statements[i], self.replies[i])
        &&& is_true(self.records(records, i as nat), self.statements[i], self.replies[i])
    }

    /// The migrator was made for `migrations`, sent each statement in turn and took
    /// each reply.
    pub open spec fn took_place(self, migrations: Vec<EmbeddedMigration>, records: Records) -> bool {
        &&& self.migrators.len() == self.statements.len() + 1
        &&& self.replies.len() == self.statements.len()
        &&& call_ensures(Migrator::new, (migrations,), self.migrators[0])
        &&& forall|i: int|
            0 <= i < self.statements.len() ==> #[trigger] self.went_on(records, i)
    }

    /// None of the first `n` statements failed.
    pub open spec fn no_failure(self, n: nat) -> bool {
        forall|i: int| 0 <= i < n ==> !(#[trigger] self.replies[i] is Failed)
    }
}

/// The texts of those of the first `n` migrations whose versions `records` lacks.
pub open spec fn missing_texts(
    migrations: Seq<EmbeddedMigration>,
    records: Records,
    n: nat,
) -> Seq<Seq<char>>
    decreases n,
{
    if n == 0 {
        Seq::empty()
    } else if records.contains_key(migrations[n - 1].version) {
        missing_texts(migrations, records, (n - 1) as nat)
    } else {
        missing_texts(migrations, records, (n - 1) as nat).push(migrations[n - 1].sql@)
    }
}

/// No two of `migrations` share their version.
pub open spec fn have_own_versions(migrations: Seq<EmbeddedMigration>) -> bool {
    forall|i: int, j: int|
        0 <= i < j < migrations.len() ==> (#[trigger] migrations[i]).version != (
        #[trigger] migrations[j]).version
}

/// The first `n` migrations are recorded in `now`: the versions that `records` lacked
/// as successes; what `records` held is there as it was, and there is nothing else.
pub open spec fn first_recorded(
    migrations: Seq<EmbeddedMigration>,
    records: Records,
    now: Records,
    n: nat,
) -> bool {
    &&& forall|i: int|
        0 <= i < n ==> now.contains_key((#[trigger] migrations[i]).version) && (
        !records.contains_key(migrations[i].version) ==> is_record(
            now[migrations[i].version],
            migrations[i].version,
            migrations[i].description@,
            migrations[i].sql@,
            true,
        ))
    &&& forall|version: i64| #[trigger]
        records.contains_key(version) ==> now.contains_key(version) && now[version]
            == records[version]
    &&& forall|version: i64| #[trigger]
        now.contains_key(version) ==> records.contains_key(version) || exists|i: int|
            0 <= i < n && (#[trigger] migrations[i]).version == version
}

/// The last of the first `n` statements was the text of the migration in place `at`,
/// and the first to fail; before it came those of the earlier ones that were missing.
pub open spec fn failed_in_place(
    migrations: Seq<EmbeddedMigration>,
    records: Records,
    exchange: Exchange,
    n: nat,
    at: int,
    reason: Seq<char>,
) -> bool {
    &&& 0 <= at < migrations.len()
    &&& !records.contains_key(migrations[at].version)
    &&& exchange.texts(n) == missing_texts(migrations, records, (at + 1) as nat)
    &&& n > 0
    &&& exchange.statements[n - 1].fetch == Fetch::ExecuteRaw
    &&& exchange.statements[n - 1].sql@ == migrations[at].sql@
    &&& failed_with(exchange.replies[n - 1], reason)
    &&& exchange.no_failure((n - 1) as nat)
}

spec fn exchange_inv(
    migrations: Seq<EmbeddedMigration>,
    records: Records,
    exchange: Exchange,
    n: nat,
) -> bool {
    let now = exchange.records(records, n);
    let sent = exchange.texts(n);
    let migrator = exchange.migrators[n as int]@;
    &&& migrator.migrations == migrations_view(migrations)
    &&& migrator.wf()
    &&& match migrator.phase {
        PhaseView::CreatingTable => {
            &&& sent == missing_texts(migrations, records, 0)
            &&& first_recorded(migrations, records, now, 0)
            &&& exchange.no_failure(n)
        },
        PhaseView::Checking { at } => {
            &&& sent == missing_texts(migrations, records, at as nat)
            &&& first_recorded(migrations, records, now, at as nat)
            &&& exchange.no_failure(n)
        },
        PhaseView::Applying { at } => {
            &&& sent == missing_texts(migrations, records, at as nat)
            &&& first_recorded(migrations, records, now, at as nat)
            &&& !records.contains_key(migrations[at].version)
            &&& exchange.no_failure(n)
        },
        PhaseView::Recording { at, .. } => {
            &&& sent == missing_texts(migrations, records, (at + 1) as nat)
            &&& first_recorded(migrations, records, now, at as nat)
            &&& !records.contains_key(migrations[at].version)
            &&& exchange.no_failure(n)
        },
        PhaseView::RecordingFailure { at, reason } => {
            &&& failed_in_place(migrations, records, exchange, n, at, reason)
            &&& first_recorded(migrations, records, now, at as nat)
            &&& !exchange.no_failure(n)
        },
        PhaseView::Finished { result: Ok(_) } => {
            &&& sent == missing_texts(migrations, records, migrations.len())
            &&& first_recorded(migrations, records, now, migrations.len())
            &&& exchange.no_failure(n)
        },
        PhaseView::Finished { result: Err(error) } => {
            &&& !exchange.no_failure(n)
            &&& n > 0
            &&& match error {
                DatabaseErrorView::MigrationFailed {
                    description,
                    reason,
                } => failure_reported(migrations, records, exchange, n, description, reason),
                DatabaseErrorView::Backend { reason } => {
                    failed_with(exchange.replies[n - 1], reason) && exchange.no_failure(
                        (n - 1) as nat,
                    )
                },
                _ => false,
            }
        },
    }
}

/// After the first `n` replies, of which the last answered the record of the failure
/// of the migration in place `at`: the migrations before it are recorded, and the
/// failure is exactly if that could be done.
pub open spec fn failure_recorded(
    migrations: Seq<EmbeddedMigration>,
    records: Records,
    exchange: Exchange,
    n: nat,
    at: int,
) -> bool {
    let before = exchange.records(records, (n - 1) as nat);
    let now = exchange.records(records, n);
    let version = migrations[at].version;
    &&& n > 0
    &&& first_recorded(migrations, records, before, at as nat)
    &&& match exchange.replies[n - 1] {
        Reply::Executed => {
            &&& now == before.insert(version, now[version])
            &&& is_record(
                now[version],
                version,
                migrations[at].description@,
                migrations[at].sql@,
                false,
            )
        },
        _ => now == before,
    }
}

/// The migration with this description failed for this reason; one more statement was
/// sent after its text, which records that.
pub open spec fn failure_reported(
    migrations: Seq<EmbeddedMigration>,
    records: Records,
    exchange: Exchange,
    n: nat,
    description: Seq<char>,
    reason: Seq<char>,
) -> bool {
    n > 1 && exists|at: int| #[trigger]
        failed_in_place(migrations, records, exchange, (n - 1) as nat, at, reason)
            && migrations[at].description@ == description && failure_recorded(
            migrations,
            records,
            exchange,
            n,
            at,
        )
}

/// What was sent last, and what it led to.
#[verifier::spinoff_prover]
#[verifier::rlimit(30)]
proof fn lemma_sent(
    migrations: Vec<EmbeddedMigration>,
    records: Records,
    exchange: Exchange,
    n: nat,
)
    requires
        0 < n <= exchange.statements.len(),
        exchange.took_place(migrations, records),
    ensures
        exchange.migrators[n as int]@ == exchange.migrators[n - 1]@.next(exchange.replies[n - 1]@),
        exchange.migrators[n - 1]@.pending() == Some(exchange.statements[n - 1]@),
        suits(exchange.statements[n - 1], exchange.replies[n - 1]),
        is_true(
            exchange.records(records, (n - 1) as nat),
            exchange.statements[n - 1],
            exchange.replies[n - 1],
        ),
        exchange.no_failure(n) <==> exchange.no_failure((n - 1) as nat) && !(exchange.replies[n - 1]
            is Failed),
{
    let i = n - 1;
    assert(exchange.went_on(records, i));
    lemma_failures(exchange, n);
}

proof fn lemma_failures(exchange: Exchange, n: nat)
    requires
        n > 0,
    ensures
        exchange.no_failure(n) <==> exchange.no_failure((n - 1) as nat) && !(exchange.replies[n - 1]
            is Failed),
{
    let i = n - 1;
    if !exchange.no_failure(i as nat) {
        let k = choose|k: int| 0 <= k < i && #[trigger] exchange.replies[k] is Failed;
        assert(exchange.replies[k] is Failed);
    }
    if exchange.replies[i] is Failed {
        assert(!exchange.no_failure(n));
    }
}

#[verifier::spinoff_prover]
#[verifier::rlimit(100)]
proof fn lemma_after_creating(
    migrations: Vec<EmbeddedMigration>,
    records: Records,
    exchange: Exchange,
    n: nat,
)
    requires
        n > 0,
        have_own_versions(migrations@),
        exchange_inv(migrations@, records, exchange, (n - 1) as nat),
        exchange.migrators[n as int]@ == exchange.migrators[n - 1]@.next(exchange.replies[n - 1]@),
        exchange.migrators[n - 1]@.pending() == Some(exchange.statements[n - 1]@),
        suits(exchange.statements[n - 1], exchange.replies[n - 1]),
        is_true(
            exchange.records(records, (n - 1) as nat),
            exchange.statements[n - 1],
            exchange.replies[n - 1],
        ),
        exchange.no_failure(n) <==> exchange.no_failure((n - 1) as nat) && !(exchange.replies[n - 1]
            is Failed),
        exchange.migrators[n - 1]@.phase is CreatingTable,
    ensures
        exchange_inv(migrations@, records, exchange, n),
{
    let listed = migrations@;
    let i = n - 1;
    let statement = exchange.statements[i];
    let reply = exchange.replies[i];
    let earlier = exchange.migrators[i]@;
    let before = exchange.records(records, i as nat);
    let now = exchange.records(records, n);
    lemma_create_adds_nothing(statement);
    assert(now == before);
    assert(statement.fetch == Fetch::Execute);
    assert(exchange.texts(n) == exchange.texts(i as nat));
}

#[verifier::spinoff_prover]
#[verifier::rlimit(100)]
proof fn lemma_after_checking(
    migrations: Vec<EmbeddedMigration>,
    records: Records,
    exchange: Exchange,
    n: nat,
)
    requires
        n > 0,
        have_own_versions(migrations@),
        exchange_inv(migrations@, records, exchange, (n - 1) as nat),
        exchange.migrators[n as int]@ == exchange.migrators[n - 1]@.next(exchange.replies[n - 1]@),
        exchange.migrators[n - 1]@.pending() == Some(exchange.statements[n - 1]@),
        suits(exchange.statements[n - 1], exchange.replies[n - 1]),
        is_true(
            exchange.records(records, (n - 1) as nat),
            exchange.statements[n - 1],
            exchange.replies[n - 1],
        ),
        exchange.no_failure(n) <==> exchange.no_failure((n - 1) as nat) && !(exchange.replies[n - 1]
            is Failed),
        exchange.migrators[n - 1]@.phase is Checking,
    ensures
        exchange_inv(migrations@, records, exchange, n),
{
    let listed = migrations@;
    let i = n - 1;
    let statement = exchange.statements[i];
    let reply = exchange.replies[i];
    let earlier = exchange.migrators[i]@;
    let before = exchange.records(records, i as nat);
    let now = exchange.records(records, n);
    let at = earlier.phase->Checking_at;
    let version = listed[at].version;
    assert(migrations_view(listed)[at].version == version);
    lemma_question(statement, version);
    assert(reply !is Executed);
    assert(now == before);
    assert(exchange.texts(n) == exchange.texts(i as nat));
    if let Reply::Answer(answer) = reply {
        assert(asks_whether(statement, "_sqlx_migrations"@, "version"@, Value::Int8(Some(version))));
        assert(answer == before.contains_key(version));
        lemma_recorded_iff_held(listed, records, before, at);
        assert(answer == records.contains_key(version));
    }
}

#[verifier::spinoff_prover]
#[verifier::rlimit(100)]
proof fn lemma_after_applying(
    migrations: Vec<EmbeddedMigration>,
    records: Records,
    exchange: Exchange,
    n: nat,
)
    requires
        n > 0,
        have_own_versions(migrations@),
        exchange_inv(migrations@, records, exchange, (n - 1) as nat),
        exchange.migrators[n as int]@ == exchange.migrators[n - 1]@.next(exchange.replies[n - 1]@),
        exchange.migrators[n - 1]@.pending() == Some(exchange.statements[n - 1]@),
        suits(exchange.statements[n - 1], exchange.replies[n - 1]),
        is_true(
            exchange.records(records, (n - 1) as nat),
            exchange.statements[n - 1],
            exchange.replies[n - 1],
        ),
        exchange.no_failure(n) <==> exchange.no_failure((n - 1) as nat) && !(exchange.replies[n - 1]
            is Failed),
        exchange.migrators[n - 1]@.phase is Applying,
    ensures
        exchange_inv(migrations@, records, exchange, n),
{
    let listed = migrations@;
    let i = n - 1;
    let statement = exchange.statements[i];
    let reply = exchange.replies[i];
    let earlier = exchange.migrators[i]@;
    let before = exchange.records(records, i as nat);
    let now = exchange.records(records, n);
    let at = earlier.phase->Applying_at;
    assert(statement.fetch == Fetch::ExecuteRaw);
    assert(reply !is Executed);
    assert(now == before);
    assert(migrations_view(listed)[at] == listed[at]@);
    assert(statement.sql@ == listed[at].sql@);
    assert(exchange.texts(n) == missing_texts(listed, records, (at + 1) as nat));
    if let Reply::Failed { reason } = reply {
        assert(exchange.statements[i].fetch == Fetch::ExecuteRaw);
        assert(failed_in_place(listed, records, exchange, n, at, reason@));
    }
}

#[verifier::spinoff_prover]
#[verifier::rlimit(100)]
proof fn lemma_after_recording(
    migrations: Vec<EmbeddedMigration>,
    records: Records,
    exchange: Exchange,
    n: nat,
)
    requires
        n > 0,
        have_own_versions(migrations@),
        exchange_inv(migrations@, records, exchange, (n - 1) as nat),
        exchange.migrators[n as int]@ == exchange.migrators[n - 1]@.next(exchange.replies[n - 1]@),
        exchange.migrators[n - 1]@.pending() == Some(exchange.statements[n - 1]@),
        suits(exchange.statements[n - 1], exchange.replies[n - 1]),
        is_true(
            exchange.records(records, (n - 1) as nat),
            exchange.statements[n - 1],
            exchange.replies[n - 1],
        ),
        exchange.no_failure(n) <==> exchange.no_failure((n - 1) as nat) && !(exchange.replies[n - 1]
            is Failed),
        exchange.migrators[n - 1]@.phase is Recording,
    ensures
        exchange_inv(migrations@, records, exchange, n),
{
    let listed = migrations@;
    let i = n - 1;
    let statement = exchange.statements[i];
    let reply = exchange.replies[i];
    let earlier = exchange.migrators[i]@;
    let before = exchange.records(records, i as nat);
    let now = exchange.records(records, n);
    let at = earlier.phase->Recording_at;
    let elapsed_millis = earlier.phase->elapsed_millis;
    let migration = migrations_view(listed)[at];
    assert(migration == listed[at]@);
    lemma_wrapped(elapsed_millis);
    lemma_applied_record(
        statement,
        migration,
        sha256_digest(encode_utf8(migration.sql)),
        wrapped_millis(elapsed_millis) as i64,
    );
    assert(exchange.texts(n) == exchange.texts(i as nat));
    if reply is Executed {
        let row = row_added(statement, "_sqlx_migrations"@)->0;
        assert(now == before.insert(listed[at].version, row));
        lemma_record_added(listed, records, before, at, row);
    } else {
        assert(now == before);
    }
}

#[verifier::spinoff_prover]
#[verifier::rlimit(100)]
proof fn lemma_after_recording_failure(
    migrations: Vec<EmbeddedMigration>,
    records: Records,
    exchange: Exchange,
    n: nat,
)
    requires
        n > 0,
        have_own_versions(migrations@),
        exchange_inv(migrations@, records, exchange, (n - 1) as nat),
        exchange.migrators[n as int]@ == exchange.migrators[n - 1]@.next(exchange.replies[n - 1]@),
        exchange.migrators[n - 1]@.pending() == Some(exchange.statements[n - 1]@),
        suits(exchange.statements[n - 1], exchange.replies[n - 1]),
        is_true(
            exchange.records(records, (n - 1) as nat),
            exchange.statements[n - 1],
            exchange.replies[n - 1],
        ),
        exchange.no_failure(n) <==> exchange.no_failure((n - 1) as nat) && !(exchange.replies[n - 1]
            is Failed),
        exchange.migrators[n - 1]@.phase is RecordingFailure,
    ensures
        exchange_inv(migrations@, records, exchange, n),
{
    let listed = migrations@;
    let i = n - 1;
    let statement = exchange.statements[i];
    let reply = exchange.replies[i];
    let earlier = exchange.migrators[i]@;
    let before = exchange.records(records, i as nat);
    let now = exchange.records(records, n);
    let at = earlier.phase->RecordingFailure_at;
    let reason = earlier.phase->RecordingFailure_reason;
    let migration = migrations_view(listed)[at];
    assert(migration == listed[at]@);
    lemma_failed_record(statement, migration, sha256_digest(encode_utf8(migration.sql)));
    if reply is Executed {
        let row = row_added(statement, "_sqlx_migrations"@)->0;
        assert(now == before.insert(listed[at].version, row));
        assert(now =~= before.insert(listed[at].version, now[listed[at].version]));
    } else {
        assert(now == before);
    }
    assert(failure_recorded(listed, records, exchange, n, at));
    assert(failed_in_place(listed, records, exchange, i as nat, at, reason));
    assert(failure_reported(
        listed,
        records,
        exchange,
        n,
        listed[at].description@,
        reason,
    ));
    assert(exchange.migrators[n as int]@.phase == (PhaseView::Finished {
        result: Err(
            DatabaseErrorView::MigrationFailed { description: listed[at].description@, reason },
        ),
    }));
}

proof fn lemma_exchange(
    migrations: Vec<EmbeddedMigration>,
    records: Records,
    exchange: Exchange,
    n: nat,
)
    requires
        exchange.took_place(migrations, records),
        have_own_versions(migrations@),
        n <= exchange.statements.len(),
    ensures
        exchange_inv(migrations@, records, exchange, n),
    decreases n,
{
    if n > 0 {
        lemma_exchange(migrations, records, exchange, (n - 1) as nat);
        lemma_sent(migrations, records, exchange, n);
        match exchange.migrators[n - 1]@.phase {
            PhaseView::CreatingTable => {
                lemma_after_creating(migrations, records, exchange, n);
            },
            PhaseView::Checking { .. } => {
                lemma_after_checking(migrations, records, exchange, n);
            },
            PhaseView::Applying { .. } => {
                lemma_after_applying(migrations, records, exchange, n);
            },
            PhaseView::Recording { .. } => {
                lemma_after_recording(migrations, records, exchange, n);
            },
            PhaseView::RecordingFailure { .. } => {
                lemma_after_recording_failure(migrations, records, exchange, n);
            },
            PhaseView::Finished { .. } => {},
        }
    }
}

proof fn lemma_create_adds_nothing(statement: Statement)
    requires
        statement.sql@ == CREATE_TABLE_SQL@,
    ensures
        row_added(statement, "_sqlx_migrations"@) is None,
{
    lemma_create_tokens();
    reveal_strlit("CREATE");
    reveal_strlit("INSERT");
    assert("CREATE"@[0] != "INSERT"@[0]);
    assert(tokens(statement.sql@)[0] == "CREATE"@);
}

/// The version of the next migration is recorded exactly if it was at the beginning.
proof fn lemma_recorded_iff_held(
    migrations: Seq<EmbeddedMigration>,
    records: Records,
    now: Records,
    at: int,
)
    requires
        have_own_versions(migrations),
        0 <= at < migrations.len(),
        first_recorded(migrations, records, now, at as nat),
    ensures
        now.contains_key(migrations[at].version) == records.contains_key(migrations[at].version),
        records.contains_key(migrations[at].version) ==> first_recorded(
            migrations,
            records,
            now,
            (at + 1) as nat,
        ),
{
    if now.contains_key(migrations[at].version) && !records.contains_key(migrations[at].version) {
        let i = choose|i: int|
            0 <= i < at && (#[trigger] migrations[i]).version == migrations[at].version;
        assert(migrations[i].version != migrations[at].version);
    }
    assert forall|version: i64| #[trigger] now.contains_key(version) implies records.contains_key(
        version,
    ) || exists|i: int| 0 <= i < at + 1 && (#[trigger] migrations[i]).version == version by {
        if !records.contains_key(version) {
            let i = choose|i: int| 0 <= i < at && (#[trigger] migrations[i]).version == version;
            assert(migrations[i].version == version);
        }
    }
}

/// Recording the next migration as a success.
proof fn lemma_record_added(
    migrations: Seq<EmbeddedMigration>,
    records: Records,
    before: Records,
    at: int,
    row: Row,
)
    requires
        have_own_versions(migrations),
        0 <= at < migrations.len(),
        first_recorded(migrations, records, before, at as nat),
        !records.contains_key(migrations[at].version),
        is_record(
            row,
            migrations[at].version,
            migrations[at].description@,
            migrations[at].sql@,
            true,
        ),
    ensures
        first_recorded(
            migrations,
            records,
            before.insert(migrations[at].version, row),
            (at + 1) as nat,
        ),
{
    let now = before.insert(migrations[at].version, row);
    assert forall|i: int| 0 <= i < at + 1 implies now.contains_key(
        (#[trigger] migrations[i]).version,
    ) && (!records.contains_key(migrations[i].version) ==> is_record(
        now[migrations[i].version],
        migrations[i].version,
        migrations[i].description@,
        migrations[i].sql@,
        true,
    )) by {
        if i < at {
            assert(migrations[i].version != migrations[at].version);
        }
    }
    assert forall|version: i64| #[trigger] now.contains_key(version) implies records.contains_key(
        version,
    ) || exists|i: int| 0 <= i < at + 1 && (#[trigger] migrations[i]).version == version by {
        if version == migrations[at].version {
            assert(migrations[at].version == version);
        } else if !records.contains_key(version) {
            let i = choose|i: int| 0 <= i < at && (#[trigger] migrations[i]).version == version;
            assert(migrations[i].version == version);
        }
    }
}

/// Bringing the schema up to date from beginning to end, whatever the table of
/// recorded migrations holds and whatever fails.  It succeeds exactly if no
/// statement fails.  Then the texts that were sent are those of the migrations whose
/// versions were not recorded, in order and as they are, and each of them is now
/// recorded as a success, beside what was there before and nothing else.
///
/// A migration whose text fails ends the work: the texts that were sent are those of
/// the migrations up to it that were not recorded, those before it are recorded, and
/// it is too, as a failure, if that can be done; it is reported by its name and the
/// reason.  Any other failure ends the work at once and is reported by its reason.
pub proof fn law_schema_is_brought_up_to_date(
    migrations: Vec<EmbeddedMigration>,
    records: Records,
    exchange: Exchange,
    result: Option<Result<(), DatabaseError>>,
)
    requires
        have_own_versions(migrations@),
        exchange.took_place(migrations, records),
        call_ensures(Migrator::pending, (&exchange.migrators.last(),), None),
        call_ensures(Migrator::result, (exchange.migrators.last(),), result),
    ensures
        ({
            let n = exchange.statements.len();
            let now = exchange.records(records, n);
            &&& result is Some
            &&& result->0 is Ok <==> exchange.no_failure(n)
            &&& match result->0 {
                Ok(_) => {
                    &&& exchange.texts(n) == missing_texts(migrations@, records, migrations@.len())
                    &&& first_recorded(migrations@, records, now, migrations@.len())
                },
                Err(DatabaseError::MigrationFailed { description, reason }) => failure_reported(
                    migrations@,
                    records,
                    exchange,
                    n,
                    description@,
                    reason@,
                ),
                Err(DatabaseError::Backend { reason }) => n > 0 && failed_with(
                    exchange.replies[n - 1],
                    reason@,
                ) && exchange.no_failure((n - 1) as nat),
                Err(_) => false,
            }
        }),
{
    let n = exchange.statements.len();
    lemma_exchange(migrations, records, exchange, n);
    assert(exchange.migrators.last() == exchange.migrators[n as int]);
    assert(exchange.migrators[n as int]@.pending() is None);
}

/// A migrator reports nothing while it has a statement to send.
pub proof fn law_no_result_before_the_end(
    migrator: Migrator,
    statement: Statement,
    result: Option<Result<(), DatabaseError>>,
)
    requires
        call_ensures(Migrator::pending, (&migrator,), Some(statement)),
        call_ensures(Migrator::result, (migrator,), result),
    ensures
        result is None,
{
}

/// Opening the store brings the schema up to date with the same migrator.
pub proof fn law_migrations_are_run_by_the_migrator<P, C>(
    migrations: Vec<EmbeddedMigration>,
    run: Migrator,
    made: Migrator,
)
    requires
        call_ensures(
            Database::<P, C>::run_migrations,
            (migrations,),
            run,
        ),
        call_ensures(Migrator::new, (migrations,), made),
    ensures
        run@ == made@,
{
}

} // verus!
