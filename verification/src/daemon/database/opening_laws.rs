//! What opening the store does, step by step, and what it reports.
use vstd::prelude::*;
use crate::daemon::database::connection::Database;
use crate::daemon::database::error::DatabaseError;
use crate::daemon::database::migrations::EmbeddedMigration;
use crate::daemon::database::migrator::{Migrator, Reply};
use crate::daemon::database::session_laws::lemma_same_statement;
use crate::daemon::database::sql::{
    agree, is_word_char, lemma_next_spaces, lemma_next_symbol, lemma_next_word, same_statement,
    spaces, tokens, wordy,
};
use crate::daemon::database::startup::{Action, Outcome, Startup, StartupView};
use crate::daemon::database::statement::{params_view, Fetch, Statement, Value};

verus! {

/// The text that asks for the writer lock.
proof fn lemma_lock_tokens()
    ensures
        tokens("SELECT pg_try_advisory_lock($1)"@) == seq!["SELECT"@, "pg_try_advisory_lock"@, "("@, "$1"@, ")"@],
        "SELECT pg_try_advisory_lock($1)"@.len() == 31,
        is_word_char("SELECT pg_try_advisory_lock($1)"@[0]),
        !is_word_char("SELECT pg_try_advisory_lock($1)"@[30]),
{
    reveal_strlit("SELECT pg_try_advisory_lock($1)");
    reveal_strlit("SELECT");
    reveal_strlit("pg_try_advisory_lock");
    reveal_strlit("(");
    reveal_strlit("$1");
    reveal_strlit(")");
    reveal_with_fuel(agree, 21);
    reveal_with_fuel(wordy, 21);
    reveal_with_fuel(spaces, 2);
    let text = "SELECT pg_try_advisory_lock($1)"@;
    lemma_next_word(text, 0, 0, "SELECT"@);
    lemma_next_word(text, 6, 1, "pg_try_advisory_lock"@);
    lemma_next_symbol(text, 27, 0, "("@);
    lemma_next_word(text, 28, 0, "$1"@);
    lemma_next_symbol(text, 30, 0, ")"@);
    lemma_next_spaces(text, 31, 0);
    assert(tokens(text) =~= seq!["SELECT"@, "pg_try_advisory_lock"@, "("@, "$1"@, ")"@]);
}

/// What a [`DatabaseError`] says to the user.
pub proof fn law_error_messages(error: &DatabaseError, message: String)
    requires
        call_ensures(DatabaseError::message, (error,), message),
    ensures
        match *error {
            DatabaseError::ReadOnly => message@
                == "database is read-only; another process owns recording"@,
            DatabaseError::MissingId => message@ == "cannot update a session without an id"@,
            DatabaseError::MigrationFailed { description, reason } => message@
                == "Migration failed: "@ + description@ + ": "@ + reason@,
            DatabaseError::Backend { reason } => message@ == reason@,
        },
{
}

/// `a` and `b` are the same error.
pub open spec fn same_error(a: DatabaseError, b: DatabaseError) -> bool {
    match (a, b) {
        (DatabaseError::ReadOnly, DatabaseError::ReadOnly) => true,
        (DatabaseError::MissingId, DatabaseError::MissingId) => true,
        (
            DatabaseError::MigrationFailed { description: d, reason: r },
            DatabaseError::MigrationFailed { description: e, reason: s },
        ) => d@ == e@ && r@ == s@,
        (DatabaseError::Backend { reason: r }, DatabaseError::Backend { reason: s }) => r@ == s@,
        _ => false,
    }
}

/// `startup` waits for this action.
pub open spec fn waits_for<P, C>(startup: Startup<P, C>, action: Action) -> bool {
    call_ensures(Startup::<P, C>::pending, (&startup,), Some(action))
}

/// `before` takes `outcome` and goes on as `after`.
pub open spec fn takes<P, C>(
    before: Startup<P, C>,
    outcome: Outcome<P, C>,
    after: Startup<P, C>,
) -> bool {
    call_ensures(Startup::<P, C>::resume, (before, outcome), after)
}

/// Opening begins by connecting to the address that was given.
pub proof fn law_opening_connects<P, C>(
    database_url: &str,
    migrations: Vec<EmbeddedMigration>,
    startup: Startup<P, C>,
    action: Option<Action>,
    pool: P,
)
    requires
        call_ensures(Database::<P, C>::new, (database_url, migrations), startup),
        call_ensures(Startup::<P, C>::pending, (&startup,), action),
    ensures
        action matches Some(Action::Connect { url }) && url@ == database_url@,
        call_requires(
            Startup::<P, C>::resume,
            (startup, Outcome::<P, C>::Connected { pool }),
        ),
{
}

/// The way from the connected pool to the question for the lock: a connection is
/// taken, and on it the lock is asked for that every process asks for.
pub proof fn law_opening_asks_for_the_lock<P, C>(
    database_url: &str,
    migrations: Vec<EmbeddedMigration>,
    begun: Startup<P, C>,
    pool: P,
    connected: Startup<P, C>,
    first: Option<Action>,
    acquired: Startup<P, C>,
    second: Option<Action>,
    pool_then: Option<&P>,
    pool_later: Option<&P>,
)
    requires
        call_ensures(Database::<P, C>::new, (database_url, migrations), begun),
        takes(begun, Outcome::Connected { pool }, connected),
        call_ensures(Startup::<P, C>::pending, (&connected,), first),
        takes(connected, Outcome::Acquired, acquired),
        call_ensures(Startup::<P, C>::pending, (&acquired,), second),
        call_ensures(Startup::<P, C>::pool, (&connected,), pool_then),
        call_ensures(Startup::<P, C>::pool, (&acquired,), pool_later),
    ensures
        first == Some(Action::Acquire),
        call_requires(Startup::<P, C>::resume, (connected, Outcome::<P, C>::Acquired)),
        pool_then == Some(&pool),
        pool_later == Some(&pool),
        second is Some,
        second->0 is AskForLock,
        ({
            let statement = second->0->AskForLock_statement;
            &&& statement.fetch == Fetch::One
            &&& tokens(statement.sql@) == seq![
                "SELECT"@,
                "pg_try_advisory_lock"@,
                "("@,
                "$1"@,
                ")"@,
            ]
            &&& statement.params@.len() == 1
            &&& statement.params@[0] == Value::Int8(Some(0x48_55_53_54_4C_45_54_52))
        }),
{
    lemma_lock_tokens();
    let statement = second->0->AskForLock_statement;
    assert(statement.params@.len() == params_view(statement.params@).len());
    assert(params_view(statement.params@)[0] == statement.params@[0]@);
}

/// Whoever is refused the lock has an open store at once, to read: nothing is left
/// to do, and no migration is sent.
pub proof fn law_refused_process_reads<P, C>(
    database_url: &str,
    migrations: Vec<EmbeddedMigration>,
    begun: Startup<P, C>,
    pool: P,
    connected: Startup<P, C>,
    acquired: Startup<P, C>,
    connection: C,
    asked: Startup<P, C>,
    action: Option<Action>,
    result: Option<Result<Database<P, C>, DatabaseError>>,
    is_writer: bool,
    open_pool: &P,
)
    requires
        call_ensures(Database::<P, C>::new, (database_url, migrations), begun),
        takes(begun, Outcome::Connected { pool }, connected),
        takes(connected, Outcome::Acquired, acquired),
        takes(acquired, Outcome::Lock { connection, granted: false }, asked),
        call_ensures(Startup::<P, C>::pending, (&asked,), action),
        call_ensures(Startup::<P, C>::finish, (asked,), result),
        result matches Some(Ok(database)) ==> call_ensures(
            Database::<P, C>::is_writer,
            (&database,),
            is_writer,
        ) && call_ensures(Database::<P, C>::pool, (&database,), open_pool),
    ensures
        call_requires(
            Startup::<P, C>::resume,
            (acquired, Outcome::<P, C>::Lock { connection, granted: false }),
        ),
        action is None,
        result is Some,
        result->0 is Ok,
        !is_writer,
        *open_pool == pool,
        result->0->Ok_0@.writer_lock is None,
{
}

/// Whoever is granted the lock brings the schema up to date before the store opens:
/// the statements are those that a migrator of the same list sends, and so is the
/// result.  The store that is open then writes, and keeps the connection that holds
/// the lock.
pub proof fn law_granted_process_migrates_and_writes<P, C>(
    database_url: &str,
    migrations: Vec<EmbeddedMigration>,
    begun: Startup<P, C>,
    pool: P,
    connected: Startup<P, C>,
    acquired: Startup<P, C>,
    connection: C,
    startups: Seq<Startup<P, C>>,
    migrators: Seq<Migrator>,
    replies: Seq<Reply>,
    statement: Option<Statement>,
    report: Option<Result<(), DatabaseError>>,
    action: Option<Action>,
    result: Option<Result<Database<P, C>, DatabaseError>>,
    is_writer: bool,
    open_pool: &P,
)
    requires
        call_ensures(Database::<P, C>::new, (database_url, migrations), begun),
        takes(begun, Outcome::Connected { pool }, connected),
        takes(connected, Outcome::Acquired, acquired),
        takes(acquired, Outcome::Lock { connection, granted: true }, startups[0]),
        call_ensures(Migrator::new, (migrations,), migrators[0]),
        startups.len() == migrators.len() == replies.len() + 1,
        forall|i: int|
            0 <= i < replies.len() ==> keeps_step(
                startups[i],
                migrators[i],
                #[trigger] replies[i],
                startups[i + 1],
                migrators[i + 1],
            ),
        call_ensures(Migrator::pending, (&migrators.last(),), statement),
        call_ensures(Migrator::result, (migrators.last(),), report),
        call_ensures(Startup::<P, C>::pending, (&startups.last(),), action),
        call_ensures(Startup::<P, C>::finish, (startups.last(),), result),
        result matches Some(Ok(database)) ==> call_ensures(
            Database::<P, C>::is_writer,
            (&database,),
            is_writer,
        ) && call_ensures(Database::<P, C>::pool, (&database,), open_pool),
    ensures
        match statement {
            Some(sent) => {
                &&& action is Some
                &&& action->0 is Migrate
                &&& same_statement(action->0->Migrate_statement, sent)
                &&& result is None
            },
            None => {
                &&& action is None
                &&& result is Some
                &&& report is Some
                &&& match result->0 {
                    Ok(database) => {
                        &&& report->0 is Ok
                        &&& is_writer
                        &&& *open_pool == pool
                        &&& database@.writer_lock == Some(connection)
                    },
                    Err(error) => report->0 matches Err(reported) && same_error(error, reported),
                }
            },
        },
{
    lemma_in_step(startups, migrators, replies, pool, connection, replies.len());
    let last = replies.len() as int;
    assert(startups.last() == startups[last]);
    assert(migrators.last() == migrators[last]);
    if let Some(sent) = statement {
        lemma_same_statement(action->0->Migrate_statement, sent);
    }
}

/// A startup and a migrator that both take `reply`, while the migrator waits for it.
pub open spec fn keeps_step<P, C>(
    startup: Startup<P, C>,
    migrator: Migrator,
    reply: Reply,
    next_startup: Startup<P, C>,
    next_migrator: Migrator,
) -> bool {
    &&& exists|statement: Statement| #[trigger]
        call_ensures(Migrator::pending, (&migrator,), Some(statement))
    &&& call_ensures(Migrator::resume, (migrator, reply), next_migrator)
    &&& takes(startup, Outcome::Migration { reply }, next_startup)
}

proof fn lemma_in_step<P, C>(
    startups: Seq<Startup<P, C>>,
    migrators: Seq<Migrator>,
    replies: Seq<Reply>,
    pool: P,
    connection: C,
    n: nat,
)
    requires
        n <= replies.len(),
        startups.len() == migrators.len() == replies.len() + 1,
        startups[0]@ == StartupView::migrating(pool, connection, migrators[0]@),
        forall|i: int|
            0 <= i < replies.len() ==> keeps_step(
                startups[i],
                migrators[i],
                #[trigger] replies[i],
                startups[i + 1],
                migrators[i + 1],
            ),
    ensures
        startups[n as int]@ == StartupView::migrating(pool, connection, migrators[n as int]@),
    decreases n,
{
    if n > 0 {
        lemma_in_step(startups, migrators, replies, pool, connection, (n - 1) as nat);
        let reply = replies[n - 1];
        assert(keeps_step(
            startups[n - 1],
            migrators[n - 1],
            reply,
            startups[n as int],
            migrators[n as int],
        ));
        assert(migrators[n - 1]@.pending() is Some);
    }
}

/// A step that fails ends the opening, with its reason.
pub proof fn law_failed_step_is_reported<P, C>(
    startup: Startup<P, C>,
    reason: String,
    after: Startup<P, C>,
    action: Option<Action>,
    result: Option<Result<Database<P, C>, DatabaseError>>,
)
    requires
        takes(startup, Outcome::Failed { reason }, after),
        call_ensures(Startup::<P, C>::pending, (&after,), action),
        call_ensures(Startup::<P, C>::finish, (after,), result),
    ensures
        action is None,
        result is Some,
        result->0 matches Err(DatabaseError::Backend { reason: reported }) && reported@ == reason@,
{
}

/// Nothing is reported while there is something to do, and there is nothing to do
/// once something is reported.
pub proof fn law_opening_acts_or_reports<P, C>(
    startup: Startup<P, C>,
    action: Option<Action>,
    result: Option<Result<Database<P, C>, DatabaseError>>,
)
    requires
        call_ensures(Startup::<P, C>::pending, (&startup,), action),
        call_ensures(Startup::<P, C>::finish, (startup,), result),
    ensures
        action is Some ==> result is None,
        result is Some ==> action is None,
{
}

} // verus!
