//! Opening the session store.
use vstd::prelude::*;
use crate::daemon::database::connection::{
    build_lock, lock_statement, opened, Database, DatabaseView,
};
use crate::daemon::database::error::{DatabaseError, DatabaseErrorView};
use crate::daemon::database::migrations::{migrations_view, EmbeddedMigration, MigrationView};
use crate::daemon::database::migrator::{
    all_hashable, Migrator, MigratorView, PhaseView, Reply, ReplyView,
};
use crate::daemon::database::statement::{Statement, StatementView};

verus! {

/// What to do next to open the store.
pub enum Action {
    /// Connect a pool to this address.
    Connect { url: String },
    /// Take a connection from the pool, for the writer lock.
    Acquire,
    /// Run this statement on the connection that was taken.
    AskForLock { statement: Statement },
    /// Run this statement on the pool.
    Migrate { statement: Statement },
}

/// What an [`Action`] says.
#[verifier::ext_equal]
pub enum ActionView {
    Connect { url: Seq<char> },
    Acquire,
    AskForLock { statement: StatementView },
    Migrate { statement: StatementView },
}

impl View for Action {
    type V = ActionView;

    open spec fn view(&self) -> ActionView {
        match *self {
            Action::Connect { url } => ActionView::Connect { url: url@ },
            Action::Acquire => ActionView::Acquire,
            Action::AskForLock { statement } => ActionView::AskForLock { statement: statement@ },
            Action::Migrate { statement } => ActionView::Migrate { statement: statement@ },
        }
    }
}

/// What came of an [`Action`].
pub enum Outcome<P, C> {
    /// The pool is connected.
    Connected { pool: P },
    /// A connection was taken from the pool.
    Acquired,
    /// The lock was granted to this connection, or not.
    Lock { connection: C, granted: bool },
    /// A migration statement was answered.
    Migration { reply: Reply },
    /// The action failed.
    Failed { reason: String },
}

/// What an [`Outcome`] says.
#[verifier::ext_equal]
pub enum OutcomeView<P, C> {
    Connected { pool: P },
    Acquired,
    Lock { connection: C, granted: bool },
    Migration { reply: ReplyView },
    Failed { reason: Seq<char> },
}

impl<P, C> View for Outcome<P, C> {
    type V = OutcomeView<P, C>;

    open spec fn view(&self) -> OutcomeView<P, C> {
        match *self {
            Outcome::Connected { pool } => OutcomeView::Connected { pool },
            Outcome::Acquired => OutcomeView::Acquired,
            Outcome::Lock { connection, granted } => OutcomeView::Lock { connection, granted },
            Outcome::Migration { reply } => OutcomeView::Migration { reply: reply@ },
            Outcome::Failed { reason } => OutcomeView::Failed { reason: reason@ },
        }
    }
}

/// How far the opening has come.
#[verifier::ext_equal]
pub enum StartupView<P, C> {
    Connecting { url: Seq<char>, migrations: Seq<MigrationView> },
    Acquiring { pool: P, migrations: Seq<MigrationView> },
    Locking { pool: P, migrations: Seq<MigrationView> },
    Migrating { pool: P, connection: C, migrator: MigratorView },
    Ready { database: DatabaseView<P, C> },
    Failed { error: DatabaseErrorView },
}

impl<P, C> StartupView<P, C> {
    /// The action that waits for its outcome.
    pub open spec fn pending(self) -> Option<ActionView> {
        match self {
            StartupView::Connecting { url, .. } => Some(ActionView::Connect { url }),
            StartupView::Acquiring { .. } => Some(ActionView::Acquire),
            StartupView::Locking { .. } => Some(
                ActionView::AskForLock { statement: lock_statement() },
            ),
            StartupView::Migrating { migrator, .. } => match migrator.pending() {
                Some(statement) => Some(ActionView::Migrate { statement }),
                None => None,
            },
            _ => None,
        }
    }

    /// `outcome` is one that the pending action can have.
    pub open spec fn fits(self, outcome: OutcomeView<P, C>) -> bool {
        match self {
            StartupView::Connecting { .. } => outcome is Connected || outcome is Failed,
            StartupView::Acquiring { .. } => outcome is Acquired || outcome is Failed,
            StartupView::Locking { .. } => outcome is Lock || outcome is Failed,
            StartupView::Migrating { migrator, .. } => outcome is Migration && migrator.fits(
                outcome->Migration_reply,
            ),
            _ => false,
        }
    }

    /// The stage at which `migrator` has come with the writer's store.
    pub open spec fn migrating(pool: P, connection: C, migrator: MigratorView) -> StartupView<P, C> {
        match migrator.phase {
            PhaseView::Finished { result: Ok(_) } => StartupView::Ready {
                database: opened(pool, connection, true),
            },
            PhaseView::Finished { result: Err(error) } => StartupView::Failed { error },
            _ => StartupView::Migrating { pool, connection, migrator },
        }
    }

    /// The stage after `outcome` of the pending action.  Only the process that
    /// was granted the lock migrates; the others are ready at once, to read.
    pub open spec fn next(self, outcome: OutcomeView<P, C>) -> StartupView<P, C> {
        match (self, outcome) {
            (_, OutcomeView::Failed { reason }) => StartupView::Failed {
                error: DatabaseErrorView::Backend { reason },
            },
            (StartupView::Connecting { migrations, .. }, OutcomeView::Connected { pool }) => {
                StartupView::Acquiring { pool, migrations }
            },
            (StartupView::Acquiring { pool, migrations }, _) => {
                StartupView::Locking { pool, migrations }
            },
            (
                StartupView::Locking { pool, migrations },
                OutcomeView::Lock { connection, granted },
            ) => {
                if granted {
                    StartupView::Migrating {
                        pool,
                        connection,
                        migrator: MigratorView::start(migrations),
                    }
                } else {
                    StartupView::Ready { database: opened(pool, connection, false) }
                }
            },
            (
                StartupView::Migrating { pool, connection, migrator },
                OutcomeView::Migration { reply },
            ) => Self::migrating(pool, connection, migrator.next(reply)),
            (stage, _) => stage,
        }
    }
}

enum Stage<P, C> {
    Connecting { url: String, migrations: Vec<EmbeddedMigration> },
    Acquiring { pool: P, migrations: Vec<EmbeddedMigration> },
    Locking { pool: P, migrations: Vec<EmbeddedMigration> },
    Migrating { pool: P, connection: C, migrator: Migrator },
    Ready { database: Database<P, C> },
    Failed { error: DatabaseError },
}

/// Opens the store, step by step.
pub struct Startup<P, C> {
    stage: Stage<P, C>,
}

impl<P, C> View for Startup<P, C> {
    type V = StartupView<P, C>;

    closed spec fn view(&self) -> StartupView<P, C> {
        match self.stage {
            Stage::Connecting { url, migrations } => StartupView::Connecting {
                url: url@,
                migrations: migrations_view(migrations@),
            },
            Stage::Acquiring { pool, migrations } => StartupView::Acquiring {
                pool,
                migrations: migrations_view(migrations@),
            },
            Stage::Locking { pool, migrations } => StartupView::Locking {
                pool,
                migrations: migrations_view(migrations@),
            },
            Stage::Migrating { pool, connection, migrator } => StartupView::Migrating {
                pool,
                connection,
                migrator: migrator@,
            },
            Stage::Ready { database } => StartupView::Ready { database: database@ },
            Stage::Failed { error } => StartupView::Failed { error: error@ },
        }
    }
}

impl<P, C> Startup<P, C> {
    #[verifier::type_invariant]
    spec fn inv(self) -> bool {
        match self@ {
            StartupView::Connecting { migrations, .. } => all_hashable(migrations),
            StartupView::Acquiring { migrations, .. } => all_hashable(migrations),
            StartupView::Locking { migrations, .. } => all_hashable(migrations),
            _ => true,
        }
    }

    /// Begins to open the store at `database_url`.
    pub(crate) fn start(database_url: &str, migrations: Vec<EmbeddedMigration>) -> (startup: Self)
        requires
            all_hashable(migrations_view(migrations@)),
        ensures
            startup@ == (StartupView::<P, C>::Connecting {
                url: database_url@,
                migrations: migrations_view(migrations@),
            }),
    {
        Startup { stage: Stage::Connecting { url: database_url.to_owned(), migrations } }
    }

    /// The action to take next; none once the store is open or has failed to
    /// open.
    pub fn pending(&self) -> (action: Option<Action>)
        ensures
            action is Some <==> self@.pending() is Some,
            action matches Some(taken) ==> Some(taken@) == self@.pending(),
    {
        match &self.stage {
            Stage::Connecting { url, .. } => Some(Action::Connect { url: url.clone() }),
            Stage::Acquiring { .. } => Some(Action::Acquire),
            Stage::Locking { .. } => Some(Action::AskForLock { statement: build_lock() }),
            Stage::Migrating { migrator, .. } => match migrator.pending() {
                Some(statement) => Some(Action::Migrate { statement }),
                None => None,
            },
            _ => None,
        }
    }

    /// The connected pool, between connecting and the end.
    pub fn pool(&self) -> (pool: Option<&P>)
        ensures
            match self@ {
                StartupView::Acquiring { pool: connected, .. } => pool == Some(&connected),
                StartupView::Locking { pool: connected, .. } => pool == Some(&connected),
                StartupView::Migrating { pool: connected, .. } => pool == Some(&connected),
                _ => pool is None,
            },
    {
        match &self.stage {
            Stage::Acquiring { pool, .. } => Some(pool),
            Stage::Locking { pool, .. } => Some(pool),
            Stage::Migrating { pool, .. } => Some(pool),
            _ => None,
        }
    }

    /// Takes the outcome of the pending action.
    pub fn resume(self, outcome: Outcome<P, C>) -> (startup: Self)
        requires
            self@.fits(outcome@),
        ensures
            startup@ == self@.next(outcome@),
    {
        proof {
            use_type_invariant(&self);
        }
        let stage = match (self.stage, outcome) {
            (_, Outcome::Failed { reason }) => Stage::Failed {
                error: DatabaseError::Backend { reason },
            },
            (Stage::Connecting { migrations, .. }, Outcome::Connected { pool }) => {
                Stage::Acquiring { pool, migrations }
            },
            (Stage::Acquiring { pool, migrations }, _) => Stage::Locking { pool, migrations },
            (Stage::Locking { pool, migrations }, Outcome::Lock { connection, granted }) => {
                if granted {
                    Stage::Migrating {
                        pool,
                        connection,
                        migrator: Database::<P, C>::run_migrations(migrations),
                    }
                } else {
                    Stage::Ready { database: Database::open(pool, connection, false) }
                }
            },
            (Stage::Migrating { pool, connection, migrator }, Outcome::Migration { reply }) => {
                let migrator = migrator.resume(reply);
                if migrator.pending().is_some() {
                    Stage::Migrating { pool, connection, migrator }
                } else {
                    match migrator.result() {
                        Some(Err(error)) => Stage::Failed { error },
                        _ => Stage::Ready { database: Database::open(pool, connection, true) },
                    }
                }
            },
            (stage, _) => stage,
        };
        Startup { stage }
    }

    /// The open store or the error; none while an action is pending.
    pub fn finish(self) -> (result: Option<Result<Database<P, C>, DatabaseError>>)
        ensures
            match self@ {
                StartupView::Ready { database } => result is Some && result->0 is Ok
                    && result->0->Ok_0@ == database,
                StartupView::Failed { error } => result is Some && result->0 is Err
                    && result->0->Err_0@ == error,
                _ => result is None,
            },
    {
        match self.stage {
            Stage::Ready { database } => Some(Ok(database)),
            Stage::Failed { error } => Some(Err(error)),
            _ => None,
        }
    }
}

} // verus!
