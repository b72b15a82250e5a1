//! What holds of every way of opening the session store.
use vstd::prelude::*;
use crate::daemon::database::connection::{opened, DatabaseView};
use crate::daemon::database::error::DatabaseErrorView;
use crate::daemon::database::migration_laws::{
    law_migrator_finishes, law_second_run_changes_nothing,
    law_success_adds_the_applied_as_successes, law_success_records_every_migration, records,
    statements_left, Record, Run,
};
use crate::daemon::database::migrations::MigrationView;
use crate::daemon::database::migrator::{MigratorView, PhaseView};
use crate::daemon::database::startup::{OutcomeView, StartupView};

verus! {

/// An attempt to open the store: its address, the migrations, and the outcomes
/// of the actions so far.
pub struct Opening<P, C> {
    pub url: Seq<char>,
    pub migrations: Seq<MigrationView>,
    pub outcomes: Seq<OutcomeView<P, C>>,
}

impl<P, C> Opening<P, C> {
    /// The attempt without its last outcome.
    pub open spec fn before_last(self) -> Opening<P, C> {
        Opening { outcomes: self.outcomes.drop_last(), ..self }
    }

    /// How far the attempt has come.
    pub open spec fn reached(self) -> StartupView<P, C>
        decreases self.outcomes.len(),
    {
        if self.outcomes.len() == 0 {
            StartupView::Connecting { url: self.url, migrations: self.migrations }
        } else {
            self.before_last().reached().next(self.outcomes.last())
        }
    }

    /// Every outcome is one that its action can have.
    pub open spec fn fitting(self) -> bool
        decreases self.outcomes.len(),
    {
        self.outcomes.len() == 0 || {
            &&& self.before_last().fitting()
            &&& self.before_last().reached().fits(self.outcomes.last())
        }
    }

    /// The run of the migrator from the fourth outcome on, on a store that held
    /// these versions.
    pub open spec fn migration_run(self, held: Set<i64>) -> Run {
        Run {
            migrations: self.migrations,
            held,
            replies: Seq::new(
                (self.outcomes.len() - 3) as nat,
                |i: int| self.outcomes[i + 3]->Migration_reply,
            ),
        }
    }

    /// The first two steps succeeded with this pool, and the lock was asked for
    /// on this connection, with this answer.
    pub open spec fn asked_for_lock(self, pool: P, connection: C, granted: bool) -> bool {
        &&& self.outcomes.len() >= 3
        &&& self.outcomes[0] == (OutcomeView::<P, C>::Connected { pool })
        &&& self.outcomes[1] == OutcomeView::<P, C>::Acquired
        &&& self.outcomes[2] == (OutcomeView::<P, C>::Lock { connection, granted })
    }

    spec fn inv(self) -> bool {
        match self.reached() {
            StartupView::Connecting { url, migrations } => {
                &&& self.outcomes.len() == 0
                &&& migrations == self.migrations
            },
            StartupView::Acquiring { pool, migrations } => {
                &&& self.outcomes.len() == 1
                &&& self.outcomes[0] == (OutcomeView::<P, C>::Connected { pool })
                &&& migrations == self.migrations
            },
            StartupView::Locking { pool, migrations } => {
                &&& self.outcomes.len() == 2
                &&& self.outcomes[0] == (OutcomeView::<P, C>::Connected { pool })
                &&& self.outcomes[1] == OutcomeView::<P, C>::Acquired
                &&& migrations == self.migrations
            },
            StartupView::Migrating { pool, connection, migrator } => {
                &&& self.asked_for_lock(pool, connection, true)
                &&& migrator == self.migration_run(Set::empty()).reached()
                &&& !(migrator.phase is Finished)
            },
            StartupView::Ready { database } => {
                &&& database.is_writer ==> database.writer_lock is Some && self.asked_for_lock(
                    database.pool,
                    database.writer_lock->0,
                    true,
                ) && self.migration_run(Set::empty()).reached().phase == (PhaseView::Finished {
                    result: Ok(()),
                })
                &&& !database.is_writer ==> database.writer_lock is None && self.outcomes.len() == 3
                    && self.asked_for_lock(
                    database.pool,
                    self.outcomes[2]->Lock_connection,
                    false,
                )
            },
            StartupView::Failed { .. } => true,
        }
    }

    proof fn lemma_inv(self)
        requires
            self.fitting(),
        ensures
            self.inv(),
        decreases self.outcomes.len(),
    {
        if self.outcomes.len() > 0 {
            let earlier = self.before_last();
            earlier.lemma_inv();
            match earlier.reached() {
                StartupView::Migrating { pool, connection, migrator } => {
                    let run = self.migration_run(Set::empty());
                    assert(run.replies.drop_last() =~= earlier.migration_run(Set::empty()).replies);
                    assert(run.before_last() == earlier.migration_run(Set::empty()));
                    assert(run.replies.last() == self.outcomes.last()->Migration_reply);
                    assert(run.reached() == migrator.next(run.replies.last()));
                },
                StartupView::Locking { pool, migrations } => {
                    assert(self.migration_run(Set::empty()).replies.len() == 0);
                },
                _ => {},
            }
        }
    }
}

/// An open store came from a pool that connected and a connection on which the
/// lock was asked for.  The process is the writer exactly if the lock was
/// granted; it then keeps that connection, and every migration has succeeded.
/// Otherwise it keeps no connection, and nothing was sent after the question.
pub proof fn law_open_store<P, C>(opening: Opening<P, C>, database: DatabaseView<P, C>)
    requires
        opening.fitting(),
        opening.reached() == (StartupView::<P, C>::Ready { database }),
    ensures
        ({
            let connection = opening.outcomes[2]->Lock_connection;
            &&& opening.asked_for_lock(database.pool, connection, database.is_writer)
            &&& database == opened(database.pool, connection, database.is_writer)
            &&& if database.is_writer {
                forall|held: Set<i64>| (#[trigger] opening.migration_run(held)).reached().phase == (
                PhaseView::Finished { result: Ok(()) })
            } else {
                opening.outcomes.len() == 3
            }
        }),
{
    opening.lemma_inv();
    assert forall|held: Set<i64>| database.is_writer implies (#[trigger] opening.migration_run(
        held,
    )).reached().phase == (PhaseView::Finished { result: Ok(()) }) by {
        opening.migration_run(Set::empty()).lemma_reached_by_replies(held);
        assert(opening.migration_run(held) == (Run {
            held,
            ..opening.migration_run(Set::empty())
        }));
    }
}

/// Once a store is open to write, every listed migration is recorded in it, beside
/// what it held before and nothing else, and the rows that the opening added are
/// those of the migrations it applied, as successes.
pub proof fn law_open_writer_holds_every_migration<P, C>(
    opening: Opening<P, C>,
    database: DatabaseView<P, C>,
    held: Set<i64>,
)
    requires
        opening.fitting(),
        opening.reached() == (StartupView::<P, C>::Ready { database }),
        database.is_writer,
        opening.migration_run(held).truthful(),
    ensures
        ({
            let run = opening.migration_run(held);
            &&& forall|i: int|
                0 <= i < opening.migrations.len() ==> run.recorded().contains(
                    (#[trigger] opening.migrations[i]).version,
                )
            &&& forall|version: i64| #[trigger]
                run.recorded().contains(version) <==> held.contains(version) || exists|i: int|
                    0 <= i < opening.migrations.len() && (#[trigger] opening.migrations[i]).version
                        == version
            &&& run.added().len() == run.applied().len()
            &&& forall|k: int|
                0 <= k < run.added().len() ==> records(
                    #[trigger] run.added()[k],
                    opening.migrations[run.applied()[k]],
                    true,
                )
        }),
{
    law_open_store(opening, database);
    let run = opening.migration_run(held);
    assert(run.reached().phase == (PhaseView::Finished { result: Ok(()) }));
    law_success_records_every_migration(run);
    law_success_adds_the_applied_as_successes(run);
    assert(run.migrations == opening.migrations);
    assert(run.held == held);
}

/// Opening a store again to write, with the same migrations and while it still
/// holds what the first opening recorded, applies and adds nothing.
pub proof fn law_reopening_changes_nothing<P, C>(
    first: Opening<P, C>,
    database: DatabaseView<P, C>,
    held: Set<i64>,
    second: Opening<P, C>,
    held_again: Set<i64>,
)
    requires
        first.fitting(),
        first.reached() == (StartupView::<P, C>::Ready { database }),
        database.is_writer,
        first.migration_run(held).truthful(),
        second.migrations == first.migrations,
        second.migration_run(held_again).truthful(),
        first.migration_run(held).recorded().subset_of(held_again),
    ensures
        second.migration_run(held_again).applied() == Seq::<int>::empty(),
        second.migration_run(held_again).added() == Seq::<Record>::empty(),
        second.migration_run(held_again).recorded() == held_again,
{
    law_open_store(first, database);
    assert(first.migration_run(held).reached().phase == (PhaseView::Finished { result: Ok(()) }));
    law_second_run_changes_nothing(first.migration_run(held), second.migration_run(held_again));
}

/// The answer to the question for the lock decides: the process that is granted it
/// goes on to migrate; the other's store is open at once, to read.
pub proof fn law_lock_answer_decides<P, C>(opening: Opening<P, C>)
    requires
        opening.fitting(),
        opening.outcomes.len() == 3,
        opening.outcomes[2] is Lock,
    ensures
        ({
            let pool = opening.outcomes[0]->Connected_pool;
            let connection = opening.outcomes[2]->Lock_connection;
            &&& opening.asked_for_lock(pool, connection, opening.outcomes[2]->Lock_granted)
            &&& opening.reached() == if opening.outcomes[2]->Lock_granted {
                StartupView::Migrating {
                    pool,
                    connection,
                    migrator: MigratorView::start(opening.migrations),
                }
            } else {
                StartupView::Ready { database: opened(pool, connection, false) }
            }
        }),
{
    opening.before_last().lemma_inv();
    assert(opening.outcomes.last() == opening.outcomes[2]);
    assert(opening.before_last().outcomes[0] == opening.outcomes[0]);
}

/// A migration statement is sent only once the writer lock was granted.
pub proof fn law_only_the_writer_migrates<P, C>(opening: Opening<P, C>)
    requires
        opening.fitting(),
        opening.reached().pending() matches Some(action) && action is Migrate,
    ensures
        opening.outcomes.len() >= 3,
        opening.outcomes[2] is Lock,
        opening.outcomes[2]->Lock_granted,
{
    opening.lemma_inv();
}

/// A failure to connect, to take a connection or to ask for the lock ends the
/// attempt with that error.
pub proof fn law_failed_step_ends_the_opening<P, C>(stage: StartupView<P, C>, reason: Seq<char>)
    requires
        stage.fits(OutcomeView::Failed { reason }),
    ensures
        stage.next(OutcomeView::Failed { reason }) == (StartupView::<P, C>::Failed {
            error: DatabaseErrorView::Backend { reason },
        }),
        stage.next(OutcomeView::Failed { reason }).pending() is None,
{
}

/// How many actions are left at most.
pub open spec fn actions_left<P, C>(stage: StartupView<P, C>) -> int {
    match stage {
        StartupView::Connecting { migrations, .. } => 3 * (migrations.len() as int) + 4,
        StartupView::Acquiring { migrations, .. } => 3 * (migrations.len() as int) + 3,
        StartupView::Locking { migrations, .. } => 3 * (migrations.len() as int) + 2,
        StartupView::Migrating { migrator, .. } => statements_left(migrator),
        StartupView::Ready { .. } => 0,
        StartupView::Failed { .. } => 0,
    }
}

/// Every outcome brings the attempt nearer to its end.
pub proof fn law_opening_ends<P, C>(opening: Opening<P, C>, outcome: OutcomeView<P, C>)
    requires
        opening.fitting(),
        opening.reached().fits(outcome),
    ensures
        0 <= actions_left(opening.reached().next(outcome)) < actions_left(opening.reached()),
{
    opening.lemma_inv();
    if let StartupView::Migrating { pool, connection, migrator } = opening.reached() {
        opening.migration_run(Set::empty()).lemma_wf();
        law_migrator_finishes(migrator, outcome->Migration_reply);
    }
}

} // verus!
