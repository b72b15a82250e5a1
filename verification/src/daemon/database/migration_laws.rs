//! What holds of every run of the migrator against a store that remembers what
//! was recorded in it.
use vstd::prelude::*;
use crate::daemon::database::checksum::checksum_of;
use crate::daemon::database::error::DatabaseErrorView;
use crate::daemon::database::migrations::{
    tracker_migrations, wrapped_millis, MigrationView, APPLIED_RECORD_SQL, FAILED_RECORD_SQL,
};
use crate::daemon::database::migrator::{MigratorView, PhaseView, ReplyView};
use crate::daemon::database::statement::{Fetch, StatementView};

verus! {

/// A row of the table of recorded migrations.
#[verifier::ext_equal]
pub struct Record {
    pub version: i64,
    pub description: Seq<char>,
    pub success: bool,
    pub checksum: Seq<u8>,
    pub execution_time: i64,
}

/// The row that `statement` inserts into the table of recorded migrations.
pub open spec fn inserted_record(statement: StatementView) -> Option<Record> {
    if statement.fetch != Fetch::Execute {
        None
    } else if statement.sql == APPLIED_RECORD_SQL@ && statement.params.len() == 4 {
        Some(
            Record {
                version: statement.params[0]->Int8_0->0,
                description: statement.params[1]->Text_0->0,
                success: true,
                checksum: statement.params[2]->Bytes_0,
                execution_time: statement.params[3]->Int8_0->0,
            },
        )
    } else if statement.sql == FAILED_RECORD_SQL@ && statement.params.len() == 3 {
        Some(
            Record {
                version: statement.params[0]->Int8_0->0,
                description: statement.params[1]->Text_0->0,
                success: false,
                checksum: statement.params[2]->Bytes_0,
                execution_time: 0,
            },
        )
    } else {
        None
    }
}

/// `record` is that of `migration`, with its own checksum and this flag.
pub open spec fn records(record: Record, migration: MigrationView, success: bool) -> bool {
    &&& record.version == migration.version
    &&& record.description == migration.description
    &&& record.checksum == checksum_of(migration.sql)
    &&& record.success == success
    &&& !success ==> record.execution_time == 0
}

/// A run of the migrator: the versions that the store held before it, and the
/// replies it got.
pub struct Run {
    pub migrations: Seq<MigrationView>,
    pub held: Set<i64>,
    pub replies: Seq<ReplyView>,
}

impl Run {
    /// The run without its last reply.
    pub open spec fn before_last(self) -> Run {
        Run { replies: self.replies.drop_last(), ..self }
    }

    /// Where the migrator stands after the run.
    pub open spec fn reached(self) -> MigratorView
        decreases self.replies.len(),
    {
        if self.replies.len() == 0 {
            MigratorView::start(self.migrations)
        } else {
            self.before_last().reached().next(self.replies.last())
        }
    }

    /// The versions that the store holds after the run: those it held before it
    /// and those whose record was inserted, whether as applied or as failed.
    pub open spec fn recorded(self) -> Set<i64>
        decreases self.replies.len(),
    {
        if self.replies.len() == 0 {
            self.held
        } else {
            let earlier = self.before_last().recorded();
            match (self.before_last().reached().phase, self.replies.last()) {
                (PhaseView::Recording { at, .. }, ReplyView::Executed) => earlier.insert(
                    self.migrations[at].version,
                ),
                (PhaseView::RecordingFailure { at, .. }, ReplyView::Executed) => earlier.insert(
                    self.migrations[at].version,
                ),
                _ => earlier,
            }
        }
    }

    /// The rows that the run has added to the table of recorded migrations, in the
    /// order of their insertion: those of the statements that were executed.
    pub open spec fn added(self) -> Seq<Record>
        decreases self.replies.len(),
    {
        if self.replies.len() == 0 {
            Seq::empty()
        } else {
            let earlier = self.before_last().added();
            match (self.before_last().reached().pending(), self.replies.last()) {
                (Some(statement), ReplyView::Executed) => match inserted_record(statement) {
                    Some(record) => earlier.push(record),
                    None => earlier,
                },
                _ => earlier,
            }
        }
    }

    /// The places of the migrations whose text was sent to the store and
    /// answered, in the order of sending.
    pub open spec fn applied(self) -> Seq<int>
        decreases self.replies.len(),
    {
        if self.replies.len() == 0 {
            Seq::empty()
        } else {
            let earlier = self.before_last().applied();
            match self.before_last().reached().phase {
                PhaseView::Applying { at } => earlier.push(at),
                _ => earlier,
            }
        }
    }

    /// Every reply fits the statement it answers, and the store answers by what
    /// it holds.
    pub open spec fn truthful(self) -> bool
        decreases self.replies.len(),
    {
        self.replies.len() == 0 || {
            let earlier = self.before_last();
            &&& earlier.truthful()
            &&& earlier.reached().fits(self.replies.last())
            &&& match (earlier.reached().phase, self.replies.last()) {
                (PhaseView::Checking { at }, ReplyView::Answer(answer)) => answer
                    == earlier.recorded().contains(self.migrations[at].version),
                _ => true,
            }
        }
    }

    /// Whatever the replies, the migrator keeps its list and counts within it.
    pub proof fn lemma_wf(self)
        ensures
            self.reached().migrations == self.migrations,
            self.reached().wf(),
        decreases self.replies.len(),
    {
        if self.replies.len() > 0 {
            self.before_last().lemma_wf();
        }
    }

    /// Where the migrator stands depends on the replies alone.
    pub proof fn lemma_reached_by_replies(self, held: Set<i64>)
        ensures
            (Run { held, ..self }).reached() == self.reached(),
        decreases self.replies.len(),
    {
        if self.replies.len() > 0 {
            self.before_last().lemma_reached_by_replies(held);
            assert((Run { held, ..self }).before_last() == (Run { held, ..self.before_last() }));
        }
    }

    /// Every migration before place `at` is recorded.
    spec fn recorded_before(self, at: int) -> bool {
        forall|i: int|
            0 <= i < at && i < self.migrations.len() ==> self.recorded().contains(
                (#[trigger] self.migrations[i]).version,
            )
    }

    /// Every migration that was applied stands before place `at`.
    spec fn applied_before(self, at: int) -> bool {
        forall|k: int|
            0 <= k < self.applied().len() ==> 0 <= #[trigger] self.applied()[k] < at && at
                <= self.migrations.len()
    }

    /// What a truthful run keeps true.
    spec fn inv(self) -> bool {
        &&& self.reached().migrations == self.migrations
        &&& self.reached().wf()
        &&& self.held.subset_of(self.recorded())
        &&& forall|k: int|
            0 <= k < self.applied().len() ==> !self.held.contains(
                self.migrations[#[trigger] self.applied()[k]].version,
            )
        &&& forall|j: int, k: int|
            0 <= j < k < self.applied().len() ==> #[trigger] self.applied()[j]
                < #[trigger] self.applied()[k]
        &&& forall|version: i64| #[trigger]
            self.recorded().contains(version) ==> self.held.contains(version) || exists|k: int|
                0 <= k < self.applied().len() && self.migrations[#[trigger] self.applied()[k]].version
                    == version
        &&& match self.reached().phase {
            PhaseView::CreatingTable => self.applied().len() == 0,
            PhaseView::Checking { at } => self.recorded_before(at) && self.applied_before(at),
            PhaseView::Applying { at } => {
                &&& self.recorded_before(at)
                &&& self.applied_before(at)
                &&& !self.recorded().contains(self.migrations[at].version)
            },
            PhaseView::Recording { at, .. } => {
                &&& self.recorded_before(at)
                &&& self.applied_before(at + 1)
                &&& self.applied().len() > 0 && self.applied().last() == at
            },
            PhaseView::RecordingFailure { at, .. } => {
                &&& self.recorded_before(at)
                &&& self.applied_before(at + 1)
                &&& self.applied().len() > 0 && self.applied().last() == at
            },
            PhaseView::Finished { result } => {
                &&& result is Ok ==> self.recorded_before(self.migrations.len() as int)
                &&& self.applied_before(self.migrations.len() as int)
            },
        }
    }

    proof fn lemma_inv(self)
        requires
            self.truthful(),
        ensures
            self.inv(),
        decreases self.replies.len(),
    {
        if self.replies.len() > 0 {
            let earlier = self.before_last();
            earlier.lemma_inv();
            assert(earlier.reached().migrations == self.migrations);
            match earlier.reached().phase {
                PhaseView::Applying { at } => {
                    assert(self.applied() == earlier.applied().push(at));
                    assert(self.recorded() == earlier.recorded());
                    assert(self.applied()[self.applied().len() - 1] == at);
                    assert forall|version: i64| #[trigger]
                        self.recorded().contains(version) implies self.held.contains(version)
                        || exists|k: int|
                        0 <= k < self.applied().len() && self.migrations[#[trigger] self.applied()[k]].version
                            == version by {
                        if !self.held.contains(version) {
                            let k = choose|k: int|
                                0 <= k < earlier.applied().len()
                                    && self.migrations[#[trigger] earlier.applied()[k]].version
                                    == version;
                            assert(self.applied()[k] == earlier.applied()[k]);
                        }
                    }
                },
                PhaseView::Recording { at, .. } => {
                    assert(self.applied() == earlier.applied());
                    assert(self.applied()[self.applied().len() - 1] == at);
                },
                PhaseView::RecordingFailure { at, .. } => {
                    assert(self.applied() == earlier.applied());
                    assert(self.applied()[self.applied().len() - 1] == at);
                },
                _ => {
                    assert(self.applied() == earlier.applied());
                    assert(self.recorded() == earlier.recorded());
                },
            }
        }
    }
}

impl Run {
    /// The first `n` rows that were added are those of the first `n` migrations
    /// that were applied, as applied.
    spec fn added_as_applied(self, n: int) -> bool {
        &&& 0 <= n <= self.added().len()
        &&& n <= self.applied().len()
        &&& forall|k: int|
            0 <= k < n ==> records(
                #[trigger] self.added()[k],
                self.migrations[self.applied()[k]],
                true,
            )
    }

    /// What a truthful run keeps true of the rows that it adds.
    spec fn rows_inv(self) -> bool {
        let count = self.applied().len() as int;
        match self.reached().phase {
            PhaseView::Recording { .. } => {
                &&& self.added().len() == count - 1
                &&& self.added_as_applied(count - 1)
            },
            PhaseView::RecordingFailure { .. } => {
                &&& self.added().len() == count - 1
                &&& self.added_as_applied(count - 1)
            },
            PhaseView::Finished { result: Err(_) } => {
                ||| self.added().len() == count && self.added_as_applied(count)
                ||| self.added().len() == count - 1 && self.added_as_applied(count - 1)
                ||| {
                    &&& self.added().len() == count > 0
                    &&& self.added_as_applied(count - 1)
                    &&& records(self.added().last(), self.migrations[self.applied().last()], false)
                }
            },
            _ => self.added().len() == count && self.added_as_applied(count),
        }
    }

    proof fn lemma_rows(self)
        requires
            self.truthful(),
        ensures
            self.rows_inv(),
        decreases self.replies.len(),
    {
        if self.replies.len() > 0 {
            let earlier = self.before_last();
            earlier.lemma_rows();
            earlier.lemma_inv();
            match earlier.reached().phase {
                PhaseView::Applying { at } => {
                    assert(self.applied() == earlier.applied().push(at));
                    assert(self.added() == earlier.added());
                },
                PhaseView::Recording { at, elapsed_millis } => {
                    assert(self.applied() == earlier.applied());
                    if self.replies.last() is Executed {
                        let statement = earlier.reached().pending()->0;
                        let record = inserted_record(statement)->0;
                        assert(records(record, self.migrations[at], true));
                        assert(self.added() == earlier.added().push(record));
                    }
                },
                PhaseView::RecordingFailure { at, .. } => {
                    assert(self.applied() == earlier.applied());
                    if self.replies.last() is Executed {
                        let statement = earlier.reached().pending()->0;
                        let record = inserted_record(statement)->0;
                        assert(records(record, self.migrations[at], false));
                        assert(self.added() == earlier.added().push(record));
                    }
                },
                _ => {
                    assert(self.applied() == earlier.applied());
                    assert(self.added() == earlier.added());
                },
            }
        }
    }

    proof fn lemma_recorded_is_held_or_added(self, version: i64)
        ensures
            self.recorded().contains(version) <==> self.held.contains(version) || exists|k: int|
                0 <= k < self.added().len() && (#[trigger] self.added()[k]).version == version,
        decreases self.replies.len(),
    {
        if self.replies.len() > 0 {
            let earlier = self.before_last();
            earlier.lemma_recorded_is_held_or_added(version);
            earlier.lemma_wf();
            if self.added() == earlier.added() {
            } else {
                let record = self.added().last();
                assert(self.added() == earlier.added().push(record));
                assert(self.added()[self.added().len() - 1] == record);
                assert forall|k: int| 0 <= k < earlier.added().len() implies earlier.added()[k]
                    == #[trigger] self.added()[k] by {}
                if exists|k: int|
                    0 <= k < earlier.added().len() && (#[trigger] earlier.added()[k]).version
                        == version {
                    let k = choose|k: int|
                        0 <= k < earlier.added().len() && (#[trigger] earlier.added()[k]).version
                            == version;
                    assert(self.added()[k].version == version);
                }
            }
        }
    }
}

/// A migration that was applied is recorded with its checksum and the time that it
/// took; one that failed, with its checksum and no time.
pub proof fn law_record_of_an_attempt(migrator: MigratorView, at: int, reply: ReplyView)
    requires
        migrator.wf(),
        migrator.phase == (PhaseView::Applying { at }),
        migrator.fits(reply),
    ensures
        migrator.next(reply).pending() is Some,
        inserted_record(migrator.next(reply).pending()->0) == Some(
            Record {
                version: migrator.migrations[at].version,
                description: migrator.migrations[at].description,
                success: reply is Applied,
                checksum: checksum_of(migrator.migrations[at].sql),
                execution_time: match reply {
                    ReplyView::Applied { elapsed_millis } => wrapped_millis(elapsed_millis) as i64,
                    _ => 0,
                },
            },
        ),
{
}

/// What the store holds after a run is what it held before and the versions of
/// the rows that the run added.
pub proof fn law_recorded_is_held_or_added(run: Run, version: i64)
    ensures
        run.recorded().contains(version) <==> run.held.contains(version) || exists|k: int|
            0 <= k < run.added().len() && (#[trigger] run.added()[k]).version == version,
{
    run.lemma_recorded_is_held_or_added(version);
}

/// A run that succeeded has added one row for each migration that it applied, in
/// their order, and no other: each under the migration's version, description and
/// checksum, as a success.
pub proof fn law_success_adds_the_applied_as_successes(run: Run)
    requires
        run.truthful(),
        run.reached().phase == (PhaseView::Finished { result: Ok(()) }),
    ensures
        run.added().len() == run.applied().len(),
        forall|k: int|
            0 <= k < run.added().len() ==> records(
                #[trigger] run.added()[k],
                run.migrations[run.applied()[k]],
                true,
            ),
{
    run.lemma_rows();
}

/// When the failure of a migration was recorded, the row that was added last is
/// that migration's, as a failure, and all rows that were added before it are
/// those of the migrations applied before it, as successes.
pub proof fn law_recorded_failure_is_the_only_failure(run: Run)
    requires
        run.truthful(),
        run.replies.len() > 0,
        run.before_last().reached().phase is RecordingFailure,
        run.replies.last() == ReplyView::Executed,
    ensures
        run.added().len() == run.applied().len() > 0,
        run.applied().last() == run.before_last().reached().phase->RecordingFailure_at,
        records(run.added().last(), run.migrations[run.applied().last()], false),
        forall|k: int|
            0 <= k < run.added().len() - 1 ==> records(
                #[trigger] run.added()[k],
                run.migrations[run.applied()[k]],
                true,
            ),
{
    let earlier = run.before_last();
    earlier.lemma_rows();
    earlier.lemma_inv();
    let at = earlier.reached().phase->RecordingFailure_at;
    let record = inserted_record(earlier.reached().pending()->0)->0;
    assert(records(record, run.migrations[at], false));
    assert(run.added() == earlier.added().push(record));
    assert(run.applied() == earlier.applied());
}

/// Whatever the replies, no row is added for a migration that was not applied, and
/// at most the last row is a failure.
pub proof fn law_added_rows_follow_the_applied(run: Run, k: int)
    requires
        run.truthful(),
        0 <= k < run.added().len(),
    ensures
        run.added().len() <= run.applied().len() <= run.added().len() + 1,
        records(run.added()[k], run.migrations[run.applied()[k]], run.added()[k].success),
        k < run.added().len() - 1 ==> run.added()[k].success,
{
    run.lemma_rows();
    run.lemma_inv();
}

/// In a run against a truthful store every migration is applied at most once,
/// and they are applied in the order of the list.
pub proof fn law_applied_once_in_order(run: Run)
    requires
        run.truthful(),
    ensures
        forall|j: int, k: int|
            0 <= j < k < run.applied().len() ==> #[trigger] run.applied()[j]
                < #[trigger] run.applied()[k],
        forall|k: int|
            0 <= k < run.applied().len() ==> 0 <= #[trigger] run.applied()[k]
                < run.migrations.len(),
{
    run.lemma_inv();
}

/// A migration whose version the store holds, be it as applied or as failed, is
/// not applied.
pub proof fn law_held_migrations_are_not_applied(run: Run, at: int)
    requires
        run.truthful(),
        0 <= at < run.migrations.len(),
        run.held.contains(run.migrations[at].version),
    ensures
        !run.applied().contains(at),
{
    run.lemma_inv();
}

/// After a run that succeeded the store holds every migration, what it held
/// before, and nothing else.
pub proof fn law_success_records_every_migration(run: Run)
    requires
        run.truthful(),
        run.reached().phase == (PhaseView::Finished { result: Ok(()) }),
    ensures
        forall|version: i64| #[trigger]
            run.recorded().contains(version) <==> run.held.contains(version) || exists|i: int|
                0 <= i < run.migrations.len() && (#[trigger] run.migrations[i]).version == version,
{
    run.lemma_inv();
    assert forall|version: i64| #[trigger]
        run.recorded().contains(version) implies run.held.contains(version) || exists|i: int|
        0 <= i < run.migrations.len() && (#[trigger] run.migrations[i]).version == version by {
        if !run.held.contains(version) {
            let k = choose|k: int|
                0 <= k < run.applied().len() && run.migrations[#[trigger] run.applied()[k]].version
                    == version;
            assert(run.migrations[run.applied()[k]].version == version);
        }
    }
}

/// Once a run has succeeded, another run with the same migrations, against a store
/// that still holds what it recorded, applies nothing and adds nothing, however it
/// ends.
pub proof fn law_second_run_changes_nothing(first: Run, second: Run)
    requires
        first.truthful(),
        first.reached().phase == (PhaseView::Finished { result: Ok(()) }),
        second.truthful(),
        second.migrations == first.migrations,
        first.recorded().subset_of(second.held),
    ensures
        second.applied() == Seq::<int>::empty(),
        second.added() == Seq::<Record>::empty(),
        second.recorded() == second.held,
{
    law_success_records_every_migration(first);
    second.lemma_inv();
    second.lemma_rows();
    if second.applied().len() > 0 {
        let at = second.applied()[0];
        law_applied_once_in_order(second);
        assert(first.migrations[at].version == second.migrations[at].version);
        assert(first.recorded().contains(second.migrations[at].version));
        law_held_migrations_are_not_applied(second, at);
        assert(second.applied().contains(at));
    }
    assert(second.applied() =~= Seq::<int>::empty());
    assert(second.added() =~= Seq::<Record>::empty());
    assert(second.recorded() =~= second.held);
}

/// No two migrations share their version.
pub open spec fn versions_distinct(migrations: Seq<MigrationView>) -> bool {
    forall|i: int, j: int|
        0 <= i < j < migrations.len() ==> (#[trigger] migrations[i]).version != (
        #[trigger] migrations[j]).version
}

/// Of the migrations that are recorded, those were applied that were not held.
proof fn lemma_applied_iff_missing(run: Run, i: int)
    requires
        run.truthful(),
        versions_distinct(run.migrations),
        0 <= i < run.migrations.len(),
        run.recorded().contains(run.migrations[i].version),
    ensures
        run.applied().contains(i) <==> !run.held.contains(run.migrations[i].version),
{
    run.lemma_inv();
    law_applied_once_in_order(run);
    if run.held.contains(run.migrations[i].version) {
        law_held_migrations_are_not_applied(run, i);
    } else {
        let k = choose|k: int|
            0 <= k < run.applied().len() && run.migrations[#[trigger] run.applied()[k]].version
                == run.migrations[i].version;
        let found = run.applied()[k];
        assert(run.migrations[found].version == run.migrations[i].version);
        assert(found == i);
        assert(run.applied().contains(i));
    }
}

/// A run that succeeded has applied exactly the migrations whose versions the store
/// did not hold before.
pub proof fn law_success_applies_exactly_the_missing(run: Run, i: int)
    requires
        run.truthful(),
        versions_distinct(run.migrations),
        run.reached().phase == (PhaseView::Finished { result: Ok(()) }),
        0 <= i < run.migrations.len(),
    ensures
        run.applied().contains(i) <==> !run.held.contains(run.migrations[i].version),
{
    law_success_records_every_migration(run);
    assert(run.recorded().contains(run.migrations[i].version));
    lemma_applied_iff_missing(run, i);
}

/// When a migration has failed, exactly those up to it were applied whose versions
/// the store did not hold before, the failing one among them, and none after it;
/// whether its failure could be recorded makes no difference.
pub proof fn law_failure_follows_the_missing(run: Run, at: int, i: int)
    requires
        run.truthful(),
        versions_distinct(run.migrations),
        run.replies.len() > 0,
        run.before_last().reached().phase is RecordingFailure,
        run.before_last().reached().phase->RecordingFailure_at == at,
        0 <= i < run.migrations.len(),
    ensures
        0 <= at < run.migrations.len(),
        run.applied().contains(at),
        !run.held.contains(run.migrations[at].version),
        i <= at ==> (run.applied().contains(i) <==> !run.held.contains(run.migrations[i].version)),
        i > at ==> !run.applied().contains(i),
{
    let earlier = run.before_last();
    earlier.lemma_inv();
    assert(run.applied() == earlier.applied());
    assert(earlier.applied()[earlier.applied().len() - 1] == at);
    if i < at {
        assert(earlier.recorded().contains(run.migrations[i].version));
        lemma_applied_iff_missing(earlier, i);
    }
}

/// A migration that fails is recorded as failed and ends the run: whatever
/// becomes of the record, no later statement is sent, and the error names the
/// migration and the reason.
pub proof fn law_failure_ends_the_run(
    migrator: MigratorView,
    at: int,
    reason: Seq<char>,
    recording: ReplyView,
)
    requires
        migrator.wf(),
        migrator.phase == (PhaseView::Applying { at }),
    ensures
        ({
            let failed = migrator.next(ReplyView::Failed { reason });
            let ended = failed.next(recording);
            &&& failed.phase == (PhaseView::RecordingFailure { at, reason })
            &&& ended.pending() is None
            &&& ended.phase == (PhaseView::Finished {
                result: Err(
                    DatabaseErrorView::MigrationFailed {
                        description: migrator.migrations[at].description,
                        reason,
                    },
                ),
            })
        }),
{
}

/// How many statements the migrator may still send.
pub open spec fn statements_left(migrator: MigratorView) -> int {
    let count = migrator.migrations.len() as int;
    match migrator.phase {
        PhaseView::CreatingTable => 3 * count + 1,
        PhaseView::Checking { at } => 3 * (count - at),
        PhaseView::Applying { at } => 3 * (count - at) - 1,
        PhaseView::Recording { at, .. } => 3 * (count - at) - 2,
        PhaseView::RecordingFailure { at, .. } => 3 * (count - at) - 2,
        PhaseView::Finished { .. } => 0,
    }
}

/// Every reply brings the migrator nearer to its end, which it has reached when
/// no statement is pending: it sends at most three statements per migration, and
/// one for the table.
pub proof fn law_migrator_finishes(migrator: MigratorView, reply: ReplyView)
    requires
        migrator.wf(),
        migrator.fits(reply),
    ensures
        migrator.next(reply).wf(),
        0 <= statements_left(migrator.next(reply)) < statements_left(migrator),
        statements_left(migrator.next(reply)) == 0 <==> migrator.next(reply).phase is Finished,
{
}

/// A migration whose failure was recorded is the last one that its run applied,
/// and no run against a store that still holds that record applies it again.
pub proof fn law_failed_migration_is_not_retried(first: Run, second: Run, at: int)
    requires
        first.truthful(),
        first.replies.len() > 0,
        first.before_last().reached().phase is RecordingFailure,
        first.before_last().reached().phase->RecordingFailure_at == at,
        first.replies.last() == ReplyView::Executed,
        second.truthful(),
        second.migrations == first.migrations,
        first.recorded().subset_of(second.held),
    ensures
        first.applied().last() == at,
        !second.applied().contains(at),
{
    first.before_last().lemma_inv();
    law_held_migrations_are_not_applied(second, at);
}

/// A run that succeeded has applied every migration whose version the store did
/// not hold before, up to migrations that share their version.
pub proof fn law_success_applies_what_was_missing(run: Run, at: int)
    requires
        run.truthful(),
        run.reached().phase == (PhaseView::Finished { result: Ok(()) }),
        0 <= at < run.migrations.len(),
        !run.held.contains(run.migrations[at].version),
    ensures
        exists|k: int|
            0 <= k < run.applied().len() && run.migrations[#[trigger] run.applied()[k]].version
                == run.migrations[at].version,
{
    run.lemma_inv();
    law_success_records_every_migration(run);
    assert(run.recorded().contains(run.migrations[at].version));
}

/// The tracker's migrations have ascending, and so distinct, versions.
pub proof fn law_tracker_versions_ascend(
    initial_schema: Seq<char>,
    add_parsed_data_columns: Seq<char>,
    add_idle_tracking: Seq<char>,
    add_idle_accumulation: Seq<char>,
    add_app_renames: Seq<char>,
)
    ensures
        ({
            let migrations = tracker_migrations(
                initial_schema,
                add_parsed_data_columns,
                add_idle_tracking,
                add_idle_accumulation,
                add_app_renames,
            );
            forall|i: int, j: int|
                0 <= i < j < migrations.len() ==> (#[trigger] migrations[i]).version < (
                #[trigger] migrations[j]).version
        }),
{
}

} // verus!
