//! Bringing the schema up to date.
use vstd::prelude::*;
use crate::daemon::database::checksum::{checksum, checksum_of, hashable};
use crate::daemon::database::error::{DatabaseError, DatabaseErrorView};
use crate::daemon::database::migrations::{
    applied_record, applied_record_statement, apply_statement, build_apply, build_create_table,
    build_exists, create_table_statement, execution_time, exists_statement, failed_record,
    failed_record_statement, migrations_view, wrapped_millis, EmbeddedMigration, MigrationView,
};
use crate::daemon::database::statement::{Statement, StatementView};

verus! {

/// What came of a statement that the migrator sent.
#[derive(Clone, Debug, PartialEq, Eq)]
pub enum Reply {
    /// A prepared statement ran.
    Executed,
    /// A migration's text ran, in this many milliseconds.
    Applied { elapsed_millis: u128 },
    /// The row that was asked for holds this answer.
    Answer(bool),
    /// The statement failed.
    Failed { reason: String },
}

/// What a [`Reply`] says.
#[verifier::ext_equal]
pub enum ReplyView {
    Executed,
    Applied { elapsed_millis: u128 },
    Answer(bool),
    Failed { reason: Seq<char> },
}

impl View for Reply {
    type V = ReplyView;

    open spec fn view(&self) -> ReplyView {
        match *self {
            Reply::Executed => ReplyView::Executed,
            Reply::Applied { elapsed_millis } => ReplyView::Applied { elapsed_millis },
            Reply::Answer(answer) => ReplyView::Answer(answer),
            Reply::Failed { reason } => ReplyView::Failed { reason: reason@ },
        }
    }
}

/// How far the migrator has come.  `at` is the place of a migration in the list.
#[verifier::ext_equal]
pub enum PhaseView {
    /// The table of recorded migrations is being created.
    CreatingTable,
    /// The table is asked for a migration.
    Checking { at: int },
    /// A migration that the table does not hold is being applied.
    Applying { at: int },
    /// A migration that was applied is being recorded.
    Recording { at: int, elapsed_millis: u128 },
    /// A migration that failed is being recorded.
    RecordingFailure { at: int, reason: Seq<char> },
    /// Nothing is left to do.
    Finished { result: Result<(), DatabaseErrorView> },
}

/// A list of migrations and how far the migrator has come with them.
#[verifier::ext_equal]
pub struct MigratorView {
    pub migrations: Seq<MigrationView>,
    pub phase: PhaseView,
}

impl MigratorView {
    /// The migrator before its first statement.
    pub open spec fn start(migrations: Seq<MigrationView>) -> MigratorView {
        MigratorView { migrations, phase: PhaseView::CreatingTable }
    }

    /// The migration that `at` counts is in the list.
    pub open spec fn wf(self) -> bool {
        match self.phase {
            PhaseView::CreatingTable => true,
            PhaseView::Checking { at } => 0 <= at < self.migrations.len(),
            PhaseView::Applying { at } => 0 <= at < self.migrations.len(),
            PhaseView::Recording { at, .. } => 0 <= at < self.migrations.len(),
            PhaseView::RecordingFailure { at, .. } => 0 <= at < self.migrations.len(),
            PhaseView::Finished { .. } => true,
        }
    }

    /// The statement that waits for its reply.
    pub open spec fn pending(self) -> Option<StatementView> {
        match self.phase {
            PhaseView::CreatingTable => Some(create_table_statement()),
            PhaseView::Checking { at } => Some(exists_statement(self.migrations[at].version)),
            PhaseView::Applying { at } => Some(apply_statement(self.migrations[at])),
            PhaseView::Recording { at, elapsed_millis } => Some(
                applied_record_statement(
                    self.migrations[at],
                    checksum_of(self.migrations[at].sql),
                    wrapped_millis(elapsed_millis) as i64,
                ),
            ),
            PhaseView::RecordingFailure { at, .. } => Some(
                failed_record_statement(
                    self.migrations[at],
                    checksum_of(self.migrations[at].sql),
                ),
            ),
            PhaseView::Finished { .. } => None,
        }
    }

    /// `reply` is one that the pending statement can get.
    pub open spec fn fits(self, reply: ReplyView) -> bool {
        match self.phase {
            PhaseView::CreatingTable => reply is Executed || reply is Failed,
            PhaseView::Checking { .. } => reply is Answer || reply is Failed,
            PhaseView::Applying { .. } => reply is Applied || reply is Failed,
            PhaseView::Recording { .. } => reply is Executed || reply is Failed,
            PhaseView::RecordingFailure { .. } => reply is Executed || reply is Failed,
            PhaseView::Finished { .. } => false,
        }
    }

    /// The phase in which the migration in place `at` is looked at; past the
    /// last one there is nothing left to do.
    pub open spec fn looking_at(self, at: int) -> PhaseView {
        if at < self.migrations.len() {
            PhaseView::Checking { at }
        } else {
            PhaseView::Finished { result: Ok(()) }
        }
    }

    /// The phase that `reply` to the pending statement leads to.
    pub open spec fn next_phase(self, reply: ReplyView) -> PhaseView {
        match (self.phase, reply) {
            // Whether a failure could be recorded makes no difference.
            (PhaseView::RecordingFailure { at, reason }, _) => PhaseView::Finished {
                result: Err(
                    DatabaseErrorView::MigrationFailed {
                        description: self.migrations[at].description,
                        reason,
                    },
                ),
            },
            (PhaseView::Applying { at }, ReplyView::Failed { reason }) => {
                PhaseView::RecordingFailure { at, reason }
            },
            (_, ReplyView::Failed { reason }) => PhaseView::Finished {
                result: Err(DatabaseErrorView::Backend { reason }),
            },
            (PhaseView::CreatingTable, _) => self.looking_at(0),
            (PhaseView::Checking { at }, ReplyView::Answer(already_applied)) => {
                if already_applied {
                    self.looking_at(at + 1)
                } else {
                    PhaseView::Applying { at }
                }
            },
            (PhaseView::Applying { at }, ReplyView::Applied { elapsed_millis }) => {
                PhaseView::Recording { at, elapsed_millis }
            },
            (PhaseView::Recording { at, .. }, _) => self.looking_at(at + 1),
            (phase, _) => phase,
        }
    }

    /// The migrator after `reply` to the pending statement.
    pub open spec fn next(self, reply: ReplyView) -> MigratorView {
        MigratorView { phase: self.next_phase(reply), ..self }
    }
}

enum Phase {
    CreatingTable,
    Checking { at: usize },
    Applying { at: usize, checksum: Vec<u8> },
    Recording { at: usize, checksum: Vec<u8>, elapsed_millis: u128 },
    RecordingFailure { at: usize, checksum: Vec<u8>, reason: String },
    Finished { result: Result<(), DatabaseError> },
}

/// Applies a list of migrations, each at most once.
pub struct Migrator {
    migrations: Vec<EmbeddedMigration>,
    phase: Phase,
}

/// What a finished migrator reports.
pub open spec fn result_view(result: Result<(), DatabaseError>) -> Result<(), DatabaseErrorView> {
    match result {
        Ok(done) => Ok(done),
        Err(error) => Err(error@),
    }
}

/// Every text of the list can be hashed.
pub open spec fn all_hashable(migrations: Seq<MigrationView>) -> bool {
    forall|i: int| 0 <= i < migrations.len() ==> hashable((#[trigger] migrations[i]).sql)
}

impl View for Migrator {
    type V = MigratorView;

    closed spec fn view(&self) -> MigratorView {
        MigratorView {
            migrations: migrations_view(self.migrations@),
            phase: match self.phase {
                Phase::CreatingTable => PhaseView::CreatingTable,
                Phase::Checking { at } => PhaseView::Checking { at: at as int },
                Phase::Applying { at, .. } => PhaseView::Applying { at: at as int },
                Phase::Recording { at, elapsed_millis, .. } => {
                    PhaseView::Recording { at: at as int, elapsed_millis }
                },
                Phase::RecordingFailure { at, reason, .. } => {
                    PhaseView::RecordingFailure { at: at as int, reason: reason@ }
                },
                Phase::Finished { result } => PhaseView::Finished { result: result_view(result) },
            },
        }
    }
}

/// A copy of the bytes of `bytes`.
fn copy_bytes(bytes: &Vec<u8>) -> (copy: Vec<u8>)
    ensures
        copy@ == bytes@,
{
    let mut copy: Vec<u8> = Vec::new();
    let mut i: usize = 0;
    while i < bytes.len()
        invariant
            i <= bytes@.len(),
            copy@ == bytes@.take(i as int),
        decreases bytes@.len() - i,
    {
        copy.push(bytes[i]);
        i = i + 1;
        assert(copy@ =~= bytes@.take(i as int));
    }
    assert(copy@ =~= bytes@);
    copy
}

impl Migrator {
    #[verifier::type_invariant]
    spec fn inv(self) -> bool {
        &&& self@.wf()
        &&& all_hashable(self@.migrations)
        &&& match self.phase {
            Phase::Applying { at, checksum } => checksum@ == checksum_of(
                self@.migrations[at as int].sql,
            ),
            Phase::Recording { at, checksum, .. } => checksum@ == checksum_of(
                self@.migrations[at as int].sql,
            ),
            Phase::RecordingFailure { at, checksum, .. } => checksum@ == checksum_of(
                self@.migrations[at as int].sql,
            ),
            _ => true,
        }
    }

    /// Begins to apply `migrations`.
    pub fn new(migrations: Vec<EmbeddedMigration>) -> (migrator: Migrator)
        requires
            all_hashable(migrations_view(migrations@)),
        ensures
            migrator@ == MigratorView::start(migrations_view(migrations@)),
    {
        Migrator { migrations, phase: Phase::CreatingTable }
    }

    /// The statement to send next; none once the migrator has finished.
    pub fn pending(&self) -> (statement: Option<Statement>)
        ensures
            statement is Some <==> self@.pending() is Some,
            statement matches Some(sent) ==> Some(sent@) == self@.pending(),
    {
        proof {
            use_type_invariant(self);
        }
        match &self.phase {
            Phase::CreatingTable => Some(build_create_table()),
            Phase::Checking { at } => Some(build_exists(self.migrations[*at].version)),
            Phase::Applying { at, .. } => Some(build_apply(&self.migrations[*at])),
            Phase::Recording { at, checksum, elapsed_millis } => Some(
                applied_record(
                    &self.migrations[*at],
                    copy_bytes(checksum),
                    execution_time(*elapsed_millis),
                ),
            ),
            Phase::RecordingFailure { at, checksum, .. } => Some(
                failed_record(&self.migrations[*at], copy_bytes(checksum)),
            ),
            Phase::Finished { .. } => None,
        }
    }

    /// Takes the reply to the pending statement.
    pub fn resume(self, reply: Reply) -> (migrator: Migrator)
        requires
            self@.fits(reply@),
        ensures
            migrator@ == self@.next(reply@),
    {
        proof {
            use_type_invariant(&self);
        }
        let ghost before = self@;
        let migrations = self.migrations;
        let count = migrations.len();
        let phase = match self.phase {
            Phase::CreatingTable => match reply {
                Reply::Failed { reason } => Phase::Finished {
                    result: Err(DatabaseError::Backend { reason }),
                },
                _ => if count > 0 {
                    Phase::Checking { at: 0 }
                } else {
                    Phase::Finished { result: Ok(()) }
                },
            },
            Phase::Checking { at } => match reply {
                Reply::Answer(false) => {
                    assert(hashable(before.migrations[at as int].sql));
                    Phase::Applying { at, checksum: checksum(migrations[at].sql.as_str()) }
                },
                Reply::Failed { reason } => Phase::Finished {
                    result: Err(DatabaseError::Backend { reason }),
                },
                _ => if at + 1 < count {
                    Phase::Checking { at: at + 1 }
                } else {
                    Phase::Finished { result: Ok(()) }
                },
            },
            Phase::Applying { at, checksum } => match reply {
                Reply::Applied { elapsed_millis } => {
                    Phase::Recording { at, checksum, elapsed_millis }
                },
                Reply::Failed { reason } => Phase::RecordingFailure { at, checksum, reason },
                _ => Phase::Applying { at, checksum },
            },
            Phase::Recording { at, .. } => match reply {
                Reply::Failed { reason } => Phase::Finished {
                    result: Err(DatabaseError::Backend { reason }),
                },
                _ => if at + 1 < count {
                    Phase::Checking { at: at + 1 }
                } else {
                    Phase::Finished { result: Ok(()) }
                },
            },
            Phase::RecordingFailure { at, reason, .. } => Phase::Finished {
                result: Err(
                    DatabaseError::MigrationFailed {
                        description: migrations[at].description.to_owned(),
                        reason,
                    },
                ),
            },
            Phase::Finished { result } => Phase::Finished { result },
        };
        Migrator { migrations, phase }
    }

    /// What the migrator came to; none while a statement is pending.
    pub fn result(self) -> (result: Option<Result<(), DatabaseError>>)
        ensures
            match self@.phase {
                PhaseView::Finished { result: reported } => result is Some && result_view(
                    result->0,
                ) == reported,
                _ => result is None,
            },
    {
        match self.phase {
            Phase::Finished { result } => Some(result),
            _ => None,
        }
    }
}

} // verus!
