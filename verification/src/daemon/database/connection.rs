//! The connection to the session store.
//!
//! Several processes may open the store, but only the one that holds the writer
//! lock records sessions and migrates the schema; the others read.
use vstd::prelude::*;
use crate::daemon::database::columns::{field, Column};
use crate::daemon::database::error::{DatabaseError, DatabaseErrorView};
use crate::daemon::database::migrations::{migrations_view, EmbeddedMigration};
use crate::daemon::database::migrator::{all_hashable, Migrator, MigratorView};
use crate::daemon::database::renames::{
    app_rename_statement, build_app_rename, build_session_lookup, session_lookup_statement,
    Renaming, RenamingView,
};
use crate::daemon::database::startup::{Startup, StartupView};
use crate::daemon::database::statement::{
    params_view, Fetch, Statement, StatementView, Value, ValueView,
};
use crate::daemon::database::store::{
    build_insert, build_update, insert_statement, law_insert_adds_one_row,
    law_insert_stores_every_field, law_update_keeps_start_time, law_update_overwrites_one_row,
    table_after_insert, table_after_update, update_statement, Table,
};
use crate::models::session::{Session, SessionView};

verus! {

/// The key of the advisory lock that the writing process holds.
pub const WRITER_LOCK_KEY: i64 = 0x485553544C455452;

/// An open store: `P` is the connection pool, `C` a connection taken from it.
pub struct Database<P, C> {
    pool: P,
    // Holding this connection keeps the session-level advisory lock alive.
    // PostgreSQL releases the lock when the connection closes.
    _writer_lock: Option<C>,
    is_writer: bool,
}

/// What a [`Database`] holds.
pub struct DatabaseView<P, C> {
    pub pool: P,
    pub writer_lock: Option<C>,
    pub is_writer: bool,
}

impl<P, C> View for Database<P, C> {
    type V = DatabaseView<P, C>;

    closed spec fn view(&self) -> DatabaseView<P, C> {
        DatabaseView {
            pool: self.pool,
            writer_lock: self._writer_lock,
            is_writer: self.is_writer,
        }
    }
}

/// The store that is open once the lock was asked for on `connection`: the
/// connection is kept if it holds the lock and given back otherwise.
pub open spec fn opened<P, C>(pool: P, connection: C, granted: bool) -> DatabaseView<P, C> {
    DatabaseView {
        pool,
        writer_lock: if granted {
            Some(connection)
        } else {
            None
        },
        is_writer: granted,
    }
}

/// The statement that asks for the writer lock.
pub open spec fn lock_statement() -> StatementView {
    StatementView {
        sql: "SELECT pg_try_advisory_lock($1)"@,
        params: seq![ValueView::Int8(Some(WRITER_LOCK_KEY))],
        fetch: Fetch::One,
    }
}

/// Builds [`lock_statement`].
pub(crate) fn build_lock() -> (statement: Statement)
    ensures
        statement@ == lock_statement(),
{
    let params: Vec<Value> = vec![Value::Int8(Some(WRITER_LOCK_KEY))];
    assert(params_view(params@) =~= seq![ValueView::Int8(Some(WRITER_LOCK_KEY))]);
    Statement { sql: "SELECT pg_try_advisory_lock($1)".to_owned(), params, fetch: Fetch::One }
}

/// How a session is to be stored.
#[derive(Clone, Debug, PartialEq, Eq)]
pub enum Storing {
    /// Its row is to be overwritten.
    Update { id: i32, statement: Statement },
    /// It gets a new row, whose key the statement returns.
    Insert { statement: Statement },
}

/// What a [`Storing`] says.
#[verifier::ext_equal]
pub enum StoringView {
    Update { id: i32, statement: StatementView },
    Insert { statement: StatementView },
}

impl View for Storing {
    type V = StoringView;

    open spec fn view(&self) -> StoringView {
        match *self {
            Storing::Update { id, statement } => StoringView::Update { id, statement: statement@ },
            Storing::Insert { statement } => StoringView::Insert { statement: statement@ },
        }
    }
}

/// What came of storing a session.
#[derive(Clone, Debug, PartialEq, Eq)]
pub enum StoringReply {
    /// The row was overwritten.
    Updated,
    /// A row with this key was added.
    Inserted { id: i32 },
    /// The statement failed.
    Failed { reason: String },
}

/// `reply` is one that the statement of `storing` can get.
pub open spec fn storing_fits(storing: StoringView, reply: StoringReply) -> bool {
    match reply {
        StoringReply::Updated => storing is Update,
        StoringReply::Inserted { .. } => storing is Insert,
        StoringReply::Failed { .. } => true,
    }
}

/// How a store that may write stores `session`: anew under its key if it has
/// one, as a new row otherwise.
pub open spec fn storing_of(session: SessionView) -> StoringView {
    match session.id {
        Some(id) => StoringView::Update { id, statement: update_statement(session, id) },
        None => StoringView::Insert { statement: insert_statement(session) },
    }
}

impl Storing {
    /// The key of the stored session, once its statement was answered.
    pub fn stored_id(&self, reply: StoringReply) -> (result: Result<i32, DatabaseError>)
        requires
            storing_fits(self@, reply),
        ensures
            match (self@, reply) {
                (_, StoringReply::Failed { reason }) => result is Err && result->Err_0@
                    == (DatabaseErrorView::Backend { reason: reason@ }),
                (StoringView::Update { id, .. }, _) => result == Ok::<i32, DatabaseError>(id),
                (_, StoringReply::Inserted { id }) => result == Ok::<i32, DatabaseError>(id),
                _ => false,
            },
    {
        match reply {
            StoringReply::Failed { reason } => Err(DatabaseError::Backend { reason }),
            StoringReply::Inserted { id } => Ok(id),
            StoringReply::Updated => match self {
                Storing::Update { id, .. } => Ok(*id),
                Storing::Insert { .. } => Err(DatabaseError::MissingId),
            },
        }
    }
}

impl<P, C> Database<P, C> {
    #[verifier::type_invariant]
    spec fn inv(self) -> bool {
        self.is_writer <==> self._writer_lock is Some
    }

    /// Begins to open the store at `database_url`.
    pub fn new(database_url: &str, migrations: Vec<EmbeddedMigration>) -> (startup: Startup<P, C>)
        requires
            all_hashable(migrations_view(migrations@)),
        ensures
            startup@ == (StartupView::<P, C>::Connecting {
                url: database_url@,
                migrations: migrations_view(migrations@),
            }),
    {
        Startup::start(database_url, migrations)
    }

    /// The store that is open once the lock was asked for on `lock_connection`.
    pub(crate) fn open(pool: P, lock_connection: C, is_writer: bool) -> (database: Self)
        ensures
            database@ == opened(pool, lock_connection, is_writer),
    {
        Database {
            pool,
            _writer_lock: if is_writer {
                Some(lock_connection)
            } else {
                None
            },
            is_writer,
        }
    }

    /// The connection pool.
    pub fn pool(&self) -> (pool: &P)
        ensures
            *pool == self@.pool,
    {
        &self.pool
    }

    /// Whether this process records: it holds the writer lock.
    pub fn is_writer(&self) -> (is_writer: bool)
        ensures
            is_writer == self@.is_writer,
            is_writer == self@.writer_lock is Some,
    {
        proof {
            use_type_invariant(self);
        }
        self.is_writer
    }

    /// Begins to bring the schema up to date.
    pub fn run_migrations(migrations: Vec<EmbeddedMigration>) -> (migrator: Migrator)
        requires
            all_hashable(migrations_view(migrations@)),
        ensures
            migrator@ == MigratorView::start(migrations_view(migrations@)),
    {
        Migrator::new(migrations)
    }

    /// The query for the rename that some stored session gives the page title
    /// `title`.  Its row, if there is one, holds the rename alone.
    pub fn get_browser_page_title_rename(&self, title: &str) -> (statement: Statement)
        ensures
            statement@ == session_lookup_statement(
                Column::BrowserPageTitle,
                Column::BrowserPageTitleRenamed,
                title@,
            ),
    {
        build_session_lookup(Column::BrowserPageTitle, Column::BrowserPageTitleRenamed, title)
    }

    /// The query for the category that some stored session gives the page title
    /// `title`.  Its row, if there is one, holds the category alone.
    pub fn get_browser_page_title_category(&self, title: &str) -> (statement: Statement)
        ensures
            statement@ == session_lookup_statement(
                Column::BrowserPageTitle,
                Column::BrowserPageTitleCategory,
                title@,
            ),
    {
        build_session_lookup(Column::BrowserPageTitle, Column::BrowserPageTitleCategory, title)
    }

    /// The query for the rename that some stored session gives the terminal directory
    /// `dir`.  Its row, if there is one, holds the rename alone.
    pub fn get_terminal_directory_rename(&self, dir: &str) -> (statement: Statement)
        ensures
            statement@ == session_lookup_statement(
                Column::TerminalDirectory,
                Column::TerminalDirectoryRenamed,
                dir@,
            ),
    {
        build_session_lookup(Column::TerminalDirectory, Column::TerminalDirectoryRenamed, dir)
    }

    /// The query for the category that some stored session gives the terminal directory
    /// `dir`.  Its row, if there is one, holds the category alone.
    pub fn get_terminal_directory_category(&self, dir: &str) -> (statement: Statement)
        ensures
            statement@ == session_lookup_statement(
                Column::TerminalDirectory,
                Column::TerminalDirectoryCategory,
                dir@,
            ),
    {
        build_session_lookup(Column::TerminalDirectory, Column::TerminalDirectoryCategory, dir)
    }

    /// The query for the rename that some stored session gives the editor file
    /// `filename`.  Its row, if there is one, holds the rename alone.
    pub fn get_editor_filename_rename(&self, filename: &str) -> (statement: Statement)
        ensures
            statement@ == session_lookup_statement(
                Column::EditorFilename,
                Column::EditorFilenameRenamed,
                filename@,
            ),
    {
        build_session_lookup(Column::EditorFilename, Column::EditorFilenameRenamed, filename)
    }

    /// The query for the category that some stored session gives the editor file
    /// `filename`.  Its row, if there is one, holds the category alone.
    pub fn get_editor_filename_category(&self, filename: &str) -> (statement: Statement)
        ensures
            statement@ == session_lookup_statement(
                Column::EditorFilename,
                Column::EditorFilenameCategory,
                filename@,
            ),
    {
        build_session_lookup(Column::EditorFilename, Column::EditorFilenameCategory, filename)
    }

    /// The query for the rename that some stored session gives the tmux window
    /// `name`.  Its row, if there is one, holds the rename alone.
    pub fn get_tmux_window_name_rename(&self, name: &str) -> (statement: Statement)
        ensures
            statement@ == session_lookup_statement(
                Column::TmuxWindowName,
                Column::TmuxWindowNameRenamed,
                name@,
            ),
    {
        build_session_lookup(Column::TmuxWindowName, Column::TmuxWindowNameRenamed, name)
    }

    /// The query for the category that some stored session gives the tmux window
    /// `name`.  Its row, if there is one, holds the category alone.
    pub fn get_tmux_window_name_category(&self, name: &str) -> (statement: Statement)
        ensures
            statement@ == session_lookup_statement(
                Column::TmuxWindowName,
                Column::TmuxWindowNameCategory,
                name@,
            ),
    {
        build_session_lookup(Column::TmuxWindowName, Column::TmuxWindowNameCategory, name)
    }

    /// The query for the rename of the application `original_app_name`.  Its
    /// row, if there is one, holds the rename alone.
    pub fn get_app_rename(&self, original_app_name: &str) -> (statement: Statement)
        ensures
            statement@ == app_rename_statement(original_app_name@),
    {
        build_app_rename(original_app_name)
    }

    /// Begins to look up the renames and categories for `session`.
    pub fn apply_renames_and_categories(&self, session: Session) -> (renaming: Renaming)
        ensures
            renaming@ == RenamingView::start(session@),
    {
        Renaming::new(session)
    }

    /// The statement that stores `session` in a new row and returns the row's
    /// key.  Refused without the writer lock.
    pub fn insert_session(&self, session: &Session) -> (result: Result<Statement, DatabaseError>)
        ensures
            match result {
                Ok(statement) => self@.is_writer && statement@ == insert_statement(session@),
                Err(error) => !self@.is_writer && error@ == DatabaseErrorView::ReadOnly,
            },
    {
        if !self.is_writer {
            return Err(DatabaseError::ReadOnly);
        }
        Ok(build_insert(session))
    }

    /// The statement that overwrites the row of `session`.  Refused without the
    /// writer lock, and for a session without a key.
    pub fn update_session(&self, session: &Session) -> (result: Result<Statement, DatabaseError>)
        ensures
            match result {
                Ok(statement) => self@.is_writer && session.id is Some && statement@
                    == update_statement(session@, session.id->0),
                Err(DatabaseError::ReadOnly) => !self@.is_writer,
                Err(DatabaseError::MissingId) => self@.is_writer && session.id is None,
                Err(_) => false,
            },
    {
        if !self.is_writer {
            return Err(DatabaseError::ReadOnly);
        }
        match session.id {
            Some(id) => Ok(build_update(session, id)),
            None => Err(DatabaseError::MissingId),
        }
    }

    /// How `session` is to be stored: over its row if it has one, in a new row
    /// otherwise.  Refused without the writer lock.
    pub fn persist_session(&self, session: &Session) -> (result: Result<Storing, DatabaseError>)
        ensures
            match result {
                Ok(storing) => self@.is_writer && storing@ == storing_of(session@),
                Err(error) => !self@.is_writer && error@ == DatabaseErrorView::ReadOnly,
            },
    {
        if let Some(id) = session.id {
            match self.update_session(session) {
                Ok(statement) => Ok(Storing::Update { id, statement }),
                Err(error) => Err(error),
            }
        } else {
            match self.insert_session(session) {
                Ok(statement) => Ok(Storing::Insert { statement }),
                Err(error) => Err(error),
            }
        }
    }
}

/// The table after `storing` was carried out; `fresh` is the key that PostgreSQL
/// chooses for a new row.
pub open spec fn table_after_storing(table: Table, storing: StoringView, fresh: i32) -> Table {
    match storing {
        StoringView::Update { statement, .. } => table_after_update(table, statement.params),
        StoringView::Insert { statement } => table_after_insert(table, statement.params, fresh),
    }
}

/// Persisting a session leaves it in the row with the key that is reported: its
/// own if it has one, the fresh one otherwise.  The row holds every field, except
/// that an overwritten row keeps its start time; no other row changes.
pub proof fn law_persisted_session_is_stored(
    table: Table,
    session: SessionView,
    fresh: i32,
    column: Column,
    other: i32,
)
    requires
        !table.contains_key(fresh),
        session.id matches Some(id) ==> table.contains_key(id) && table[id].contains_key(column),
    ensures
        ({
            let after = table_after_storing(table, storing_of(session), fresh);
            let key = match session.id {
                Some(id) => id,
                None => fresh,
            };
            &&& after.contains_key(key)
            &&& after[key].contains_key(column)
            &&& after[key][column] == if session.id is Some && column == Column::StartTime {
                table[key][column]
            } else {
                field(session, column)
            }
            &&& after.dom() == table.dom().insert(key)
            &&& other != key && table.contains_key(other) ==> after[other] == table[other]
        }),
{
    match session.id {
        Some(id) => {
            law_update_overwrites_one_row(table, session, id);
            law_update_keeps_start_time(table[id], session, column);
            assert(table.dom().insert(id) =~= table.dom());
        },
        None => {
            law_insert_adds_one_row(table, session, fresh);
            law_insert_stores_every_field(session, column);
        },
    }
}

} // verus!
