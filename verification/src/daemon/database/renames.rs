//! Renames and categories that the user gave earlier, looked up for a session
//! before it is stored.
use vstd::prelude::*;
use crate::daemon::database::columns::{column_name, field, Column};
use crate::daemon::database::error::{DatabaseError, DatabaseErrorView};
use crate::daemon::database::statement::{
    params_view, Fetch, Statement, StatementView, Value, ValueView,
};
use crate::daemon::database::store::Table;
use crate::models::session::{text_view, Session, SessionView};

verus! {

/// A question to the store about a name that a session carries.
#[derive(Clone, Copy, Debug, PartialEq, Eq, Structural)]
pub enum Lookup {
    AppRename,
    BrowserPageTitleRename,
    BrowserPageTitleCategory,
    TerminalDirectoryRename,
    TerminalDirectoryCategory,
    EditorFilenameRename,
    EditorFilenameCategory,
    TmuxWindowNameRename,
    TmuxWindowNameCategory,
}

/// Every lookup, in the order in which they are made.
pub open spec fn lookups() -> Seq<Lookup> {
    seq![
        Lookup::AppRename,
        Lookup::BrowserPageTitleRename,
        Lookup::BrowserPageTitleCategory,
        Lookup::TerminalDirectoryRename,
        Lookup::TerminalDirectoryCategory,
        Lookup::EditorFilenameRename,
        Lookup::EditorFilenameCategory,
        Lookup::TmuxWindowNameRename,
        Lookup::TmuxWindowNameCategory,
    ]
}

/// The text that reads an application's rename.
pub open spec fn app_rename_sql() -> Seq<char> {
    "SELECT renamed_app_name FROM app_renames WHERE original_app_name = $1"@
}

/// The text that reads `target` from some session whose `key` column equals the
/// parameter and whose `target` is set.
pub open spec fn session_lookup_sql(key: Column, target: Column) -> Seq<char> {
    "SELECT "@ + column_name(target) + " FROM sessions WHERE "@ + column_name(key) + " = $1 AND "@
        + column_name(target) + " IS NOT NULL LIMIT 1"@
}

/// A query for at most one row, with one text parameter.
pub open spec fn text_query(sql: Seq<char>, text: Seq<char>) -> StatementView {
    StatementView {
        sql,
        params: seq![ValueView::Text(Some(text))],
        fetch: Fetch::Optional,
    }
}

/// The statement that reads the rename of the application `name`.
pub open spec fn app_rename_statement(name: Seq<char>) -> StatementView {
    text_query(app_rename_sql(), name)
}

/// The statement that reads `target` from some session with `text` in `key`.
pub open spec fn session_lookup_statement(key: Column, target: Column, text: Seq<char>) -> StatementView {
    text_query(session_lookup_sql(key, target), text)
}

/// The column that holds the name which `lookup` asks about.
pub open spec fn key_column(lookup: Lookup) -> Column {
    match lookup {
        Lookup::AppRename => Column::AppName,
        Lookup::BrowserPageTitleRename => Column::BrowserPageTitle,
        Lookup::BrowserPageTitleCategory => Column::BrowserPageTitle,
        Lookup::TerminalDirectoryRename => Column::TerminalDirectory,
        Lookup::TerminalDirectoryCategory => Column::TerminalDirectory,
        Lookup::EditorFilenameRename => Column::EditorFilename,
        Lookup::EditorFilenameCategory => Column::EditorFilename,
        Lookup::TmuxWindowNameRename => Column::TmuxWindowName,
        Lookup::TmuxWindowNameCategory => Column::TmuxWindowName,
    }
}

/// The column that holds the answer to `lookup`.
pub open spec fn target_column(lookup: Lookup) -> Column {
    match lookup {
        Lookup::AppRename => Column::AppName,
        Lookup::BrowserPageTitleRename => Column::BrowserPageTitleRenamed,
        Lookup::BrowserPageTitleCategory => Column::BrowserPageTitleCategory,
        Lookup::TerminalDirectoryRename => Column::TerminalDirectoryRenamed,
        Lookup::TerminalDirectoryCategory => Column::TerminalDirectoryCategory,
        Lookup::EditorFilenameRename => Column::EditorFilenameRenamed,
        Lookup::EditorFilenameCategory => Column::EditorFilenameCategory,
        Lookup::TmuxWindowNameRename => Column::TmuxWindowNameRenamed,
        Lookup::TmuxWindowNameCategory => Column::TmuxWindowNameCategory,
    }
}

/// The statement that asks `lookup` about the name `text`.
pub open spec fn lookup_statement(lookup: Lookup, text: Seq<char>) -> StatementView {
    match lookup {
        Lookup::AppRename => app_rename_statement(text),
        _ => session_lookup_statement(key_column(lookup), target_column(lookup), text),
    }
}

/// The name that `lookup` asks about; without one the lookup is skipped.
pub open spec fn lookup_key(session: SessionView, lookup: Lookup) -> Option<Seq<char>> {
    match lookup {
        Lookup::AppRename => Some(session.app_name),
        Lookup::BrowserPageTitleRename => session.browser_page_title,
        Lookup::BrowserPageTitleCategory => session.browser_page_title,
        Lookup::TerminalDirectoryRename => session.terminal_directory,
        Lookup::TerminalDirectoryCategory => session.terminal_directory,
        Lookup::EditorFilenameRename => session.editor_filename,
        Lookup::EditorFilenameCategory => session.editor_filename,
        Lookup::TmuxWindowNameRename => session.tmux_window_name,
        Lookup::TmuxWindowNameCategory => session.tmux_window_name,
    }
}

/// `session` with the answer to `lookup` noted: an application keeps its name
/// when it has no rename; every other answer, found or not, replaces what the
/// session had.
pub open spec fn noted(session: SessionView, lookup: Lookup, answer: Option<Seq<char>>) -> SessionView {
    match lookup {
        Lookup::AppRename => match answer {
            Some(name) => SessionView { app_name: name, ..session },
            None => session,
        },
        Lookup::BrowserPageTitleRename => SessionView { browser_page_title_renamed: answer, ..session },
        Lookup::BrowserPageTitleCategory => SessionView { browser_page_title_category: answer, ..session },
        Lookup::TerminalDirectoryRename => SessionView { terminal_directory_renamed: answer, ..session },
        Lookup::TerminalDirectoryCategory => SessionView { terminal_directory_category: answer, ..session },
        Lookup::EditorFilenameRename => SessionView { editor_filename_renamed: answer, ..session },
        Lookup::EditorFilenameCategory => SessionView { editor_filename_category: answer, ..session },
        Lookup::TmuxWindowNameRename => SessionView { tmux_window_name_renamed: answer, ..session },
        Lookup::TmuxWindowNameCategory => SessionView { tmux_window_name_category: answer, ..session },
    }
}

fn build_text_query(sql: String, text: &str) -> (statement: Statement)
    ensures
        statement@ == text_query(sql@, text@),
{
    let params: Vec<Value> = vec![Value::Text(Some(text.to_owned()))];
    assert(params_view(params@) =~= seq![ValueView::Text(Some(text@))]);
    Statement { sql, params, fetch: Fetch::Optional }
}

/// Builds [`app_rename_statement`].
pub(crate) fn build_app_rename(name: &str) -> (statement: Statement)
    ensures
        statement@ == app_rename_statement(name@),
{
    build_text_query(
        "SELECT renamed_app_name FROM app_renames WHERE original_app_name = $1".to_owned(),
        name,
    )
}

/// Builds [`session_lookup_statement`].
pub(crate) fn build_session_lookup(key: Column, target: Column, text: &str) -> (statement: Statement)
    ensures
        statement@ == session_lookup_statement(key, target, text@),
{
    let sql = "SELECT ".to_owned().concat(target.name()).concat(" FROM sessions WHERE ").concat(
        key.name(),
    ).concat(" = $1 AND ").concat(target.name()).concat(" IS NOT NULL LIMIT 1");
    build_text_query(sql, text)
}

impl Lookup {
    /// The lookup in place `i`.
    fn at(i: usize) -> (lookup: Lookup)
        requires
            i < lookups().len(),
        ensures
            lookup == lookups()[i as int],
    {
        match i {
            0 => Lookup::AppRename,
            1 => Lookup::BrowserPageTitleRename,
            2 => Lookup::BrowserPageTitleCategory,
            3 => Lookup::TerminalDirectoryRename,
            4 => Lookup::TerminalDirectoryCategory,
            5 => Lookup::EditorFilenameRename,
            6 => Lookup::EditorFilenameCategory,
            7 => Lookup::TmuxWindowNameRename,
            _ => Lookup::TmuxWindowNameCategory,
        }
    }

    /// The name that this lookup asks about.
    fn key(self, session: &Session) -> (key: Option<&str>)
        ensures
            key is Some <==> lookup_key(session@, self) is Some,
            key matches Some(text) ==> lookup_key(session@, self) == Some(text@),
    {
        let named: &Option<String> = match self {
            Lookup::AppRename => {
                return Some(session.app_name.as_str());
            },
            Lookup::BrowserPageTitleRename => &session.browser_page_title,
            Lookup::BrowserPageTitleCategory => &session.browser_page_title,
            Lookup::TerminalDirectoryRename => &session.terminal_directory,
            Lookup::TerminalDirectoryCategory => &session.terminal_directory,
            Lookup::EditorFilenameRename => &session.editor_filename,
            Lookup::EditorFilenameCategory => &session.editor_filename,
            Lookup::TmuxWindowNameRename => &session.tmux_window_name,
            Lookup::TmuxWindowNameCategory => &session.tmux_window_name,
        };
        match named {
            Some(text) => Some(text.as_str()),
            None => None,
        }
    }

    /// The statement that asks this lookup about the name `text`.
    pub fn statement(self, text: &str) -> (statement: Statement)
        ensures
            statement@ == lookup_statement(self, text@),
    {
        match self {
            Lookup::AppRename => build_app_rename(text),
            Lookup::BrowserPageTitleRename => build_session_lookup(
                Column::BrowserPageTitle,
                Column::BrowserPageTitleRenamed,
                text,
            ),
            Lookup::BrowserPageTitleCategory => build_session_lookup(
                Column::BrowserPageTitle,
                Column::BrowserPageTitleCategory,
                text,
            ),
            Lookup::TerminalDirectoryRename => build_session_lookup(
                Column::TerminalDirectory,
                Column::TerminalDirectoryRenamed,
                text,
            ),
            Lookup::TerminalDirectoryCategory => build_session_lookup(
                Column::TerminalDirectory,
                Column::TerminalDirectoryCategory,
                text,
            ),
            Lookup::EditorFilenameRename => build_session_lookup(
                Column::EditorFilename,
                Column::EditorFilenameRenamed,
                text,
            ),
            Lookup::EditorFilenameCategory => build_session_lookup(
                Column::EditorFilename,
                Column::EditorFilenameCategory,
                text,
            ),
            Lookup::TmuxWindowNameRename => build_session_lookup(
                Column::TmuxWindowName,
                Column::TmuxWindowNameRenamed,
                text,
            ),
            Lookup::TmuxWindowNameCategory => build_session_lookup(
                Column::TmuxWindowName,
                Column::TmuxWindowNameCategory,
                text,
            ),
        }
    }

    /// Notes the answer to this lookup in `session`.
    fn note(self, session: &mut Session, answer: Option<String>)
        ensures
            final(session)@ == noted(old(session)@, self, text_view(answer)),
    {
        match self {
            Lookup::AppRename => {
                if let Some(name) = answer {
                    session.app_name = name;
                }
            },
            Lookup::BrowserPageTitleRename => {
                session.browser_page_title_renamed = answer;
            },
            Lookup::BrowserPageTitleCategory => {
                session.browser_page_title_category = answer;
            },
            Lookup::TerminalDirectoryRename => {
                session.terminal_directory_renamed = answer;
            },
            Lookup::TerminalDirectoryCategory => {
                session.terminal_directory_category = answer;
            },
            Lookup::EditorFilenameRename => {
                session.editor_filename_renamed = answer;
            },
            Lookup::EditorFilenameCategory => {
                session.editor_filename_category = answer;
            },
            Lookup::TmuxWindowNameRename => {
                session.tmux_window_name_renamed = answer;
            },
            Lookup::TmuxWindowNameCategory => {
                session.tmux_window_name_category = answer;
            },
        }
    }
}

/// The first lookup from place `i` on that `session` has a name for, or their
/// number if there is none.
pub open spec fn first_from(session: SessionView, i: nat) -> nat
    decreases lookups().len() - i,
{
    if i >= lookups().len() {
        lookups().len()
    } else if lookup_key(session, lookups()[i as int]) is Some {
        i
    } else {
        first_from(session, i + 1)
    }
}

/// A session on its way through the lookups.
#[verifier::ext_equal]
pub struct RenamingView {
    pub session: SessionView,
    /// The place of the lookup that waits for its answer.
    pub at: nat,
    /// The error that ended the lookups.
    pub error: Option<Seq<char>>,
}

/// What came of a lookup: the name found, if any, or the error.
pub open spec fn answer_view(answer: Result<Option<String>, String>) -> Result<
    Option<Seq<char>>,
    Seq<char>,
> {
    match answer {
        Ok(found) => Ok(text_view(found)),
        Err(reason) => Err(reason@),
    }
}

impl RenamingView {
    /// `session` before its first lookup.
    pub open spec fn start(session: SessionView) -> RenamingView {
        RenamingView { session, at: first_from(session, 0), error: None }
    }

    /// The lookup that waits for its answer.
    pub open spec fn pending(self) -> Option<Lookup> {
        if self.error is None && self.at < lookups().len() {
            Some(lookups()[self.at as int])
        } else {
            None
        }
    }

    /// The pending lookup has a name to ask about.
    pub open spec fn wf(self) -> bool {
        &&& self.at <= lookups().len()
        &&& self.pending() matches Some(lookup) ==> lookup_key(self.session, lookup) is Some
    }

    /// The state after the pending lookup was answered.  An error ends the
    /// lookups; what was noted before it stays.
    pub open spec fn next(self, answer: Result<Option<Seq<char>>, Seq<char>>) -> RenamingView {
        match answer {
            Err(reason) => RenamingView { error: Some(reason), ..self },
            Ok(found) => {
                let session = noted(self.session, lookups()[self.at as int], found);
                RenamingView { session, at: first_from(session, self.at + 1), error: None }
            },
        }
    }

    /// What the lookups came to.
    pub open spec fn result(self) -> Result<(), DatabaseErrorView> {
        match self.error {
            Some(reason) => Err(DatabaseErrorView::Backend { reason }),
            None => Ok(()),
        }
    }
}

/// Looks up the renames and categories of one session.
pub struct Renaming {
    session: Session,
    at: usize,
    error: Option<String>,
}

impl View for Renaming {
    type V = RenamingView;

    closed spec fn view(&self) -> RenamingView {
        RenamingView {
            session: self.session@,
            at: self.at as nat,
            error: text_view(self.error),
        }
    }
}

/// The place of the first lookup from `start` on that `session` has a name for.
fn find_from(session: &Session, start: usize) -> (at: usize)
    requires
        start <= lookups().len(),
    ensures
        at == first_from(session@, start as nat),
        at <= lookups().len(),
        at < lookups().len() ==> lookup_key(session@, lookups()[at as int]) is Some,
{
    let mut at: usize = start;
    while at < 9
        invariant
            at <= lookups().len() == 9,
            first_from(session@, start as nat) == first_from(session@, at as nat),
        ensures
            at <= lookups().len() == 9,
            at == first_from(session@, start as nat),
            at < 9 ==> lookup_key(session@, lookups()[at as int]) is Some,
        decreases 9 - at,
    {
        match Lookup::at(at).key(session) {
            Some(_) => {
                break;
            },
            None => {
                at = at + 1;
            },
        }
    }
    at
}

impl Renaming {
    #[verifier::type_invariant]
    spec fn inv(self) -> bool {
        self@.wf()
    }

    /// Begins the lookups for `session`.
    pub(crate) fn new(session: Session) -> (renaming: Renaming)
        ensures
            renaming@ == RenamingView::start(session@),
    {
        let at = find_from(&session, 0);
        Renaming { session, at, error: None }
    }

    /// The statement to send next; none once the lookups are over.
    pub fn pending(&self) -> (statement: Option<Statement>)
        ensures
            statement is Some <==> self@.pending() is Some,
            statement matches Some(sent) ==> lookup_key(self@.session, self@.pending()->0) is Some
                && sent@ == lookup_statement(
                self@.pending()->0,
                lookup_key(self@.session, self@.pending()->0)->0,
            ),
    {
        proof {
            use_type_invariant(self);
        }
        if self.error.is_some() || self.at >= 9 {
            return None;
        }
        let lookup = Lookup::at(self.at);
        match lookup.key(&self.session) {
            Some(text) => Some(lookup.statement(text)),
            None => None,
        }
    }

    /// Takes the answer to the pending lookup: the row's only column, if there
    /// was a row, or the error.
    pub fn resume(self, answer: Result<Option<String>, String>) -> (renaming: Renaming)
        requires
            self@.pending() is Some,
        ensures
            renaming@ == self@.next(answer_view(answer)),
    {
        proof {
            use_type_invariant(&self);
        }
        match answer {
            Err(reason) => Renaming { session: self.session, at: self.at, error: Some(reason) },
            Ok(found) => {
                let mut session = self.session;
                Lookup::at(self.at).note(&mut session, found);
                let at = find_from(&session, self.at + 1);
                Renaming { session, at, error: None }
            },
        }
    }

    /// The session as far as the lookups have come.
    pub fn session(&self) -> (session: &Session)
        ensures
            session@ == self@.session,
    {
        &self.session
    }

    /// The session as far as the lookups came, and what they came to, once they
    /// are over.
    pub fn finish(self) -> (finished: (Session, Result<(), DatabaseError>))
        requires
            self@.pending() is None,
        ensures
            finished.0@ == self@.session,
            match finished.1 {
                Ok(done) => self@.result() == Ok::<(), DatabaseErrorView>(done),
                Err(error) => self@.result() == Err::<(), DatabaseErrorView>(error@),
            },
    {
        let result = match self.error {
            Some(reason) => Err(DatabaseError::Backend { reason }),
            None => Ok(()),
        };
        (self.session, result)
    }
}

/// `session` with the lookups before place `n` answered by `store` and noted.
pub open spec fn noted_up_to(
    session: SessionView,
    store: spec_fn(Lookup, Seq<char>) -> Option<Seq<char>>,
    n: nat,
) -> SessionView
    decreases n,
{
    if n == 0 {
        session
    } else {
        let before = noted_up_to(session, store, (n - 1) as nat);
        let lookup = lookups()[n - 1];
        match lookup_key(before, lookup) {
            Some(text) => noted(before, lookup, store(lookup, text)),
            None => before,
        }
    }
}

/// Where `renaming` comes when `store` answers every lookup.
pub open spec fn answered(
    renaming: RenamingView,
    store: spec_fn(Lookup, Seq<char>) -> Option<Seq<char>>,
    rounds: nat,
) -> RenamingView
    decreases rounds,
{
    match renaming.pending() {
        Some(lookup) if rounds > 0 => answered(
            renaming.next(Ok(store(lookup, lookup_key(renaming.session, lookup)->0))),
            store,
            (rounds - 1) as nat,
        ),
        _ => renaming,
    }
}

/// What `store` finds for a name that a session may carry; `kept` without one.
pub open spec fn found(
    store: spec_fn(Lookup, Seq<char>) -> Option<Seq<char>>,
    lookup: Lookup,
    name: Option<Seq<char>>,
    kept: Option<Seq<char>>,
) -> Option<Seq<char>> {
    match name {
        Some(text) => store(lookup, text),
        None => kept,
    }
}

/// `session` with the renames and categories that `store` holds for it.
pub open spec fn renamed(
    session: SessionView,
    store: spec_fn(Lookup, Seq<char>) -> Option<Seq<char>>,
) -> SessionView {
    SessionView {
        app_name: match store(Lookup::AppRename, session.app_name) {
            Some(name) => name,
            None => session.app_name,
        },
        browser_page_title_renamed: found(
            store,
            Lookup::BrowserPageTitleRename,
            session.browser_page_title,
            session.browser_page_title_renamed,
        ),
        browser_page_title_category: found(
            store,
            Lookup::BrowserPageTitleCategory,
            session.browser_page_title,
            session.browser_page_title_category,
        ),
        terminal_directory_renamed: found(
            store,
            Lookup::TerminalDirectoryRename,
            session.terminal_directory,
            session.terminal_directory_renamed,
        ),
        terminal_directory_category: found(
            store,
            Lookup::TerminalDirectoryCategory,
            session.terminal_directory,
            session.terminal_directory_category,
        ),
        editor_filename_renamed: found(
            store,
            Lookup::EditorFilenameRename,
            session.editor_filename,
            session.editor_filename_renamed,
        ),
        editor_filename_category: found(
            store,
            Lookup::EditorFilenameCategory,
            session.editor_filename,
            session.editor_filename_category,
        ),
        tmux_window_name_renamed: found(
            store,
            Lookup::TmuxWindowNameRename,
            session.tmux_window_name,
            session.tmux_window_name_renamed,
        ),
        tmux_window_name_category: found(
            store,
            Lookup::TmuxWindowNameCategory,
            session.tmux_window_name,
            session.tmux_window_name_category,
        ),
        ..session
    }
}

/// Lookups that are skipped note nothing.
proof fn lemma_skipped(
    session: SessionView,
    store: spec_fn(Lookup, Seq<char>) -> Option<Seq<char>>,
    i: nat,
)
    requires
        i <= lookups().len(),
    ensures
        ({
            let before = noted_up_to(session, store, i);
            let j = first_from(before, i);
            &&& i <= j <= lookups().len()
            &&& noted_up_to(session, store, j) == before
            &&& j < lookups().len() ==> lookup_key(before, lookups()[j as int]) is Some
        }),
    decreases lookups().len() - i,
{
    let before = noted_up_to(session, store, i);
    if i < lookups().len() && lookup_key(before, lookups()[i as int]) is None {
        assert(noted_up_to(session, store, i + 1) == before);
        lemma_skipped(session, store, i + 1);
    }
}

proof fn lemma_answered(
    session: SessionView,
    store: spec_fn(Lookup, Seq<char>) -> Option<Seq<char>>,
    renaming: RenamingView,
    rounds: nat,
)
    requires
        renaming.wf(),
        renaming.error is None,
        renaming.session == noted_up_to(session, store, renaming.at),
    ensures
        ({
            let after = answered(renaming, store, rounds);
            &&& after.wf()
            &&& after.error is None
            &&& after.session == noted_up_to(session, store, after.at)
            &&& rounds >= lookups().len() - renaming.at ==> after.at == lookups().len()
        }),
    decreases rounds,
{
    if rounds > 0 && renaming.pending() is Some {
        let lookup = renaming.pending()->0;
        let text = lookup_key(renaming.session, lookup)->0;
        let next = renaming.next(Ok(store(lookup, text)));
        assert(noted_up_to(session, store, renaming.at + 1) == next.session);
        lemma_skipped(session, store, renaming.at + 1);
        lemma_answered(session, store, next, (rounds - 1) as nat);
    }
}

/// However many lookups have been answered, the session carries the answers to
/// exactly those before the pending one, noted in order; a lookup that fails
/// then ends the work, reports the error and leaves the session as it is.
pub proof fn law_failed_lookup_keeps_earlier_answers(
    session: SessionView,
    store: spec_fn(Lookup, Seq<char>) -> Option<Seq<char>>,
    rounds: nat,
    reason: Seq<char>,
)
    ensures
        ({
            let reached = answered(RenamingView::start(session), store, rounds);
            let failed = reached.next(Err(reason));
            &&& reached.wf()
            &&& reached.session == noted_up_to(session, store, reached.at)
            &&& failed.session == reached.session
            &&& failed.pending() is None
            &&& failed.result() == Err::<(), DatabaseErrorView>(
                DatabaseErrorView::Backend { reason },
            )
        }),
{
    lemma_skipped(session, store, 0);
    lemma_answered(session, store, RenamingView::start(session), rounds);
}

/// When every lookup is answered the work ends without error, and the session
/// carries the renames and categories that the store holds for it; the rest of
/// it is untouched.
pub proof fn law_renaming_applies_the_store(
    session: SessionView,
    store: spec_fn(Lookup, Seq<char>) -> Option<Seq<char>>,
)
    ensures
        ({
            let done = answered(RenamingView::start(session), store, lookups().len());
            &&& done.pending() is None
            &&& done.result() == Ok::<(), DatabaseErrorView>(())
            &&& done.session == renamed(session, store)
        }),
{
    lemma_skipped(session, store, 0);
    lemma_answered(session, store, RenamingView::start(session), lookups().len());
    reveal_with_fuel(noted_up_to, 10);
    assert(noted_up_to(session, store, 9) == renamed(session, store));
}

/// A lookup asks about what the session holds in the key column, its answer lands
/// in the target column, and no other column changes; an application without a
/// rename keeps its name.
pub proof fn law_answer_lands_in_its_column(
    session: SessionView,
    lookup: Lookup,
    answer: Option<Seq<char>>,
    column: Column,
)
    ensures
        field(session, key_column(lookup)) == ValueView::Text(lookup_key(session, lookup)),
        noted(session, lookup, answer).id == session.id,
        field(noted(session, lookup, answer), column) == if column == target_column(lookup) && (
        lookup != Lookup::AppRename || answer is Some) {
            ValueView::Text(answer)
        } else {
            field(session, column)
        },
{
}

/// A table of sessions may answer `lookup`, other than that of an application,
/// about the name `text` in this way: with the target of some row that holds the
/// name and has a target, or with nothing if there is no such row.
pub open spec fn table_answers(
    table: Table,
    lookup: Lookup,
    text: Seq<char>,
    answer: Option<Seq<char>>,
) -> bool {
    match answer {
        Some(found) => exists|key: i32| #[trigger]
            table.contains_key(key) && table[key][key_column(lookup)] == ValueView::Text(Some(text))
                && table[key][target_column(lookup)] == ValueView::Text(Some(found)),
        None => forall|key: i32| #[trigger]
            table.contains_key(key) && table[key][key_column(lookup)] == ValueView::Text(Some(text))
                ==> table[key][target_column(lookup)] == ValueView::Text(None),
    }
}

/// A rename or category that a session left in the table is found for the next
/// session with the same name: the lookup is answered, and the answer is the one
/// stored if no other row gives that name another.
pub proof fn law_stored_answer_is_found(
    table: Table,
    at: i32,
    stored: SessionView,
    session: SessionView,
    lookup: Lookup,
    text: Seq<char>,
    given: Seq<char>,
    answer: Option<Seq<char>>,
)
    requires
        lookup != Lookup::AppRename,
        table.contains_key(at),
        forall|column: Column|
            column != Column::StartTime ==> #[trigger] table[at][column] == field(stored, column),
        lookup_key(stored, lookup) == Some(text),
        field(stored, target_column(lookup)) == ValueView::Text(Some(given)),
        lookup_key(session, lookup) == Some(text),
        table_answers(table, lookup, text, answer),
    ensures
        answer is Some,
        field(noted(session, lookup, answer), target_column(lookup)) == ValueView::Text(answer),
        (forall|key: i32| #[trigger]
            table.contains_key(key) && table[key][key_column(lookup)] == ValueView::Text(Some(text))
                ==> table[key][target_column(lookup)] == ValueView::Text(None)
                || table[key][target_column(lookup)] == ValueView::Text(Some(given))) ==> answer
            == Some(given),
{
    law_answer_lands_in_its_column(stored, lookup, answer, target_column(lookup));
    law_answer_lands_in_its_column(session, lookup, answer, target_column(lookup));
    assert(table[at][key_column(lookup)] == field(stored, key_column(lookup)));
    assert(table[at][target_column(lookup)] == field(stored, target_column(lookup)));
}

/// The `app_renames` table: each application's new name by its own.
pub type AppRenames = Map<Seq<char>, Seq<char>>;

/// What the `app_renames` table answers about the application `name`: the rename
/// under exactly that name, or nothing.
pub open spec fn app_rename_answer(renames: AppRenames, name: Seq<char>) -> Option<Seq<char>> {
    if renames.contains_key(name) {
        Some(renames[name])
    } else {
        None
    }
}

/// `store` answers every lookup from these two tables.
pub open spec fn reads_tables(
    store: spec_fn(Lookup, Seq<char>) -> Option<Seq<char>>,
    renames: AppRenames,
    table: Table,
) -> bool {
    forall|lookup: Lookup, text: Seq<char>|
        if lookup == Lookup::AppRename {
            #[trigger] store(lookup, text) == app_rename_answer(renames, text)
        } else {
            table_answers(table, lookup, text, store(lookup, text))
        }
}

/// Looking a session up in the two tables gives its application the rename under
/// exactly its name, if there is one, and leaves the name as it is otherwise.  Each
/// other lookup for which the session has a name leaves, in its target column, an
/// answer that the sessions' table gives; one without a name changes nothing.
pub proof fn law_renaming_reads_the_tables(
    session: SessionView,
    store: spec_fn(Lookup, Seq<char>) -> Option<Seq<char>>,
    renames: AppRenames,
    table: Table,
    lookup: Lookup,
)
    requires
        reads_tables(store, renames, table),
        lookup != Lookup::AppRename,
    ensures
        ({
            let done = answered(RenamingView::start(session), store, lookups().len());
            &&& done.pending() is None
            &&& done.session.app_name == if renames.contains_key(session.app_name) {
                renames[session.app_name]
            } else {
                session.app_name
            }
            &&& match lookup_key(session, lookup) {
                Some(text) => exists|answer: Option<Seq<char>>| #[trigger]
                    table_answers(table, lookup, text, answer) && field(
                        done.session,
                        target_column(lookup),
                    ) == ValueView::Text(answer),
                None => field(done.session, target_column(lookup)) == field(
                    session,
                    target_column(lookup),
                ),
            }
        }),
{
    law_renaming_applies_the_store(session, store);
    assert(store(Lookup::AppRename, session.app_name) == app_rename_answer(
        renames,
        session.app_name,
    ));
    let done = answered(RenamingView::start(session), store, lookups().len());
    if let Some(text) = lookup_key(session, lookup) {
        let answer = store(lookup, text);
        assert(table_answers(table, lookup, text, answer));
        assert(field(done.session, target_column(lookup)) == ValueView::Text(answer));
    }
}

} // verus!
