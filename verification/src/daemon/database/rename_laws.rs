//! What looking up renames and categories does: what PostgreSQL makes of the
//! questions, and what the answers make of a session.
use vstd::prelude::*;
use crate::daemon::database::columns::{column_name, Column};
use crate::daemon::database::connection::Database;
use crate::daemon::database::error::DatabaseError;
use crate::daemon::database::renames::{
    app_rename_sql, app_rename_statement, first_from, key_column, lookup_key, lookup_statement,
    lookups, noted, session_lookup_sql, session_lookup_statement, target_column, Lookup, Renaming,
    RenamingView,
};
use crate::daemon::database::session_laws::lemma_same_statement;
use crate::daemon::database::sql::{
    agree, is_null, is_placeholder, is_text, is_word_char,
    lemma_next_spaces, lemma_next_word, lemma_next_symbol, lemma_tokens_add, may_answer, number,
    parameter, picks, reads_from, same_statement, spaces, tokens, wordy, Row,
};
use crate::daemon::database::sql_texts::{
    lemma_column_word, lemma_first_parameter_and, lemma_from_sessions, lemma_is_set, lemma_select,
};
use crate::daemon::database::statement::{params_view, Fetch, Statement, Value, ValueView};
use crate::models::session::{text_view, Session, SessionView};

verus! {

/// `a` and `b` are the same optional text.
pub open spec fn same_text(a: Option<String>, b: Option<String>) -> bool {
    match (a, b) {
        (Some(s), Some(t)) => s@ == t@,
        (None, None) => true,
        _ => false,
    }
}

/// `a` and `b` agree in everything but the name of the application and the renames
/// and categories.
pub open spec fn same_but_renames(a: Session, b: Session) -> bool {
    &&& a.id == b.id
    &&& a.start_time == b.start_time
    &&& a.duration == b.duration
    &&& a.browser_notification_count == b.browser_notification_count
    &&& a.tmux_pane_count == b.tmux_pane_count
    &&& a.parsing_success == b.parsing_success
    &&& a.is_afk == b.is_afk
    &&& a.is_idle == b.is_idle
    &&& a.idle_accumulation_secs == b.idle_accumulation_secs
    &&& same_text(a.window_name, b.window_name)
    &&& same_text(a.category, b.category)
    &&& same_text(a.browser_url, b.browser_url)
    &&& same_text(a.browser_page_title, b.browser_page_title)
    &&& same_text(a.terminal_username, b.terminal_username)
    &&& same_text(a.terminal_hostname, b.terminal_hostname)
    &&& same_text(a.terminal_directory, b.terminal_directory)
    &&& same_text(a.terminal_project_name, b.terminal_project_name)
    &&& same_text(a.editor_filename, b.editor_filename)
    &&& same_text(a.editor_filepath, b.editor_filepath)
    &&& same_text(a.editor_project_path, b.editor_project_path)
    &&& same_text(a.editor_language, b.editor_language)
    &&& same_text(a.tmux_window_name, b.tmux_window_name)
    &&& same_text(a.terminal_multiplexer, b.terminal_multiplexer)
    &&& same_text(a.ide_project_name, b.ide_project_name)
    &&& same_text(a.ide_file_open, b.ide_file_open)
    &&& same_text(a.ide_workspace, b.ide_workspace)
    &&& same_text(a.parsed_data, b.parsed_data)
}

/// `a` and `b` are the same session.
pub open spec fn same_session(a: Session, b: Session) -> bool {
    &&& same_but_renames(a, b)
    &&& a.app_name@ == b.app_name@
    &&& same_text(a.browser_page_title_renamed, b.browser_page_title_renamed)
    &&& same_text(a.browser_page_title_category, b.browser_page_title_category)
    &&& same_text(a.terminal_directory_renamed, b.terminal_directory_renamed)
    &&& same_text(a.terminal_directory_category, b.terminal_directory_category)
    &&& same_text(a.editor_filename_renamed, b.editor_filename_renamed)
    &&& same_text(a.editor_filename_category, b.editor_filename_category)
    &&& same_text(a.tmux_window_name_renamed, b.tmux_window_name_renamed)
    &&& same_text(a.tmux_window_name_category, b.tmux_window_name_category)
}

/// `answer` is what `target` holds in one of `rows` that holds `text` in `key`,
/// among those in which `target` is set; it is none exactly if there is no such row.
pub open spec fn stored_answer(
    rows: Set<Row>,
    key: Seq<char>,
    target: Seq<char>,
    text: Seq<char>,
    answer: Option<Value>,
) -> bool {
    match answer {
        Some(value) => exists|row: Row| #[trigger]
            rows.contains(row) && is_text(row[key], text) && !is_null(row[target]) && row[target]
                == value,
        None => forall|row: Row| #[trigger]
            rows.contains(row) && is_text(row[key], text) ==> is_null(row[target]),
    }
}

/// The same, of an answer as text.
pub open spec fn stored_text(
    rows: Set<Row>,
    key: Seq<char>,
    target: Seq<char>,
    text: Seq<char>,
    answer: Option<String>,
) -> bool {
    match answer {
        Some(given) => exists|row: Row| #[trigger]
            rows.contains(row) && is_text(row[key], text) && is_text(row[target], given@),
        None => forall|row: Row| #[trigger]
            rows.contains(row) && is_text(row[key], text) ==> is_null(row[target]),
    }
}

proof fn lemma_first_parameter(params: Seq<Value>)
    requires
        params.len() == 1,
    ensures
        is_placeholder("$1"@, 1),
        parameter("$1"@, params) == params[0],
{
    reveal_strlit("$1");
    reveal_with_fuel(number, 2);
    assert("$1"@.skip(1) =~= seq!['1']);
    assert(seq!['1'].drop_last() =~= Seq::empty());
    assert(number("$1"@.skip(1)) == 1);
}

proof fn lemma_session_lookup_tokens(key: Column, target: Column)
    ensures
        tokens(session_lookup_sql(key, target)) == seq![
            "SELECT"@,
            column_name(target),
            "FROM"@,
            "sessions"@,
            "WHERE"@,
            column_name(key),
            "="@,
            "$1"@,
            "AND"@,
            column_name(target),
            "IS"@,
            "NOT"@,
            "NULL"@,
            "LIMIT"@,
            "1"@,
        ],
{
    let t = column_name(target);
    let k = column_name(key);
    lemma_select();
    lemma_from_sessions();
    lemma_first_parameter_and();
    lemma_is_set();
    lemma_column_word(target);
    lemma_column_word(key);
    let a = "SELECT "@;
    let b = " FROM sessions WHERE "@;
    let c = " = $1 AND "@;
    let d = " IS NOT NULL LIMIT 1"@;
    lemma_tokens_add(a, t);
    lemma_tokens_add(a + t, b);
    lemma_tokens_add(a + t + b, k);
    lemma_tokens_add(a + t + b + k, c);
    lemma_tokens_add(a + t + b + k + c, t);
    lemma_tokens_add(a + t + b + k + c + t, d);
    assert(tokens(session_lookup_sql(key, target)) =~= seq![
        "SELECT"@,
        t,
        "FROM"@,
        "sessions"@,
        "WHERE"@,
        k,
        "="@,
        "$1"@,
        "AND"@,
        t,
        "IS"@,
        "NOT"@,
        "NULL"@,
        "LIMIT"@,
        "1"@,
    ]);
}

/// The text that reads the rename of an application.
proof fn lemma_app_rename_tokens()
    ensures
        tokens("SELECT renamed_app_name FROM app_renames WHERE original_app_name = $1"@) == seq!["SELECT"@, "renamed_app_name"@, "FROM"@, "app_renames"@, "WHERE"@, "original_app_name"@, "="@, "$1"@],
        "SELECT renamed_app_name FROM app_renames WHERE original_app_name = $1"@.len() == 69,
        is_word_char("SELECT renamed_app_name FROM app_renames WHERE original_app_name = $1"@[0]),
        is_word_char("SELECT renamed_app_name FROM app_renames WHERE original_app_name = $1"@[68]),
{
    reveal_strlit("SELECT renamed_app_name FROM app_renames WHERE original_app_name = $1");
    reveal_strlit("SELECT");
    reveal_strlit("renamed_app_name");
    reveal_strlit("FROM");
    reveal_strlit("app_renames");
    reveal_strlit("WHERE");
    reveal_strlit("original_app_name");
    reveal_strlit("=");
    reveal_strlit("$1");
    reveal_with_fuel(agree, 18);
    reveal_with_fuel(wordy, 18);
    reveal_with_fuel(spaces, 2);
    let text = "SELECT renamed_app_name FROM app_renames WHERE original_app_name = $1"@;
    lemma_next_word(text, 0, 0, "SELECT"@);
    lemma_next_word(text, 6, 1, "renamed_app_name"@);
    lemma_next_word(text, 23, 1, "FROM"@);
    lemma_next_word(text, 28, 1, "app_renames"@);
    lemma_next_word(text, 40, 1, "WHERE"@);
    lemma_next_word(text, 46, 1, "original_app_name"@);
    lemma_next_symbol(text, 64, 1, "="@);
    lemma_next_word(text, 66, 1, "$1"@);
    lemma_next_spaces(text, 69, 0);
    assert(tokens(text) =~= seq!["SELECT"@, "renamed_app_name"@, "FROM"@, "app_renames"@, "WHERE"@, "original_app_name"@, "="@, "$1"@]);
}

proof fn lemma_text_parameter(statement: Statement, text: Seq<char>)
    requires
        statement@.params == seq![ValueView::Text(Some(text))],
    ensures
        statement.params@.len() == 1,
        is_text(statement.params@[0], text),
{
    assert(params_view(statement.params@).len() == 1);
    assert(params_view(statement.params@)[0] == statement.params@[0]@);
}

/// What PostgreSQL makes of a question about stored sessions.
proof fn lemma_session_lookup(statement: Statement, key: Column, target: Column, text: Seq<char>)
    requires
        statement@ == session_lookup_statement(key, target, text),
    ensures
        statement.fetch == Fetch::Optional,
        reads_from(statement, "sessions"@),
        forall|rows: Set<Row>, answer: Option<Value>| #[trigger]
            may_answer(statement, "sessions"@, rows, answer) <==> stored_answer(
                rows,
                column_name(key),
                column_name(target),
                text,
                answer,
            ),
{
    lemma_session_lookup_tokens(key, target);
    lemma_text_parameter(statement, text);
    lemma_first_parameter(statement.params@);
    let found = tokens(statement.sql@);
    assert(statement.sql@ == session_lookup_sql(key, target));
    assert forall|row: Row| #[trigger]
        picks(statement, row) <==> is_text(row[column_name(key)], text) && !is_null(
            row[column_name(target)],
        ) by {}
    assert forall|rows: Set<Row>, answer: Option<Value>| #[trigger]
        may_answer(statement, "sessions"@, rows, answer) <==> stored_answer(
            rows,
            column_name(key),
            column_name(target),
            text,
            answer,
        ) by {
        match answer {
            Some(value) => {
                if may_answer(statement, "sessions"@, rows, answer) {
                    let row = choose|row: Row| #[trigger]
                        rows.contains(row) && picks(statement, row) && row[found[1]] == value;
                    assert(rows.contains(row) && is_text(row[column_name(key)], text));
                }
                if stored_answer(rows, column_name(key), column_name(target), text, answer) {
                    let row = choose|row: Row| #[trigger]
                        rows.contains(row) && is_text(row[column_name(key)], text) && !is_null(
                            row[column_name(target)],
                        ) && row[column_name(target)] == value;
                    assert(rows.contains(row) && picks(statement, row));
                }
            },
            None => {},
        }
    }
}

/// `answer` is what one of `rows` renames the application `name` to; it is none
/// exactly if no row is about that name.
pub open spec fn stored_app_rename(rows: Set<Row>, name: Seq<char>, answer: Option<Value>) -> bool {
    match answer {
        Some(value) => exists|row: Row| #[trigger]
            rows.contains(row) && is_text(row["original_app_name"@], name)
                && row["renamed_app_name"@] == value,
        None => forall|row: Row| #[trigger]
            rows.contains(row) ==> !is_text(row["original_app_name"@], name),
    }
}

/// What PostgreSQL makes of the question about an application.
proof fn lemma_app_rename(statement: Statement, name: Seq<char>)
    requires
        statement@ == app_rename_statement(name),
    ensures
        statement.fetch == Fetch::Optional,
        reads_from(statement, "app_renames"@),
        forall|rows: Set<Row>, answer: Option<Value>| #[trigger]
            may_answer(statement, "app_renames"@, rows, answer) <==> stored_app_rename(
                rows,
                name,
                answer,
            ),
{
    lemma_app_rename_tokens();
    lemma_text_parameter(statement, name);
    lemma_first_parameter(statement.params@);
    let found = tokens(statement.sql@);
    assert(statement.sql@ == app_rename_sql());
    assert forall|row: Row| #[trigger]
        picks(statement, row) <==> is_text(row["original_app_name"@], name) by {}
    assert forall|rows: Set<Row>, answer: Option<Value>| #[trigger]
        may_answer(statement, "app_renames"@, rows, answer) <==> stored_app_rename(
            rows,
            name,
            answer,
        ) by {
        match answer {
            Some(value) => {
                if may_answer(statement, "app_renames"@, rows, answer) {
                    let row = choose|row: Row| #[trigger]
                        rows.contains(row) && picks(statement, row) && row[found[1]] == value;
                    assert(rows.contains(row) && is_text(row["original_app_name"@], name));
                }
                if stored_app_rename(rows, name, answer) {
                    let row = choose|row: Row| #[trigger]
                        rows.contains(row) && is_text(row["original_app_name"@], name)
                            && row["renamed_app_name"@] == value;
                    assert(rows.contains(row) && picks(statement, row));
                }
            },
            None => {
                if stored_app_rename(rows, name, answer) {
                    assert forall|row: Row| #[trigger] rows.contains(row) implies !picks(
                        statement,
                        row,
                    ) by {}
                }
            },
        }
    }
}

/// The questions about the page title are answered by what the stored sessions with
/// exactly that name hold as its rename and as its category.
pub proof fn law_browser_page_title_questions<P, C>(
    database: &Database<P, C>,
    title: &str,
    rename: Statement,
    category: Statement,
)
    requires
        call_ensures(Database::<P, C>::get_browser_page_title_rename, (database, title), rename),
        call_ensures(Database::<P, C>::get_browser_page_title_category, (database, title), category),
    ensures
        rename.fetch == Fetch::Optional,
        reads_from(rename, "sessions"@),
        forall|rows: Set<Row>, answer: Option<Value>| #[trigger]
            may_answer(rename, "sessions"@, rows, answer) <==> stored_answer(
                rows,
                "browser_page_title"@,
                "browser_page_title_renamed"@,
                title@,
                answer,
            ),
        category.fetch == Fetch::Optional,
        reads_from(category, "sessions"@),
        forall|rows: Set<Row>, answer: Option<Value>| #[trigger]
            may_answer(category, "sessions"@, rows, answer) <==> stored_answer(
                rows,
                "browser_page_title"@,
                "browser_page_title_category"@,
                title@,
                answer,
            ),
{
    lemma_session_lookup(rename, Column::BrowserPageTitle, Column::BrowserPageTitleRenamed, title@);
    lemma_session_lookup(category, Column::BrowserPageTitle, Column::BrowserPageTitleCategory, title@);
}

/// The questions about the terminal directory are answered by what the stored sessions with
/// exactly that name hold as its rename and as its category.
pub proof fn law_terminal_directory_questions<P, C>(
    database: &Database<P, C>,
    dir: &str,
    rename: Statement,
    category: Statement,
)
    requires
        call_ensures(Database::<P, C>::get_terminal_directory_rename, (database, dir), rename),
        call_ensures(Database::<P, C>::get_terminal_directory_category, (database, dir), category),
    ensures
        rename.fetch == Fetch::Optional,
        reads_from(rename, "sessions"@),
        forall|rows: Set<Row>, answer: Option<Value>| #[trigger]
            may_answer(rename, "sessions"@, rows, answer) <==> stored_answer(
                rows,
                "terminal_directory"@,
                "terminal_directory_renamed"@,
                dir@,
                answer,
            ),
        category.fetch == Fetch::Optional,
        reads_from(category, "sessions"@),
        forall|rows: Set<Row>, answer: Option<Value>| #[trigger]
            may_answer(category, "sessions"@, rows, answer) <==> stored_answer(
                rows,
                "terminal_directory"@,
                "terminal_directory_category"@,
                dir@,
                answer,
            ),
{
    lemma_session_lookup(rename, Column::TerminalDirectory, Column::TerminalDirectoryRenamed, dir@);
    lemma_session_lookup(category, Column::TerminalDirectory, Column::TerminalDirectoryCategory, dir@);
}

/// The questions about the editor file are answered by what the stored sessions with
/// exactly that name hold as its rename and as its category.
pub proof fn law_editor_filename_questions<P, C>(
    database: &Database<P, C>,
    filename: &str,
    rename: Statement,
    category: Statement,
)
    requires
        call_ensures(Database::<P, C>::get_editor_filename_rename, (database, filename), rename),
        call_ensures(Database::<P, C>::get_editor_filename_category, (database, filename), category),
    ensures
        rename.fetch == Fetch::Optional,
        reads_from(rename, "sessions"@),
        forall|rows: Set<Row>, answer: Option<Value>| #[trigger]
            may_answer(rename, "sessions"@, rows, answer) <==> stored_answer(
                rows,
                "editor_filename"@,
                "editor_filename_renamed"@,
                filename@,
                answer,
            ),
        category.fetch == Fetch::Optional,
        reads_from(category, "sessions"@),
        forall|rows: Set<Row>, answer: Option<Value>| #[trigger]
            may_answer(category, "sessions"@, rows, answer) <==> stored_answer(
                rows,
                "editor_filename"@,
                "editor_filename_category"@,
                filename@,
                answer,
            ),
{
    lemma_session_lookup(rename, Column::EditorFilename, Column::EditorFilenameRenamed, filename@);
    lemma_session_lookup(category, Column::EditorFilename, Column::EditorFilenameCategory, filename@);
}

/// The questions about the tmux window are answered by what the stored sessions with
/// exactly that name hold as its rename and as its category.
pub proof fn law_tmux_window_name_questions<P, C>(
    database: &Database<P, C>,
    name: &str,
    rename: Statement,
    category: Statement,
)
    requires
        call_ensures(Database::<P, C>::get_tmux_window_name_rename, (database, name), rename),
        call_ensures(Database::<P, C>::get_tmux_window_name_category, (database, name), category),
    ensures
        rename.fetch == Fetch::Optional,
        reads_from(rename, "sessions"@),
        forall|rows: Set<Row>, answer: Option<Value>| #[trigger]
            may_answer(rename, "sessions"@, rows, answer) <==> stored_answer(
                rows,
                "tmux_window_name"@,
                "tmux_window_name_renamed"@,
                name@,
                answer,
            ),
        category.fetch == Fetch::Optional,
        reads_from(category, "sessions"@),
        forall|rows: Set<Row>, answer: Option<Value>| #[trigger]
            may_answer(category, "sessions"@, rows, answer) <==> stored_answer(
                rows,
                "tmux_window_name"@,
                "tmux_window_name_category"@,
                name@,
                answer,
            ),
{
    lemma_session_lookup(rename, Column::TmuxWindowName, Column::TmuxWindowNameRenamed, name@);
    lemma_session_lookup(category, Column::TmuxWindowName, Column::TmuxWindowNameCategory, name@);
}

/// The question about an application is answered by the renames under exactly its
/// name.
pub proof fn law_app_rename_question<P, C>(
    database: &Database<P, C>,
    name: &str,
    statement: Statement,
)
    requires
        call_ensures(Database::<P, C>::get_app_rename, (database, name), statement),
    ensures
        statement.fetch == Fetch::Optional,
        reads_from(statement, "app_renames"@),
        forall|rows: Set<Row>, answer: Option<Value>| #[trigger]
            may_answer(statement, "app_renames"@, rows, answer) <==> stored_app_rename(
                rows,
                name@,
                answer,
            ),
{
    lemma_app_rename(statement, name@);
}

/// Each lookup sends the question that the store has for it.
pub proof fn law_lookups_send_the_questions<P, C>(
    database: &Database<P, C>,
    name: &str,
    sent: Statement,
    question: Statement,
)
    requires
        ({
            ||| call_ensures(Lookup::statement, (Lookup::AppRename, name), sent) && call_ensures(
                Database::<P, C>::get_app_rename,
                (database, name),
                question,
            )
            ||| call_ensures(Lookup::statement, (Lookup::BrowserPageTitleRename, name), sent) && call_ensures(
                Database::<P, C>::get_browser_page_title_rename,
                (database, name),
                question,
            )
            ||| call_ensures(Lookup::statement, (Lookup::BrowserPageTitleCategory, name), sent) && call_ensures(
                Database::<P, C>::get_browser_page_title_category,
                (database, name),
                question,
            )
            ||| call_ensures(Lookup::statement, (Lookup::TerminalDirectoryRename, name), sent) && call_ensures(
                Database::<P, C>::get_terminal_directory_rename,
                (database, name),
                question,
            )
            ||| call_ensures(Lookup::statement, (Lookup::TerminalDirectoryCategory, name), sent) && call_ensures(
                Database::<P, C>::get_terminal_directory_category,
                (database, name),
                question,
            )
            ||| call_ensures(Lookup::statement, (Lookup::EditorFilenameRename, name), sent) && call_ensures(
                Database::<P, C>::get_editor_filename_rename,
                (database, name),
                question,
            )
            ||| call_ensures(Lookup::statement, (Lookup::EditorFilenameCategory, name), sent) && call_ensures(
                Database::<P, C>::get_editor_filename_category,
                (database, name),
                question,
            )
            ||| call_ensures(Lookup::statement, (Lookup::TmuxWindowNameRename, name), sent) && call_ensures(
                Database::<P, C>::get_tmux_window_name_rename,
                (database, name),
                question,
            )
            ||| call_ensures(Lookup::statement, (Lookup::TmuxWindowNameCategory, name), sent) && call_ensures(
                Database::<P, C>::get_tmux_window_name_category,
                (database, name),
                question,
            )
        }),
    ensures
        same_statement(sent, question),
{
    lemma_same_statement(sent, question);
}

/// The two tables that the questions are about.
pub struct Tables {
    pub sessions: Set<Row>,
    pub app_renames: Set<Row>,
}

/// `statement` may come back from these tables with the text `answer`.
pub open spec fn may_give(tables: Tables, statement: Statement, answer: Option<String>) -> bool {
    exists|value: Option<Value>| {
        &&& match (answer, value) {
            (Some(text), Some(v)) => is_text(v, text@),
            (None, None) => true,
            _ => false,
        }
        &&& (#[trigger] may_answer(statement, "sessions"@, tables.sessions, value) || may_answer(
            statement,
            "app_renames"@,
            tables.app_renames,
            value,
        ))
    }
}

/// `before` sends `statement`, gets `answer` and goes on as `after`.
pub open spec fn asks(
    before: Renaming,
    statement: Statement,
    answer: Option<String>,
    after: Renaming,
) -> bool {
    &&& call_ensures(Renaming::pending, (&before,), Some(statement))
    &&& call_ensures(Renaming::resume, (before, Ok::<Option<String>, String>(answer)), after)
}

/// `answer`, for an application, is what the table renames it to.
pub open spec fn app_answer(tables: Tables, name: Seq<char>, given: Seq<char>) -> bool {
    ||| exists|row: Row| #[trigger]
        tables.app_renames.contains(row) && is_text(row["original_app_name"@], name) && is_text(
            row["renamed_app_name"@],
            given,
        )
    ||| given == name && forall|row: Row| #[trigger]
        tables.app_renames.contains(row) ==> !is_text(row["original_app_name"@], name)
}

/// The answer to a lookup among stored sessions.
spec fn session_answer(
    tables: Tables,
    lookup: Lookup,
    text: Option<Seq<char>>,
    kept: Option<Seq<char>>,
    given: Option<Seq<char>>,
) -> bool {
    let key = column_name(key_column(lookup));
    let target = column_name(target_column(lookup));
    match text {
        None => given == kept,
        Some(name) => match given {
            Some(answer) => exists|row: Row| #[trigger]
                tables.sessions.contains(row) && is_text(row[key], name) && is_text(
                    row[target],
                    answer,
                ),
            None => forall|row: Row| #[trigger]
                tables.sessions.contains(row) && is_text(row[key], name) ==> is_null(row[target]),
        },
    }
}

/// `now` carries what the lookups before place `at` found for `session`, and
/// everything else as `session` does.
spec fn settled(tables: Tables, session: SessionView, now: SessionView, at: nat) -> bool {
    &&& if at > 0 {
        app_answer(tables, session.app_name, now.app_name)
    } else {
        now.app_name == session.app_name
    }
    &&& if at > 1 {
        session_answer(
            tables,
            Lookup::BrowserPageTitleRename,
            session.browser_page_title,
            session.browser_page_title_renamed,
            now.browser_page_title_renamed,
        )
    } else {
        now.browser_page_title_renamed == session.browser_page_title_renamed
    }
    &&& if at > 2 {
        session_answer(
            tables,
            Lookup::BrowserPageTitleCategory,
            session.browser_page_title,
            session.browser_page_title_category,
            now.browser_page_title_category,
        )
    } else {
        now.browser_page_title_category == session.browser_page_title_category
    }
    &&& if at > 3 {
        session_answer(
            tables,
            Lookup::TerminalDirectoryRename,
            session.terminal_directory,
            session.terminal_directory_renamed,
            now.terminal_directory_renamed,
        )
    } else {
        now.terminal_directory_renamed == session.terminal_directory_renamed
    }
    &&& if at > 4 {
        session_answer(
            tables,
            Lookup::TerminalDirectoryCategory,
            session.terminal_directory,
            session.terminal_directory_category,
            now.terminal_directory_category,
        )
    } else {
        now.terminal_directory_category == session.terminal_directory_category
    }
    &&& if at > 5 {
        session_answer(
            tables,
            Lookup::EditorFilenameRename,
            session.editor_filename,
            session.editor_filename_renamed,
            now.editor_filename_renamed,
        )
    } else {
        now.editor_filename_renamed == session.editor_filename_renamed
    }
    &&& if at > 6 {
        session_answer(
            tables,
            Lookup::EditorFilenameCategory,
            session.editor_filename,
            session.editor_filename_category,
            now.editor_filename_category,
        )
    } else {
        now.editor_filename_category == session.editor_filename_category
    }
    &&& if at > 7 {
        session_answer(
            tables,
            Lookup::TmuxWindowNameRename,
            session.tmux_window_name,
            session.tmux_window_name_renamed,
            now.tmux_window_name_renamed,
        )
    } else {
        now.tmux_window_name_renamed == session.tmux_window_name_renamed
    }
    &&& if at > 8 {
        session_answer(
            tables,
            Lookup::TmuxWindowNameCategory,
            session.tmux_window_name,
            session.tmux_window_name_category,
            now.tmux_window_name_category,
        )
    } else {
        now.tmux_window_name_category == session.tmux_window_name_category
    }
    &&& now == (SessionView {
        app_name: now.app_name,
        browser_page_title_renamed: now.browser_page_title_renamed,
        browser_page_title_category: now.browser_page_title_category,
        terminal_directory_renamed: now.terminal_directory_renamed,
        terminal_directory_category: now.terminal_directory_category,
        editor_filename_renamed: now.editor_filename_renamed,
        editor_filename_category: now.editor_filename_category,
        tmux_window_name_renamed: now.tmux_window_name_renamed,
        tmux_window_name_category: now.tmux_window_name_category,
        ..session
    })
}

proof fn lemma_first_from(session: SessionView, i: nat)
    requires
        i <= 9,
    ensures
        i <= first_from(session, i) <= 9,
        forall|j: int|
            i <= j < first_from(session, i) ==> lookup_key(session, #[trigger] lookups()[j]) is None,
        first_from(session, i) < 9 ==> lookup_key(
            session,
            lookups()[first_from(session, i) as int],
        ) is Some,
    decreases 9 - i,
{
    if i < 9 && lookup_key(session, lookups()[i as int]) is None {
        lemma_first_from(session, i + 1);
    }
}

/// Lookups that a session has no name for find nothing and change nothing.
proof fn lemma_skip(tables: Tables, session: SessionView, now: SessionView, i: nat)
    requires
        i <= 9,
        settled(tables, session, now, i),
    ensures
        settled(tables, session, now, first_from(now, i)),
        i <= first_from(now, i) <= 9,
        first_from(now, i) < 9 ==> lookup_key(now, lookups()[first_from(now, i) as int]) is Some,
    decreases 9 - i,
{
    if i < 9 && lookup_key(now, lookups()[i as int]) is None {
        assert(i > 0);
        assert(settled(tables, session, now, i + 1));
        lemma_skip(tables, session, now, i + 1);
    }
}

/// What a truthful answer to a lookup says.
proof fn lemma_truthful(
    tables: Tables,
    lookup: Lookup,
    text: Seq<char>,
    kept: Option<Seq<char>>,
    statement: Statement,
    answer: Option<String>,
)
    requires
        statement@ == lookup_statement(lookup, text),
        may_give(tables, statement, answer),
    ensures
        lookup != Lookup::AppRename ==> session_answer(
            tables,
            lookup,
            Some(text),
            kept,
            text_view(answer),
        ),
        lookup == Lookup::AppRename ==> app_answer(
            tables,
            text,
            match answer {
                Some(name) => name@,
                None => text,
            },
        ),
{
    reveal_strlit("sessions");
    reveal_strlit("app_renames");
    assert("sessions"@.len() != "app_renames"@.len());
    assert(!(reads_from(statement, "sessions"@) && reads_from(statement, "app_renames"@)));
    let value = choose|value: Option<Value>| {
        &&& match (answer, value) {
            (Some(t), Some(v)) => is_text(v, t@),
            (None, None) => true,
            _ => false,
        }
        &&& (#[trigger] may_answer(statement, "sessions"@, tables.sessions, value) || may_answer(
            statement,
            "app_renames"@,
            tables.app_renames,
            value,
        ))
    };
    if lookup == Lookup::AppRename {
        lemma_app_rename(statement, text);
        assert(!may_answer(statement, "sessions"@, tables.sessions, value));
        assert(stored_app_rename(tables.app_renames, text, value));
        if let Some(name) = answer {
            let row = choose|row: Row| #[trigger]
                tables.app_renames.contains(row) && is_text(row["original_app_name"@], text)
                    && row["renamed_app_name"@] == value->0;
            assert(tables.app_renames.contains(row) && is_text(
                row["renamed_app_name"@],
                name@,
            ));
        }
    } else {
        let key = key_column(lookup);
        let target = target_column(lookup);
        lemma_session_lookup(statement, key, target, text);
        assert(!may_answer(statement, "app_renames"@, tables.app_renames, value));
        assert(stored_answer(
            tables.sessions,
            column_name(key),
            column_name(target),
            text,
            value,
        ));
        if let Some(name) = answer {
            let row = choose|row: Row| #[trigger]
                tables.sessions.contains(row) && is_text(row[column_name(key)], text) && !is_null(
                    row[column_name(target)],
                ) && row[column_name(target)] == value->0;
            assert(tables.sessions.contains(row) && is_text(row[column_name(target)], name@));
        }
    }
}

/// One answered lookup.
#[verifier::spinoff_prover]
#[verifier::rlimit(60)]
proof fn lemma_ask(
    tables: Tables,
    session: SessionView,
    before: Renaming,
    statement: Statement,
    answer: Option<String>,
    after: Renaming,
)
    requires
        asks(before, statement, answer, after),
        may_give(tables, statement, answer),
        before@.error is None,
        before@.at <= 9,
        settled(tables, session, before@.session, before@.at),
        before@.at < 9 ==> lookup_key(before@.session, lookups()[before@.at as int]) is Some,
    ensures
        after@.error is None,
        after@.at <= 9,
        settled(tables, session, after@.session, after@.at),
        after@.at < 9 ==> lookup_key(after@.session, lookups()[after@.at as int]) is Some,
        reads_from(statement, "sessions"@) || reads_from(statement, "app_renames"@),
{
    let at = before@.at;
    let now = before@.session;
    assert(before@.pending() is Some);
    let lookup = lookups()[at as int];
    let text = lookup_key(now, lookup)->0;
    assert(statement@ == lookup_statement(lookup, text));
    let kept = match lookup {
        Lookup::BrowserPageTitleRename => session.browser_page_title_renamed,
        Lookup::BrowserPageTitleCategory => session.browser_page_title_category,
        Lookup::TerminalDirectoryRename => session.terminal_directory_renamed,
        Lookup::TerminalDirectoryCategory => session.terminal_directory_category,
        Lookup::EditorFilenameRename => session.editor_filename_renamed,
        Lookup::EditorFilenameCategory => session.editor_filename_category,
        Lookup::TmuxWindowNameRename => session.tmux_window_name_renamed,
        Lookup::TmuxWindowNameCategory => session.tmux_window_name_category,
        Lookup::AppRename => None,
    };
    lemma_truthful(tables, lookup, text, kept, statement, answer);
    let next = noted(now, lookup, text_view(answer));
    assert(after@ == before@.next(Ok(text_view(answer))));
    assert(settled(tables, session, next, at + 1));
    lemma_skip(tables, session, next, at + 1);
    if lookup == Lookup::AppRename {
        lemma_app_rename(statement, text);
    } else {
        lemma_session_lookup(statement, key_column(lookup), target_column(lookup), text);
    }
}

proof fn lemma_asks(
    tables: Tables,
    session: SessionView,
    states: Seq<Renaming>,
    statements: Seq<Statement>,
    answers: Seq<Option<String>>,
    n: nat,
)
    requires
        n <= statements.len(),
        states.len() == statements.len() + 1,
        answers.len() == statements.len(),
        states[0]@ == RenamingView::start(session),
        forall|i: int|
            0 <= i < statements.len() ==> asks(
                states[i],
                #[trigger] statements[i],
                answers[i],
                states[i + 1],
            ),
        forall|i: int|
            0 <= i < statements.len() ==> may_give(tables, #[trigger] statements[i], answers[i]),
    ensures
        states[n as int]@.error is None,
        states[n as int]@.at <= 9,
        settled(tables, session, states[n as int]@.session, states[n as int]@.at),
        states[n as int]@.at < 9 ==> lookup_key(
            states[n as int]@.session,
            lookups()[states[n as int]@.at as int],
        ) is Some,
        forall|i: int|
            0 <= i < n ==> reads_from(#[trigger] statements[i], "sessions"@) || reads_from(
                statements[i],
                "app_renames"@,
            ),
    decreases n,
{
    if n == 0 {
        assert(settled(tables, session, session, 0));
        lemma_skip(tables, session, session, 0);
    } else {
        lemma_asks(tables, session, states, statements, answers, (n - 1) as nat);
        let statement = statements[n - 1];
        assert(asks(states[n - 1], statement, answers[n - 1], states[n as int]));
        lemma_ask(
            tables,
            session,
            states[n - 1],
            statement,
            answers[n - 1],
            states[n as int],
        );
    }
}

/// Looking up a session in the store from beginning to end, whatever the tables
/// hold: every question is put to one of the two tables; the application gets the
/// rename under exactly its name, if there is one; for each name that the session
/// has, the rename and the category become those that a stored session holds for
/// exactly that name, or none if no session does; nothing else changes.
#[verifier::rlimit(60)]
pub proof fn law_lookups_fill_in_what_is_stored<P, C>(
    database: &Database<P, C>,
    session: Session,
    tables: Tables,
    states: Seq<Renaming>,
    statements: Seq<Statement>,
    answers: Seq<Option<String>>,
    after: Session,
    result: Result<(), DatabaseError>,
)
    requires
        call_ensures(
            Database::<P, C>::apply_renames_and_categories,
            (database, session),
            states[0],
        ),
        states.len() == statements.len() + 1,
        answers.len() == statements.len(),
        forall|i: int|
            0 <= i < statements.len() ==> asks(
                states[i],
                #[trigger] statements[i],
                answers[i],
                states[i + 1],
            ),
        forall|i: int|
            0 <= i < statements.len() ==> may_give(tables, #[trigger] statements[i], answers[i]),
        call_ensures(Renaming::pending, (&states.last(),), None),
        call_ensures(Renaming::finish, (states.last(),), (after, result)),
    ensures
        result is Ok,
        forall|i: int|
            0 <= i < statements.len() ==> reads_from(#[trigger] statements[i], "sessions"@)
                || reads_from(statements[i], "app_renames"@),
        same_but_renames(after, session),
        app_answer(tables, session.app_name@, after.app_name@),
        match session.browser_page_title {
            Some(name) => stored_text(
                tables.sessions,
                "browser_page_title"@,
                "browser_page_title_renamed"@,
                name@,
                after.browser_page_title_renamed,
            ),
            None => same_text(after.browser_page_title_renamed, session.browser_page_title_renamed),
        },
        match session.browser_page_title {
            Some(name) => stored_text(
                tables.sessions,
                "browser_page_title"@,
                "browser_page_title_category"@,
                name@,
                after.browser_page_title_category,
            ),
            None => same_text(after.browser_page_title_category, session.browser_page_title_category),
        },
        match session.terminal_directory {
            Some(name) => stored_text(
                tables.sessions,
                "terminal_directory"@,
                "terminal_directory_renamed"@,
                name@,
                after.terminal_directory_renamed,
            ),
            None => same_text(after.terminal_directory_renamed, session.terminal_directory_renamed),
        },
        match session.terminal_directory {
            Some(name) => stored_text(
                tables.sessions,
                "terminal_directory"@,
                "terminal_directory_category"@,
                name@,
                after.terminal_directory_category,
            ),
            None => same_text(after.terminal_directory_category, session.terminal_directory_category),
        },
        match session.editor_filename {
            Some(name) => stored_text(
                tables.sessions,
                "editor_filename"@,
                "editor_filename_renamed"@,
                name@,
                after.editor_filename_renamed,
            ),
            None => same_text(after.editor_filename_renamed, session.editor_filename_renamed),
        },
        match session.editor_filename {
            Some(name) => stored_text(
                tables.sessions,
                "editor_filename"@,
                "editor_filename_category"@,
                name@,
                after.editor_filename_category,
            ),
            None => same_text(after.editor_filename_category, session.editor_filename_category),
        },
        match session.tmux_window_name {
            Some(name) => stored_text(
                tables.sessions,
                "tmux_window_name"@,
                "tmux_window_name_renamed"@,
                name@,
                after.tmux_window_name_renamed,
            ),
            None => same_text(after.tmux_window_name_renamed, session.tmux_window_name_renamed),
        },
        match session.tmux_window_name {
            Some(name) => stored_text(
                tables.sessions,
                "tmux_window_name"@,
                "tmux_window_name_category"@,
                name@,
                after.tmux_window_name_category,
            ),
            None => same_text(after.tmux_window_name_category, session.tmux_window_name_category),
        },
{
    let n = statements.len();
    lemma_asks(tables, session@, states, statements, answers, n);
    let last = states[n as int];
    assert(states.last() == last);
    assert(last@.pending() is None);
    assert(last@.at == 9);
    assert(after@ == last@.session);
    let now = last@.session;
    assert(text_view(after.window_name) == text_view(session.window_name));
    assert(text_view(after.category) == text_view(session.category));
    assert(text_view(after.browser_url) == text_view(session.browser_url));
    assert(text_view(after.browser_page_title) == text_view(session.browser_page_title));
    assert(text_view(after.terminal_username) == text_view(session.terminal_username));
    assert(text_view(after.terminal_hostname) == text_view(session.terminal_hostname));
    assert(text_view(after.terminal_directory) == text_view(session.terminal_directory));
    assert(text_view(after.terminal_project_name) == text_view(session.terminal_project_name));
    assert(text_view(after.editor_filename) == text_view(session.editor_filename));
    assert(text_view(after.editor_filepath) == text_view(session.editor_filepath));
    assert(text_view(after.editor_project_path) == text_view(session.editor_project_path));
    assert(text_view(after.editor_language) == text_view(session.editor_language));
    assert(text_view(after.tmux_window_name) == text_view(session.tmux_window_name));
    assert(text_view(after.terminal_multiplexer) == text_view(session.terminal_multiplexer));
    assert(text_view(after.ide_project_name) == text_view(session.ide_project_name));
    assert(text_view(after.ide_file_open) == text_view(session.ide_file_open));
    assert(text_view(after.ide_workspace) == text_view(session.ide_workspace));
    assert(text_view(after.parsed_data) == text_view(session.parsed_data));
    assert(after@.id == session@.id);
    assert(after@.start_time == session@.start_time);
    assert(after@.duration == session@.duration);
    assert(after@.browser_notification_count == session@.browser_notification_count);
    assert(after@.tmux_pane_count == session@.tmux_pane_count);
    assert(after@.parsing_success == session@.parsing_success);
    assert(after@.is_afk == session@.is_afk);
    assert(after@.is_idle == session@.is_idle);
    assert(after@.idle_accumulation_secs == session@.idle_accumulation_secs);
}

/// The questions come in one order, each at most once: the application first, then,
/// for each name that the session has, its rename and its category.
pub proof fn law_questions_in_order(
    before: Renaming,
    statement: Statement,
    answer: Option<String>,
    after: Renaming,
)
    requires
        asks(before, statement, answer, after),
        before@.at < 9,
        before@.error is None,
    ensures
        before@.at < after@.at,
        tokens(statement.sql@)[1] == seq![
            "renamed_app_name"@,
            "browser_page_title_renamed"@,
            "browser_page_title_category"@,
            "terminal_directory_renamed"@,
            "terminal_directory_category"@,
            "editor_filename_renamed"@,
            "editor_filename_category"@,
            "tmux_window_name_renamed"@,
            "tmux_window_name_category"@,
        ][before@.at as int],
{
    let lookup = lookups()[before@.at as int];
    let text = lookup_key(before@.session, lookup)->0;
    assert(statement@ == lookup_statement(lookup, text));
    lemma_app_rename_tokens();
    lemma_session_lookup_tokens(key_column(lookup), target_column(lookup));
    lemma_first_from(after@.session, before@.at + 1);
}

/// A lookup that fails ends the work: nothing more is sent, the session stays as it
/// was before that lookup, and the reason is reported.
pub proof fn law_failed_lookup_ends_the_work(
    before: Renaming,
    session: &Session,
    reason: String,
    after: Renaming,
    sent: Option<Statement>,
    kept: Session,
    result: Result<(), DatabaseError>,
)
    requires
        call_ensures(Renaming::session, (&before,), session),
        call_ensures(Renaming::resume, (before, Err::<Option<String>, String>(reason)), after),
        call_ensures(Renaming::pending, (&after,), sent),
        call_ensures(Renaming::finish, (after,), (kept, result)),
    ensures
        sent is None,
        same_session(kept, *session),
        result matches Err(DatabaseError::Backend { reason: reported }) && reported@ == reason@,
{
    lemma_same_session(kept, *session);
}

proof fn lemma_same_session(a: Session, b: Session)
    requires
        a@ == b@,
    ensures
        same_session(a, b),
{
    assert(text_view(a.window_name) == text_view(b.window_name));
    assert(text_view(a.category) == text_view(b.category));
    assert(text_view(a.browser_url) == text_view(b.browser_url));
    assert(text_view(a.browser_page_title) == text_view(b.browser_page_title));
    assert(text_view(a.terminal_username) == text_view(b.terminal_username));
    assert(text_view(a.terminal_hostname) == text_view(b.terminal_hostname));
    assert(text_view(a.terminal_directory) == text_view(b.terminal_directory));
    assert(text_view(a.terminal_project_name) == text_view(b.terminal_project_name));
    assert(text_view(a.editor_filename) == text_view(b.editor_filename));
    assert(text_view(a.editor_filepath) == text_view(b.editor_filepath));
    assert(text_view(a.editor_project_path) == text_view(b.editor_project_path));
    assert(text_view(a.editor_language) == text_view(b.editor_language));
    assert(text_view(a.tmux_window_name) == text_view(b.tmux_window_name));
    assert(text_view(a.terminal_multiplexer) == text_view(b.terminal_multiplexer));
    assert(text_view(a.ide_project_name) == text_view(b.ide_project_name));
    assert(text_view(a.ide_file_open) == text_view(b.ide_file_open));
    assert(text_view(a.ide_workspace) == text_view(b.ide_workspace));
    assert(text_view(a.parsed_data) == text_view(b.parsed_data));
    assert(text_view(a.browser_page_title_renamed) == text_view(b.browser_page_title_renamed));
    assert(text_view(a.browser_page_title_category) == text_view(b.browser_page_title_category));
    assert(text_view(a.terminal_directory_renamed) == text_view(b.terminal_directory_renamed));
    assert(text_view(a.terminal_directory_category) == text_view(b.terminal_directory_category));
    assert(text_view(a.editor_filename_renamed) == text_view(b.editor_filename_renamed));
    assert(text_view(a.editor_filename_category) == text_view(b.editor_filename_category));
    assert(text_view(a.tmux_window_name_renamed) == text_view(b.tmux_window_name_renamed));
    assert(text_view(a.tmux_window_name_category) == text_view(b.tmux_window_name_category));
    assert(a@.id == b@.id);
    assert(a@.start_time == b@.start_time);
    assert(a@.duration == b@.duration);
    assert(a@.browser_notification_count == b@.browser_notification_count);
    assert(a@.tmux_pane_count == b@.tmux_pane_count);
    assert(a@.parsing_success == b@.parsing_success);
    assert(a@.is_afk == b@.is_afk);
    assert(a@.is_idle == b@.is_idle);
    assert(a@.idle_accumulation_secs == b@.idle_accumulation_secs);
    assert(a@.app_name == b@.app_name);
}

/// Until the first answer the session is the one that was handed in, and the
/// session that can be looked at on the way is the one that is handed back at the
/// end.
pub proof fn law_session_on_the_way<P, C>(
    database: &Database<P, C>,
    session: Session,
    begun: Renaming,
    at_first: &Session,
    renaming: Renaming,
    on_the_way: &Session,
    at_last: Session,
    result: Result<(), DatabaseError>,
)
    requires
        call_ensures(
            Database::<P, C>::apply_renames_and_categories,
            (database, session),
            begun,
        ),
        call_ensures(Renaming::session, (&begun,), at_first),
        call_ensures(Renaming::session, (&renaming,), on_the_way),
        call_ensures(Renaming::finish, (renaming,), (at_last, result)),
    ensures
        same_session(*at_first, session),
        same_session(at_last, *on_the_way),
{
    lemma_same_session(*at_first, session);
    lemma_same_session(at_last, *on_the_way);
}

} // verus!
