//! What storing a session does: what PostgreSQL makes of the statements that the
//! store hands out.
use vstd::prelude::*;
use crate::daemon::database::columns::{
    column_name, field, insert_layout, listed, session_values, update_layout, Column, Listing,
};
use crate::daemon::database::connection::{Database, Storing, StoringReply};
use crate::daemon::database::error::DatabaseError;
use crate::daemon::database::sql::{
    columns_filled, columns_set, insert_columns, insert_count, inserted_columns, is_insert, is_optional_json,
    is_optional_text, is_placeholder, is_text, is_update, lemma_tokens_add, parameter,
    returns_key, row_added, row_after, same_statement, same_value, tokens, update_columns, update_count,
    updated_columns, written_value, Row,
};
use crate::daemon::database::sql_texts::{
    lemma_assignments, lemma_insert_head, lemma_insert_middle, lemma_insert_tail, lemma_line_end,
    lemma_names, lemma_placeholder, lemma_placeholders, lemma_update_head, lemma_update_where,
};
use crate::daemon::database::statement::{params_view, placeholder, Fetch, Statement, Value};
use crate::daemon::database::store::{
    insert_sql, insert_statement, law_column_names_distinct, law_layouts_cover_columns, lists,
    update_sql, update_statement,
};
use crate::models::session::Session;

verus! {

proof fn lemma_insert_tokens()
    ensures
        ({
            let found = tokens(insert_sql());
            &&& found.len() == 148
            &&& found[0] == "INSERT"@
            &&& found[1] == "INTO"@
            &&& found[2] == "sessions"@
            &&& found[3] == "("@
            &&& forall|i: int|
                0 <= i < 35 ==> found[4 + 2 * i] == column_name(
                    (#[trigger] insert_layout()[i]).column,
                )
            &&& forall|i: int| 0 <= i < 34 ==> #[trigger] found[5 + 2 * i] == ","@
            &&& found[73] == ")"@
            &&& found[74] == "VALUES"@
            &&& found[75] == "("@
            &&& forall|i: int|
                0 <= i < 35 ==> #[trigger] found[76 + 2 * i] == placeholder((i + 1) as nat)
            &&& forall|i: int| 0 <= i < 34 ==> #[trigger] found[77 + 2 * i] == ","@
            &&& found[145] == ")"@
            &&& found[146] == "RETURNING"@
            &&& found[147] == "id"@
        }),
{
    let slots = insert_layout();
    let head = "\n            INSERT INTO sessions (\n                "@;
    let names = listed(slots, Listing::Names, 35);
    let middle = "\n            ) VALUES (\n                "@;
    let values = listed(slots, Listing::Placeholders, 35);
    let tail = "\n            ) RETURNING id\n            "@;
    lemma_insert_head();
    lemma_insert_middle();
    lemma_insert_tail();
    lemma_names(slots, 35);
    lemma_placeholders(slots, 35);
    assert(slots.len() == 35);
    lemma_tokens_add(head, names);
    lemma_tokens_add(head + names, middle);
    lemma_tokens_add(head + names + middle, values);
    lemma_tokens_add(head + names + middle + values, tail);
    let t1 = tokens(names);
    let t2 = tokens(values);
    let found = tokens(insert_sql());
    assert(found == tokens(head) + t1 + tokens(middle) + t2 + tokens(tail));
    assert forall|i: int| 0 <= i < 35 implies found[4 + 2 * i] == column_name(
        (#[trigger] insert_layout()[i]).column,
    ) by {
        assert(t1[2 * i] == column_name(slots[i].column));
        assert(found[4 + 2 * i] == t1[2 * i]);
    }
    assert forall|i: int| 0 <= i < 34 implies #[trigger] found[5 + 2 * i] == ","@ by {
        assert(t1[2 * i + 1] == ","@);
    }
    assert forall|i: int| 0 <= i < 35 implies #[trigger] found[76 + 2 * i] == placeholder(
        (i + 1) as nat,
    ) by {
        assert(t2[2 * i] == placeholder((i + 1) as nat));
    }
    assert forall|i: int| 0 <= i < 34 implies #[trigger] found[77 + 2 * i] == ","@ by {
        assert(t2[2 * i + 1] == ","@);
    }
}

proof fn lemma_update_tokens()
    ensures
        ({
            let found = tokens(update_sql());
            &&& found.len() == 142
            &&& found[0] == "UPDATE"@
            &&& found[1] == "sessions"@
            &&& found[2] == "SET"@
            &&& forall|i: int|
                0 <= i < 34 ==> {
                    &&& found[3 + 4 * i] == column_name((#[trigger] update_layout()[i]).column)
                    &&& found[4 + 4 * i] == "="@
                    &&& found[5 + 4 * i] == placeholder((i + 1) as nat)
                    &&& i < 33 ==> found[6 + 4 * i] == ","@
                }
            &&& found[138] == "WHERE"@
            &&& found[139] == "id"@
            &&& found[140] == "="@
            &&& found[141] == placeholder(35)
        }),
{
    let slots = update_layout();
    let head = "\n            UPDATE sessions SET\n                "@;
    let list = listed(slots, Listing::Assignments, 34);
    let condition = "\n            WHERE id = "@;
    let key = placeholder(35);
    let end = "\n            "@;
    lemma_update_head();
    lemma_update_where();
    lemma_line_end();
    lemma_assignments(slots, 34);
    lemma_placeholder(35, 35);
    assert(slots.len() == 34);
    lemma_tokens_add(head, list);
    lemma_tokens_add(head + list, condition);
    lemma_tokens_add(head + list + condition, key);
    lemma_tokens_add(head + list + condition + key, end);
    let t = tokens(list);
    let found = tokens(update_sql());
    assert(found == tokens(head) + t + tokens(condition) + tokens(key) + tokens(end));
    assert forall|i: int| 0 <= i < 34 implies {
        &&& found[3 + 4 * i] == column_name((#[trigger] update_layout()[i]).column)
        &&& found[4 + 4 * i] == "="@
        &&& found[5 + 4 * i] == placeholder((i + 1) as nat)
        &&& i < 33 ==> found[6 + 4 * i] == ","@
    } by {
        assert(t[4 * i] == column_name(slots[i].column));
        assert(found[3 + 4 * i] == t[4 * i]);
        assert(found[4 + 4 * i] == t[4 * i + 1]);
        assert(found[5 + 4 * i] == t[4 * i + 2]);
        if i < 33 {
            assert(found[6 + 4 * i] == t[4 * i + 3]);
        }
    }
}

/// The columns of an `INSERT` whose values are its parameters in order.
proof fn lemma_inserted_columns(
    found: Seq<Seq<char>>,
    names: Seq<Seq<char>>,
    params: Seq<Value>,
    count: nat,
    n: nat,
)
    requires
        n <= count <= params.len(),
        names.len() == count,
        names.no_duplicates(),
        forall|i: int| 0 <= i < count ==> #[trigger] names[i] == found[4 + 2 * i],
        forall|i: int|
            0 <= i < count ==> #[trigger] found[2 * count + 6 + 2 * i] == placeholder(
                (i + 1) as nat,
            ),
    ensures
        ({
            let row = inserted_columns(found, params, count, n);
            &&& row is Some
            &&& forall|i: int|
                0 <= i < n ==> row->0.contains_key(#[trigger] names[i]) && row->0[names[i]]
                    == params[i]
        }),
    decreases n,
{
    if n > 0 {
        lemma_inserted_columns(found, names, params, count, (n - 1) as nat);
        lemma_placeholder(n, params.len());
        let token = found[2 * count + 6 + 2 * (n - 1)];
        assert(token == placeholder(n));
        assert(written_value(token, params) == Some(params[n - 1]));
        assert(names[n - 1] == found[4 + 2 * (n - 1)]);
    }
}

/// The columns of an `UPDATE` whose values are its parameters in order.
proof fn lemma_updated_columns(
    row: Row,
    found: Seq<Seq<char>>,
    names: Seq<Seq<char>>,
    params: Seq<Value>,
    n: nat,
)
    requires
        n <= names.len() <= params.len(),
        names.no_duplicates(),
        forall|i: int|
            0 <= i < names.len() ==> #[trigger] names[i] == found[3 + 4 * i] && found[5 + 4 * i]
                == placeholder((i + 1) as nat),
    ensures
        ({
            let after = updated_columns(row, found, params, n);
            &&& after is Some
            &&& forall|i: int|
                0 <= i < n ==> after->0.contains_key(#[trigger] names[i]) && after->0[names[i]]
                    == params[i]
            &&& forall|name: Seq<char>|
                #![trigger after->0.contains_key(name)]
                #![trigger after->0[name]]
                !names.contains(name) ==> {
                    &&& after->0.contains_key(name) == row.contains_key(name)
                    &&& after->0[name] == row[name]
                }
        }),
    decreases n,
{
    if n > 0 {
        lemma_updated_columns(row, found, names, params, (n - 1) as nat);
        lemma_placeholder(n, params.len());
        assert(names[n - 1] == found[3 + 4 * (n - 1)]);
        assert(written_value(found[5 + 4 * (n - 1)], params) == Some(params[n - 1]));
        let earlier = updated_columns(row, found, params, (n - 1) as nat);
        let after = updated_columns(row, found, params, n);
        assert forall|name: Seq<char>|
            #![trigger after->0.contains_key(name)]
            #![trigger after->0[name]]
            !names.contains(name) implies {
                &&& after->0.contains_key(name) == row.contains_key(name)
                &&& after->0[name] == row[name]
            } by {
            assert(names[n - 1] != name);
            assert(earlier->0.contains_key(name) == row.contains_key(name));
        }
    }
}

/// The row that an `INSERT` adds holds the session's value in every column.
proof fn lemma_insert_row(session: Session, statement: Statement)
    requires
        statement@ == insert_statement(session@),
    ensures
        returns_key(statement),
        row_added(statement, "sessions"@) is Some,
        forall|column: Column| #[trigger]
            row_added(statement, "sessions"@)->0.contains_key(column_name(column)) && row_added(
                statement,
                "sessions"@,
            )->0[column_name(column)]@ == field(session@, column),
        columns_filled(statement).len() == 35,
        forall|i: int|
            0 <= i < 35 ==> columns_filled(statement)[i] == column_name(
                (#[trigger] insert_layout()[i]).column,
            ),
{
    let found = tokens(statement.sql@);
    let params = statement.params@;
    lemma_insert_tokens();
    assert(statement.sql@ == insert_sql());
    law_layouts_cover_columns();
    assert(params_view(params) == session_values(session@, insert_layout()));
    assert(params.len() == params_view(params).len() == 35);
    assert(insert_count(found) == 35);
    let names = insert_columns(found);
    assert forall|i: int, j: int| 0 <= i < 35 && 0 <= j < 35 && i != j implies names[i]
        != names[j] by {
        let a = insert_layout()[i].column;
        let b = insert_layout()[j].column;
        assert(a != b);
        if column_name(a) == column_name(b) {
            law_column_names_distinct(a, b);
        }
    }
    assert(is_insert(found));
    lemma_inserted_columns(found, names, params, 35, 35);
    let row = row_added(statement, "sessions"@)->0;
    assert forall|column: Column| #[trigger]
        row.contains_key(column_name(column)) && row[column_name(column)]@ == field(
            session@,
            column,
        ) by {
        assert(lists(insert_layout(), column));
        let i = choose|i: int|
            0 <= i < insert_layout().len() && (#[trigger] insert_layout()[i]).column == column;
        assert(names[i] == column_name(column));
        assert(row[names[i]] == params[i]);
        assert(params_view(params)[i] == params[i]@);
    }
}

/// What an `UPDATE` leaves of a row.
proof fn lemma_update_row(session: Session, id: i32, statement: Statement, key: i32, row: Row)
    requires
        statement@ == update_statement(session@, id),
    ensures
        row_after(statement, "sessions"@, key, row) is Some,
        key != id ==> row_after(statement, "sessions"@, key, row) == Some(row),
        ({
            let after = row_after(statement, "sessions"@, key, row)->0;
            &&& forall|column: Column|
                key == id && column != Column::StartTime ==> #[trigger] after.contains_key(
                    column_name(column),
                ) && after[column_name(column)]@ == field(session@, column)
            &&& forall|name: Seq<char>|
                #![trigger after.contains_key(name)]
                #![trigger after[name]]
                !columns_set(statement).contains(name) ==> {
                    &&& after.contains_key(name) == row.contains_key(name)
                    &&& after[name] == row[name]
                }
        }),
        !columns_set(statement).contains("start_time"@),
        columns_set(statement).len() == 34,
        forall|i: int|
            0 <= i < 34 ==> columns_set(statement)[i] == column_name(
                (#[trigger] update_layout()[i]).column,
            ),
{
    let found = tokens(statement.sql@);
    let params = statement.params@;
    lemma_update_tokens();
    assert(statement.sql@ == update_sql());
    law_layouts_cover_columns();
    let values = session_values(session@, update_layout());
    assert(params_view(params) == update_statement(session@, id).params);
    assert(params.len() == params_view(params).len() == 35);
    assert(update_count(found) == 34);
    let names = update_columns(found);
    assert forall|i: int, j: int| 0 <= i < 34 && 0 <= j < 34 && i != j implies names[i]
        != names[j] by {
        let a = update_layout()[i].column;
        let b = update_layout()[j].column;
        assert(a != b);
        if column_name(a) == column_name(b) {
            law_column_names_distinct(a, b);
        }
    }
    assert forall|i: int| 0 <= i < 34 implies #[trigger] found[4 + 4 * i] == "="@ by {
        let slot = update_layout()[i];
    }
    assert forall|i: int| 0 <= i < 33 implies #[trigger] found[6 + 4 * i] == ","@ by {
        let slot = update_layout()[i];
    }
    assert forall|i: int| 0 <= i < 34 implies #[trigger] names[i] == found[3 + 4 * i] && found[5 + 4
        * i] == placeholder((i + 1) as nat) by {
        let slot = update_layout()[i];
    }
    lemma_placeholder(35, 35);
    assert(is_placeholder(found[141], 35));
    assert(is_update(found, 35));
    lemma_updated_columns(row, found, names, params, 34);
    assert(params_view(params)[34] == params[34]@);
    assert(params[34] == Value::Int4(Some(id)));
    assert(found.last() == found[141]);
    assert(parameter(found.last(), params) == params[34]);
    let after = row_after(statement, "sessions"@, key, row)->0;
    assert forall|column: Column| key == id && column != Column::StartTime implies #[trigger] after.contains_key(
        column_name(column),
    ) && after[column_name(column)]@ == field(session@, column) by {
        assert(lists(update_layout(), column));
        let i = choose|i: int|
            0 <= i < update_layout().len() && (#[trigger] update_layout()[i]).column == column;
        assert(names[i] == column_name(column));
        assert(after[names[i]] == params[i]);
        assert(params_view(params)[i] == params[i]@);
    }
    assert forall|name: Seq<char>|
        #![trigger after.contains_key(name)]
        #![trigger after[name]]
        !columns_set(statement).contains(name) implies {
            &&& after.contains_key(name) == row.contains_key(name)
            &&& after[name] == row[name]
        } by {
        assert(!names.contains(name));
    }
    if columns_set(statement).contains("start_time"@) {
        let i = choose|i: int|
            0 <= i < columns_set(statement).len() && columns_set(statement)[i] == "start_time"@;
        assert(column_name(update_layout()[i].column) == column_name(Column::StartTime));
        law_column_names_distinct(update_layout()[i].column, Column::StartTime);
        assert(lists(update_layout(), Column::StartTime));
    }
}

/// The statement that stores a new session adds a row to `sessions` whose columns
/// hold what the session holds under the same names, each unchanged, and asks for
/// the row's key.
#[verifier::rlimit(60)]
pub proof fn law_insert_stores_the_session<P, C>(
    database: &Database<P, C>,
    session: &Session,
    statement: Statement,
)
    requires
        call_ensures(
            Database::<P, C>::insert_session,
            (database, session),
            Ok::<Statement, DatabaseError>(statement),
        ),
    ensures
        statement.fetch == Fetch::One,
        returns_key(statement),
        row_added(statement, "sessions"@) is Some,
        columns_filled(statement) == seq![
            "app_name"@,
            "window_name"@,
            "start_time"@,
            "duration"@,
            "category"@,
            "browser_url"@,
            "browser_page_title"@,
            "browser_notification_count"@,
            "browser_page_title_renamed"@,
            "browser_page_title_category"@,
            "terminal_username"@,
            "terminal_hostname"@,
            "terminal_directory"@,
            "terminal_project_name"@,
            "terminal_directory_renamed"@,
            "terminal_directory_category"@,
            "editor_filename"@,
            "editor_filepath"@,
            "editor_project_path"@,
            "editor_language"@,
            "editor_filename_renamed"@,
            "editor_filename_category"@,
            "tmux_window_name"@,
            "tmux_pane_count"@,
            "terminal_multiplexer"@,
            "tmux_window_name_renamed"@,
            "tmux_window_name_category"@,
            "ide_project_name"@,
            "ide_file_open"@,
            "ide_workspace"@,
            "parsed_data"@,
            "parsing_success"@,
            "is_afk"@,
            "is_idle"@,
            "idle_accumulation_secs"@,
        ],
        ({
            let row = row_added(statement, "sessions"@)->0;
            &&& is_text(row["app_name"@], session.app_name@)
            &&& is_optional_text(row["window_name"@], session.window_name)
            &&& row["start_time"@] == Value::Timestamp(session.start_time)
            &&& row["duration"@] == Value::Int8(Some(session.duration))
            &&& is_optional_text(row["category"@], session.category)
            &&& is_optional_text(row["browser_url"@], session.browser_url)
            &&& is_optional_text(row["browser_page_title"@], session.browser_page_title)
            &&& row["browser_notification_count"@] == Value::Int4(session.browser_notification_count)
            &&& is_optional_text(row["browser_page_title_renamed"@], session.browser_page_title_renamed)
            &&& is_optional_text(row["browser_page_title_category"@], session.browser_page_title_category)
            &&& is_optional_text(row["terminal_username"@], session.terminal_username)
            &&& is_optional_text(row["terminal_hostname"@], session.terminal_hostname)
            &&& is_optional_text(row["terminal_directory"@], session.terminal_directory)
            &&& is_optional_text(row["terminal_project_name"@], session.terminal_project_name)
            &&& is_optional_text(row["terminal_directory_renamed"@], session.terminal_directory_renamed)
            &&& is_optional_text(row["terminal_directory_category"@], session.terminal_directory_category)
            &&& is_optional_text(row["editor_filename"@], session.editor_filename)
            &&& is_optional_text(row["editor_filepath"@], session.editor_filepath)
            &&& is_optional_text(row["editor_project_path"@], session.editor_project_path)
            &&& is_optional_text(row["editor_language"@], session.editor_language)
            &&& is_optional_text(row["editor_filename_renamed"@], session.editor_filename_renamed)
            &&& is_optional_text(row["editor_filename_category"@], session.editor_filename_category)
            &&& is_optional_text(row["tmux_window_name"@], session.tmux_window_name)
            &&& row["tmux_pane_count"@] == Value::Int4(session.tmux_pane_count)
            &&& is_optional_text(row["terminal_multiplexer"@], session.terminal_multiplexer)
            &&& is_optional_text(row["tmux_window_name_renamed"@], session.tmux_window_name_renamed)
            &&& is_optional_text(row["tmux_window_name_category"@], session.tmux_window_name_category)
            &&& is_optional_text(row["ide_project_name"@], session.ide_project_name)
            &&& is_optional_text(row["ide_file_open"@], session.ide_file_open)
            &&& is_optional_text(row["ide_workspace"@], session.ide_workspace)
            &&& is_optional_json(row["parsed_data"@], session.parsed_data)
            &&& row["parsing_success"@] == Value::Bool(session.parsing_success)
            &&& row["is_afk"@] == Value::Bool(session.is_afk)
            &&& row["is_idle"@] == Value::Bool(session.is_idle)
            &&& row["idle_accumulation_secs"@] == Value::Int8(session.idle_accumulation_secs)
        }),
{
    lemma_insert_row(*session, statement);
    let row = row_added(statement, "sessions"@)->0;
    assert(row.contains_key(column_name(Column::AppName)));
    assert(row.contains_key(column_name(Column::WindowName)));
    assert(row.contains_key(column_name(Column::StartTime)));
    assert(row.contains_key(column_name(Column::Duration)));
    assert(row.contains_key(column_name(Column::Category)));
    assert(row.contains_key(column_name(Column::BrowserUrl)));
    assert(row.contains_key(column_name(Column::BrowserPageTitle)));
    assert(row.contains_key(column_name(Column::BrowserNotificationCount)));
    assert(row.contains_key(column_name(Column::BrowserPageTitleRenamed)));
    assert(row.contains_key(column_name(Column::BrowserPageTitleCategory)));
    assert(row.contains_key(column_name(Column::TerminalUsername)));
    assert(row.contains_key(column_name(Column::TerminalHostname)));
    assert(row.contains_key(column_name(Column::TerminalDirectory)));
    assert(row.contains_key(column_name(Column::TerminalProjectName)));
    assert(row.contains_key(column_name(Column::TerminalDirectoryRenamed)));
    assert(row.contains_key(column_name(Column::TerminalDirectoryCategory)));
    assert(row.contains_key(column_name(Column::EditorFilename)));
    assert(row.contains_key(column_name(Column::EditorFilepath)));
    assert(row.contains_key(column_name(Column::EditorProjectPath)));
    assert(row.contains_key(column_name(Column::EditorLanguage)));
    assert(row.contains_key(column_name(Column::EditorFilenameRenamed)));
    assert(row.contains_key(column_name(Column::EditorFilenameCategory)));
    assert(row.contains_key(column_name(Column::TmuxWindowName)));
    assert(row.contains_key(column_name(Column::TmuxPaneCount)));
    assert(row.contains_key(column_name(Column::TerminalMultiplexer)));
    assert(row.contains_key(column_name(Column::TmuxWindowNameRenamed)));
    assert(row.contains_key(column_name(Column::TmuxWindowNameCategory)));
    assert(row.contains_key(column_name(Column::IdeProjectName)));
    assert(row.contains_key(column_name(Column::IdeFileOpen)));
    assert(row.contains_key(column_name(Column::IdeWorkspace)));
    assert(row.contains_key(column_name(Column::ParsedData)));
    assert(row.contains_key(column_name(Column::ParsingSuccess)));
    assert(row.contains_key(column_name(Column::IsAfk)));
    assert(row.contains_key(column_name(Column::IsIdle)));
    assert(row.contains_key(column_name(Column::IdleAccumulationSecs)));
    assert(columns_filled(statement) =~= seq![
            "app_name"@,
            "window_name"@,
            "start_time"@,
            "duration"@,
            "category"@,
            "browser_url"@,
            "browser_page_title"@,
            "browser_notification_count"@,
            "browser_page_title_renamed"@,
            "browser_page_title_category"@,
            "terminal_username"@,
            "terminal_hostname"@,
            "terminal_directory"@,
            "terminal_project_name"@,
            "terminal_directory_renamed"@,
            "terminal_directory_category"@,
            "editor_filename"@,
            "editor_filepath"@,
            "editor_project_path"@,
            "editor_language"@,
            "editor_filename_renamed"@,
            "editor_filename_category"@,
            "tmux_window_name"@,
            "tmux_pane_count"@,
            "terminal_multiplexer"@,
            "tmux_window_name_renamed"@,
            "tmux_window_name_category"@,
            "ide_project_name"@,
            "ide_file_open"@,
            "ide_workspace"@,
            "parsed_data"@,
            "parsing_success"@,
            "is_afk"@,
            "is_idle"@,
            "idle_accumulation_secs"@,
        ]);
}

/// The statement that stores a known session anew sets, in the row of `sessions`
/// whose key is the session's and in no other, the columns to what the session
/// holds under the same names, each unchanged; the start time, and whatever else
/// the row holds, stays as it was.
#[verifier::rlimit(60)]
pub proof fn law_update_overwrites_the_session<P, C>(
    database: &Database<P, C>,
    session: &Session,
    statement: Statement,
    key: i32,
    row: Row,
)
    requires
        call_ensures(
            Database::<P, C>::update_session,
            (database, session),
            Ok::<Statement, DatabaseError>(statement),
        ),
    ensures
        statement.fetch == Fetch::Execute,
        session.id is Some,
        row_after(statement, "sessions"@, key, row) is Some,
        session.id != Some(key) ==> row_after(statement, "sessions"@, key, row) == Some(row),
        columns_set(statement) == seq![
            "app_name"@,
            "window_name"@,
            "duration"@,
            "category"@,
            "browser_url"@,
            "browser_page_title"@,
            "browser_notification_count"@,
            "browser_page_title_renamed"@,
            "browser_page_title_category"@,
            "terminal_username"@,
            "terminal_hostname"@,
            "terminal_directory"@,
            "terminal_project_name"@,
            "terminal_directory_renamed"@,
            "terminal_directory_category"@,
            "editor_filename"@,
            "editor_filepath"@,
            "editor_project_path"@,
            "editor_language"@,
            "editor_filename_renamed"@,
            "editor_filename_category"@,
            "tmux_window_name"@,
            "tmux_pane_count"@,
            "terminal_multiplexer"@,
            "tmux_window_name_renamed"@,
            "tmux_window_name_category"@,
            "ide_project_name"@,
            "ide_file_open"@,
            "ide_workspace"@,
            "parsed_data"@,
            "parsing_success"@,
            "is_afk"@,
            "is_idle"@,
            "idle_accumulation_secs"@,
        ],
        ({
            let after = row_after(statement, "sessions"@, key, row)->0;
            &&& after.contains_key("start_time"@) == row.contains_key("start_time"@)
            &&& after["start_time"@] == row["start_time"@]
            &&& forall|name: Seq<char>|
                !columns_set(statement).contains(name) ==> (#[trigger] after.contains_key(name)
                    == row.contains_key(name)) && after[name] == row[name]
        }),
        session.id == Some(key) ==> {
            let after = row_after(statement, "sessions"@, key, row)->0;
            &&& is_text(after["app_name"@], session.app_name@)
            &&& is_optional_text(after["window_name"@], session.window_name)
            &&& after["duration"@] == Value::Int8(Some(session.duration))
            &&& is_optional_text(after["category"@], session.category)
            &&& is_optional_text(after["browser_url"@], session.browser_url)
            &&& is_optional_text(after["browser_page_title"@], session.browser_page_title)
            &&& after["browser_notification_count"@] == Value::Int4(session.browser_notification_count)
            &&& is_optional_text(after["browser_page_title_renamed"@], session.browser_page_title_renamed)
            &&& is_optional_text(after["browser_page_title_category"@], session.browser_page_title_category)
            &&& is_optional_text(after["terminal_username"@], session.terminal_username)
            &&& is_optional_text(after["terminal_hostname"@], session.terminal_hostname)
            &&& is_optional_text(after["terminal_directory"@], session.terminal_directory)
            &&& is_optional_text(after["terminal_project_name"@], session.terminal_project_name)
            &&& is_optional_text(after["terminal_directory_renamed"@], session.terminal_directory_renamed)
            &&& is_optional_text(after["terminal_directory_category"@], session.terminal_directory_category)
            &&& is_optional_text(after["editor_filename"@], session.editor_filename)
            &&& is_optional_text(after["editor_filepath"@], session.editor_filepath)
            &&& is_optional_text(after["editor_project_path"@], session.editor_project_path)
            &&& is_optional_text(after["editor_language"@], session.editor_language)
            &&& is_optional_text(after["editor_filename_renamed"@], session.editor_filename_renamed)
            &&& is_optional_text(after["editor_filename_category"@], session.editor_filename_category)
            &&& is_optional_text(after["tmux_window_name"@], session.tmux_window_name)
            &&& after["tmux_pane_count"@] == Value::Int4(session.tmux_pane_count)
            &&& is_optional_text(after["terminal_multiplexer"@], session.terminal_multiplexer)
            &&& is_optional_text(after["tmux_window_name_renamed"@], session.tmux_window_name_renamed)
            &&& is_optional_text(after["tmux_window_name_category"@], session.tmux_window_name_category)
            &&& is_optional_text(after["ide_project_name"@], session.ide_project_name)
            &&& is_optional_text(after["ide_file_open"@], session.ide_file_open)
            &&& is_optional_text(after["ide_workspace"@], session.ide_workspace)
            &&& is_optional_json(after["parsed_data"@], session.parsed_data)
            &&& after["parsing_success"@] == Value::Bool(session.parsing_success)
            &&& after["is_afk"@] == Value::Bool(session.is_afk)
            &&& after["is_idle"@] == Value::Bool(session.is_idle)
            &&& after["idle_accumulation_secs"@] == Value::Int8(session.idle_accumulation_secs)
        },
{
    lemma_update_row(*session, session.id->0, statement, key, row);
    let after = row_after(statement, "sessions"@, key, row)->0;
    assert(after.contains_key("start_time"@) == row.contains_key("start_time"@));
    if session.id == Some(key) {
        assert(after.contains_key(column_name(Column::AppName)));
        assert(after.contains_key(column_name(Column::WindowName)));
        assert(after.contains_key(column_name(Column::Duration)));
        assert(after.contains_key(column_name(Column::Category)));
        assert(after.contains_key(column_name(Column::BrowserUrl)));
        assert(after.contains_key(column_name(Column::BrowserPageTitle)));
        assert(after.contains_key(column_name(Column::BrowserNotificationCount)));
        assert(after.contains_key(column_name(Column::BrowserPageTitleRenamed)));
        assert(after.contains_key(column_name(Column::BrowserPageTitleCategory)));
        assert(after.contains_key(column_name(Column::TerminalUsername)));
        assert(after.contains_key(column_name(Column::TerminalHostname)));
        assert(after.contains_key(column_name(Column::TerminalDirectory)));
        assert(after.contains_key(column_name(Column::TerminalProjectName)));
        assert(after.contains_key(column_name(Column::TerminalDirectoryRenamed)));
        assert(after.contains_key(column_name(Column::TerminalDirectoryCategory)));
        assert(after.contains_key(column_name(Column::EditorFilename)));
        assert(after.contains_key(column_name(Column::EditorFilepath)));
        assert(after.contains_key(column_name(Column::EditorProjectPath)));
        assert(after.contains_key(column_name(Column::EditorLanguage)));
        assert(after.contains_key(column_name(Column::EditorFilenameRenamed)));
        assert(after.contains_key(column_name(Column::EditorFilenameCategory)));
        assert(after.contains_key(column_name(Column::TmuxWindowName)));
        assert(after.contains_key(column_name(Column::TmuxPaneCount)));
        assert(after.contains_key(column_name(Column::TerminalMultiplexer)));
        assert(after.contains_key(column_name(Column::TmuxWindowNameRenamed)));
        assert(after.contains_key(column_name(Column::TmuxWindowNameCategory)));
        assert(after.contains_key(column_name(Column::IdeProjectName)));
        assert(after.contains_key(column_name(Column::IdeFileOpen)));
        assert(after.contains_key(column_name(Column::IdeWorkspace)));
        assert(after.contains_key(column_name(Column::ParsedData)));
        assert(after.contains_key(column_name(Column::ParsingSuccess)));
        assert(after.contains_key(column_name(Column::IsAfk)));
        assert(after.contains_key(column_name(Column::IsIdle)));
        assert(after.contains_key(column_name(Column::IdleAccumulationSecs)));
    }
    assert(columns_set(statement) =~= seq![
            "app_name"@,
            "window_name"@,
            "duration"@,
            "category"@,
            "browser_url"@,
            "browser_page_title"@,
            "browser_notification_count"@,
            "browser_page_title_renamed"@,
            "browser_page_title_category"@,
            "terminal_username"@,
            "terminal_hostname"@,
            "terminal_directory"@,
            "terminal_project_name"@,
            "terminal_directory_renamed"@,
            "terminal_directory_category"@,
            "editor_filename"@,
            "editor_filepath"@,
            "editor_project_path"@,
            "editor_language"@,
            "editor_filename_renamed"@,
            "editor_filename_category"@,
            "tmux_window_name"@,
            "tmux_pane_count"@,
            "terminal_multiplexer"@,
            "tmux_window_name_renamed"@,
            "tmux_window_name_category"@,
            "ide_project_name"@,
            "ide_file_open"@,
            "ide_workspace"@,
            "parsed_data"@,
            "parsing_success"@,
            "is_afk"@,
            "is_idle"@,
            "idle_accumulation_secs"@,
        ]);
}

/// Only the writer stores: a reader is refused every time, and told that it only
/// reads; the writer is refused only the overwriting of a session without a key.
pub proof fn law_only_the_writer_stores<P, C>(
    database: &Database<P, C>,
    is_writer: bool,
    session: &Session,
    inserted: Result<Statement, DatabaseError>,
    updated: Result<Statement, DatabaseError>,
    persisted: Result<Storing, DatabaseError>,
)
    requires
        call_ensures(Database::<P, C>::is_writer, (database,), is_writer),
        call_ensures(Database::<P, C>::insert_session, (database, session), inserted),
        call_ensures(Database::<P, C>::update_session, (database, session), updated),
        call_ensures(Database::<P, C>::persist_session, (database, session), persisted),
    ensures
        inserted is Ok <==> is_writer,
        updated is Ok <==> is_writer && session.id is Some,
        persisted is Ok <==> is_writer,
        !is_writer ==> inserted == Err::<Statement, DatabaseError>(DatabaseError::ReadOnly),
        !is_writer ==> updated == Err::<Statement, DatabaseError>(DatabaseError::ReadOnly),
        !is_writer ==> persisted == Err::<Storing, DatabaseError>(DatabaseError::ReadOnly),
        is_writer && session.id is None ==> updated == Err::<Statement, DatabaseError>(
            DatabaseError::MissingId,
        ),
{
}

pub(crate) proof fn lemma_same_statement(a: Statement, b: Statement)
    requires
        a@ == b@,
    ensures
        same_statement(a, b),
{
    assert(a.params@.len() == params_view(a.params@).len());
    assert(b.params@.len() == params_view(b.params@).len());
    assert forall|i: int| 0 <= i < a.params@.len() implies same_value(
        a.params@[i],
        #[trigger] b.params@[i],
    ) by {
        assert(params_view(a.params@)[i] == a.params@[i]@);
        assert(params_view(b.params@)[i] == b.params@[i]@);
    }
}

/// Persisting a session with a key is updating it, and persisting one without a key
/// is inserting it: what is sent is the same.
pub proof fn law_persisting_updates_or_inserts<P, C>(
    database: &Database<P, C>,
    session: &Session,
    inserted: Statement,
    persisted: Storing,
)
    requires
        call_ensures(
            Database::<P, C>::insert_session,
            (database, session),
            Ok::<Statement, DatabaseError>(inserted),
        ),
        call_ensures(
            Database::<P, C>::persist_session,
            (database, session),
            Ok::<Storing, DatabaseError>(persisted),
        ),
    ensures
        match persisted {
            Storing::Update { id, statement } => {
                &&& session.id == Some(id)
                &&& forall|updated: Statement|
                    call_ensures(
                        Database::<P, C>::update_session,
                        (database, session),
                        Ok::<Statement, DatabaseError>(updated),
                    ) ==> #[trigger] same_statement(updated, statement)
            },
            Storing::Insert { statement } => {
                &&& session.id is None
                &&& same_statement(inserted, statement)
            },
        },
{
    match persisted {
        Storing::Update { id, statement } => {
            assert forall|updated: Statement|
                call_ensures(
                    Database::<P, C>::update_session,
                    (database, session),
                    Ok::<Statement, DatabaseError>(updated),
                ) implies #[trigger] same_statement(updated, statement) by {
                lemma_same_statement(updated, statement);
            }
        },
        Storing::Insert { statement } => {
            lemma_same_statement(inserted, statement);
        },
    }
}

/// What is reported of a session that was persisted: its own key if its row was
/// overwritten, the key that came back if it got a new row, and the reason if the
/// statement failed.
pub proof fn law_reported_key<P, C>(
    database: &Database<P, C>,
    session: &Session,
    storing: Storing,
    reply: StoringReply,
    result: Result<i32, DatabaseError>,
)
    requires
        call_ensures(
            Database::<P, C>::persist_session,
            (database, session),
            Ok::<Storing, DatabaseError>(storing),
        ),
        call_ensures(Storing::stored_id, (&storing, reply), result),
        match reply {
            StoringReply::Updated => session.id is Some,
            StoringReply::Inserted { .. } => session.id is None,
            StoringReply::Failed { .. } => true,
        },
    ensures
        call_requires(Storing::stored_id, (&storing, reply)),
        match reply {
            StoringReply::Updated => result == Ok::<i32, DatabaseError>(session.id->0),
            StoringReply::Inserted { id } => result == Ok::<i32, DatabaseError>(id),
            StoringReply::Failed { reason } => result matches Err(DatabaseError::Backend {
                reason: reported,
            }) && reported@ == reason@,
        },
{
}

} // verus!
