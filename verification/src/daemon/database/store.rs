//! Writing sessions: the statements that store a session and what they leave in
//! its row.
use vstd::prelude::*;
use crate::daemon::database::columns::{
    column_name, entry, field, insert_layout, insert_slots, listed, push_listed, session_params,
    session_values, update_layout, update_slots, Column, Listing, Slot,
};
use crate::daemon::database::statement::{
    params_view, placeholder, push_placeholder, Fetch, Statement, StatementView, Value, ValueView,
};
use crate::models::session::{Session, SessionView};

verus! {

/// The text that adds a row for a new session and asks for its key.
pub open spec fn insert_sql() -> Seq<char> {
    "\n            INSERT INTO sessions (\n                "@ + listed(
        insert_layout(),
        Listing::Names,
        insert_layout().len(),
    ) + "\n            ) VALUES (\n                "@ + listed(
        insert_layout(),
        Listing::Placeholders,
        insert_layout().len(),
    ) + "\n            ) RETURNING id\n            "@
}

/// The text that overwrites the row of a known session.  Its key is the last
/// parameter.
pub open spec fn update_sql() -> Seq<char> {
    "\n            UPDATE sessions SET\n                "@ + listed(
        update_layout(),
        Listing::Assignments,
        update_layout().len(),
    ) + "\n            WHERE id = "@ + placeholder(update_layout().len() + 1) + "\n            "@
}

/// The statement that adds a row for `session`.
pub open spec fn insert_statement(session: SessionView) -> StatementView {
    StatementView {
        sql: insert_sql(),
        params: session_values(session, insert_layout()),
        fetch: Fetch::One,
    }
}

/// The statement that overwrites the row with key `id` by `session`.
pub open spec fn update_statement(session: SessionView, id: i32) -> StatementView {
    StatementView {
        sql: update_sql(),
        params: session_values(session, update_layout()).push(ValueView::Int4(Some(id))),
        fetch: Fetch::Execute,
    }
}

/// Builds [`insert_statement`].
pub(crate) fn build_insert(session: &Session) -> (statement: Statement)
    ensures
        statement@ == insert_statement(session@),
{
    let slots = insert_slots();
    let mut sql = "\n            INSERT INTO sessions (\n                ".to_owned();
    push_listed(&mut sql, &slots, Listing::Names);
    sql.append("\n            ) VALUES (\n                ");
    push_listed(&mut sql, &slots, Listing::Placeholders);
    sql.append("\n            ) RETURNING id\n            ");
    Statement { sql, params: session_params(session, &slots), fetch: Fetch::One }
}

/// Builds [`update_statement`].
pub(crate) fn build_update(session: &Session, id: i32) -> (statement: Statement)
    ensures
        statement@ == update_statement(session@, id),
{
    let slots = update_slots();
    let mut sql = "\n            UPDATE sessions SET\n                ".to_owned();
    push_listed(&mut sql, &slots, Listing::Assignments);
    sql.append("\n            WHERE id = ");
    push_placeholder(&mut sql, slots.len() + 1);
    sql.append("\n            ");
    let mut params = session_params(session, &slots);
    let ghost fields = params_view(params@);
    params.push(Value::Int4(Some(id)));
    assert(params_view(params@) =~= fields.push(ValueView::Int4(Some(id))));
    Statement { sql, params, fetch: Fetch::Execute }
}

/// Each listed column is bound, through its own placeholder, to the session's
/// value for it; the key is bound last, through the placeholder after theirs.
pub proof fn law_parameters_match_columns(session: SessionView, id: i32, i: int)
    ensures
        insert_statement(session).params.len() == insert_layout().len(),
        0 <= i < insert_layout().len() ==> {
            let slot = insert_layout()[i];
            &&& entry(insert_layout(), Listing::Names, i) == column_name(slot.column)
            &&& entry(insert_layout(), Listing::Placeholders, i) == placeholder((i + 1) as nat)
            &&& insert_statement(session).params[i] == field(session, slot.column)
        },
        update_statement(session, id).params.len() == update_layout().len() + 1,
        update_statement(session, id).params.last() == ValueView::Int4(Some(id)),
        0 <= i < update_layout().len() ==> {
            let slot = update_layout()[i];
            &&& entry(update_layout(), Listing::Assignments, i) == column_name(slot.column)
                + " = "@ + placeholder((i + 1) as nat)
            &&& update_statement(session, id).params[i] == field(session, slot.column)
        },
{
}

/// The row that writing `values` to the first `n` columns of `slots`, one after
/// the other, leaves of `row`.
pub open spec fn written(
    row: Map<Column, ValueView>,
    slots: Seq<Slot>,
    values: Seq<ValueView>,
    n: nat,
) -> Map<Column, ValueView>
    decreases n,
{
    if n == 0 {
        row
    } else {
        written(row, slots, values, (n - 1) as nat).insert(
            slots[n - 1].column,
            values[n - 1],
        )
    }
}

/// The row that [`insert_statement`] creates for `session`.
pub open spec fn inserted_row(session: SessionView) -> Map<Column, ValueView> {
    written(
        Map::empty(),
        insert_layout(),
        insert_statement(session).params,
        insert_layout().len(),
    )
}

/// The row that [`update_statement`] for `session` leaves of `row`.
pub open spec fn updated_row(row: Map<Column, ValueView>, session: SessionView) -> Map<
    Column,
    ValueView,
> {
    written(
        row,
        update_layout(),
        session_values(session, update_layout()),
        update_layout().len(),
    )
}

/// No column is listed twice.
pub open spec fn distinct(slots: Seq<Slot>) -> bool {
    forall|i: int, j: int|
        0 <= i < j < slots.len() ==> (#[trigger] slots[i]).column != (#[trigger] slots[j]).column
}

/// `column` is listed.
pub open spec fn lists(slots: Seq<Slot>, column: Column) -> bool {
    exists|i: int| 0 <= i < slots.len() && (#[trigger] slots[i]).column == column
}

/// The place of `column` in [`insert_layout`].
spec fn insert_place(column: Column) -> int {
    match column {
        Column::AppName => 0,
        Column::WindowName => 1,
        Column::StartTime => 2,
        Column::Duration => 3,
        Column::Category => 4,
        Column::BrowserUrl => 5,
        Column::BrowserPageTitle => 6,
        Column::BrowserNotificationCount => 7,
        Column::BrowserPageTitleRenamed => 8,
        Column::BrowserPageTitleCategory => 9,
        Column::TerminalUsername => 10,
        Column::TerminalHostname => 11,
        Column::TerminalDirectory => 12,
        Column::TerminalProjectName => 13,
        Column::TerminalDirectoryRenamed => 14,
        Column::TerminalDirectoryCategory => 15,
        Column::EditorFilename => 16,
        Column::EditorFilepath => 17,
        Column::EditorProjectPath => 18,
        Column::EditorLanguage => 19,
        Column::EditorFilenameRenamed => 20,
        Column::EditorFilenameCategory => 21,
        Column::TmuxWindowName => 22,
        Column::TmuxPaneCount => 23,
        Column::TerminalMultiplexer => 24,
        Column::TmuxWindowNameRenamed => 25,
        Column::TmuxWindowNameCategory => 26,
        Column::IdeProjectName => 27,
        Column::IdeFileOpen => 28,
        Column::IdeWorkspace => 29,
        Column::ParsedData => 30,
        Column::ParsingSuccess => 31,
        Column::IsAfk => 32,
        Column::IsIdle => 33,
        Column::IdleAccumulationSecs => 34,
    }
}

/// The place of `column`, other than the start time, in [`update_layout`].
spec fn update_place(column: Column) -> int {
    if insert_place(column) < 2 {
        insert_place(column)
    } else {
        insert_place(column) - 1
    }
}

proof fn lemma_insert_place(column: Column)
    ensures
        0 <= insert_place(column) < insert_layout().len(),
        insert_layout()[insert_place(column)].column == column,
{
}

proof fn lemma_update_place(column: Column)
    requires
        column != Column::StartTime,
    ensures
        0 <= update_place(column) < update_layout().len(),
        update_layout()[update_place(column)].column == column,
{
}

proof fn lemma_insert_place_inverse(i: int)
    requires
        0 <= i < insert_layout().len(),
    ensures
        insert_place(insert_layout()[i].column) == i,
{
}

proof fn lemma_update_place_inverse(i: int)
    requires
        0 <= i < update_layout().len(),
    ensures
        update_layout()[i].column != Column::StartTime,
        update_place(update_layout()[i].column) == i,
{
}

/// Writing distinct columns leaves each with its own value and the others as
/// they were.
proof fn lemma_written(
    row: Map<Column, ValueView>,
    slots: Seq<Slot>,
    values: Seq<ValueView>,
    n: nat,
    column: Column,
)
    requires
        n <= slots.len(),
        distinct(slots),
    ensures
        forall|i: int|
            0 <= i < n && (#[trigger] slots[i]).column == column ==> written(
                row,
                slots,
                values,
                n,
            ).contains_key(column) && written(row, slots, values, n)[column] == values[i],
        (forall|i: int| 0 <= i < n ==> (#[trigger] slots[i]).column != column) ==> (written(
            row,
            slots,
            values,
            n,
        ).contains_key(column) == row.contains_key(column) && written(
            row,
            slots,
            values,
            n,
        )[column] == row[column]),
    decreases n,
{
    if n > 0 {
        lemma_written(row, slots, values, (n - 1) as nat, column);
    }
}

/// Neither statement lists a column twice; inserting lists every column, and
/// updating every one but the start time.
pub proof fn law_layouts_cover_columns()
    ensures
        distinct(insert_layout()),
        distinct(update_layout()),
        forall|column: Column| #[trigger] lists(insert_layout(), column),
        forall|column: Column| #[trigger]
            lists(update_layout(), column) <==> column != Column::StartTime,
{
    assert forall|i: int, j: int| 0 <= i < j < insert_layout().len() implies (
    #[trigger] insert_layout()[i]).column != (#[trigger] insert_layout()[j]).column by {
        lemma_insert_place_inverse(i);
        lemma_insert_place_inverse(j);
    }
    assert forall|i: int, j: int| 0 <= i < j < update_layout().len() implies (
    #[trigger] update_layout()[i]).column != (#[trigger] update_layout()[j]).column by {
        lemma_update_place_inverse(i);
        lemma_update_place_inverse(j);
    }
    assert forall|column: Column| #[trigger] lists(insert_layout(), column) by {
        lemma_insert_place(column);
        assert(insert_layout()[insert_place(column)].column == column);
    }
    assert forall|column: Column| #[trigger]
        lists(update_layout(), column) <==> column != Column::StartTime by {
        if column != Column::StartTime {
            lemma_update_place(column);
            assert(update_layout()[update_place(column)].column == column);
        } else {
            assert forall|i: int| 0 <= i < update_layout().len() implies (
            #[trigger] update_layout()[i]).column != column by {
                lemma_update_place_inverse(i);
            }
        }
    }
}

/// Inserting a session gives every column the session's value for it.
pub proof fn law_insert_stores_every_field(session: SessionView, column: Column)
    ensures
        inserted_row(session).contains_key(column),
        inserted_row(session)[column] == field(session, column),
{
    law_layouts_cover_columns();
    lemma_insert_place(column);
    lemma_written(
        Map::empty(),
        insert_layout(),
        insert_statement(session).params,
        insert_layout().len(),
        column,
    );
    assert(insert_layout()[insert_place(column)].column == column);
}

/// Updating a row gives every column the session's value for it, except that
/// the start time stays what it was.
pub proof fn law_update_keeps_start_time(
    row: Map<Column, ValueView>,
    session: SessionView,
    column: Column,
)
    requires
        row.contains_key(column),
    ensures
        updated_row(row, session).contains_key(column),
        updated_row(row, session)[column] == if column == Column::StartTime {
            row[column]
        } else {
            field(session, column)
        },
{
    law_layouts_cover_columns();
    let values = session_values(session, update_layout());
    lemma_written(row, update_layout(), values, update_layout().len(), column);
    if column == Column::StartTime {
        assert forall|i: int| 0 <= i < update_layout().len() implies (
        #[trigger] update_layout()[i]).column != column by {
            lemma_update_place_inverse(i);
        }
    } else {
        lemma_update_place(column);
        assert(update_layout()[update_place(column)].column == column);
    }
}

/// A row tells sessions apart: two sessions with the same key and the same value
/// in every column are the same session.
pub proof fn law_row_determines_session(a: SessionView, b: SessionView)
    requires
        a.id == b.id,
        forall|column: Column| field(a, column) == field(b, column),
    ensures
        a == b,
{
    assert(field(a, Column::AppName) == field(b, Column::AppName));
    assert(field(a, Column::WindowName) == field(b, Column::WindowName));
    assert(field(a, Column::StartTime) == field(b, Column::StartTime));
    assert(field(a, Column::Duration) == field(b, Column::Duration));
    assert(field(a, Column::Category) == field(b, Column::Category));
    assert(field(a, Column::BrowserUrl) == field(b, Column::BrowserUrl));
    assert(field(a, Column::BrowserPageTitle) == field(b, Column::BrowserPageTitle));
    assert(field(a, Column::BrowserNotificationCount) == field(b, Column::BrowserNotificationCount));
    assert(field(a, Column::BrowserPageTitleRenamed) == field(b, Column::BrowserPageTitleRenamed));
    assert(field(a, Column::BrowserPageTitleCategory) == field(b, Column::BrowserPageTitleCategory));
    assert(field(a, Column::TerminalUsername) == field(b, Column::TerminalUsername));
    assert(field(a, Column::TerminalHostname) == field(b, Column::TerminalHostname));
    assert(field(a, Column::TerminalDirectory) == field(b, Column::TerminalDirectory));
    assert(field(a, Column::TerminalProjectName) == field(b, Column::TerminalProjectName));
    assert(field(a, Column::TerminalDirectoryRenamed) == field(b, Column::TerminalDirectoryRenamed));
    assert(field(a, Column::TerminalDirectoryCategory) == field(b, Column::TerminalDirectoryCategory));
    assert(field(a, Column::EditorFilename) == field(b, Column::EditorFilename));
    assert(field(a, Column::EditorFilepath) == field(b, Column::EditorFilepath));
    assert(field(a, Column::EditorProjectPath) == field(b, Column::EditorProjectPath));
    assert(field(a, Column::EditorLanguage) == field(b, Column::EditorLanguage));
    assert(field(a, Column::EditorFilenameRenamed) == field(b, Column::EditorFilenameRenamed));
    assert(field(a, Column::EditorFilenameCategory) == field(b, Column::EditorFilenameCategory));
    assert(field(a, Column::TmuxWindowName) == field(b, Column::TmuxWindowName));
    assert(field(a, Column::TmuxPaneCount) == field(b, Column::TmuxPaneCount));
    assert(field(a, Column::TerminalMultiplexer) == field(b, Column::TerminalMultiplexer));
    assert(field(a, Column::TmuxWindowNameRenamed) == field(b, Column::TmuxWindowNameRenamed));
    assert(field(a, Column::TmuxWindowNameCategory) == field(b, Column::TmuxWindowNameCategory));
    assert(field(a, Column::IdeProjectName) == field(b, Column::IdeProjectName));
    assert(field(a, Column::IdeFileOpen) == field(b, Column::IdeFileOpen));
    assert(field(a, Column::IdeWorkspace) == field(b, Column::IdeWorkspace));
    assert(field(a, Column::ParsedData) == field(b, Column::ParsedData));
    assert(field(a, Column::ParsingSuccess) == field(b, Column::ParsingSuccess));
    assert(field(a, Column::IsAfk) == field(b, Column::IsAfk));
    assert(field(a, Column::IsIdle) == field(b, Column::IsIdle));
    assert(field(a, Column::IdleAccumulationSecs) == field(b, Column::IdleAccumulationSecs));
}

/// Inserting a session and then updating its row by a session that started at
/// the same time leaves the row that inserting the second one creates.
pub proof fn law_update_replaces_insert(first: SessionView, second: SessionView)
    requires
        first.start_time == second.start_time,
    ensures
        updated_row(inserted_row(first), second) == inserted_row(second),
{
    assert forall|column: Column|
        #![trigger inserted_row(second)[column]]
        #![trigger inserted_row(second).contains_key(column)]
        updated_row(inserted_row(first), second).contains_key(column) && inserted_row(
            second,
        ).contains_key(column) && updated_row(inserted_row(first), second)[column]
            == inserted_row(second)[column] by {
        law_insert_stores_every_field(first, column);
        law_insert_stores_every_field(second, column);
        law_update_keeps_start_time(inserted_row(first), second, column);
    }
    assert(updated_row(inserted_row(first), second) =~= inserted_row(second));
}

/// The length of a name and three of its characters.
spec fn mark(name: Seq<char>) -> (nat, char, char, char) {
    (name.len(), name[0], name[name.len() - 6], name[name.len() - 4])
}

/// The [`mark`] of each column's name.
spec fn column_mark(column: Column) -> (nat, char, char, char) {
    match column {
        Column::AppName => (8, 'a', 'p', 'n'),
        Column::WindowName => (11, 'w', 'w', 'n'),
        Column::StartTime => (10, 's', 't', 't'),
        Column::Duration => (8, 'd', 'r', 't'),
        Column::Category => (8, 'c', 't', 'g'),
        Column::BrowserUrl => (11, 'b', 'e', '_'),
        Column::BrowserPageTitle => (18, 'b', '_', 'i'),
        Column::BrowserNotificationCount => (26, 'b', '_', 'o'),
        Column::BrowserPageTitleRenamed => (26, 'b', 'e', 'a'),
        Column::BrowserPageTitleCategory => (27, 'b', 't', 'g'),
        Column::TerminalUsername => (17, 't', 'e', 'n'),
        Column::TerminalHostname => (17, 't', 's', 'n'),
        Column::TerminalDirectory => (18, 't', 'e', 't'),
        Column::TerminalProjectName => (21, 't', 't', 'n'),
        Column::TerminalDirectoryRenamed => (26, 't', 'e', 'a'),
        Column::TerminalDirectoryCategory => (27, 't', 't', 'g'),
        Column::EditorFilename => (15, 'e', 'l', 'n'),
        Column::EditorFilepath => (15, 'e', 'l', 'p'),
        Column::EditorProjectPath => (19, 'e', 't', 'p'),
        Column::EditorLanguage => (15, 'e', 'n', 'u'),
        Column::EditorFilenameRenamed => (23, 'e', 'e', 'a'),
        Column::EditorFilenameCategory => (24, 'e', 't', 'g'),
        Column::TmuxWindowName => (16, 't', 'w', 'n'),
        Column::TmuxPaneCount => (15, 't', '_', 'o'),
        Column::TerminalMultiplexer => (20, 't', 'p', 'e'),
        Column::TmuxWindowNameRenamed => (24, 't', 'e', 'a'),
        Column::TmuxWindowNameCategory => (25, 't', 't', 'g'),
        Column::IdeProjectName => (16, 'i', 't', 'n'),
        Column::IdeFileOpen => (13, 'i', 'e', 'o'),
        Column::IdeWorkspace => (13, 'i', 'k', 'p'),
        Column::ParsedData => (11, 'p', 'd', 'd'),
        Column::ParsingSuccess => (15, 'p', 'u', 'c'),
        Column::IsAfk => (6, 'i', 'i', '_'),
        Column::IsIdle => (7, 'i', 's', 'i'),
        Column::IdleAccumulationSecs => (22, 'i', 'n', 's'),
    }
}

proof fn lemma_column_mark(column: Column)
    ensures
        mark(column_name(column)) == column_mark(column),
{
    match column {
        Column::AppName => {
            reveal_strlit("app_name");
        },
        Column::WindowName => {
            reveal_strlit("window_name");
        },
        Column::StartTime => {
            reveal_strlit("start_time");
        },
        Column::Duration => {
            reveal_strlit("duration");
        },
        Column::Category => {
            reveal_strlit("category");
        },
        Column::BrowserUrl => {
            reveal_strlit("browser_url");
        },
        Column::BrowserPageTitle => {
            reveal_strlit("browser_page_title");
        },
        Column::BrowserNotificationCount => {
            reveal_strlit("browser_notification_count");
        },
        Column::BrowserPageTitleRenamed => {
            reveal_strlit("browser_page_title_renamed");
        },
        Column::BrowserPageTitleCategory => {
            reveal_strlit("browser_page_title_category");
        },
        Column::TerminalUsername => {
            reveal_strlit("terminal_username");
        },
        Column::TerminalHostname => {
            reveal_strlit("terminal_hostname");
        },
        Column::TerminalDirectory => {
            reveal_strlit("terminal_directory");
        },
        Column::TerminalProjectName => {
            reveal_strlit("terminal_project_name");
        },
        Column::TerminalDirectoryRenamed => {
            reveal_strlit("terminal_directory_renamed");
        },
        Column::TerminalDirectoryCategory => {
            reveal_strlit("terminal_directory_category");
        },
        Column::EditorFilename => {
            reveal_strlit("editor_filename");
        },
        Column::EditorFilepath => {
            reveal_strlit("editor_filepath");
        },
        Column::EditorProjectPath => {
            reveal_strlit("editor_project_path");
        },
        Column::EditorLanguage => {
            reveal_strlit("editor_language");
        },
        Column::EditorFilenameRenamed => {
            reveal_strlit("editor_filename_renamed");
        },
        Column::EditorFilenameCategory => {
            reveal_strlit("editor_filename_category");
        },
        Column::TmuxWindowName => {
            reveal_strlit("tmux_window_name");
        },
        Column::TmuxPaneCount => {
            reveal_strlit("tmux_pane_count");
        },
        Column::TerminalMultiplexer => {
            reveal_strlit("terminal_multiplexer");
        },
        Column::TmuxWindowNameRenamed => {
            reveal_strlit("tmux_window_name_renamed");
        },
        Column::TmuxWindowNameCategory => {
            reveal_strlit("tmux_window_name_category");
        },
        Column::IdeProjectName => {
            reveal_strlit("ide_project_name");
        },
        Column::IdeFileOpen => {
            reveal_strlit("ide_file_open");
        },
        Column::IdeWorkspace => {
            reveal_strlit("ide_workspace");
        },
        Column::ParsedData => {
            reveal_strlit("parsed_data");
        },
        Column::ParsingSuccess => {
            reveal_strlit("parsing_success");
        },
        Column::IsAfk => {
            reveal_strlit("is_afk");
        },
        Column::IsIdle => {
            reveal_strlit("is_idle");
        },
        Column::IdleAccumulationSecs => {
            reveal_strlit("idle_accumulation_secs");
        },
    }
}

/// Distinct columns have distinct names.
pub proof fn law_column_names_distinct(a: Column, b: Column)
    requires
        column_name(a) == column_name(b),
    ensures
        a == b,
{
    lemma_column_mark(a);
    lemma_column_mark(b);
}

/// The `sessions` table: its rows by their keys.
pub type Table = Map<i32, Map<Column, ValueView>>;

/// The table after an `INSERT` with these parameters, for which PostgreSQL chose
/// `key`.
pub open spec fn table_after_insert(table: Table, params: Seq<ValueView>, key: i32) -> Table {
    table.insert(key, written(Map::empty(), insert_layout(), params, insert_layout().len()))
}

/// The table after an `UPDATE` with these parameters: the row whose key is the
/// last of them, if there is one, is overwritten.
pub open spec fn table_after_update(table: Table, params: Seq<ValueView>) -> Table {
    match params.last() {
        ValueView::Int4(Some(key)) if table.contains_key(key) => table.insert(
            key,
            written(table[key], update_layout(), params, update_layout().len()),
        ),
        _ => table,
    }
}

/// Parameters past the columns' own write nothing.
proof fn lemma_written_prefix(
    row: Map<Column, ValueView>,
    slots: Seq<Slot>,
    values: Seq<ValueView>,
    more: Seq<ValueView>,
    n: nat,
)
    requires
        n <= values.len() <= more.len(),
        forall|i: int| 0 <= i < n ==> values[i] == more[i],
    ensures
        written(row, slots, values, n) == written(row, slots, more, n),
    decreases n,
{
    if n > 0 {
        lemma_written_prefix(row, slots, values, more, (n - 1) as nat);
    }
}

/// Inserting a session under a key that was free adds exactly one row, which
/// holds every field of the session, and leaves all others as they were.
pub proof fn law_insert_adds_one_row(table: Table, session: SessionView, key: i32)
    requires
        !table.contains_key(key),
    ensures
        ({
            let after = table_after_insert(table, insert_statement(session).params, key);
            &&& after.dom() == table.dom().insert(key)
            &&& after[key] == inserted_row(session)
            &&& forall|column: Column| #[trigger]
                after[key].contains_key(column) && after[key][column] == field(session, column)
            &&& forall|other: i32| #[trigger]
                table.contains_key(other) ==> after.contains_key(other) && after[other]
                    == table[other]
        }),
{
    let after = table_after_insert(table, insert_statement(session).params, key);
    assert(after.dom() =~= table.dom().insert(key));
    assert forall|column: Column| #[trigger]
        after[key].contains_key(column) && after[key][column] == field(session, column) by {
        law_insert_stores_every_field(session, column);
    }
}

/// Updating a session overwrites the row with its key and no other: no row comes
/// or goes, and the others stay as they were.
pub proof fn law_update_overwrites_one_row(table: Table, session: SessionView, id: i32)
    requires
        table.contains_key(id),
    ensures
        ({
            let after = table_after_update(table, update_statement(session, id).params);
            &&& after.dom() == table.dom()
            &&& after[id] == updated_row(table[id], session)
            &&& forall|other: i32| #[trigger]
                table.contains_key(other) && other != id ==> after[other] == table[other]
        }),
{
    let params = update_statement(session, id).params;
    let after = table_after_update(table, params);
    let values = session_values(session, update_layout());
    assert(params.last() == ValueView::Int4(Some(id)));
    assert forall|i: int| 0 <= i < update_layout().len() implies values[i] == params[i] by {}
    lemma_written_prefix(table[id], update_layout(), values, params, update_layout().len());
    assert(after.dom() =~= table.dom());
}

/// Updating a session whose key no row has changes nothing.
pub proof fn law_update_of_unknown_key_changes_nothing(
    table: Table,
    session: SessionView,
    id: i32,
)
    requires
        !table.contains_key(id),
    ensures
        table_after_update(table, update_statement(session, id).params) == table,
{
    assert(update_statement(session, id).params.last() == ValueView::Int4(Some(id)));
}

/// Of two updates of one row only the last leaves a trace.
proof fn lemma_last_update_of_row(row: Map<Column, ValueView>, a: SessionView, b: SessionView)
    ensures
        updated_row(updated_row(row, a), b) == updated_row(row, b),
{
    law_layouts_cover_columns();
    let slots = update_layout();
    let once = updated_row(row, a);
    assert forall|column: Column|
        #![trigger updated_row(row, b).contains_key(column)]
        #![trigger updated_row(row, b)[column]]
        updated_row(once, b).contains_key(column) == updated_row(row, b).contains_key(column)
            && updated_row(once, b)[column] == updated_row(row, b)[column] by {
        let written_a = session_values(a, slots);
        let written_b = session_values(b, slots);
        lemma_written(row, slots, written_a, slots.len(), column);
        lemma_written(row, slots, written_b, slots.len(), column);
        lemma_written(once, slots, written_b, slots.len(), column);
        if column == Column::StartTime {
            assert forall|i: int| 0 <= i < slots.len() implies (#[trigger] slots[i]).column
                != column by {
                lemma_update_place_inverse(i);
            }
        } else {
            lemma_update_place(column);
            assert(slots[update_place(column)].column == column);
        }
    }
    assert(updated_row(once, b) =~= updated_row(row, b));
}

/// Updating by one session and then by another under the same key leaves the table
/// that updating by the second alone leaves.
pub proof fn law_last_update_wins(table: Table, a: SessionView, b: SessionView, id: i32)
    ensures
        table_after_update(
            table_after_update(table, update_statement(a, id).params),
            update_statement(b, id).params,
        ) == table_after_update(table, update_statement(b, id).params),
{
    if table.contains_key(id) {
        let once = table_after_update(table, update_statement(a, id).params);
        let twice = table_after_update(once, update_statement(b, id).params);
        let direct = table_after_update(table, update_statement(b, id).params);
        law_update_overwrites_one_row(table, a, id);
        law_update_overwrites_one_row(table, b, id);
        assert(once.dom().contains(id));
        law_update_overwrites_one_row(once, b, id);
        lemma_last_update_of_row(table[id], a, b);
        assert forall|key: i32| #[trigger] direct.contains_key(key) implies twice[key]
            == direct[key] by {
            assert(table.contains_key(key));
            assert(once.contains_key(key));
        }
        assert(twice =~= direct);
    } else {
        law_update_of_unknown_key_changes_nothing(table, a, id);
        law_update_of_unknown_key_changes_nothing(table, b, id);
    }
}

} // verus!
