//! The columns of the `sessions` table: their names, their values in a session,
//! and their layout in the statements that write them.
use vstd::prelude::*;
use crate::daemon::database::statement::{
    params_view, placeholder, push_placeholder, Value, ValueView,
};
use crate::models::session::{clone_text, Session, SessionView};

verus! {

/// A column that a session fills.  The key column, `id`, is PostgreSQL's own.
#[derive(Clone, Copy, Debug, PartialEq, Eq, Structural)]
pub enum Column {
    AppName,
    WindowName,
    StartTime,
    Duration,
    Category,
    BrowserUrl,
    BrowserPageTitle,
    BrowserNotificationCount,
    BrowserPageTitleRenamed,
    BrowserPageTitleCategory,
    TerminalUsername,
    TerminalHostname,
    TerminalDirectory,
    TerminalProjectName,
    TerminalDirectoryRenamed,
    TerminalDirectoryCategory,
    EditorFilename,
    EditorFilepath,
    EditorProjectPath,
    EditorLanguage,
    EditorFilenameRenamed,
    EditorFilenameCategory,
    TmuxWindowName,
    TmuxPaneCount,
    TerminalMultiplexer,
    TmuxWindowNameRenamed,
    TmuxWindowNameCategory,
    IdeProjectName,
    IdeFileOpen,
    IdeWorkspace,
    ParsedData,
    ParsingSuccess,
    IsAfk,
    IsIdle,
    IdleAccumulationSecs,
}

/// The name of `column` in the table.
pub open spec fn column_name(column: Column) -> Seq<char> {
    match column {
        Column::AppName => "app_name"@,
        Column::WindowName => "window_name"@,
        Column::StartTime => "start_time"@,
        Column::Duration => "duration"@,
        Column::Category => "category"@,
        Column::BrowserUrl => "browser_url"@,
        Column::BrowserPageTitle => "browser_page_title"@,
        Column::BrowserNotificationCount => "browser_notification_count"@,
        Column::BrowserPageTitleRenamed => "browser_page_title_renamed"@,
        Column::BrowserPageTitleCategory => "browser_page_title_category"@,
        Column::TerminalUsername => "terminal_username"@,
        Column::TerminalHostname => "terminal_hostname"@,
        Column::TerminalDirectory => "terminal_directory"@,
        Column::TerminalProjectName => "terminal_project_name"@,
        Column::TerminalDirectoryRenamed => "terminal_directory_renamed"@,
        Column::TerminalDirectoryCategory => "terminal_directory_category"@,
        Column::EditorFilename => "editor_filename"@,
        Column::EditorFilepath => "editor_filepath"@,
        Column::EditorProjectPath => "editor_project_path"@,
        Column::EditorLanguage => "editor_language"@,
        Column::EditorFilenameRenamed => "editor_filename_renamed"@,
        Column::EditorFilenameCategory => "editor_filename_category"@,
        Column::TmuxWindowName => "tmux_window_name"@,
        Column::TmuxPaneCount => "tmux_pane_count"@,
        Column::TerminalMultiplexer => "terminal_multiplexer"@,
        Column::TmuxWindowNameRenamed => "tmux_window_name_renamed"@,
        Column::TmuxWindowNameCategory => "tmux_window_name_category"@,
        Column::IdeProjectName => "ide_project_name"@,
        Column::IdeFileOpen => "ide_file_open"@,
        Column::IdeWorkspace => "ide_workspace"@,
        Column::ParsedData => "parsed_data"@,
        Column::ParsingSuccess => "parsing_success"@,
        Column::IsAfk => "is_afk"@,
        Column::IsIdle => "is_idle"@,
        Column::IdleAccumulationSecs => "idle_accumulation_secs"@,
    }
}

/// What `session` holds for `column`.
pub open spec fn field(session: SessionView, column: Column) -> ValueView {
    match column {
        Column::AppName => ValueView::Text(Some(session.app_name)),
        Column::WindowName => ValueView::Text(session.window_name),
        Column::StartTime => ValueView::Timestamp(session.start_time),
        Column::Duration => ValueView::Int8(Some(session.duration)),
        Column::Category => ValueView::Text(session.category),
        Column::BrowserUrl => ValueView::Text(session.browser_url),
        Column::BrowserPageTitle => ValueView::Text(session.browser_page_title),
        Column::BrowserNotificationCount => ValueView::Int4(session.browser_notification_count),
        Column::BrowserPageTitleRenamed => ValueView::Text(session.browser_page_title_renamed),
        Column::BrowserPageTitleCategory => ValueView::Text(session.browser_page_title_category),
        Column::TerminalUsername => ValueView::Text(session.terminal_username),
        Column::TerminalHostname => ValueView::Text(session.terminal_hostname),
        Column::TerminalDirectory => ValueView::Text(session.terminal_directory),
        Column::TerminalProjectName => ValueView::Text(session.terminal_project_name),
        Column::TerminalDirectoryRenamed => ValueView::Text(session.terminal_directory_renamed),
        Column::TerminalDirectoryCategory => ValueView::Text(session.terminal_directory_category),
        Column::EditorFilename => ValueView::Text(session.editor_filename),
        Column::EditorFilepath => ValueView::Text(session.editor_filepath),
        Column::EditorProjectPath => ValueView::Text(session.editor_project_path),
        Column::EditorLanguage => ValueView::Text(session.editor_language),
        Column::EditorFilenameRenamed => ValueView::Text(session.editor_filename_renamed),
        Column::EditorFilenameCategory => ValueView::Text(session.editor_filename_category),
        Column::TmuxWindowName => ValueView::Text(session.tmux_window_name),
        Column::TmuxPaneCount => ValueView::Int4(session.tmux_pane_count),
        Column::TerminalMultiplexer => ValueView::Text(session.terminal_multiplexer),
        Column::TmuxWindowNameRenamed => ValueView::Text(session.tmux_window_name_renamed),
        Column::TmuxWindowNameCategory => ValueView::Text(session.tmux_window_name_category),
        Column::IdeProjectName => ValueView::Text(session.ide_project_name),
        Column::IdeFileOpen => ValueView::Text(session.ide_file_open),
        Column::IdeWorkspace => ValueView::Text(session.ide_workspace),
        Column::ParsedData => ValueView::Json(session.parsed_data),
        Column::ParsingSuccess => ValueView::Bool(session.parsing_success),
        Column::IsAfk => ValueView::Bool(session.is_afk),
        Column::IsIdle => ValueView::Bool(session.is_idle),
        Column::IdleAccumulationSecs => ValueView::Int8(session.idle_accumulation_secs),
    }
}

impl Column {
    /// The name of the column in the table.
    pub fn name(self) -> (name: &'static str)
        ensures
            name@ == column_name(self),
    {
        match self {
            Column::AppName => "app_name",
            Column::WindowName => "window_name",
            Column::StartTime => "start_time",
            Column::Duration => "duration",
            Column::Category => "category",
            Column::BrowserUrl => "browser_url",
            Column::BrowserPageTitle => "browser_page_title",
            Column::BrowserNotificationCount => "browser_notification_count",
            Column::BrowserPageTitleRenamed => "browser_page_title_renamed",
            Column::BrowserPageTitleCategory => "browser_page_title_category",
            Column::TerminalUsername => "terminal_username",
            Column::TerminalHostname => "terminal_hostname",
            Column::TerminalDirectory => "terminal_directory",
            Column::TerminalProjectName => "terminal_project_name",
            Column::TerminalDirectoryRenamed => "terminal_directory_renamed",
            Column::TerminalDirectoryCategory => "terminal_directory_category",
            Column::EditorFilename => "editor_filename",
            Column::EditorFilepath => "editor_filepath",
            Column::EditorProjectPath => "editor_project_path",
            Column::EditorLanguage => "editor_language",
            Column::EditorFilenameRenamed => "editor_filename_renamed",
            Column::EditorFilenameCategory => "editor_filename_category",
            Column::TmuxWindowName => "tmux_window_name",
            Column::TmuxPaneCount => "tmux_pane_count",
            Column::TerminalMultiplexer => "terminal_multiplexer",
            Column::TmuxWindowNameRenamed => "tmux_window_name_renamed",
            Column::TmuxWindowNameCategory => "tmux_window_name_category",
            Column::IdeProjectName => "ide_project_name",
            Column::IdeFileOpen => "ide_file_open",
            Column::IdeWorkspace => "ide_workspace",
            Column::ParsedData => "parsed_data",
            Column::ParsingSuccess => "parsing_success",
            Column::IsAfk => "is_afk",
            Column::IsIdle => "is_idle",
            Column::IdleAccumulationSecs => "idle_accumulation_secs",
        }
    }

    /// The value of the column for `session`.
    pub fn value(self, session: &Session) -> (value: Value)
        ensures
            value@ == field(session@, self),
    {
        match self {
            Column::AppName => Value::Text(Some(session.app_name.clone())),
            Column::WindowName => Value::Text(clone_text(&session.window_name)),
            Column::StartTime => Value::Timestamp(session.start_time),
            Column::Duration => Value::Int8(Some(session.duration)),
            Column::Category => Value::Text(clone_text(&session.category)),
            Column::BrowserUrl => Value::Text(clone_text(&session.browser_url)),
            Column::BrowserPageTitle => Value::Text(clone_text(&session.browser_page_title)),
            Column::BrowserNotificationCount => Value::Int4(session.browser_notification_count),
            Column::BrowserPageTitleRenamed => Value::Text(clone_text(&session.browser_page_title_renamed)),
            Column::BrowserPageTitleCategory => Value::Text(clone_text(&session.browser_page_title_category)),
            Column::TerminalUsername => Value::Text(clone_text(&session.terminal_username)),
            Column::TerminalHostname => Value::Text(clone_text(&session.terminal_hostname)),
            Column::TerminalDirectory => Value::Text(clone_text(&session.terminal_directory)),
            Column::TerminalProjectName => Value::Text(clone_text(&session.terminal_project_name)),
            Column::TerminalDirectoryRenamed => Value::Text(clone_text(&session.terminal_directory_renamed)),
            Column::TerminalDirectoryCategory => Value::Text(clone_text(&session.terminal_directory_category)),
            Column::EditorFilename => Value::Text(clone_text(&session.editor_filename)),
            Column::EditorFilepath => Value::Text(clone_text(&session.editor_filepath)),
            Column::EditorProjectPath => Value::Text(clone_text(&session.editor_project_path)),
            Column::EditorLanguage => Value::Text(clone_text(&session.editor_language)),
            Column::EditorFilenameRenamed => Value::Text(clone_text(&session.editor_filename_renamed)),
            Column::EditorFilenameCategory => Value::Text(clone_text(&session.editor_filename_category)),
            Column::TmuxWindowName => Value::Text(clone_text(&session.tmux_window_name)),
            Column::TmuxPaneCount => Value::Int4(session.tmux_pane_count),
            Column::TerminalMultiplexer => Value::Text(clone_text(&session.terminal_multiplexer)),
            Column::TmuxWindowNameRenamed => Value::Text(clone_text(&session.tmux_window_name_renamed)),
            Column::TmuxWindowNameCategory => Value::Text(clone_text(&session.tmux_window_name_category)),
            Column::IdeProjectName => Value::Text(clone_text(&session.ide_project_name)),
            Column::IdeFileOpen => Value::Text(clone_text(&session.ide_file_open)),
            Column::IdeWorkspace => Value::Text(clone_text(&session.ide_workspace)),
            Column::ParsedData => Value::Json(clone_text(&session.parsed_data)),
            Column::ParsingSuccess => Value::Bool(session.parsing_success),
            Column::IsAfk => Value::Bool(session.is_afk),
            Column::IsIdle => Value::Bool(session.is_idle),
            Column::IdleAccumulationSecs => Value::Int8(session.idle_accumulation_secs),
        }
    }
}

/// A column's place in a statement: `starts_line` breaks the line before it.
#[derive(Clone, Copy, Debug, PartialEq, Eq, Structural)]
pub struct Slot {
    pub column: Column,
    pub starts_line: bool,
}

/// The columns that storing a new session fills, in the order of their
/// parameters: all of them.
pub open spec fn insert_layout() -> Seq<Slot> {
    seq![
        Slot { column: Column::AppName, starts_line: false },
        Slot { column: Column::WindowName, starts_line: false },
        Slot { column: Column::StartTime, starts_line: false },
        Slot { column: Column::Duration, starts_line: false },
        Slot { column: Column::Category, starts_line: false },
        Slot { column: Column::BrowserUrl, starts_line: true },
        Slot { column: Column::BrowserPageTitle, starts_line: false },
        Slot { column: Column::BrowserNotificationCount, starts_line: false },
        Slot { column: Column::BrowserPageTitleRenamed, starts_line: true },
        Slot { column: Column::BrowserPageTitleCategory, starts_line: false },
        Slot { column: Column::TerminalUsername, starts_line: true },
        Slot { column: Column::TerminalHostname, starts_line: false },
        Slot { column: Column::TerminalDirectory, starts_line: false },
        Slot { column: Column::TerminalProjectName, starts_line: false },
        Slot { column: Column::TerminalDirectoryRenamed, starts_line: true },
        Slot { column: Column::TerminalDirectoryCategory, starts_line: false },
        Slot { column: Column::EditorFilename, starts_line: true },
        Slot { column: Column::EditorFilepath, starts_line: false },
        Slot { column: Column::EditorProjectPath, starts_line: false },
        Slot { column: Column::EditorLanguage, starts_line: false },
        Slot { column: Column::EditorFilenameRenamed, starts_line: true },
        Slot { column: Column::EditorFilenameCategory, starts_line: false },
        Slot { column: Column::TmuxWindowName, starts_line: true },
        Slot { column: Column::TmuxPaneCount, starts_line: false },
        Slot { column: Column::TerminalMultiplexer, starts_line: false },
        Slot { column: Column::TmuxWindowNameRenamed, starts_line: true },
        Slot { column: Column::TmuxWindowNameCategory, starts_line: false },
        Slot { column: Column::IdeProjectName, starts_line: true },
        Slot { column: Column::IdeFileOpen, starts_line: false },
        Slot { column: Column::IdeWorkspace, starts_line: false },
        Slot { column: Column::ParsedData, starts_line: true },
        Slot { column: Column::ParsingSuccess, starts_line: false },
        Slot { column: Column::IsAfk, starts_line: false },
        Slot { column: Column::IsIdle, starts_line: false },
        Slot { column: Column::IdleAccumulationSecs, starts_line: false },
    ]
}

/// The columns that storing a known session anew overwrites, in the order of
/// their parameters: all but the start time.
pub open spec fn update_layout() -> Seq<Slot> {
    seq![
        Slot { column: Column::AppName, starts_line: false },
        Slot { column: Column::WindowName, starts_line: false },
        Slot { column: Column::Duration, starts_line: false },
        Slot { column: Column::Category, starts_line: false },
        Slot { column: Column::BrowserUrl, starts_line: true },
        Slot { column: Column::BrowserPageTitle, starts_line: false },
        Slot { column: Column::BrowserNotificationCount, starts_line: false },
        Slot { column: Column::BrowserPageTitleRenamed, starts_line: true },
        Slot { column: Column::BrowserPageTitleCategory, starts_line: false },
        Slot { column: Column::TerminalUsername, starts_line: true },
        Slot { column: Column::TerminalHostname, starts_line: false },
        Slot { column: Column::TerminalDirectory, starts_line: false },
        Slot { column: Column::TerminalProjectName, starts_line: true },
        Slot { column: Column::TerminalDirectoryRenamed, starts_line: false },
        Slot { column: Column::TerminalDirectoryCategory, starts_line: true },
        Slot { column: Column::EditorFilename, starts_line: true },
        Slot { column: Column::EditorFilepath, starts_line: false },
        Slot { column: Column::EditorProjectPath, starts_line: false },
        Slot { column: Column::EditorLanguage, starts_line: true },
        Slot { column: Column::EditorFilenameRenamed, starts_line: false },
        Slot { column: Column::EditorFilenameCategory, starts_line: true },
        Slot { column: Column::TmuxWindowName, starts_line: true },
        Slot { column: Column::TmuxPaneCount, starts_line: false },
        Slot { column: Column::TerminalMultiplexer, starts_line: false },
        Slot { column: Column::TmuxWindowNameRenamed, starts_line: true },
        Slot { column: Column::TmuxWindowNameCategory, starts_line: false },
        Slot { column: Column::IdeProjectName, starts_line: true },
        Slot { column: Column::IdeFileOpen, starts_line: false },
        Slot { column: Column::IdeWorkspace, starts_line: false },
        Slot { column: Column::ParsedData, starts_line: true },
        Slot { column: Column::ParsingSuccess, starts_line: false },
        Slot { column: Column::IsAfk, starts_line: false },
        Slot { column: Column::IsIdle, starts_line: false },
        Slot { column: Column::IdleAccumulationSecs, starts_line: true },
    ]
}

/// The columns of [`insert_layout`].
pub(crate) fn insert_slots() -> (slots: Vec<Slot>)
    ensures
        slots@ == insert_layout(),
{
    vec![
        Slot { column: Column::AppName, starts_line: false },
        Slot { column: Column::WindowName, starts_line: false },
        Slot { column: Column::StartTime, starts_line: false },
        Slot { column: Column::Duration, starts_line: false },
        Slot { column: Column::Category, starts_line: false },
        Slot { column: Column::BrowserUrl, starts_line: true },
        Slot { column: Column::BrowserPageTitle, starts_line: false },
        Slot { column: Column::BrowserNotificationCount, starts_line: false },
        Slot { column: Column::BrowserPageTitleRenamed, starts_line: true },
        Slot { column: Column::BrowserPageTitleCategory, starts_line: false },
        Slot { column: Column::TerminalUsername, starts_line: true },
        Slot { column: Column::TerminalHostname, starts_line: false },
        Slot { column: Column::TerminalDirectory, starts_line: false },
        Slot { column: Column::TerminalProjectName, starts_line: false },
        Slot { column: Column::TerminalDirectoryRenamed, starts_line: true },
        Slot { column: Column::TerminalDirectoryCategory, starts_line: false },
        Slot { column: Column::EditorFilename, starts_line: true },
        Slot { column: Column::EditorFilepath, starts_line: false },
        Slot { column: Column::EditorProjectPath, starts_line: false },
        Slot { column: Column::EditorLanguage, starts_line: false },
        Slot { column: Column::EditorFilenameRenamed, starts_line: true },
        Slot { column: Column::EditorFilenameCategory, starts_line: false },
        Slot { column: Column::TmuxWindowName, starts_line: true },
        Slot { column: Column::TmuxPaneCount, starts_line: false },
        Slot { column: Column::TerminalMultiplexer, starts_line: false },
        Slot { column: Column::TmuxWindowNameRenamed, starts_line: true },
        Slot { column: Column::TmuxWindowNameCategory, starts_line: false },
        Slot { column: Column::IdeProjectName, starts_line: true },
        Slot { column: Column::IdeFileOpen, starts_line: false },
        Slot { column: Column::IdeWorkspace, starts_line: false },
        Slot { column: Column::ParsedData, starts_line: true },
        Slot { column: Column::ParsingSuccess, starts_line: false },
        Slot { column: Column::IsAfk, starts_line: false },
        Slot { column: Column::IsIdle, starts_line: false },
        Slot { column: Column::IdleAccumulationSecs, starts_line: false },
    ]
}

/// The columns of [`update_layout`].
pub(crate) fn update_slots() -> (slots: Vec<Slot>)
    ensures
        slots@ == update_layout(),
{
    vec![
        Slot { column: Column::AppName, starts_line: false },
        Slot { column: Column::WindowName, starts_line: false },
        Slot { column: Column::Duration, starts_line: false },
        Slot { column: Column::Category, starts_line: false },
        Slot { column: Column::BrowserUrl, starts_line: true },
        Slot { column: Column::BrowserPageTitle, starts_line: false },
        Slot { column: Column::BrowserNotificationCount, starts_line: false },
        Slot { column: Column::BrowserPageTitleRenamed, starts_line: true },
        Slot { column: Column::BrowserPageTitleCategory, starts_line: false },
        Slot { column: Column::TerminalUsername, starts_line: true },
        Slot { column: Column::TerminalHostname, starts_line: false },
        Slot { column: Column::TerminalDirectory, starts_line: false },
        Slot { column: Column::TerminalProjectName, starts_line: true },
        Slot { column: Column::TerminalDirectoryRenamed, starts_line: false },
        Slot { column: Column::TerminalDirectoryCategory, starts_line: true },
        Slot { column: Column::EditorFilename, starts_line: true },
        Slot { column: Column::EditorFilepath, starts_line: false },
        Slot { column: Column::EditorProjectPath, starts_line: false },
        Slot { column: Column::EditorLanguage, starts_line: true },
        Slot { column: Column::EditorFilenameRenamed, starts_line: false },
        Slot { column: Column::EditorFilenameCategory, starts_line: true },
        Slot { column: Column::TmuxWindowName, starts_line: true },
        Slot { column: Column::TmuxPaneCount, starts_line: false },
        Slot { column: Column::TerminalMultiplexer, starts_line: false },
        Slot { column: Column::TmuxWindowNameRenamed, starts_line: true },
        Slot { column: Column::TmuxWindowNameCategory, starts_line: false },
        Slot { column: Column::IdeProjectName, starts_line: true },
        Slot { column: Column::IdeFileOpen, starts_line: false },
        Slot { column: Column::IdeWorkspace, starts_line: false },
        Slot { column: Column::ParsedData, starts_line: true },
        Slot { column: Column::ParsingSuccess, starts_line: false },
        Slot { column: Column::IsAfk, starts_line: false },
        Slot { column: Column::IsIdle, starts_line: false },
        Slot { column: Column::IdleAccumulationSecs, starts_line: true },
    ]
}

/// What a statement lists for each of its columns.
#[derive(Clone, Copy, Debug, PartialEq, Eq, Structural)]
pub enum Listing {
    /// `name`
    Names,
    /// `$n`
    Placeholders,
    /// `name = $n`
    Assignments,
}

/// The text listed for the column in place `i`, whose parameter is `i + 1`.
pub open spec fn entry(slots: Seq<Slot>, listing: Listing, i: int) -> Seq<char> {
    match listing {
        Listing::Names => column_name(slots[i].column),
        Listing::Placeholders => placeholder((i + 1) as nat),
        Listing::Assignments => column_name(slots[i].column) + " = "@ + placeholder((i + 1) as nat),
    }
}

/// What stands between the column in place `i` and the one before it.
pub open spec fn separator(slots: Seq<Slot>, i: int) -> Seq<char> {
    if i == 0 {
        Seq::empty()
    } else if slots[i].starts_line {
        ",\n                "@
    } else {
        ", "@
    }
}

/// The entries of the first `n` columns, separated.
pub open spec fn listed(slots: Seq<Slot>, listing: Listing, n: nat) -> Seq<char>
    decreases n,
{
    if n == 0 {
        Seq::empty()
    } else {
        listed(slots, listing, (n - 1) as nat) + separator(slots, n - 1) + entry(
            slots,
            listing,
            n - 1,
        )
    }
}

/// Appends what stands before the column in place `i` to `out`.
fn push_separator(out: &mut String, slots: &Vec<Slot>, i: usize)
    requires
        i < slots@.len(),
    ensures
        final(out)@ == old(out)@ + separator(slots@, i as int),
{
    if i > 0 {
        if slots[i].starts_line {
            out.append(",\n                ");
        } else {
            out.append(", ");
        }
    }
    assert(out@ =~= old(out)@ + separator(slots@, i as int));
}

/// Appends the entry of the column in place `i` to `out`.
fn push_entry(out: &mut String, slots: &Vec<Slot>, listing: Listing, i: usize)
    requires
        i < slots@.len() < usize::MAX,
    ensures
        final(out)@ == old(out)@ + entry(slots@, listing, i as int),
{
    match listing {
        Listing::Names => {
            out.append(slots[i].column.name());
        },
        Listing::Placeholders => {
            push_placeholder(out, i + 1);
        },
        Listing::Assignments => {
            out.append(slots[i].column.name());
            out.append(" = ");
            push_placeholder(out, i + 1);
            assert(out@ =~= old(out)@ + (column_name(slots@[i as int].column) + " = "@ + placeholder(
                (i + 1) as nat,
            )));
        },
    }
}

/// Appends the entries of all columns to `out`.
pub(crate) fn push_listed(out: &mut String, slots: &Vec<Slot>, listing: Listing)
    requires
        slots@.len() < usize::MAX,
    ensures
        final(out)@ == old(out)@ + listed(slots@, listing, slots@.len()),
{
    let mut i: usize = 0;
    assert(out@ =~= old(out)@ + listed(slots@, listing, 0));
    while i < slots.len()
        invariant
            i <= slots@.len() < usize::MAX,
            out@ == old(out)@ + listed(slots@, listing, i as nat),
        decreases slots@.len() - i,
    {
        push_separator(out, slots, i);
        push_entry(out, slots, listing, i);
        assert(out@ =~= old(out)@ + (listed(slots@, listing, i as nat) + separator(
            slots@,
            i as int,
        ) + entry(slots@, listing, i as int)));
        i = i + 1;
    }
}

/// What `session` holds for the columns of `slots`, in their order.
pub open spec fn session_values(session: SessionView, slots: Seq<Slot>) -> Seq<ValueView> {
    Seq::new(slots.len(), |i: int| field(session, slots[i].column))
}

/// The parameters that write the columns of `slots` for `session`.
pub(crate) fn session_params(session: &Session, slots: &Vec<Slot>) -> (params: Vec<Value>)
    ensures
        params_view(params@) == session_values(session@, slots@),
{
    let mut params: Vec<Value> = Vec::new();
    let mut i: usize = 0;
    while i < slots.len()
        invariant
            i <= slots@.len(),
            params@.len() == i,
            forall|j: int| 0 <= j < i ==> (#[trigger] params@[j])@ == field(
                session@,
                slots@[j].column,
            ),
        decreases slots@.len() - i,
    {
        params.push(slots[i].column.value(session));
        i = i + 1;
    }
    assert(params_view(params@) =~= session_values(session@, slots@));
    params
}

} // verus!
