//! A tracked session: one stretch of time spent in one window.
use vstd::prelude::*;

verus! {

/// One row of the `sessions` table.
///
/// `start_time` counts microseconds since the Unix epoch, the resolution of a
/// PostgreSQL `TIMESTAMPTZ`.  `parsed_data` is JSON text.
#[derive(Clone, Debug, PartialEq, Eq)]
pub struct Session {
    pub id: Option<i32>,
    pub app_name: String,
    pub window_name: Option<String>,
    pub start_time: i64,
    pub duration: i64,
    pub category: Option<String>,
    pub browser_url: Option<String>,
    pub browser_page_title: Option<String>,
    pub browser_notification_count: Option<i32>,
    pub browser_page_title_renamed: Option<String>,
    pub browser_page_title_category: Option<String>,
    pub terminal_username: Option<String>,
    pub terminal_hostname: Option<String>,
    pub terminal_directory: Option<String>,
    pub terminal_project_name: Option<String>,
    pub terminal_directory_renamed: Option<String>,
    pub terminal_directory_category: Option<String>,
    pub editor_filename: Option<String>,
    pub editor_filepath: Option<String>,
    pub editor_project_path: Option<String>,
    pub editor_language: Option<String>,
    pub editor_filename_renamed: Option<String>,
    pub editor_filename_category: Option<String>,
    pub tmux_window_name: Option<String>,
    pub tmux_pane_count: Option<i32>,
    pub terminal_multiplexer: Option<String>,
    pub tmux_window_name_renamed: Option<String>,
    pub tmux_window_name_category: Option<String>,
    pub ide_project_name: Option<String>,
    pub ide_file_open: Option<String>,
    pub ide_workspace: Option<String>,
    pub parsed_data: Option<String>,
    pub parsing_success: Option<bool>,
    pub is_afk: Option<bool>,
    pub is_idle: Option<bool>,
    pub idle_accumulation_secs: Option<i64>,
}

/// What a [`Session`] says, with every string as its sequence of characters.
#[verifier::ext_equal]
pub struct SessionView {
    pub id: Option<i32>,
    pub app_name: Seq<char>,
    pub window_name: Option<Seq<char>>,
    pub start_time: i64,
    pub duration: i64,
    pub category: Option<Seq<char>>,
    pub browser_url: Option<Seq<char>>,
    pub browser_page_title: Option<Seq<char>>,
    pub browser_notification_count: Option<i32>,
    pub browser_page_title_renamed: Option<Seq<char>>,
    pub browser_page_title_category: Option<Seq<char>>,
    pub terminal_username: Option<Seq<char>>,
    pub terminal_hostname: Option<Seq<char>>,
    pub terminal_directory: Option<Seq<char>>,
    pub terminal_project_name: Option<Seq<char>>,
    pub terminal_directory_renamed: Option<Seq<char>>,
    pub terminal_directory_category: Option<Seq<char>>,
    pub editor_filename: Option<Seq<char>>,
    pub editor_filepath: Option<Seq<char>>,
    pub editor_project_path: Option<Seq<char>>,
    pub editor_language: Option<Seq<char>>,
    pub editor_filename_renamed: Option<Seq<char>>,
    pub editor_filename_category: Option<Seq<char>>,
    pub tmux_window_name: Option<Seq<char>>,
    pub tmux_pane_count: Option<i32>,
    pub terminal_multiplexer: Option<Seq<char>>,
    pub tmux_window_name_renamed: Option<Seq<char>>,
    pub tmux_window_name_category: Option<Seq<char>>,
    pub ide_project_name: Option<Seq<char>>,
    pub ide_file_open: Option<Seq<char>>,
    pub ide_workspace: Option<Seq<char>>,
    pub parsed_data: Option<Seq<char>>,
    pub parsing_success: Option<bool>,
    pub is_afk: Option<bool>,
    pub is_idle: Option<bool>,
    pub idle_accumulation_secs: Option<i64>,
}

/// The characters of an optional string.
pub open spec fn text_view(text: Option<String>) -> Option<Seq<char>> {
    match text {
        Some(t) => Some(t@),
        None => None,
    }
}

impl View for Session {
    type V = SessionView;

    open spec fn view(&self) -> SessionView {
        SessionView {
            id: self.id,
            app_name: self.app_name@,
            window_name: text_view(self.window_name),
            start_time: self.start_time,
            duration: self.duration,
            category: text_view(self.category),
            browser_url: text_view(self.browser_url),
            browser_page_title: text_view(self.browser_page_title),
            browser_notification_count: self.browser_notification_count,
            browser_page_title_renamed: text_view(self.browser_page_title_renamed),
            browser_page_title_category: text_view(self.browser_page_title_category),
            terminal_username: text_view(self.terminal_username),
            terminal_hostname: text_view(self.terminal_hostname),
            terminal_directory: text_view(self.terminal_directory),
            terminal_project_name: text_view(self.terminal_project_name),
            terminal_directory_renamed: text_view(self.terminal_directory_renamed),
            terminal_directory_category: text_view(self.terminal_directory_category),
            editor_filename: text_view(self.editor_filename),
            editor_filepath: text_view(self.editor_filepath),
            editor_project_path: text_view(self.editor_project_path),
            editor_language: text_view(self.editor_language),
            editor_filename_renamed: text_view(self.editor_filename_renamed),
            editor_filename_category: text_view(self.editor_filename_category),
            tmux_window_name: text_view(self.tmux_window_name),
            tmux_pane_count: self.tmux_pane_count,
            terminal_multiplexer: text_view(self.terminal_multiplexer),
            tmux_window_name_renamed: text_view(self.tmux_window_name_renamed),
            tmux_window_name_category: text_view(self.tmux_window_name_category),
            ide_project_name: text_view(self.ide_project_name),
            ide_file_open: text_view(self.ide_file_open),
            ide_workspace: text_view(self.ide_workspace),
            parsed_data: text_view(self.parsed_data),
            parsing_success: self.parsing_success,
            is_afk: self.is_afk,
            is_idle: self.is_idle,
            idle_accumulation_secs: self.idle_accumulation_secs,
        }
    }
}

/// A copy of an optional string.
pub fn clone_text(text: &Option<String>) -> (copy: Option<String>)
    ensures
        text_view(copy) == text_view(*text),
{
    match text {
        Some(t) => Some(t.clone()),
        None => None,
    }
}

/// A copy is there if the text is, with the same characters.
pub proof fn law_copy_keeps_the_text(text: &Option<String>, copy: Option<String>)
    requires
        call_ensures(clone_text, (text,), copy),
    ensures
        match (*text, copy) {
            (Some(t), Some(c)) => c@ == t@,
            (None, None) => true,
            _ => false,
        },
{
}

} // verus!
