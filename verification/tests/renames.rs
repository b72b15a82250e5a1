use hustle_tracker::daemon::database::connection::Database;
use hustle_tracker::daemon::database::error::DatabaseError;
use hustle_tracker::daemon::database::renames::{Lookup, Renaming};
use hustle_tracker::daemon::database::startup::{Outcome, Startup};
use hustle_tracker::daemon::database::statement::Value;
use hustle_tracker::models::session::Session;

fn text(s: &str) -> Option<String> {
    Some(s.to_string())
}

fn blank(app: &str) -> Session {
    Session {
        id: Some(1),
        app_name: app.to_string(),
        window_name: None,
        start_time: 5,
        duration: 6,
        category: None,
        browser_url: None,
        browser_page_title: None,
        browser_notification_count: None,
        browser_page_title_renamed: None,
        browser_page_title_category: None,
        terminal_username: None,
        terminal_hostname: None,
        terminal_directory: None,
        terminal_project_name: None,
        terminal_directory_renamed: None,
        terminal_directory_category: None,
        editor_filename: None,
        editor_filepath: None,
        editor_project_path: None,
        editor_language: None,
        editor_filename_renamed: None,
        editor_filename_category: None,
        tmux_window_name: None,
        tmux_pane_count: None,
        terminal_multiplexer: None,
        tmux_window_name_renamed: None,
        tmux_window_name_category: None,
        ide_project_name: None,
        ide_file_open: None,
        ide_workspace: None,
        parsed_data: None,
        parsing_success: None,
        is_afk: None,
        is_idle: None,
        idle_accumulation_secs: None,
    }
}

fn begin(session: Session) -> Renaming {
    let startup: Startup<u8, u8> = Database::new("", vec![]);
    let reader = startup
        .resume(Outcome::Connected { pool: 0 })
        .resume(Outcome::Acquired)
        .resume(Outcome::Lock { connection: 0, granted: false });
    match reader.finish() {
        Some(Ok(database)) => database.apply_renames_and_categories(session),
        _ => panic!("not open"),
    }
}

/// Answers every lookup with `answer`, which is told the column that is read and
/// the name that is asked about.  Returns the columns read, too.
fn drive(
    session: Session,
    answer: impl Fn(&str, &str) -> Option<String>,
) -> (Session, Vec<String>) {
    let mut renaming = begin(session);
    let mut asked = vec![];
    while let Some(statement) = renaming.pending() {
        let column = statement.sql.split(' ').nth(1).unwrap().to_string();
        let name = match &statement.params[0] {
            Value::Text(Some(name)) => name.clone(),
            _ => panic!("no name"),
        };
        let found = answer(&column, &name);
        asked.push(column);
        renaming = renaming.resume(Ok(found));
    }
    let (session, result) = renaming.finish();
    assert_eq!(result, Ok(()));
    (session, asked)
}

#[test]
fn every_name_is_looked_up_in_order() {
    let session = Session {
        browser_page_title: text("T"),
        terminal_directory: text("D"),
        editor_filename: text("F"),
        tmux_window_name: text("W"),
        ..blank("A")
    };
    let (found, asked) = drive(session.clone(), |column, name| text(&format!("{}/{}", column, name)));
    assert_eq!(
        asked,
        vec![
            "renamed_app_name",
            "browser_page_title_renamed",
            "browser_page_title_category",
            "terminal_directory_renamed",
            "terminal_directory_category",
            "editor_filename_renamed",
            "editor_filename_category",
            "tmux_window_name_renamed",
            "tmux_window_name_category",
        ]
    );
    let expected = Session {
        app_name: "renamed_app_name/A".to_string(),
        browser_page_title_renamed: text("browser_page_title_renamed/T"),
        browser_page_title_category: text("browser_page_title_category/T"),
        terminal_directory_renamed: text("terminal_directory_renamed/D"),
        terminal_directory_category: text("terminal_directory_category/D"),
        editor_filename_renamed: text("editor_filename_renamed/F"),
        editor_filename_category: text("editor_filename_category/F"),
        tmux_window_name_renamed: text("tmux_window_name_renamed/W"),
        tmux_window_name_category: text("tmux_window_name_category/W"),
        ..session
    };
    assert_eq!(found, expected);
}

#[test]
fn absent_names_are_skipped_and_keep_what_they_had() {
    let session = Session {
        editor_filename: text("F"),
        browser_page_title_renamed: text("stale"),
        editor_filename_category: text("old"),
        ..blank("A")
    };
    let (found, asked) = drive(session.clone(), |_, _| None);
    assert_eq!(
        asked,
        vec!["renamed_app_name", "editor_filename_renamed", "editor_filename_category"]
    );
    // Without a page title its rename stays; without an answer the category goes.
    let expected = Session { editor_filename_category: None, ..session };
    assert_eq!(found, expected);
}

#[test]
fn failed_lookup_keeps_earlier_answers() {
    let session = Session {
        browser_page_title: text("T"),
        browser_page_title_category: text("old"),
        ..blank("A")
    };
    let renaming = begin(session.clone())
        .resume(Ok(text("B")))
        .resume(Ok(text("R")))
        .resume(Err("timeout".to_string()));
    assert!(renaming.pending().is_none());
    assert_eq!(renaming.session().app_name, "B");
    let (found, result) = renaming.finish();
    assert_eq!(result, Err(DatabaseError::Backend { reason: "timeout".to_string() }));
    let expected = Session {
        app_name: "B".to_string(),
        browser_page_title_renamed: text("R"),
        ..session
    };
    assert_eq!(found, expected);
}

#[test]
fn lookup_has_its_statement() {
    let statement = Lookup::TmuxWindowNameCategory.statement("w");
    assert_eq!(
        statement.sql,
        "SELECT tmux_window_name_category FROM sessions WHERE tmux_window_name = $1 AND tmux_window_name_category IS NOT NULL LIMIT 1"
    );
    assert_eq!(statement.params, vec![Value::Text(text("w"))]);
}

#[test]
fn application_is_renamed_by_exactly_its_name() {
    let renames = [("code-oss", "VS Code"), ("Alacritty", "Terminal")];
    let look_up = |column: &str, name: &str| -> Option<String> {
        assert_eq!(column, "renamed_app_name");
        renames.iter().find(|(own, _)| *own == name).and_then(|(_, new)| text(new))
    };
    let (found, _) = drive(blank("code-oss"), look_up);
    assert_eq!(found, blank("VS Code"));
    // Neither another case nor a part of the name will do.
    let (found, _) = drive(blank("alacritty"), look_up);
    assert_eq!(found, blank("alacritty"));
    let (found, _) = drive(blank("code"), look_up);
    assert_eq!(found, blank("code"));
}
