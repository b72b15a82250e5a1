use hustle_tracker::daemon::database::columns::Column;
use hustle_tracker::daemon::database::connection::{Database, Storing, StoringReply, WRITER_LOCK_KEY};
use hustle_tracker::daemon::database::error::DatabaseError;
use hustle_tracker::daemon::database::migrator::Reply;
use hustle_tracker::daemon::database::startup::{Action, Outcome, Startup};
use hustle_tracker::daemon::database::statement::{push_decimal, push_placeholder, Fetch, Value};
use hustle_tracker::models::session::{clone_text, Session};

type Store = Database<&'static str, &'static str>;

fn open(granted: bool) -> Store {
    let startup: Startup<&'static str, &'static str> = Store::new("postgres://here", vec![]);
    let startup = startup.resume(Outcome::Connected { pool: "pool" });
    let startup = startup.resume(Outcome::Acquired);
    let mut startup = startup.resume(Outcome::Lock { connection: "connection", granted });
    if granted {
        assert!(matches!(startup.pending(), Some(Action::Migrate { .. })));
        startup = startup.resume(Outcome::Migration { reply: Reply::Executed });
    }
    match startup.finish() {
        Some(Ok(database)) => database,
        _ => panic!("the store did not open"),
    }
}

fn text(s: &str) -> Option<String> {
    Some(s.to_string())
}

fn session() -> Session {
    Session {
        id: None,
        app_name: "app".to_string(),
        window_name: text("window"),
        start_time: 1_700_000_000_000_000,
        duration: 42,
        category: text("category"),
        browser_url: text("url"),
        browser_page_title: text("title"),
        browser_notification_count: Some(3),
        browser_page_title_renamed: text("title renamed"),
        browser_page_title_category: text("title category"),
        terminal_username: text("user"),
        terminal_hostname: text("host"),
        terminal_directory: text("dir"),
        terminal_project_name: text("project"),
        terminal_directory_renamed: text("dir renamed"),
        terminal_directory_category: text("dir category"),
        editor_filename: text("file"),
        editor_filepath: text("path"),
        editor_project_path: text("project path"),
        editor_language: text("language"),
        editor_filename_renamed: text("file renamed"),
        editor_filename_category: text("file category"),
        tmux_window_name: text("tmux"),
        tmux_pane_count: Some(2),
        terminal_multiplexer: text("multiplexer"),
        tmux_window_name_renamed: text("tmux renamed"),
        tmux_window_name_category: text("tmux category"),
        ide_project_name: text("ide project"),
        ide_file_open: text("ide file"),
        ide_workspace: None,
        parsed_data: text("{}"),
        parsing_success: Some(true),
        is_afk: Some(false),
        is_idle: None,
        idle_accumulation_secs: Some(7),
    }
}

const INSERT: &str = r#"
            INSERT INTO sessions (
                app_name, window_name, start_time, duration, category,
                browser_url, browser_page_title, browser_notification_count,
                browser_page_title_renamed, browser_page_title_category,
                terminal_username, terminal_hostname, terminal_directory, terminal_project_name,
                terminal_directory_renamed, terminal_directory_category,
                editor_filename, editor_filepath, editor_project_path, editor_language,
                editor_filename_renamed, editor_filename_category,
                tmux_window_name, tmux_pane_count, terminal_multiplexer,
                tmux_window_name_renamed, tmux_window_name_category,
                ide_project_name, ide_file_open, ide_workspace,
                parsed_data, parsing_success, is_afk, is_idle, idle_accumulation_secs
            ) VALUES (
                $1, $2, $3, $4, $5,
                $6, $7, $8,
                $9, $10,
                $11, $12, $13, $14,
                $15, $16,
                $17, $18, $19, $20,
                $21, $22,
                $23, $24, $25,
                $26, $27,
                $28, $29, $30,
                $31, $32, $33, $34, $35
            ) RETURNING id
            "#;

const UPDATE: &str = r#"
            UPDATE sessions SET
                app_name = $1, window_name = $2, duration = $3, category = $4,
                browser_url = $5, browser_page_title = $6, browser_notification_count = $7,
                browser_page_title_renamed = $8, browser_page_title_category = $9,
                terminal_username = $10, terminal_hostname = $11, terminal_directory = $12,
                terminal_project_name = $13, terminal_directory_renamed = $14,
                terminal_directory_category = $15,
                editor_filename = $16, editor_filepath = $17, editor_project_path = $18,
                editor_language = $19, editor_filename_renamed = $20,
                editor_filename_category = $21,
                tmux_window_name = $22, tmux_pane_count = $23, terminal_multiplexer = $24,
                tmux_window_name_renamed = $25, tmux_window_name_category = $26,
                ide_project_name = $27, ide_file_open = $28, ide_workspace = $29,
                parsed_data = $30, parsing_success = $31, is_afk = $32, is_idle = $33,
                idle_accumulation_secs = $34
            WHERE id = $35
            "#;

fn insert_values() -> Vec<Value> {
    vec![
        Value::Text(text("app")),
        Value::Text(text("window")),
        Value::Timestamp(1_700_000_000_000_000),
        Value::Int8(Some(42)),
        Value::Text(text("category")),
        Value::Text(text("url")),
        Value::Text(text("title")),
        Value::Int4(Some(3)),
        Value::Text(text("title renamed")),
        Value::Text(text("title category")),
        Value::Text(text("user")),
        Value::Text(text("host")),
        Value::Text(text("dir")),
        Value::Text(text("project")),
        Value::Text(text("dir renamed")),
        Value::Text(text("dir category")),
        Value::Text(text("file")),
        Value::Text(text("path")),
        Value::Text(text("project path")),
        Value::Text(text("language")),
        Value::Text(text("file renamed")),
        Value::Text(text("file category")),
        Value::Text(text("tmux")),
        Value::Int4(Some(2)),
        Value::Text(text("multiplexer")),
        Value::Text(text("tmux renamed")),
        Value::Text(text("tmux category")),
        Value::Text(text("ide project")),
        Value::Text(text("ide file")),
        Value::Text(None),
        Value::Json(text("{}")),
        Value::Bool(Some(true)),
        Value::Bool(Some(false)),
        Value::Bool(None),
        Value::Int8(Some(7)),
    ]
}

#[test]
fn insert_writes_every_column() {
    let statement = match open(true).insert_session(&session()) {
        Ok(statement) => statement,
        Err(error) => panic!("{}", error.message()),
    };
    assert_eq!(statement.sql, INSERT);
    assert_eq!(statement.params, insert_values());
    assert_eq!(statement.fetch, Fetch::One);
}

#[test]
fn update_writes_every_column_but_the_start_time() {
    let known = Session { id: Some(99), ..session() };
    let statement = match open(true).update_session(&known) {
        Ok(statement) => statement,
        Err(error) => panic!("{}", error.message()),
    };
    assert_eq!(statement.sql, UPDATE);
    let mut expected = insert_values();
    expected.remove(2);
    expected.push(Value::Int4(Some(99)));
    assert_eq!(statement.params, expected);
    assert_eq!(statement.fetch, Fetch::Execute);
}

#[test]
fn update_needs_an_id() {
    let error = open(true).update_session(&session()).unwrap_err();
    assert_eq!(error, DatabaseError::MissingId);
    assert_eq!(error.message(), "cannot update a session without an id");
}

#[test]
fn reader_may_not_write() {
    let reader = open(false);
    assert!(!reader.is_writer());
    assert_eq!(*reader.pool(), "pool");
    let known = Session { id: Some(1), ..session() };
    assert_eq!(reader.insert_session(&session()).unwrap_err(), DatabaseError::ReadOnly);
    assert_eq!(reader.update_session(&known).unwrap_err(), DatabaseError::ReadOnly);
    // The lock is missed before the id is.
    assert_eq!(reader.update_session(&session()).unwrap_err(), DatabaseError::ReadOnly);
    assert!(matches!(reader.persist_session(&known), Err(DatabaseError::ReadOnly)));
    assert!(matches!(reader.persist_session(&session()), Err(DatabaseError::ReadOnly)));
    assert_eq!(
        DatabaseError::ReadOnly.message(),
        "database is read-only; another process owns recording"
    );
}

#[test]
fn persisting_a_known_session_updates_it() {
    let known = Session { id: Some(5), ..session() };
    let writer = open(true);
    assert!(writer.is_writer());
    let storing = match writer.persist_session(&known) {
        Ok(storing) => storing,
        Err(error) => panic!("{}", error.message()),
    };
    match &storing {
        Storing::Update { id, statement } => {
            assert_eq!(*id, 5);
            assert_eq!(statement.sql, UPDATE);
        }
        Storing::Insert { .. } => panic!("a known session was inserted"),
    }
    assert_eq!(storing.stored_id(StoringReply::Updated), Ok(5));
    assert_eq!(
        storing.stored_id(StoringReply::Failed { reason: "gone".to_string() }),
        Err(DatabaseError::Backend { reason: "gone".to_string() })
    );
}

#[test]
fn persisting_a_new_session_inserts_it() {
    let storing = match open(true).persist_session(&session()) {
        Ok(storing) => storing,
        Err(error) => panic!("{}", error.message()),
    };
    match &storing {
        Storing::Insert { statement } => assert_eq!(statement.sql, INSERT),
        Storing::Update { .. } => panic!("a new session was updated"),
    }
    assert_eq!(storing.stored_id(StoringReply::Inserted { id: 17 }), Ok(17));
}

#[test]
fn error_messages() {
    let failed = DatabaseError::MigrationFailed {
        description: "one.sql".to_string(),
        reason: "syntax error".to_string(),
    };
    assert_eq!(failed.message(), "Migration failed: one.sql: syntax error");
    let backend = DatabaseError::Backend { reason: "connection reset".to_string() };
    assert_eq!(backend.message(), "connection reset");
}

#[test]
fn lookup_statements() {
    let store = open(false);
    let cases = vec![
        (
            store.get_browser_page_title_rename("x"),
            "SELECT browser_page_title_renamed FROM sessions WHERE browser_page_title = $1 AND browser_page_title_renamed IS NOT NULL LIMIT 1",
        ),
        (
            store.get_browser_page_title_category("x"),
            "SELECT browser_page_title_category FROM sessions WHERE browser_page_title = $1 AND browser_page_title_category IS NOT NULL LIMIT 1",
        ),
        (
            store.get_terminal_directory_rename("x"),
            "SELECT terminal_directory_renamed FROM sessions WHERE terminal_directory = $1 AND terminal_directory_renamed IS NOT NULL LIMIT 1",
        ),
        (
            store.get_terminal_directory_category("x"),
            "SELECT terminal_directory_category FROM sessions WHERE terminal_directory = $1 AND terminal_directory_category IS NOT NULL LIMIT 1",
        ),
        (
            store.get_editor_filename_rename("x"),
            "SELECT editor_filename_renamed FROM sessions WHERE editor_filename = $1 AND editor_filename_renamed IS NOT NULL LIMIT 1",
        ),
        (
            store.get_editor_filename_category("x"),
            "SELECT editor_filename_category FROM sessions WHERE editor_filename = $1 AND editor_filename_category IS NOT NULL LIMIT 1",
        ),
        (
            store.get_tmux_window_name_rename("x"),
            "SELECT tmux_window_name_renamed FROM sessions WHERE tmux_window_name = $1 AND tmux_window_name_renamed IS NOT NULL LIMIT 1",
        ),
        (
            store.get_tmux_window_name_category("x"),
            "SELECT tmux_window_name_category FROM sessions WHERE tmux_window_name = $1 AND tmux_window_name_category IS NOT NULL LIMIT 1",
        ),
        (
            store.get_app_rename("x"),
            "SELECT renamed_app_name FROM app_renames WHERE original_app_name = $1",
        ),
    ];
    for (statement, sql) in cases {
        assert_eq!(statement.sql, sql);
        assert_eq!(statement.params, vec![Value::Text(text("x"))]);
        assert_eq!(statement.fetch, Fetch::Optional);
    }
}

#[test]
fn lock_key_spells_the_tracker() {
    assert_eq!(&WRITER_LOCK_KEY.to_be_bytes(), b"HUSTLETR");
}

#[test]
fn decimal_numbers() {
    let numbers: [(usize, &str); 5] = [(0, "0"), (9, "9"), (10, "10"), (35, "35"), (10_203, "10203")];
    for (n, expected) in numbers {
        let mut out = String::new();
        push_decimal(&mut out, n);
        assert_eq!(out, expected);
    }
    let mut out = "id = ".to_string();
    push_placeholder(&mut out, 12);
    assert_eq!(out, "id = $12");
}

#[test]
fn columns_have_names_and_values() {
    assert_eq!(Column::TmuxPaneCount.name(), "tmux_pane_count");
    assert_eq!(Column::TmuxPaneCount.value(&session()), Value::Int4(Some(2)));
    assert_eq!(Column::IsIdle.value(&session()), Value::Bool(None));
}

#[test]
fn copies_of_texts() {
    assert_eq!(clone_text(&text("a")), text("a"));
    assert_eq!(clone_text(&None), None);
}
