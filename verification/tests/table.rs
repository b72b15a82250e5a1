use std::collections::{BTreeMap, BTreeSet};

use hustle_tracker::daemon::database::connection::{Database, Storing};
use hustle_tracker::daemon::database::migrator::Reply;
use hustle_tracker::daemon::database::startup::{Outcome, Startup};
use hustle_tracker::daemon::database::statement::{push_placeholder, Statement, Value};
use hustle_tracker::models::session::Session;

type Row = BTreeMap<String, Value>;

fn writer() -> Database<u8, u8> {
    let startup: Startup<u8, u8> = Database::new("", vec![]);
    let opened = startup
        .resume(Outcome::Connected { pool: 0 })
        .resume(Outcome::Acquired)
        .resume(Outcome::Lock { connection: 0, granted: true })
        .resume(Outcome::Migration { reply: Reply::Executed });
    match opened.finish() {
        Some(Ok(database)) => database,
        _ => panic!("not open"),
    }
}

fn session(title: &str, renamed: Option<&str>, start_time: i64) -> Session {
    Session {
        id: None,
        app_name: "browser".to_string(),
        window_name: None,
        start_time,
        duration: 1,
        category: None,
        browser_url: None,
        browser_page_title: Some(title.to_string()),
        browser_notification_count: None,
        browser_page_title_renamed: renamed.map(|r| r.to_string()),
        browser_page_title_category: None,
        terminal_username: None,
        terminal_hostname: None,
        terminal_directory: None,
        terminal_project_name: None,
        terminal_directory_renamed: None,
        terminal_directory_category: None,
        editor_filename: None,
        editor_filepath: None,
        editor_project_path: None,
        editor_language: None,
        editor_filename_renamed: None,
        editor_filename_category: None,
        tmux_window_name: None,
        tmux_pane_count: None,
        terminal_multiplexer: None,
        tmux_window_name_renamed: None,
        tmux_window_name_category: None,
        ide_project_name: None,
        ide_file_open: None,
        ide_workspace: None,
        parsed_data: None,
        parsing_success: None,
        is_afk: None,
        is_idle: None,
        idle_accumulation_secs: None,
    }
}

fn storing(session: &Session) -> Statement {
    match writer().persist_session(session) {
        Ok(Storing::Insert { statement }) => statement,
        Ok(Storing::Update { statement, .. }) => statement,
        Err(error) => panic!("{}", error.message()),
    }
}

/// Runs an `INSERT` of the store on an empty row.
fn inserted(statement: &Statement) -> Row {
    let listed = statement.sql.split('(').nth(1).unwrap().split(')').next().unwrap();
    let placeholders = statement.sql.split('(').nth(2).unwrap().split(')').next().unwrap();
    let mut row = Row::new();
    for (i, (column, placeholder)) in listed.split(',').zip(placeholders.split(',')).enumerate() {
        assert_eq!(placeholder.trim(), format!("${}", i + 1));
        assert!(row.insert(column.trim().to_string(), statement.params[i].clone()).is_none());
    }
    assert_eq!(row.len(), statement.params.len());
    row
}

/// Runs an `UPDATE` of the store on `row`.
fn updated(row: &Row, statement: &Statement) -> Row {
    let assignments = statement.sql.split("SET").nth(1).unwrap().split("WHERE").next().unwrap();
    let mut row = row.clone();
    for (i, assignment) in assignments.split(',').enumerate() {
        let (column, placeholder) = assignment.split_once('=').unwrap();
        assert_eq!(placeholder.trim(), format!("${}", i + 1));
        row.insert(column.trim().to_string(), statement.params[i].clone());
    }
    row
}

#[test]
fn update_replaces_insert() {
    let first = session("old", None, 100);
    let second = session("new", Some("New"), 100);
    let known = Session { id: Some(4), ..second.clone() };
    let row = updated(&inserted(&storing(&first)), &storing(&known));
    assert_eq!(row, inserted(&storing(&second)));
}

#[test]
fn update_keeps_the_start_time() {
    let known = Session { id: Some(4), ..session("new", None, 999) };
    let row = updated(&inserted(&storing(&session("old", None, 100))), &storing(&known));
    assert_eq!(row["start_time"], Value::Timestamp(100));
    assert_eq!(row["browser_page_title"], Value::Text(Some("new".to_string())));
}

#[test]
fn column_names_are_distinct() {
    let row = inserted(&storing(&session("t", None, 0)));
    assert_eq!(row.keys().collect::<BTreeSet<_>>().len(), 35);
}

#[test]
fn placeholders_are_distinct() {
    let mut seen = BTreeSet::new();
    for n in 0..200 {
        let mut out = String::new();
        push_placeholder(&mut out, n);
        assert!(seen.insert(out));
    }
}

#[test]
fn different_sessions_have_different_rows() {
    let row = inserted(&storing(&session("t", None, 0)));
    assert_ne!(row, inserted(&storing(&session("u", None, 0))));
    assert_ne!(row, inserted(&storing(&session("t", Some("r"), 0))));
    assert_ne!(row, inserted(&storing(&session("t", None, 1))));
}

#[test]
fn stored_rename_is_found_again() {
    let table = vec![
        inserted(&storing(&session("other", Some("Other"), 0))),
        inserted(&storing(&session("docs", None, 0))),
        inserted(&storing(&session("docs", Some("Documentation"), 0))),
    ];
    let mut renaming = writer().apply_renames_and_categories(session("docs", None, 7));
    while let Some(statement) = renaming.pending() {
        let words: Vec<&str> = statement.sql.split(' ').collect();
        let (target, key) = (words[1], words[5]);
        let answer = table.iter().find_map(|row| match (row.get(key), row.get(target)) {
            (Some(name), Some(Value::Text(Some(found)))) if *name == statement.params[0] => {
                Some(found.clone())
            }
            _ => None,
        });
        renaming = renaming.resume(Ok(answer));
    }
    let (found, result) = renaming.finish();
    assert_eq!(result, Ok(()));
    assert_eq!(found, session("docs", Some("Documentation"), 7));
}

/// Runs an `UPDATE` of the store on a whole table.
fn update_table(table: &BTreeMap<i32, Row>, statement: &Statement) -> BTreeMap<i32, Row> {
    let mut table = table.clone();
    if let Some(Value::Int4(Some(key))) = statement.params.last() {
        if let Some(row) = table.get_mut(key) {
            let overwritten = updated(row, statement);
            *row = overwritten;
        }
    }
    table
}

#[test]
fn update_overwrites_only_its_row() {
    let mut table = BTreeMap::new();
    table.insert(4, inserted(&storing(&session("a", None, 100))));
    table.insert(5, inserted(&storing(&session("b", None, 200))));
    let known = Session { id: Some(4), ..session("c", None, 100) };
    let after = update_table(&table, &storing(&known));
    assert_eq!(after.keys().collect::<Vec<_>>(), vec![&4, &5]);
    assert_eq!(after[&4], inserted(&storing(&session("c", None, 100))));
    assert_eq!(after[&5], table[&5]);
    let unknown = Session { id: Some(9), ..session("c", None, 100) };
    assert_eq!(update_table(&table, &storing(&unknown)), table);
}

#[test]
fn last_update_wins() {
    let mut table = BTreeMap::new();
    table.insert(4, inserted(&storing(&session("old", None, 100))));
    table.insert(5, inserted(&storing(&session("other", None, 200))));
    let a = storing(&Session { id: Some(4), duration: 30, ..session("a", Some("A"), 1) });
    let b = storing(&Session { id: Some(4), duration: 60, ..session("b", None, 2) });
    let once = update_table(&table, &a);
    assert_ne!(once, table);
    let twice = update_table(&once, &b);
    assert_eq!(twice, update_table(&table, &b));
    assert_eq!(twice[&4]["duration"], Value::Int8(Some(60)));
    assert_eq!(twice[&4]["browser_page_title_renamed"], Value::Text(None));
    assert_eq!(twice[&4]["start_time"], Value::Timestamp(100));
}
