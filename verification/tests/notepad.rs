use notepad::browser::{filter_visible, is_hidden_name, DirEntry, IoError};
use notepad::notepad_app::NotepadApp;

fn entry(name: &str, is_dir: bool) -> DirEntry {
    DirEntry { name: name.to_string(), path: format!("/home/user/{}", name), is_dir }
}

fn io_error(message: &str) -> IoError {
    IoError { message: message.to_string() }
}

#[test]
fn default_state() {
    let app = NotepadApp::default();
    assert_eq!(app.text, "");
    assert!(app.file_path.is_none());
    assert_eq!(app.history, vec![String::new()]);
    assert_eq!(app.current_step, 0);
    assert!(app.folder_contents.is_empty());
    assert!(app.sidebar_visible);
    assert!(!app.show_hidden_files);
    assert!(!app.settings_open);
    assert!(!app.dark_mode);
}

#[test]
fn undo_then_redo_returns_to_snapshot() {
    let mut app = NotepadApp::default();
    app.text = "alpha".to_string();
    app.save_history();
    app.text = "alpha beta".to_string();
    app.save_history();

    app.undo();
    assert_eq!(app.text, "alpha");
    app.redo();
    assert_eq!(app.text, "alpha beta");
    assert_eq!(app.current_step, 2);
}

#[test]
fn record_after_undo_discards_redo() {
    let mut app = NotepadApp::default();
    for s in ["A", "B", "C"] {
        app.text = s.to_string();
        app.save_history();
    }
    assert_eq!(app.history, vec!["", "A", "B", "C"]);
    assert_eq!(app.current_step, 3);

    app.undo();
    assert_eq!(app.text, "B");

    app.text = "D".to_string();
    app.save_history();
    assert_eq!(app.history, vec!["", "A", "B", "D"]);
    assert_eq!(app.current_step, 3);

    // The discarded snapshot is unreachable: redo is a no-op here.
    app.redo();
    assert_eq!(app.text, "D");
    assert_eq!(app.current_step, 3);
    assert!(!app.history.iter().any(|s| s == "C"));
}

#[test]
fn undo_at_first_snapshot_is_noop() {
    let mut app = NotepadApp::default();
    app.undo();
    assert_eq!(app.current_step, 0);
    assert_eq!(app.text, "");

    app.text = "A".to_string();
    app.save_history();
    app.undo();
    app.undo();
    assert_eq!(app.current_step, 0);
    assert_eq!(app.text, "");
}

#[test]
fn redo_at_last_snapshot_is_noop() {
    let mut app = NotepadApp::default();
    app.text = "A".to_string();
    app.save_history();
    app.redo();
    assert_eq!(app.current_step, 1);
    assert_eq!(app.text, "A");
}

#[test]
fn new_file_clears_document_and_records() {
    let mut app = NotepadApp::default();
    app.open_file("/home/user/notes.txt".to_string(), "some notes".to_string());
    app.new_file();
    assert_eq!(app.text, "");
    assert!(app.file_path.is_none());
    assert_eq!(app.history, vec!["", "some notes", ""]);
    assert_eq!(app.current_step, 2);
}

#[test]
fn open_file_records_and_sets_path() {
    let mut app = NotepadApp::default();
    app.open_file("/home/user/notes.txt".to_string(), "some notes".to_string());
    assert_eq!(app.text, "some notes");
    assert_eq!(app.file_path.as_deref(), Some("/home/user/notes.txt"));
    assert_eq!(app.current_step, 1);

    app.undo();
    assert_eq!(app.text, "");
    app.redo();
    assert_eq!(app.text, "some notes");
}

#[test]
fn set_file_path_changes_only_the_path() {
    let mut app = NotepadApp::default();
    app.text = "kept".to_string();
    app.set_file_path("/home/user/out.txt".to_string());
    assert_eq!(app.file_path.as_deref(), Some("/home/user/out.txt"));
    assert_eq!(app.text, "kept");
    assert_eq!(app.current_step, 0);
}

#[test]
fn hidden_marker_detection() {
    assert!(!is_hidden_name(""));
    assert!(is_hidden_name("."));
    assert!(is_hidden_name(".config"));
    assert!(!is_hidden_name("notes.txt"));
    assert!(!is_hidden_name("a.b"));
}

#[test]
fn listing_excludes_hidden_unless_shown() {
    let entries = vec![
        entry("notes.txt", false),
        entry(".config", true),
        entry("projects", true),
        entry(".bashrc", false),
    ];

    let visible = filter_visible(&entries, false);
    let names: Vec<&str> = visible.iter().map(|e| e.name.as_str()).collect();
    assert_eq!(names, vec!["notes.txt", "projects"]);

    let all = filter_visible(&entries, true);
    let names: Vec<&str> = all.iter().map(|e| e.name.as_str()).collect();
    assert_eq!(names, vec!["notes.txt", ".config", "projects", ".bashrc"]);
}

#[test]
fn empty_listing_stays_empty() {
    let entries: Vec<DirEntry> = Vec::new();
    assert!(filter_visible(&entries, false).is_empty());
    assert!(filter_visible(&entries, true).is_empty());
}

#[test]
fn refresh_applies_successful_listing() {
    let mut app = NotepadApp::default();
    app.refresh_folder_contents(Ok(vec![entry("a.txt", false), entry(".hidden", false)]));
    let names: Vec<&str> = app.folder_contents.iter().map(|e| e.name.as_str()).collect();
    assert_eq!(names, vec!["a.txt"]);

    app.show_hidden_files = true;
    app.refresh_folder_contents(Ok(vec![entry("a.txt", false), entry(".hidden", false)]));
    let names: Vec<&str> = app.folder_contents.iter().map(|e| e.name.as_str()).collect();
    assert_eq!(names, vec!["a.txt", ".hidden"]);
}

#[test]
fn failed_listing_retains_previous_contents() {
    let mut app = NotepadApp::default();
    app.refresh_folder_contents(Ok(vec![entry("a.txt", false)]));
    assert_eq!(app.folder_contents.len(), 1);

    app.refresh_folder_contents(Err(io_error("no such directory")));
    let names: Vec<&str> = app.folder_contents.iter().map(|e| e.name.as_str()).collect();
    assert_eq!(names, vec!["a.txt"]);
}

#[test]
fn failed_navigation_retains_previous_state() {
    let mut app = NotepadApp::default();
    app.open_folder("/home/user".to_string(), Ok(vec![entry("a.txt", false)]));
    assert_eq!(app.folder_path, "/home/user");
    assert_eq!(app.folder_contents.len(), 1);

    app.open_folder("/does/not/exist".to_string(), Err(io_error("no such directory")));
    assert_eq!(app.folder_path, "/home/user");
    assert_eq!(app.folder_contents.len(), 1);
}

#[test]
fn successful_navigation_replaces_listing() {
    let mut app = NotepadApp::default();
    app.open_folder(
        "/home/user/projects".to_string(),
        Ok(vec![entry("one", true), entry(".git", true)]),
    );
    assert_eq!(app.folder_path, "/home/user/projects");
    let names: Vec<&str> = app.folder_contents.iter().map(|e| e.name.as_str()).collect();
    assert_eq!(names, vec!["one"]);
}
