use oxid::config::Config;
use oxid::entry::build_listing;
use oxid::entry::RawListingEntry;
use oxid::state::App;
use oxid::templates::Template;
use oxid::config::expand_path;
use oxid::config::config_file_path;

fn raw(name: &str, dir: bool, content: &str) -> RawListingEntry {
    RawListingEntry {
        name: String::from(name),
        is_directory: dir,
        content: String::from(content),
        truncated: false,
    }
}

fn fresh() -> App {
    let mut config = Config::default();
    config.notes_directory = String::from("/ws");
    App::new(config, "/home/user")
}

#[test]
fn listing_orders_directories_first_then_case_insensitive() {
    // Root with a.md, b.md and an empty notes/ lists as
    // ["notes/", "a.md", "b.md"].
    let entries = build_listing(
        "/ws",
        vec![raw("b.md", false, ""), raw("a.md", false, ""), raw("notes", true, "")],
        false,
    );
    let displays: Vec<&str> = entries.iter().map(|e| e.display.as_str()).collect();
    assert_eq!(displays, vec!["notes/", "a.md", "b.md"]);
    assert!(entries[0].is_directory);
    assert_eq!(entries[0].path, "/ws/notes");
    assert_eq!(entries[1].path, "/ws/a.md");
}

#[test]
fn listing_sort_ignores_case() {
    let entries = build_listing(
        "/ws",
        vec![raw("Beta.md", false, ""), raw("alpha.md", false, ""), raw("Gamma.md", false, "")],
        false,
    );
    let displays: Vec<&str> = entries.iter().map(|e| e.display.as_str()).collect();
    assert_eq!(displays, vec!["alpha.md", "Beta.md", "Gamma.md"]);
}

#[test]
fn listing_hides_dot_entries_unless_asked() {
    let shown = build_listing(
        "/ws",
        vec![raw(".hidden.md", false, ""), raw("a.md", false, "")],
        false,
    );
    assert_eq!(shown.len(), 1);
    let all = build_listing(
        "/ws",
        vec![raw(".hidden.md", false, ""), raw("a.md", false, "")],
        true,
    );
    assert_eq!(all.len(), 2);
}

#[test]
fn listing_keeps_only_markdown_documents() {
    let entries = build_listing(
        "/ws",
        vec![raw("a.md", false, ""), raw("b.txt", false, ""), raw("sub", true, "")],
        false,
    );
    assert_eq!(entries.len(), 2);
    assert_eq!(entries[0].display, "sub/");
    assert_eq!(entries[1].display, "a.md");
}

#[test]
fn listing_builds_searchable_and_marker() {
    let entries = build_listing(
        "/ws",
        vec![RawListingEntry {
            name: String::from("big.md"),
            is_directory: false,
            content: String::from("body"),
            truncated: true,
        }],
        false,
    );
    assert_eq!(entries[0].content, "body\n\n(Content truncated - file too large)");
    assert!(entries[0].searchable.starts_with("big.md\n"));
}

#[test]
fn parent_at_root_is_refused() {
    // Repeated "parent" calls at the workspace root are no-ops: the
    // browser can never escape above the configured root.
    let mut app = fresh();
    let before = app.current_dir();
    assert!(!app.go_to_parent_dir());
    assert!(!app.go_to_parent_dir());
    assert_eq!(app.current_dir(), before);
    assert_eq!(app.current_dir(), "/ws");
}

#[test]
fn enter_and_leave_directory_restores_selection_name() {
    let mut app = fresh();
    app.apply_listing(Some(vec![raw("a.md", false, ""), raw("notes", true, "")]));
    assert_eq!(app.filtered_notes[0].display, "notes/");
    app.selected = 0;
    assert!(app.enter_selected_directory());
    assert_eq!(app.current_dir(), "/ws/notes");
    assert!(app.go_to_parent_dir());
    assert_eq!(app.current_dir(), "/ws");
    assert_eq!(app.pending_select.as_deref(), Some("notes/"));
    app.apply_listing(Some(vec![raw("a.md", false, ""), raw("notes", true, "")]));
    assert_eq!(app.filtered_notes[app.selected].display, "notes/");
}

#[test]
fn unreadable_listing_reports_and_keeps_state() {
    let mut app = fresh();
    app.apply_listing(Some(vec![raw("a.md", false, "")]));
    let before = app.all_notes.len();
    app.apply_listing(None);
    assert_eq!(app.message.as_deref(), Some("Cannot read directory"));
    assert_eq!(app.all_notes.len(), before);
}

#[test]
fn delete_selected_note_guards_directories_and_config() {
    let mut app = fresh();
    app.apply_listing(Some(vec![raw("a.md", false, ""), raw("sub", true, "")]));
    app.selected = 0;  // sub/ sorts first
    assert!(app.delete_selected_note().is_none());
    assert_eq!(app.message.as_deref(), Some("Use a file manager to delete directories"));
    app.selected = 1;
    let removed = app.delete_selected_note();
    assert_eq!(removed.as_deref(), Some("/ws/a.md"));
    assert_eq!(app.message.as_deref(), Some("Deleted"));
}

#[test]
fn rename_flow_validates_and_appends_extension() {
    let mut app = fresh();
    app.apply_listing(Some(vec![raw("a.md", false, "")]));
    app.selected = 0;
    app.rename_input = String::from("   ");
    assert!(app.rename_selected_note(false).is_none());
    assert_eq!(app.message.as_deref(), Some("Name cannot be empty"));
    app.rename_input = String::from("fresh");
    assert_eq!(app.rename_target().as_deref(), Some("/ws/fresh.md"));
    let req = app.rename_selected_note(false).expect("rename should go through");
    assert_eq!(req.0, "/ws/a.md");
    assert_eq!(req.1, "/ws/fresh.md");
    assert!(!req.2);
    assert_eq!(app.message.as_deref(), Some("Renamed"));
}

#[test]
fn rename_refuses_collision() {
    let mut app = fresh();
    app.apply_listing(Some(vec![raw("a.md", false, "")]));
    app.selected = 0;
    app.rename_input = String::from("b");
    assert!(app.rename_selected_note(true).is_none());
    assert_eq!(app.message.as_deref(), Some("File already exists"));
}

#[test]
fn create_directory_flow() {
    let mut app = fresh();
    app.directory_input = String::from("  journal  ");
    let path = app.create_directory(false);
    assert_eq!(path.as_deref(), Some("/ws/journal"));
    assert_eq!(app.message.as_deref(), Some("Created directory: journal"));
    app.directory_input = String::from("x");
    assert!(app.create_directory(true).is_none());
    assert_eq!(app.message.as_deref(), Some("Directory already exists"));
}

#[test]
fn create_note_with_template_builds_path_and_content() {
    let mut app = fresh();
    app.create_filename = String::from("ideas");
    let r = app.create_note_with_template(Template::Meeting, "2024-01-05", false);
    let (path, content) = r.expect("creation should go through");
    assert_eq!(path, "/ws/ideas.md");
    assert_eq!(content, "## Participants\n\n\n## Notes\n\n");
    assert!(!app.template_picker_active);
}

#[test]
fn daily_note_paths() {
    let app = fresh();
    let (folder, path) = app.daily_note_file("2024-01-05");
    assert_eq!(folder, "/ws/journal");
    assert_eq!(path, "/ws/journal/2024-01-05.md");
    assert_eq!(App::daily_note_header("2024-01-05"), "# Daily Note: 2024-01-05\n\n");
}

#[test]
fn expand_path_resolves_home() {
    assert_eq!(expand_path("~/Documents/Notes", "/home/u"), "/home/u/Documents/Notes");
    assert_eq!(expand_path("~", "/home/u"), "/home/u");
    assert_eq!(expand_path("/abs", "/home/u"), "/abs");
    assert_eq!(expand_path("  /abs  ", "/home/u"), "/abs");
}

#[test]
fn config_file_path_joins() {
    assert_eq!(config_file_path("/home/u/.config/oxid"), "/home/u/.config/oxid/config.toml");
}
