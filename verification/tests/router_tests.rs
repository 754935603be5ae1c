use oxid::config::Config;
use oxid::config::KeysConfig;
use oxid::keys::KeyCode;
use oxid::keys::KeyInput;
use oxid::keys::ResolvedKeys;
use oxid::router::Command;
use oxid::state::App;
use oxid::state::EditorMode;
use oxid::state::Focus;
use oxid::state::Mode;

fn fresh() -> (App, ResolvedKeys) {
    let mut config = Config::default();
    config.notes_directory = String::from("/ws");
    let keys = ResolvedKeys::from_config(&KeysConfig::default());
    (App::new(config, "/home/u"), keys)
}

fn ch(c: char) -> KeyInput {
    KeyInput { code: KeyCode::Char(c), ctrl: false, alt: false, shift: false }
}

#[test]
fn quit_only_from_browser_normal_mode() {
    let (mut app, keys) = fresh();
    assert!(matches!(app.route_key(ch('q'), &keys), Command::Quit));
    let (mut app2, keys) = fresh();
    app2.enter_search_mode();
    assert!(!matches!(app2.route_key(ch('q'), &keys), Command::Quit));
}

#[test]
fn global_bindings_reach_any_focus() {
    let (mut app, keys) = fresh();
    app.load_file_into_editor(String::from("/ws/a.md"), "a");
    assert!(matches!(app.focus, Focus::Editor));
    assert!(matches!(app.route_key(keys.search, &keys), Command::EnterTelescope));
    assert!(matches!(app.route_key(keys.task_board, &keys), Command::EnterTaskView));
    app.route_key(keys.command_palette, &keys);
    assert!(matches!(app.focus, Focus::CommandPalette));
}

#[test]
fn browser_search_mode_types_into_query() {
    let (mut app, keys) = fresh();
    app.route_key(keys.search, &keys); // global: telescope, not list search
    let (mut app, keys) = fresh();
    app.enter_search_mode();
    app.route_key(ch('a'), &keys);
    app.route_key(ch('b'), &keys);
    assert_eq!(app.search_query, "ab");
    app.route_key(keys.backspace, &keys);
    assert_eq!(app.search_query, "a");
    app.route_key(keys.escape, &keys);
    assert!(matches!(app.mode, Mode::Normal));
    assert_eq!(app.search_query, "");
}

#[test]
fn leader_key_never_stays_pending() {
    // The leader key arms on `g` and is consumed by the very next key,
    // recognised or not.
    let (mut app, keys) = fresh();
    app.load_file_into_editor(String::from("/ws/a.md"), "a");
    assert!(matches!(app.editor_mode, EditorMode::Normal));
    app.route_key(ch('g'), &keys);
    assert!(app.g_pending);
    app.route_key(ch('z'), &keys); // unrecognised follow-up is dropped
    assert!(!app.g_pending);
    app.route_key(ch('g'), &keys);
    app.route_key(keys.escape, &keys);
    assert!(!app.g_pending);
}

#[test]
fn leader_tab_commands() {
    let (mut app, keys) = fresh();
    app.load_file_into_editor(String::from("/ws/a.md"), "a");
    app.load_file_into_editor(String::from("/ws/b.md"), "b");
    assert_eq!(app.active_tab, 2);
    app.route_key(ch('g'), &keys);
    app.route_key(ch('t'), &keys);
    assert_eq!(app.active_tab, 0);
    app.route_key(ch('g'), &keys);
    assert!(matches!(app.route_key(ch('q'), &keys), Command::CloseTab));
}

#[test]
fn editor_insert_mode_round_trip() {
    let (mut app, keys) = fresh();
    app.load_file_into_editor(String::from("/ws/a.md"), "a");
    app.route_key(ch('i'), &keys);
    assert!(matches!(app.editor_mode, EditorMode::Insert));
    assert!(matches!(app.route_key(ch('x'), &keys), Command::EditorInsert));
    app.route_key(keys.escape, &keys);
    assert!(matches!(app.editor_mode, EditorMode::Normal));
}

#[test]
fn escape_leaves_overlays_without_side_effects() {
    // A buffer is always open (the scratch one at least), so leaving the
    // palette or finder always lands in the editor.
    let (mut app, keys) = fresh();
    app.enter_command_palette();
    let query_before = app.command_palette_query.clone();
    app.route_key(keys.escape, &keys);
    assert!(matches!(app.focus, Focus::Editor));
    assert_eq!(app.command_palette_query, query_before);

    app.load_file_into_editor(String::from("/ws/a.md"), "a");
    app.enter_command_palette();
    app.route_key(keys.escape, &keys);
    assert!(matches!(app.focus, Focus::Editor));
}

#[test]
fn rename_prompt_routes_chars_and_confirm() {
    let (mut app, keys) = fresh();
    app.apply_listing(Some(vec![oxid::entry::RawListingEntry {
        name: String::from("a.md"),
        is_directory: false,
        content: String::new(),
        truncated: false,
    }]));
    app.enter_rename();
    assert!(matches!(app.focus, Focus::Rename));
    assert_eq!(app.rename_input, "a.md");
    app.route_key(keys.backspace, &keys);
    app.route_key(ch('x'), &keys);
    assert_eq!(app.rename_input, "a.mx");
    assert!(matches!(app.route_key(keys.enter, &keys), Command::ConfirmRename));
}

#[test]
fn browser_enter_descends_or_opens() {
    let (mut app, keys) = fresh();
    app.apply_listing(Some(vec![
        oxid::entry::RawListingEntry {
            name: String::from("sub"),
            is_directory: true,
            content: String::new(),
            truncated: false,
        },
        oxid::entry::RawListingEntry {
            name: String::from("a.md"),
            is_directory: false,
            content: String::new(),
            truncated: false,
        },
    ]));
    app.selected = 0;
    assert!(matches!(app.route_key(keys.enter, &keys), Command::Refresh));
    assert_eq!(app.current_dir(), "/ws/sub");

    let (mut app2, keys) = fresh();
    app2.apply_listing(Some(vec![oxid::entry::RawListingEntry {
        name: String::from("a.md"),
        is_directory: false,
        content: String::new(),
        truncated: false,
    }]));
    match app2.route_key(keys.enter, &keys) {
        Command::OpenPath(p) => assert_eq!(p, "/ws/a.md"),
        _ => panic!("expected an open command"),
    }
}

#[test]
fn preview_content_follows_focus() {
    let (mut app, _) = fresh();
    app.apply_listing(Some(vec![oxid::entry::RawListingEntry {
        name: String::from("a.md"),
        is_directory: false,
        content: String::from("cached body"),
        truncated: false,
    }]));
    assert_eq!(app.get_preview_content(), "cached body");
    app.load_file_into_editor(String::from("/ws/a.md"), "live body");
    assert_eq!(app.get_preview_content(), "live body");
}

#[test]
fn preview_placeholder_for_unreadable_entry() {
    let (mut app, _) = fresh();
    app.apply_listing(Some(vec![oxid::entry::RawListingEntry {
        name: String::from("broken.md"),
        is_directory: false,
        content: String::new(),
        truncated: false,
    }]));
    assert_eq!(
        app.get_preview_placeholder().as_deref(),
        Some("(Preview unavailable: file unreadable)")
    );
}

#[test]
fn export_target_requires_markdown_buffer() {
    let (mut app, _) = fresh();
    assert!(app.export_target().is_none());
    assert_eq!(app.message.as_deref(), Some("No Markdown file open"));
    app.load_file_into_editor(String::from("/ws/a.md"), "x");
    assert_eq!(app.export_target().as_deref(), Some("/ws/a.md"));
    assert_eq!(oxid::flows::pdf_output_path("/ws/a.md"), "/ws/a.pdf");
}

#[test]
fn task_board_flow() {
    let (mut app, keys) = fresh();
    let files = vec![oxid::scan::ScannedFile {
        path: String::from("/ws/todo.md"),
        content: String::from("x\n- [ ] milk"),
    }];
    app.enter_task_view(&files);
    assert!(matches!(app.focus, Focus::TaskView));
    assert_eq!(app.tasks.len(), 1);
    match app.route_key(keys.enter, &keys) {
        Command::OpenPathAtLine(p, line) => {
            assert_eq!(p, "/ws/todo.md");
            assert_eq!(line, 1);
        },
        _ => panic!("expected an open-at-line command"),
    }
    assert!(matches!(app.focus, Focus::List));
}

#[test]
fn tag_explorer_flow() {
    let (mut app, _) = fresh();
    let files = vec![
        oxid::scan::ScannedFile {
            path: String::from("/ws/p.md"),
            content: String::from("#work stuff"),
        },
        oxid::scan::ScannedFile {
            path: String::from("/ws/q.md"),
            content: String::from("#home stuff"),
        },
    ];
    app.enter_tag_explorer(&files);
    assert_eq!(app.all_tags, vec!["home", "work"]);
    app.tag_selected = 1;
    app.load_files_for_selected_tag(&files);
    assert_eq!(app.tag_files, vec!["/ws/p.md"]);
    let opened = app.open_selected_tag_file();
    assert_eq!(opened.as_deref(), Some("/ws/p.md"));
}

#[test]
fn backlinks_scan_excludes_self_and_sorts() {
    let (mut app, _) = fresh();
    app.load_file_into_editor(String::from("/ws/target.md"), "body");
    let files = vec![
        oxid::scan::ScannedFile {
            path: String::from("/ws/z.md"),
            content: String::from("see [[target]]"),
        },
        oxid::scan::ScannedFile {
            path: String::from("/ws/a.md"),
            content: String::from("[[target]] too"),
        },
        oxid::scan::ScannedFile {
            path: String::from("/ws/target.md"),
            content: String::from("[[target]] myself"),
        },
    ];
    app.scan_backlinks(&files);
    assert_eq!(app.backlinks, vec!["/ws/a.md", "/ws/z.md"]);
}
