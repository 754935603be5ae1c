use oxid::keys::key_display_string;
use oxid::keys::key_matches;
use oxid::keys::parse_key_event;
use oxid::keys::KeyCode;
use oxid::keys::KeyInput;
use oxid::keys::ResolvedKeys;
use oxid::paths::ensure_md_suffix;
use oxid::paths::file_name_of;
use oxid::paths::file_stem_of;
use oxid::paths::parent_of;
use oxid::paths::path_join;
use oxid::templates::Template;
use oxid::text::join_lines;
use oxid::text::split_lines;
use oxid::text::trim;
use oxid::config::generate_default_config;
use oxid::config::Config;
use oxid::theme::generate_default_theme;
use oxid::theme::Theme;

#[test]
fn split_lines_matches_line_semantics() {
    let lines = split_lines("a\nb\r\nc");
    assert_eq!(lines, vec!["a", "b", "c"]);
    assert_eq!(split_lines(""), Vec::<String>::new());
    assert_eq!(split_lines("x\n"), vec!["x"]);
    assert_eq!(split_lines("\n"), vec![""]);
}

#[test]
fn join_lines_round_trip() {
    let lines = vec![String::from("a"), String::from(""), String::from("c")];
    let joined = join_lines(&lines);
    assert_eq!(joined, "a\n\nc");
    assert_eq!(split_lines(&joined), lines);
}

#[test]
fn trim_strips_both_ends() {
    assert_eq!(trim("  hello\t\n"), "hello");
    assert_eq!(trim(""), "");
    assert_eq!(trim("   "), "");
}

#[test]
fn path_helpers() {
    assert_eq!(file_name_of("/a/b/c.md"), "c.md");
    assert_eq!(file_name_of("plain.md"), "plain.md");
    assert_eq!(parent_of("/a/b/c.md"), "/a/b");
    assert_eq!(parent_of("plain"), "");
    assert_eq!(path_join("/a", "b.md"), "/a/b.md");
    assert_eq!(file_stem_of("note.md"), "note");
    assert_eq!(file_stem_of("a.b.md"), "a.b");
    assert_eq!(file_stem_of(".hidden"), ".hidden");
    assert_eq!(ensure_md_suffix("x"), "x.md");
    assert_eq!(ensure_md_suffix("x.md"), "x.md");
}

#[test]
fn parse_key_event_reads_modifiers() {
    assert_eq!(
        parse_key_event("ctrl-q"),
        Some(KeyInput { code: KeyCode::Char('q'), ctrl: true, alt: false, shift: false })
    );
    assert_eq!(
        parse_key_event("  Alt-D "),
        Some(KeyInput { code: KeyCode::Char('d'), ctrl: false, alt: true, shift: false })
    );
    assert_eq!(
        parse_key_event("enter"),
        Some(KeyInput { code: KeyCode::Enter, ctrl: false, alt: false, shift: false })
    );
    assert_eq!(
        parse_key_event("f11"),
        Some(KeyInput { code: KeyCode::F(11), ctrl: false, alt: false, shift: false })
    );
    assert_eq!(
        parse_key_event("ctrl-shift-x"),
        Some(KeyInput { code: KeyCode::Char('x'), ctrl: true, alt: false, shift: true })
    );
    assert_eq!(parse_key_event(""), None);
    assert_eq!(parse_key_event("nonsense"), None);
}

#[test]
fn key_display_renders_bindings() {
    assert_eq!(key_display_string("ctrl-q"), "Ctrl+Q");
    assert_eq!(key_display_string("enter"), "Enter");
    assert_eq!(key_display_string("f11"), "F11");
    assert_eq!(key_display_string("up"), "\u{2191}");
    assert_eq!(key_display_string(""), "");
    assert_eq!(key_display_string("shift-n"), "Shift+N");
}

#[test]
fn key_matching_compares_code_and_modifiers() {
    let q = KeyInput { code: KeyCode::Char('q'), ctrl: false, alt: false, shift: false };
    let ctrl_q = KeyInput { code: KeyCode::Char('q'), ctrl: true, alt: false, shift: false };
    assert!(key_matches(q, &vec![ctrl_q, q]));
    assert!(!key_matches(q, &vec![ctrl_q]));
}

#[test]
fn resolved_keys_parse_defaults() {
    let keys = ResolvedKeys::from_config(&oxid::config::KeysConfig::default());
    assert_eq!(keys.quit, KeyInput { code: KeyCode::Char('q'), ctrl: false, alt: false, shift: false });
    assert_eq!(
        keys.command_palette,
        KeyInput { code: KeyCode::Char('p'), ctrl: true, alt: false, shift: false }
    );
    assert_eq!(keys.zen_mode, KeyInput { code: KeyCode::F(11), ctrl: false, alt: false, shift: false });
}

#[test]
fn action_key_display_lookup() {
    let app = oxid::state::App::new(Config::default(), "/home/u");
    assert_eq!(app.get_key_display_string("quit"), "Q");
    assert_eq!(app.get_key_display_string("command_palette"), "Ctrl+P");
    assert_eq!(app.get_key_display_string("zen_mode"), "F11");
    assert_eq!(app.get_key_display_string("unknown_action"), "");
}

#[test]
fn templates_render() {
    assert_eq!(Template::Empty.content("2024-01-05"), "");
    assert_eq!(Template::DailyNote.content("2024-01-05"), "# 2024-01-05\n\n");
    assert_eq!(Template::DailyNote.name(), "Daily Note");
    assert_eq!(Template::all().len(), 3);
}

#[test]
fn generated_config_text_carries_settings() {
    let c = Config::default();
    let text = generate_default_config(&c);
    assert!(text.contains("notes_directory = \"~/Documents/Notes\""));
    assert!(text.contains("daily_notes_folder = \"journal\""));
    assert!(text.contains("quit = \"q\""));
    assert!(text.contains("icons = false"));
}

#[test]
fn generated_theme_text_carries_colors() {
    let t = Theme::default();
    let text = generate_default_theme(&t);
    assert!(text.contains("app_background = \"black\""));
    assert!(text.contains("editor_checkbox_checked = \"green\""));
}
