use oxid::config::Config;
use oxid::state::App;
use oxid::state::EditorLayout;
use oxid::state::Focus;

fn fresh() -> App {
    let mut config = Config::default();
    config.notes_directory = String::from("/ws");
    App::new(config, "/home/user")
}

#[test]
fn new_app_has_one_scratch_buffer() {
    let app = fresh();
    assert_eq!(app.buffers.len(), 1);
    assert!(app.buffers[0].path.is_none());
    assert_eq!(app.active_tab, 0);
    assert_eq!(app.notes_dir, "/ws");
}

#[test]
fn open_appends_and_focuses_editor() {
    let mut app = fresh();
    app.load_file_into_editor(String::from("/ws/a.md"), "alpha\nbeta");
    assert_eq!(app.buffers.len(), 2);
    assert_eq!(app.active_tab, 1);
    assert!(matches!(app.focus, Focus::Editor));
    assert_eq!(app.buffers[1].lines, vec![String::from("alpha"), String::from("beta")]);
}

#[test]
fn open_same_path_never_duplicates() {
    // Opening a path already backed by a buffer keeps the tab count and
    // the prior buffer's content.
    let mut app = fresh();
    app.load_file_into_editor(String::from("/ws/a.md"), "alpha");
    app.load_file_into_editor(String::from("/ws/b.md"), "beta");
    assert_eq!(app.buffers.len(), 3);
    app.load_file_into_editor(String::from("/ws/a.md"), "changed on disk");
    assert_eq!(app.buffers.len(), 3);
    assert_eq!(app.active_tab, 1);
    assert_eq!(app.buffers[1].lines, vec![String::from("alpha")]);
}

#[test]
fn open_at_line_clamps_to_buffer() {
    let mut app = fresh();
    app.load_file_into_editor_at_line(String::from("/ws/a.md"), "one\ntwo\nthree", Some(99));
    let idx = app.focused_buffer_index();
    assert_eq!(app.buffers[idx].cursor_row, 2);
    assert_eq!(app.buffers[idx].cursor_col, 0);
}

#[test]
fn close_tab_on_single_buffer_is_noop() {
    // The one-buffer floor: closing never empties the session.
    let mut app = fresh();
    let before_len = app.buffers.len();
    app.close_tab();
    assert_eq!(app.buffers.len(), before_len);
    assert_eq!(app.active_tab, 0);
}

#[test]
fn close_tab_reclamps_active_index() {
    let mut app = fresh();
    app.load_file_into_editor(String::from("/ws/a.md"), "a");
    app.load_file_into_editor(String::from("/ws/b.md"), "b");
    assert_eq!(app.active_tab, 2);
    app.close_tab();
    assert_eq!(app.buffers.len(), 2);
    assert!(app.active_tab < app.buffers.len());
}

#[test]
fn toggle_split_needs_two_buffers() {
    let mut app = fresh();
    app.toggle_split_view();
    assert!(matches!(app.editor_layout, EditorLayout::Single));
    assert!(app.split_right_tab.is_none());
    app.load_file_into_editor(String::from("/ws/a.md"), "a");
    app.toggle_split_view();
    assert!(matches!(app.editor_layout, EditorLayout::SplitVertical));
    assert_eq!(app.split_right_tab, Some(0));
    app.toggle_split_view();
    assert!(matches!(app.editor_layout, EditorLayout::Single));
    assert!(app.split_right_tab.is_none());
}

#[test]
fn closing_split_tab_collapses_layout() {
    let mut app = fresh();
    app.load_file_into_editor(String::from("/ws/a.md"), "a");
    app.toggle_split_view();
    // split right pane shows tab 0; close the focused (active) tab 1
    app.close_tab();
    assert_eq!(app.buffers.len(), 1);
    assert!(app.split_right_tab.is_none() || app.split_right_tab.unwrap() < app.buffers.len());
}

#[test]
fn tab_cycling_wraps() {
    let mut app = fresh();
    app.load_file_into_editor(String::from("/ws/a.md"), "a");
    app.load_file_into_editor(String::from("/ws/b.md"), "b");
    assert_eq!(app.active_tab, 2);
    app.next_tab();
    assert_eq!(app.active_tab, 0);
    app.prev_tab();
    assert_eq!(app.active_tab, 2);
}

#[test]
fn auto_save_respects_debounce() {
    // No save fires while the keyboard has been quiet for less than the
    // configured interval.
    let mut app = fresh();
    assert_eq!(app.config.editor.auto_save_interval, 30);
    app.mark_editor_dirty(10_000);
    assert!(!app.check_auto_save(10_000 + 29_999));
    assert!(app.editor_dirty);
    assert!(app.check_auto_save(10_000 + 30_000));
    assert!(!app.editor_dirty);
    assert_eq!(app.save_indicator_until, Some(10_000 + 30_000 + 2_000));
}

#[test]
fn auto_save_fires_once_per_window() {
    let mut app = fresh();
    app.mark_editor_dirty(0);
    assert!(app.check_auto_save(40_000));
    // dirty has cleared: no second fire without a new keystroke
    assert!(!app.check_auto_save(80_000));
    app.mark_editor_dirty(80_000);
    assert!(app.check_auto_save(120_000));
}

#[test]
fn auto_save_needs_dirty_flag() {
    let mut app = fresh();
    assert!(!app.check_auto_save(1_000_000));
}

#[test]
fn save_all_collects_backed_buffers() {
    let mut app = fresh();
    app.load_file_into_editor(String::from("/ws/a.md"), "alpha\nbeta");
    let (writes, reload) = app.save_all_buffers();
    assert_eq!(writes.len(), 1);
    assert_eq!(writes[0].path, "/ws/a.md");
    assert_eq!(writes[0].content, "alpha\nbeta");
    assert!(!reload);
}

#[test]
fn saving_config_file_requests_reload() {
    let mut app = fresh();
    app.load_file_into_editor(String::from("/home/user/.config/oxid/config.toml"), "x = 1");
    let (_, reload) = app.save_all_buffers();
    assert!(reload);
}

#[test]
fn tick_save_indicator_expires() {
    let mut app = fresh();
    app.save_indicator_until = Some(5_000);
    app.tick_save_indicator(4_999);
    assert_eq!(app.save_indicator_until, Some(5_000));
    app.tick_save_indicator(5_000);
    assert!(app.save_indicator_until.is_none());
}

#[test]
fn delete_removes_buffers_and_keeps_floor() {
    let mut app = fresh();
    app.load_file_into_editor(String::from("/ws/a.md"), "a");
    app.remove_buffers_with_path("/ws/a.md");
    // scratch buffer survived
    assert_eq!(app.buffers.len(), 1);
    assert!(app.buffers[0].path.is_none());
}

#[test]
fn insert_date_at_cursor_splices_text() {
    let mut app = fresh();
    app.load_file_into_editor(String::from("/ws/a.md"), "ab");
    let idx = app.focused_buffer_index();
    app.buffers[idx].cursor_col = 1;
    app.insert_date_at_cursor("2024-01-05");
    assert_eq!(app.buffers[idx].lines[0], "a2024-01-05b");
    assert_eq!(app.buffers[idx].cursor_col, 11);
}
