use oxid::config::Config;
use oxid::state::App;
use oxid::wiki::find_wiki_link;

fn fresh() -> App {
    let mut config = Config::default();
    config.notes_directory = String::from("/ws");
    App::new(config, "/home/u")
}

#[test]
fn link_found_when_cursor_inside_delimiters() {
    assert_eq!(find_wiki_link("see [[y]] here", 5).as_deref(), Some("y"));
    assert_eq!(find_wiki_link("see [[y]] here", 4).as_deref(), Some("y"));
    assert_eq!(find_wiki_link("see [[y]] here", 9).as_deref(), Some("y"));
    assert_eq!(find_wiki_link("see [[y]] here", 10), None);
    assert_eq!(find_wiki_link("see [[y]] here", 0), None);
}

#[test]
fn second_link_on_line_is_reachable() {
    let line = "[[one]] and [[two]]";
    assert_eq!(find_wiki_link(line, 2).as_deref(), Some("one"));
    assert_eq!(find_wiki_link(line, 14).as_deref(), Some("two"));
}

#[test]
fn malformed_links_do_not_match() {
    assert_eq!(find_wiki_link("[[unclosed", 3), None);
    assert_eq!(find_wiki_link("[[]] empty", 1), None);
    assert_eq!(find_wiki_link("[single] brackets", 3), None);
}

#[test]
fn follow_link_saves_source_then_opens_target() {
    // Document x.md contains [[y]]; activating link-follow with the
    // cursor inside it saves x.md first and makes y.md active.
    let mut app = fresh();
    app.load_file_into_editor(String::from("/ws/x.md"), "see [[y]]");
    let idx = app.focused_buffer_index();
    app.buffers[idx].cursor_col = 6;

    let link = app.get_wiki_link_under_cursor().expect("cursor sits inside the link");
    assert_eq!(link, "y");

    // save before following, as the editor does
    let (writes, _) = app.save_editor();
    assert!(writes.iter().any(|w| w.path == "/ws/x.md" && w.content == "see [[y]]"));

    let (primary, fallback) = app.wiki_link_candidates(&link);
    assert_eq!(primary, "/ws/y.md");
    assert_eq!(fallback, "/ws/y.md");

    // y.md exists: its content opens and becomes the active buffer
    app.load_file_into_editor(primary, "target body");
    let active = app.focused_buffer_index();
    assert_eq!(app.buffers[active].path.as_deref(), Some("/ws/y.md"));
    assert_eq!(app.buffers[active].lines, vec![String::from("target body")]);
}

#[test]
fn wiki_candidates_prefer_document_directory() {
    let mut app = fresh();
    app.load_file_into_editor(String::from("/ws/sub/x.md"), "[[y]]");
    let (primary, fallback) = app.wiki_link_candidates("y");
    assert_eq!(primary, "/ws/sub/y.md");
    assert_eq!(fallback, "/ws/y.md");
}
