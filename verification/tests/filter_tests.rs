use oxid::entry::NoteEntry;
use oxid::filter::content_has_tag;
use oxid::filter::filter_notes;
use oxid::filter::filter_telescope_notes;
use oxid::filter::get_match_indices;
use oxid::filter::get_telescope_match_indices;
use oxid::filter::sort_dedup_u32;
use oxid::config::Config;
use oxid::state::App;
use oxid::state::CommandAction;

fn note(name: &str, content: &str) -> NoteEntry {
    let searchable = format!("{}\n{}", name, content);
    NoteEntry::new(
        format!("/ws/{}", name),
        String::from(name),
        String::from(content),
        searchable,
    )
}

#[test]
fn empty_query_is_identity() {
    let notes = vec![note("b.md", ""), note("a.md", "")];
    let out = filter_notes(&notes, "");
    let names: Vec<&str> = out.iter().map(|e| e.display.as_str()).collect();
    assert_eq!(names, vec!["b.md", "a.md"]);
}

#[test]
fn fuzzy_filter_keeps_matches_only() {
    let notes = vec![note("project.md", "alpha"), note("other.md", "beta")];
    let out = filter_notes(&notes, "proj");
    assert_eq!(out.len(), 1);
    assert_eq!(out[0].display, "project.md");
}

#[test]
fn fuzzy_filter_ranks_better_matches_first() {
    let notes = vec![note("axxxb.md", ""), note("ab.md", "")];
    let out = filter_notes(&notes, "ab");
    assert_eq!(out.len(), 2);
    assert_eq!(out[0].display, "ab.md");
}

#[test]
fn fuzzy_filter_searches_content_too() {
    let notes = vec![note("a.md", "zebra crossing"), note("b.md", "nothing")];
    let out = filter_notes(&notes, "zebra");
    assert_eq!(out.len(), 1);
    assert_eq!(out[0].display, "a.md");
}

#[test]
fn match_indices_highlight_positions() {
    // would stay empty if the matcher's indices were passed back unused
    let idx = get_match_indices("abc", "b");
    assert_eq!(idx, vec![1]);
    assert!(get_match_indices("abc", "").is_empty());
    assert!(get_match_indices("", "b").is_empty());
}

#[test]
fn sort_dedup_orders_and_dedupes() {
    let out = sort_dedup_u32(&vec![5, 1, 5, 3, 1]);
    assert_eq!(out, vec![1, 3, 5]);
}

#[test]
fn tag_query_filters_by_body_tags_without_highlights() {
    // Fuzzy query `#work` where only proj.md carries the tag returns
    // exactly proj.md, and no highlight positions are computed.
    let notes = vec![
        note("proj.md", "notes with #work inside"),
        note("other.md", "no tags here"),
        note("last.md", "#play only"),
    ];
    let out = filter_telescope_notes(&notes, "#work");
    assert_eq!(out.len(), 1);
    assert_eq!(out[0].display, "proj.md");
    assert!(get_telescope_match_indices("proj.md", "#work").is_empty());
}

#[test]
fn tag_query_is_case_insensitive() {
    let notes = vec![note("proj.md", "#Work")];
    let out = filter_telescope_notes(&notes, "#work");
    assert_eq!(out.len(), 1);
    assert!(content_has_tag("body #Work", "work"));
    assert!(!content_has_tag("body work", "work"));
}

#[test]
fn bare_sigil_falls_back_to_everything() {
    let notes = vec![note("a.md", ""), note("b.md", "")];
    let out = filter_telescope_notes(&notes, "#  ");
    assert_eq!(out.len(), 2);
}

#[test]
fn telescope_trims_query() {
    let notes = vec![note("project.md", ""), note("other.md", "")];
    let out = filter_telescope_notes(&notes, "  proj  ");
    assert_eq!(out.len(), 1);
    assert_eq!(out[0].display, "project.md");
}

#[test]
fn palette_filter_is_case_insensitive() {
    let mut app = App::new(Config::default(), "/home/u");
    app.enter_command_palette();
    assert_eq!(app.command_palette_filtered.len(), 7);
    app.command_palette_add_char('G');
    app.command_palette_add_char('i');
    app.command_palette_add_char('T');
    assert_eq!(app.command_palette_filtered, vec![CommandAction::GitPush]);
    assert_eq!(app.get_command_palette_action(), Some(CommandAction::GitPush));
}
