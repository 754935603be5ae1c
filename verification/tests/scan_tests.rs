use oxid::scan::collect_tags;
use oxid::scan::find_paths_containing;
use oxid::scan::scan_all_tag_names;
use oxid::scan::scan_task_files;
use oxid::scan::scan_tasks_in_content;
use oxid::scan::ScannedFile;
use oxid::spellcheck::Spellchecker;
use oxid::spellcheck::dict_words;
use oxid::git::classify_git_status;
use oxid::git::GitStatus;

fn doc(path: &str, content: &str) -> ScannedFile {
    ScannedFile { path: String::from(path), content: String::from(content) }
}

#[test]
fn task_scan_reports_line_and_text() {
    // `- [ ] buy milk` at line index 3 appears as (todo.md, 3, "buy milk").
    let tasks = scan_tasks_in_content("todo.md", "# head\n\ntext\n- [ ] buy milk\ndone");
    assert_eq!(tasks.len(), 1);
    assert_eq!(tasks[0].path, "todo.md");
    assert_eq!(tasks[0].line_number, 3);
    assert_eq!(tasks[0].content, "buy milk");
}

#[test]
fn task_scan_ignores_checked_and_indented_counts() {
    let tasks = scan_tasks_in_content("t.md", "- [x] done\n  - [ ] nested\nplain");
    assert_eq!(tasks.len(), 1);
    assert_eq!(tasks[0].line_number, 1);
    assert_eq!(tasks[0].content, "nested");
}

#[test]
fn task_scan_walks_markdown_files_in_order() {
    let files = vec![
        doc("a.md", "- [ ] first"),
        doc("skip.txt", "- [ ] not markdown"),
        doc("b.md", "x\n- [ ] second"),
    ];
    let tasks = scan_task_files(&files);
    assert_eq!(tasks.len(), 2);
    assert_eq!(tasks[0].path, "a.md");
    assert_eq!(tasks[0].content, "first");
    assert_eq!(tasks[1].path, "b.md");
    assert_eq!(tasks[1].line_number, 1);
}

#[test]
fn tag_collection_is_sorted_and_unique() {
    let mut tags: Vec<String> = Vec::new();
    collect_tags("#work and #home and #work again, plus #a1_b", &mut tags);
    assert_eq!(tags, vec!["a1_b", "home", "work"]);
}

#[test]
fn tag_needs_word_character_after_sigil() {
    let mut tags: Vec<String> = Vec::new();
    collect_tags("# heading\n#! bang\n#real", &mut tags);
    assert_eq!(tags, vec!["real"]);
}

#[test]
fn tag_scan_over_files_unions_sorted() {
    let files = vec![doc("a.md", "#zeta #alpha"), doc("b.md", "#alpha #mid")];
    let tags = scan_all_tag_names(&files);
    assert_eq!(tags, vec!["alpha", "mid", "zeta"]);
}

#[test]
fn backlink_style_search_sorts_and_excludes_self() {
    let files = vec![
        doc("/ws/c.md", "see [[target]]"),
        doc("/ws/a.md", "also [[target]] here"),
        doc("/ws/target.md", "about [[target]] itself"),
        doc("/ws/b.md", "nothing"),
    ];
    let own = String::from("/ws/target.md");
    let hits = find_paths_containing(&files, "[[target]]", Some(&own));
    assert_eq!(hits, vec!["/ws/a.md", "/ws/c.md"]);
}

#[test]
fn tag_membership_search_keeps_markdown_only() {
    let files = vec![doc("/ws/p.md", "has #work"), doc("/ws/q.txt", "has #work")];
    let hits = find_paths_containing(&files, "#work", None);
    assert_eq!(hits, vec!["/ws/p.md"]);
}

#[test]
fn spellchecker_folds_case_through_dictionary() {
    let sp = Spellchecker::new(vec![String::from("Hello"), String::from("milk")]);
    assert!(sp.check("HELLO"));
    assert!(sp.check("Milk"));
    assert!(!sp.check("juice"));
    // empty or non-alphabetic words always pass
    assert!(sp.check(""));
    assert!(sp.check("x3"));
}

#[test]
fn dictionary_lines_are_cleaned() {
    let words = dict_words("apple/S\n x \nbanana\nno3way\n");
    assert_eq!(words, vec!["apple", "banana"]);
}

#[test]
fn git_status_classification() {
    assert_eq!(classify_git_status(false, Some((true, true))), GitStatus::Unknown);
    assert_eq!(classify_git_status(true, Some((true, true))), GitStatus::Clean);
    assert_eq!(classify_git_status(true, Some((true, false))), GitStatus::Dirty);
    assert_eq!(classify_git_status(true, Some((false, true))), GitStatus::Unknown);
    assert_eq!(classify_git_status(true, None), GitStatus::Unknown);
}
