//! Content scanners: unchecked task lines, `#tag` tokens, and
//! substring-based document filters (backlinks, tag membership).
//!
//! Every scan is a pure function over document bodies that the caller
//! has already read; nothing here touches the file system.

use vstd::prelude::*;
use vstd::string::StrSliceExecFns;
use vstd::string::StringExecFns;

use crate::text::ends_with_seq;
use crate::text::is_word_char;
use crate::text::char_is_word;
use crate::text::contains_seq;
use crate::text::insert_sorted;
use crate::text::matches_at;
use crate::text::sorted_strs;
use crate::text::split_lines;
use crate::text::split_lines_seq;
use crate::text::starts_with_seq;
use crate::text::str_contains;
use crate::text::str_starts_with;
use crate::text::trim;
use crate::text::trim_seq;
use crate::text::trim_start;
use crate::text::trim_start_seq;
use crate::text::views_of;
use crate::paths::md_ext;
use crate::paths::is_md_name;

verus! {

/// One document handed to a scanner: its path and its body.
pub struct ScannedFile {
    pub path: String,
    pub content: String,
}

/// The (path, body) views of a slice of scanned files.
pub open spec fn file_views(files: Seq<ScannedFile>) -> Seq<(Seq<char>, Seq<char>)> {
    files.map_values(|f: ScannedFile| (f.path@, f.content@))
}

/// An unchecked task found in a document: the document's path, the
/// zero-based line index, and the task text with marker and padding
/// stripped.
pub struct TaskEntry {
    pub path: String,
    pub line_number: usize,
    pub content: String,
}

/// The abstract content of a vector of task entries.
pub open spec fn task_views(v: Seq<TaskEntry>) -> Seq<(Seq<char>, int, Seq<char>)> {
    v.map_values(|t: TaskEntry| (t.path@, t.line_number as int, t.content@))
}

/// The marker that opens an unchecked task line.
pub open spec fn task_marker() -> Seq<char> {
    seq!['-', ' ', '[', ' ', ']']
}

/// `s` with every leading repetition of `p` removed.
pub open spec fn strip_prefix_all(s: Seq<char>, p: Seq<char>) -> Seq<char>
    decreases s.len(),
{
    if p.len() > 0 && starts_with_seq(s, p) && s.len() >= p.len() {
        strip_prefix_all(s.skip(p.len() as int), p)
    } else {
        s
    }
}

/// A line that opens with the unchecked-task marker, ignoring indentation.
pub open spec fn is_task_line(l: Seq<char>) -> bool {
    starts_with_seq(trim_start_seq(l), task_marker())
}

/// The text of a task line: indentation, markers and padding stripped.
pub open spec fn task_text(l: Seq<char>) -> Seq<char> {
    trim_seq(strip_prefix_all(trim_start_seq(l), task_marker()))
}

/// The tasks of one document, in line order.
pub open spec fn tasks_of_lines(path: Seq<char>, lines: Seq<Seq<char>>) -> Seq<
    (Seq<char>, int, Seq<char>),
>
    decreases lines.len(),
{
    if lines.len() == 0 {
        Seq::empty()
    } else {
        tasks_of_lines(path, lines.drop_last()) + if is_task_line(lines.last()) {
            seq![(path, lines.len() - 1, task_text(lines.last()))]
        } else {
            Seq::empty()
        }
    }
}

/// The tasks of a list of documents, in document order; only markdown
/// documents are scanned.
pub open spec fn tasks_of_files(files: Seq<(Seq<char>, Seq<char>)>) -> Seq<
    (Seq<char>, int, Seq<char>),
>
    decreases files.len(),
{
    if files.len() == 0 {
        Seq::empty()
    } else {
        tasks_of_files(files.drop_last()) + if ends_with_seq(files.last().0, md_ext()) {
            tasks_of_lines(files.last().0, split_lines_seq(files.last().1))
        } else {
            Seq::empty()
        }
    }
}

/// `s` with every leading repetition of `p` removed (executable form).
pub fn strip_prefix_repeated(s: &str, p: &str) -> (r: String)
    requires
        p@.len() > 0,
    ensures
        r@ == strip_prefix_all(s@, p@),
{
    let s_len = s.unicode_len();
    let p_len = p.unicode_len();
    let mut pos: usize = 0;
    proof {
        assert(s@.skip(0) =~= s@);
    }
    loop
        invariant
            pos <= s_len,
            s_len == s@.len(),
            p_len == p@.len(),
            p@.len() > 0,
            strip_prefix_all(s@, p@) == strip_prefix_all(s@.skip(pos as int), p@),
        ensures
            pos <= s_len,
            strip_prefix_all(s@, p@) == s@.skip(pos as int),
        decreases s_len - pos,
    {
        let ghost tail = s@.skip(pos as int);
        if p_len > s_len - pos {
            proof {
                assert(!starts_with_seq(tail, p@));
            }
            break;
        }
        if !crate::text::str_matches_at(s, p, pos) {
            proof {
                if starts_with_seq(tail, p@) {
                    assert(tail.subrange(0, p@.len() as int) =~= s@.subrange(
                        pos as int,
                        pos + p@.len(),
                    ));
                    assert(matches_at(s@, p@, pos as int));
                }
            }
            break;
        }
        proof {
            assert(tail.subrange(0, p@.len() as int) =~= s@.subrange(pos as int, pos + p@.len()));
            assert(starts_with_seq(tail, p@));
            assert(tail.skip(p@.len() as int) =~= s@.skip(pos + p@.len()));
        }
        pos = pos + p_len;
    }
    String::from_str(s.substring_char(pos, s_len))
}

/// Scan one document body for unchecked task lines.
pub fn scan_tasks_in_content(path: &str, content: &str) -> (r: Vec<TaskEntry>)
    ensures
        task_views(r@) == tasks_of_lines(path@, split_lines_seq(content@)),
{
    let lines = split_lines(content);
    let n = lines.len();
    let mut out: Vec<TaskEntry> = Vec::new();
    proof {
        assert(views_of(lines@).take(0) =~= Seq::<Seq<char>>::empty());
        assert(task_views(out@) =~= tasks_of_lines(path@, views_of(lines@).take(0)));
    }
    let mut i: usize = 0;
    while i < n
        invariant
            i <= n,
            n == lines@.len(),
            views_of(lines@) == split_lines_seq(content@),
            task_views(out@) =~= tasks_of_lines(path@, views_of(lines@).take(i as int)),
        decreases n - i,
    {
        let ghost pre = out@;
        let line = &lines[i];
        let stripped = trim_start(line.as_str());
        proof {
            reveal_strlit("- [ ]");
            assert("- [ ]"@ =~= task_marker());
        }
        if str_starts_with(stripped.as_str(), "- [ ]") {
            let body = strip_prefix_repeated(stripped.as_str(), "- [ ]");
            let text = trim(body.as_str());
            out.push(
                TaskEntry { path: String::from_str(path), line_number: i, content: text },
            );
            proof {
                assert(task_views(out@) =~= task_views(pre) + seq![
                    (path@, i as int, task_text(lines@[i as int]@)),
                ]);
            }
        }
        proof {
            let vs = views_of(lines@);
            assert(vs.take(i + 1).drop_last() =~= vs.take(i as int));
            assert(vs.take(i + 1).last() == vs[i as int]);
        }
        i = i + 1;
    }
    proof {
        assert(views_of(lines@).take(n as int) =~= views_of(lines@));
    }
    out
}

/// Scan a set of documents for unchecked task lines, in document order.
pub fn scan_task_files(files: &Vec<ScannedFile>) -> (r: Vec<TaskEntry>)
    ensures
        task_views(r@) == tasks_of_files(file_views(files@)),
{
    let n = files.len();
    let mut out: Vec<TaskEntry> = Vec::new();
    proof {
        assert(file_views(files@).take(0) =~= Seq::<(Seq<char>, Seq<char>)>::empty());
        assert(task_views(out@) =~= tasks_of_files(file_views(files@).take(0)));
    }
    let mut i: usize = 0;
    while i < n
        invariant
            i <= n,
            n == files@.len(),
            task_views(out@) =~= tasks_of_files(file_views(files@).take(i as int)),
        decreases n - i,
    {
        let ghost pre = out@;
        let f = &files[i];
        if is_md_name(f.path.as_str()) {
            let mut found = scan_tasks_in_content(f.path.as_str(), f.content.as_str());
            let ghost found_snap = found@;
            let m = found.len();
            let mut j: usize = 0;
            while j < m
                invariant
                    j <= m,
                    m == found_snap.len(),
                    found@ == found_snap,
                    task_views(out@) =~= task_views(pre) + task_views(found_snap.take(j as int)),
                decreases m - j,
            {
                let t = &found[j];
                let e = TaskEntry {
                    path: String::from_str(t.path.as_str()),
                    line_number: t.line_number,
                    content: String::from_str(t.content.as_str()),
                };
                let ghost ev = (e.path@, e.line_number as int, e.content@);
                let ghost before = out@;
                out.push(e);
                proof {
                    assert(ev == task_views(found_snap)[j as int]);
                    assert(task_views(out@) =~= task_views(before) + seq![ev]);
                    assert(task_views(found_snap.take(j + 1)) =~= task_views(
                        found_snap.take(j as int),
                    ) + seq![ev]);
                    assert(task_views(out@) =~= task_views(pre) + task_views(
                        found_snap.take(j + 1),
                    ));
                }
                j = j + 1;
            }
            proof {
                assert(found_snap.take(m as int) =~= found_snap);
            }
        }
        proof {
            let fv = file_views(files@);
            assert(fv.take(i + 1).drop_last() =~= fv.take(i as int));
            assert(fv.take(i + 1).last() == fv[i as int]);
        }
        i = i + 1;
    }
    proof {
        assert(file_views(files@).take(n as int) =~= file_views(files@));
    }
    out
}

/// Length of the run of word characters starting at `i`.
pub open spec fn word_run_len(s: Seq<char>, i: int) -> int
    decreases s.len() - i,
{
    if 0 <= i < s.len() && is_word_char(s[i]) {
        1 + word_run_len(s, i + 1)
    } else {
        0
    }
}

proof fn lemma_word_run_len_bounds(s: Seq<char>, i: int)
    requires
        0 <= i <= s.len(),
    ensures
        0 <= word_run_len(s, i) <= s.len() - i,
        forall|j: int| i <= j < i + word_run_len(s, i) ==> is_word_char(s[j]),
        i + word_run_len(s, i) < s.len() ==> !is_word_char(s[i + word_run_len(s, i)]),
    decreases s.len() - i,
{
    if 0 <= i < s.len() && is_word_char(s[i]) {
        lemma_word_run_len_bounds(s, i + 1);
    }
}

/// The `#tag` tokens of `s` at or after position `i`, in order of
/// appearance: a `#` followed by a non-empty run of word characters.
pub open spec fn tags_from(s: Seq<char>, i: int) -> Seq<Seq<char>>
    decreases s.len() - i,
    via tags_from_dec
{
    if i < 0 || i >= s.len() {
        Seq::empty()
    } else if s[i] == '#' && i + 1 < s.len() && is_word_char(s[i + 1]) {
        let l = word_run_len(s, i + 1);
        seq![s.subrange(i + 1, i + 1 + l)] + tags_from(s, i + 1 + l)
    } else {
        tags_from(s, i + 1)
    }
}

#[via_fn]
proof fn tags_from_dec(s: Seq<char>, i: int) {
    if 0 <= i < s.len() && s[i] == '#' && i + 1 < s.len() && is_word_char(s[i + 1]) {
        lemma_word_run_len_bounds(s, i + 1);
    }
}

/// All `#tag` tokens of `s`.
pub open spec fn tags_of(s: Seq<char>) -> Seq<Seq<char>> {
    tags_from(s, 0)
}

/// Collect the `#tag` tokens of `content` into `out`, which stays
/// sorted and duplicate-free.
pub fn collect_tags(content: &str, out: &mut Vec<String>)
    requires
        sorted_strs(old(out)@),
        crate::text::unique_strs(old(out)@),
    ensures
        sorted_strs(final(out)@),
        crate::text::unique_strs(final(out)@),
        forall|x: Seq<char>|
            #[trigger] crate::text::seq_contains_view(final(out)@, x)
                <==> crate::text::seq_contains_view(old(out)@, x) || tags_of(content@).contains(x),
{
    let s_len = content.unicode_len();
    let mut i: usize = 0;
    let ghost found: Seq<Seq<char>> = Seq::empty();
    proof {
        assert(content@.skip(0) =~= content@);
        assert(tags_of(content@) =~= found + tags_from(content@, 0));
    }
    while i < s_len
        invariant
            i <= s_len,
            s_len == content@.len(),
            sorted_strs(out@),
            crate::text::unique_strs(out@),
            tags_of(content@) =~= found + tags_from(content@, i as int),
            forall|x: Seq<char>|
                #[trigger] crate::text::seq_contains_view(out@, x)
                    <==> crate::text::seq_contains_view(old(out)@, x) || found.contains(x),
        decreases s_len - i,
    {
        let c = content.get_char(i);
        if c == '#' && i + 1 < s_len && char_is_word(content.get_char(i + 1)) {
            let mut j: usize = i + 1;
            while j < s_len
                invariant
                    i + 1 <= j <= s_len,
                    s_len == content@.len(),
                    forall|k: int| i + 1 <= k < j ==> is_word_char(content@[k]),
                ensures
                    i + 1 <= j <= s_len,
                    forall|k: int| i + 1 <= k < j ==> is_word_char(content@[k]),
                    j < s_len ==> !is_word_char(content@[j as int]),
                decreases s_len - j,
            {
                if !char_is_word(content.get_char(j)) {
                    break;
                }
                j = j + 1;
            }
            let tag = String::from_str(content.substring_char(i + 1, j));
            proof {
                lemma_word_run_len_bounds(content@, i + 1);
                let l = word_run_len(content@, i + 1);
                assert forall|k: int| i + 1 <= k < j implies is_word_char(content@[k]) by {}
                if l < j - i - 1 {
                    assert(!is_word_char(content@[i + 1 + l]));
                    assert(false);
                }
                if l > j - i - 1 {
                    assert(is_word_char(content@[j as int]));
                    assert(false);
                }
                assert(tag@ == content@.subrange(i + 1, i + 1 + l));
                assert(tags_from(content@, i as int) =~= seq![tag@] + tags_from(
                    content@,
                    i + 1 + l,
                ));
            }
            let ghost tagv = tag@;
            crate::text::insert_sorted_unique(out, tag);
            proof {
                let found_old = found;
                found = found + seq![tagv];
                assert(tags_of(content@) =~= found + tags_from(content@, j as int));
                assert forall|x: Seq<char>|
                    #[trigger] crate::text::seq_contains_view(out@, x)
                        <==> crate::text::seq_contains_view(old(out)@, x) || found.contains(
                        x,
                    ) by {
                    if crate::text::seq_contains_view(out@, x) {
                        if x == tagv {
                            assert(found[found.len() - 1] == x);
                        } else if found_old.contains(x) {
                            let m = choose|m: int|
                                0 <= m < found_old.len() && found_old[m] == x;
                            assert(found[m] == x);
                        }
                    }
                    if found.contains(x) {
                        let m = choose|m: int| 0 <= m < found.len() && found[m] == x;
                        if m < found_old.len() {
                            assert(found_old[m] == x);
                        } else {
                            assert(x == tagv);
                        }
                    }
                }
            }
            i = j;
        } else {
            proof {
                assert(tags_from(content@, i as int) =~= tags_from(content@, i + 1));
            }
            i = i + 1;
        }
    }
    proof {
        assert(tags_from(content@, s_len as int) =~= Seq::<Seq<char>>::empty());
        assert(tags_of(content@) =~= found);
        assert forall|x: Seq<char>| tags_of(content@).contains(x) implies found.contains(x) by {}
    }
}

/// Collect the sorted set of tags over all markdown documents.
pub fn scan_all_tag_names(files: &Vec<ScannedFile>) -> (r: Vec<String>)
    ensures
        sorted_strs(r@),
        crate::text::unique_strs(r@),
        forall|x: Seq<char>|
            #[trigger] crate::text::seq_contains_view(r@, x) <==> exists|k: int|
                0 <= k < files@.len() && ends_with_seq(files@[k].path@, md_ext()) && tags_of(
                    files@[k].content@,
                ).contains(x),
{
    let n = files.len();
    let mut out: Vec<String> = Vec::new();
    let mut i: usize = 0;
    while i < n
        invariant
            i <= n,
            n == files@.len(),
            sorted_strs(out@),
            crate::text::unique_strs(out@),
            forall|x: Seq<char>|
                #[trigger] crate::text::seq_contains_view(out@, x) <==> exists|k: int|
                    0 <= k < i && ends_with_seq(files@[k].path@, md_ext()) && tags_of(
                        files@[k].content@,
                    ).contains(x),
        decreases n - i,
    {
        let f = &files[i];
        if is_md_name(f.path.as_str()) {
            let ghost pre = out@;
            collect_tags(f.content.as_str(), &mut out);
            proof {
                assert forall|x: Seq<char>|
                    #[trigger] crate::text::seq_contains_view(out@, x) <==> exists|k: int|
                        0 <= k < i + 1 && ends_with_seq(files@[k].path@, md_ext()) && tags_of(
                            files@[k].content@,
                        ).contains(x) by {
                    if crate::text::seq_contains_view(out@, x) {
                        if tags_of(files@[i as int].content@).contains(x) {
                            assert(0 <= i < i + 1 && ends_with_seq(files@[i as int].path@, md_ext())
                                && tags_of(files@[i as int].content@).contains(x));
                        }
                    }
                }
            }
        }
        i = i + 1;
    }
    out
}

/// The paths among `files` that are markdown documents, contain
/// `pattern` in their body, and are not `excluded`, in input order.
pub open spec fn paths_containing(
    files: Seq<(Seq<char>, Seq<char>)>,
    pattern: Seq<char>,
    excluded: Option<Seq<char>>,
) -> Seq<Seq<char>>
    decreases files.len(),
{
    if files.len() == 0 {
        Seq::empty()
    } else {
        paths_containing(files.drop_last(), pattern, excluded) + if ends_with_seq(
            files.last().0,
            md_ext(),
        ) && contains_seq(files.last().1, pattern) && (match excluded {
            Some(e) => files.last().0 != e,
            None => true,
        }) {
            seq![files.last().0]
        } else {
            Seq::empty()
        }
    }
}

/// The paths of the markdown documents whose body contains `pattern`,
/// sorted; a path equal to `excluded` is left out.
pub fn find_paths_containing(
    files: &Vec<ScannedFile>,
    pattern: &str,
    excluded: Option<&String>,
) -> (r: Vec<String>)
    ensures
        sorted_strs(r@),
        views_of(r@).to_multiset() == paths_containing(
            file_views(files@),
            pattern@,
            match excluded {
                Some(e) => Some(e@),
                None => None,
            },
        ).to_multiset(),
{
    broadcast use vstd::seq_lib::group_to_multiset_ensures;

    let ghost ex: Option<Seq<char>> = match excluded {
        Some(e) => Some(e@),
        None => None,
    };
    let n = files.len();
    let mut out: Vec<String> = Vec::new();
    proof {
        assert(file_views(files@).take(0) =~= Seq::<(Seq<char>, Seq<char>)>::empty());
        assert(views_of(out@).to_multiset() =~= paths_containing(
            file_views(files@).take(0),
            pattern@,
            ex,
        ).to_multiset());
    }
    let mut i: usize = 0;
    while i < n
        invariant
            i <= n,
            n == files@.len(),
            sorted_strs(out@),
            ex == (match excluded {
                Some(e) => Some(e@),
                None => None,
            }),
            views_of(out@).to_multiset() == paths_containing(
                file_views(files@).take(i as int),
                pattern@,
                ex,
            ).to_multiset(),
        decreases n - i,
    {
        broadcast use vstd::seq_lib::group_to_multiset_ensures;

        let f = &files[i];
        let skip_this = match excluded {
            Some(e) => f.path.eq(e),
            None => false,
        };
        let ghost pre = out@;
        let included = !skip_this && is_md_name(f.path.as_str()) && str_contains(
            f.content.as_str(),
            pattern,
        );
        if included {
            let p = String::from_str(f.path.as_str());
            let ghost pstr: String = p;
            insert_sorted(&mut out, p);
            proof {
                let k = choose|k: int| 0 <= k <= pre.len() && out@ == pre.insert(k, pstr);
                assert(views_of(out@) =~= views_of(pre).insert(k, f.path@));
                assert(views_of(pre).insert(k, f.path@).to_multiset() =~= views_of(
                    pre,
                ).to_multiset().insert(f.path@));
            }
        }
        proof {
            let fv = file_views(files@);
            assert(fv.take(i + 1).drop_last() =~~= fv.take(i as int));
            assert(fv.take(i + 1).last() == fv[i as int]);
            assert(fv[i as int] == (f.path@, f.content@));
            let tail = paths_containing(fv.take(i + 1), pattern@, ex);
            let head = paths_containing(fv.take(i as int), pattern@, ex);
            if included {
                assert(tail =~= head + seq![f.path@]);
                assert((head + seq![f.path@]).to_multiset() =~= head.to_multiset().insert(
                    f.path@,
                )) by {
                    assert(head + seq![f.path@] =~= head.push(f.path@));
                }
            } else {
                assert(tail =~= head);
            }
        }
        i = i + 1;
    }
    proof {
        assert(file_views(files@).take(n as int) =~= file_views(files@));
    }
    out
}

} // verus!
