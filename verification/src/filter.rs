//! The fuzzy-filter adapter: ranking and highlight positions come from
//! an outside matcher, consumed as a black box; the selection, ordering
//! and the tag-query mode around it are verified.

use vstd::prelude::*;
use vstd::string::StrSliceExecFns;
use vstd::string::StringExecFns;

use crate::entry::NoteEntry;
use crate::entry::entry_view;
use crate::entry::entry_views;
use crate::entry::duplicate_entries;
use crate::scan::tags_of;
use crate::text::lower_of;
use crate::text::lowercase;
use crate::text::trim;
use crate::text::trim_seq;

verus! {

/// What the outside matcher scores a haystack against a query: a pure
/// function of the two strings (the matcher is always built with the
/// same configuration), left unspecified here.
pub uninterp spec fn score_of(haystack: Seq<char>, query: Seq<char>) -> Option<u32>;

/// Relies on nucleo_matcher's `Pattern::parse` and `Pattern::score`
/// with a fixed configuration: the score depends on the haystack and
/// query alone.
#[verifier::external_body]
fn fuzzy_score(haystack: &str, query: &str) -> (r: Option<u32>)
    ensures
        r == score_of(haystack@, query@),
{
    let mut matcher = nucleo_matcher::Matcher::new(nucleo_matcher::Config::DEFAULT.match_paths());
    let pattern = nucleo_matcher::pattern::Pattern::parse(
        query,
        nucleo_matcher::pattern::CaseMatching::Ignore,
        nucleo_matcher::pattern::Normalization::Smart,
    );
    let mut buf = Vec::new();
    pattern.score(nucleo_matcher::Utf32Str::new(haystack, &mut buf), &mut matcher)
}

/// What the outside matcher reports for highlight positions: whether
/// the haystack matched, and the raw (unsorted, possibly repeated)
/// character indices it touched — again a pure function of the two
/// strings.
pub uninterp spec fn indices_of(haystack: Seq<char>, query: Seq<char>) -> (bool, Seq<u32>);

/// Relies on nucleo_matcher's `Pattern::parse` and `Pattern::indices`
/// with a fixed configuration: the outcome depends on the haystack and
/// query alone, and every reported index is a character position inside
/// the haystack.
#[verifier::external_body]
fn fuzzy_indices(haystack: &str, query: &str) -> (r: (bool, Vec<u32>))
    ensures
        r.0 == indices_of(haystack@, query@).0,
        r.1@ == indices_of(haystack@, query@).1,
        forall|k: int| 0 <= k < r.1@.len() ==> (r.1@[k] as nat) < haystack@.len(),
{
    let mut matcher = nucleo_matcher::Matcher::new(nucleo_matcher::Config::DEFAULT.match_paths());
    let pattern = nucleo_matcher::pattern::Pattern::parse(
        query,
        nucleo_matcher::pattern::CaseMatching::Ignore,
        nucleo_matcher::pattern::Normalization::Smart,
    );
    let mut buf = Vec::new();
    let mut indices: Vec<u32> = Vec::new();
    let matched = pattern
        .indices(nucleo_matcher::Utf32Str::new(haystack, &mut buf), &mut matcher, &mut indices)
        .is_some();
    (matched, indices)
}

/// A strictly increasing sequence with exactly the elements of `raw`.
pub open spec fn sorted_unique_u32(v: Seq<u32>) -> bool {
    forall|i: int, j: int| 0 <= i < j < v.len() ==> v[i] < v[j]
}

/// Sort `raw` ascending and drop duplicates.
pub fn sort_dedup_u32(raw: &Vec<u32>) -> (r: Vec<u32>)
    ensures
        sorted_unique_u32(r@),
        forall|x: u32| #[trigger] r@.contains(x) <==> raw@.contains(x),
{
    let n = raw.len();
    let mut out: Vec<u32> = Vec::new();
    let mut i: usize = 0;
    while i < n
        invariant
            i <= n,
            n == raw@.len(),
            sorted_unique_u32(out@),
            forall|x: u32| #[trigger] out@.contains(x) <==> raw@.take(i as int).contains(x),
        decreases n - i,
    {
        let x = raw[i];
        let m = out.len();
        let mut idx: usize = 0;
        loop
            invariant
                idx <= m,
                m == out@.len(),
                forall|k: int| 0 <= k < idx ==> out@[k] < x,
            ensures
                idx <= m,
                forall|k: int| 0 <= k < idx ==> out@[k] < x,
                idx < m ==> out@[idx as int] >= x,
            decreases m - idx,
        {
            if idx >= m {
                break;
            }
            if out[idx] >= x {
                break;
            }
            idx = idx + 1;
        }
        let present = idx < m && out[idx] == x;
        let ghost pre = out@;
        if !present {
            out.insert(idx, x);
        }
        proof {
            if !present {
                assert forall|a: int, b: int| 0 <= a < b < out@.len() implies out@[a]
                    < out@[b] by {
                    let aa = if a < idx {
                        a
                    } else {
                        a - 1
                    };
                    let bb = if b <= idx {
                        b
                    } else {
                        b - 1
                    };
                    if a != idx && b != idx {
                        assert(out@[a] == pre[aa] && out@[b] == pre[bb]);
                    } else if a == idx {
                        assert(out@[b] == pre[bb] && pre[bb] >= x);
                        assert(out@[b] > x || out@[b] == x);
                        if out@[b] == x {
                            if bb > idx {
                                assert(pre[idx as int] <= pre[bb]);
                            }
                            assert(pre[bb] > x || pre[bb] == x);
                            if pre[bb] == x {
                                if idx < pre.len() {
                                    assert(pre[idx as int] >= x);
                                }
                                assert(bb >= idx);
                                if bb > idx {
                                    assert(pre[idx as int] < pre[bb]);
                                }
                            }
                        }
                    } else {
                        assert(out@[a] == pre[aa] && pre[aa] < x);
                    }
                }
            }
            assert forall|y: u32| #[trigger] out@.contains(y) <==> raw@.take(i + 1).contains(
                y,
            ) by {
                assert(raw@.take(i + 1).drop_last() =~= raw@.take(i as int));
                assert(raw@.take(i + 1).last() == raw@[i as int]);
                if out@.contains(y) {
                    let k = choose|k: int| 0 <= k < out@.len() && out@[k] == y;
                    if !present && k != idx {
                        let kk = if k < idx {
                            k
                        } else {
                            k - 1
                        };
                        assert(pre[kk] == y);
                        assert(pre.contains(y));
                    } else if !present && k == idx {
                        assert(y == x);
                    } else {
                        assert(pre == out@);
                    }
                    if y == x {
                        assert(raw@.take(i + 1)[i as int] == x);
                    } else {
                        assert(raw@.take(i as int).contains(y));
                        let k2 = choose|k2: int|
                            0 <= k2 < raw@.take(i as int).len() && raw@.take(i as int)[k2] == y;
                        assert(raw@.take(i + 1)[k2] == y);
                    }
                }
                if raw@.take(i + 1).contains(y) {
                    let k = choose|k: int|
                        0 <= k < raw@.take(i + 1).len() && #[trigger] raw@.take(i + 1)[k] == y;
                    if k < i {
                        assert(raw@.take(i as int)[k] == y);
                        assert(pre.contains(y));
                        let k3 = choose|k3: int| 0 <= k3 < pre.len() && pre[k3] == y;
                        if !present {
                            let kk = if k3 < idx {
                                k3
                            } else {
                                k3 + 1
                            };
                            assert(out@[kk] == y);
                        }
                        assert(out@.contains(y));
                    } else {
                        assert(y == x);
                        if present {
                            assert(out@[idx as int] == x);
                        } else {
                            assert(out@[idx as int] == x);
                        }
                        assert(out@.contains(y));
                    }
                }
            }
        }
        i = i + 1;
    }
    proof {
        assert(raw@.take(n as int) =~= raw@);
    }
    out
}

/// Highlight positions of `query` within `display`: empty for an empty
/// query or display; the matcher's touched indices, sorted and
/// deduplicated, when it matched; its raw output otherwise.
pub fn get_match_indices(display: &str, query: &str) -> (r: Vec<u32>)
    ensures
        query@.len() == 0 || display@.len() == 0 ==> r@ == Seq::<u32>::empty(),
        query@.len() > 0 && display@.len() > 0 && indices_of(display@, query@).0 ==> sorted_unique_u32(
            r@,
        ) && (forall|x: u32| #[trigger] r@.contains(x) <==> indices_of(display@, query@).1.contains(x)),
        query@.len() > 0 && display@.len() > 0 && !indices_of(display@, query@).0 ==> r@
            == indices_of(display@, query@).1,
        forall|k: int| 0 <= k < r@.len() ==> (r@[k] as nat) < display@.len(),
{
    if query.is_empty() || display.is_empty() {
        return Vec::new();
    }
    let (matched, raw) = fuzzy_indices(display, query);
    if matched {
        let out = sort_dedup_u32(&raw);
        proof {
            assert forall|k: int| 0 <= k < out@.len() implies (out@[k] as nat)
                < display@.len() by {
                assert(out@.contains(out@[k]));
                assert(raw@.contains(out@[k]));
                let j = choose|j: int| 0 <= j < raw@.len() && raw@[j] == out@[k];
            }
        }
        out
    } else {
        raw
    }
}

/// The fuzzy score of an entry: its searchable text against the query.
pub open spec fn entry_score(e: NoteEntry, query: Seq<char>) -> Option<u32> {
    score_of(e.searchable@, query)
}

/// The input entries that match the query at all, in input order.
pub open spec fn matching_entries(notes: Seq<NoteEntry>, query: Seq<char>) -> Seq<NoteEntry>
    decreases notes.len(),
{
    if notes.len() == 0 {
        Seq::empty()
    } else {
        matching_entries(notes.drop_last(), query) + if entry_score(notes.last(), query) is Some {
            seq![notes.last()]
        } else {
            Seq::empty()
        }
    }
}

/// Entries ordered by descending score against `query`.
pub open spec fn ranked_by_score(v: Seq<NoteEntry>, query: Seq<char>) -> bool {
    forall|i: int, j: int|
        0 <= i < j < v.len() ==> (entry_score(v[i], query)->0 as int) >= (entry_score(
            v[j],
            query,
        )->0 as int)
}

/// Rank `notes` against `query` with the fuzzy matcher. An empty query
/// returns every entry in its original order; otherwise exactly the
/// matching entries come back, ordered by descending score, ties in
/// input order.
pub fn filter_notes(notes: &Vec<NoteEntry>, query: &str) -> (r: Vec<NoteEntry>)
    ensures
        query@.len() == 0 ==> entry_views(r@) == entry_views(notes@),
        query@.len() > 0 ==> {
            &&& entry_views(r@).to_multiset() == entry_views(
                matching_entries(notes@, query@),
            ).to_multiset()
            &&& forall|i: int| 0 <= i < r@.len() ==> entry_score(r@[i], query@) is Some
            &&& ranked_by_score(r@, query@)
        },
{
    broadcast use vstd::seq_lib::group_to_multiset_ensures;

    if query.is_empty() {
        return duplicate_entries(notes);
    }
    let n = notes.len();
    let mut out: Vec<NoteEntry> = Vec::new();
    let mut scores: Vec<u32> = Vec::new();
    proof {
        assert(notes@.take(0) =~= Seq::<NoteEntry>::empty());
        assert(entry_views(out@).to_multiset() =~= entry_views(
            matching_entries(notes@.take(0), query@),
        ).to_multiset());
    }
    let mut i: usize = 0;
    while i < n
        invariant
            i <= n,
            n == notes@.len(),
            out@.len() == scores@.len(),
            forall|k: int|
                0 <= k < out@.len() ==> #[trigger] entry_score(out@[k], query@) == Some(
                    scores@[k],
                ),
            forall|a: int, b: int| 0 <= a < b < scores@.len() ==> scores@[a] >= scores@[b],
            entry_views(out@).to_multiset() == entry_views(
                matching_entries(notes@.take(i as int), query@),
            ).to_multiset(),
        decreases n - i,
    {
        broadcast use vstd::seq_lib::group_to_multiset_ensures;

        let e = &notes[i];
        let sc = fuzzy_score(e.searchable.as_str(), query);
        match sc {
            Some(s) => {
                let m = out.len();
                let mut idx: usize = 0;
                loop
                    invariant
                        idx <= m,
                        m == scores@.len(),
                        forall|k: int| 0 <= k < idx ==> scores@[k] >= s,
                    ensures
                        idx <= m,
                        forall|k: int| 0 <= k < idx ==> scores@[k] >= s,
                        idx < m ==> scores@[idx as int] < s,
                    decreases m - idx,
                {
                    if idx >= m {
                        break;
                    }
                    if scores[idx] < s {
                        break;
                    }
                    idx = idx + 1;
                }
                let dup = e.duplicate();
                let ghost dv = entry_view(dup);
                let ghost dupg: NoteEntry = dup;
                let ghost pre_out = out@;
                let ghost pre_scores = scores@;
                out.insert(idx, dup);
                scores.insert(idx, s);
                proof {
                    assert(entry_score(dupg, query@) == Some(s));
                    assert forall|k: int|
                        0 <= k < out@.len() implies #[trigger] entry_score(out@[k], query@)
                        == Some(scores@[k]) by {
                        if k < idx {
                            assert(out@[k] == pre_out[k] && scores@[k] == pre_scores[k]);
                        } else if k > idx {
                            assert(out@[k] == pre_out[k - 1] && scores@[k] == pre_scores[k - 1]);
                        }
                    }
                    assert forall|a: int, b: int|
                        0 <= a < b < scores@.len() implies scores@[a] >= scores@[b] by {
                        let aa = if a < idx {
                            a
                        } else {
                            a - 1
                        };
                        let bb = if b <= idx {
                            b
                        } else {
                            b - 1
                        };
                        if a != idx && b != idx {
                            assert(scores@[a] == pre_scores[aa] && scores@[b] == pre_scores[bb]);
                        } else if a == idx {
                            assert(scores@[b] == pre_scores[bb] && pre_scores[bb] < s);
                        } else {
                            assert(scores@[a] == pre_scores[aa] && pre_scores[aa] >= s);
                        }
                    }
                    assert(entry_views(out@) =~= entry_views(pre_out).insert(idx as int, dv));
                    assert(entry_views(pre_out).insert(idx as int, dv).to_multiset()
                        =~= entry_views(pre_out).to_multiset().insert(dv));
                }
            },
            None => {},
        }
        proof {
            assert(notes@.take(i + 1).drop_last() =~= notes@.take(i as int));
            assert(notes@.take(i + 1).last() == notes@[i as int]);
            let m0 = matching_entries(notes@.take(i as int), query@);
            let m1 = matching_entries(notes@.take(i + 1), query@);
            if entry_score(notes@[i as int], query@) is Some {
                assert(m1 =~= m0 + seq![notes@[i as int]]);
                assert(m1 =~= m0.push(notes@[i as int]));
                assert(entry_views(m1) =~= entry_views(m0).push(entry_view(notes@[i as int])));
                assert(entry_views(m1).to_multiset() =~= entry_views(m0).to_multiset().insert(
                    entry_view(notes@[i as int]),
                ));
                assert(entry_view(notes@[i as int]) == entry_view(notes@[i as int]));
            } else {
                assert(m1 =~= m0);
            }
        }
        i = i + 1;
    }
    proof {
        assert(notes@.take(n as int) =~= notes@);
    }
    out
}

/// Whether a document's `#tag` set contains `tag`, comparing
/// case-insensitively.
pub open spec fn has_tag_insensitive(content: Seq<char>, tag: Seq<char>) -> bool {
    exists|t: Seq<char>| #[trigger] tags_of(content).contains(t) && lower_of(t) == tag
}

/// Whether a document body carries the tag, case-insensitively
/// (executable form).
pub fn content_has_tag(content: &str, tag: &str) -> (r: bool)
    ensures
        r == has_tag_insensitive(content@, tag@),
{
    let mut tags: Vec<String> = Vec::new();
    crate::scan::collect_tags(content, &mut tags);
    let n = tags.len();
    let mut i: usize = 0;
    let tag_owned = String::from_str(tag);
    while i < n
        invariant
            i <= n,
            n == tags@.len(),
            tag_owned@ == tag@,
            forall|x: Seq<char>|
                #[trigger] crate::text::seq_contains_view(tags@, x) <==> tags_of(
                    content@,
                ).contains(x),
            forall|k: int| 0 <= k < i ==> lower_of(tags@[k]@) != tag@,
        decreases n - i,
    {
        let lowered = lowercase(tags[i].as_str());
        if lowered.eq(&tag_owned) {
            proof {
                assert(crate::text::seq_contains_view(tags@, tags@[i as int]@));
            }
            return true;
        }
        i = i + 1;
    }
    proof {
        if has_tag_insensitive(content@, tag@) {
            let t = choose|t: Seq<char>|
                #[trigger] tags_of(content@).contains(t) && lower_of(t) == tag@;
            assert(crate::text::seq_contains_view(tags@, t));
            let k = choose|k: int| 0 <= k < tags@.len() && tags@[k]@ == t;
            assert(lower_of(tags@[k]@) != tag@);
            assert(false);
        }
    }
    false
}

/// The entries whose document body carries `tag`, in input order.
pub open spec fn tag_matching(notes: Seq<NoteEntry>, tag: Seq<char>) -> Seq<NoteEntry>
    decreases notes.len(),
{
    if notes.len() == 0 {
        Seq::empty()
    } else {
        tag_matching(notes.drop_last(), tag) + if has_tag_insensitive(
            notes.last().content@,
            tag,
        ) {
            seq![notes.last()]
        } else {
            Seq::empty()
        }
    }
}

/// Filter the fuzzy finder's entries. An empty (trimmed) query returns
/// everything in order. A query opening with the tag sigil `#` switches
/// to exact tag-membership filtering over the body tag sets — unless
/// nothing follows the sigil, which falls back to the unfiltered list.
/// Anything else ranks fuzzily, like `filter_notes`, on the trimmed
/// query.
pub fn filter_telescope_notes(notes: &Vec<NoteEntry>, query: &str) -> (r: Vec<NoteEntry>)
    ensures
        trim_seq(query@).len() == 0 ==> entry_views(r@) == entry_views(notes@),
        trim_seq(query@).len() > 0 && trim_seq(query@)[0] == '#' ==> {
            if trim_seq(trim_seq(query@).skip(1)).len() == 0 {
                entry_views(r@) == entry_views(notes@)
            } else {
                entry_views(r@) == entry_views(
                    tag_matching(notes@, lower_of(trim_seq(trim_seq(query@).skip(1)))),
                )
            }
        },
        trim_seq(query@).len() > 0 && trim_seq(query@)[0] != '#' ==> {
            &&& entry_views(r@).to_multiset() == entry_views(
                matching_entries(notes@, trim_seq(query@)),
            ).to_multiset()
            &&& ranked_by_score(r@, trim_seq(query@))
        },
{
    let q = trim(query);
    if q.as_str().is_empty() {
        return duplicate_entries(notes);
    }
    let q_len = q.as_str().unicode_len();
    if q.as_str().get_char(0) == '#' {
        let rest = q.as_str().substring_char(1, q_len);
        let rest_trimmed = trim(rest);
        if rest_trimmed.as_str().is_empty() {
            return duplicate_entries(notes);
        }
        let tag = lowercase(rest_trimmed.as_str());
        let n = notes.len();
        let mut out: Vec<NoteEntry> = Vec::new();
        proof {
            assert(notes@.take(0) =~= Seq::<NoteEntry>::empty());
            assert(entry_views(out@) =~= entry_views(tag_matching(notes@.take(0), tag@)));
        }
        let mut i: usize = 0;
        while i < n
            invariant
                i <= n,
                n == notes@.len(),
                entry_views(out@) =~= entry_views(tag_matching(notes@.take(i as int), tag@)),
            decreases n - i,
        {
            let e = &notes[i];
            let ghost pre = out@;
            if content_has_tag(e.content.as_str(), tag.as_str()) {
                out.push(e.duplicate());
                proof {
                    assert(entry_views(out@) =~= entry_views(pre) + seq![
                        entry_view(notes@[i as int]),
                    ]);
                }
            }
            proof {
                assert(notes@.take(i + 1).drop_last() =~= notes@.take(i as int));
                assert(notes@.take(i + 1).last() == notes@[i as int]);
                let m0 = tag_matching(notes@.take(i as int), tag@);
                let m1 = tag_matching(notes@.take(i + 1), tag@);
                if has_tag_insensitive(notes@[i as int].content@, tag@) {
                    assert(m1 =~= m0 + seq![notes@[i as int]]);
                    assert(entry_views(m1) =~= entry_views(m0) + seq![
                        entry_view(notes@[i as int]),
                    ]);
                } else {
                    assert(m1 =~= m0);
                }
            }
            i = i + 1;
        }
        proof {
            assert(notes@.take(n as int) =~= notes@);
        }
        out
    } else {
        filter_notes(notes, q.as_str())
    }
}

/// Highlight positions for the fuzzy finder's list: none for an empty
/// query, a tag-sigil query, or an empty display string.
pub fn get_telescope_match_indices(display: &str, query: &str) -> (r: Vec<u32>)
    ensures
        query@.len() == 0 || (query@.len() > 0 && query@[0] == '#') || display@.len() == 0 ==> r@
            == Seq::<u32>::empty(),
        query@.len() > 0 && query@[0] != '#' && display@.len() > 0 && indices_of(
            display@,
            query@,
        ).0 ==> sorted_unique_u32(r@) && (forall|x: u32|
            #[trigger] r@.contains(x) <==> indices_of(display@, query@).1.contains(x)),
        query@.len() > 0 && query@[0] != '#' && display@.len() > 0 && !indices_of(
            display@,
            query@,
        ).0 ==> r@ == indices_of(display@, query@).1,
        forall|k: int| 0 <= k < r@.len() ==> (r@[k] as nat) < display@.len(),
{
    if query.is_empty() || display.is_empty() {
        return Vec::new();
    }
    if query.get_char(0) == '#' {
        return Vec::new();
    }
    get_match_indices(display, query)
}

} // verus!
