//! The directory index: entries of the browsed directory, classified and
//! ordered — directories first, both groups sorted case-insensitively.

use vstd::prelude::*;
use vstd::string::StrSliceExecFns;
use vstd::string::StringExecFns;

use crate::text::ends_with_seq;
use crate::paths::md_ext;
use crate::paths::is_md_name;
use crate::paths::path_join;
use crate::paths::path_join_seq;
use crate::text::lex_le;
use crate::text::lemma_lex_le_total;
use crate::text::lemma_lex_le_trans;
use crate::text::lower_of;
use crate::text::lowercase;
use crate::text::str_le;

verus! {

/// Cap on how much of a document is cached for preview and search.
pub const MAX_CONTENT_BYTES: usize = 100000;

/// One item of the browsed directory.
pub struct NoteEntry {
    pub path: String,
    pub display: String,
    pub content: String,
    pub searchable: String,
    pub is_directory: bool,
}

/// The abstract content of an entry: path, display name, cached body,
/// searchable text, directory flag.
pub open spec fn entry_view(e: NoteEntry) -> (Seq<char>, Seq<char>, Seq<char>, Seq<char>, bool) {
    (e.path@, e.display@, e.content@, e.searchable@, e.is_directory)
}

pub open spec fn entry_views(v: Seq<NoteEntry>) -> Seq<
    (Seq<char>, Seq<char>, Seq<char>, Seq<char>, bool),
> {
    v.map_values(|e: NoteEntry| entry_view(e))
}

impl NoteEntry {
    /// A document entry.
    pub fn new(path: String, display: String, content: String, searchable: String) -> (r:
        NoteEntry)
        ensures
            entry_view(r) == (path@, display@, content@, searchable@, false),
    {
        NoteEntry { path, display, content, searchable, is_directory: false }
    }

    /// A directory entry; its searchable text is just its name.
    pub fn dir(path: String, display: String) -> (r: NoteEntry)
        ensures
            entry_view(r) == (path@, display@, Seq::<char>::empty(), display@, true),
    {
        let searchable = String::from_str(display.as_str());
        NoteEntry { path, display, content: String::new(), searchable, is_directory: true }
    }

    /// An identical copy.
    pub fn duplicate(&self) -> (r: NoteEntry)
        ensures
            entry_view(r) == entry_view(*self),
    {
        NoteEntry {
            path: String::from_str(self.path.as_str()),
            display: String::from_str(self.display.as_str()),
            content: String::from_str(self.content.as_str()),
            searchable: String::from_str(self.searchable.as_str()),
            is_directory: self.is_directory,
        }
    }
}

/// Copy a whole entry list.
pub fn duplicate_entries(v: &Vec<NoteEntry>) -> (r: Vec<NoteEntry>)
    ensures
        entry_views(r@) == entry_views(v@),
{
    let n = v.len();
    let mut out: Vec<NoteEntry> = Vec::new();
    let mut i: usize = 0;
    while i < n
        invariant
            i <= n,
            n == v@.len(),
            entry_views(out@) =~= entry_views(v@).take(i as int),
        decreases n - i,
    {
        out.push(v[i].duplicate());
        proof {
            assert(entry_views(v@).take(i + 1) =~= entry_views(v@).take(i as int) + seq![
                entry_view(v@[i as int]),
            ]);
        }
        i = i + 1;
    }
    proof {
        assert(entry_views(v@).take(n as int) =~= entry_views(v@));
    }
    out
}

/// The searchable text of a document entry: display name, newline, body.
pub fn note_searchable(display: &str, content: &str) -> (r: String)
    ensures
        r@ == display@ + "\n"@ + content@,
{
    let mut out = String::from_str(display);
    out.append("\n");
    out.append(content);
    out
}

/// The marker appended to a cached body that was cut at the byte ceiling.
pub fn append_truncation_marker(content: &mut String)
    ensures
        final(content)@ == old(content)@ + "\n\n(Content truncated - file too large)"@,
{
    content.append("\n\n(Content truncated - file too large)");
}

/// Case-insensitive entry order: by the lowercased display name.
pub open spec fn entry_le(a: NoteEntry, b: NoteEntry) -> bool {
    lex_le(lower_of(a.display@), lower_of(b.display@))
}

/// Entries sorted case-insensitively by display name.
pub open spec fn sorted_entries(v: Seq<NoteEntry>) -> bool {
    forall|i: int, j: int| 0 <= i < j < v.len() ==> entry_le(v[i], v[j])
}

/// Insert an entry into a case-insensitively sorted list.
pub fn insert_entry_sorted(v: &mut Vec<NoteEntry>, e: NoteEntry)
    requires
        sorted_entries(old(v)@),
    ensures
        sorted_entries(final(v)@),
        entry_views(final(v)@).to_multiset() == entry_views(old(v)@).to_multiset().insert(
            entry_view(e),
        ),
        exists|k: int| 0 <= k <= old(v)@.len() && final(v)@ == old(v)@.insert(k, e),
{
    broadcast use vstd::seq_lib::group_to_multiset_ensures;

    let key = lowercase(e.display.as_str());
    let mut idx: usize = 0;
    let n = v.len();
    loop
        invariant
            idx <= n,
            n == v@.len(),
            v == old(v),
            key@ == lower_of(e.display@),
            forall|k: int| 0 <= k < idx ==> entry_le(v@[k], e),
        ensures
            idx <= n,
            v == old(v),
            forall|k: int| 0 <= k < idx ==> entry_le(v@[k], e),
            idx < n ==> !entry_le(v@[idx as int], e),
        decreases n - idx,
    {
        if idx >= n {
            break;
        }
        let other = lowercase(v[idx].display.as_str());
        if !str_le(other.as_str(), key.as_str()) {
            break;
        }
        idx = idx + 1;
    }
    proof {
        if idx < v@.len() {
            lemma_lex_le_total(lower_of(v@[idx as int].display@), lower_of(e.display@));
        }
        assert forall|k: int| idx <= k < v@.len() implies entry_le(e, v@[k]) by {
            if idx < v@.len() && k > idx {
                assert(entry_le(v@[idx as int], v@[k]));
                lemma_lex_le_trans(
                    lower_of(e.display@),
                    lower_of(v@[idx as int].display@),
                    lower_of(v@[k].display@),
                );
            }
        }
    }
    let ghost pre = v@;
    let ghost ev = entry_view(e);
    v.insert(idx, e);
    proof {
        assert forall|i: int, j: int| 0 <= i < j < v@.len() implies entry_le(v@[i], v@[j]) by {
            let ii = if i < idx {
                i
            } else {
                i - 1
            };
            let jj = if j <= idx {
                j
            } else {
                j - 1
            };
            if i != idx && j != idx {
                assert(v@[i] == pre[ii] && v@[j] == pre[jj]);
            }
        }
        assert(entry_views(v@) =~= entry_views(pre).insert(idx as int, ev));
        assert(entry_views(pre).insert(idx as int, ev).to_multiset() =~= entry_views(
            pre,
        ).to_multiset().insert(ev));
        assert(0 <= idx <= pre.len() && v@ == pre.insert(idx as int, e));
    }
}

/// Raw material for one listing entry, as the directory reader hands
/// it over: the plain file name, the directory flag, the cached body
/// (empty when the file was unreadable) and whether it was cut short.
pub struct RawListingEntry {
    pub name: String,
    pub is_directory: bool,
    pub content: String,
    pub truncated: bool,
}

/// The display name of a raw entry: directories carry a trailing slash.
pub open spec fn raw_display(r: RawListingEntry) -> Seq<char> {
    if r.is_directory {
        r.name@ + seq!['/']
    } else {
        r.name@
    }
}

/// Whether a raw entry appears in the listing at all: directories always,
/// documents only with the markdown extension; dot-prefixed names only
/// when hidden entries are shown.
pub open spec fn raw_included(r: RawListingEntry, show_hidden: bool) -> bool {
    (r.is_directory || ends_with_seq(r.name@, md_ext())) && (show_hidden || r.name@.len() == 0
        || r.name@[0] != '.')
}

/// The cached body of a raw entry, with the truncation marker when cut.
pub open spec fn raw_content(r: RawListingEntry) -> Seq<char> {
    if r.is_directory {
        Seq::empty()
    } else if r.truncated {
        r.content@ + "\n\n(Content truncated - file too large)"@
    } else {
        r.content@
    }
}

/// The entry a raw listing item turns into.
pub open spec fn raw_entry_view(dir: Seq<char>, r: RawListingEntry) -> (
    Seq<char>,
    Seq<char>,
    Seq<char>,
    Seq<char>,
    bool,
) {
    if r.is_directory {
        (path_join_seq(dir, r.name@), raw_display(r), Seq::empty(), raw_display(r), true)
    } else {
        (
            path_join_seq(dir, r.name@),
            r.name@,
            raw_content(r),
            r.name@ + "\n"@ + raw_content(r),
            false,
        )
    }
}

/// The expected entries of one group (directories or documents).
pub open spec fn group_views(
    dir: Seq<char>,
    raw: Seq<RawListingEntry>,
    show_hidden: bool,
    dirs: bool,
) -> Seq<(Seq<char>, Seq<char>, Seq<char>, Seq<char>, bool)>
    decreases raw.len(),
{
    if raw.len() == 0 {
        Seq::empty()
    } else {
        group_views(dir, raw.drop_last(), show_hidden, dirs) + if raw.last().is_directory == dirs
            && raw_included(raw.last(), show_hidden) {
            seq![raw_entry_view(dir, raw.last())]
        } else {
            Seq::empty()
        }
    }
}

/// Build the listing of a directory from its raw entries: directories
/// first, each group sorted case-insensitively by display name.
pub fn build_listing(dir: &str, raw: Vec<RawListingEntry>, show_hidden: bool) -> (r: Vec<
    NoteEntry,
>)
    ensures
        exists|d: int|
            0 <= d <= r@.len() && (forall|i: int| 0 <= i < d ==> r@[i].is_directory) && (forall|
                i: int,
            |
                d <= i < r@.len() ==> !r@[i].is_directory) && sorted_entries(r@.take(d))
                && sorted_entries(r@.skip(d)) && entry_views(r@.take(d)).to_multiset()
                == group_views(dir@, raw@, show_hidden, true).to_multiset() && entry_views(
                r@.skip(d),
            ).to_multiset() == group_views(dir@, raw@, show_hidden, false).to_multiset(),
{
    broadcast use vstd::seq_lib::group_to_multiset_ensures;

    let n = raw.len();
    let mut dirs: Vec<NoteEntry> = Vec::new();
    let mut files: Vec<NoteEntry> = Vec::new();
    proof {
        assert(raw@.take(0) =~= Seq::<RawListingEntry>::empty());
        assert(entry_views(dirs@).to_multiset() =~= group_views(
            dir@,
            raw@.take(0),
            show_hidden,
            true,
        ).to_multiset());
        assert(entry_views(files@).to_multiset() =~= group_views(
            dir@,
            raw@.take(0),
            show_hidden,
            false,
        ).to_multiset());
    }
    let mut i: usize = 0;
    while i < n
        invariant
            i <= n,
            n == raw@.len(),
            sorted_entries(dirs@),
            sorted_entries(files@),
            forall|k: int| 0 <= k < dirs@.len() ==> dirs@[k].is_directory,
            forall|k: int| 0 <= k < files@.len() ==> !files@[k].is_directory,
            entry_views(dirs@).to_multiset() == group_views(
                dir@,
                raw@.take(i as int),
                show_hidden,
                true,
            ).to_multiset(),
            entry_views(files@).to_multiset() == group_views(
                dir@,
                raw@.take(i as int),
                show_hidden,
                false,
            ).to_multiset(),
        decreases n - i,
    {
        broadcast use vstd::seq_lib::group_to_multiset_ensures;

        let rentry = &raw[i];
        let hidden_ok = show_hidden || rentry.name.as_str().is_empty()
            || vstd::string::StrSliceExecFns::get_char(rentry.name.as_str(), 0) != '.';
        let ghost pre_dirs = dirs@;
        let ghost pre_files = files@;
        if rentry.is_directory && hidden_ok {
            let mut display = String::from_str(rentry.name.as_str());
            crate::text::push_char(&mut display, '/');
            let e = NoteEntry::dir(path_join(dir, rentry.name.as_str()), display);
            proof {
                assert(entry_view(e) == raw_entry_view(dir@, raw@[i as int]));
            }
            insert_entry_sorted(&mut dirs, e);
            proof {
                let k = choose|k: int| 0 <= k <= pre_dirs.len() && dirs@ == pre_dirs.insert(k, e);
                assert forall|m: int| 0 <= m < dirs@.len() implies dirs@[m].is_directory by {
                    if m < k {
                        assert(dirs@[m] == pre_dirs[m]);
                    } else if m > k {
                        assert(dirs@[m] == pre_dirs[m - 1]);
                    }
                }
            }
        } else if !rentry.is_directory && hidden_ok && is_md_name(rentry.name.as_str()) {
            let mut content = String::from_str(rentry.content.as_str());
            if rentry.truncated {
                append_truncation_marker(&mut content);
            }
            let searchable = note_searchable(rentry.name.as_str(), content.as_str());
            let e = NoteEntry::new(
                path_join(dir, rentry.name.as_str()),
                String::from_str(rentry.name.as_str()),
                content,
                searchable,
            );
            proof {
                assert(entry_view(e) == raw_entry_view(dir@, raw@[i as int]));
            }
            insert_entry_sorted(&mut files, e);
            proof {
                let k = choose|k: int|
                    0 <= k <= pre_files.len() && files@ == pre_files.insert(k, e);
                assert forall|m: int| 0 <= m < files@.len() implies !files@[m].is_directory by {
                    if m < k {
                        assert(files@[m] == pre_files[m]);
                    } else if m > k {
                        assert(files@[m] == pre_files[m - 1]);
                    }
                }
            }
        }
        proof {
            assert(raw@.take(i + 1).drop_last() =~= raw@.take(i as int));
            assert(raw@.take(i + 1).last() == raw@[i as int]);
            let gd0 = group_views(dir@, raw@.take(i as int), show_hidden, true);
            let gd1 = group_views(dir@, raw@.take(i + 1), show_hidden, true);
            let gf0 = group_views(dir@, raw@.take(i as int), show_hidden, false);
            let gf1 = group_views(dir@, raw@.take(i + 1), show_hidden, false);
            if raw@[i as int].is_directory && raw_included(raw@[i as int], show_hidden) {
                assert(gd1 =~= gd0 + seq![raw_entry_view(dir@, raw@[i as int])]);
                assert(gd1 =~= gd0.push(raw_entry_view(dir@, raw@[i as int])));
                assert(gf1 =~= gf0);
            } else if !raw@[i as int].is_directory && raw_included(raw@[i as int], show_hidden) {
                assert(gf1 =~= gf0 + seq![raw_entry_view(dir@, raw@[i as int])]);
                assert(gf1 =~= gf0.push(raw_entry_view(dir@, raw@[i as int])));
                assert(gd1 =~= gd0);
            } else {
                assert(gd1 =~= gd0);
                assert(gf1 =~= gf0);
            }
        }
        i = i + 1;
    }
    proof {
        assert(raw@.take(n as int) =~= raw@);
    }
    let ghost dirs_snap = dirs@;
    let ghost files_snap = files@;
    let d = dirs.len();
    let m = files.len();
    let mut j: usize = 0;
    while j < m
        invariant
            j <= m,
            m == files_snap.len(),
            files@ =~= files_snap.skip(j as int),
            dirs@ =~= dirs_snap + files_snap.take(j as int),
        decreases m - j,
    {
        let e = files.remove(0);
        proof {
            assert(files_snap.skip(j as int)[0] == files_snap[j as int]);
            assert(files_snap.skip(j as int).remove(0) =~= files_snap.skip(j + 1));
            assert(dirs_snap + files_snap.take(j as int) + seq![e] =~= dirs_snap + files_snap.take(
                j + 1,
            ));
        }
        dirs.push(e);
        j = j + 1;
    }
    proof {
        assert(dirs@ =~= dirs_snap + files_snap);
        assert(dirs@.take(d as int) =~= dirs_snap);
        assert(dirs@.skip(d as int) =~= files_snap);
        assert(entry_views(dirs@.take(d as int)) =~= entry_views(dirs_snap));
        assert(entry_views(dirs@.skip(d as int)) =~= entry_views(files_snap));
        assert(raw@.take(n as int) =~= raw@);
    }
    dirs
}

} // verus!
