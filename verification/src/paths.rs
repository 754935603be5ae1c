//! Paths as plain strings: joining, file names, stems, extensions.
//!
//! The file system itself is out of reach here; these helpers only give
//! the string arithmetic on `/`-separated paths an exact meaning.

use vstd::prelude::*;
use vstd::string::StrSliceExecFns;
use vstd::string::StringExecFns;

use crate::text::ends_with_seq;
use crate::text::str_ends_with;

verus! {

/// The part of `s` after the last occurrence of `c`; all of `s` when `c`
/// does not occur.
pub open spec fn after_last(s: Seq<char>, c: char) -> Seq<char>
    decreases s.len(),
{
    if s.len() == 0 {
        s
    } else if s.last() == c {
        Seq::empty()
    } else {
        after_last(s.drop_last(), c).push(s.last())
    }
}

/// The part of `s` before the last occurrence of `c`; empty when `c`
/// does not occur.
pub open spec fn before_last(s: Seq<char>, c: char) -> Seq<char>
    decreases s.len(),
{
    if s.len() == 0 {
        s
    } else if s.last() == c {
        s.drop_last()
    } else {
        before_last(s.drop_last(), c)
    }
}

pub proof fn lemma_split_at_last_occurrence(s: Seq<char>, c: char, i: int)
    requires
        0 <= i < s.len(),
        s[i] == c,
        forall|j: int| i < j < s.len() ==> s[j] != c,
    ensures
        after_last(s, c) =~= s.skip(i + 1),
        before_last(s, c) =~= s.take(i),
    decreases s.len(),
{
    if i == s.len() - 1 {
        assert(s.last() == c);
    } else {
        assert(s.last() != c);
        lemma_split_at_last_occurrence(s.drop_last(), c, i);
        assert(after_last(s.drop_last(), c) =~= s.drop_last().skip(i + 1));
        assert(after_last(s, c) =~= s.skip(i + 1));
        assert(before_last(s, c) =~= s.take(i));
    }
}

pub proof fn lemma_no_occurrence(s: Seq<char>, c: char)
    requires
        forall|j: int| 0 <= j < s.len() ==> s[j] != c,
    ensures
        after_last(s, c) =~= s,
        before_last(s, c) =~= Seq::<char>::empty(),
    decreases s.len(),
{
    if s.len() > 0 {
        lemma_no_occurrence(s.drop_last(), c);
    }
}

/// Position of the last occurrence of `c` in `s`, if any.
pub fn rfind_char(s: &str, c: char) -> (r: Option<usize>)
    ensures
        match r {
            Some(i) => i < s@.len() && s@[i as int] == c && forall|j: int|
                i < j < s@.len() ==> s@[j] != c,
            None => forall|j: int| 0 <= j < s@.len() ==> s@[j] != c,
        },
{
    let s_len = s.unicode_len();
    let mut i: usize = s_len;
    while i > 0
        invariant
            i <= s_len,
            s_len == s@.len(),
            forall|j: int| i <= j < s@.len() ==> s@[j] != c,
        decreases i,
    {
        i = i - 1;
        if s.get_char(i) == c {
            return Some(i);
        }
    }
    None
}

/// The file-name component of a path: everything after the last slash.
pub fn file_name_of(p: &str) -> (r: String)
    ensures
        r@ == after_last(p@, '/'),
{
    let p_len = p.unicode_len();
    match rfind_char(p, '/') {
        Some(i) => {
            proof {
                lemma_split_at_last_occurrence(p@, '/', i as int);
            }
            String::from_str(p.substring_char(i + 1, p_len))
        },
        None => {
            proof {
                lemma_no_occurrence(p@, '/');
            }
            String::from_str(p)
        },
    }
}

/// Everything before the last occurrence of `c` (executable form).
pub fn before_last_of(p: &str, c: char) -> (r: String)
    ensures
        r@ == before_last(p@, c),
{
    match rfind_char(p, c) {
        Some(i) => {
            proof {
                lemma_split_at_last_occurrence(p@, c, i as int);
            }
            String::from_str(p.substring_char(0, i))
        },
        None => {
            proof {
                lemma_no_occurrence(p@, c);
            }
            String::new()
        },
    }
}

/// The parent of a path: everything before the last slash, empty when the
/// path has none.
pub fn parent_of(p: &str) -> (r: String)
    ensures
        r@ == before_last(p@, '/'),
{
    before_last_of(p, '/')
}

/// A directory path joined with one more component.
pub open spec fn path_join_seq(dir: Seq<char>, name: Seq<char>) -> Seq<char> {
    dir + seq!['/'] + name
}

pub fn path_join(dir: &str, name: &str) -> (r: String)
    ensures
        r@ == path_join_seq(dir@, name@),
{
    let mut out = String::from_str(dir);
    out.append("/");
    out.append(name);
    proof {
        reveal_strlit("/");
        assert(out@ =~= path_join_seq(dir@, name@));
    }
    out
}

/// The stem of a file name: the name without its last `.`-extension; the
/// whole name when it has no dot or only a leading one.
pub open spec fn stem_seq(name: Seq<char>) -> Seq<char> {
    if before_last(name, '.').len() == 0 {
        name
    } else {
        before_last(name, '.')
    }
}

pub fn file_stem_of(name: &str) -> (r: String)
    ensures
        r@ == stem_seq(name@),
{
    match rfind_char(name, '.') {
        Some(i) => {
            proof {
                lemma_split_at_last_occurrence(name@, '.', i as int);
            }
            if i == 0 {
                String::from_str(name)
            } else {
                String::from_str(name.substring_char(0, i))
            }
        },
        None => {
            proof {
                lemma_no_occurrence(name@, '.');
            }
            String::from_str(name)
        },
    }
}

/// The markdown extension this workspace recognises.
pub open spec fn md_ext() -> Seq<char> {
    seq!['.', 'm', 'd']
}

/// A name with the markdown extension appended unless already present.
pub open spec fn ensure_md_seq(name: Seq<char>) -> Seq<char> {
    if ends_with_seq(name, md_ext()) {
        name
    } else {
        name + md_ext()
    }
}

pub fn ensure_md_suffix(name: &str) -> (r: String)
    ensures
        r@ == ensure_md_seq(name@),
{
    proof {
        reveal_strlit(".md");
        assert(".md"@ =~= md_ext());
    }
    if str_ends_with(name, ".md") {
        String::from_str(name)
    } else {
        let mut out = String::from_str(name);
        out.append(".md");
        out
    }
}

/// Whether a file name carries the markdown extension.
pub fn is_md_name(name: &str) -> (r: bool)
    ensures
        r == ends_with_seq(name@, md_ext()),
{
    proof {
        reveal_strlit(".md");
        assert(".md"@ =~= md_ext());
    }
    str_ends_with(name, ".md")
}

} // verus!
