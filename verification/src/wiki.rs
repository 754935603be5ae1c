//! Wiki links: finding the `[[name]]` token under the editor cursor.
//!
//! A link token is `[[`, a non-empty run of characters without `]`,
//! then `]]`. Tokens are scanned left to right without overlap, and the
//! cursor counts as inside a token anywhere from its first `[` to just
//! after its last `]`.

use vstd::prelude::*;
use vstd::string::StrSliceExecFns;
use vstd::string::StringExecFns;

use crate::state::App;
use crate::text::run_until;

verus! {

/// Index of the first `]` at or after `i`, or the length of `s`.
pub open spec fn close_from(s: Seq<char>, i: int) -> int {
    i + run_until(s.skip(i), ']')
}

/// The link token starting exactly at `i`, if any: its span and name.
pub open spec fn wiki_at(s: Seq<char>, i: int) -> Option<(int, int, Seq<char>)> {
    if 0 <= i && i + 1 < s.len() && s[i] == '[' && s[i + 1] == '[' {
        let j = close_from(s, i + 2);
        if j > i + 2 && j + 1 < s.len() && s[j + 1] == ']' {
            Some((i, j + 2, s.subrange(i + 2, j)))
        } else {
            None
        }
    } else {
        None
    }
}

proof fn lemma_run_until_bounds(s: Seq<char>, c: char)
    ensures
        0 <= run_until(s, c) <= s.len(),
        forall|j: int| 0 <= j < run_until(s, c) ==> s[j] != c,
        run_until(s, c) < s.len() ==> s[run_until(s, c)] == c,
    decreases s.len(),
{
    if s.len() > 0 && s[0] != c {
        lemma_run_until_bounds(s.skip(1), c);
        assert forall|j: int| 0 <= j < run_until(s, c) implies s[j] != c by {
            if j > 0 {
                assert(s.skip(1)[j - 1] == s[j]);
            }
        }
        if run_until(s, c) < s.len() {
            assert(s.skip(1)[run_until(s, c) - 1] == s[run_until(s, c)]);
        }
    }
}

proof fn lemma_wiki_at_bounds(s: Seq<char>, i: int)
    requires
        wiki_at(s, i) is Some,
    ensures
        (wiki_at(s, i)->0).0 == i,
        i + 4 <= (wiki_at(s, i)->0).1 <= s.len(),
{
    lemma_run_until_bounds(s.skip(i + 2), ']');
}

/// The first link token at or after `i`.
pub open spec fn next_wiki_from(s: Seq<char>, i: int) -> Option<(int, int, Seq<char>)>
    decreases s.len() - i,
{
    if i < 0 || i >= s.len() {
        None
    } else {
        match wiki_at(s, i) {
            Some(m) => Some(m),
            None => next_wiki_from(s, i + 1),
        }
    }
}

proof fn lemma_next_wiki_bounds(s: Seq<char>, i: int)
    requires
        0 <= i,
        next_wiki_from(s, i) is Some,
    ensures
        i <= (next_wiki_from(s, i)->0).0,
        (next_wiki_from(s, i)->0).0 + 4 <= (next_wiki_from(s, i)->0).1 <= s.len(),
    decreases s.len() - i,
{
    if i < s.len() {
        match wiki_at(s, i) {
            Some(m) => {
                lemma_wiki_at_bounds(s, i);
            },
            None => {
                lemma_next_wiki_bounds(s, i + 1);
            },
        }
    }
}

/// The name of the link token whose span contains `col`, scanning
/// tokens left to right and resuming after each one.
pub open spec fn wiki_link_at_col(s: Seq<char>, col: int, i: int) -> Option<Seq<char>>
    decreases s.len() - i,
    via wiki_link_at_col_dec
{
    if i < 0 || i >= s.len() {
        None
    } else {
        match next_wiki_from(s, i) {
            Some(m) => if m.0 <= col <= m.1 {
                Some(m.2)
            } else if m.1 > i {
                wiki_link_at_col(s, col, m.1)
            } else {
                None
            },
            None => None,
        }
    }
}

#[via_fn]
proof fn wiki_link_at_col_dec(s: Seq<char>, col: int, i: int) {
    if 0 <= i < s.len() {
        match next_wiki_from(s, i) {
            Some(m) => {
                lemma_next_wiki_bounds(s, i);
            },
            None => {},
        }
    }
}

proof fn lemma_next_wiki_agrees(s: Seq<char>, i: int, k: int)
    requires
        0 <= i <= k <= s.len(),
        forall|j: int| i <= j < k ==> wiki_at(s, j) is None,
    ensures
        next_wiki_from(s, i) == next_wiki_from(s, k),
    decreases k - i,
{
    if i < k {
        lemma_next_wiki_agrees(s, i + 1, k);
    }
}

/// Find the link token containing `col` in one line (executable form).
pub fn find_wiki_link(line: &str, col: usize) -> (r: Option<String>)
    ensures
        match r {
            Some(name) => wiki_link_at_col(line@, col as int, 0) == Some(name@),
            None => wiki_link_at_col(line@, col as int, 0) is None,
        },
{
    let n = line.unicode_len();
    let mut i: usize = 0;
    let ghost start: int = 0;
    loop
        invariant
            0 <= i <= n,
            n == line@.len(),
            0 <= start <= i,
            wiki_link_at_col(line@, col as int, 0) == wiki_link_at_col(line@, col as int, start),
            start < n ==> forall|j: int| start <= j < i ==> wiki_at(line@, j) is None,
            start >= n ==> i >= n,
        decreases n - i,
    {
        if i >= n {
            proof {
                if start < n {
                    lemma_next_wiki_agrees(line@, start, n as int);
                }
            }
            return None;
        }
        let is_open = i + 1 < n && line.get_char(i) == '[' && line.get_char(i + 1) == '[';
        if !is_open {
            proof {
                assert(wiki_at(line@, i as int) is None);
            }
            i = i + 1;
            continue ;
        }
        // scan for the first `]` from i + 2
        let mut j: usize = i + 2;
        loop
            invariant
                i + 2 <= j <= n,
                n == line@.len(),
                forall|k: int| i + 2 <= k < j ==> line@[k] != ']',
            ensures
                i + 2 <= j <= n,
                forall|k: int| i + 2 <= k < j ==> line@[k] != ']',
                j < n ==> line@[j as int] == ']',
            decreases n - j,
        {
            if j >= n {
                break ;
            }
            if line.get_char(j) == ']' {
                break ;
            }
            j = j + 1;
        }
        proof {
            crate::text::lemma_run_until_val(line@.skip(i + 2), ']', j - (i + 2));
            assert(close_from(line@, i + 2) == j);
        }
        let valid = j > i + 2 && n - j > 1 && line.get_char(j + 1) == ']';
        if !valid {
            proof {
                assert(wiki_at(line@, i as int) is None);
            }
            i = i + 1;
            continue ;
        }
        proof {
            assert(wiki_at(line@, i as int) == Some(
                (i as int, j + 2, line@.subrange(i + 2, j as int)),
            ));
            if start < i {
                lemma_next_wiki_agrees(line@, start, i as int);
            }
            assert(next_wiki_from(line@, start) == Some(
                (i as int, j + 2, line@.subrange(i + 2, j as int)),
            ));
        }
        if col >= i && col <= j + 2 {
            let name = String::from_str(line.substring_char(i + 2, j));
            return Some(name);
        }
        proof {
            assert(wiki_link_at_col(line@, col as int, start) == wiki_link_at_col(
                line@,
                col as int,
                j + 2,
            ));
            start = j + 2;
        }
        i = j + 2;
    }
}

impl App {
    /// The name of the wiki link under the editor cursor, when the
    /// cursor's line holds one spanning its column.
    pub fn get_wiki_link_under_cursor(&self) -> (r: Option<String>)
        requires
            self.wf(),
        ensures
            ({
                let b = self.buffers@[self.focused_index_spec()];
                let line = b.lines@[b.cursor_row as int]@;
                match r {
                    Some(name) => wiki_link_at_col(line, b.cursor_col as int, 0) == Some(name@),
                    None => wiki_link_at_col(line, b.cursor_col as int, 0) is None,
                }
            }),
    {
        let b = self.focused_buffer();
        let line = &b.lines[b.cursor_row];
        find_wiki_link(line.as_str(), b.cursor_col)
    }
}

} // verus!
