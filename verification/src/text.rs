//! Character and string helpers: classification, lexicographic order,
//! substring search, trimming, and line splitting, with exact
//! specifications over `Seq<char>` views.

use vstd::prelude::*;
use vstd::string::StrSliceExecFns;
use vstd::string::StringExecFns;

verus! {

/// Whitespace as this crate trims it: blank, tab, carriage return, newline.
pub open spec fn is_space(c: char) -> bool {
    c == ' ' || c == '\t' || c == '\r' || c == '\n'
}

/// Word characters recognised inside `#tag` tokens: ASCII letters,
/// digits and underscore.
pub open spec fn is_word_char(c: char) -> bool {
    ('a' <= c && c <= 'z') || ('A' <= c && c <= 'Z') || ('0' <= c && c <= '9') || c == '_'
}

pub fn char_is_space(c: char) -> (r: bool)
    ensures
        r == is_space(c),
{
    c == ' ' || c == '\t' || c == '\r' || c == '\n'
}

pub fn char_is_word(c: char) -> (r: bool)
    ensures
        r == is_word_char(c),
{
    ('a' <= c && c <= 'z') || ('A' <= c && c <= 'Z') || ('0' <= c && c <= '9') || c == '_'
}

/// Lexicographic order on character sequences, by code point, starting
/// at position `i` under the premise that everything before `i` is equal.
pub open spec fn lex_le_at(a: Seq<char>, b: Seq<char>, i: int) -> bool
    decreases a.len() - i,
{
    if i < 0 {
        false
    } else if i >= a.len() {
        true
    } else if i >= b.len() {
        false
    } else if (a[i] as u32) == (b[i] as u32) {
        lex_le_at(a, b, i + 1)
    } else {
        (a[i] as u32) < (b[i] as u32)
    }
}

/// `a` is lexicographically at most `b`, comparing code points.
pub open spec fn lex_le(a: Seq<char>, b: Seq<char>) -> bool {
    lex_le_at(a, b, 0)
}

/// Lexicographic comparison of two strings by code point.
pub fn str_le(a: &str, b: &str) -> (r: bool)
    ensures
        r == lex_le(a@, b@),
{
    let a_len = a.unicode_len();
    let b_len = b.unicode_len();
    let mut i: usize = 0;
    loop
        invariant
            i <= a_len,
            a_len == a@.len(),
            b_len == b@.len(),
            lex_le(a@, b@) == lex_le_at(a@, b@, i as int),
        decreases a_len - i,
    {
        if i >= a_len {
            return true;
        }
        if i >= b_len {
            return false;
        }
        let ca = a.get_char(i);
        let cb = b.get_char(i);
        if (ca as u32) != (cb as u32) {
            return (ca as u32) < (cb as u32);
        }
        i = i + 1;
    }
}

pub proof fn lemma_lex_le_total(a: Seq<char>, b: Seq<char>)
    ensures
        lex_le(a, b) || lex_le(b, a),
{
    lemma_lex_le_total_at(a, b, 0);
}

proof fn lemma_lex_le_total_at(a: Seq<char>, b: Seq<char>, i: int)
    requires
        0 <= i,
    ensures
        lex_le_at(a, b, i) || lex_le_at(b, a, i),
    decreases a.len() - i,
{
    if i < a.len() && i < b.len() && (a[i] as u32) == (b[i] as u32) {
        lemma_lex_le_total_at(a, b, i + 1);
    }
}

pub proof fn lemma_lex_le_trans(a: Seq<char>, b: Seq<char>, c: Seq<char>)
    requires
        lex_le(a, b),
        lex_le(b, c),
    ensures
        lex_le(a, c),
{
    lemma_lex_le_trans_at(a, b, c, 0);
}

proof fn lemma_lex_le_trans_at(a: Seq<char>, b: Seq<char>, c: Seq<char>, i: int)
    requires
        0 <= i,
        lex_le_at(a, b, i),
        lex_le_at(b, c, i),
    ensures
        lex_le_at(a, c, i),
    decreases a.len() - i,
{
    if i < a.len() {
        if i < b.len() && i < c.len() && (a[i] as u32) == (b[i] as u32) && (b[i] as u32) == (
        c[i] as u32) {
            lemma_lex_le_trans_at(a, b, c, i + 1);
        }
    }
}

/// The views of the strings in `v` are sorted lexicographically.
pub open spec fn sorted_strs(v: Seq<String>) -> bool {
    forall|i: int, j: int| 0 <= i < j < v.len() ==> lex_le(v[i]@, v[j]@)
}

/// No two strings in `v` are equal.
pub open spec fn unique_strs(v: Seq<String>) -> bool {
    forall|i: int, j: int| 0 <= i < j < v.len() ==> v[i]@ != v[j]@
}

/// Whether some string in `v` views to `x`.
pub open spec fn seq_contains_view(v: Seq<String>, x: Seq<char>) -> bool {
    exists|k: int| 0 <= k < v.len() && v[k]@ == x
}

/// Insert `s` into the sorted vector `v`, keeping it sorted; equal
/// strings land after their duplicates.
pub fn insert_sorted(v: &mut Vec<String>, s: String)
    requires
        sorted_strs(old(v)@),
    ensures
        sorted_strs(final(v)@),
        final(v)@.to_multiset() == old(v)@.to_multiset().insert(s),
        exists|k: int| 0 <= k <= old(v)@.len() && final(v)@ == old(v)@.insert(k, s),
{
    broadcast use vstd::seq_lib::group_to_multiset_ensures;

    let mut idx: usize = 0;
    let n = v.len();
    loop
        invariant
            idx <= n,
            n == v@.len(),
            v == old(v),
            forall|k: int| 0 <= k < idx ==> lex_le(v@[k]@, s@),
        ensures
            idx <= n,
            v == old(v),
            forall|k: int| 0 <= k < idx ==> lex_le(v@[k]@, s@),
            idx < n ==> !lex_le(v@[idx as int]@, s@),
        decreases n - idx,
    {
        if idx >= n {
            break;
        }
        if !str_le(v[idx].as_str(), s.as_str()) {
            break;
        }
        idx = idx + 1;
    }
    proof {
        if idx < v@.len() {
            lemma_lex_le_total(v@[idx as int]@, s@);
        }
        assert forall|k: int| idx <= k < v@.len() implies lex_le(s@, v@[k]@) by {
            if idx < v@.len() {
                if k > idx {
                    lemma_lex_le_trans(s@, v@[idx as int]@, v@[k]@);
                }
            }
        }
    }
    let ghost pre = v@;
    v.insert(idx, s);
    proof {
        broadcast use vstd::seq_lib::group_to_multiset_ensures;

        assert forall|i: int, j: int| 0 <= i < j < v@.len() implies lex_le(v@[i]@, v@[j]@) by {
            let ii = if i < idx {
                i
            } else {
                i - 1
            };
            let jj = if j <= idx {
                j
            } else {
                j - 1
            };
            if i != idx && j != idx {
                assert(v@[i] == pre[ii] && v@[j] == pre[jj]);
            }
        }
        assert(0 <= idx <= pre.len() && v@ == pre.insert(idx as int, s));
    }
}

/// Insert `s` into the sorted duplicate-free vector `v`, keeping it
/// sorted and duplicate-free; an `s` already present is dropped.
pub fn insert_sorted_unique(v: &mut Vec<String>, s: String)
    requires
        sorted_strs(old(v)@),
        unique_strs(old(v)@),
    ensures
        sorted_strs(final(v)@),
        unique_strs(final(v)@),
        forall|x: Seq<char>|
            #[trigger] seq_contains_view(final(v)@, x) <==> seq_contains_view(old(v)@, x) || x
                == s@,
{
    let n = v.len();
    let mut i: usize = 0;
    while i < n
        invariant
            i <= n,
            n == v@.len(),
            forall|k: int| 0 <= k < i ==> v@[k]@ != s@,
            v == old(v),
            sorted_strs(v@),
            unique_strs(v@),
        decreases n - i,
    {
        if v[i].eq(&s) {
            proof {
                assert(seq_contains_view(v@, s@));
                assert forall|x: Seq<char>|
                    #[trigger] seq_contains_view(v@, x) <==> seq_contains_view(old(v)@, x) || x
                        == s@ by {}
            }
            return ;
        }
        i = i + 1;
    }
    let ghost pre = v@;
    insert_sorted(v, s);
    proof {
        let k = choose|k: int| 0 <= k <= pre.len() && v@ == pre.insert(k, s);
        assert forall|i2: int, j2: int| 0 <= i2 < j2 < v@.len() implies v@[i2]@ != v@[j2]@ by {
            let ii = if i2 < k {
                i2
            } else {
                i2 - 1
            };
            let jj = if j2 <= k {
                j2
            } else {
                j2 - 1
            };
            if i2 != k && j2 != k {
                assert(v@[i2] == pre[ii] && v@[j2] == pre[jj]);
            } else if i2 == k {
                assert(v@[i2] == s && v@[j2] == pre[jj]);
            } else {
                assert(v@[j2] == s && v@[i2] == pre[ii]);
            }
        }
        assert forall|x: Seq<char>|
            #[trigger] seq_contains_view(v@, x) <==> seq_contains_view(pre, x) || x == s@ by {
            if seq_contains_view(v@, x) {
                let m = choose|m: int| 0 <= m < v@.len() && v@[m]@ == x;
                if m == k {
                } else {
                    let mm = if m < k {
                        m
                    } else {
                        m - 1
                    };
                    assert(pre[mm]@ == x);
                }
            }
            if seq_contains_view(pre, x) {
                let m = choose|m: int| 0 <= m < pre.len() && pre[m]@ == x;
                let mm = if m < k {
                    m
                } else {
                    m + 1
                };
                assert(v@[mm]@ == x);
            }
            if x == s@ {
                assert(v@[k]@ == x);
            }
        }
    }
}

/// `p` occurs in `s` starting at position `i`.
pub open spec fn matches_at(s: Seq<char>, p: Seq<char>, i: int) -> bool {
    0 <= i && i + p.len() <= s.len() && s.subrange(i, i + p.len() as int) == p
}

/// `p` occurs somewhere in `s`.
pub open spec fn contains_seq(s: Seq<char>, p: Seq<char>) -> bool {
    exists|i: int| matches_at(s, p, i)
}

pub open spec fn starts_with_seq(s: Seq<char>, p: Seq<char>) -> bool {
    p.len() <= s.len() && s.subrange(0, p.len() as int) == p
}

pub open spec fn ends_with_seq(s: Seq<char>, p: Seq<char>) -> bool {
    p.len() <= s.len() && s.subrange(s.len() - p.len(), s.len() as int) == p
}

/// Whether `p` occurs in `s` at exactly position `i` (executable form).
pub fn str_matches_at(s: &str, p: &str, i: usize) -> (r: bool)
    requires
        i + p@.len() <= s@.len(),
    ensures
        r == matches_at(s@, p@, i as int),
{
    let s_len = s.unicode_len();
    let p_len = p.unicode_len();
    let mut j: usize = 0;
    while j < p_len
        invariant
            j <= p_len,
            p_len == p@.len(),
            s_len == s@.len(),
            i + p@.len() <= s@.len(),
            forall|k: int| 0 <= k < j ==> s@[i + k] == p@[k],
        decreases p_len - j,
    {
        if s.get_char(i + j) != p.get_char(j) {
            assert(s@.subrange(i as int, i + p@.len() as int)[j as int] != p@[j as int]);
            return false;
        }
        j = j + 1;
    }
    proof {
        assert(s@.subrange(i as int, i + p@.len() as int) =~= p@);
    }
    true
}

/// First position at or after `from` where `p` occurs in `s`, if any.
pub fn str_find_from(s: &str, p: &str, from: usize) -> (r: Option<usize>)
    requires
        from <= s@.len(),
    ensures
        match r {
            Some(i) => from <= i && matches_at(s@, p@, i as int) && forall|j: int|
                from <= j < i ==> !matches_at(s@, p@, j),
            None => forall|j: int| from <= j ==> !matches_at(s@, p@, j),
        },
{
    let s_len = s.unicode_len();
    let p_len = p.unicode_len();
    if p_len > s_len {
        return None;
    }
    if p_len == 0 {
        proof {
            assert(s@.subrange(from as int, from as int) =~= p@);
        }
        return Some(from);
    }
    let mut i: usize = from;
    while i <= s_len - p_len
        invariant
            from <= i <= s_len,
            1 <= p_len <= s_len,
            s_len == s@.len(),
            p_len == p@.len(),
            forall|j: int| from <= j < i ==> !matches_at(s@, p@, j),
        decreases s_len - i,
    {
        if str_matches_at(s, p, i) {
            return Some(i);
        }
        i = i + 1;
    }
    assert forall|j: int| from <= j implies !matches_at(s@, p@, j) by {
        if j >= i {
            assert(j + p@.len() > s@.len());
        }
    }
    None
}

/// Whether `p` occurs anywhere in `s`.
pub fn str_contains(s: &str, p: &str) -> (r: bool)
    ensures
        r == contains_seq(s@, p@),
{
    match str_find_from(s, p, 0) {
        Some(_) => true,
        None => false,
    }
}

pub fn str_starts_with(s: &str, p: &str) -> (r: bool)
    ensures
        r == starts_with_seq(s@, p@),
{
    let s_len = s.unicode_len();
    let p_len = p.unicode_len();
    if p_len > s_len {
        return false;
    }
    str_matches_at(s, p, 0)
}

pub fn str_ends_with(s: &str, p: &str) -> (r: bool)
    ensures
        r == ends_with_seq(s@, p@),
{
    let s_len = s.unicode_len();
    let p_len = p.unicode_len();
    if p_len > s_len {
        return false;
    }
    str_matches_at(s, p, s_len - p_len)
}

/// Number of leading whitespace characters of `s`.
pub open spec fn leading_spaces(s: Seq<char>) -> int
    decreases s.len(),
{
    if s.len() > 0 && is_space(s[0]) {
        1 + leading_spaces(s.skip(1))
    } else {
        0
    }
}

/// Number of trailing whitespace characters of `s`.
pub open spec fn trailing_spaces(s: Seq<char>) -> int
    decreases s.len(),
{
    if s.len() > 0 && is_space(s.last()) {
        1 + trailing_spaces(s.drop_last())
    } else {
        0
    }
}

/// `s` with leading and trailing whitespace removed.
pub open spec fn trim_seq(s: Seq<char>) -> Seq<char> {
    let t = s.skip(leading_spaces(s));
    t.take(t.len() - trailing_spaces(t))
}

/// `s` with leading whitespace removed.
pub open spec fn trim_start_seq(s: Seq<char>) -> Seq<char> {
    s.skip(leading_spaces(s))
}

proof fn lemma_leading_spaces_bound(s: Seq<char>)
    ensures
        0 <= leading_spaces(s) <= s.len(),
        forall|i: int| 0 <= i < leading_spaces(s) ==> is_space(s[i]),
        leading_spaces(s) < s.len() ==> !is_space(s[leading_spaces(s)]),
    decreases s.len(),
{
    if s.len() > 0 && is_space(s[0]) {
        lemma_leading_spaces_bound(s.skip(1));
        assert forall|i: int| 0 <= i < leading_spaces(s) implies is_space(s[i]) by {
            if i > 0 {
                assert(s.skip(1)[i - 1] == s[i]);
            }
        }
        if leading_spaces(s) < s.len() {
            assert(s.skip(1)[leading_spaces(s) - 1] == s[leading_spaces(s)]);
        }
    }
}

proof fn lemma_leading_spaces_val(s: Seq<char>, k: int)
    requires
        0 <= k <= s.len(),
        forall|i: int| 0 <= i < k ==> is_space(s[i]),
        k < s.len() ==> !is_space(s[k]),
    ensures
        leading_spaces(s) == k,
    decreases s.len(),
{
    if s.len() > 0 && is_space(s[0]) {
        assert(k > 0);
        lemma_leading_spaces_val(s.skip(1), k - 1);
    }
}

proof fn lemma_trailing_spaces_val(s: Seq<char>, k: int)
    requires
        0 <= k <= s.len(),
        forall|i: int| s.len() - k <= i < s.len() ==> is_space(s[i]),
        k < s.len() ==> !is_space(s[s.len() - k - 1]),
    ensures
        trailing_spaces(s) == k,
    decreases s.len(),
{
    if s.len() > 0 && is_space(s.last()) {
        assert(k > 0);
        lemma_trailing_spaces_val(s.drop_last(), k - 1);
    }
}

/// Index of the first non-whitespace character of `s` (its length when
/// `s` is all whitespace).
pub fn find_trim_start(s: &str) -> (r: usize)
    ensures
        r == leading_spaces(s@),
{
    let s_len = s.unicode_len();
    let mut i: usize = 0;
    while i < s_len
        invariant
            i <= s_len,
            s_len == s@.len(),
            forall|j: int| 0 <= j < i ==> is_space(s@[j]),
        decreases s_len - i,
    {
        if !char_is_space(s.get_char(i)) {
            proof {
                lemma_leading_spaces_val(s@, i as int);
            }
            return i;
        }
        i = i + 1;
    }
    proof {
        lemma_leading_spaces_val(s@, s@.len() as int);
    }
    s_len
}

/// `s` with leading and trailing whitespace removed.
pub fn trim(s: &str) -> (r: String)
    ensures
        r@ == trim_seq(s@),
{
    let s_len = s.unicode_len();
    let start = find_trim_start(s);
    let mut end: usize = s_len;
    proof {
        lemma_leading_spaces_bound(s@);
    }
    loop
        invariant
            start <= end <= s_len,
            s_len == s@.len(),
            start == leading_spaces(s@),
            forall|j: int| end <= j < s@.len() ==> is_space(s@[j]),
        ensures
            start <= end <= s_len,
            forall|j: int| end <= j < s@.len() ==> is_space(s@[j]),
            end > start ==> !is_space(s@[end - 1]),
        decreases end,
    {
        if end == start {
            break;
        }
        if !char_is_space(s.get_char(end - 1)) {
            break;
        }
        end = end - 1;
    }
    let sub = s.substring_char(start, end);
    proof {
        let t = s@.skip(start as int);
        assert forall|j: int| t.len() - (s@.len() - end) <= j < t.len() implies is_space(
            t[j],
        ) by {
            assert(t[j] == s@[j + start]);
        }
        if (s@.len() - end) < t.len() {
            assert(t[t.len() - (s@.len() - end) - 1] == s@[end - 1]);
        }
        lemma_trailing_spaces_val(t, s@.len() - end);
        assert(sub@ =~= trim_seq(s@));
    }
    String::from_str(sub)
}

/// `s` with leading whitespace removed.
pub fn trim_start(s: &str) -> (r: String)
    ensures
        r@ == trim_start_seq(s@),
{
    let s_len = s.unicode_len();
    let start = find_trim_start(s);
    proof {
        lemma_leading_spaces_bound(s@);
    }
    let sub = s.substring_char(start, s_len);
    proof {
        assert(sub@ =~= trim_start_seq(s@));
    }
    String::from_str(sub)
}

/// Length of the first line of `s`: the number of characters before the
/// first newline, or all of `s` when it has none.
pub open spec fn line_break(s: Seq<char>) -> int
    decreases s.len(),
{
    if s.len() == 0 {
        0
    } else if s[0] == '\n' {
        0
    } else {
        1 + line_break(s.skip(1))
    }
}

/// A line with a trailing carriage return removed, as `str::lines` does.
pub open spec fn strip_cr(l: Seq<char>) -> Seq<char> {
    if l.len() > 0 && l.last() == '\r' {
        l.drop_last()
    } else {
        l
    }
}

/// The lines of `s`: split at every newline, strip one trailing carriage
/// return per line, and do not count a final newline as opening an empty
/// last line.
pub open spec fn split_lines_seq(s: Seq<char>) -> Seq<Seq<char>>
    decreases s.len(),
    via split_lines_seq_dec
{
    if s.len() == 0 {
        Seq::empty()
    } else {
        let k = line_break(s);
        if 0 <= k < s.len() {
            seq![strip_cr(s.take(k))] + split_lines_seq(s.skip(k + 1))
        } else {
            seq![strip_cr(s)]
        }
    }
}

#[via_fn]
proof fn split_lines_seq_dec(s: Seq<char>) {
    lemma_line_break_bounds(s);
}

proof fn lemma_line_break_bounds(s: Seq<char>)
    ensures
        0 <= line_break(s) <= s.len(),
    decreases s.len(),
{
    if s.len() > 0 && s[0] != '\n' {
        lemma_line_break_bounds(s.skip(1));
    }
}

proof fn lemma_line_break_val(s: Seq<char>, k: int)
    requires
        0 <= k <= s.len(),
        forall|j: int| 0 <= j < k ==> s[j] != '\n',
        k < s.len() ==> s[k] == '\n',
    ensures
        line_break(s) == k,
    decreases s.len(),
{
    if s.len() > 0 && s[0] != '\n' {
        assert(k > 0);
        lemma_line_break_val(s.skip(1), k - 1);
    }
}

/// The views of a vector of strings.
pub open spec fn views_of(v: Seq<String>) -> Seq<Seq<char>> {
    v.map_values(|l: String| l@)
}

/// Split `s` into its lines, as `str::lines` does.
pub fn split_lines(s: &str) -> (r: Vec<String>)
    ensures
        views_of(r@) == split_lines_seq(s@),
{
    let s_len = s.unicode_len();
    let mut out: Vec<String> = Vec::new();
    let mut pos: usize = 0;
    proof {
        assert(s@.skip(0) =~= s@);
    }
    while pos < s_len
        invariant
            pos <= s_len,
            s_len == s@.len(),
            split_lines_seq(s@) =~= views_of(out@) + split_lines_seq(s@.skip(pos as int)),
        decreases s_len - pos,
    {
        let ghost tail = s@.skip(pos as int);
        let nl = str_find_from(s, "\n", pos);
        let end: usize = match nl {
            Some(i) => i,
            None => s_len,
        };
        proof {
            reveal_strlit("\n");
            assert forall|j: int| 0 <= j < end - pos implies tail[j] != '\n' by {
                assert(tail[j] == s@[pos + j]);
                if s@[pos + j] == '\n' {
                    assert(s@.subrange(pos + j, pos + j + 1) =~= "\n"@);
                    assert(matches_at(s@, "\n"@, pos + j));
                    assert(false);
                }
            }
            if end < s_len {
                assert(matches_at(s@, "\n"@, end as int));
                assert(s@.subrange(end as int, end + 1)[0] == s@[end as int]);
                assert(tail[end - pos] == '\n');
            }
            lemma_line_break_val(tail, end - pos);
        }
        let mut line_end = end;
        if line_end > pos && s.get_char(line_end - 1) == '\r' {
            line_end = line_end - 1;
        }
        let line = s.substring_char(pos, line_end);
        out.push(String::from_str(line));
        proof {
            let k = end - pos;
            if k < tail.len() {
                assert(split_lines_seq(tail) =~= seq![strip_cr(tail.take(k))]
                    + split_lines_seq(tail.skip(k + 1)));
                assert(tail.take(k) =~= s@.subrange(pos as int, end as int));
                assert(tail.skip(k + 1) =~= s@.skip(end + 1));
            } else {
                assert(split_lines_seq(tail) =~= seq![strip_cr(tail)]);
                assert(tail =~= s@.subrange(pos as int, end as int));
            }
            assert(line@ =~= strip_cr(s@.subrange(pos as int, end as int)));
            if end < s_len {
                assert(views_of(out@) =~= views_of(out@.drop_last()) + seq![line@]);
            } else {
                assert(s@.skip(s@.len() as int) =~= Seq::<char>::empty());
                assert(views_of(out@) =~= views_of(out@.drop_last()) + seq![line@]);
            }
        }
        pos = if end < s_len {
            end + 1
        } else {
            s_len
        };
    }
    proof {
        assert(s@.skip(pos as int) =~= Seq::<char>::empty());
        assert(views_of(out@) =~= split_lines_seq(s@));
    }
    out
}

/// The lines joined with a single newline between them.
pub open spec fn join_lines_seq(lines: Seq<Seq<char>>) -> Seq<char>
    decreases lines.len(),
{
    if lines.len() == 0 {
        Seq::empty()
    } else if lines.len() == 1 {
        lines[0]
    } else {
        lines[0] + seq!['\n'] + join_lines_seq(lines.skip(1))
    }
}

/// Join `lines` with single newlines, as the editor writes a buffer out.
pub fn join_lines(lines: &Vec<String>) -> (r: String)
    ensures
        r@ == join_lines_seq(views_of(lines@)),
{
    let mut out = String::new();
    let n = lines.len();
    if n == 0 {
        return out;
    }
    let mut i: usize = 0;
    while i < n
        invariant
            i <= n,
            n == lines@.len(),
            n > 0,
            i == 0 ==> out@ =~= Seq::<char>::empty(),
            0 < i < n ==> join_lines_seq(views_of(lines@)) =~= out@ + seq!['\n']
                + join_lines_seq(views_of(lines@).skip(i as int)),
            i == n ==> join_lines_seq(views_of(lines@)) =~= out@,
        decreases n - i,
    {
        if i > 0 {
            out.append("\n");
        }
        out.append(lines[i].as_str());
        proof {
            reveal_strlit("\n");
            let vs = views_of(lines@);
            assert(vs.skip(i as int)[0] == lines@[i as int]@);
            if i + 1 < n {
                assert(vs.skip(i as int).len() > 1);
                assert(vs.skip(i as int).skip(1) =~= vs.skip(i + 1));
                assert(join_lines_seq(vs.skip(i as int)) =~= vs[i as int] + seq!['\n']
                    + join_lines_seq(vs.skip(i + 1)));
            } else {
                assert(vs.skip(i as int).len() == 1);
                assert(join_lines_seq(vs.skip(i as int)) =~= vs[i as int]);
            }
            if i == 0 {
                assert(vs.skip(0) =~= vs);
                assert(join_lines_seq(vs) =~= join_lines_seq(vs.skip(0)));
            }
        }
        i = i + 1;
    }
    out
}

/// Index of the first occurrence of `c` in `s`, or the length of `s`.
pub open spec fn run_until(s: Seq<char>, c: char) -> int
    decreases s.len(),
{
    if s.len() == 0 {
        0
    } else if s[0] == c {
        0
    } else {
        1 + run_until(s.skip(1), c)
    }
}

/// Everything before the first occurrence of `c`; all of `s` when `c`
/// does not occur.
pub open spec fn before_first(s: Seq<char>, c: char) -> Seq<char> {
    s.take(run_until(s, c))
}

pub proof fn lemma_run_until_val(s: Seq<char>, c: char, k: int)
    requires
        0 <= k <= s.len(),
        forall|j: int| 0 <= j < k ==> s[j] != c,
        k < s.len() ==> s[k] == c,
    ensures
        run_until(s, c) == k,
    decreases s.len(),
{
    if s.len() > 0 && s[0] != c {
        assert(k > 0);
        lemma_run_until_val(s.skip(1), c, k - 1);
    }
}

/// Everything before the first occurrence of `c` (executable form).
pub fn up_to_first(s: &str, c: char) -> (r: String)
    ensures
        r@ == before_first(s@, c),
{
    let s_len = s.unicode_len();
    let mut i: usize = 0;
    while i < s_len
        invariant
            i <= s_len,
            s_len == s@.len(),
            forall|j: int| 0 <= j < i ==> s@[j] != c,
        decreases s_len - i,
    {
        if s.get_char(i) == c {
            proof {
                lemma_run_until_val(s@, c, i as int);
            }
            return String::from_str(s.substring_char(0, i));
        }
        i = i + 1;
    }
    proof {
        lemma_run_until_val(s@, c, s@.len() as int);
        assert(s@.take(s@.len() as int) =~= s@);
    }
    String::from_str(s)
}

/// ASCII lowercase of one character; other characters are unchanged.
pub open spec fn ascii_lower(c: char) -> char {
    if 'A' <= c && c <= 'Z' {
        (((c as u32) + 32) as char)
    } else {
        c
    }
}

/// ASCII uppercase of one character; other characters are unchanged.
pub open spec fn ascii_upper(c: char) -> char {
    if 'a' <= c && c <= 'z' {
        (((c as u32) - 32) as char)
    } else {
        c
    }
}

pub open spec fn ascii_lower_seq(s: Seq<char>) -> Seq<char> {
    s.map_values(|c: char| ascii_lower(c))
}

pub open spec fn ascii_upper_seq(s: Seq<char>) -> Seq<char> {
    s.map_values(|c: char| ascii_upper(c))
}

/// What `str::to_lowercase` returns: a pure function of the characters
/// alone, left unspecified here.
pub uninterp spec fn lower_of(s: Seq<char>) -> Seq<char>;

/// Relies on `str::to_lowercase`: the result depends on the characters
/// alone, an empty string stays empty, and on a fully ASCII string it
/// is exactly the ASCII lowercase mapping (ASCII letters fold, other
/// ASCII characters pass through one to one).
#[verifier::external_body]
pub(crate) fn lowercase(s: &str) -> (r: String)
    ensures
        r@ == lower_of(s@),
        s@.len() == 0 ==> r@.len() == 0,
        (forall|i: int| 0 <= i < s@.len() ==> (s@[i] as u32) < 128) ==> r@ == ascii_lower_seq(
            s@,
        ),
{
    s.to_lowercase()
}

/// Relies on `String::push`: appends one character at the end.
#[verifier::external_body]
pub(crate) fn push_char(s: &mut String, c: char)
    ensures
        final(s)@ == old(s)@.push(c),
{
    s.push(c)
}

/// Relies on `String::pop`: removes and returns the last character, or
/// leaves an empty string unchanged.
#[verifier::external_body]
pub(crate) fn pop_char(s: &mut String) -> (r: Option<char>)
    ensures
        old(s)@.len() == 0 ==> final(s)@ == old(s)@ && r is None,
        old(s)@.len() > 0 ==> final(s)@ == old(s)@.drop_last() && r == Some(old(s)@.last()),
{
    s.pop()
}

} // verus!
