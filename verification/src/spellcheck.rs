//! Spellchecking against a word list the caller loaded; the dictionary
//! lives lowercased, and lookups fold case.

use vstd::prelude::*;
use vstd::string::StrSliceExecFns;
use vstd::string::StringExecFns;

use crate::text::lower_of;
use crate::text::lowercase;
use crate::text::seq_contains_view;
use crate::text::split_lines_seq;
use crate::text::trim_seq;
use crate::text::views_of;

verus! {

/// Whether a character counts as alphabetic: what
/// `char::is_alphabetic` returns, a function of the character alone,
/// left unspecified here.
pub uninterp spec fn alpha_of(c: char) -> bool;

/// Relies on `char::is_alphabetic`: the result depends on the
/// character alone.
#[verifier::external_body]
fn char_is_alphabetic(c: char) -> (r: bool)
    ensures
        r == alpha_of(c),
{
    c.is_alphabetic()
}

/// A word is sound for the dictionary: longer than one character and
/// alphabetic throughout.
pub open spec fn dict_word_ok(w: Seq<char>) -> bool {
    w.len() > 1 && forall|i: int| 0 <= i < w.len() ==> alpha_of(w[i])
}

/// The part of a dictionary line that is the word: everything before
/// the first `/` (affix markers follow it), trimmed.
pub open spec fn dict_word_of_line(l: Seq<char>) -> Seq<char> {
    trim_seq(crate::text::before_first(l, '/'))
}

/// The sound words of a dictionary file, in line order.
pub open spec fn dict_words_of(content: Seq<char>) -> Seq<Seq<char>> {
    dict_words_of_lines(split_lines_seq(content))
}

pub open spec fn dict_words_of_lines(lines: Seq<Seq<char>>) -> Seq<Seq<char>>
    decreases lines.len(),
{
    if lines.len() == 0 {
        Seq::empty()
    } else {
        dict_words_of_lines(lines.drop_last()) + if dict_word_ok(dict_word_of_line(lines.last())) {
            seq![dict_word_of_line(lines.last())]
        } else {
            Seq::empty()
        }
    }
}

/// Extract the sound words of a dictionary file's text.
pub fn dict_words(content: &str) -> (r: Vec<String>)
    ensures
        views_of(r@) == dict_words_of(content@),
{
    let lines = crate::text::split_lines(content);
    let n = lines.len();
    let mut out: Vec<String> = Vec::new();
    proof {
        assert(views_of(lines@).take(0) =~= Seq::<Seq<char>>::empty());
        assert(views_of(out@) =~= dict_words_of_lines(views_of(lines@).take(0)));
    }
    let mut i: usize = 0;
    while i < n
        invariant
            i <= n,
            n == lines@.len(),
            views_of(lines@) == split_lines_seq(content@),
            views_of(out@) =~= dict_words_of_lines(views_of(lines@).take(i as int)),
        decreases n - i,
    {
        let ghost pre = out@;
        let head = crate::text::up_to_first(lines[i].as_str(), '/');
        let word = crate::text::trim(head.as_str());
        let w_len = word.as_str().unicode_len();
        let mut ok = w_len > 1;
        let mut j: usize = 0;
        while j < w_len
            invariant
                j <= w_len,
                w_len == word@.len(),
                ok == (w_len > 1 && forall|k: int| 0 <= k < j ==> alpha_of(word@[k])),
            decreases w_len - j,
        {
            if !char_is_alphabetic(word.as_str().get_char(j)) {
                ok = false;
            }
            j = j + 1;
        }
        if ok {
            out.push(word);
        }
        proof {
            let vs = views_of(lines@);
            assert(vs.take(i + 1).drop_last() =~= vs.take(i as int));
            assert(vs.take(i + 1).last() == vs[i as int]);
            if ok {
                assert(views_of(out@) =~= views_of(pre) + seq![
                    dict_word_of_line(vs[i as int]),
                ]);
            }
        }
        i = i + 1;
    }
    proof {
        assert(views_of(lines@).take(n as int) =~= views_of(lines@));
    }
    out
}

/// A spellchecker over a lowercased word list.
pub struct Spellchecker {
    pub dict: Vec<String>,
}

impl Spellchecker {
    /// Build a spellchecker from raw dictionary words (as `dict_words`
    /// extracts them); each is stored lowercased.
    pub fn new(words: Vec<String>) -> (r: Spellchecker)
        ensures
            views_of(r.dict@) == views_of(words@).map_values(|w: Seq<char>| lower_of(w)),
    {
        let n = words.len();
        let mut dict: Vec<String> = Vec::new();
        let mut i: usize = 0;
        while i < n
            invariant
                i <= n,
                n == words@.len(),
                views_of(dict@) =~= views_of(words@).take(i as int).map_values(
                    |w: Seq<char>| lower_of(w),
                ),
            decreases n - i,
        {
            dict.push(lowercase(words[i].as_str()));
            proof {
                assert(views_of(words@).take(i + 1).map_values(|w: Seq<char>| lower_of(w))
                    =~= views_of(words@).take(i as int).map_values(|w: Seq<char>| lower_of(w))
                    + seq![lower_of(words@[i as int]@)]);
            }
            i = i + 1;
        }
        proof {
            assert(views_of(words@).take(n as int) =~= views_of(words@));
        }
        Spellchecker { dict }
    }

    /// A word passes when it is empty, carries any non-alphabetic
    /// character, or its lowercase form is in the dictionary.
    pub fn check(&self, word: &str) -> (r: bool)
        ensures
            r == (word@.len() == 0 || (exists|i: int| 0 <= i < word@.len() && !alpha_of(word@[i]))
                || seq_contains_view(self.dict@, lower_of(word@))),
    {
        let w_len = word.unicode_len();
        if w_len == 0 {
            return true;
        }
        let mut i: usize = 0;
        while i < w_len
            invariant
                i <= w_len,
                w_len == word@.len(),
                forall|k: int| 0 <= k < i ==> alpha_of(word@[k]),
            decreases w_len - i,
        {
            if !char_is_alphabetic(word.get_char(i)) {
                return true;
            }
            i = i + 1;
        }
        let lowered = lowercase(word);
        let n = self.dict.len();
        let mut j: usize = 0;
        while j < n
            invariant
                j <= n,
                n == self.dict@.len(),
                lowered@ == lower_of(word@),
                forall|k: int| 0 <= k < j ==> self.dict@[k]@ != lower_of(word@),
            decreases n - j,
    {
            if self.dict[j].eq(&lowered) {
                proof {
                    assert(seq_contains_view(self.dict@, lower_of(word@)));
                }
                return true;
            }
            j = j + 1;
        }
        proof {
            if seq_contains_view(self.dict@, lower_of(word@)) {
                let k = choose|k: int|
                    0 <= k < self.dict@.len() && self.dict@[k]@ == lower_of(word@);
                assert(false);
            }
        }
        false
    }
}

} // verus!
