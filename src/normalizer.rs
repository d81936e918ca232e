//! Case-folded word forms and their insertion-ordered set.

use std::collections::VecDeque;
use vstd::prelude::*;
use crate::chars::{alphabetic, is_alphabetic, lower_of, lowercase};
use crate::fragments::char_vec;
use crate::tokenizer::{string_of, texts};

verus! {

/// `s` without its leading non-alphabetic characters.
pub open spec fn strip_front(s: Seq<char>) -> Seq<char>
    decreases s.len(),
{
    if s.len() > 0 && !alphabetic(s[0]) {
        strip_front(s.drop_first())
    } else {
        s
    }
}

/// `s` without its trailing non-alphabetic characters.
pub open spec fn strip_back(s: Seq<char>) -> Seq<char>
    decreases s.len(),
{
    if s.len() > 0 && !alphabetic(s.last()) {
        strip_back(s.drop_last())
    } else {
        s
    }
}

/// `s` without the non-alphabetic characters at either end.
pub open spec fn strip(s: Seq<char>) -> Seq<char> {
    strip_back(strip_front(s))
}

/// The normalized form of a token: stripped, then lowercased.
pub open spec fn normalized(s: Seq<char>) -> Seq<char> {
    lower_of(strip(s))
}

/// The distinct non-empty members of `ws`, in order of first occurrence.
pub open spec fn unique_of(ws: Seq<Seq<char>>) -> Seq<Seq<char>>
    decreases ws.len(),
{
    if ws.len() == 0 {
        seq![]
    } else {
        let u = unique_of(ws.drop_last());
        let w = ws.last();
        if w.len() == 0 || u.contains(w) {
            u
        } else {
            u.push(w)
        }
    }
}

/// The unique word set of a token sequence.
pub open spec fn unique_words_of(tokens: Seq<Seq<char>>) -> Seq<Seq<char>> {
    unique_of(tokens.map_values(|t: Seq<char>| normalized(t)))
}

/// `token` without the non-alphabetic characters at either end.
pub fn strip_non_alphabetic(token: &str) -> (r: String)
    ensures
        r@ == strip(token@),
{
    let chars = char_vec(token);
    let n = chars.len();
    let mut lo: usize = 0;
    assert(chars@.subrange(0, n as int) =~= chars@);
    while lo < n && !is_alphabetic(chars[lo])
        invariant
            lo <= n == chars.len(),
            strip_front(chars@) == strip_front(chars@.subrange(lo as int, n as int)),
        decreases n - lo,
    {
        assert(chars@.subrange(lo as int, n as int).drop_first() =~= chars@.subrange(
            lo + 1,
            n as int,
        ));
        lo = lo + 1;
    }
    assert(strip_front(chars@.subrange(lo as int, n as int)) == chars@.subrange(lo as int, n as int));
    let mut hi: usize = n;
    while hi > lo && !is_alphabetic(chars[hi - 1])
        invariant
            lo <= hi <= n == chars.len(),
            strip(chars@) == strip_back(chars@.subrange(lo as int, hi as int)),
        decreases hi - lo,
    {
        assert(chars@.subrange(lo as int, hi as int).drop_last() =~= chars@.subrange(
            lo as int,
            hi - 1,
        ));
        hi = hi - 1;
    }
    string_of(&chars, lo, hi)
}

/// The normalized form of `token`: its alphabetic core, lowercased.
pub fn normalize(token: &str) -> (r: String)
    ensures
        r@ == normalized(token@),
{
    let stripped = strip_non_alphabetic(token);
    lowercase(stripped.as_str())
}

/// Adds the normalized form `word` to `unique` unless it is empty or already there.
pub fn add_unique(unique: &mut VecDeque<String>, word: String)
    ensures
        texts(final(unique)@) == if word@.len() == 0 || texts(old(unique)@).contains(word@) {
            texts(old(unique)@)
        } else {
            texts(old(unique)@).push(word@)
        },
{
    if word.as_str().is_empty() {
        return;
    }
    let ghost u = texts(unique@);
    let mut k: usize = 0;
    while k < unique.len()
        invariant
            u == texts(unique@),
            k <= unique.len(),
            forall|i: int| 0 <= i < k ==> u[i] != word@,
        decreases unique.len() - k,
    {
        if unique[k] == word {
            assert(u[k as int] == word@);
            return;
        }
        k = k + 1;
    }
    unique.push_back(word);
    assert(texts(unique@) =~= u.push(word@));
}

} // verus!
