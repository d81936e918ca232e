//! Tokens: fragments with a leading or trailing punctuation mark split off.

use std::collections::VecDeque;
use vstd::prelude::*;
use crate::chars::{is_punct, is_punctuation, push_char};
use crate::fragments::fragments;

verus! {

/// The tokens of one fragment: a leading mark is split off and the rest kept whole;
/// failing that, a trailing mark is split off.
pub open spec fn split_fragment(f: Seq<char>) -> Seq<Seq<char>> {
    if f.len() == 0 {
        seq![]
    } else if is_punct(f[0]) {
        if f.len() > 1 {
            seq![seq![f[0]], f.drop_first()]
        } else {
            seq![seq![f[0]]]
        }
    } else if is_punct(f.last()) {
        seq![f.drop_last(), seq![f.last()]]
    } else {
        seq![f]
    }
}

/// The token sequence of a whole text.
pub open spec fn tokens_of(s: Seq<char>) -> Seq<Seq<char>> {
    fragments(s).flat_map(|f: Seq<char>| split_fragment(f))
}

/// The character sequences held by a sequence of strings.
pub open spec fn texts(v: Seq<String>) -> Seq<Seq<char>> {
    v.map_values(|s: String| s@)
}

/// A string holding `chars[from..to]`.
pub fn string_of(chars: &Vec<char>, from: usize, to: usize) -> (r: String)
    requires
        from <= to <= chars.len(),
    ensures
        r@ == chars@.subrange(from as int, to as int),
{
    let mut r = String::new();
    let mut i: usize = from;
    while i < to
        invariant
            from <= i <= to <= chars.len(),
            r@ == chars@.subrange(from as int, i as int),
        decreases to - i,
    {
        push_char(&mut r, chars[i]);
        assert(chars@.subrange(from as int, i + 1) =~= chars@.subrange(from as int, i as int).push(
            chars@[i as int],
        ));
        i = i + 1;
    }
    r
}

/// Appends the tokens of fragment `f` to `tokens`.
pub fn push_fragment_tokens(f: &Vec<char>, tokens: &mut VecDeque<String>)
    ensures
        texts(final(tokens)@) == texts(old(tokens)@) + split_fragment(f@),
{
    let n = f.len();
    let ghost start = tokens@;
    if n == 0 {
        assert(texts(tokens@) =~= texts(start) + split_fragment(f@));
        return;
    }
    if is_punctuation(f[0]) {
        let head = string_of(f, 0, 1);
        assert(head@ =~= seq![f@[0]]);
        tokens.push_back(head);
        if n > 1 {
            let rest = string_of(f, 1, n);
            assert(rest@ =~= f@.drop_first());
            tokens.push_back(rest);
        }
    } else if is_punctuation(f[n - 1]) {
        let body = string_of(f, 0, n - 1);
        let tail = string_of(f, n - 1, n);
        assert(body@ =~= f@.drop_last());
        assert(tail@ =~= seq![f@.last()]);
        tokens.push_back(body);
        tokens.push_back(tail);
    } else {
        let whole = string_of(f, 0, n);
        assert(whole@ =~= f@);
        tokens.push_back(whole);
    }
    assert(texts(tokens@) =~= texts(start) + split_fragment(f@));
}

} // verus!
