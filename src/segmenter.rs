//! Sentences: runs of fragments that end at a sentence-terminal mark.

use vstd::prelude::*;
use crate::chars::{is_terminal, push_char};
use crate::fragments::fragments;

verus! {

/// The sentences completed so far and the sentence under way, after reading the
/// fragments `ws`; the words of a sentence are joined by single spaces.
pub open spec fn sentence_scan(ws: Seq<Seq<char>>) -> (Seq<Seq<char>>, Seq<char>)
    decreases ws.len(),
{
    if ws.len() == 0 {
        (seq![], seq![])
    } else {
        let (done, cur) = sentence_scan(ws.drop_last());
        let w = ws.last();
        let buf = if cur.len() == 0 {
            w
        } else {
            cur + seq![' '] + w
        };
        if w.len() > 0 && is_terminal(w.last()) {
            (done.push(buf), seq![])
        } else {
            (done, buf)
        }
    }
}

/// The sentence sequence of a whole text; a trailing fragment without a terminal mark
/// still forms a last sentence.
pub open spec fn sentences_of(s: Seq<char>) -> Seq<Seq<char>> {
    let (done, cur) = sentence_scan(fragments(s));
    if cur.len() > 0 {
        done.push(cur)
    } else {
        done
    }
}

/// Appends the characters of `chars` to `s`.
pub fn push_chars(s: &mut String, chars: &Vec<char>)
    ensures
        final(s)@ == old(s)@ + chars@,
{
    let ghost start = s@;
    let mut i: usize = 0;
    while i < chars.len()
        invariant
            i <= chars.len(),
            s@ == start + chars@.take(i as int),
        decreases chars.len() - i,
    {
        push_char(s, chars[i]);
        assert(chars@.take(i + 1) =~= chars@.take(i as int).push(chars@[i as int]));
        i = i + 1;
    }
    assert(chars@.take(chars.len() as int) =~= chars@);
}

} // verus!
