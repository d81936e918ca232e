//! Properties of the tokenizer, the segmenter, the normalizer and the unique word set.

use vstd::prelude::*;
use crate::chars::{alphabetic, is_punct, is_space, lower_of};
use crate::normalizer::{normalized, strip, strip_back, strip_front, unique_of, unique_words_of};
use crate::fragments::{fragments, scan};
use crate::segmenter::{sentence_scan, sentences_of};
use crate::tokenizer::{split_fragment, tokens_of};

verus! {

/// The non-whitespace characters of `s`, in order.
pub open spec fn without_space(s: Seq<char>) -> Seq<char> {
    s.filter(|c: char| !is_space(c))
}

/// What the fragment scan keeps: the characters read, less whitespace, with every
/// completed fragment non-empty.
proof fn lemma_scan(s: Seq<char>)
    ensures
        scan(s).0.flatten() + scan(s).1 == without_space(s),
        forall|i: int| 0 <= i < scan(s).0.len() ==> #[trigger] scan(s).0[i].len() > 0,
    decreases s.len(),
{
    reveal(Seq::filter);
    if s.len() > 0 {
        let p = s.drop_last();
        lemma_scan(p);
        let (done, cur) = scan(p);
        let c = s.last();
        assert(without_space(s) == if !is_space(c) {
            without_space(p).push(c)
        } else {
            without_space(p)
        });
        if is_space(c) {
            if cur.len() > 0 {
                done.lemma_flatten_push(cur);
                assert(done.push(cur).flatten() + seq![] =~= done.flatten() + cur);
            } else {
                assert(done.flatten() + seq![] =~= done.flatten() + cur);
            }
        } else {
            assert(done.flatten() + cur.push(c) =~= (done.flatten() + cur).push(c));
        }
    }
}

/// The fragments of `s`, joined, are `s` without its whitespace; none is empty.
proof fn lemma_fragments(s: Seq<char>)
    ensures
        fragments(s).flatten() == without_space(s),
        forall|i: int| 0 <= i < fragments(s).len() ==> #[trigger] fragments(s)[i].len() > 0,
{
    lemma_scan(s);
    let (done, cur) = scan(s);
    if cur.len() > 0 {
        done.lemma_flatten_push(cur);
    } else {
        assert(done.flatten() + cur =~= done.flatten());
    }
}

/// The tokens of a fragment, joined, give the fragment back.
proof fn lemma_split_fragment(f: Seq<char>)
    ensures
        split_fragment(f).flatten() == f,
        f.len() > 0 ==> split_fragment(f).len() > 0,
        forall|i: int| 0 <= i < split_fragment(f).len() ==> #[trigger] split_fragment(f)[i].len() > 0,
{
    let e: Seq<Seq<char>> = seq![];
    e.lemma_flatten_push(seq![]);
    if f.len() > 0 {
        let a = seq![f[0]];
        let z = seq![f.last()];
        e.lemma_flatten_push(a);
        e.push(a).lemma_flatten_push(f.drop_first());
        assert(e.push(a) =~= seq![a]);
        assert(seq![a].push(f.drop_first()) =~= seq![a, f.drop_first()]);
        assert(a + f.drop_first() =~= f);
        e.lemma_flatten_push(f.drop_last());
        e.push(f.drop_last()).lemma_flatten_push(z);
        assert(e.push(f.drop_last()) =~= seq![f.drop_last()]);
        assert(seq![f.drop_last()].push(z) =~= seq![f.drop_last(), z]);
        assert(f.drop_last() + z =~= f);
        e.lemma_flatten_push(f);
        assert(e.push(f) =~= seq![f]);
        if !is_punct(f[0]) && is_punct(f.last()) {
            assert(f.len() > 1);
        }
    }
}

/// Splitting fragments into tokens loses and adds no character.
proof fn lemma_flat_tokens(fs: Seq<Seq<char>>)
    ensures
        fs.flat_map(|f: Seq<char>| split_fragment(f)).flatten() == fs.flatten(),
        (forall|i: int| 0 <= i < fs.len() ==> #[trigger] fs[i].len() > 0) ==> (fs.len() > 0
            <==> fs.flat_map(|f: Seq<char>| split_fragment(f)).len() > 0),
    decreases fs.len(),
{
    let g = |f: Seq<char>| split_fragment(f);
    if fs.len() == 0 {
        assert(fs.flat_map(g) =~= seq![]);
    } else {
        let p = fs.drop_last();
        let f = fs.last();
        lemma_flat_tokens(p);
        lemma_split_fragment(f);
        assert(p.push(f) =~= fs);
        p.lemma_flat_map_push(g, f);
        vstd::seq_lib::lemma_flatten_concat(p.flat_map(g), split_fragment(f));
        p.lemma_flatten_push(f);
        if forall|i: int| 0 <= i < fs.len() ==> #[trigger] fs[i].len() > 0 {
            assert(fs[fs.len() - 1].len() > 0);
        }
    }
}

/// Joined in order, the tokens of `s` are exactly its non-whitespace characters; so the
/// multiset of non-whitespace characters over all tokens is that of `s`.
pub proof fn lemma_tokens_keep_characters(s: Seq<char>)
    ensures
        tokens_of(s).flatten() == without_space(s),
        without_space(tokens_of(s).flatten()).to_multiset() == without_space(s).to_multiset(),
{
    lemma_fragments(s);
    lemma_flat_tokens(fragments(s));
    lemma_without_space_settled(s);
}

/// Removing whitespace a second time changes nothing.
proof fn lemma_without_space_settled(s: Seq<char>)
    ensures
        without_space(without_space(s)) == without_space(s),
    decreases s.len(),
{
    reveal(Seq::filter);
    if s.len() > 0 {
        let p = s.drop_last();
        lemma_without_space_settled(p);
        let c = s.last();
        if !is_space(c) {
            let w = without_space(p).push(c);
            assert(w.drop_last() =~= without_space(p));
        }
    }
}

/// A text has no tokens exactly when all of its characters are whitespace.
pub proof fn lemma_no_tokens_iff_blank(s: Seq<char>)
    ensures
        tokens_of(s).len() == 0 <==> forall|i: int| 0 <= i < s.len() ==> is_space(#[trigger] s[i]),
{
    lemma_fragments(s);
    lemma_flat_tokens(fragments(s));
    let fs = fragments(s);
    let pred = |c: char| !is_space(c);
    if forall|i: int| 0 <= i < s.len() ==> is_space(#[trigger] s[i]) {
        s.lemma_all_neg_filter_empty(pred);
        if fs.len() > 0 {
            fs.drop_last().lemma_flatten_push(fs.last());
            assert(fs.drop_last().push(fs.last()) =~= fs);
            assert(fs[fs.len() - 1].len() > 0);
        }
    } else {
        let i = choose|i: int| 0 <= i < s.len() && !is_space(#[trigger] s[i]);
        s.lemma_filter_contains(pred, i);
        if fs.len() == 0 {
            assert(fs.flatten() =~= seq![]);
        }
    }
}

/// Sentence building drops only the whitespace it inserts between words.
proof fn lemma_sentence_scan(ws: Seq<Seq<char>>)
    ensures
        without_space(sentence_scan(ws).0.flatten() + sentence_scan(ws).1) == without_space(
            ws.flatten(),
        ),
    decreases ws.len(),
{
    broadcast use Seq::filter_distributes_over_add;

    reveal(Seq::filter);
    if ws.len() == 0 {
        assert(sentence_scan(ws).0.flatten() + sentence_scan(ws).1 =~= seq![]);
        assert(ws.flatten() =~= seq![]);
    } else {
        let p = ws.drop_last();
        let w = ws.last();
        lemma_sentence_scan(p);
        let (done, cur) = sentence_scan(p);
        assert(p.push(w) =~= ws);
        p.lemma_flatten_push(w);
        let gap: Seq<char> = seq![' '];
        assert(gap.drop_last() =~= seq![]);
        assert(without_space(gap) == without_space(gap.drop_last()));
        assert(without_space(gap) =~= seq![]);
        let buf = if cur.len() == 0 {
            w
        } else {
            cur + gap + w
        };
        assert(without_space(buf) == without_space(cur) + without_space(w)) by {
            if cur.len() == 0 {
                assert(cur =~= seq![]);
                assert(without_space(cur) =~= seq![]);
                assert(seq![] + without_space(w) =~= without_space(w));
            } else {
                assert(without_space(cur) + seq![] =~= without_space(cur));
            }
        }
        done.lemma_flatten_push(buf);
        assert(without_space(done.flatten() + buf) =~= without_space(done.flatten() + cur)
            + without_space(w));
        assert(done.flatten() + buf + seq![] =~= done.flatten() + buf);
    }
}

/// The sentences of `s`, joined, hold exactly the non-whitespace characters of `s`, in
/// order: each character falls in one sentence and none is lost.
pub proof fn lemma_sentences_cover_text(s: Seq<char>)
    ensures
        without_space(sentences_of(s).flatten()) == without_space(s),
{
    let fs = fragments(s);
    lemma_sentence_scan(fs);
    lemma_fragments(s);
    lemma_without_space_settled(s);
    let (done, cur) = sentence_scan(fs);
    if cur.len() > 0 {
        done.lemma_flatten_push(cur);
    } else {
        assert(done.flatten() + cur =~= done.flatten());
    }
}

/// Stripping from the front leaves nothing, or a sequence that starts with a letter.
proof fn lemma_strip_front(s: Seq<char>)
    ensures
        strip_front(s).len() == 0 || alphabetic(strip_front(s)[0]),
    decreases s.len(),
{
    if s.len() > 0 && !alphabetic(s[0]) {
        lemma_strip_front(s.drop_first());
    }
}

/// Stripping from the back keeps a prefix, and leaves nothing or a sequence that ends
/// with a letter.
proof fn lemma_strip_back(s: Seq<char>)
    ensures
        strip_back(s).len() <= s.len(),
        strip_back(s) == s.take(strip_back(s).len() as int),
        strip_back(s).len() == 0 || alphabetic(strip_back(s).last()),
    decreases s.len(),
{
    if s.len() > 0 && !alphabetic(s.last()) {
        lemma_strip_back(s.drop_last());
        assert(s.drop_last().take(strip_back(s).len() as int) =~= s.take(
            strip_back(s).len() as int,
        ));
    } else {
        assert(s.take(s.len() as int) =~= s);
    }
}

/// Stripping a token twice gives what stripping it once gives.
pub proof fn lemma_strip_idempotent(s: Seq<char>)
    ensures
        strip(strip(s)) == strip(s),
{
    lemma_strip_front(s);
    let f = strip_front(s);
    lemma_strip_back(f);
    let t = strip(s);
    if t.len() > 0 {
        assert(t[0] == f[0]);
        assert(strip_front(t) == t);
        assert(strip_back(t) == t);
    }
}

/// Normalizing a normalized form gives it back, wherever case folding of the stripped
/// token leaves letters at both ends and is itself settled; the stripping half of the
/// normalization needs no such condition (see `lemma_strip_idempotent`).
pub proof fn lemma_normalize_idempotent(x: Seq<char>)
    requires
        strip(lower_of(strip(x))) == lower_of(strip(x)),
        lower_of(lower_of(strip(x))) == lower_of(strip(x)),
    ensures
        normalized(normalized(x)) == normalized(x),
{
}

/// `a` occurs in `s` before every occurrence of `b`.
pub open spec fn seen_before(s: Seq<Seq<char>>, a: Seq<char>, b: Seq<char>) -> bool {
    forall|k: int|
        0 <= k < s.len() && #[trigger] s[k] == b ==> exists|j: int| 0 <= j < k && s[j] == a
}

/// The set of distinct forms: no value twice, exactly the non-empty values of `ws`,
/// and in the order in which `ws` first shows them.
proof fn lemma_unique_of(ws: Seq<Seq<char>>)
    ensures
        unique_of(ws).no_duplicates(),
        forall|w: Seq<char>| #[trigger]
            unique_of(ws).contains(w) <==> w.len() > 0 && ws.contains(w),
        forall|i: int, j: int|
            0 <= i < j < unique_of(ws).len() ==> seen_before(
                ws,
                #[trigger] unique_of(ws)[i],
                #[trigger] unique_of(ws)[j],
            ),
    decreases ws.len(),
{
    if ws.len() > 0 {
        let p = ws.drop_last();
        let w = ws.last();
        let u = unique_of(p);
        lemma_unique_of(p);
        assert(p.push(w) =~= ws);
        assert forall|x: Seq<char>| #[trigger] ws.contains(x) <==> p.contains(x) || x == w by {
            if ws.contains(x) {
                let k = choose|k: int| 0 <= k < ws.len() && ws[k] == x;
                if k < p.len() {
                    assert(p[k] == x);
                }
            }
            if p.contains(x) {
                let k = choose|k: int| 0 <= k < p.len() && p[k] == x;
                assert(ws[k] == x);
            }
            if x == w {
                assert(ws[ws.len() - 1] == x);
            }
        }
        let r = unique_of(ws);
        if r.len() > u.len() {
            assert forall|x: Seq<char>| #[trigger] r.contains(x) <==> u.contains(x) || x == w by {
                if r.contains(x) {
                    let k = choose|k: int| 0 <= k < r.len() && r[k] == x;
                    if k < u.len() {
                        assert(u[k] == x);
                    }
                }
                if u.contains(x) {
                    let k = choose|k: int| 0 <= k < u.len() && u[k] == x;
                    assert(r[k] == x);
                }
                if x == w {
                    assert(r[u.len() as int] == x);
                }
            }
        }
        assert forall|i: int, j: int| 0 <= i < j < r.len() implies seen_before(
            ws,
            #[trigger] r[i],
            #[trigger] r[j],
        ) by {
            assert forall|k: int| 0 <= k < ws.len() && #[trigger] ws[k] == r[j] implies exists|
                m: int,
            | 0 <= m < k && ws[m] == r[i] by {
                if j < u.len() {
                    assert(r[i] == u[i] && r[j] == u[j]);
                    assert(seen_before(p, u[i], u[j]));
                    if k < p.len() {
                        assert(p[k] == u[j]);
                        let m = choose|m: int| 0 <= m < k && p[m] == u[i];
                        assert(ws[m] == r[i]);
                    } else {
                        assert(u.contains(u[j]));
                        let k0 = choose|k0: int| 0 <= k0 < p.len() && p[k0] == u[j];
                        let m = choose|m: int| 0 <= m < k0 && p[m] == u[i];
                        assert(ws[m] == r[i]);
                    }
                } else {
                    assert(r[i] == u[i]);
                    assert(r[j] == w);
                    assert(!u.contains(w));
                    if k < p.len() {
                        assert(p[k] == w);
                        assert(p.contains(w));
                    }
                    assert(u.contains(u[i]));
                    let m = choose|m: int| 0 <= m < p.len() && p[m] == u[i];
                    assert(ws[m] == r[i]);
                }
            }
        }
    }
}

/// The unique word set of a token sequence holds no value twice, holds exactly the
/// non-empty normalized forms of the tokens, and orders them by first occurrence.
pub proof fn lemma_unique_words(tokens: Seq<Seq<char>>)
    ensures
        unique_words_of(tokens).no_duplicates(),
        forall|w: Seq<char>| #[trigger]
            unique_words_of(tokens).contains(w) <==> w.len() > 0 && exists|k: int|
                0 <= k < tokens.len() && normalized(#[trigger] tokens[k]) == w,
        forall|i: int, j: int|
            0 <= i < j < unique_words_of(tokens).len() ==> seen_before(
                tokens.map_values(|t: Seq<char>| normalized(t)),
                #[trigger] unique_words_of(tokens)[i],
                #[trigger] unique_words_of(tokens)[j],
            ),
{
    let norms = tokens.map_values(|t: Seq<char>| normalized(t));
    lemma_unique_of(norms);
    assert forall|w: Seq<char>| norms.contains(w) <==> exists|k: int|
        0 <= k < tokens.len() && normalized(#[trigger] tokens[k]) == w by {
        if norms.contains(w) {
            let k = choose|k: int| 0 <= k < norms.len() && norms[k] == w;
            assert(normalized(tokens[k]) == w);
        }
        if exists|k: int| 0 <= k < tokens.len() && normalized(#[trigger] tokens[k]) == w {
            let k = choose|k: int| 0 <= k < tokens.len() && normalized(#[trigger] tokens[k]) == w;
            assert(norms[k] == w);
        }
    }
}

} // verus!
