//! The preprocessing façade: tokens, unique words and sentences of one text.

use std::collections::VecDeque;
use vstd::prelude::*;
use crate::chars::{is_sentence_terminal, push_char};
use crate::fragments::{char_vec, fragments, split_whitespace, views};
use crate::normalizer::{add_unique, normalize, normalized, unique_of, unique_words_of};
use crate::segmenter::{push_chars, sentence_scan, sentences_of};
use crate::tokenizer::{push_fragment_tokens, split_fragment, texts, tokens_of};

verus! {

/// A source text held for processing.
pub struct Processor {
    original_text: String,
}

impl Processor {
    /// The text held.
    pub closed spec fn source(&self) -> Seq<char> {
        self.original_text@
    }

    /// Holds `original_text`.
    pub fn new(original_text: String) -> (r: Processor)
        ensures
            r.source() == original_text@,
    {
        Processor { original_text }
    }

    /// The text held.
    pub fn original_text(&self) -> (r: &str)
        ensures
            r@ == self.source(),
    {
        self.original_text.as_str()
    }
}

/// The three views of one source text, computed once at construction.
pub struct Preprocessor {
    original_text: String,
    all_tokens: VecDeque<String>,
    unique_words: VecDeque<String>,
    sentence_tokens: VecDeque<String>,
}

impl Preprocessor {
    /// Each derived view is the one computed from the source text.
    #[verifier::type_invariant]
    closed spec fn views_match(&self) -> bool {
        &&& texts(self.all_tokens@) == tokens_of(self.original_text@)
        &&& texts(self.unique_words@) == unique_words_of(texts(self.all_tokens@))
        &&& texts(self.sentence_tokens@) == sentences_of(self.original_text@)
    }

    /// The source text.
    pub closed spec fn source(&self) -> Seq<char> {
        self.original_text@
    }

    /// Computes the tokens, the unique words and the sentences of `original_text`.
    pub fn new(original_text: String) -> (r: Preprocessor)
        ensures
            r.source() == original_text@,
    {
        let all_tokens = Preprocessor::get_all_tokens(original_text.as_str());
        let unique_words = Preprocessor::get_unique_words(&all_tokens);
        let sentence_tokens = Preprocessor::get_sentence_tokens(original_text.as_str());
        Preprocessor { original_text, all_tokens, unique_words, sentence_tokens }
    }

    /// The source text.
    pub fn original_text(&self) -> (r: &str)
        ensures
            r@ == self.source(),
    {
        self.original_text.as_str()
    }

    /// The tokens of the source text, in document order.
    pub fn all_tokens(&self) -> (r: &VecDeque<String>)
        ensures
            texts(r@) == tokens_of(self.source()),
    {
        proof {
            use_type_invariant(self);
        }
        &self.all_tokens
    }

    /// The distinct normalized words of the source text, in order of first occurrence.
    pub fn unique_words(&self) -> (r: &VecDeque<String>)
        ensures
            texts(r@) == unique_words_of(tokens_of(self.source())),
    {
        proof {
            use_type_invariant(self);
        }
        &self.unique_words
    }

    /// The sentences of the source text, in document order.
    pub fn sentence_tokens(&self) -> (r: &VecDeque<String>)
        ensures
            texts(r@) == sentences_of(self.source()),
    {
        proof {
            use_type_invariant(self);
        }
        &self.sentence_tokens
    }

    /// Splits `text` into tokens: whitespace-delimited fragments, each with a leading
    /// punctuation mark, or else a trailing one, split off.
    pub fn get_all_tokens(text: &str) -> (r: VecDeque<String>)
        ensures
            texts(r@) == tokens_of(text@),
    {
        let chars = char_vec(text);
        let frags = split_whitespace(&chars);
        let ghost fs = views(frags@);
        let mut tokens: VecDeque<String> = VecDeque::new();
        let mut j: usize = 0;
        while j < frags.len()
            invariant
                fs == views(frags@),
                fs == fragments(text@),
                j <= frags.len(),
                texts(tokens@) == fs.take(j as int).flat_map(|f: Seq<char>| split_fragment(f)),
            decreases frags.len() - j,
        {
            proof {
                assert(fs.take(j + 1) =~= fs.take(j as int).push(fs[j as int]));
                fs.take(j as int).lemma_flat_map_push(|f: Seq<char>| split_fragment(f), fs[j as int]);
            }
            push_fragment_tokens(&frags[j], &mut tokens);
            j = j + 1;
        }
        assert(fs.take(frags.len() as int) =~= fs);
        tokens
    }

    /// The distinct non-empty normalized forms of `tokens`, in order of first occurrence.
    pub fn get_unique_words(tokens: &VecDeque<String>) -> (r: VecDeque<String>)
        ensures
            texts(r@) == unique_words_of(texts(tokens@)),
    {
        let ghost ts = texts(tokens@);
        let ghost norms = ts.map_values(|t: Seq<char>| normalized(t));
        let mut unique: VecDeque<String> = VecDeque::new();
        let mut i: usize = 0;
        while i < tokens.len()
            invariant
                ts == texts(tokens@),
                norms == ts.map_values(|t: Seq<char>| normalized(t)),
                i <= tokens.len(),
                texts(unique@) == unique_of(norms.take(i as int)),
            decreases tokens.len() - i,
        {
            let word = normalize(tokens[i].as_str());
            proof {
                assert(norms.take(i + 1).drop_last() =~= norms.take(i as int));
                assert(norms.take(i + 1).last() == word@);
            }
            add_unique(&mut unique, word);
            i = i + 1;
        }
        assert(norms.take(tokens.len() as int) =~= norms);
        unique
    }

    /// Splits `text` into sentences, each ending at a fragment whose last character is
    /// a sentence-terminal mark, with its words joined by single spaces.
    pub fn get_sentence_tokens(text: &str) -> (r: VecDeque<String>)
        ensures
            texts(r@) == sentences_of(text@),
    {
        let chars = char_vec(text);
        let frags = split_whitespace(&chars);
        let ghost fs = views(frags@);
        let mut sentences: VecDeque<String> = VecDeque::new();
        let mut sentence = String::new();
        let mut j: usize = 0;
        while j < frags.len()
            invariant
                fs == views(frags@),
                fs == fragments(text@),
                j <= frags.len(),
                (texts(sentences@), sentence@) == sentence_scan(fs.take(j as int)),
            decreases frags.len() - j,
        {
            let word = &frags[j];
            proof {
                assert(fs.take(j + 1).drop_last() =~= fs.take(j as int));
                assert(fs.take(j + 1).last() == word@);
            }
            let ghost cur = sentence@;
            if !sentence.as_str().is_empty() {
                push_char(&mut sentence, ' ');
            }
            push_chars(&mut sentence, word);
            assert(sentence@ =~= if cur.len() == 0 {
                word@
            } else {
                cur + seq![' '] + word@
            });
            let n = word.len();
            if n > 0 && is_sentence_terminal(word[n - 1]) {
                let ghost before = sentences@;
                sentences.push_back(sentence);
                assert(texts(sentences@) =~= texts(before).push(sentence@));
                sentence = String::new();
            }
            j = j + 1;
        }
        assert(fs.take(frags.len() as int) =~= fs);
        if !sentence.as_str().is_empty() {
            let ghost before = sentences@;
            sentences.push_back(sentence);
            assert(texts(sentences@) =~= texts(before).push(sentence@));
        }
        sentences
    }
}

} // verus!
