//! A classified word: one variant per part of speech, each with its own record.

use vstd::prelude::*;
use crate::word_tokens::{
    Adjective, Adverb, Article, Conjunction, Interjection, Noun, Preposition, Pronoun, Verb,
};

verus! {

/// A word together with the lexical category it was classified into.
pub enum PartOfSpeech {
    Noun(Noun),
    Pronoun(Pronoun),
    Verb(Verb),
    Adjective(Adjective),
    Adverb(Adverb),
    Preposition(Preposition),
    Conjunction(Conjunction),
    Interjection(Interjection),
    Article(Article),
}

impl PartOfSpeech {
    /// The dictionary form of the word: the singular of a noun, the subject form of a
    /// pronoun, the form of an article and the base form of any other word.
    pub open spec fn base(&self) -> Seq<char> {
        match self {
            PartOfSpeech::Noun(w) => w@,
            PartOfSpeech::Pronoun(w) => w@.subject,
            PartOfSpeech::Verb(w) => w@,
            PartOfSpeech::Adjective(w) => w@.base,
            PartOfSpeech::Adverb(w) => w@.base,
            PartOfSpeech::Preposition(w) => w@.base,
            PartOfSpeech::Conjunction(w) => w@.base,
            PartOfSpeech::Interjection(w) => w@.word,
            PartOfSpeech::Article(w) => w@.form,
        }
    }

    /// The dictionary form of the word.
    pub fn base_form(&self) -> (r: String)
        ensures
            r@ == self.base(),
    {
        match self {
            PartOfSpeech::Noun(w) => w.singularize(),
            PartOfSpeech::Pronoun(w) => w.subject_form(),
            PartOfSpeech::Verb(w) => w.verb_base_form(),
            PartOfSpeech::Adjective(w) => w.adjective_base_form(),
            PartOfSpeech::Adverb(w) => w.adverb_base_form(),
            PartOfSpeech::Preposition(w) => w.preposition_base_form(),
            PartOfSpeech::Conjunction(w) => w.base_form(),
            PartOfSpeech::Interjection(w) => w.word(),
            PartOfSpeech::Article(w) => w.form(),
        }
    }
}

} // verus!
