//! Text preprocessing: tokens, case-folded unique words and sentences, together with
//! the records that a later classification stage fills from them.

pub mod chars;
pub mod fragments;
pub mod laws;
pub mod normalizer;
pub mod part_of_speech;
pub mod preprocessor;
pub mod segmenter;
pub mod tokenizer;
pub mod word_enums;
pub mod word_group_tokens;
pub mod word_tokens;

pub use chars::{is_punctuation, is_sentence_terminal};
pub use normalizer::{add_unique, normalize, strip_non_alphabetic};
pub use part_of_speech::PartOfSpeech;
pub use preprocessor::{Preprocessor, Processor};
pub use word_enums::{
    ConjunctionCategory, ConjunctionType, Degree, Gender, Modifies, Number, Position,
    PrepositionCase, Sentiment,
};
pub use word_tokens::{
    Adjective, Adverb, Article, Conjunction, Interjection, Noun, Preposition, Pronoun, Verb, Word,
};
