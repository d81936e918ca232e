//! Attributes that the lexical categories carry.

use vstd::prelude::*;

verus! {

/// Grammatical gender.
#[derive(Clone, Copy, Debug, PartialEq, Eq, Structural)]
pub enum Gender {
    Masculine,
    Feminine,
    Neutral,
}

/// Grammatical number.
#[derive(Clone, Copy, Debug, PartialEq, Eq, Structural)]
pub enum Number {
    Singular,
    Plural,
}

/// Degree of comparison of an adjective.
#[derive(Clone, Copy, Debug, PartialEq, Eq, Structural)]
pub enum Degree {
    Positive,
    Comparative,
    Superlative,
}

/// What an adverb modifies.
#[derive(Clone, Copy, Debug, PartialEq, Eq, Structural)]
pub enum Modifies {
    Verb,
    Adjective,
    Adverb,
}

/// Where a modifier stands relative to the word it modifies.
#[derive(Clone, Copy, Debug, PartialEq, Eq, Structural)]
pub enum Position {
    Before,
    After,
}

/// The case that a preposition governs.
#[derive(Clone, Copy, Debug, PartialEq, Eq, Structural)]
pub enum PrepositionCase {
    Nominative,
    Accusative,
    Dative,
    Genitive,
}

/// How a conjunction joins its parts.
#[derive(Clone, Copy, Debug, PartialEq, Eq, Structural)]
pub enum ConjunctionType {
    Coordinating,
    Subordinating,
    Correlative,
}

/// The relation that a conjunction expresses.
#[derive(Clone, Copy, Debug, PartialEq, Eq, Structural)]
pub enum ConjunctionCategory {
    ComparisonAgreement,
    ContrastDisagreement,
    Addition,
    Substitution,
    Temporal,
    Causal,
    Conditional,
}

/// The feeling that an interjection conveys.
#[derive(Clone, Copy, Debug, PartialEq, Eq, Structural)]
pub enum Sentiment {
    Excitement,
    Pain,
    Surprise,
    Disapproval,
    Approval,
}

} // verus!
