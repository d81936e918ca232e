//! Units above the word that the classification stage builds from tokens.

use vstd::prelude::*;

verus! {

/// A group of words acting as one unit.
pub struct Phrase;

/// A group of words with a subject and a predicate.
pub struct Clause;

/// A complete sentence.
pub struct Sentence;

/// A phrase headed by a noun.
pub struct NounPhrase;

/// A phrase headed by a verb.
pub struct VerbPhrase;

/// A phrase headed by an adjective.
pub struct AdjectivePhrase;

/// A phrase headed by an adverb.
pub struct AdverbPhrase;

/// A phrase headed by a preposition.
pub struct PrepositionalPhrase;

/// A phrase headed by an infinitive.
pub struct InfinitivePhrase;

/// A phrase headed by a gerund.
pub struct GerundPhrase;

/// A phrase headed by a participle.
pub struct ParticiplePhrase;

/// A phrase headed by an interjection.
pub struct InterjectionPhrase;

/// A clause that cannot stand alone.
pub struct DependentClause;

/// A clause acting as a noun.
pub struct NounClause;

/// A clause acting as an adjective.
pub struct AdjectiveClause;

/// A clause acting as an adverb.
pub struct AdverbClause;

/// A clause built around a gerund.
pub struct GerundClause;

/// A clause built around an infinitive.
pub struct InfinitiveClause;

/// A clause introduced by a relative pronoun.
pub struct RelativeClause;

/// A clause stating a purpose.
pub struct PurposeClause;

} // verus!
