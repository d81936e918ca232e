//! Character classes used by the tokenizer, the normalizer and the segmenter.

use vstd::prelude::*;

verus! {

/// The Unicode `White_Space` property, as listed in `PropList.txt`.
pub open spec fn is_space(c: char) -> bool {
    ('\u{9}' <= c && c <= '\u{d}') || c == ' ' || c == '\u{85}' || c == '\u{a0}'
        || c == '\u{1680}' || ('\u{2000}' <= c && c <= '\u{200a}') || c == '\u{2028}'
        || c == '\u{2029}' || c == '\u{202f}' || c == '\u{205f}' || c == '\u{3000}'
}

/// Marks that the tokenizer splits off the front or back of a fragment.
pub open spec fn is_punct(c: char) -> bool {
    c == ',' || c == '.' || c == '!' || c == '?' || c == ';' || c == ':' || c == '\''
        || c == '"' || c == '(' || c == ')' || c == '@' || c == '#' || c == '$' || c == '%'
        || c == '_' || c == '~' || c == '[' || c == ']'
}

/// Marks that end a sentence.
pub open spec fn is_terminal(c: char) -> bool {
    c == '.' || c == '!' || c == '?' || c == ';'
}

/// Whether `c` belongs to the punctuation alphabet.
pub fn is_punctuation(c: char) -> (r: bool)
    ensures
        r == is_punct(c),
{
    c == ',' || c == '.' || c == '!' || c == '?' || c == ';' || c == ':' || c == '\''
        || c == '"' || c == '(' || c == ')' || c == '@' || c == '#' || c == '$' || c == '%'
        || c == '_' || c == '~' || c == '[' || c == ']'
}

/// Whether `c` ends a sentence.
pub fn is_sentence_terminal(c: char) -> (r: bool)
    ensures
        r == is_terminal(c),
{
    c == '.' || c == '!' || c == '?' || c == ';'
}

/// Relies on `char::is_whitespace`, which tests the Unicode `White_Space` property.
#[verifier::external_body]
pub(crate) fn is_whitespace(c: char) -> (r: bool)
    ensures
        r == is_space(c),
{
    c.is_whitespace()
}

/// Relies on `String::push`, which appends one character.
#[verifier::external_body]
pub(crate) fn push_char(s: &mut String, c: char)
    ensures
        final(s)@ == old(s)@.push(c),
{
    s.push(c)
}

/// Whether a character has the Unicode `Alphabetic` property.
pub uninterp spec fn alphabetic(c: char) -> bool;

/// The Unicode lowercase mapping of a whole string.
pub uninterp spec fn lower_of(s: Seq<char>) -> Seq<char>;

/// Relies on `char::is_alphabetic`, which tests the Unicode `Alphabetic` property of
/// the character alone.
#[verifier::external_body]
pub(crate) fn is_alphabetic(c: char) -> (r: bool)
    ensures
        r == alphabetic(c),
{
    c.is_alphabetic()
}

/// Relies on `str::to_lowercase`, whose result depends on the characters alone.
#[verifier::external_body]
pub(crate) fn lowercase(s: &str) -> (r: String)
    ensures
        r@ == lower_of(s@),
{
    s.to_lowercase()
}

} // verus!
