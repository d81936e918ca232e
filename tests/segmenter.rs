use std::collections::VecDeque;
use text_preprocessor::Preprocessor;

fn strings(v: &VecDeque<String>) -> Vec<&str> {
    v.iter().map(|s| s.as_str()).collect()
}

#[test]
fn three_sentences() {
    let s = Preprocessor::get_sentence_tokens("Hello world. How are you? Fine!");
    assert_eq!(strings(&s), vec!["Hello world.", "How are you?", "Fine!"]);
}

#[test]
fn trailing_fragment_is_a_sentence() {
    let s = Preprocessor::get_sentence_tokens("Stop now");
    assert_eq!(strings(&s), vec!["Stop now"]);
}

#[test]
fn words_are_joined_by_single_spaces() {
    let s = Preprocessor::get_sentence_tokens("  One\t two \n\nthree;   four  ");
    assert_eq!(strings(&s), vec!["One two three;", "four"]);
}

#[test]
fn every_terminal_mark_ends_a_sentence() {
    let s = Preprocessor::get_sentence_tokens("Mr. Smith paid 3.50 today; fine");
    assert_eq!(strings(&s), vec!["Mr.", "Smith paid 3.50 today;", "fine"]);
}

#[test]
fn colon_and_comma_do_not_end_a_sentence() {
    let s = Preprocessor::get_sentence_tokens("a: b, c");
    assert_eq!(strings(&s), vec!["a: b, c"]);
}

#[test]
fn empty_text_has_no_sentences() {
    assert!(Preprocessor::get_sentence_tokens("").is_empty());
    assert!(Preprocessor::get_sentence_tokens(" \n\t ").is_empty());
}

#[test]
fn lone_mark_is_a_sentence() {
    let s = Preprocessor::get_sentence_tokens("? !");
    assert_eq!(strings(&s), vec!["?", "!"]);
}

#[test]
fn sentences_cover_every_non_whitespace_character_once() {
    let text = " Wait... what?! No;\tyes.  maybe ";
    let s = Preprocessor::get_sentence_tokens(text);
    let joined: String = s.iter().flat_map(|t| t.chars()).filter(|c| !c.is_whitespace()).collect();
    let original: String = text.chars().filter(|c| !c.is_whitespace()).collect();
    assert_eq!(joined, original);
    assert_eq!(strings(&s), vec!["Wait...", "what?!", "No;", "yes.", "maybe"]);
}
