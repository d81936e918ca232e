use std::collections::VecDeque;
use text_preprocessor::Preprocessor;

fn strings(v: &VecDeque<String>) -> Vec<&str> {
    v.iter().map(|s| s.as_str()).collect()
}

#[test]
fn leading_punctuation_only_is_split() {
    let tokens = Preprocessor::get_all_tokens("(hello)");
    assert_eq!(strings(&tokens), vec!["(", "hello)"]);
}

#[test]
fn trailing_punctuation_is_split() {
    let tokens = Preprocessor::get_all_tokens("word.");
    assert_eq!(strings(&tokens), vec!["word", "."]);
}

#[test]
fn lone_mark_is_one_token() {
    let tokens = Preprocessor::get_all_tokens("a , b");
    assert_eq!(strings(&tokens), vec!["a", ",", "b"]);
}

#[test]
fn remainder_after_leading_mark_is_kept_whole() {
    let tokens = Preprocessor::get_all_tokens("\"'quoted'\"");
    assert_eq!(strings(&tokens), vec!["\"", "'quoted'\""]);
}

#[test]
fn whitespace_runs_collapse() {
    let tokens = Preprocessor::get_all_tokens("  one\t\ttwo\n\r\nthree \u{3000}four  ");
    assert_eq!(strings(&tokens), vec!["one", "two", "three", "four"]);
}

#[test]
fn sentence_tokens_split_marks() {
    let tokens = Preprocessor::get_all_tokens("Hello, world! How are you?");
    assert_eq!(
        strings(&tokens),
        vec!["Hello", ",", "world", "!", "How", "are", "you", "?"]
    );
}

#[test]
fn empty_text_has_no_tokens() {
    assert!(Preprocessor::get_all_tokens("").is_empty());
}

#[test]
fn blank_text_has_no_tokens() {
    assert!(Preprocessor::get_all_tokens(" \t\n  \u{a0}").is_empty());
    assert!(!Preprocessor::get_all_tokens(" \t x \n").is_empty());
}

#[test]
fn tokens_keep_every_non_whitespace_character() {
    let text = "  (Don't) stop; me\tnow... [ok]~ #1 ";
    let tokens = Preprocessor::get_all_tokens(text);
    let mut from_tokens: Vec<char> = tokens.iter().flat_map(|t| t.chars()).collect();
    let mut from_text: Vec<char> = text.chars().filter(|c| !c.is_whitespace()).collect();
    assert_eq!(from_tokens, from_text);
    from_tokens.sort();
    from_text.sort();
    assert_eq!(from_tokens, from_text);
}

#[test]
fn non_ascii_text_is_split_by_characters() {
    let tokens = Preprocessor::get_all_tokens("¿Qué? «naïve»");
    assert_eq!(strings(&tokens), vec!["¿Qué", "?", "«naïve»"]);
}
