use std::collections::VecDeque;
use text_preprocessor::{add_unique, normalize, strip_non_alphabetic, Preprocessor};

fn deque(items: &[&str]) -> VecDeque<String> {
    items.iter().map(|s| s.to_string()).collect()
}

fn strings(v: &VecDeque<String>) -> Vec<&str> {
    v.iter().map(|s| s.as_str()).collect()
}

#[test]
fn strip_removes_non_letters_at_both_ends() {
    assert_eq!(strip_non_alphabetic("--Hello!!"), "Hello");
    assert_eq!(strip_non_alphabetic("don't"), "don't");
    assert_eq!(strip_non_alphabetic("123"), "");
    assert_eq!(strip_non_alphabetic(""), "");
    assert_eq!(strip_non_alphabetic("x"), "x");
}

#[test]
fn normalize_strips_and_lowercases() {
    assert_eq!(normalize("The"), "the");
    assert_eq!(normalize("(HELLO),"), "hello");
    assert_eq!(normalize("42!"), "");
    assert_eq!(normalize("Ünïcode"), "ünïcode");
}

#[test]
fn normalize_twice_is_normalize_once() {
    for t in ["Hello!", "(WORLD)", "it's", "...", "Straße", "x1y"] {
        let once = normalize(t);
        assert_eq!(normalize(&once), once);
    }
}

#[test]
fn add_unique_skips_empty_and_repeated() {
    let mut u = VecDeque::new();
    add_unique(&mut u, "cat".to_string());
    add_unique(&mut u, String::new());
    add_unique(&mut u, "dog".to_string());
    add_unique(&mut u, "cat".to_string());
    assert_eq!(strings(&u), vec!["cat", "dog"]);
}

#[test]
fn unique_words_in_first_seen_order() {
    let tokens = Preprocessor::get_all_tokens("The cat sat. The dog ran.");
    let unique = Preprocessor::get_unique_words(&tokens);
    assert_eq!(strings(&unique), vec!["the", "cat", "sat", "dog", "ran"]);
}

#[test]
fn unique_words_skip_tokens_without_letters() {
    let unique = Preprocessor::get_unique_words(&deque(&["!", "42", "Hi", "hi!", "(", "HI"]));
    assert_eq!(strings(&unique), vec!["hi"]);
}

#[test]
fn unique_words_of_nothing() {
    assert!(Preprocessor::get_unique_words(&VecDeque::new()).is_empty());
}

#[test]
fn unique_words_have_no_duplicates() {
    let tokens = Preprocessor::get_all_tokens("a A a. b, B! (a) c");
    let unique = Preprocessor::get_unique_words(&tokens);
    assert_eq!(strings(&unique), vec!["a", "b", "c"]);
}

#[test]
fn case_folding_can_unsettle_a_normalized_form() {
    // 'İ' lowercases to 'i' followed by a combining dot, which is not alphabetic.
    let once = normalize("İ");
    assert_eq!(once, "i\u{307}");
    assert_eq!(normalize(&once), "i");
}
