use std::collections::VecDeque;
use text_preprocessor::{Preprocessor, Processor};

fn strings(v: &VecDeque<String>) -> Vec<&str> {
    v.iter().map(|s| s.as_str()).collect()
}

#[test]
fn builds_all_three_views() {
    let p = Preprocessor::new("The cat sat. The dog ran".to_string());
    assert_eq!(p.original_text(), "The cat sat. The dog ran");
    assert_eq!(
        strings(p.all_tokens()),
        vec!["The", "cat", "sat", ".", "The", "dog", "ran"]
    );
    assert_eq!(strings(p.unique_words()), vec!["the", "cat", "sat", "dog", "ran"]);
    assert_eq!(strings(p.sentence_tokens()), vec!["The cat sat.", "The dog ran"]);
}

#[test]
fn empty_document_gives_empty_views() {
    let p = Preprocessor::new(String::new());
    assert!(p.all_tokens().is_empty());
    assert!(p.unique_words().is_empty());
    assert!(p.sentence_tokens().is_empty());
}

#[test]
fn processor_holds_its_text() {
    let p = Processor::new("some text".to_string());
    assert_eq!(p.original_text(), "some text");
}
