use text_preprocessor::{is_punctuation, is_sentence_terminal};

#[test]
fn punctuation_alphabet() {
    for c in ",.!?;:'\"()@#$%_~[]".chars() {
        assert!(is_punctuation(c));
    }
    assert!(!is_punctuation('a'));
    assert!(!is_punctuation('-'));
}

#[test]
fn sentence_terminals() {
    for c in ".!?;".chars() {
        assert!(is_sentence_terminal(c));
    }
    assert!(!is_sentence_terminal(','));
    assert!(!is_sentence_terminal(':'));
}
