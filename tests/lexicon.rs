use text_preprocessor::{
    Adjective, Adverb, Article, Conjunction, ConjunctionCategory, ConjunctionType, Degree, Gender,
    Interjection, Modifies, Noun, Number, PartOfSpeech, Position, Preposition, PrepositionCase,
    Pronoun, Sentiment, Verb, Word,
};

#[test]
fn noun_forms() {
    let n = Noun::new("cat");
    assert_eq!(n.singularize(), "cat");
    assert_eq!(n.pluralize(), "cats");
}

#[test]
fn verb_forms() {
    let v = Verb::new("walk");
    assert_eq!(v.verb_base_form(), "walk");
    assert_eq!(v.past_tense(), "walked");
    assert_eq!(v.past_participle(), "walked");
    assert_eq!(v.present_tense(), "walks");
    assert_eq!(v.present_participle(), "walking");
    assert_eq!(v.third_person_singular(), "walks");
    assert_eq!(v.present_tense_singular(), "walks");
    assert_eq!(v.present_tense_plural(), "walk");
    assert_eq!(v.infinitive(), "to walk");
}

#[test]
fn verb_conjugation_by_name() {
    let v = Verb::new("jump");
    assert_eq!(v.conjugate("past"), "jumped");
    assert_eq!(v.conjugate("past_participle"), "jumped");
    assert_eq!(v.conjugate("present"), "jumps");
    assert_eq!(v.conjugate("present_participle"), "jumping");
    assert_eq!(v.conjugate("third_person_singular"), "jumps");
    assert_eq!(v.conjugate("present_tense_singular"), "jumps");
    assert_eq!(v.conjugate("present_tense_plural"), "jump");
    assert_eq!(v.conjugate("infinitive"), "to jump");
    assert_eq!(v.conjugate("future"), "jump");
    assert_eq!(v.conjugate(""), "jump");
    assert_eq!(v.conjugate("Past"), "jump");
}

#[test]
fn pronoun_attributes() {
    let p = Pronoun::new("she", "her", "hers", "herself", Gender::Feminine, Number::Singular);
    assert_eq!(p.subject_form(), "she");
    assert_eq!(p.object_form(), "her");
    assert_eq!(p.possessive_form(), "hers");
    assert_eq!(p.reflexive_form(), "herself");
    assert_eq!(p.pronoun_gender(), Gender::Feminine);
    assert_eq!(p.pronoun_number(), Number::Singular);
}

#[test]
fn adjective_attributes_and_degree() {
    let a = Adjective::new("big", Gender::Neutral, Number::Plural, Degree::Positive, Position::Before);
    assert_eq!(a.adjective_base_form(), "big");
    assert_eq!(a.get_gender(), Gender::Neutral);
    assert_eq!(a.get_number(), Number::Plural);
    assert_eq!(a.get_degree(), Degree::Positive);
    assert_eq!(a.get_position(), Position::Before);
    let b = a.adjust_degree(Degree::Superlative);
    assert_eq!(b.get_degree(), Degree::Superlative);
    assert_eq!(b.adjective_base_form(), "big");
    assert_eq!(b.get_number(), Number::Plural);
    assert_eq!(b.get_position(), Position::Before);
    assert_eq!(a.get_degree(), Degree::Positive);
}

#[test]
fn adverb_attributes() {
    let a = Adverb::new("quickly", Modifies::Verb, Position::After);
    assert_eq!(a.adverb_base_form(), "quickly");
    assert_eq!(a.get_modification(), Modifies::Verb);
    assert_eq!(a.get_position(), Position::After);
}

#[test]
fn other_categories() {
    let p = Preposition::new("with", PrepositionCase::Dative);
    assert_eq!(p.preposition_base_form(), "with");
    assert_eq!(p.case(), PrepositionCase::Dative);
    let c = Conjunction::new("but", ConjunctionType::Coordinating, ConjunctionCategory::ContrastDisagreement);
    assert_eq!(c.base_form(), "but");
    assert_eq!(c.conjunction_type(), ConjunctionType::Coordinating);
    assert_eq!(c.category(), ConjunctionCategory::ContrastDisagreement);
    let i = Interjection::new("ouch", Sentiment::Pain);
    assert_eq!(i.word(), "ouch");
    assert_eq!(i.sentiment(), Sentiment::Pain);
    let a = Article::new("the", Gender::Neutral, Number::Singular);
    assert_eq!(a.form(), "the");
    assert_eq!(a.article_gender(), Gender::Neutral);
    assert_eq!(a.article_number(), Number::Singular);
}

#[test]
fn word_keeps_its_form() {
    assert_eq!(Word::new("token".to_string()).base_form(), "token");
}

#[test]
fn part_of_speech_base_forms() {
    let words = vec![
        PartOfSpeech::Noun(Noun::new("dog")),
        PartOfSpeech::Pronoun(Pronoun::new("he", "him", "his", "himself", Gender::Masculine, Number::Singular)),
        PartOfSpeech::Verb(Verb::new("run")),
        PartOfSpeech::Adjective(Adjective::new("red", Gender::Neutral, Number::Singular, Degree::Positive, Position::Before)),
        PartOfSpeech::Adverb(Adverb::new("very", Modifies::Adjective, Position::Before)),
        PartOfSpeech::Preposition(Preposition::new("of", PrepositionCase::Genitive)),
        PartOfSpeech::Conjunction(Conjunction::new("if", ConjunctionType::Subordinating, ConjunctionCategory::Conditional)),
        PartOfSpeech::Interjection(Interjection::new("wow", Sentiment::Surprise)),
        PartOfSpeech::Article(Article::new("a", Gender::Neutral, Number::Singular)),
    ];
    let forms: Vec<String> = words.iter().map(|w| w.base_form()).collect();
    assert_eq!(forms, vec!["dog", "he", "run", "red", "very", "of", "if", "wow", "a"]);
}
