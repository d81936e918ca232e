//! Records of the lexical categories, one per part of speech.

use vstd::prelude::*;
use vstd::string::*;
use crate::fragments::char_vec;
use crate::word_enums::{
    ConjunctionCategory, ConjunctionType, Degree, Gender, Modifies, Number, Position, PrepositionCase,
    Sentiment,
};

verus! {

/// A word form as handed to classification.
pub struct Word {
    base_form: String,
}

impl View for Word {
    type V = Seq<char>;

    closed spec fn view(&self) -> Seq<char> {
        self.base_form@
    }
}

impl Word {
    /// A word with the given form.
    pub fn new(base_form: String) -> (r: Word)
        ensures
            r@ == base_form@,
    {
        Word { base_form }
    }

    /// The form of the word.
    pub fn base_form(&self) -> (r: String)
        ensures
            r@ == self@,
    {
        self.base_form.clone()
    }
}

/// The plural of a noun: the singular with `s` appended.
pub open spec fn plural_of(singular: Seq<char>) -> Seq<char> {
    singular + "s"@
}

/// A noun; its view is the singular form.
pub struct Noun {
    singular: String,
    plural: String,
}

impl View for Noun {
    type V = Seq<char>;

    closed spec fn view(&self) -> Seq<char> {
        self.singular@
    }
}

impl Noun {
    #[verifier::type_invariant]
    closed spec fn forms_agree(&self) -> bool {
        self.plural@ == plural_of(self.singular@)
    }

    /// A noun with the given singular form.
    pub fn new(singular: &str) -> (r: Noun)
        ensures
            r@ == singular@,
    {
        let mut plural = String::from_str(singular);
        plural.append("s");
        Noun { singular: String::from_str(singular), plural }
    }

    /// The plural form.
    pub fn pluralize(&self) -> (r: String)
        ensures
            r@ == plural_of(self@),
    {
        proof {
            use_type_invariant(self);
        }
        self.plural.clone()
    }

    /// The singular form.
    pub fn singularize(&self) -> (r: String)
        ensures
            r@ == self@,
    {
        self.singular.clone()
    }
}

/// A pronoun's view: its four forms, gender and number.
pub struct PronounView {
    pub subject: Seq<char>,
    pub object: Seq<char>,
    pub possessive: Seq<char>,
    pub reflexive: Seq<char>,
    pub gender: Gender,
    pub number: Number,
}

/// A pronoun.
pub struct Pronoun {
    subject_form: String,
    object_form: String,
    possessive_form: String,
    reflexive_form: String,
    gender: Gender,
    number: Number,
}

impl View for Pronoun {
    type V = PronounView;

    closed spec fn view(&self) -> PronounView {
        PronounView {
            subject: self.subject_form@,
            object: self.object_form@,
            possessive: self.possessive_form@,
            reflexive: self.reflexive_form@,
            gender: self.gender,
            number: self.number,
        }
    }
}

impl Pronoun {
    /// A pronoun with the given forms, gender and number.
    pub fn new(
        subject_form: &str,
        object_form: &str,
        possessive_form: &str,
        reflexive_form: &str,
        gender: Gender,
        number: Number,
    ) -> (r: Pronoun)
        ensures
            r@ == (PronounView {
                subject: subject_form@,
                object: object_form@,
                possessive: possessive_form@,
                reflexive: reflexive_form@,
                gender,
                number,
            }),
    {
        Pronoun {
            subject_form: String::from_str(subject_form),
            object_form: String::from_str(object_form),
            possessive_form: String::from_str(possessive_form),
            reflexive_form: String::from_str(reflexive_form),
            gender,
            number,
        }
    }

    /// The subject form (`he`).
    pub fn subject_form(&self) -> (r: String)
        ensures
            r@ == self@.subject,
    {
        self.subject_form.clone()
    }

    /// The object form (`him`).
    pub fn object_form(&self) -> (r: String)
        ensures
            r@ == self@.object,
    {
        self.object_form.clone()
    }

    /// The possessive form (`his`).
    pub fn possessive_form(&self) -> (r: String)
        ensures
            r@ == self@.possessive,
    {
        self.possessive_form.clone()
    }

    /// The reflexive form (`himself`).
    pub fn reflexive_form(&self) -> (r: String)
        ensures
            r@ == self@.reflexive,
    {
        self.reflexive_form.clone()
    }

    /// The gender.
    pub fn pronoun_gender(&self) -> (r: Gender)
        ensures
            r == self@.gender,
    {
        self.gender
    }

    /// The number.
    pub fn pronoun_number(&self) -> (r: Number)
        ensures
            r == self@.number,
    {
        self.number
    }
}

/// The past tense: the base with `ed` appended.
pub open spec fn past_tense_of(base: Seq<char>) -> Seq<char> {
    base + "ed"@
}

/// The present participle: the base with `ing` appended.
pub open spec fn present_participle_of(base: Seq<char>) -> Seq<char> {
    base + "ing"@
}

/// The third person singular present: the base with `s` appended.
pub open spec fn third_person_of(base: Seq<char>) -> Seq<char> {
    base + "s"@
}

/// The infinitive: `to ` followed by the base.
pub open spec fn infinitive_of(base: Seq<char>) -> Seq<char> {
    "to "@ + base
}

/// The form of a verb with base `base` that the tense name `tense` selects; an
/// unknown name selects the base form.
pub open spec fn conjugation(base: Seq<char>, tense: Seq<char>) -> Seq<char> {
    if tense == "past"@ || tense == "past_participle"@ {
        past_tense_of(base)
    } else if tense == "present"@ {
        third_person_of(base)
    } else if tense == "present_participle"@ {
        present_participle_of(base)
    } else if tense == "third_person_singular"@ || tense == "present_tense_singular"@ {
        third_person_of(base)
    } else if tense == "present_tense_plural"@ {
        base
    } else if tense == "infinitive"@ {
        infinitive_of(base)
    } else {
        base
    }
}

/// A verb; its view is the base form, from which every other form follows.
pub struct Verb {
    base_form: String,
    past_tense: String,
    past_participle: String,
    present_tense: String,
    present_participle: String,
    third_person_singular: String,
    present_tense_singular: String,
    present_tense_plural: String,
    infinitive: String,
}

impl View for Verb {
    type V = Seq<char>;

    closed spec fn view(&self) -> Seq<char> {
        self.base_form@
    }
}

/// `base` followed by `suffix`.
fn suffixed(base: &str, suffix: &str) -> (r: String)
    ensures
        r@ == base@ + suffix@,
{
    let mut r = String::from_str(base);
    r.append(suffix);
    r
}

/// Whether `a` and `b` hold the same characters.
fn same_text(a: &str, b: &str) -> (r: bool)
    ensures
        r == (a@ == b@),
{
    let x = char_vec(a);
    let y = char_vec(b);
    if x.len() != y.len() {
        return false;
    }
    let mut i: usize = 0;
    while i < x.len()
        invariant
            x@ == a@,
            y@ == b@,
            x.len() == y.len(),
            i <= x.len(),
            forall|k: int| 0 <= k < i ==> x@[k] == y@[k],
        decreases x.len() - i,
    {
        if x[i] != y[i] {
            return false;
        }
        i = i + 1;
    }
    assert(x@ =~= y@);
    true
}

impl Verb {
    #[verifier::type_invariant]
    closed spec fn forms_agree(&self) -> bool {
        let b = self.base_form@;
        &&& self.past_tense@ == past_tense_of(b)
        &&& self.past_participle@ == past_tense_of(b)
        &&& self.present_tense@ == third_person_of(b)
        &&& self.present_participle@ == present_participle_of(b)
        &&& self.third_person_singular@ == third_person_of(b)
        &&& self.present_tense_singular@ == third_person_of(b)
        &&& self.present_tense_plural@ == b
        &&& self.infinitive@ == infinitive_of(b)
    }

    /// A verb with the given base form; the other forms are formed regularly.
    pub fn new(base_form: &str) -> (r: Verb)
        ensures
            r@ == base_form@,
    {
        Verb {
            base_form: String::from_str(base_form),
            past_tense: suffixed(base_form, "ed"),
            past_participle: suffixed(base_form, "ed"),
            present_tense: suffixed(base_form, "s"),
            present_participle: suffixed(base_form, "ing"),
            third_person_singular: suffixed(base_form, "s"),
            present_tense_singular: suffixed(base_form, "s"),
            present_tense_plural: String::from_str(base_form),
            infinitive: suffixed("to ", base_form),
        }
    }

    /// The form that the tense name selects (`past`, `past_participle`, `present`,
    /// `present_participle`, `third_person_singular`, `present_tense_singular`,
    /// `present_tense_plural`, `infinitive`); any other name gives the base form.
    pub fn conjugate(&self, tense: &str) -> (r: String)
        ensures
            r@ == conjugation(self@, tense@),
    {
        proof {
            use_type_invariant(self);
        }
        if same_text(tense, "past") {
            self.past_tense.clone()
        } else if same_text(tense, "past_participle") {
            self.past_participle.clone()
        } else if same_text(tense, "present") {
            self.present_tense.clone()
        } else if same_text(tense, "present_participle") {
            self.present_participle.clone()
        } else if same_text(tense, "third_person_singular") {
            self.third_person_singular.clone()
        } else if same_text(tense, "present_tense_singular") {
            self.present_tense_singular.clone()
        } else if same_text(tense, "present_tense_plural") {
            self.present_tense_plural.clone()
        } else if same_text(tense, "infinitive") {
            self.infinitive.clone()
        } else {
            self.base_form.clone()
        }
    }

    /// The base form.
    pub fn verb_base_form(&self) -> (r: String)
        ensures
            r@ == self@,
    {
        self.base_form.clone()
    }

    /// The past tense.
    pub fn past_tense(&self) -> (r: String)
        ensures
            r@ == past_tense_of(self@),
    {
        proof {
            use_type_invariant(self);
        }
        self.past_tense.clone()
    }

    /// The past participle.
    pub fn past_participle(&self) -> (r: String)
        ensures
            r@ == past_tense_of(self@),
    {
        proof {
            use_type_invariant(self);
        }
        self.past_participle.clone()
    }

    /// The present tense.
    pub fn present_tense(&self) -> (r: String)
        ensures
            r@ == third_person_of(self@),
    {
        proof {
            use_type_invariant(self);
        }
        self.present_tense.clone()
    }

    /// The present participle.
    pub fn present_participle(&self) -> (r: String)
        ensures
            r@ == present_participle_of(self@),
    {
        proof {
            use_type_invariant(self);
        }
        self.present_participle.clone()
    }

    /// The third person singular present.
    pub fn third_person_singular(&self) -> (r: String)
        ensures
            r@ == third_person_of(self@),
    {
        proof {
            use_type_invariant(self);
        }
        self.third_person_singular.clone()
    }

    /// The present tense with a singular subject.
    pub fn present_tense_singular(&self) -> (r: String)
        ensures
            r@ == third_person_of(self@),
    {
        proof {
            use_type_invariant(self);
        }
        self.present_tense_singular.clone()
    }

    /// The present tense with a plural subject.
    pub fn present_tense_plural(&self) -> (r: String)
        ensures
            r@ == self@,
    {
        proof {
            use_type_invariant(self);
        }
        self.present_tense_plural.clone()
    }

    /// The infinitive.
    pub fn infinitive(&self) -> (r: String)
        ensures
            r@ == infinitive_of(self@),
    {
        proof {
            use_type_invariant(self);
        }
        self.infinitive.clone()
    }
}

/// An adjective's view: its base form and attributes.
pub struct AdjectiveView {
    pub base: Seq<char>,
    pub gender: Gender,
    pub number: Number,
    pub degree: Degree,
    pub position: Position,
}

/// An adjective.
pub struct Adjective {
    base_form: String,
    gender: Gender,
    number: Number,
    degree: Degree,
    position: Position,
}

impl View for Adjective {
    type V = AdjectiveView;

    closed spec fn view(&self) -> AdjectiveView {
        AdjectiveView {
            base: self.base_form@,
            gender: self.gender,
            number: self.number,
            degree: self.degree,
            position: self.position,
        }
    }
}

impl Adjective {
    /// An adjective with the given base form and attributes.
    pub fn new(
        base_form: &str,
        gender: Gender,
        number: Number,
        degree: Degree,
        position: Position,
    ) -> (r: Adjective)
        ensures
            r@ == (AdjectiveView { base: base_form@, gender, number, degree, position }),
    {
        Adjective { base_form: String::from_str(base_form), gender, number, degree, position }
    }

    /// The same adjective in the given degree.
    pub fn adjust_degree(&self, degree: Degree) -> (r: Adjective)
        ensures
            r@ == (AdjectiveView { degree, ..self@ }),
    {
        Adjective {
            base_form: self.base_form.clone(),
            gender: self.gender,
            number: self.number,
            degree,
            position: self.position,
        }
    }

    /// The base form.
    pub fn adjective_base_form(&self) -> (r: String)
        ensures
            r@ == self@.base,
    {
        self.base_form.clone()
    }

    /// The gender.
    pub fn get_gender(&self) -> (r: Gender)
        ensures
            r == self@.gender,
    {
        self.gender
    }

    /// The number.
    pub fn get_number(&self) -> (r: Number)
        ensures
            r == self@.number,
    {
        self.number
    }

    /// The degree.
    pub fn get_degree(&self) -> (r: Degree)
        ensures
            r == self@.degree,
    {
        self.degree
    }

    /// The position relative to the noun.
    pub fn get_position(&self) -> (r: Position)
        ensures
            r == self@.position,
    {
        self.position
    }
}

/// An adverb's view: its base form, what it modifies and where it stands.
pub struct AdverbView {
    pub base: Seq<char>,
    pub modifies: Modifies,
    pub position: Position,
}

/// An adverb.
pub struct Adverb {
    base_form: String,
    modifies: Modifies,
    position: Position,
}

impl View for Adverb {
    type V = AdverbView;

    closed spec fn view(&self) -> AdverbView {
        AdverbView { base: self.base_form@, modifies: self.modifies, position: self.position }
    }
}

impl Adverb {
    /// An adverb with the given base form, target and position.
    pub fn new(base_form: &str, modifies: Modifies, position: Position) -> (r: Adverb)
        ensures
            r@ == (AdverbView { base: base_form@, modifies, position }),
    {
        Adverb { base_form: String::from_str(base_form), modifies, position }
    }

    /// The base form.
    pub fn adverb_base_form(&self) -> (r: String)
        ensures
            r@ == self@.base,
    {
        self.base_form.clone()
    }

    /// What the adverb modifies.
    pub fn get_modification(&self) -> (r: Modifies)
        ensures
            r == self@.modifies,
    {
        self.modifies
    }

    /// The position relative to the word modified.
    pub fn get_position(&self) -> (r: Position)
        ensures
            r == self@.position,
    {
        self.position
    }
}

/// A preposition's view: its base form and the case it governs.
pub struct PrepositionView {
    pub base: Seq<char>,
    pub case: PrepositionCase,
}

/// A preposition.
pub struct Preposition {
    base_form: String,
    case: PrepositionCase,
}

impl View for Preposition {
    type V = PrepositionView;

    closed spec fn view(&self) -> PrepositionView {
        PrepositionView { base: self.base_form@, case: self.case }
    }
}

impl Preposition {
    /// A preposition with the given base form and case.
    pub fn new(base_form: &str, case: PrepositionCase) -> (r: Preposition)
        ensures
            r@ == (PrepositionView { base: base_form@, case }),
    {
        Preposition { base_form: String::from_str(base_form), case }
    }

    /// The base form.
    pub fn preposition_base_form(&self) -> (r: String)
        ensures
            r@ == self@.base,
    {
        self.base_form.clone()
    }

    /// The case governed.
    pub fn case(&self) -> (r: PrepositionCase)
        ensures
            r == self@.case,
    {
        self.case
    }
}

/// A conjunction's view: its base form, type and category.
pub struct ConjunctionView {
    pub base: Seq<char>,
    pub conjunction_type: ConjunctionType,
    pub category: ConjunctionCategory,
}

/// A conjunction.
pub struct Conjunction {
    base_form: String,
    conjunction_type: ConjunctionType,
    category: ConjunctionCategory,
}

impl View for Conjunction {
    type V = ConjunctionView;

    closed spec fn view(&self) -> ConjunctionView {
        ConjunctionView {
            base: self.base_form@,
            conjunction_type: self.conjunction_type,
            category: self.category,
        }
    }
}

impl Conjunction {
    /// A conjunction with the given base form, type and category.
    pub fn new(
        base_form: &str,
        conjunction_type: ConjunctionType,
        category: ConjunctionCategory,
    ) -> (r: Conjunction)
        ensures
            r@ == (ConjunctionView { base: base_form@, conjunction_type, category }),
    {
        Conjunction { base_form: String::from_str(base_form), conjunction_type, category }
    }

    /// The base form.
    pub fn base_form(&self) -> (r: String)
        ensures
            r@ == self@.base,
    {
        self.base_form.clone()
    }

    /// How the conjunction joins its parts.
    pub fn conjunction_type(&self) -> (r: ConjunctionType)
        ensures
            r == self@.conjunction_type,
    {
        self.conjunction_type
    }

    /// The relation the conjunction expresses.
    pub fn category(&self) -> (r: ConjunctionCategory)
        ensures
            r == self@.category,
    {
        self.category
    }
}

/// An interjection's view: the word and its sentiment.
pub struct InterjectionView {
    pub word: Seq<char>,
    pub sentiment: Sentiment,
}

/// An interjection.
pub struct Interjection {
    word: String,
    sentiment: Sentiment,
}

impl View for Interjection {
    type V = InterjectionView;

    closed spec fn view(&self) -> InterjectionView {
        InterjectionView { word: self.word@, sentiment: self.sentiment }
    }
}

impl Interjection {
    /// An interjection with the given word and sentiment.
    pub fn new(word: &str, sentiment: Sentiment) -> (r: Interjection)
        ensures
            r@ == (InterjectionView { word: word@, sentiment }),
    {
        Interjection { word: String::from_str(word), sentiment }
    }

    /// The word.
    pub fn word(&self) -> (r: String)
        ensures
            r@ == self@.word,
    {
        self.word.clone()
    }

    /// The sentiment conveyed.
    pub fn sentiment(&self) -> (r: Sentiment)
        ensures
            r == self@.sentiment,
    {
        self.sentiment
    }
}

/// An article's view: its form, gender and number.
pub struct ArticleView {
    pub form: Seq<char>,
    pub gender: Gender,
    pub number: Number,
}

/// An article.
pub struct Article {
    form: String,
    gender: Gender,
    number: Number,
}

impl View for Article {
    type V = ArticleView;

    closed spec fn view(&self) -> ArticleView {
        ArticleView { form: self.form@, gender: self.gender, number: self.number }
    }
}

impl Article {
    /// An article with the given form, gender and number.
    pub fn new(form: &str, gender: Gender, number: Number) -> (r: Article)
        ensures
            r@ == (ArticleView { form: form@, gender, number }),
    {
        Article { form: String::from_str(form), gender, number }
    }

    /// The form.
    pub fn form(&self) -> (r: String)
        ensures
            r@ == self@.form,
    {
        self.form.clone()
    }

    /// The gender.
    pub fn article_gender(&self) -> (r: Gender)
        ensures
            r == self@.gender,
    {
        self.gender
    }

    /// The number.
    pub fn article_number(&self) -> (r: Number)
        ensures
            r == self@.number,
    {
        self.number
    }
}

} // verus!
