use crate::components::{decode, lemma_same_ignoring_case_key, ComponentCode};
use crate::error::{Category, DecodeError};
use crate::text::{matches_code, same_ignoring_case};
use vstd::prelude::*;

verus! {

/// The grammatical class of a word, the first segment of every code.
#[derive(Clone, Copy, Debug, PartialEq, Eq, Structural, PartialOrd, Ord, Hash)]
pub enum PartOfSpeech {
    /// V
    Verb,
    /// N
    Noun,
    /// Adv
    Adverb,
    /// Adj
    Adjective,
    /// Art
    Article,
    /// DPro
    DemonstrativePronoun,
    /// IPro
    InterrogativeIndefinitePronoun,
    /// PPro
    PersonalPossessivePronoun,
    /// RecPro
    ReciprocalPronoun,
    /// RelPro
    RelativePronoun,
    /// RefPro
    ReflexivePronoun,
    /// Prep
    Preposition,
    /// Conj
    Conjunction,
    /// I
    Interjection,
    /// Prtcl
    Particle,
    /// Heb
    HebrewWord,
    /// Aram
    AramaicWord,
}

impl ComponentCode for PartOfSpeech {
    open spec fn spec_code(&self) -> Seq<char> {
        match self {
            PartOfSpeech::Verb => "V"@,
            PartOfSpeech::Noun => "N"@,
            PartOfSpeech::Adverb => "Adv"@,
            PartOfSpeech::Adjective => "Adj"@,
            PartOfSpeech::Article => "Art"@,
            PartOfSpeech::DemonstrativePronoun => "DPro"@,
            PartOfSpeech::InterrogativeIndefinitePronoun => "IPro"@,
            PartOfSpeech::PersonalPossessivePronoun => "PPro"@,
            PartOfSpeech::ReciprocalPronoun => "RecPro"@,
            PartOfSpeech::RelativePronoun => "RelPro"@,
            PartOfSpeech::ReflexivePronoun => "RefPro"@,
            PartOfSpeech::Preposition => "Prep"@,
            PartOfSpeech::Conjunction => "Conj"@,
            PartOfSpeech::Interjection => "I"@,
            PartOfSpeech::Particle => "Prtcl"@,
            PartOfSpeech::HebrewWord => "Heb"@,
            PartOfSpeech::AramaicWord => "Aram"@,
        }
    }

    open spec fn spec_name(&self) -> Seq<char> {
        match self {
            PartOfSpeech::Verb => "Verb"@,
            PartOfSpeech::Noun => "Noun"@,
            PartOfSpeech::Adverb => "Adverb"@,
            PartOfSpeech::Adjective => "Adjective"@,
            PartOfSpeech::Article => "Article"@,
            PartOfSpeech::DemonstrativePronoun => "Demonstrative Pronoun"@,
            PartOfSpeech::InterrogativeIndefinitePronoun => "Interrogative / Indefinite Pronoun"@,
            PartOfSpeech::PersonalPossessivePronoun => "Personal / Possessive Pronoun"@,
            PartOfSpeech::ReciprocalPronoun => "Reciprocal Pronoun"@,
            PartOfSpeech::RelativePronoun => "Relative Pronoun"@,
            PartOfSpeech::ReflexivePronoun => "Reflexive Pronoun"@,
            PartOfSpeech::Preposition => "Preposition"@,
            PartOfSpeech::Conjunction => "Conjunction"@,
            PartOfSpeech::Interjection => "Interjection"@,
            PartOfSpeech::Particle => "Particle"@,
            PartOfSpeech::HebrewWord => "Hebrew Word"@,
            PartOfSpeech::AramaicWord => "Aramaic Word"@,
        }
    }

    open spec fn spec_category() -> Category {
        Category::PartOfSpeech
    }

    proof fn lemma_codes_distinct(a: PartOfSpeech, b: PartOfSpeech) {
        reveal_strlit("V");
        reveal_strlit("N");
        reveal_strlit("Adv");
        reveal_strlit("Adj");
        reveal_strlit("Art");
        reveal_strlit("DPro");
        reveal_strlit("IPro");
        reveal_strlit("PPro");
        reveal_strlit("RecPro");
        reveal_strlit("RelPro");
        reveal_strlit("RefPro");
        reveal_strlit("Prep");
        reveal_strlit("Conj");
        reveal_strlit("I");
        reveal_strlit("Prtcl");
        reveal_strlit("Heb");
        reveal_strlit("Aram");
        if same_ignoring_case(a.spec_code(), b.spec_code()) {
            lemma_same_ignoring_case_key(a.spec_code(), b.spec_code());
        }
    }

    fn code(&self) -> (r: &'static str) {
        match self {
            PartOfSpeech::Verb => "V",
            PartOfSpeech::Noun => "N",
            PartOfSpeech::Adverb => "Adv",
            PartOfSpeech::Adjective => "Adj",
            PartOfSpeech::Article => "Art",
            PartOfSpeech::DemonstrativePronoun => "DPro",
            PartOfSpeech::InterrogativeIndefinitePronoun => "IPro",
            PartOfSpeech::PersonalPossessivePronoun => "PPro",
            PartOfSpeech::ReciprocalPronoun => "RecPro",
            PartOfSpeech::RelativePronoun => "RelPro",
            PartOfSpeech::ReflexivePronoun => "RefPro",
            PartOfSpeech::Preposition => "Prep",
            PartOfSpeech::Conjunction => "Conj",
            PartOfSpeech::Interjection => "I",
            PartOfSpeech::Particle => "Prtcl",
            PartOfSpeech::HebrewWord => "Heb",
            PartOfSpeech::AramaicWord => "Aram",
        }
    }

    fn code_name(&self) -> (r: &'static str) {
        match self {
            PartOfSpeech::Verb => "Verb",
            PartOfSpeech::Noun => "Noun",
            PartOfSpeech::Adverb => "Adverb",
            PartOfSpeech::Adjective => "Adjective",
            PartOfSpeech::Article => "Article",
            PartOfSpeech::DemonstrativePronoun => "Demonstrative Pronoun",
            PartOfSpeech::InterrogativeIndefinitePronoun => "Interrogative / Indefinite Pronoun",
            PartOfSpeech::PersonalPossessivePronoun => "Personal / Possessive Pronoun",
            PartOfSpeech::ReciprocalPronoun => "Reciprocal Pronoun",
            PartOfSpeech::RelativePronoun => "Relative Pronoun",
            PartOfSpeech::ReflexivePronoun => "Reflexive Pronoun",
            PartOfSpeech::Preposition => "Preposition",
            PartOfSpeech::Conjunction => "Conjunction",
            PartOfSpeech::Interjection => "Interjection",
            PartOfSpeech::Particle => "Particle",
            PartOfSpeech::HebrewWord => "Hebrew Word",
            PartOfSpeech::AramaicWord => "Aramaic Word",
        }
    }

    fn category() -> (r: Category) {
        Category::PartOfSpeech
    }

    fn lookup(s: &str) -> (r: Option<PartOfSpeech>) {
        if matches_code(s, "V") {
            Some(PartOfSpeech::Verb)
        } else if matches_code(s, "N") {
            Some(PartOfSpeech::Noun)
        } else if matches_code(s, "Adv") {
            Some(PartOfSpeech::Adverb)
        } else if matches_code(s, "Adj") {
            Some(PartOfSpeech::Adjective)
        } else if matches_code(s, "Art") {
            Some(PartOfSpeech::Article)
        } else if matches_code(s, "DPro") {
            Some(PartOfSpeech::DemonstrativePronoun)
        } else if matches_code(s, "IPro") {
            Some(PartOfSpeech::InterrogativeIndefinitePronoun)
        } else if matches_code(s, "PPro") {
            Some(PartOfSpeech::PersonalPossessivePronoun)
        } else if matches_code(s, "RecPro") {
            Some(PartOfSpeech::ReciprocalPronoun)
        } else if matches_code(s, "RelPro") {
            Some(PartOfSpeech::RelativePronoun)
        } else if matches_code(s, "RefPro") {
            Some(PartOfSpeech::ReflexivePronoun)
        } else if matches_code(s, "Prep") {
            Some(PartOfSpeech::Preposition)
        } else if matches_code(s, "Conj") {
            Some(PartOfSpeech::Conjunction)
        } else if matches_code(s, "I") {
            Some(PartOfSpeech::Interjection)
        } else if matches_code(s, "Prtcl") {
            Some(PartOfSpeech::Particle)
        } else if matches_code(s, "Heb") {
            Some(PartOfSpeech::HebrewWord)
        } else if matches_code(s, "Aram") {
            Some(PartOfSpeech::AramaicWord)
        } else {
            None
        }
    }
}

impl core::str::FromStr for PartOfSpeech {
    type Err = DecodeError;

    fn from_str(s: &str) -> Result<PartOfSpeech, DecodeError> {
        decode::<PartOfSpeech>(s)
    }
}

} // verus!
