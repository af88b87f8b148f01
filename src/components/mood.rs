use crate::components::{decode, lemma_same_ignoring_case_key, ComponentCode};
use crate::error::{Category, DecodeError};
use crate::text::{matches_code, same_ignoring_case};
use vstd::prelude::*;

verus! {

/// Verbal mood.
#[derive(Clone, Copy, Debug, PartialEq, Eq, Structural, PartialOrd, Ord, Hash)]
pub enum Mood {
    /// I
    Indicative,
    /// M
    Imperative,
    /// S
    Subjunctive,
    /// O
    Optative,
    /// N
    Infinitive,
    /// P
    Participle,
}

impl ComponentCode for Mood {
    open spec fn spec_code(&self) -> Seq<char> {
        match self {
            Mood::Indicative => "I"@,
            Mood::Imperative => "M"@,
            Mood::Subjunctive => "S"@,
            Mood::Optative => "O"@,
            Mood::Infinitive => "N"@,
            Mood::Participle => "P"@,
        }
    }

    open spec fn spec_name(&self) -> Seq<char> {
        match self {
            Mood::Indicative => "Indicative"@,
            Mood::Imperative => "Imperative"@,
            Mood::Subjunctive => "Subjunctive"@,
            Mood::Optative => "Optative"@,
            Mood::Infinitive => "Infinitive"@,
            Mood::Participle => "Participle"@,
        }
    }

    open spec fn spec_category() -> Category {
        Category::Mood
    }

    proof fn lemma_codes_distinct(a: Mood, b: Mood) {
        reveal_strlit("I");
        reveal_strlit("M");
        reveal_strlit("S");
        reveal_strlit("O");
        reveal_strlit("N");
        reveal_strlit("P");
        if same_ignoring_case(a.spec_code(), b.spec_code()) {
            lemma_same_ignoring_case_key(a.spec_code(), b.spec_code());
        }
    }

    fn code(&self) -> (r: &'static str) {
        match self {
            Mood::Indicative => "I",
            Mood::Imperative => "M",
            Mood::Subjunctive => "S",
            Mood::Optative => "O",
            Mood::Infinitive => "N",
            Mood::Participle => "P",
        }
    }

    fn code_name(&self) -> (r: &'static str) {
        match self {
            Mood::Indicative => "Indicative",
            Mood::Imperative => "Imperative",
            Mood::Subjunctive => "Subjunctive",
            Mood::Optative => "Optative",
            Mood::Infinitive => "Infinitive",
            Mood::Participle => "Participle",
        }
    }

    fn category() -> (r: Category) {
        Category::Mood
    }

    fn lookup(s: &str) -> (r: Option<Mood>) {
        if matches_code(s, "I") {
            Some(Mood::Indicative)
        } else if matches_code(s, "M") {
            Some(Mood::Imperative)
        } else if matches_code(s, "S") {
            Some(Mood::Subjunctive)
        } else if matches_code(s, "O") {
            Some(Mood::Optative)
        } else if matches_code(s, "N") {
            Some(Mood::Infinitive)
        } else if matches_code(s, "P") {
            Some(Mood::Participle)
        } else {
            None
        }
    }
}

impl core::str::FromStr for Mood {
    type Err = DecodeError;

    fn from_str(s: &str) -> Result<Mood, DecodeError> {
        decode::<Mood>(s)
    }
}

} // verus!
