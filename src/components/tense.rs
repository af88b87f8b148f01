use crate::components::{decode, lemma_same_ignoring_case_key, ComponentCode};
use crate::error::{Category, DecodeError};
use crate::text::{matches_code, same_ignoring_case};
use vstd::prelude::*;

verus! {

/// Verbal tense.
#[derive(Clone, Copy, Debug, PartialEq, Eq, Structural, PartialOrd, Ord, Hash)]
pub enum Tense {
    /// P
    Present,
    /// I
    Imperfect,
    /// F
    Future,
    /// A
    Aorist,
    /// R
    Perfect,
    /// L
    Pluperfect,
}

impl ComponentCode for Tense {
    open spec fn spec_code(&self) -> Seq<char> {
        match self {
            Tense::Present => "P"@,
            Tense::Imperfect => "I"@,
            Tense::Future => "F"@,
            Tense::Aorist => "A"@,
            Tense::Perfect => "R"@,
            Tense::Pluperfect => "L"@,
        }
    }

    open spec fn spec_name(&self) -> Seq<char> {
        match self {
            Tense::Present => "Present"@,
            Tense::Imperfect => "Imperfect"@,
            Tense::Future => "Future"@,
            Tense::Aorist => "Aorist"@,
            Tense::Perfect => "Perfect"@,
            Tense::Pluperfect => "Pluperfect"@,
        }
    }

    open spec fn spec_category() -> Category {
        Category::Tense
    }

    proof fn lemma_codes_distinct(a: Tense, b: Tense) {
        reveal_strlit("P");
        reveal_strlit("I");
        reveal_strlit("F");
        reveal_strlit("A");
        reveal_strlit("R");
        reveal_strlit("L");
        if same_ignoring_case(a.spec_code(), b.spec_code()) {
            lemma_same_ignoring_case_key(a.spec_code(), b.spec_code());
        }
    }

    fn code(&self) -> (r: &'static str) {
        match self {
            Tense::Present => "P",
            Tense::Imperfect => "I",
            Tense::Future => "F",
            Tense::Aorist => "A",
            Tense::Perfect => "R",
            Tense::Pluperfect => "L",
        }
    }

    fn code_name(&self) -> (r: &'static str) {
        match self {
            Tense::Present => "Present",
            Tense::Imperfect => "Imperfect",
            Tense::Future => "Future",
            Tense::Aorist => "Aorist",
            Tense::Perfect => "Perfect",
            Tense::Pluperfect => "Pluperfect",
        }
    }

    fn category() -> (r: Category) {
        Category::Tense
    }

    fn lookup(s: &str) -> (r: Option<Tense>) {
        if matches_code(s, "P") {
            Some(Tense::Present)
        } else if matches_code(s, "I") {
            Some(Tense::Imperfect)
        } else if matches_code(s, "F") {
            Some(Tense::Future)
        } else if matches_code(s, "A") {
            Some(Tense::Aorist)
        } else if matches_code(s, "R") {
            Some(Tense::Perfect)
        } else if matches_code(s, "L") {
            Some(Tense::Pluperfect)
        } else {
            None
        }
    }
}

impl core::str::FromStr for Tense {
    type Err = DecodeError;

    fn from_str(s: &str) -> Result<Tense, DecodeError> {
        decode::<Tense>(s)
    }
}

} // verus!
