use crate::components::{decode, lemma_same_ignoring_case_key, ComponentCode};
use crate::error::{Category, DecodeError};
use crate::text::{matches_code, same_ignoring_case};
use vstd::prelude::*;

verus! {

/// Grammatical case.
#[derive(Clone, Copy, Debug, PartialEq, Eq, Structural, PartialOrd, Ord, Hash)]
pub enum Case {
    /// N
    Nominative,
    /// V
    Vocative,
    /// A
    Accusative,
    /// G
    Genitive,
    /// D
    Dative,
}

impl ComponentCode for Case {
    open spec fn spec_code(&self) -> Seq<char> {
        match self {
            Case::Nominative => "N"@,
            Case::Vocative => "V"@,
            Case::Accusative => "A"@,
            Case::Genitive => "G"@,
            Case::Dative => "D"@,
        }
    }

    open spec fn spec_name(&self) -> Seq<char> {
        match self {
            Case::Nominative => "Nominative"@,
            Case::Vocative => "Vocative"@,
            Case::Accusative => "Accusative"@,
            Case::Genitive => "Genitive"@,
            Case::Dative => "Dative"@,
        }
    }

    open spec fn spec_category() -> Category {
        Category::Case
    }

    proof fn lemma_codes_distinct(a: Case, b: Case) {
        reveal_strlit("N");
        reveal_strlit("V");
        reveal_strlit("A");
        reveal_strlit("G");
        reveal_strlit("D");
        if same_ignoring_case(a.spec_code(), b.spec_code()) {
            lemma_same_ignoring_case_key(a.spec_code(), b.spec_code());
        }
    }

    fn code(&self) -> (r: &'static str) {
        match self {
            Case::Nominative => "N",
            Case::Vocative => "V",
            Case::Accusative => "A",
            Case::Genitive => "G",
            Case::Dative => "D",
        }
    }

    fn code_name(&self) -> (r: &'static str) {
        match self {
            Case::Nominative => "Nominative",
            Case::Vocative => "Vocative",
            Case::Accusative => "Accusative",
            Case::Genitive => "Genitive",
            Case::Dative => "Dative",
        }
    }

    fn category() -> (r: Category) {
        Category::Case
    }

    fn lookup(s: &str) -> (r: Option<Case>) {
        if matches_code(s, "N") {
            Some(Case::Nominative)
        } else if matches_code(s, "V") {
            Some(Case::Vocative)
        } else if matches_code(s, "A") {
            Some(Case::Accusative)
        } else if matches_code(s, "G") {
            Some(Case::Genitive)
        } else if matches_code(s, "D") {
            Some(Case::Dative)
        } else {
            None
        }
    }
}

impl core::str::FromStr for Case {
    type Err = DecodeError;

    fn from_str(s: &str) -> Result<Case, DecodeError> {
        decode::<Case>(s)
    }
}

} // verus!
