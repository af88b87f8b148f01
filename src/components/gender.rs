use crate::components::{decode, lemma_same_ignoring_case_key, ComponentCode};
use crate::error::{Category, DecodeError};
use crate::text::{matches_code, same_ignoring_case};
use vstd::prelude::*;

verus! {

/// Grammatical gender.
#[derive(Clone, Copy, Debug, PartialEq, Eq, Structural, PartialOrd, Ord, Hash)]
pub enum Gender {
    /// M
    Masculine,
    /// F
    Feminine,
    /// N
    Neuter,
}

impl ComponentCode for Gender {
    open spec fn spec_code(&self) -> Seq<char> {
        match self {
            Gender::Masculine => "M"@,
            Gender::Feminine => "F"@,
            Gender::Neuter => "N"@,
        }
    }

    open spec fn spec_name(&self) -> Seq<char> {
        match self {
            Gender::Masculine => "Masculine"@,
            Gender::Feminine => "Feminine"@,
            Gender::Neuter => "Neuter"@,
        }
    }

    open spec fn spec_category() -> Category {
        Category::Gender
    }

    proof fn lemma_codes_distinct(a: Gender, b: Gender) {
        reveal_strlit("M");
        reveal_strlit("F");
        reveal_strlit("N");
        if same_ignoring_case(a.spec_code(), b.spec_code()) {
            lemma_same_ignoring_case_key(a.spec_code(), b.spec_code());
        }
    }

    fn code(&self) -> (r: &'static str) {
        match self {
            Gender::Masculine => "M",
            Gender::Feminine => "F",
            Gender::Neuter => "N",
        }
    }

    fn code_name(&self) -> (r: &'static str) {
        match self {
            Gender::Masculine => "Masculine",
            Gender::Feminine => "Feminine",
            Gender::Neuter => "Neuter",
        }
    }

    fn category() -> (r: Category) {
        Category::Gender
    }

    fn lookup(s: &str) -> (r: Option<Gender>) {
        if matches_code(s, "M") {
            Some(Gender::Masculine)
        } else if matches_code(s, "F") {
            Some(Gender::Feminine)
        } else if matches_code(s, "N") {
            Some(Gender::Neuter)
        } else {
            None
        }
    }
}

impl core::str::FromStr for Gender {
    type Err = DecodeError;

    fn from_str(s: &str) -> Result<Gender, DecodeError> {
        decode::<Gender>(s)
    }
}

} // verus!
