use crate::components::{decode, lemma_same_ignoring_case_key, ComponentCode};
use crate::error::{Category, DecodeError};
use crate::text::{matches_code, same_ignoring_case};
use vstd::prelude::*;

verus! {

/// Grammatical number.
#[derive(Clone, Copy, Debug, PartialEq, Eq, Structural, PartialOrd, Ord, Hash)]
pub enum Number {
    /// S
    Singular,
    /// P
    Plural,
}

impl ComponentCode for Number {
    open spec fn spec_code(&self) -> Seq<char> {
        match self {
            Number::Singular => "S"@,
            Number::Plural => "P"@,
        }
    }

    open spec fn spec_name(&self) -> Seq<char> {
        match self {
            Number::Singular => "Singular"@,
            Number::Plural => "Plural"@,
        }
    }

    open spec fn spec_category() -> Category {
        Category::Number
    }

    proof fn lemma_codes_distinct(a: Number, b: Number) {
        reveal_strlit("S");
        reveal_strlit("P");
        if same_ignoring_case(a.spec_code(), b.spec_code()) {
            lemma_same_ignoring_case_key(a.spec_code(), b.spec_code());
        }
    }

    fn code(&self) -> (r: &'static str) {
        match self {
            Number::Singular => "S",
            Number::Plural => "P",
        }
    }

    fn code_name(&self) -> (r: &'static str) {
        match self {
            Number::Singular => "Singular",
            Number::Plural => "Plural",
        }
    }

    fn category() -> (r: Category) {
        Category::Number
    }

    fn lookup(s: &str) -> (r: Option<Number>) {
        if matches_code(s, "S") {
            Some(Number::Singular)
        } else if matches_code(s, "P") {
            Some(Number::Plural)
        } else {
            None
        }
    }
}

impl core::str::FromStr for Number {
    type Err = DecodeError;

    fn from_str(s: &str) -> Result<Number, DecodeError> {
        decode::<Number>(s)
    }
}

} // verus!
