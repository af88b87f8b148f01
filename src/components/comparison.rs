use crate::components::{decode, lemma_same_ignoring_case_key, ComponentCode};
use crate::error::{Category, DecodeError};
use crate::text::{matches_code, same_ignoring_case};
use vstd::prelude::*;

verus! {

/// Degree of comparison.
#[derive(Clone, Copy, Debug, PartialEq, Eq, Structural, PartialOrd, Ord, Hash)]
pub enum Comparison {
    /// C
    Comparative,
    /// S
    Superlative,
}

impl ComponentCode for Comparison {
    open spec fn spec_code(&self) -> Seq<char> {
        match self {
            Comparison::Comparative => "C"@,
            Comparison::Superlative => "S"@,
        }
    }

    open spec fn spec_name(&self) -> Seq<char> {
        match self {
            Comparison::Comparative => "Comparative"@,
            Comparison::Superlative => "Superlative"@,
        }
    }

    open spec fn spec_category() -> Category {
        Category::Comparison
    }

    proof fn lemma_codes_distinct(a: Comparison, b: Comparison) {
        reveal_strlit("C");
        reveal_strlit("S");
        if same_ignoring_case(a.spec_code(), b.spec_code()) {
            lemma_same_ignoring_case_key(a.spec_code(), b.spec_code());
        }
    }

    fn code(&self) -> (r: &'static str) {
        match self {
            Comparison::Comparative => "C",
            Comparison::Superlative => "S",
        }
    }

    fn code_name(&self) -> (r: &'static str) {
        match self {
            Comparison::Comparative => "Comparative",
            Comparison::Superlative => "Superlative",
        }
    }

    fn category() -> (r: Category) {
        Category::Comparison
    }

    fn lookup(s: &str) -> (r: Option<Comparison>) {
        if matches_code(s, "C") {
            Some(Comparison::Comparative)
        } else if matches_code(s, "S") {
            Some(Comparison::Superlative)
        } else {
            None
        }
    }
}

impl core::str::FromStr for Comparison {
    type Err = DecodeError;

    fn from_str(s: &str) -> Result<Comparison, DecodeError> {
        decode::<Comparison>(s)
    }
}

} // verus!
