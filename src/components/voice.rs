use crate::components::{decode, lemma_same_ignoring_case_key, ComponentCode};
use crate::error::{Category, DecodeError};
use crate::text::{matches_code, same_ignoring_case};
use vstd::prelude::*;

verus! {

/// Verbal voice.
#[derive(Clone, Copy, Debug, PartialEq, Eq, Structural, PartialOrd, Ord, Hash)]
pub enum Voice {
    /// A
    Active,
    /// M
    Middle,
    /// P
    Passive,
    /// M/P
    MiddlePassive,
}

impl ComponentCode for Voice {
    open spec fn spec_code(&self) -> Seq<char> {
        match self {
            Voice::Active => "A"@,
            Voice::Middle => "M"@,
            Voice::Passive => "P"@,
            Voice::MiddlePassive => "M/P"@,
        }
    }

    open spec fn spec_name(&self) -> Seq<char> {
        match self {
            Voice::Active => "Active"@,
            Voice::Middle => "Middle"@,
            Voice::Passive => "Passive"@,
            Voice::MiddlePassive => "Middle or Passive"@,
        }
    }

    open spec fn spec_category() -> Category {
        Category::Voice
    }

    proof fn lemma_codes_distinct(a: Voice, b: Voice) {
        reveal_strlit("A");
        reveal_strlit("M");
        reveal_strlit("P");
        reveal_strlit("M/P");
        if same_ignoring_case(a.spec_code(), b.spec_code()) {
            lemma_same_ignoring_case_key(a.spec_code(), b.spec_code());
        }
    }

    fn code(&self) -> (r: &'static str) {
        match self {
            Voice::Active => "A",
            Voice::Middle => "M",
            Voice::Passive => "P",
            Voice::MiddlePassive => "M/P",
        }
    }

    fn code_name(&self) -> (r: &'static str) {
        match self {
            Voice::Active => "Active",
            Voice::Middle => "Middle",
            Voice::Passive => "Passive",
            Voice::MiddlePassive => "Middle or Passive",
        }
    }

    fn category() -> (r: Category) {
        Category::Voice
    }

    fn lookup(s: &str) -> (r: Option<Voice>) {
        if matches_code(s, "A") {
            Some(Voice::Active)
        } else if matches_code(s, "M") {
            Some(Voice::Middle)
        } else if matches_code(s, "P") {
            Some(Voice::Passive)
        } else if matches_code(s, "M/P") {
            Some(Voice::MiddlePassive)
        } else {
            None
        }
    }
}

impl core::str::FromStr for Voice {
    type Err = DecodeError;

    fn from_str(s: &str) -> Result<Voice, DecodeError> {
        decode::<Voice>(s)
    }
}

} // verus!
