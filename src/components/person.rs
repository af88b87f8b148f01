use crate::components::{decode, lemma_same_ignoring_case_key, ComponentCode};
use crate::error::{Category, DecodeError};
use crate::text::{matches_code, same_ignoring_case};
use vstd::prelude::*;

verus! {

/// Grammatical person.
#[derive(Clone, Copy, Debug, PartialEq, Eq, Structural, PartialOrd, Ord, Hash)]
pub enum Person {
    /// 1
    First,
    /// 2
    Second,
    /// 3
    Third,
}

impl ComponentCode for Person {
    open spec fn spec_code(&self) -> Seq<char> {
        match self {
            Person::First => "1"@,
            Person::Second => "2"@,
            Person::Third => "3"@,
        }
    }

    open spec fn spec_name(&self) -> Seq<char> {
        match self {
            Person::First => "1st Person"@,
            Person::Second => "2nd Person"@,
            Person::Third => "3rd Person"@,
        }
    }

    open spec fn spec_category() -> Category {
        Category::Person
    }

    proof fn lemma_codes_distinct(a: Person, b: Person) {
        reveal_strlit("1");
        reveal_strlit("2");
        reveal_strlit("3");
        if same_ignoring_case(a.spec_code(), b.spec_code()) {
            lemma_same_ignoring_case_key(a.spec_code(), b.spec_code());
        }
    }

    fn code(&self) -> (r: &'static str) {
        match self {
            Person::First => "1",
            Person::Second => "2",
            Person::Third => "3",
        }
    }

    fn code_name(&self) -> (r: &'static str) {
        match self {
            Person::First => "1st Person",
            Person::Second => "2nd Person",
            Person::Third => "3rd Person",
        }
    }

    fn category() -> (r: Category) {
        Category::Person
    }

    fn lookup(s: &str) -> (r: Option<Person>) {
        if matches_code(s, "1") {
            Some(Person::First)
        } else if matches_code(s, "2") {
            Some(Person::Second)
        } else if matches_code(s, "3") {
            Some(Person::Third)
        } else {
            None
        }
    }
}

impl core::str::FromStr for Person {
    type Err = DecodeError;

    fn from_str(s: &str) -> Result<Person, DecodeError> {
        decode::<Person>(s)
    }
}

} // verus!
