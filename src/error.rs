use vstd::prelude::*;

verus! {

/// What a decoding step was looking for when it failed.
#[derive(Clone, Copy, Debug, PartialEq, Eq, Structural, Hash)]
pub enum Category {
    Case,
    Comparison,
    Gender,
    Mood,
    Number,
    PartOfSpeech,
    Person,
    Tense,
    Voice,
}

/// A code, or a part of one, that does not fit the grammar it was read with.
///
/// `input` is the offending text: empty where a required field was missing.
#[derive(Clone, Debug, PartialEq, Eq)]
pub struct DecodeError {
    pub category: Category,
    pub input: String,
}

/// The outcome of a decoding step as the contracts speak of it: the value, or the
/// category that failed with the offending text.
pub type Outcome<T> = Result<T, (Category, Seq<char>)>;

/// An executable result seen as an [`Outcome`].
pub open spec fn outcome<T>(r: Result<T, DecodeError>) -> Outcome<T> {
    match r {
        Ok(v) => Ok(v),
        Err(e) => Err((e.category, e.input@)),
    }
}

impl DecodeError {
    pub fn new(category: Category, input: &str) -> (r: DecodeError)
        ensures
            r.category == category,
            r.input@ == input@,
    {
        DecodeError { category, input: input.to_owned() }
    }
}

} // verus!
