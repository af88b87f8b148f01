use crate::components::case::Case;
use crate::components::comparison::Comparison;
use crate::components::gender::Gender;
use crate::components::number::Number;
use crate::components::part_of_speech::PartOfSpeech;
use crate::components::{decode, read_code};
use crate::error::{DecodeError, Outcome};
use crate::parsings::{case_gender_number, take_case_gender_number, PartOfSpeechParsing};
use vstd::prelude::*;

verus! {

/// The case, gender, number and comparison of an adjective.
#[derive(Clone, Copy, Debug, PartialEq, Eq, Structural, PartialOrd, Ord, Hash)]
pub struct AdjectiveData {
    pub gender: Gender,
    pub number: Number,
    pub case: Case,
    pub comparison: Option<Comparison>,
}

/// An adjective: `Adj`, with no fields; `Adj-AFP`, case, gender and number, all
/// three or none; `Adj-AFP-C`, with a second segment that is the comparison.
#[derive(Clone, Copy, Debug, PartialEq, Eq, Structural, PartialOrd, Ord, Hash)]
pub struct AdjectiveParsing(pub Option<AdjectiveData>);

impl PartOfSpeechParsing for AdjectiveParsing {
    open spec fn spec_parse(segments: Seq<Seq<char>>) -> Outcome<AdjectiveParsing> {
        if segments.len() == 0 {
            Ok(AdjectiveParsing(None))
        } else {
            match case_gender_number(segments[0]) {
                Err(e) => Err(e),
                Ok((case, gender, number)) => if segments.len() == 1 {
                    Ok(AdjectiveParsing(Some(AdjectiveData { gender, number, case, comparison: None })))
                } else {
                    match read_code::<Comparison>(segments[1]) {
                        Err(e) => Err(e),
                        Ok(c) => Ok(
                            AdjectiveParsing(Some(AdjectiveData { gender, number, case, comparison: Some(c) })),
                        ),
                    }
                },
            }
        }
    }

    open spec fn spec_part_of_speech() -> PartOfSpeech {
        PartOfSpeech::Adjective
    }

    fn part_of_speech() -> (r: PartOfSpeech) {
        PartOfSpeech::Adjective
    }

    fn parse_segments(segments: &[&str]) -> (r: Result<AdjectiveParsing, DecodeError>) {
        if segments.len() == 0 {
            return Ok(AdjectiveParsing(None));
        }
        let (case, gender, number) = match take_case_gender_number(segments[0]) {
            Ok(v) => v,
            Err(e) => return Err(e),
        };
        let comparison = if segments.len() > 1 {
            match decode::<Comparison>(segments[1]) {
                Ok(c) => Some(c),
                Err(e) => return Err(e),
            }
        } else {
            None
        };
        Ok(AdjectiveParsing(Some(AdjectiveData { gender, number, case, comparison })))
    }
}

impl core::ops::Deref for AdjectiveParsing {
    type Target = Option<AdjectiveData>;

    fn deref(&self) -> &Option<AdjectiveData> {
        &self.0
    }
}

impl AdjectiveParsing {
    pub fn case(&self) -> (r: Option<Case>)
        ensures
            r == match self.0 { Some(d) => Some(d.case), None => None },
    {
        match self.0 { Some(d) => Some(d.case), None => None }
    }

    pub fn comparison(&self) -> (r: Option<Comparison>)
        ensures
            r == match self.0 { Some(d) => d.comparison, None => None },
    {
        match self.0 { Some(d) => d.comparison, None => None }
    }

    pub fn gender(&self) -> (r: Option<Gender>)
        ensures
            r == match self.0 { Some(d) => Some(d.gender), None => None },
    {
        match self.0 { Some(d) => Some(d.gender), None => None }
    }

    pub fn number(&self) -> (r: Option<Number>)
        ensures
            r == match self.0 { Some(d) => Some(d.number), None => None },
    {
        match self.0 { Some(d) => Some(d.number), None => None }
    }
}

} // verus!
