use crate::components::case::Case;
use crate::components::gender::Gender;
use crate::components::number::Number;
use crate::components::part_of_speech::PartOfSpeech;
use crate::error::{DecodeError, Outcome};
use crate::parsings::{case_gender_number, take_case_gender_number, PartOfSpeechParsing};
use vstd::prelude::*;

verus! {

/// The case, gender and number of a noun or adjective.
#[derive(Clone, Copy, Debug, PartialEq, Eq, Structural, PartialOrd, Ord, Hash)]
pub struct NounData {
    pub gender: Gender,
    pub number: Number,
    pub case: Case,
}

/// A noun: `N`, with no fields, or `N-AFP`, case, gender and number, all three
/// or none.
#[derive(Clone, Copy, Debug, PartialEq, Eq, Structural, PartialOrd, Ord, Hash)]
pub struct NounParsing(pub Option<NounData>);

impl PartOfSpeechParsing for NounParsing {
    open spec fn spec_parse(segments: Seq<Seq<char>>) -> Outcome<NounParsing> {
        if segments.len() == 0 {
            Ok(NounParsing(None))
        } else {
            match case_gender_number(segments[0]) {
                Err(e) => Err(e),
                Ok((case, gender, number)) => Ok(NounParsing(Some(NounData { gender, number, case }))),
            }
        }
    }

    open spec fn spec_part_of_speech() -> PartOfSpeech {
        PartOfSpeech::Noun
    }

    fn part_of_speech() -> (r: PartOfSpeech) {
        PartOfSpeech::Noun
    }

    fn parse_segments(segments: &[&str]) -> (r: Result<NounParsing, DecodeError>) {
        if segments.len() == 0 {
            return Ok(NounParsing(None));
        }
        match take_case_gender_number(segments[0]) {
            Err(e) => Err(e),
            Ok((case, gender, number)) => Ok(NounParsing(Some(NounData { gender, number, case }))),
        }
    }
}

impl core::ops::Deref for NounParsing {
    type Target = Option<NounData>;

    fn deref(&self) -> &Option<NounData> {
        &self.0
    }
}

impl NounParsing {
    pub fn case(&self) -> (r: Option<Case>)
        ensures
            r == match self.0 { Some(d) => Some(d.case), None => None },
    {
        match self.0 { Some(d) => Some(d.case), None => None }
    }

    pub fn gender(&self) -> (r: Option<Gender>)
        ensures
            r == match self.0 { Some(d) => Some(d.gender), None => None },
    {
        match self.0 { Some(d) => Some(d.gender), None => None }
    }

    pub fn number(&self) -> (r: Option<Number>)
        ensures
            r == match self.0 { Some(d) => Some(d.number), None => None },
    {
        match self.0 { Some(d) => Some(d.number), None => None }
    }
}

} // verus!
