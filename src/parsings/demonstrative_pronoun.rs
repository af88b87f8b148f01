use crate::components::case::Case;
use crate::components::gender::Gender;
use crate::components::number::Number;
use crate::components::part_of_speech::PartOfSpeech;
use crate::error::{DecodeError, Outcome};
use crate::parsings::{case_gender_number, segment, segment_at, take_case_gender_number, PartOfSpeechParsing};
use vstd::prelude::*;

verus! {

/// A demonstrative pronoun: `DPro-AFP`, case, gender and number, all required.
#[derive(Clone, Copy, Debug, PartialEq, Eq, Structural, PartialOrd, Ord, Hash)]
pub struct DemonstrativePronounParsing {
    pub gender: Gender,
    pub number: Number,
    pub case: Case,
}

impl PartOfSpeechParsing for DemonstrativePronounParsing {
    open spec fn spec_parse(segments: Seq<Seq<char>>) -> Outcome<DemonstrativePronounParsing> {
        match case_gender_number(segment(segments, 0)) {
            Err(e) => Err(e),
            Ok((case, gender, number)) => Ok(DemonstrativePronounParsing { gender, number, case }),
        }
    }

    open spec fn spec_part_of_speech() -> PartOfSpeech {
        PartOfSpeech::DemonstrativePronoun
    }

    fn part_of_speech() -> (r: PartOfSpeech) {
        PartOfSpeech::DemonstrativePronoun
    }

    fn parse_segments(segments: &[&str]) -> (r: Result<DemonstrativePronounParsing, DecodeError>) {
        match take_case_gender_number(segment_at(segments, 0)) {
            Err(e) => Err(e),
            Ok((case, gender, number)) => Ok(DemonstrativePronounParsing { gender, number, case }),
        }
    }
}

impl DemonstrativePronounParsing {
    pub fn case(&self) -> (r: Option<Case>)
        ensures
            r == Some(self.case),
    {
        Some(self.case)
    }

    pub fn gender(&self) -> (r: Option<Gender>)
        ensures
            r == Some(self.gender),
    {
        Some(self.gender)
    }

    pub fn number(&self) -> (r: Option<Number>)
        ensures
            r == Some(self.number),
    {
        Some(self.number)
    }
}

} // verus!
