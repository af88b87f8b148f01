use crate::components::case::Case;
use crate::components::gender::Gender;
use crate::components::number::Number;
use crate::components::part_of_speech::PartOfSpeech;
use crate::error::{DecodeError, Outcome};
use crate::parsings::{case_gender_number, segment, segment_at, take_case_gender_number, PartOfSpeechParsing};
use vstd::prelude::*;

verus! {

/// A relative pronoun: `RelPro-AFP`, case, gender and number, all required.
#[derive(Clone, Copy, Debug, PartialEq, Eq, Structural, PartialOrd, Ord, Hash)]
pub struct RelativePronounParsing {
    pub gender: Gender,
    pub number: Number,
    pub case: Case,
}

impl PartOfSpeechParsing for RelativePronounParsing {
    open spec fn spec_parse(segments: Seq<Seq<char>>) -> Outcome<RelativePronounParsing> {
        match case_gender_number(segment(segments, 0)) {
            Err(e) => Err(e),
            Ok((case, gender, number)) => Ok(RelativePronounParsing { gender, number, case }),
        }
    }

    open spec fn spec_part_of_speech() -> PartOfSpeech {
        PartOfSpeech::RelativePronoun
    }

    fn part_of_speech() -> (r: PartOfSpeech) {
        PartOfSpeech::RelativePronoun
    }

    fn parse_segments(segments: &[&str]) -> (r: Result<RelativePronounParsing, DecodeError>) {
        match take_case_gender_number(segment_at(segments, 0)) {
            Err(e) => Err(e),
            Ok((case, gender, number)) => Ok(RelativePronounParsing { gender, number, case }),
        }
    }
}

impl RelativePronounParsing {
    pub fn case(&self) -> (r: Option<Case>)
        ensures
            r == Some(self.case),
    {
        Some(self.case)
    }

    pub fn gender(&self) -> (r: Option<Gender>)
        ensures
            r == Some(self.gender),
    {
        Some(self.gender)
    }

    pub fn number(&self) -> (r: Option<Number>)
        ensures
            r == Some(self.number),
    {
        Some(self.number)
    }
}

} // verus!
