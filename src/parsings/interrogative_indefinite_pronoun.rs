use crate::components::case::Case;
use crate::components::gender::Gender;
use crate::components::number::Number;
use crate::components::part_of_speech::PartOfSpeech;
use crate::error::{DecodeError, Outcome};
use crate::parsings::{case_gender_number, segment, segment_at, take_case_gender_number, PartOfSpeechParsing};
use vstd::prelude::*;

verus! {

/// An interrogative or indefinite pronoun: `IPro-AFP`, case, gender and number, all required.
#[derive(Clone, Copy, Debug, PartialEq, Eq, Structural, PartialOrd, Ord, Hash)]
pub struct InterrogativeIndefinitePronounParsing {
    pub gender: Gender,
    pub number: Number,
    pub case: Case,
}

impl PartOfSpeechParsing for InterrogativeIndefinitePronounParsing {
    open spec fn spec_parse(segments: Seq<Seq<char>>) -> Outcome<InterrogativeIndefinitePronounParsing> {
        match case_gender_number(segment(segments, 0)) {
            Err(e) => Err(e),
            Ok((case, gender, number)) => Ok(InterrogativeIndefinitePronounParsing { gender, number, case }),
        }
    }

    open spec fn spec_part_of_speech() -> PartOfSpeech {
        PartOfSpeech::InterrogativeIndefinitePronoun
    }

    fn part_of_speech() -> (r: PartOfSpeech) {
        PartOfSpeech::InterrogativeIndefinitePronoun
    }

    fn parse_segments(segments: &[&str]) -> (r: Result<InterrogativeIndefinitePronounParsing, DecodeError>) {
        match take_case_gender_number(segment_at(segments, 0)) {
            Err(e) => Err(e),
            Ok((case, gender, number)) => Ok(InterrogativeIndefinitePronounParsing { gender, number, case }),
        }
    }
}

impl InterrogativeIndefinitePronounParsing {
    pub fn case(&self) -> (r: Option<Case>)
        ensures
            r == Some(self.case),
    {
        Some(self.case)
    }

    pub fn gender(&self) -> (r: Option<Gender>)
        ensures
            r == Some(self.gender),
    {
        Some(self.gender)
    }

    pub fn number(&self) -> (r: Option<Number>)
        ensures
            r == Some(self.number),
    {
        Some(self.number)
    }
}

} // verus!
