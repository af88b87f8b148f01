use crate::components::case::Case;
use crate::components::gender::Gender;
use crate::components::number::Number;
use crate::components::part_of_speech::PartOfSpeech;
use crate::error::{DecodeError, Outcome};
use crate::parsings::{case_gender_number, segment, segment_at, take_case_gender_number, PartOfSpeechParsing};
use vstd::prelude::*;

verus! {

/// An article: `Art-AFP`, case, gender and number, all required.
#[derive(Clone, Copy, Debug, PartialEq, Eq, Structural, PartialOrd, Ord, Hash)]
pub struct ArticleParsing {
    pub gender: Gender,
    pub number: Number,
    pub case: Case,
}

impl PartOfSpeechParsing for ArticleParsing {
    open spec fn spec_parse(segments: Seq<Seq<char>>) -> Outcome<ArticleParsing> {
        match case_gender_number(segment(segments, 0)) {
            Err(e) => Err(e),
            Ok((case, gender, number)) => Ok(ArticleParsing { gender, number, case }),
        }
    }

    open spec fn spec_part_of_speech() -> PartOfSpeech {
        PartOfSpeech::Article
    }

    fn part_of_speech() -> (r: PartOfSpeech) {
        PartOfSpeech::Article
    }

    fn parse_segments(segments: &[&str]) -> (r: Result<ArticleParsing, DecodeError>) {
        match take_case_gender_number(segment_at(segments, 0)) {
            Err(e) => Err(e),
            Ok((case, gender, number)) => Ok(ArticleParsing { gender, number, case }),
        }
    }
}

impl ArticleParsing {
    pub fn case(&self) -> (r: Option<Case>)
        ensures
            r == Some(self.case),
    {
        Some(self.case)
    }

    pub fn gender(&self) -> (r: Option<Gender>)
        ensures
            r == Some(self.gender),
    {
        Some(self.gender)
    }

    pub fn number(&self) -> (r: Option<Number>)
        ensures
            r == Some(self.number),
    {
        Some(self.number)
    }
}

} // verus!
