use crate::components::part_of_speech::PartOfSpeech;
use crate::error::{DecodeError, Outcome};
use crate::parsings::PartOfSpeechParsing;
use vstd::prelude::*;

verus! {

/// A preposition: `Prep`, with no fields; any segment after the code is ignored.
#[derive(Clone, Copy, Debug, PartialEq, Eq, Structural, PartialOrd, Ord, Hash)]
pub struct PrepositionParsing;

impl PartOfSpeechParsing for PrepositionParsing {
    open spec fn spec_parse(segments: Seq<Seq<char>>) -> Outcome<PrepositionParsing> {
        Ok(PrepositionParsing)
    }

    open spec fn spec_part_of_speech() -> PartOfSpeech {
        PartOfSpeech::Preposition
    }

    fn part_of_speech() -> (r: PartOfSpeech) {
        PartOfSpeech::Preposition
    }

    fn parse_segments(segments: &[&str]) -> (r: Result<PrepositionParsing, DecodeError>) {
        Ok(PrepositionParsing)
    }
}

} // verus!
