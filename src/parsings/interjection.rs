use crate::components::part_of_speech::PartOfSpeech;
use crate::error::{DecodeError, Outcome};
use crate::parsings::PartOfSpeechParsing;
use vstd::prelude::*;

verus! {

/// An interjection: `I`, with no fields; any segment after the code is ignored.
#[derive(Clone, Copy, Debug, PartialEq, Eq, Structural, PartialOrd, Ord, Hash)]
pub struct InterjectionParsing;

impl PartOfSpeechParsing for InterjectionParsing {
    open spec fn spec_parse(segments: Seq<Seq<char>>) -> Outcome<InterjectionParsing> {
        Ok(InterjectionParsing)
    }

    open spec fn spec_part_of_speech() -> PartOfSpeech {
        PartOfSpeech::Interjection
    }

    fn part_of_speech() -> (r: PartOfSpeech) {
        PartOfSpeech::Interjection
    }

    fn parse_segments(segments: &[&str]) -> (r: Result<InterjectionParsing, DecodeError>) {
        Ok(InterjectionParsing)
    }
}

} // verus!
