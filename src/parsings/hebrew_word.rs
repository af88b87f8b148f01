use crate::components::part_of_speech::PartOfSpeech;
use crate::error::{DecodeError, Outcome};
use crate::parsings::PartOfSpeechParsing;
use vstd::prelude::*;

verus! {

/// A Hebrew word: `Heb`, with no fields; any segment after the code is ignored.
#[derive(Clone, Copy, Debug, PartialEq, Eq, Structural, PartialOrd, Ord, Hash)]
pub struct HebrewWordParsing;

impl PartOfSpeechParsing for HebrewWordParsing {
    open spec fn spec_parse(segments: Seq<Seq<char>>) -> Outcome<HebrewWordParsing> {
        Ok(HebrewWordParsing)
    }

    open spec fn spec_part_of_speech() -> PartOfSpeech {
        PartOfSpeech::HebrewWord
    }

    fn part_of_speech() -> (r: PartOfSpeech) {
        PartOfSpeech::HebrewWord
    }

    fn parse_segments(segments: &[&str]) -> (r: Result<HebrewWordParsing, DecodeError>) {
        Ok(HebrewWordParsing)
    }
}

} // verus!
