use crate::components::part_of_speech::PartOfSpeech;
use crate::error::{DecodeError, Outcome};
use crate::parsings::PartOfSpeechParsing;
use vstd::prelude::*;

verus! {

/// An Aramaic word: `Aram`, with no fields; any segment after the code is ignored.
#[derive(Clone, Copy, Debug, PartialEq, Eq, Structural, PartialOrd, Ord, Hash)]
pub struct AramaicWordParsing;

impl PartOfSpeechParsing for AramaicWordParsing {
    open spec fn spec_parse(segments: Seq<Seq<char>>) -> Outcome<AramaicWordParsing> {
        Ok(AramaicWordParsing)
    }

    open spec fn spec_part_of_speech() -> PartOfSpeech {
        PartOfSpeech::AramaicWord
    }

    fn part_of_speech() -> (r: PartOfSpeech) {
        PartOfSpeech::AramaicWord
    }

    fn parse_segments(segments: &[&str]) -> (r: Result<AramaicWordParsing, DecodeError>) {
        Ok(AramaicWordParsing)
    }
}

} // verus!
