use crate::components::part_of_speech::PartOfSpeech;
use crate::error::{DecodeError, Outcome};
use crate::parsings::PartOfSpeechParsing;
use vstd::prelude::*;

verus! {

/// A conjunction: `Conj`, with no fields; any segment after the code is ignored.
#[derive(Clone, Copy, Debug, PartialEq, Eq, Structural, PartialOrd, Ord, Hash)]
pub struct ConjunctionParsing;

impl PartOfSpeechParsing for ConjunctionParsing {
    open spec fn spec_parse(segments: Seq<Seq<char>>) -> Outcome<ConjunctionParsing> {
        Ok(ConjunctionParsing)
    }

    open spec fn spec_part_of_speech() -> PartOfSpeech {
        PartOfSpeech::Conjunction
    }

    fn part_of_speech() -> (r: PartOfSpeech) {
        PartOfSpeech::Conjunction
    }

    fn parse_segments(segments: &[&str]) -> (r: Result<ConjunctionParsing, DecodeError>) {
        Ok(ConjunctionParsing)
    }
}

} // verus!
