use crate::components::part_of_speech::PartOfSpeech;
use crate::error::{DecodeError, Outcome};
use crate::parsings::PartOfSpeechParsing;
use vstd::prelude::*;

verus! {

/// A particle: `Prtcl`, with no fields; any segment after the code is ignored.
#[derive(Clone, Copy, Debug, PartialEq, Eq, Structural, PartialOrd, Ord, Hash)]
pub struct ParticleParsing;

impl PartOfSpeechParsing for ParticleParsing {
    open spec fn spec_parse(segments: Seq<Seq<char>>) -> Outcome<ParticleParsing> {
        Ok(ParticleParsing)
    }

    open spec fn spec_part_of_speech() -> PartOfSpeech {
        PartOfSpeech::Particle
    }

    fn part_of_speech() -> (r: PartOfSpeech) {
        PartOfSpeech::Particle
    }

    fn parse_segments(segments: &[&str]) -> (r: Result<ParticleParsing, DecodeError>) {
        Ok(ParticleParsing)
    }
}

} // verus!
