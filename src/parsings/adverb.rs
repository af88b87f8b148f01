use crate::components::comparison::Comparison;
use crate::components::part_of_speech::PartOfSpeech;
use crate::error::{DecodeError, Outcome};
use crate::parsings::{required, take_required, PartOfSpeechParsing};
use vstd::string::*;
use vstd::prelude::*;

verus! {

/// An adverb: `Adv`, with no fields, or `Adv-C`, whose segment starts with the
/// comparison.
#[derive(Clone, Copy, Debug, PartialEq, Eq, Structural, PartialOrd, Ord, Hash)]
pub struct AdverbParsing {
    pub comparison: Option<Comparison>,
}

impl PartOfSpeechParsing for AdverbParsing {
    open spec fn spec_parse(segments: Seq<Seq<char>>) -> Outcome<AdverbParsing> {
        if segments.len() == 0 || segments[0].len() == 0 {
            Ok(AdverbParsing { comparison: None })
        } else {
            match required::<Comparison>(segments[0], 0) {
                Err(e) => Err(e),
                Ok(c) => Ok(AdverbParsing { comparison: Some(c) }),
            }
        }
    }

    open spec fn spec_part_of_speech() -> PartOfSpeech {
        PartOfSpeech::Adverb
    }

    fn part_of_speech() -> (r: PartOfSpeech) {
        PartOfSpeech::Adverb
    }

    fn parse_segments(segments: &[&str]) -> (r: Result<AdverbParsing, DecodeError>) {
        if segments.len() == 0 || segments[0].unicode_len() == 0 {
            return Ok(AdverbParsing { comparison: None });
        }
        match take_required::<Comparison>(segments[0], 0) {
            Err(e) => Err(e),
            Ok(c) => Ok(AdverbParsing { comparison: Some(c) }),
        }
    }
}

impl AdverbParsing {
    pub fn comparison(&self) -> (r: Option<Comparison>)
        ensures
            r == self.comparison,
    {
        self.comparison
    }
}

} // verus!
