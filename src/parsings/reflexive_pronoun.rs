use crate::components::case::Case;
use crate::components::gender::Gender;
use crate::components::number::Number;
use crate::components::part_of_speech::PartOfSpeech;
use crate::components::person::Person;
use crate::error::{DecodeError, Outcome};
use crate::parsings::{required, segment, segment_at, take_required, PartOfSpeechParsing};
use vstd::prelude::*;

verus! {

/// A reflexive pronoun: `RefPro-AF3P`, case, gender, person and number, all
/// required.
#[derive(Clone, Copy, Debug, PartialEq, Eq, Structural, PartialOrd, Ord, Hash)]
pub struct ReflexivePronounParsing {
    pub case: Case,
    pub gender: Gender,
    pub person: Person,
    pub number: Number,
}

impl PartOfSpeechParsing for ReflexivePronounParsing {
    open spec fn spec_parse(segments: Seq<Seq<char>>) -> Outcome<ReflexivePronounParsing> {
        let seg = segment(segments, 0);
        match required::<Case>(seg, 0) {
            Err(e) => Err(e),
            Ok(case) => match required::<Gender>(seg, 1) {
                Err(e) => Err(e),
                Ok(gender) => match required::<Person>(seg, 2) {
                    Err(e) => Err(e),
                    Ok(person) => match required::<Number>(seg, 3) {
                        Err(e) => Err(e),
                        Ok(number) => Ok(ReflexivePronounParsing { case, gender, person, number }),
                    },
                },
            },
        }
    }

    open spec fn spec_part_of_speech() -> PartOfSpeech {
        PartOfSpeech::ReflexivePronoun
    }

    fn part_of_speech() -> (r: PartOfSpeech) {
        PartOfSpeech::ReflexivePronoun
    }

    fn parse_segments(segments: &[&str]) -> (r: Result<ReflexivePronounParsing, DecodeError>) {
        let seg = segment_at(segments, 0);
        let case = match take_required::<Case>(seg, 0) {
            Ok(v) => v,
            Err(e) => return Err(e),
        };
        let gender = match take_required::<Gender>(seg, 1) {
            Ok(v) => v,
            Err(e) => return Err(e),
        };
        let person = match take_required::<Person>(seg, 2) {
            Ok(v) => v,
            Err(e) => return Err(e),
        };
        match take_required::<Number>(seg, 3) {
            Err(e) => Err(e),
            Ok(number) => Ok(ReflexivePronounParsing { case, gender, person, number }),
        }
    }
}

impl ReflexivePronounParsing {
    pub fn case(&self) -> (r: Option<Case>)
        ensures
            r == Some(self.case),
    {
        Some(self.case)
    }

    pub fn gender(&self) -> (r: Option<Gender>)
        ensures
            r == Some(self.gender),
    {
        Some(self.gender)
    }

    pub fn person(&self) -> (r: Option<Person>)
        ensures
            r == Some(self.person),
    {
        Some(self.person)
    }

    pub fn number(&self) -> (r: Option<Number>)
        ensures
            r == Some(self.number),
    {
        Some(self.number)
    }
}

} // verus!
