use crate::components::case::Case;
use crate::components::gender::Gender;
use crate::components::number::Number;
use crate::components::part_of_speech::PartOfSpeech;
use crate::components::person::Person;
use crate::error::{DecodeError, Outcome};
use crate::parsings::{after, optional, required, segment, segment_at, take_optional, take_required, PartOfSpeechParsing};
use vstd::prelude::*;

verus! {

/// A personal or possessive pronoun: `PPro-A1P`, `PPro-AF1P`, `PPro-NFS`: a
/// required case, an optional gender, an optional person, then a required number.
#[derive(Clone, Copy, Debug, PartialEq, Eq, Structural, PartialOrd, Ord, Hash)]
pub struct PersonalPossessivePronounParsing {
    pub case: Case,
    pub gender: Option<Gender>,
    pub person: Option<Person>,
    pub number: Number,
}

impl PartOfSpeechParsing for PersonalPossessivePronounParsing {
    open spec fn spec_parse(segments: Seq<Seq<char>>) -> Outcome<PersonalPossessivePronounParsing> {
        let seg = segment(segments, 0);
        match required::<Case>(seg, 0) {
            Err(e) => Err(e),
            Ok(case) => {
                let gender = optional::<Gender>(seg, 1);
                let person = optional::<Person>(seg, after(gender, 1));
                match required::<Number>(seg, after(person, after(gender, 1))) {
                    Err(e) => Err(e),
                    Ok(number) => Ok(PersonalPossessivePronounParsing { case, gender, person, number }),
                }
            },
        }
    }

    open spec fn spec_part_of_speech() -> PartOfSpeech {
        PartOfSpeech::PersonalPossessivePronoun
    }

    fn part_of_speech() -> (r: PartOfSpeech) {
        PartOfSpeech::PersonalPossessivePronoun
    }

    fn parse_segments(segments: &[&str]) -> (r: Result<PersonalPossessivePronounParsing, DecodeError>) {
        let seg = segment_at(segments, 0);
        let case = match take_required::<Case>(seg, 0) {
            Ok(v) => v,
            Err(e) => return Err(e),
        };
        let mut at: usize = 1;
        let gender = take_optional::<Gender>(seg, at);
        if gender.is_some() {
            at = at + 1;
        }
        let person = take_optional::<Person>(seg, at);
        if person.is_some() {
            at = at + 1;
        }
        match take_required::<Number>(seg, at) {
            Err(e) => Err(e),
            Ok(number) => Ok(PersonalPossessivePronounParsing { case, gender, person, number }),
        }
    }
}

impl PersonalPossessivePronounParsing {
    pub fn case(&self) -> (r: Option<Case>)
        ensures
            r == Some(self.case),
    {
        Some(self.case)
    }

    pub fn gender(&self) -> (r: Option<Gender>)
        ensures
            r == self.gender,
    {
        self.gender
    }

    pub fn person(&self) -> (r: Option<Person>)
        ensures
            r == self.person,
    {
        self.person
    }

    pub fn number(&self) -> (r: Option<Number>)
        ensures
            r == Some(self.number),
    {
        Some(self.number)
    }
}

} // verus!
