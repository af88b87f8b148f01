use crate::components::case::Case;
use crate::components::gender::Gender;
use crate::components::mood::Mood;
use crate::components::number::Number;
use crate::components::part_of_speech::PartOfSpeech;
use crate::components::person::Person;
use crate::components::tense::Tense;
use crate::components::voice::Voice;
use crate::error::{DecodeError, Outcome};
use crate::parsings::{
    after, optional, optional_rest, required, segment, segment_at, take_optional, take_required,
    take_rest, PartOfSpeechParsing,
};
use vstd::prelude::*;

verus! {

/// A verb: `V-AIA-3S`, `V-ANM/P`, `V-APA-AFP`, `V-M-2P`.
///
/// The first segment holds an optional tense, the mood and an optional voice
/// (`M/P` spans the rest of the segment). The second, where there is one, is
/// tried for an optional case, person, gender and number, in that order: finite
/// forms give person and number, participles case, gender and number.
#[derive(Clone, Copy, Debug, PartialEq, Eq, Structural, PartialOrd, Ord, Hash)]
pub struct VerbParsing {
    pub tense: Option<Tense>,
    pub mood: Mood,
    pub voice: Option<Voice>,
    pub case: Option<Case>,
    pub gender: Option<Gender>,
    pub person: Option<Person>,
    pub number: Option<Number>,
}

/// The person and number of a finite verb form.
#[derive(Clone, Copy, Debug, PartialEq, Eq, Structural)]
pub struct PersonNumber {
    pub person: Person,
    pub number: Number,
}

/// The fields that each mood of a verb carries.
#[derive(Clone, Copy, Debug, PartialEq, Eq, Structural)]
pub enum VerbMoods {
    /// I: `V-PI-3S`, `V-PIA-1P`, `V-LIM/P-3S`
    Indicative { tense: Tense, voice: Option<Voice>, person: Person, number: Number },
    /// M: `V-M-2P`
    Imperative { tense: Tense, voice: Voice, person: Person, number: Number },
    /// S
    Subjunctive { tense: Tense, voice: Voice, person: Person, number: Number },
    /// O
    Optative { tense: Tense, voice: Voice, person: Person, number: Number },
    /// N
    Infinitive { tense: Tense, voice: Voice },
    /// P: `V-APA-AFP`
    Participle { tense: Tense, voice: Voice, case: Case, gender: Gender, number: Number },
}

impl PartOfSpeechParsing for VerbParsing {
    open spec fn spec_parse(segments: Seq<Seq<char>>) -> Outcome<VerbParsing> {
        let first = segment(segments, 0);
        let tense = optional::<Tense>(first, 0);
        let at_mood = after(tense, 0);
        match required::<Mood>(first, at_mood) {
            Err(e) => Err(e),
            Ok(mood) => {
                let second = segment(segments, 1);
                let case = optional::<Case>(second, 0);
                let person = optional::<Person>(second, after(case, 0));
                let gender = optional::<Gender>(second, after(person, after(case, 0)));
                let number = optional::<Number>(
                    second,
                    after(gender, after(person, after(case, 0))),
                );
                Ok(
                    VerbParsing {
                        tense,
                        mood,
                        voice: optional_rest::<Voice>(first, at_mood + 1),
                        case,
                        gender,
                        person,
                        number,
                    },
                )
            },
        }
    }

    open spec fn spec_part_of_speech() -> PartOfSpeech {
        PartOfSpeech::Verb
    }

    fn part_of_speech() -> (r: PartOfSpeech) {
        PartOfSpeech::Verb
    }

    fn parse_segments(segments: &[&str]) -> (r: Result<VerbParsing, DecodeError>) {
        let first = segment_at(segments, 0);
        let tense = take_optional::<Tense>(first, 0);
        let at_mood: usize = if tense.is_some() { 1 } else { 0 };
        let mood = match take_required::<Mood>(first, at_mood) {
            Ok(mood) => mood,
            Err(e) => return Err(e),
        };
        let voice = take_rest::<Voice>(first, at_mood + 1);

        let second = segment_at(segments, 1);
        let mut at: usize = 0;
        let case = take_optional::<Case>(second, at);
        if case.is_some() {
            at = at + 1;
        }
        let person = take_optional::<Person>(second, at);
        if person.is_some() {
            at = at + 1;
        }
        let gender = take_optional::<Gender>(second, at);
        if gender.is_some() {
            at = at + 1;
        }
        let number = take_optional::<Number>(second, at);
        Ok(VerbParsing { tense, mood, voice, case, gender, person, number })
    }
}

impl VerbParsing {
    pub fn case(&self) -> (r: Option<Case>)
        ensures
            r == self.case,
    {
        self.case
    }

    pub fn gender(&self) -> (r: Option<Gender>)
        ensures
            r == self.gender,
    {
        self.gender
    }

    pub fn mood(&self) -> (r: Option<Mood>)
        ensures
            r == Some(self.mood),
    {
        Some(self.mood)
    }

    pub fn number(&self) -> (r: Option<Number>)
        ensures
            r == self.number,
    {
        self.number
    }

    pub fn person(&self) -> (r: Option<Person>)
        ensures
            r == self.person,
    {
        self.person
    }

    pub fn tense(&self) -> (r: Option<Tense>)
        ensures
            r == self.tense,
    {
        self.tense
    }

    pub fn voice(&self) -> (r: Option<Voice>)
        ensures
            r == self.voice,
    {
        self.voice
    }
}

} // verus!
