//! The dispatcher: a whole code read into one tagged value.

use crate::components::case::Case;
use crate::components::comparison::Comparison;
use crate::components::gender::Gender;
use crate::components::mood::Mood;
use crate::components::number::Number;
use crate::components::part_of_speech::PartOfSpeech;
use crate::components::person::Person;
use crate::components::tense::Tense;
use crate::components::voice::Voice;
use crate::components::{decode, lemma_same_ignoring_case_key, read_code, ComponentCode};
use crate::error::{outcome, Category, DecodeError, Outcome};
use crate::parsings::PartOfSpeechParsing;
use crate::parsings::adjective::AdjectiveParsing;
use crate::parsings::adverb::AdverbParsing;
use crate::parsings::aramaic_word::AramaicWordParsing;
use crate::parsings::article::ArticleParsing;
use crate::parsings::conjunction::ConjunctionParsing;
use crate::parsings::demonstrative_pronoun::DemonstrativePronounParsing;
use crate::parsings::hebrew_word::HebrewWordParsing;
use crate::parsings::interjection::InterjectionParsing;
use crate::parsings::interrogative_indefinite_pronoun::InterrogativeIndefinitePronounParsing;
use crate::parsings::noun::NounParsing;
use crate::parsings::particle::ParticleParsing;
use crate::parsings::personal_possessive_pronoun::PersonalPossessivePronounParsing;
use crate::parsings::preposition::PrepositionParsing;
use crate::parsings::reciprocal_pronoun::ReciprocalPronounParsing;
use crate::parsings::reflexive_pronoun::ReflexivePronounParsing;
use crate::parsings::relative_pronoun::RelativePronounParsing;
use crate::parsings::verb::VerbParsing;
use crate::text::{
    lemma_segments_nonempty, same_ignoring_case, same_text, segments_of, split_segments, views,
};
use vstd::prelude::*;

verus! {

/// A decoded code: one variant per part of speech, each with its grammar's value,
/// and two markers that carry nothing.
#[derive(Clone, Copy, Debug, PartialEq, Eq, Structural, PartialOrd, Ord, Hash)]
pub enum GreekWordParsing {
    Adjective(AdjectiveParsing),
    Adverb(AdverbParsing),
    AramaicWord(AramaicWordParsing),
    Article(ArticleParsing),
    Conjunction(ConjunctionParsing),
    DemonstrativePronoun(DemonstrativePronounParsing),
    HebrewWord(HebrewWordParsing),
    Interjection(InterjectionParsing),
    /// `Indec`: an indeclinable word, with no fields.
    Indec,
    /// `IntPrtcl`: an intensive particle, with no fields.
    IntPrtcl,
    InterrogativeIndefinitePronoun(InterrogativeIndefinitePronounParsing),
    Noun(NounParsing),
    Particle(ParticleParsing),
    PersonalPossessivePronoun(PersonalPossessivePronounParsing),
    Preposition(PrepositionParsing),
    ReciprocalPronoun(ReciprocalPronounParsing),
    ReflexivePronoun(ReflexivePronounParsing),
    RelativePronoun(RelativePronounParsing),
    Verb(VerbParsing),
}

/// What the grammar of `pos` gives on `segments`, as a variant of the word.
pub open spec fn parse_part(pos: PartOfSpeech, segments: Seq<Seq<char>>) -> Outcome<GreekWordParsing> {
    match pos {
        PartOfSpeech::Adjective => match AdjectiveParsing::spec_parse(segments) {
            Ok(p) => Ok(GreekWordParsing::Adjective(p)),
            Err(e) => Err(e),
        },
        PartOfSpeech::Adverb => match AdverbParsing::spec_parse(segments) {
            Ok(p) => Ok(GreekWordParsing::Adverb(p)),
            Err(e) => Err(e),
        },
        PartOfSpeech::AramaicWord => match AramaicWordParsing::spec_parse(segments) {
            Ok(p) => Ok(GreekWordParsing::AramaicWord(p)),
            Err(e) => Err(e),
        },
        PartOfSpeech::Article => match ArticleParsing::spec_parse(segments) {
            Ok(p) => Ok(GreekWordParsing::Article(p)),
            Err(e) => Err(e),
        },
        PartOfSpeech::Conjunction => match ConjunctionParsing::spec_parse(segments) {
            Ok(p) => Ok(GreekWordParsing::Conjunction(p)),
            Err(e) => Err(e),
        },
        PartOfSpeech::DemonstrativePronoun => match DemonstrativePronounParsing::spec_parse(segments) {
            Ok(p) => Ok(GreekWordParsing::DemonstrativePronoun(p)),
            Err(e) => Err(e),
        },
        PartOfSpeech::HebrewWord => match HebrewWordParsing::spec_parse(segments) {
            Ok(p) => Ok(GreekWordParsing::HebrewWord(p)),
            Err(e) => Err(e),
        },
        PartOfSpeech::Interjection => match InterjectionParsing::spec_parse(segments) {
            Ok(p) => Ok(GreekWordParsing::Interjection(p)),
            Err(e) => Err(e),
        },
        PartOfSpeech::InterrogativeIndefinitePronoun => match InterrogativeIndefinitePronounParsing::spec_parse(segments) {
            Ok(p) => Ok(GreekWordParsing::InterrogativeIndefinitePronoun(p)),
            Err(e) => Err(e),
        },
        PartOfSpeech::Noun => match NounParsing::spec_parse(segments) {
            Ok(p) => Ok(GreekWordParsing::Noun(p)),
            Err(e) => Err(e),
        },
        PartOfSpeech::Particle => match ParticleParsing::spec_parse(segments) {
            Ok(p) => Ok(GreekWordParsing::Particle(p)),
            Err(e) => Err(e),
        },
        PartOfSpeech::PersonalPossessivePronoun => match PersonalPossessivePronounParsing::spec_parse(segments) {
            Ok(p) => Ok(GreekWordParsing::PersonalPossessivePronoun(p)),
            Err(e) => Err(e),
        },
        PartOfSpeech::Preposition => match PrepositionParsing::spec_parse(segments) {
            Ok(p) => Ok(GreekWordParsing::Preposition(p)),
            Err(e) => Err(e),
        },
        PartOfSpeech::ReciprocalPronoun => match ReciprocalPronounParsing::spec_parse(segments) {
            Ok(p) => Ok(GreekWordParsing::ReciprocalPronoun(p)),
            Err(e) => Err(e),
        },
        PartOfSpeech::ReflexivePronoun => match ReflexivePronounParsing::spec_parse(segments) {
            Ok(p) => Ok(GreekWordParsing::ReflexivePronoun(p)),
            Err(e) => Err(e),
        },
        PartOfSpeech::RelativePronoun => match RelativePronounParsing::spec_parse(segments) {
            Ok(p) => Ok(GreekWordParsing::RelativePronoun(p)),
            Err(e) => Err(e),
        },
        PartOfSpeech::Verb => match VerbParsing::spec_parse(segments) {
            Ok(p) => Ok(GreekWordParsing::Verb(p)),
            Err(e) => Err(e),
        },
    }
}

/// What decoding the code `s` gives.
///
/// The first `-`-separated segment names the part of speech. `Indec` and `IntPrtcl`,
/// exactly so, are the two markers. Any other is read as a part-of-speech code, in
/// any letter case, and the segments after it go to that part of speech's grammar,
/// whose error is passed on unchanged.
pub open spec fn parse_word(s: Seq<char>) -> Outcome<GreekWordParsing> {
    let head = segments_of(s)[0];
    if head == "Indec"@ {
        Ok(GreekWordParsing::Indec)
    } else if head == "IntPrtcl"@ {
        Ok(GreekWordParsing::IntPrtcl)
    } else {
        match read_code::<PartOfSpeech>(head) {
            Err(e) => Err(e),
            Ok(pos) => parse_part(pos, segments_of(s).drop_first()),
        }
    }
}

impl From<AdjectiveParsing> for GreekWordParsing {
    fn from(p: AdjectiveParsing) -> GreekWordParsing {
        GreekWordParsing::Adjective(p)
    }
}

impl vstd::std_specs::convert::FromSpecImpl<AdjectiveParsing> for GreekWordParsing {
    open spec fn obeys_from_spec() -> bool {
        true
    }

    open spec fn from_spec(p: AdjectiveParsing) -> GreekWordParsing {
        GreekWordParsing::Adjective(p)
    }
}

impl From<AdverbParsing> for GreekWordParsing {
    fn from(p: AdverbParsing) -> GreekWordParsing {
        GreekWordParsing::Adverb(p)
    }
}

impl vstd::std_specs::convert::FromSpecImpl<AdverbParsing> for GreekWordParsing {
    open spec fn obeys_from_spec() -> bool {
        true
    }

    open spec fn from_spec(p: AdverbParsing) -> GreekWordParsing {
        GreekWordParsing::Adverb(p)
    }
}

impl From<AramaicWordParsing> for GreekWordParsing {
    fn from(p: AramaicWordParsing) -> GreekWordParsing {
        GreekWordParsing::AramaicWord(p)
    }
}

impl vstd::std_specs::convert::FromSpecImpl<AramaicWordParsing> for GreekWordParsing {
    open spec fn obeys_from_spec() -> bool {
        true
    }

    open spec fn from_spec(p: AramaicWordParsing) -> GreekWordParsing {
        GreekWordParsing::AramaicWord(p)
    }
}

impl From<ArticleParsing> for GreekWordParsing {
    fn from(p: ArticleParsing) -> GreekWordParsing {
        GreekWordParsing::Article(p)
    }
}

impl vstd::std_specs::convert::FromSpecImpl<ArticleParsing> for GreekWordParsing {
    open spec fn obeys_from_spec() -> bool {
        true
    }

    open spec fn from_spec(p: ArticleParsing) -> GreekWordParsing {
        GreekWordParsing::Article(p)
    }
}

impl From<ConjunctionParsing> for GreekWordParsing {
    fn from(p: ConjunctionParsing) -> GreekWordParsing {
        GreekWordParsing::Conjunction(p)
    }
}

impl vstd::std_specs::convert::FromSpecImpl<ConjunctionParsing> for GreekWordParsing {
    open spec fn obeys_from_spec() -> bool {
        true
    }

    open spec fn from_spec(p: ConjunctionParsing) -> GreekWordParsing {
        GreekWordParsing::Conjunction(p)
    }
}

impl From<DemonstrativePronounParsing> for GreekWordParsing {
    fn from(p: DemonstrativePronounParsing) -> GreekWordParsing {
        GreekWordParsing::DemonstrativePronoun(p)
    }
}

impl vstd::std_specs::convert::FromSpecImpl<DemonstrativePronounParsing> for GreekWordParsing {
    open spec fn obeys_from_spec() -> bool {
        true
    }

    open spec fn from_spec(p: DemonstrativePronounParsing) -> GreekWordParsing {
        GreekWordParsing::DemonstrativePronoun(p)
    }
}

impl From<HebrewWordParsing> for GreekWordParsing {
    fn from(p: HebrewWordParsing) -> GreekWordParsing {
        GreekWordParsing::HebrewWord(p)
    }
}

impl vstd::std_specs::convert::FromSpecImpl<HebrewWordParsing> for GreekWordParsing {
    open spec fn obeys_from_spec() -> bool {
        true
    }

    open spec fn from_spec(p: HebrewWordParsing) -> GreekWordParsing {
        GreekWordParsing::HebrewWord(p)
    }
}

impl From<InterjectionParsing> for GreekWordParsing {
    fn from(p: InterjectionParsing) -> GreekWordParsing {
        GreekWordParsing::Interjection(p)
    }
}

impl vstd::std_specs::convert::FromSpecImpl<InterjectionParsing> for GreekWordParsing {
    open spec fn obeys_from_spec() -> bool {
        true
    }

    open spec fn from_spec(p: InterjectionParsing) -> GreekWordParsing {
        GreekWordParsing::Interjection(p)
    }
}

impl From<InterrogativeIndefinitePronounParsing> for GreekWordParsing {
    fn from(p: InterrogativeIndefinitePronounParsing) -> GreekWordParsing {
        GreekWordParsing::InterrogativeIndefinitePronoun(p)
    }
}

impl vstd::std_specs::convert::FromSpecImpl<InterrogativeIndefinitePronounParsing> for GreekWordParsing {
    open spec fn obeys_from_spec() -> bool {
        true
    }

    open spec fn from_spec(p: InterrogativeIndefinitePronounParsing) -> GreekWordParsing {
        GreekWordParsing::InterrogativeIndefinitePronoun(p)
    }
}

impl From<NounParsing> for GreekWordParsing {
    fn from(p: NounParsing) -> GreekWordParsing {
        GreekWordParsing::Noun(p)
    }
}

impl vstd::std_specs::convert::FromSpecImpl<NounParsing> for GreekWordParsing {
    open spec fn obeys_from_spec() -> bool {
        true
    }

    open spec fn from_spec(p: NounParsing) -> GreekWordParsing {
        GreekWordParsing::Noun(p)
    }
}

impl From<ParticleParsing> for GreekWordParsing {
    fn from(p: ParticleParsing) -> GreekWordParsing {
        GreekWordParsing::Particle(p)
    }
}

impl vstd::std_specs::convert::FromSpecImpl<ParticleParsing> for GreekWordParsing {
    open spec fn obeys_from_spec() -> bool {
        true
    }

    open spec fn from_spec(p: ParticleParsing) -> GreekWordParsing {
        GreekWordParsing::Particle(p)
    }
}

impl From<PersonalPossessivePronounParsing> for GreekWordParsing {
    fn from(p: PersonalPossessivePronounParsing) -> GreekWordParsing {
        GreekWordParsing::PersonalPossessivePronoun(p)
    }
}

impl vstd::std_specs::convert::FromSpecImpl<PersonalPossessivePronounParsing> for GreekWordParsing {
    open spec fn obeys_from_spec() -> bool {
        true
    }

    open spec fn from_spec(p: PersonalPossessivePronounParsing) -> GreekWordParsing {
        GreekWordParsing::PersonalPossessivePronoun(p)
    }
}

impl From<PrepositionParsing> for GreekWordParsing {
    fn from(p: PrepositionParsing) -> GreekWordParsing {
        GreekWordParsing::Preposition(p)
    }
}

impl vstd::std_specs::convert::FromSpecImpl<PrepositionParsing> for GreekWordParsing {
    open spec fn obeys_from_spec() -> bool {
        true
    }

    open spec fn from_spec(p: PrepositionParsing) -> GreekWordParsing {
        GreekWordParsing::Preposition(p)
    }
}

impl From<ReciprocalPronounParsing> for GreekWordParsing {
    fn from(p: ReciprocalPronounParsing) -> GreekWordParsing {
        GreekWordParsing::ReciprocalPronoun(p)
    }
}

impl vstd::std_specs::convert::FromSpecImpl<ReciprocalPronounParsing> for GreekWordParsing {
    open spec fn obeys_from_spec() -> bool {
        true
    }

    open spec fn from_spec(p: ReciprocalPronounParsing) -> GreekWordParsing {
        GreekWordParsing::ReciprocalPronoun(p)
    }
}

impl From<ReflexivePronounParsing> for GreekWordParsing {
    fn from(p: ReflexivePronounParsing) -> GreekWordParsing {
        GreekWordParsing::ReflexivePronoun(p)
    }
}

impl vstd::std_specs::convert::FromSpecImpl<ReflexivePronounParsing> for GreekWordParsing {
    open spec fn obeys_from_spec() -> bool {
        true
    }

    open spec fn from_spec(p: ReflexivePronounParsing) -> GreekWordParsing {
        GreekWordParsing::ReflexivePronoun(p)
    }
}

impl From<RelativePronounParsing> for GreekWordParsing {
    fn from(p: RelativePronounParsing) -> GreekWordParsing {
        GreekWordParsing::RelativePronoun(p)
    }
}

impl vstd::std_specs::convert::FromSpecImpl<RelativePronounParsing> for GreekWordParsing {
    open spec fn obeys_from_spec() -> bool {
        true
    }

    open spec fn from_spec(p: RelativePronounParsing) -> GreekWordParsing {
        GreekWordParsing::RelativePronoun(p)
    }
}

impl From<VerbParsing> for GreekWordParsing {
    fn from(p: VerbParsing) -> GreekWordParsing {
        GreekWordParsing::Verb(p)
    }
}

impl vstd::std_specs::convert::FromSpecImpl<VerbParsing> for GreekWordParsing {
    open spec fn obeys_from_spec() -> bool {
        true
    }

    open spec fn from_spec(p: VerbParsing) -> GreekWordParsing {
        GreekWordParsing::Verb(p)
    }
}

/// The two markers are not part-of-speech codes in any letter case.
proof fn lemma_markers_are_not_codes()
    ensures
        read_code::<PartOfSpeech>("Indec"@) is Err,
        read_code::<PartOfSpeech>("IntPrtcl"@) is Err,
{
    reveal_strlit("Indec");
    reveal_strlit("IntPrtcl");
    reveal_strlit("V");
    reveal_strlit("N");
    reveal_strlit("Adv");
    reveal_strlit("Adj");
    reveal_strlit("Art");
    reveal_strlit("DPro");
    reveal_strlit("IPro");
    reveal_strlit("PPro");
    reveal_strlit("RecPro");
    reveal_strlit("RelPro");
    reveal_strlit("RefPro");
    reveal_strlit("Prep");
    reveal_strlit("Conj");
    reveal_strlit("I");
    reveal_strlit("Prtcl");
    reveal_strlit("Heb");
    reveal_strlit("Aram");
    assert forall|v: PartOfSpeech| !same_ignoring_case("Indec"@, #[trigger] v.spec_code()) by {
        if same_ignoring_case("Indec"@, v.spec_code()) {
            lemma_same_ignoring_case_key("Indec"@, v.spec_code());
        }
    }
    assert forall|v: PartOfSpeech| !same_ignoring_case("IntPrtcl"@, #[trigger] v.spec_code()) by {
        if same_ignoring_case("IntPrtcl"@, v.spec_code()) {
            lemma_same_ignoring_case_key("IntPrtcl"@, v.spec_code());
        }
    }
}

/// A word decoded from a code has the part of speech that the code's first
/// segment names.
pub proof fn lemma_parse_names_part_of_speech(s: Seq<char>, pos: PartOfSpeech)
    requires
        read_code::<PartOfSpeech>(segments_of(s)[0]) == Ok::<PartOfSpeech, (Category, Seq<char>)>(pos),
        parse_word(s) is Ok,
    ensures
        parse_word(s)->Ok_0.spec_part_of_speech() == Some(pos),
{
    lemma_markers_are_not_codes();
}

impl GreekWordParsing {
    /// The part of speech of the word, absent for the two markers.
    pub open spec fn spec_part_of_speech(self) -> Option<PartOfSpeech> {
        match self {
            GreekWordParsing::Adjective(_) => Some(PartOfSpeech::Adjective),
            GreekWordParsing::Adverb(_) => Some(PartOfSpeech::Adverb),
            GreekWordParsing::AramaicWord(_) => Some(PartOfSpeech::AramaicWord),
            GreekWordParsing::Article(_) => Some(PartOfSpeech::Article),
            GreekWordParsing::Conjunction(_) => Some(PartOfSpeech::Conjunction),
            GreekWordParsing::DemonstrativePronoun(_) => Some(PartOfSpeech::DemonstrativePronoun),
            GreekWordParsing::HebrewWord(_) => Some(PartOfSpeech::HebrewWord),
            GreekWordParsing::Interjection(_) => Some(PartOfSpeech::Interjection),
            GreekWordParsing::InterrogativeIndefinitePronoun(_) => Some(PartOfSpeech::InterrogativeIndefinitePronoun),
            GreekWordParsing::Noun(_) => Some(PartOfSpeech::Noun),
            GreekWordParsing::Particle(_) => Some(PartOfSpeech::Particle),
            GreekWordParsing::PersonalPossessivePronoun(_) => Some(PartOfSpeech::PersonalPossessivePronoun),
            GreekWordParsing::Preposition(_) => Some(PartOfSpeech::Preposition),
            GreekWordParsing::ReciprocalPronoun(_) => Some(PartOfSpeech::ReciprocalPronoun),
            GreekWordParsing::ReflexivePronoun(_) => Some(PartOfSpeech::ReflexivePronoun),
            GreekWordParsing::RelativePronoun(_) => Some(PartOfSpeech::RelativePronoun),
            GreekWordParsing::Verb(_) => Some(PartOfSpeech::Verb),
            _ => None,
        }
    }

    /// The case the word carries, absent where its part of speech has none or the
    /// code left it out.
    pub open spec fn spec_case(self) -> Option<Case> {
        match self {
            GreekWordParsing::Adjective(p) => match p.0 { Some(d) => Some(d.case), None => None },
            GreekWordParsing::Noun(p) => match p.0 { Some(d) => Some(d.case), None => None },
            GreekWordParsing::Article(p) => Some(p.case),
            GreekWordParsing::DemonstrativePronoun(p) => Some(p.case),
            GreekWordParsing::InterrogativeIndefinitePronoun(p) => Some(p.case),
            GreekWordParsing::PersonalPossessivePronoun(p) => Some(p.case),
            GreekWordParsing::ReciprocalPronoun(p) => Some(p.case),
            GreekWordParsing::ReflexivePronoun(p) => Some(p.case),
            GreekWordParsing::RelativePronoun(p) => Some(p.case),
            GreekWordParsing::Verb(p) => p.case,
            _ => None,
        }
    }

    /// The comparison the word carries, absent where its part of speech has none or the
    /// code left it out.
    pub open spec fn spec_comparison(self) -> Option<Comparison> {
        match self {
            GreekWordParsing::Adjective(p) => match p.0 { Some(d) => d.comparison, None => None },
            GreekWordParsing::Adverb(p) => p.comparison,
            _ => None,
        }
    }

    /// The gender the word carries, absent where its part of speech has none or the
    /// code left it out.
    pub open spec fn spec_gender(self) -> Option<Gender> {
        match self {
            GreekWordParsing::Adjective(p) => match p.0 { Some(d) => Some(d.gender), None => None },
            GreekWordParsing::Noun(p) => match p.0 { Some(d) => Some(d.gender), None => None },
            GreekWordParsing::Article(p) => Some(p.gender),
            GreekWordParsing::DemonstrativePronoun(p) => Some(p.gender),
            GreekWordParsing::InterrogativeIndefinitePronoun(p) => Some(p.gender),
            GreekWordParsing::PersonalPossessivePronoun(p) => p.gender,
            GreekWordParsing::ReciprocalPronoun(p) => Some(p.gender),
            GreekWordParsing::ReflexivePronoun(p) => Some(p.gender),
            GreekWordParsing::RelativePronoun(p) => Some(p.gender),
            GreekWordParsing::Verb(p) => p.gender,
            _ => None,
        }
    }

    /// The mood the word carries, absent where its part of speech has none or the
    /// code left it out.
    pub open spec fn spec_mood(self) -> Option<Mood> {
        match self {
            GreekWordParsing::Verb(p) => Some(p.mood),
            _ => None,
        }
    }

    /// The number the word carries, absent where its part of speech has none or the
    /// code left it out.
    pub open spec fn spec_number(self) -> Option<Number> {
        match self {
            GreekWordParsing::Adjective(p) => match p.0 { Some(d) => Some(d.number), None => None },
            GreekWordParsing::Noun(p) => match p.0 { Some(d) => Some(d.number), None => None },
            GreekWordParsing::Article(p) => Some(p.number),
            GreekWordParsing::DemonstrativePronoun(p) => Some(p.number),
            GreekWordParsing::InterrogativeIndefinitePronoun(p) => Some(p.number),
            GreekWordParsing::PersonalPossessivePronoun(p) => Some(p.number),
            GreekWordParsing::ReciprocalPronoun(p) => Some(p.number),
            GreekWordParsing::ReflexivePronoun(p) => Some(p.number),
            GreekWordParsing::RelativePronoun(p) => Some(p.number),
            GreekWordParsing::Verb(p) => p.number,
            _ => None,
        }
    }

    /// The person the word carries, absent where its part of speech has none or the
    /// code left it out.
    pub open spec fn spec_person(self) -> Option<Person> {
        match self {
            GreekWordParsing::PersonalPossessivePronoun(p) => p.person,
            GreekWordParsing::ReflexivePronoun(p) => Some(p.person),
            GreekWordParsing::Verb(p) => p.person,
            _ => None,
        }
    }

    /// The tense the word carries, absent where its part of speech has none or the
    /// code left it out.
    pub open spec fn spec_tense(self) -> Option<Tense> {
        match self {
            GreekWordParsing::Verb(p) => p.tense,
            _ => None,
        }
    }

    /// The voice the word carries, absent where its part of speech has none or the
    /// code left it out.
    pub open spec fn spec_voice(self) -> Option<Voice> {
        match self {
            GreekWordParsing::Verb(p) => p.voice,
            _ => None,
        }
    }

    /// Decodes a whole code such as `V-AIA-3S`.
    pub fn parse(input: &str) -> (r: Result<GreekWordParsing, DecodeError>)
        ensures
            outcome(r) == parse_word(input@),
    {
        let mut segments = split_segments(input);
        proof {
            lemma_segments_nonempty(input@);
        }
        let ghost all = segments@;
        let head = segments.remove(0);
        proof {
            assert(views(segments@) =~= views(all).drop_first());
        }
        if same_text(head, "Indec") {
            return Ok(GreekWordParsing::Indec);
        }
        if same_text(head, "IntPrtcl") {
            return Ok(GreekWordParsing::IntPrtcl);
        }
        let pos = match decode::<PartOfSpeech>(head) {
            Ok(pos) => pos,
            Err(e) => return Err(e),
        };
        Self::parse_part_of_speech(pos, segments.as_slice())
    }

    /// Reads `segments` with the grammar of `pos`.
    pub fn parse_part_of_speech(pos: PartOfSpeech, segments: &[&str]) -> (r: Result<GreekWordParsing, DecodeError>)
        ensures
            outcome(r) == parse_part(pos, views(segments@)),
    {
        match pos {
            PartOfSpeech::Adjective => match AdjectiveParsing::parse_segments(segments) {
                Ok(p) => Ok(GreekWordParsing::from(p)),
                Err(e) => Err(e),
            },
            PartOfSpeech::Adverb => match AdverbParsing::parse_segments(segments) {
                Ok(p) => Ok(GreekWordParsing::from(p)),
                Err(e) => Err(e),
            },
            PartOfSpeech::AramaicWord => match AramaicWordParsing::parse_segments(segments) {
                Ok(p) => Ok(GreekWordParsing::from(p)),
                Err(e) => Err(e),
            },
            PartOfSpeech::Article => match ArticleParsing::parse_segments(segments) {
                Ok(p) => Ok(GreekWordParsing::from(p)),
                Err(e) => Err(e),
            },
            PartOfSpeech::Conjunction => match ConjunctionParsing::parse_segments(segments) {
                Ok(p) => Ok(GreekWordParsing::from(p)),
                Err(e) => Err(e),
            },
            PartOfSpeech::DemonstrativePronoun => match DemonstrativePronounParsing::parse_segments(segments) {
                Ok(p) => Ok(GreekWordParsing::from(p)),
                Err(e) => Err(e),
            },
            PartOfSpeech::HebrewWord => match HebrewWordParsing::parse_segments(segments) {
                Ok(p) => Ok(GreekWordParsing::from(p)),
                Err(e) => Err(e),
            },
            PartOfSpeech::Interjection => match InterjectionParsing::parse_segments(segments) {
                Ok(p) => Ok(GreekWordParsing::from(p)),
                Err(e) => Err(e),
            },
            PartOfSpeech::InterrogativeIndefinitePronoun => match InterrogativeIndefinitePronounParsing::parse_segments(segments) {
                Ok(p) => Ok(GreekWordParsing::from(p)),
                Err(e) => Err(e),
            },
            PartOfSpeech::Noun => match NounParsing::parse_segments(segments) {
                Ok(p) => Ok(GreekWordParsing::from(p)),
                Err(e) => Err(e),
            },
            PartOfSpeech::Particle => match ParticleParsing::parse_segments(segments) {
                Ok(p) => Ok(GreekWordParsing::from(p)),
                Err(e) => Err(e),
            },
            PartOfSpeech::PersonalPossessivePronoun => match PersonalPossessivePronounParsing::parse_segments(segments) {
                Ok(p) => Ok(GreekWordParsing::from(p)),
                Err(e) => Err(e),
            },
            PartOfSpeech::Preposition => match PrepositionParsing::parse_segments(segments) {
                Ok(p) => Ok(GreekWordParsing::from(p)),
                Err(e) => Err(e),
            },
            PartOfSpeech::ReciprocalPronoun => match ReciprocalPronounParsing::parse_segments(segments) {
                Ok(p) => Ok(GreekWordParsing::from(p)),
                Err(e) => Err(e),
            },
            PartOfSpeech::ReflexivePronoun => match ReflexivePronounParsing::parse_segments(segments) {
                Ok(p) => Ok(GreekWordParsing::from(p)),
                Err(e) => Err(e),
            },
            PartOfSpeech::RelativePronoun => match RelativePronounParsing::parse_segments(segments) {
                Ok(p) => Ok(GreekWordParsing::from(p)),
                Err(e) => Err(e),
            },
            PartOfSpeech::Verb => match VerbParsing::parse_segments(segments) {
                Ok(p) => Ok(GreekWordParsing::from(p)),
                Err(e) => Err(e),
            },
        }
    }

    pub fn part_of_speech(&self) -> (r: Option<PartOfSpeech>)
        ensures
            r == self.spec_part_of_speech(),
    {
        match self {
            GreekWordParsing::Adjective(p) => Some(p.get_part_of_speech()),
            GreekWordParsing::Adverb(p) => Some(p.get_part_of_speech()),
            GreekWordParsing::AramaicWord(p) => Some(p.get_part_of_speech()),
            GreekWordParsing::Article(p) => Some(p.get_part_of_speech()),
            GreekWordParsing::Conjunction(p) => Some(p.get_part_of_speech()),
            GreekWordParsing::DemonstrativePronoun(p) => Some(p.get_part_of_speech()),
            GreekWordParsing::HebrewWord(p) => Some(p.get_part_of_speech()),
            GreekWordParsing::Interjection(p) => Some(p.get_part_of_speech()),
            GreekWordParsing::InterrogativeIndefinitePronoun(p) => Some(p.get_part_of_speech()),
            GreekWordParsing::Noun(p) => Some(p.get_part_of_speech()),
            GreekWordParsing::Particle(p) => Some(p.get_part_of_speech()),
            GreekWordParsing::PersonalPossessivePronoun(p) => Some(p.get_part_of_speech()),
            GreekWordParsing::Preposition(p) => Some(p.get_part_of_speech()),
            GreekWordParsing::ReciprocalPronoun(p) => Some(p.get_part_of_speech()),
            GreekWordParsing::ReflexivePronoun(p) => Some(p.get_part_of_speech()),
            GreekWordParsing::RelativePronoun(p) => Some(p.get_part_of_speech()),
            GreekWordParsing::Verb(p) => Some(p.get_part_of_speech()),
            _ => None,
        }
    }

    pub fn case(&self) -> (r: Option<Case>)
        ensures
            r == self.spec_case(),
    {
        match self {
            GreekWordParsing::Adjective(p) => p.case(),
            GreekWordParsing::Noun(p) => p.case(),
            GreekWordParsing::Article(p) => p.case(),
            GreekWordParsing::DemonstrativePronoun(p) => p.case(),
            GreekWordParsing::InterrogativeIndefinitePronoun(p) => p.case(),
            GreekWordParsing::PersonalPossessivePronoun(p) => p.case(),
            GreekWordParsing::ReciprocalPronoun(p) => p.case(),
            GreekWordParsing::ReflexivePronoun(p) => p.case(),
            GreekWordParsing::RelativePronoun(p) => p.case(),
            GreekWordParsing::Verb(p) => p.case(),
            _ => None,
        }
    }

    pub fn comparison(&self) -> (r: Option<Comparison>)
        ensures
            r == self.spec_comparison(),
    {
        match self {
            GreekWordParsing::Adjective(p) => p.comparison(),
            GreekWordParsing::Adverb(p) => p.comparison(),
            _ => None,
        }
    }

    pub fn gender(&self) -> (r: Option<Gender>)
        ensures
            r == self.spec_gender(),
    {
        match self {
            GreekWordParsing::Adjective(p) => p.gender(),
            GreekWordParsing::Noun(p) => p.gender(),
            GreekWordParsing::Article(p) => p.gender(),
            GreekWordParsing::DemonstrativePronoun(p) => p.gender(),
            GreekWordParsing::InterrogativeIndefinitePronoun(p) => p.gender(),
            GreekWordParsing::PersonalPossessivePronoun(p) => p.gender(),
            GreekWordParsing::ReciprocalPronoun(p) => p.gender(),
            GreekWordParsing::ReflexivePronoun(p) => p.gender(),
            GreekWordParsing::RelativePronoun(p) => p.gender(),
            GreekWordParsing::Verb(p) => p.gender(),
            _ => None,
        }
    }

    pub fn mood(&self) -> (r: Option<Mood>)
        ensures
            r == self.spec_mood(),
    {
        match self {
            GreekWordParsing::Verb(p) => p.mood(),
            _ => None,
        }
    }

    pub fn number(&self) -> (r: Option<Number>)
        ensures
            r == self.spec_number(),
    {
        match self {
            GreekWordParsing::Adjective(p) => p.number(),
            GreekWordParsing::Noun(p) => p.number(),
            GreekWordParsing::Article(p) => p.number(),
            GreekWordParsing::DemonstrativePronoun(p) => p.number(),
            GreekWordParsing::InterrogativeIndefinitePronoun(p) => p.number(),
            GreekWordParsing::PersonalPossessivePronoun(p) => p.number(),
            GreekWordParsing::ReciprocalPronoun(p) => p.number(),
            GreekWordParsing::ReflexivePronoun(p) => p.number(),
            GreekWordParsing::RelativePronoun(p) => p.number(),
            GreekWordParsing::Verb(p) => p.number(),
            _ => None,
        }
    }

    pub fn person(&self) -> (r: Option<Person>)
        ensures
            r == self.spec_person(),
    {
        match self {
            GreekWordParsing::PersonalPossessivePronoun(p) => p.person(),
            GreekWordParsing::ReflexivePronoun(p) => p.person(),
            GreekWordParsing::Verb(p) => p.person(),
            _ => None,
        }
    }

    pub fn tense(&self) -> (r: Option<Tense>)
        ensures
            r == self.spec_tense(),
    {
        match self {
            GreekWordParsing::Verb(p) => p.tense(),
            _ => None,
        }
    }

    pub fn voice(&self) -> (r: Option<Voice>)
        ensures
            r == self.spec_voice(),
    {
        match self {
            GreekWordParsing::Verb(p) => p.voice(),
            _ => None,
        }
    }
}

} // verus!
