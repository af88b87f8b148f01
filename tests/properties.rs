use greek_morph::components::case::Case;
use greek_morph::components::comparison::Comparison;
use greek_morph::components::gender::Gender;
use greek_morph::components::mood::Mood;
use greek_morph::components::number::Number;
use greek_morph::components::part_of_speech::PartOfSpeech;
use greek_morph::components::person::Person;
use greek_morph::components::tense::Tense;
use greek_morph::components::voice::Voice;
use greek_morph::components::{decode, ComponentCode};
use greek_morph::error::{Category, DecodeError};
use greek_morph::parsings::noun::NounParsing;
use greek_morph::parsings::verb::VerbParsing;
use greek_morph::parsings::PartOfSpeechParsing;
use greek_morph::word::GreekWordParsing;

fn round_trip<E: ComponentCode + std::fmt::Debug + PartialEq + Copy>(values: &[E]) {
    for v in values {
        let code = v.code();
        assert_eq!(decode::<E>(code), Ok(*v), "code {}", code);
        assert_eq!(decode::<E>(&code.to_lowercase()), Ok(*v), "code {}", code);
        assert_eq!(decode::<E>(&code.to_uppercase()), Ok(*v), "code {}", code);
    }
    for (i, a) in values.iter().enumerate() {
        for b in &values[i + 1..] {
            assert_ne!(a.code().to_lowercase(), b.code().to_lowercase());
            assert_ne!(a.code_name(), b.code_name());
        }
    }
}

fn err(category: Category, input: &str) -> DecodeError {
    DecodeError { category, input: input.to_string() }
}

const PARTS_OF_SPEECH: [PartOfSpeech; 17] = [
    PartOfSpeech::Verb,
    PartOfSpeech::Noun,
    PartOfSpeech::Adverb,
    PartOfSpeech::Adjective,
    PartOfSpeech::Article,
    PartOfSpeech::DemonstrativePronoun,
    PartOfSpeech::InterrogativeIndefinitePronoun,
    PartOfSpeech::PersonalPossessivePronoun,
    PartOfSpeech::ReciprocalPronoun,
    PartOfSpeech::RelativePronoun,
    PartOfSpeech::ReflexivePronoun,
    PartOfSpeech::Preposition,
    PartOfSpeech::Conjunction,
    PartOfSpeech::Interjection,
    PartOfSpeech::Particle,
    PartOfSpeech::HebrewWord,
    PartOfSpeech::AramaicWord,
];

#[test]
fn every_code_reads_back_in_any_case() {
    round_trip(&[Case::Nominative, Case::Vocative, Case::Accusative, Case::Genitive, Case::Dative]);
    round_trip(&[Number::Singular, Number::Plural]);
    round_trip(&[Gender::Masculine, Gender::Feminine, Gender::Neuter]);
    round_trip(&[Person::First, Person::Second, Person::Third]);
    round_trip(&[Tense::Present, Tense::Imperfect, Tense::Future, Tense::Aorist, Tense::Perfect, Tense::Pluperfect]);
    round_trip(&[Voice::Active, Voice::Middle, Voice::Passive, Voice::MiddlePassive]);
    round_trip(&[
        Mood::Indicative,
        Mood::Imperative,
        Mood::Subjunctive,
        Mood::Optative,
        Mood::Infinitive,
        Mood::Participle,
    ]);
    round_trip(&[Comparison::Comparative, Comparison::Superlative]);
    round_trip(&PARTS_OF_SPEECH);
}

#[test]
fn canonical_codes_and_names() {
    assert_eq!(Voice::MiddlePassive.code(), "M/P");
    assert_eq!(Voice::MiddlePassive.code_name(), "Middle or Passive");
    assert_eq!(PartOfSpeech::ReciprocalPronoun.code(), "RecPro");
    assert_eq!(PartOfSpeech::InterrogativeIndefinitePronoun.code_name(), "Interrogative / Indefinite Pronoun");
    assert_eq!(Person::Second.code(), "2");
    assert_eq!(Person::Second.code_name(), "2nd Person");
    assert_eq!(Tense::Perfect.code(), "R");
    assert_eq!(Mood::Infinitive.code(), "N");
    assert_eq!(Case::Dative.code_name(), "Dative");
}

#[test]
fn codes_parse_through_from_str() {
    assert_eq!("m/p".parse::<Voice>(), Ok(Voice::MiddlePassive));
    assert_eq!("recpro".parse::<PartOfSpeech>(), Ok(PartOfSpeech::ReciprocalPronoun));
    assert_eq!("g".parse::<Case>(), Ok(Case::Genitive));
    assert_eq!("x".parse::<Tense>(), Err(err(Category::Tense, "x")));
    assert_eq!("MP".parse::<Voice>(), Err(err(Category::Voice, "MP")));
    assert_eq!("".parse::<Number>(), Err(err(Category::Number, "")));
    assert_eq!("NN".parse::<Gender>(), Err(err(Category::Gender, "NN")));
    assert_eq!("4".parse::<Person>(), Err(err(Category::Person, "4")));
    assert_eq!("Q".parse::<Mood>(), Err(err(Category::Mood, "Q")));
    assert_eq!("CS".parse::<Comparison>(), Err(err(Category::Comparison, "CS")));
}

#[test]
fn mandatory_group_fails_when_number_is_missing() {
    assert_eq!(GreekWordParsing::parse("Art-AF"), Err(err(Category::Number, "")));
    assert_eq!(GreekWordParsing::parse("Art"), Err(err(Category::Case, "")));
    assert_eq!(GreekWordParsing::parse("N-AF"), Err(err(Category::Number, "")));
    assert_eq!(GreekWordParsing::parse("RelPro-A"), Err(err(Category::Gender, "")));
}

#[test]
fn noun_without_segment_has_no_fields() {
    let n = GreekWordParsing::parse("N").unwrap();
    assert_eq!(n.part_of_speech(), Some(PartOfSpeech::Noun));
    assert_eq!(n.case(), None);
    assert_eq!(n.gender(), None);
    assert_eq!(n.number(), None);

    let n = GreekWordParsing::parse("N-AFP").unwrap();
    assert_eq!(n.case(), Some(Case::Accusative));
    assert_eq!(n.gender(), Some(Gender::Feminine));
    assert_eq!(n.number(), Some(Number::Plural));
    assert_eq!(n.person(), None);
    assert_eq!(n.mood(), None);
}

#[test]
fn verb_without_tense() {
    let v = GreekWordParsing::parse("V-M-2P").unwrap();
    assert_eq!(v.mood(), Some(Mood::Imperative));
    assert_eq!(v.tense(), None);
    assert_eq!(v.person(), Some(Person::Second));
    assert_eq!(v.number(), Some(Number::Plural));

    let v = GreekWordParsing::parse("V-PI-3S").unwrap();
    assert_eq!(v.tense(), Some(Tense::Present));
    assert_eq!(v.mood(), Some(Mood::Indicative));
    assert_eq!(v.person(), Some(Person::Third));
    assert_eq!(v.number(), Some(Number::Singular));
    assert_eq!(v.voice(), None);
}

#[test]
fn verb_voice_spans_rest_of_segment() {
    let v = GreekWordParsing::parse("V-ANM/P").unwrap();
    assert_eq!(v.tense(), Some(Tense::Aorist));
    assert_eq!(v.mood(), Some(Mood::Infinitive));
    assert_eq!(v.voice(), Some(Voice::MiddlePassive));

    let v = GreekWordParsing::parse("v-pim/p-1s").unwrap();
    assert_eq!(v.voice(), Some(Voice::MiddlePassive));
    assert_eq!(v.person(), Some(Person::First));
}

#[test]
fn participle_full_tag() {
    let v = GreekWordParsing::parse("V-APA-AFP").unwrap();
    assert_eq!(v.tense(), Some(Tense::Aorist));
    assert_eq!(v.mood(), Some(Mood::Participle));
    assert_eq!(v.voice(), Some(Voice::Active));
    assert_eq!(v.case(), Some(Case::Accusative));
    assert_eq!(v.gender(), Some(Gender::Feminine));
    assert_eq!(v.number(), Some(Number::Plural));
    assert_eq!(v.person(), None);
    assert_eq!(v.comparison(), None);
}

#[test]
fn literal_markers() {
    for (code, marker) in [("Indec", GreekWordParsing::Indec), ("IntPrtcl", GreekWordParsing::IntPrtcl)] {
        let w = GreekWordParsing::parse(code).unwrap();
        assert_eq!(w, marker);
        assert_eq!(w.part_of_speech(), None);
        assert_eq!(w.case(), None);
        assert_eq!(w.comparison(), None);
        assert_eq!(w.gender(), None);
        assert_eq!(w.mood(), None);
        assert_eq!(w.number(), None);
        assert_eq!(w.person(), None);
        assert_eq!(w.tense(), None);
        assert_eq!(w.voice(), None);
    }
    assert_eq!(GreekWordParsing::parse("Indec-AFP"), Ok(GreekWordParsing::Indec));
    assert_eq!(GreekWordParsing::parse("indec"), Err(err(Category::PartOfSpeech, "indec")));
}

#[test]
fn unknown_part_of_speech() {
    assert_eq!(GreekWordParsing::parse("Xyz-AFP"), Err(err(Category::PartOfSpeech, "Xyz")));
    assert_eq!(GreekWordParsing::parse(""), Err(err(Category::PartOfSpeech, "")));
    assert_eq!(GreekWordParsing::parse("-N"), Err(err(Category::PartOfSpeech, "")));
}

#[test]
fn each_error_category_names_the_offending_text() {
    assert_eq!(GreekWordParsing::parse("Art-XFP"), Err(err(Category::Case, "X")));
    assert_eq!(GreekWordParsing::parse("DPro-AXP"), Err(err(Category::Gender, "X")));
    assert_eq!(GreekWordParsing::parse("IPro-AFX"), Err(err(Category::Number, "X")));
    assert_eq!(GreekWordParsing::parse("RefPro-AFXP"), Err(err(Category::Person, "X")));
    assert_eq!(GreekWordParsing::parse("V-AX-3S"), Err(err(Category::Mood, "X")));
    assert_eq!(GreekWordParsing::parse("V"), Err(err(Category::Mood, "")));
    assert_eq!(GreekWordParsing::parse("V-I-3S"), Err(err(Category::Mood, "")));
    assert_eq!(GreekWordParsing::parse("Adj-AFP-X"), Err(err(Category::Comparison, "X")));
    assert_eq!(GreekWordParsing::parse("Adj-AFP-CS"), Err(err(Category::Comparison, "CS")));
    assert_eq!(GreekWordParsing::parse("Adv-X"), Err(err(Category::Comparison, "X")));
    assert_eq!(GreekWordParsing::parse("PPro-A"), Err(err(Category::Number, "")));
    assert_eq!(GreekWordParsing::parse("PPro-AF"), Err(err(Category::Number, "")));
    assert_eq!(GreekWordParsing::parse("PPro-AF1X"), Err(err(Category::Number, "X")));
}

#[test]
fn optional_fields_are_skipped_not_rejected() {
    let v = GreekWordParsing::parse("V-AIX-3S").unwrap();
    assert_eq!(v.voice(), None);
    assert_eq!(v.person(), Some(Person::Third));

    let v = GreekWordParsing::parse("V-AIA-XS").unwrap();
    assert_eq!(v.person(), None);
    assert_eq!(v.number(), None);

    let a = GreekWordParsing::parse("Adv-").unwrap();
    assert_eq!(a.comparison(), None);
    let a = GreekWordParsing::parse("adv-s").unwrap();
    assert_eq!(a.comparison(), Some(Comparison::Superlative));

    let p = GreekWordParsing::parse("PPro-NNS").unwrap();
    assert_eq!(p.gender(), Some(Gender::Neuter));
    assert_eq!(p.person(), None);
    assert_eq!(p.number(), Some(Number::Singular));
}

#[test]
fn trailing_segments_are_ignored() {
    assert_eq!(
        GreekWordParsing::parse("Conj-AFP-X").unwrap().part_of_speech(),
        Some(PartOfSpeech::Conjunction)
    );
    assert_eq!(GreekWordParsing::parse("N-AFPX").unwrap(), GreekWordParsing::parse("N-AFP").unwrap());
    assert_eq!(GreekWordParsing::parse("V-AIA-3S-X").unwrap(), GreekWordParsing::parse("V-AIA-3S").unwrap());
}

#[test]
fn part_of_speech_codes_are_case_insensitive() {
    assert_eq!(GreekWordParsing::parse("art-afp").unwrap(), GreekWordParsing::parse("Art-AFP").unwrap());
    assert_eq!(GreekWordParsing::parse("REFPRO-af3p").unwrap(), GreekWordParsing::parse("RefPro-AF3P").unwrap());
}

#[test]
fn decoded_word_names_its_part_of_speech() {
    let samples = [
        ("V-AIA-3S", PartOfSpeech::Verb),
        ("N", PartOfSpeech::Noun),
        ("Adv", PartOfSpeech::Adverb),
        ("Adj", PartOfSpeech::Adjective),
        ("Art-NMS", PartOfSpeech::Article),
        ("DPro-NMS", PartOfSpeech::DemonstrativePronoun),
        ("IPro-NMS", PartOfSpeech::InterrogativeIndefinitePronoun),
        ("PPro-NM3S", PartOfSpeech::PersonalPossessivePronoun),
        ("RecPro-AMP", PartOfSpeech::ReciprocalPronoun),
        ("RelPro-NMS", PartOfSpeech::RelativePronoun),
        ("RefPro-AM3S", PartOfSpeech::ReflexivePronoun),
        ("Prep", PartOfSpeech::Preposition),
        ("Conj", PartOfSpeech::Conjunction),
        ("I", PartOfSpeech::Interjection),
        ("Prtcl", PartOfSpeech::Particle),
        ("Heb", PartOfSpeech::HebrewWord),
        ("Aram", PartOfSpeech::AramaicWord),
    ];
    for (code, pos) in samples {
        assert_eq!(GreekWordParsing::parse(code).unwrap().part_of_speech(), Some(pos), "{}", code);
    }
}

#[test]
fn grammars_report_their_part_of_speech() {
    assert_eq!(VerbParsing::part_of_speech(), PartOfSpeech::Verb);
    let n = NounParsing::parse_segments(&["GMS"]).unwrap();
    assert_eq!(n.get_part_of_speech(), PartOfSpeech::Noun);
    assert_eq!(n.case(), Some(Case::Genitive));
    assert!((*NounParsing(None)).is_none());
    assert_eq!(NounParsing::parse_segments(&[]).unwrap(), NounParsing(None));
}
