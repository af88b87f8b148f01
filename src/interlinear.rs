//! Plain records of the interlinear tables that the decoded tags are stored with.

use vstd::prelude::*;

verus! {

/// How the English translation renders one source-language word.
#[derive(Clone, Debug)]
pub enum TranslatedWord {
    /// ` [This is the] record `: the word's translation, in segments.
    Text(Vec<TranslatedTextSegment>),
    /// ` - `: not translated directly.
    Omitted,
    /// ` . . . `: part of the previous word.
    Earlier,
    /// ` vvv `: part of the next word.
    Later,
}

/// One segment of a word's translation.
#[derive(Clone, Debug)]
pub enum TranslatedTextSegment {
    /// `record` in ` [This is the] record `.
    Word(String),
    /// `This is the` in ` [This is the] record `: added for the sense in English.
    Grammar(String),
}

/// The language of a source-language word.
#[derive(Clone, Debug)]
pub enum Language {
    Hebrew,
    Greek,
    Aramaic,
}

/// One row of the interlinear table as it is read, before any field is decoded.
#[allow(dead_code)]
#[derive(Clone, Debug)]
pub struct RawInterlinearEntry {
    /// Column `Heb Sort`.
    hebrew_sort: u32,
    /// Column `Greek Sort`.
    greek_sort: u32,
    /// Column `BSB Sort`.
    bsb_sort: u32,
    /// Column `Verse`.
    verse_id: u32,
    /// Column `Language`.
    language: String,
    /// Column `WLC / Nestle Base TR RP WH NE NA SBL`.
    text_1: Option<String>,
    /// Column `WLC / Nestle Base {TR} ⧼RP⧽ (WH) 〈NE〉 [NA] ‹SBL› [[ECM]]`.
    text_2: Option<String>,
    /// Column `Translit`.
    transliteration: Option<String>,
    /// Column `Parsing`: the tag code.
    parsing_code: Option<String>,
    /// Column `Parsing`: the tag in words.
    parsing: Option<String>,
    /// Column `Str Heb`.
    strongs_hebrew: Option<u32>,
    /// Column `Str Grk`.
    strongs_greek: Option<u32>,
    /// Column `Verse`, as text.
    verse: Option<String>,
    /// Column `Hdg`.
    heading: Option<String>,
    /// Column `Crossref`.
    crossref: Option<Vec<String>>,
    /// Column `Par`.
    paragraph: Option<String>,
    /// Column `“`.
    start_quote: Option<String>,
    /// Column ` BSB version `.
    english: Option<String>,
    /// Column `pnc`.
    puncutation: Option<String>,
    /// Column `”`.
    end_quote: Option<String>,
    /// Column `footnotes`.
    footnotes: Option<String>,
    /// Column `End text`.
    end_text: Option<String>,
}

} // verus!
