//! One grammar per part of speech, each reading the segments that follow the
//! part-of-speech code.
//!
//! Fields are read one character at a time, left to right. A field that may be
//! left out is taken only where the next character is a code of its category;
//! otherwise the character stays for the next field.

pub mod adjective;
pub mod adverb;
pub mod aramaic_word;
pub mod article;
pub mod conjunction;
pub mod demonstrative_pronoun;
pub mod hebrew_word;
pub mod interjection;
pub mod interrogative_indefinite_pronoun;
pub mod noun;
pub mod particle;
pub mod personal_possessive_pronoun;
pub mod preposition;
pub mod reciprocal_pronoun;
pub mod reflexive_pronoun;
pub mod relative_pronoun;
pub mod verb;

use crate::components::case::Case;
use crate::components::gender::Gender;
use crate::components::number::Number;
use crate::components::part_of_speech::PartOfSpeech;
use crate::components::{decode, read_code, ComponentCode};
use crate::error::{outcome, DecodeError, Outcome};
use crate::text::{char_pieces, join_pieces, joined, views};
use vstd::prelude::*;
use vstd::slice::slice_subrange;
use vstd::string::*;

verus! {

/// The structured value of one part of speech, read from the segments that follow
/// its code.
pub trait PartOfSpeechParsing: Sized {
    /// What reading `segments` gives.
    spec fn spec_parse(segments: Seq<Seq<char>>) -> Outcome<Self>;

    /// The part of speech this grammar reads.
    spec fn spec_part_of_speech() -> PartOfSpeech;

    fn part_of_speech() -> (r: PartOfSpeech)
        ensures
            r == Self::spec_part_of_speech(),
    ;

    fn get_part_of_speech(&self) -> (r: PartOfSpeech)
        ensures
            r == Self::spec_part_of_speech(),
    {
        Self::part_of_speech()
    }

    /// Reads the segments that follow the part-of-speech code.
    fn parse_segments(segments: &[&str]) -> (r: Result<Self, DecodeError>)
        ensures
            outcome(r) == Self::spec_parse(views(segments@)),
    ;
}

/// Segment `j` of `segments`, or the empty text where there are fewer.
pub open spec fn segment(segments: Seq<Seq<char>>, j: int) -> Seq<char> {
    if 0 <= j < segments.len() {
        segments[j]
    } else {
        Seq::empty()
    }
}

/// The field of `E` at position `i` of `seg`, which must be there: an error names
/// the character that is not a code of `E`, or nothing where `seg` has ended.
pub open spec fn required<E: ComponentCode>(seg: Seq<char>, i: int) -> Outcome<E> {
    if 0 <= i < seg.len() {
        read_code::<E>(seg.subrange(i, i + 1))
    } else {
        Err((E::spec_category(), Seq::empty()))
    }
}

/// The field of `E` at position `i` of `seg`, absent where `seg` has ended or the
/// character there is not a code of `E`.
pub open spec fn optional<E: ComponentCode>(seg: Seq<char>, i: int) -> Option<E> {
    if 0 <= i < seg.len() {
        match read_code::<E>(seg.subrange(i, i + 1)) {
            Ok(v) => Some(v),
            Err(_) => None,
        }
    } else {
        None
    }
}

/// The position after an optional field read at `i`: it moves on only where the
/// field was there.
pub open spec fn after<E>(field: Option<E>, i: int) -> int {
    if field is Some {
        i + 1
    } else {
        i
    }
}

/// The rest of `seg` from position `i` read as one code of `E`, absent where it is
/// not one.
pub open spec fn optional_rest<E: ComponentCode>(seg: Seq<char>, i: int) -> Option<E> {
    match read_code::<E>(seg.subrange(i, seg.len() as int)) {
        Ok(v) => Some(v),
        Err(_) => None,
    }
}

/// Segment `j`, or the empty text where there are fewer.
pub fn segment_at<'a>(segments: &[&'a str], j: usize) -> (r: &'a str)
    ensures
        r@ == segment(views(segments@), j as int),
{
    if j < segments.len() {
        segments[j]
    } else {
        proof {
            reveal_strlit("");
            assert(""@ =~= Seq::<char>::empty());
        }
        ""
    }
}

/// Reads the field of `E` that must stand at position `i` of `seg`.
pub fn take_required<E: ComponentCode>(seg: &str, i: usize) -> (r: Result<E, DecodeError>)
    ensures
        outcome(r) == required::<E>(seg@, i as int),
{
    if i < seg.unicode_len() {
        decode::<E>(seg.substring_char(i, i + 1))
    } else {
        proof {
            reveal_strlit("");
            assert(""@ =~= Seq::<char>::empty());
        }
        Err(DecodeError::new(E::category(), ""))
    }
}

/// Reads the field of `E` that may stand at position `i` of `seg`.
pub fn take_optional<E: ComponentCode>(seg: &str, i: usize) -> (r: Option<E>)
    ensures
        r == optional::<E>(seg@, i as int),
{
    if i < seg.unicode_len() {
        match decode::<E>(seg.substring_char(i, i + 1)) {
            Ok(v) => Some(v),
            Err(_) => None,
        }
    } else {
        None
    }
}

/// Case, gender and number, each required, in the first three positions of `seg`.
pub open spec fn case_gender_number(seg: Seq<char>) -> Outcome<(Case, Gender, Number)> {
    match required::<Case>(seg, 0) {
        Err(e) => Err(e),
        Ok(case) => match required::<Gender>(seg, 1) {
            Err(e) => Err(e),
            Ok(gender) => match required::<Number>(seg, 2) {
                Err(e) => Err(e),
                Ok(number) => Ok((case, gender, number)),
            },
        },
    }
}

/// Reads case, gender and number from the start of `seg`.
pub fn take_case_gender_number(seg: &str) -> (r: Result<(Case, Gender, Number), DecodeError>)
    ensures
        outcome(r) == case_gender_number(seg@),
{
    let case = match take_required::<Case>(seg, 0) {
        Ok(v) => v,
        Err(e) => return Err(e),
    };
    let gender = match take_required::<Gender>(seg, 1) {
        Ok(v) => v,
        Err(e) => return Err(e),
    };
    let number = match take_required::<Number>(seg, 2) {
        Ok(v) => v,
        Err(e) => return Err(e),
    };
    Ok((case, gender, number))
}

/// One-character pieces joined with no separator give back the text they were
/// cut from.
proof fn lemma_join_char_pieces(pieces: Seq<Seq<char>>, s: Seq<char>)
    requires
        pieces.len() == s.len(),
        forall|k: int| 0 <= k < pieces.len() ==> #[trigger] pieces[k] == s.subrange(k, k + 1),
    ensures
        joined(pieces, Seq::empty()) == s,
    decreases pieces.len(),
{
    if pieces.len() == 0 {
        assert(s =~= Seq::<char>::empty());
    } else if pieces.len() == 1 {
        assert(pieces[0] == s.subrange(0, 1));
        assert(s.subrange(0, 1) =~= s);
    } else {
        let init = pieces.drop_last();
        let s_init = s.drop_last();
        assert forall|k: int| 0 <= k < init.len() implies #[trigger] init[k] == s_init.subrange(k, k + 1) by {
            assert(pieces[k] == s.subrange(k, k + 1));
            assert(s_init.subrange(k, k + 1) =~= s.subrange(k, k + 1));
        }
        lemma_join_char_pieces(init, s_init);
        assert(pieces.last() == s.subrange(s.len() - 1, s.len() as int));
        assert(s =~= s_init + Seq::<char>::empty() + pieces.last());
    }
}

/// Reads the rest of `seg`, from position `i`, as one code of `E`.
pub fn take_rest<E: ComponentCode>(seg: &str, i: usize) -> (r: Option<E>)
    requires
        i <= seg@.len(),
    ensures
        r == optional_rest::<E>(seg@, i as int),
{
    let pieces = char_pieces(seg);
    let rest_pieces = slice_subrange(pieces.as_slice(), i, pieces.len());
    let rest = join_pieces(rest_pieces, "");
    proof {
        reveal_strlit("");
        assert(""@ =~= Seq::<char>::empty());
        let tail = seg@.subrange(i as int, seg@.len() as int);
        let p = views(rest_pieces@);
        assert forall|k: int| 0 <= k < p.len() implies #[trigger] p[k] == tail.subrange(k, k + 1) by {
            assert(rest_pieces@[k] == pieces@[i + k]);
            assert(tail.subrange(k, k + 1) =~= seg@.subrange(i + k, i + k + 1));
        }
        lemma_join_char_pieces(p, tail);
        assert(rest@ == tail);
    }
    match decode::<E>(rest.as_str()) {
        Ok(v) => Some(v),
        Err(_) => None,
    }
}

} // verus!
