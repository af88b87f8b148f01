//! The closed alphabets of grammatical categories, each a bijection between short
//! codes and values.

pub mod case;
pub mod comparison;
pub mod gender;
pub mod mood;
pub mod number;
pub mod part_of_speech;
pub mod person;
pub mod tense;
pub mod voice;

use crate::error::{outcome, Category, DecodeError, Outcome};
use crate::text::{fold_char, same_ignoring_case};
use vstd::prelude::*;

verus! {

/// A value of a closed category, spelled by a short canonical code.
///
/// Codes are read without regard to ASCII letter case and written in their
/// canonical case.
pub trait ComponentCode: Sized {
    /// The canonical code of the value, in its letter case.
    spec fn spec_code(&self) -> Seq<char>;

    /// The human-readable name of the value.
    spec fn spec_name(&self) -> Seq<char>;

    /// The category reported when text is not a code of this kind.
    spec fn spec_category() -> Category;

    /// No two values share a code, whatever the letter case.
    proof fn lemma_codes_distinct(a: Self, b: Self)
        ensures
            same_ignoring_case(a.spec_code(), b.spec_code()) ==> a == b,
    ;

    fn code(&self) -> (r: &'static str)
        ensures
            r@ == self.spec_code(),
    ;

    fn code_name(&self) -> (r: &'static str)
        ensures
            r@ == self.spec_name(),
    ;

    fn category() -> (r: Category)
        ensures
            r == Self::spec_category(),
    ;

    /// The value whose code `s` is, if there is one.
    fn lookup(s: &str) -> (r: Option<Self>)
        ensures
            match r {
                Some(v) => same_ignoring_case(s@, v.spec_code()),
                None => forall|v: Self| !same_ignoring_case(s@, #[trigger] v.spec_code()),
            },
    ;
}

/// What reading `s` as a code of `E` gives: the value whose code it is, ignoring
/// letter case, or an error of `E`'s category naming `s`.
pub open spec fn read_code<E: ComponentCode>(s: Seq<char>) -> Outcome<E> {
    if exists|v: E| same_ignoring_case(s, #[trigger] v.spec_code()) {
        Ok(choose|v: E| same_ignoring_case(s, #[trigger] v.spec_code()))
    } else {
        Err((E::spec_category(), s))
    }
}

/// Reads `s` as a code of `E`, in any letter case.
pub fn decode<E: ComponentCode>(s: &str) -> (r: Result<E, DecodeError>)
    ensures
        outcome(r) == read_code::<E>(s@),
{
    match E::lookup(s) {
        Some(v) => {
            proof {
                lemma_read_code_of::<E>(v, s@);
            }
            Ok(v)
        },
        None => Err(DecodeError::new(E::category(), s)),
    }
}

/// Two texts that each match a third ignoring case match each other.
pub proof fn lemma_same_ignoring_case_trans(a: Seq<char>, b: Seq<char>, c: Seq<char>)
    requires
        same_ignoring_case(a, b),
        same_ignoring_case(b, c),
    ensures
        same_ignoring_case(a, c),
{
    assert forall|i: int| 0 <= i < a.len() implies #[trigger] fold_char(a[i]) == fold_char(c[i]) by {
        assert(fold_char(a[i]) == fold_char(b[i]));
        assert(fold_char(b[i]) == fold_char(c[i]));
    }
}

/// The facts about two matching texts that tell the codes of a category apart:
/// their length and their first and third characters.
pub proof fn lemma_same_ignoring_case_key(a: Seq<char>, b: Seq<char>)
    requires
        same_ignoring_case(a, b),
    ensures
        a.len() == b.len(),
        a.len() > 0 ==> fold_char(a[0]) == fold_char(b[0]),
        a.len() > 2 ==> fold_char(a[2]) == fold_char(b[2]),
{
    if a.len() > 0 {
        assert(fold_char(a[0]) == fold_char(b[0]));
    }
    if a.len() > 2 {
        assert(fold_char(a[2]) == fold_char(b[2]));
    }
}

/// Reading a value's canonical code gives the value back, and so does reading any
/// spelling of that code that differs from it only in ASCII letter case.
pub proof fn lemma_code_round_trip<E: ComponentCode>(v: E, s: Seq<char>)
    requires
        same_ignoring_case(s, v.spec_code()),
    ensures
        read_code::<E>(s) == Ok::<E, (Category, Seq<char>)>(v),
        read_code::<E>(v.spec_code()) == Ok::<E, (Category, Seq<char>)>(v),
{
    lemma_read_code_of(v, v.spec_code());
    lemma_read_code_of(v, s);
}

proof fn lemma_read_code_of<E: ComponentCode>(v: E, s: Seq<char>)
    requires
        same_ignoring_case(s, v.spec_code()),
    ensures
        read_code::<E>(s) == Ok::<E, (Category, Seq<char>)>(v),
{
    let w = choose|w: E| same_ignoring_case(s, #[trigger] w.spec_code());
    assert(same_ignoring_case(v.spec_code(), s));
    lemma_same_ignoring_case_trans(v.spec_code(), s, w.spec_code());
    E::lemma_codes_distinct(v, w);
}

} // verus!
