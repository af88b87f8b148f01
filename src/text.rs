use itertools::Itertools;
use vstd::prelude::*;
use vstd::string::*;

verus! {

/// `c` as a code point, with the letters `A` to `Z` folded to lower case.
pub open spec fn fold_char(c: char) -> u32 {
    let n = c as u32;
    if 'A' as u32 <= n && n <= 'Z' as u32 {
        (n + 32) as u32
    } else {
        n
    }
}

/// `a` and `b` spell the same text when ASCII letter case is ignored.
pub open spec fn same_ignoring_case(a: Seq<char>, b: Seq<char>) -> bool {
    &&& a.len() == b.len()
    &&& forall|i: int| 0 <= i < a.len() ==> #[trigger] fold_char(a[i]) == fold_char(b[i])
}

/// Whether two characters are equal once ASCII letter case is ignored.
pub fn chars_match(a: char, b: char) -> (r: bool)
    ensures
        r == (fold_char(a) == fold_char(b)),
{
    let x = a as u32;
    let y = b as u32;
    let fx = if 'A' as u32 <= x && x <= 'Z' as u32 { x + 32 } else { x };
    let fy = if 'A' as u32 <= y && y <= 'Z' as u32 { y + 32 } else { y };
    fx == fy
}

/// Whether `s` is `code`, ignoring ASCII letter case.
pub fn matches_code(s: &str, code: &str) -> (r: bool)
    ensures
        r == same_ignoring_case(s@, code@),
{
    let n = s.unicode_len();
    if n != code.unicode_len() {
        return false;
    }
    let mut i: usize = 0;
    while i < n
        invariant
            n == s@.len(),
            n == code@.len(),
            i <= n,
            forall|j: int| 0 <= j < i ==> fold_char(s@[j]) == fold_char(code@[j]),
        decreases n - i,
    {
        if !chars_match(s.get_char(i), code.get_char(i)) {
            return false;
        }
        i = i + 1;
    }
    true
}

/// Whether `a` and `b` are the same text, letter case included.
pub fn same_text(a: &str, b: &str) -> (r: bool)
    ensures
        r == (a@ == b@),
{
    let n = a.unicode_len();
    if n != b.unicode_len() {
        return false;
    }
    let mut i: usize = 0;
    while i < n
        invariant
            n == a@.len(),
            n == b@.len(),
            i <= n,
            forall|j: int| 0 <= j < i ==> a@[j] == b@[j],
        decreases n - i,
    {
        if a.get_char(i) != b.get_char(i) {
            return false;
        }
        i = i + 1;
    }
    assert(a@ =~= b@);
    true
}

/// The text of each string in `v`.
pub open spec fn views(v: Seq<&str>) -> Seq<Seq<char>> {
    v.map_values(|p: &str| p@)
}

/// The segments of `s` between `-` separators, in order, empty ones included:
/// one more segment than `s` has separators.
pub open spec fn segments_of(s: Seq<char>) -> Seq<Seq<char>>
    decreases s.len(),
{
    if s.len() == 0 {
        seq![Seq::empty()]
    } else {
        let init = segments_of(s.drop_last());
        if s.last() == '-' {
            init.push(Seq::empty())
        } else {
            init.update(init.len() - 1, init.last().push(s.last()))
        }
    }
}

/// There is always at least one segment.
pub proof fn lemma_segments_nonempty(s: Seq<char>)
    ensures
        segments_of(s).len() >= 1,
    decreases s.len(),
{
    if s.len() > 0 {
        lemma_segments_nonempty(s.drop_last());
    }
}

/// Splits `s` on every `-`.
pub fn split_segments(s: &str) -> (r: Vec<&str>)
    ensures
        views(r@) == segments_of(s@),
{
    let n = s.unicode_len();
    let mut segments: Vec<&str> = Vec::new();
    let mut start: usize = 0;
    let mut i: usize = 0;
    proof {
        assert(s@.take(0) =~= Seq::<char>::empty());
        assert(views(segments@).push(s@.subrange(0, 0)) =~= seq![Seq::<char>::empty()]);
    }
    while i < n
        invariant
            n == s@.len(),
            start <= i <= n,
            segments_of(s@.take(i as int)) == views(segments@).push(s@.subrange(start as int, i as int)),
        decreases n - i,
    {
        let c = s.get_char(i);
        let ghost before = views(segments@);
        proof {
            assert(s@.take(i + 1).drop_last() =~= s@.take(i as int));
            assert(s@.take(i + 1).last() == c);
            lemma_segments_nonempty(s@.take(i as int));
        }
        if c == '-' {
            let ghost old_segments = segments@;
            let segment = s.substring_char(start, i);
            segments.push(segment);
            proof {
                assert(segments@ == old_segments.push(segment));
                assert(views(segments@) =~= before.push(segment@));
                assert(s@.subrange(i + 1, i + 1) =~= Seq::<char>::empty());
            }
            start = i + 1;
        } else {
            proof {
                assert(s@.subrange(start as int, i + 1) =~= s@.subrange(start as int, i as int).push(c));
                assert(before.push(s@.subrange(start as int, i as int)).update(before.len() as int, s@.subrange(start as int, i + 1))
                    =~= before.push(s@.subrange(start as int, i + 1)));
            }
        }
        i = i + 1;
    }
    segments.push(s.substring_char(start, n));
    proof {
        assert(s@.take(n as int) =~= s@);
    }
    segments
}

/// Cuts `s` into one-character pieces.
pub fn char_pieces(s: &str) -> (r: Vec<&str>)
    ensures
        r@.len() == s@.len(),
        forall|k: int| 0 <= k < r@.len() ==> #[trigger] r@[k]@ == s@.subrange(k, k + 1),
{
    let n = s.unicode_len();
    let mut pieces: Vec<&str> = Vec::new();
    let mut i: usize = 0;
    while i < n
        invariant
            n == s@.len(),
            i <= n,
            pieces@.len() == i,
            forall|k: int| 0 <= k < i ==> #[trigger] pieces@[k]@ == s@.subrange(k, k + 1),
        decreases n - i,
    {
        pieces.push(s.substring_char(i, i + 1));
        i = i + 1;
    }
    pieces
}

/// The pieces one after another, with `sep` between each two.
pub open spec fn joined(pieces: Seq<Seq<char>>, sep: Seq<char>) -> Seq<char>
    decreases pieces.len(),
{
    if pieces.len() == 0 {
        Seq::empty()
    } else if pieces.len() == 1 {
        pieces[0]
    } else {
        joined(pieces.drop_last(), sep) + sep + pieces.last()
    }
}

/// Relies on itertools' `Itertools::join`: it writes the first item, then `sep`
/// and the next item for each further one; a `&str` is written as it is.
#[verifier::external_body]
pub(crate) fn join_pieces(pieces: &[&str], sep: &str) -> (r: String)
    ensures
        r@ == joined(views(pieces@), sep@),
{
    pieces.iter().join(sep)
}

} // verus!
