//! Splitting a sequence at the occurrences of a pattern, and joining the
//! pieces again. Used on bytes (lines, header fields) and on characters
//! (tokens, text lines).

use vstd::prelude::*;
use vstd::slice::slice_subrange;

verus! {

/// An element type that can be compared in executable code.
pub trait Symbol: Copy {
    /// Whether the two are equal.
    fn same(self, other: Self) -> (r: bool)
        ensures
            r == (self == other),
    ;
}

impl Symbol for u8 {
    fn same(self, other: u8) -> (r: bool) {
        self == other
    }
}

impl Symbol for char {
    fn same(self, other: char) -> (r: bool) {
        self == other
    }
}

/// The least offset at which `pat` occurs in `s`; `s.len()` when it occurs
/// nowhere before the end.
pub open spec fn first_match<T>(s: Seq<T>, pat: Seq<T>) -> int
    decreases s.len(),
{
    if s.len() == 0 || pat.is_prefix_of(s) {
        0
    } else {
        1 + first_match(s.skip(1), pat)
    }
}

/// The pieces of `s` between the non-overlapping occurrences of `pat`, found
/// from the left. There is always at least one piece; an empty pattern splits
/// nothing.
pub open spec fn split<T>(s: Seq<T>, pat: Seq<T>) -> Seq<Seq<T>>
    decreases s.len(),
{
    let i = first_match(s, pat);
    if pat.len() > 0 && 0 <= i && i + pat.len() <= s.len() {
        seq![s.take(i)] + split(s.skip(i + pat.len()), pat)
    } else {
        seq![s]
    }
}

/// The pieces put together again, with `sep` between neighbours.
pub open spec fn join<T>(parts: Seq<Seq<T>>, sep: Seq<T>) -> Seq<T>
    decreases parts.len(),
{
    if parts.len() == 0 {
        Seq::empty()
    } else if parts.len() == 1 {
        parts[0]
    } else {
        parts[0] + sep + join(parts.skip(1), sep)
    }
}

/// The views of a sequence of slices.
pub open spec fn slice_views<T>(parts: Seq<&[T]>) -> Seq<Seq<T>> {
    Seq::new(parts.len(), |i: int| parts[i]@)
}

/// `first_match` is within bounds, nothing matches before it, and unless it
/// is the end of the sequence the pattern occurs there.
pub proof fn lemma_first_match<T>(s: Seq<T>, pat: Seq<T>)
    ensures
        0 <= first_match(s, pat) <= s.len(),
        forall|k: int| 0 <= k < first_match(s, pat) ==> !pat.is_prefix_of(#[trigger] s.skip(k)),
        first_match(s, pat) < s.len() ==> pat.is_prefix_of(s.skip(first_match(s, pat))),
    decreases s.len(),
{
    if s.len() > 0 && !pat.is_prefix_of(s) {
        let t = s.skip(1);
        lemma_first_match(t, pat);
        let r = first_match(s, pat);
        assert forall|k: int| 0 <= k < r implies !pat.is_prefix_of(#[trigger] s.skip(k)) by {
            if k > 0 {
                assert(t.skip(k - 1) =~= s.skip(k));
            }
        }
        assert(r < s.len() ==> t.skip(r - 1) =~= s.skip(r));
    }
}

/// The offset described by `lemma_first_match` is the only one of its kind.
pub proof fn lemma_first_match_is<T>(s: Seq<T>, pat: Seq<T>, r: int)
    requires
        0 <= r <= s.len(),
        forall|k: int| 0 <= k < r ==> !pat.is_prefix_of(#[trigger] s.skip(k)),
        r == s.len() || pat.is_prefix_of(s.skip(r)),
    ensures
        first_match(s, pat) == r,
    decreases s.len(),
{
    assert(s.skip(0) =~= s);
    if s.len() > 0 && !pat.is_prefix_of(s) {
        let t = s.skip(1);
        assert forall|k: int| 0 <= k < r - 1 implies !pat.is_prefix_of(#[trigger] t.skip(k)) by {
            assert(t.skip(k) =~= s.skip(k + 1));
        }
        assert(t.skip(r - 1) =~= s.skip(r));
        lemma_first_match_is(t, pat, r - 1);
    }
}

/// Splitting and joining again with the same pattern gives back the
/// sequence: the pieces, with the pattern between them, are all there is.
pub proof fn lemma_split_join<T>(s: Seq<T>, pat: Seq<T>)
    ensures
        join(split(s, pat), pat) == s,
    decreases s.len(),
{
    let i = first_match(s, pat);
    if pat.len() > 0 && 0 <= i && i + pat.len() <= s.len() {
        let rest = s.skip(i + pat.len());
        lemma_first_match(s, pat);
        lemma_split_join(rest, pat);
        lemma_split_nonempty(rest, pat);
        let pieces = seq![s.take(i)] + split(rest, pat);
        assert(pieces.skip(1) =~= split(rest, pat));
        assert(pat =~= s.subrange(i, i + pat.len()));
        assert(s.take(i) + pat + rest =~= s);
    }
}

/// A split has at least one piece.
pub proof fn lemma_split_nonempty<T>(s: Seq<T>, pat: Seq<T>)
    ensures
        split(s, pat).len() >= 1,
{
}

/// Joining with one more piece at the end.
pub proof fn lemma_join_push<T>(parts: Seq<Seq<T>>, sep: Seq<T>, last: Seq<T>)
    ensures
        join(parts.push(last), sep) == if parts.len() == 0 {
            last
        } else {
            join(parts, sep) + sep + last
        },
    decreases parts.len(),
{
    if parts.len() == 1 {
        assert(parts.push(last).skip(1) =~= seq![last]);
        assert(join(seq![last], sep) == last);
    } else if parts.len() > 1 {
        lemma_join_push(parts.skip(1), sep, last);
        assert(parts.push(last).skip(1) =~= parts.skip(1).push(last));
    }
}

/// Whether `pat` occurs in `s` at offset `i`.
fn matches_at<T: Symbol>(s: &[T], i: usize, pat: &[T]) -> (r: bool)
    requires
        i <= s@.len(),
    ensures
        r == pat@.is_prefix_of(s@.skip(i as int)),
{
    if pat.len() > s.len() - i {
        return false;
    }
    let mut j: usize = 0;
    while j < pat.len()
        invariant
            i + pat.len() <= s.len(),
            j <= pat.len(),
            forall|k: int| 0 <= k < j ==> pat@[k] == s@[i + k],
        decreases pat@.len() - j,
    {
        if !pat[j].same(s[i + j]) {
            return false;
        }
        j += 1;
    }
    true
}

/// The offset of the first occurrence of `pat` in `s`, if there is one before
/// the end.
pub fn find<T: Symbol>(s: &[T], pat: &[T]) -> (r: Option<usize>)
    ensures
        match r {
            Some(i) => i < s@.len() && i == first_match(s@, pat@),
            None => first_match(s@, pat@) == s@.len(),
        },
{
    let mut i: usize = 0;
    while i < s.len()
        invariant
            i <= s@.len(),
            forall|k: int| 0 <= k < i ==> !pat@.is_prefix_of(#[trigger] s@.skip(k)),
        decreases s@.len() - i,
    {
        if matches_at(s, i, pat) {
            proof {
                lemma_first_match_is(s@, pat@, i as int);
            }
            return Some(i);
        }
        i += 1;
    }
    proof {
        lemma_first_match_is(s@, pat@, s@.len() as int);
    }
    None
}

/// Splits `s` at the occurrences of `pat`.
pub fn split_slice<'a, T: Symbol>(s: &'a [T], pat: &[T]) -> (parts: Vec<&'a [T]>)
    ensures
        slice_views(parts@) == split(s@, pat@),
{
    let mut parts: Vec<&'a [T]> = Vec::new();
    let mut start: usize = 0;
    proof {
        assert(s@.skip(0) =~= s@);
    }
    if pat.len() > 0 {
        let mut i: usize = 0;
        while i < s.len()
            invariant
                pat@.len() > 0,
                start <= i <= s@.len(),
                forall|k: int| start <= k < i ==> !pat@.is_prefix_of(#[trigger] s@.skip(k)),
                split(s@, pat@) == slice_views(parts@) + split(s@.skip(start as int), pat@),
            decreases s@.len() - i,
        {
            if matches_at(s, i, pat) {
                let piece = slice_subrange(s, start, i);
                proof {
                    let rest = s@.skip(start as int);
                    let r = i - start;
                    assert forall|k: int| 0 <= k < r implies !pat@.is_prefix_of(
                        #[trigger] rest.skip(k),
                    ) by {
                        assert(rest.skip(k) =~= s@.skip(start + k));
                    }
                    lemma_first_match_is(rest, pat@, r);
                    assert(rest.take(r) =~= piece@);
                    assert(rest.skip(r + pat@.len()) =~= s@.skip(i + pat@.len()));
                }
                parts.push(piece);
                i += pat.len();
                start = i;
            } else {
                i += 1;
            }
        }
    }
    let piece = slice_subrange(s, start, s.len());
    proof {
        let rest = s@.skip(start as int);
        if pat@.len() > 0 {
            assert forall|k: int| 0 <= k < rest.len() implies !pat@.is_prefix_of(
                #[trigger] rest.skip(k),
            ) by {
                assert(rest.skip(k) =~= s@.skip(start + k));
            }
            lemma_first_match_is(rest, pat@, rest.len() as int);
        }
    }
    parts.push(piece);
    parts
}

} // verus!
