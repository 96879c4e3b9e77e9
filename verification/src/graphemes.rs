//! Grapheme-cluster decomposition of a line.
//!
//! Cursor arithmetic happens in grapheme-cluster space; character offsets into
//! the line are derived from the decomposition only at the point of a raw
//! mutation.  The decomposition itself is computed by an outside crate; this
//! module names its result and proves the bookkeeping around it.

use vstd::prelude::*;
use vstd::seq_lib::lemma_flatten_concat;
use unicode_segmentation::UnicodeSegmentation;

verus! {

/// The extended grapheme clusters of `s`, in order.  The decomposition is a
/// function of the characters alone; what it is on given characters is known
/// only to the segmenter.
pub uninterp spec fn grapheme_segments_of(s: Seq<char>) -> Seq<Seq<char>>;

/// What the segmenter guarantees of a decomposition: the clusters are
/// non-empty and concatenate back to the decomposed line.
pub open spec fn segments_wf(s: Seq<char>) -> bool {
    &&& grapheme_segments_of(s).flatten() == s
    &&& forall|i: int|
        0 <= i < grapheme_segments_of(s).len() ==> #[trigger] grapheme_segments_of(s)[i].len() > 0
}

/// The number of grapheme clusters in `s`.
pub open spec fn grapheme_count(s: Seq<char>) -> nat {
    grapheme_segments_of(s).len()
}

/// The number of characters occupied by the first `col` clusters of `segs`:
/// the character offset of the cluster boundary at column `col`.
pub open spec fn prefix_chars(segs: Seq<Seq<char>>, col: int) -> int {
    segs.take(col).flatten().len() as int
}

/// Relies on `unicode_segmentation::UnicodeSegmentation::graphemes` (with
/// extended clusters): it yields the grapheme clusters of the input in order,
/// each a non-empty subslice, together covering the whole input, and depends
/// on the input characters alone.
#[verifier::external_body]
pub(crate) fn grapheme_split(line: &Vec<char>) -> (segs: Vec<Vec<char>>)
    ensures
        segs.deep_view() == grapheme_segments_of(line@),
        segs.deep_view().flatten() == line@,
        forall|i: int| 0 <= i < segs.len() ==> #[trigger] segs.deep_view()[i].len() > 0,
{
    let s: String = line.iter().collect();
    s.graphemes(true).map(|g| g.chars().collect()).collect()
}

/// Relies on `String`'s `FromIterator<char>` implementation: collecting
/// characters yields the string of exactly those characters, in order.
#[verifier::external_body]
pub(crate) fn string_from_chars(chars: &Vec<char>) -> (s: String)
    ensures
        s@ == chars@,
{
    chars.iter().collect()
}

/// Recompute the grapheme decomposition of `line`, with the segmenter's
/// guarantees recorded for the decomposed line.
pub(crate) fn segments_of_line(line: &Vec<char>) -> (segs: Vec<Vec<char>>)
    ensures
        segs.deep_view() == grapheme_segments_of(line@),
        segments_wf(line@),
{
    grapheme_split(line)
}

/// A prefix of the clusters never holds more characters than all of them.
pub proof fn lemma_prefix_chars_le_total(segs: Seq<Seq<char>>, col: int)
    requires
        0 <= col <= segs.len(),
    ensures
        prefix_chars(segs, col) <= segs.flatten().len(),
        prefix_chars(segs, segs.len() as int) == segs.flatten().len(),
{
    lemma_flatten_concat(segs.take(col), segs.skip(col));
    assert(segs.take(col) + segs.skip(col) =~= segs);
    assert(segs.take(segs.len() as int) =~= segs);
}

/// Taking one more cluster adds exactly that cluster's characters.
pub proof fn lemma_prefix_chars_step(segs: Seq<Seq<char>>, col: int)
    requires
        0 <= col < segs.len(),
    ensures
        prefix_chars(segs, col + 1) == prefix_chars(segs, col) + segs[col].len(),
{
    assert(segs.take(col + 1) =~= segs.take(col).push(segs[col]));
    assert(segs.take(col).push(segs[col]).flatten() =~= segs.take(col).flatten() + segs[col]) by {
        vstd::seq::Seq::lemma_flatten_push(segs.take(col), segs[col]);
    }
}

/// The characters of cluster `col` are exactly the characters of the
/// flattened line between the boundaries of columns `col` and `col + 1`.
pub proof fn lemma_segment_span(segs: Seq<Seq<char>>, col: int)
    requires
        0 <= col < segs.len(),
    ensures
        prefix_chars(segs, col) + segs[col].len() == prefix_chars(segs, col + 1),
        prefix_chars(segs, col + 1) <= segs.flatten().len(),
        segs.flatten() =~= segs.take(col).flatten() + segs[col] + segs.skip(col + 1).flatten(),
{
    lemma_prefix_chars_step(segs, col);
    lemma_prefix_chars_le_total(segs, col + 1);
    lemma_flatten_concat(segs.take(col + 1), segs.skip(col + 1));
    assert(segs.take(col + 1) + segs.skip(col + 1) =~= segs);
    assert(segs.take(col + 1) =~= segs.take(col).push(segs[col]));
    assert(segs.take(col).push(segs[col]).flatten() =~= segs.take(col).flatten() + segs[col]) by {
        vstd::seq::Seq::lemma_flatten_push(segs.take(col), segs[col]);
    }
}

/// Removing one cluster from the decomposition leaves, in character space,
/// the line with that cluster's span removed.
pub proof fn lemma_remove_segment(segs: Seq<Seq<char>>, col: int)
    requires
        0 <= col < segs.len(),
    ensures
        segs.remove(col).flatten() =~= segs.take(col).flatten() + segs.skip(col + 1).flatten(),
{
    assert(segs.remove(col) =~= segs.take(col) + segs.skip(col + 1));
    lemma_flatten_concat(segs.take(col), segs.skip(col + 1));
}

/// The character offset of the cluster boundary at column `col`, computed
/// from the decomposition `segs` of a line.
pub(crate) fn prefix_char_count(segs: &Vec<Vec<char>>, col: usize) -> (n: usize)
    requires
        col <= segs.len(),
        segs.deep_view().flatten().len() <= usize::MAX,
    ensures
        n == prefix_chars(segs.deep_view(), col as int),
        n <= segs.deep_view().flatten().len(),
{
    let ghost dv = segs.deep_view();
    let mut n: usize = 0;
    let mut i: usize = 0;
    proof {
        assert(dv.take(0) =~= Seq::<Seq<char>>::empty());
        assert(dv.take(0).flatten() =~= Seq::<char>::empty());
    }
    while i < col
        invariant
            i <= col <= segs.len(),
            dv == segs.deep_view(),
            dv.flatten().len() <= usize::MAX,
            n == prefix_chars(dv, i as int),
        decreases col - i,
    {
        proof {
            lemma_prefix_chars_step(dv, i as int);
            lemma_prefix_chars_le_total(dv, i as int + 1);
            assert(segs[i as int]@ == dv[i as int]);
        }
        n = n + segs[i].len();
        i = i + 1;
    }
    proof {
        lemma_prefix_chars_le_total(dv, col as int);
    }
    n
}

} // verus!
