//! Text metrics: the on-screen column width of a string and the number of
//! user-perceived characters (grapheme clusters) it holds.
//!
//! Column widths come from the East-Asian-width classification of
//! `unicode_width` (in its CJK interpretation, as the panel renders song
//! titles and greetings that may mix ASCII with wide scripts), grapheme
//! clusters from `unicode_segmentation`.

use vstd::prelude::*;

verus! {

/// The number of terminal columns one character occupies: the result of
/// `unicode_width::UnicodeWidthChar::width_cjk`, with control characters
/// counted as zero columns.
pub uninterp spec fn char_cols(c: char) -> nat;

/// The number of terminal columns a string of characters occupies: each
/// character contributes its own column count.
pub open spec fn seq_cols(s: Seq<char>) -> nat
    decreases s.len(),
{
    if s.len() == 0 {
        0
    } else {
        seq_cols(s.drop_last()) + char_cols(s.last())
    }
}

/// The number of extended grapheme clusters in a string: the result of
/// `unicode_segmentation::UnicodeSegmentation::graphemes(s, true).count()`.
pub uninterp spec fn grapheme_count_of(s: Seq<char>) -> nat;

/// Relies on `unicode_width::UnicodeWidthChar::width_cjk`: the column count
/// of one character, a function of the character alone. Its documentation
/// and tables give the stated bounds: no character is wider than two
/// columns, the printable ASCII range is one column wide, and the CJK
/// Unified Ideographs block is two columns wide.
#[verifier::external_body]
pub(crate) fn char_width(c: char) -> (r: usize)
    ensures
        r == char_cols(c),
        r <= 2,
        ' ' <= c && c <= '~' ==> r == 1,
        '\u{4E00}' <= c && c <= '\u{9FFF}' ==> r == 2,
{
    unicode_width::UnicodeWidthChar::width_cjk(c).unwrap_or(0)
}

/// Relies on `unicode_width::UnicodeWidthStr::width_cjk`: the column
/// count of a string is the sum of the column counts of its characters.
/// That sum never overflows: every character occupies at least one byte
/// and at most two columns, and a string holds fewer than `isize::MAX`
/// bytes.
#[verifier::external_body]
fn str_width(s: &str) -> (r: usize)
    ensures
        r == seq_cols(s@),
        s@.len() == 1 ==> r == char_cols(s@[0]),
{
    unicode_width::UnicodeWidthStr::width_cjk(s)
}

/// Relies on `unicode_segmentation::UnicodeSegmentation::graphemes` with
/// extended grapheme clusters: the number of clusters depends on the
/// characters alone, every cluster holds at least one character, and only
/// the empty string has no cluster.
#[verifier::external_body]
pub(crate) fn grapheme_count(s: &str) -> (r: usize)
    ensures
        r == grapheme_count_of(s@),
        r <= s@.len(),
        (r == 0) <==> (s@.len() == 0),
{
    unicode_segmentation::UnicodeSegmentation::graphemes(s, true).count()
}

/// The on-screen column width of `text`: the number of terminal columns it
/// occupies when printed, counting East-Asian wide characters as two
/// columns and other printable characters as one.
pub fn width(text: &str) -> (r: usize)
    ensures
        r == seq_cols(text@),
{
    str_width(text)
}

/// Splitting a string anywhere splits its column width.
pub proof fn lemma_seq_cols_concat(a: Seq<char>, b: Seq<char>)
    ensures
        seq_cols(a + b) == seq_cols(a) + seq_cols(b),
    decreases b.len(),
{
    if b.len() == 0 {
        assert(a + b =~= a);
    } else {
        lemma_seq_cols_concat(a, b.drop_last());
        assert((a + b).drop_last() =~= a + b.drop_last());
        assert((a + b).last() == b.last());
    }
}

/// A run of one repeated character is as wide as that character, times the
/// run's length.
pub proof fn lemma_cols_repeated(c: char, n: nat)
    ensures
        seq_cols(crate::textops::repeated(c, n)) == n * char_cols(c),
    decreases n,
{
    let s = crate::textops::repeated(c, n);
    if n == 0 {
        assert(s.len() == 0);
    } else {
        lemma_cols_repeated(c, (n - 1) as nat);
        assert(s.drop_last() =~= crate::textops::repeated(c, (n - 1) as nat));
        assert(s.last() == c);
        assert((n - 1) * char_cols(c) + char_cols(c) == n * char_cols(c)) by (nonlinear_arith);
    }
}

/// A text of single-column characters occupies exactly one column per
/// character: its width equals its character count.
pub proof fn lemma_width_single_width(s: Seq<char>)
    requires
        forall|i: int| 0 <= i < s.len() ==> char_cols(#[trigger] s[i]) == 1,
    ensures
        seq_cols(s) == s.len(),
    decreases s.len(),
{
    if s.len() > 0 {
        lemma_width_single_width(s.drop_last());
    }
}

/// A text whose characters each occupy at least one column is at least as
/// wide as its character count.
pub proof fn lemma_width_at_least(s: Seq<char>)
    requires
        forall|i: int| 0 <= i < s.len() ==> char_cols(#[trigger] s[i]) >= 1,
    ensures
        seq_cols(s) >= s.len(),
    decreases s.len(),
{
    if s.len() > 0 {
        lemma_width_at_least(s.drop_last());
    }
}

/// A text that holds at least one East-Asian wide (two-column) character,
/// and no zero-column character, is strictly wider than its character
/// count. The restriction to texts without zero-column characters is
/// needed: a control character such as `'\u{0}'` occupies no column and
/// could cancel out the wide one.
pub proof fn lemma_width_wide(s: Seq<char>)
    requires
        forall|i: int| 0 <= i < s.len() ==> char_cols(#[trigger] s[i]) >= 1,
        exists|i: int| 0 <= i < s.len() && char_cols(#[trigger] s[i]) == 2,
    ensures
        seq_cols(s) > s.len(),
    decreases s.len(),
{
    let w = choose|i: int| 0 <= i < s.len() && char_cols(#[trigger] s[i]) == 2;
    if w == s.len() - 1 {
        lemma_width_at_least(s.drop_last());
    } else {
        assert(0 <= w < s.drop_last().len() && char_cols(s.drop_last()[w]) == 2);
        lemma_width_wide(s.drop_last());
    }
}

} // verus!
