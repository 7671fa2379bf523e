//! The line formatters: padding a row's text out to the panel's column
//! width, drawing the top and bottom borders, and the checked entry point
//! that truncates a row that will not fit.
//!
//! Ordinary rows are measured in grapheme clusters; the song row, the one
//! most likely to mix in East-Asian wide text, is measured in on-screen
//! columns instead (`crate::metrics::seq_cols`).

use vstd::prelude::*;

use crate::config::IconKind;
use crate::metrics::char_cols;
use crate::metrics::char_width;
use crate::metrics::grapheme_count;
use crate::metrics::grapheme_count_of;
use crate::metrics::lemma_cols_repeated;
use crate::metrics::lemma_seq_cols_concat;
use crate::metrics::seq_cols;
use crate::textops::char_prefix;
use crate::textops::char_upper;
use crate::textops::prefix_of;
use crate::textops::repeat_char;
use crate::textops::repeated;
use crate::textops::upper_of;

verus! {

/// `s` with its first character mapped through its uppercase form, as the
/// greeting displays a name.
pub fn upper_first(s: String) -> (r: String)
    ensures
        s@.len() == 0 ==> r@ == Seq::<char>::empty(),
        s@.len() > 0 ==> r@ == upper_of(s@[0]) + s@.skip(1),
{
    let len = s.as_str().unicode_len();
    if len == 0 {
        let r = String::new();
        assert(r@ =~= Seq::<char>::empty());
        r
    } else {
        let first = s.as_str().get_char(0);
        let mut out = char_upper(first);
        let rest = s.as_str().substring_char(1, len);
        assert(rest@ =~= s@.skip(1));
        out.append(rest);
        out
    }
}

/// The one-glyph right border measures its own column count.
proof fn lemma_cols_bar()
    ensures
        seq_cols(seq!['│']) == char_cols('│'),
{
    let bar = seq!['│'];
    assert(bar.last() == '│');
    assert(bar.drop_last() =~= Seq::<char>::empty());
    assert(seq_cols(Seq::<char>::empty()) == 0);
}

/// The body of an ordinary row: the text, space padding out to five
/// columns short of the panel width (counted in grapheme clusters), and
/// the right border glyph. For text of single-column characters, one
/// character per cluster, the padded row measures exactly `width - 5`
/// columns plus the border glyph.
pub fn calc_whitespace(text: String, width: u32) -> (r: String)
    requires
        5 <= width,
        grapheme_count_of(text@) + 5 <= width,
    ensures
        r@ == text@ + repeated(' ', (width - 5 - grapheme_count_of(text@)) as nat) + seq!['│'],
        grapheme_count_of(text@) == text@.len() && (forall|i: int|
            0 <= i < text@.len() ==> char_cols(#[trigger] text@[i]) == 1) ==> seq_cols(r@) == width
            - 5 + char_cols('│'),
{
    let ghost t = text@;
    let g = grapheme_count(text.as_str());
    let space_cols = char_width(' ');
    proof {
        assert(space_cols == 1);
    }
    let n: usize = ((width - 5) as usize) - g;
    let ghost padseq = repeated(' ', n as nat);
    let pad = repeat_char(' ', n);
    let mut out = text;
    out.append(pad.as_str());
    out.append("│");
    proof {
        reveal_strlit("│");
        assert("│"@ =~= seq!['│']);
        if grapheme_count_of(t) == t.len() && (forall|i: int|
            0 <= i < t.len() ==> char_cols(#[trigger] t[i]) == 1) {
            crate::metrics::lemma_width_single_width(t);
            assert(out@ == t + padseq + seq!['│']);
            lemma_seq_cols_concat(t + padseq, seq!['│']);
            lemma_seq_cols_concat(t, padseq);
            lemma_cols_repeated(' ', n as nat);
            lemma_cols_bar();
        }
    }
    out
}

/// The length of the longest prefix a greedy left-to-right scan keeps
/// within a column budget: characters are taken until the first one that
/// no longer fits.
pub open spec fn fit_prefix_len(text: Seq<char>, budget: nat) -> nat
    decreases text.len(),
{
    if text.len() == 0 {
        0
    } else if char_cols(text.first()) <= budget {
        1 + fit_prefix_len(text.drop_first(), (budget - char_cols(text.first())) as nat)
    } else {
        0
    }
}

/// A song-row text behind its space padding and the right border: the
/// spaces fill the columns between the text's own width and the row
/// target of `width - 3`.
pub open spec fn song_pad(t: Seq<char>, width: u32) -> Seq<char> {
    t + repeated(' ', (width - 3 - seq_cols(t)) as nat) + seq!['│']
}

/// The finished song row for a text, measured in on-screen columns
/// throughout: a text that fits is padded out to the `width - 3` column
/// target; one too wide is cut to the widest prefix that leaves room for
/// the three-dot ellipsis inside the same target, then padded the same
/// way. Both forms measure exactly the target plus the border glyph.
pub open spec fn song_row_spec(text: Seq<char>, width: u32) -> Seq<char> {
    if seq_cols(text) + 3 <= width {
        song_pad(text, width)
    } else {
        song_pad(text.take(fit_prefix_len(text, (width - 6) as nat) as int) + "..."@, width)
    }
}

/// The finished ordinary row for a text: padded with spaces out to five
/// columns short of the panel width when it fits (measured in grapheme
/// clusters), else cut to a `width - 9` character prefix with an
/// ellipsis; a border glyph closes the row either way.
pub open spec fn plain_row_spec(text: Seq<char>, width: u32) -> Seq<char> {
    if grapheme_count_of(text) + 5 <= width {
        text + repeated(' ', (width - 5 - grapheme_count_of(text)) as nat) + seq!['│']
    } else {
        prefix_of(text, (width - 9) as nat) + "... │"@
    }
}

/// The body of the song row, the one path measured in on-screen columns
/// from start to finish. A song that fits is padded with spaces out to
/// three columns short of the panel width. A song too wide for that —
/// East-Asian wide text included — is cut to the widest prefix that still
/// leaves room for the ellipsis within the same target, so the cut can
/// never overflow the panel, and is then padded identically. Either way
/// the finished row measures exactly `width - 3` columns plus the border
/// glyph.
pub fn calc_whitespace_song(text: String, width: u32) -> (r: String)
    requires
        9 <= width,
    ensures
        r@ == song_row_spec(text@, width),
        seq_cols(r@) == width - 3 + char_cols('│'),
{
    let ghost t = text@;
    let w = crate::metrics::width(text.as_str());
    let space_cols = char_width(' ');
    proof {
        assert(space_cols == 1);
    }
    if w <= (width - 3) as usize {
        let n: usize = ((width - 3) as usize) - w;
        let ghost padseq = repeated(' ', n as nat);
        let pad = repeat_char(' ', n);
        let mut out = text;
        out.append(pad.as_str());
        out.append("│");
        proof {
            reveal_strlit("│");
            assert("│"@ =~= seq!['│']);
            assert(out@ == t + padseq + seq!['│']);
            lemma_seq_cols_concat(t + padseq, seq!['│']);
            lemma_seq_cols_concat(t, padseq);
            lemma_cols_repeated(' ', n as nat);
            lemma_cols_bar();
        }
        out
    } else {
        let dot_cols = char_width('.');
        proof {
            assert(dot_cols == 1);
        }
        let budget: u32 = width - 6;
        let len = text.as_str().unicode_len();
        let mut i: usize = 0;
        let mut used: u32 = 0;
        let mut stop: bool = false;
        proof {
            assert(t.skip(0) =~= t);
            assert(t.take(0) =~= Seq::<char>::empty());
        }
        while i < len && !stop
            invariant
                i <= len,
                len == t.len(),
                budget == width - 6,
                9 <= width,
                used <= budget,
                used == seq_cols(t.take(i as int)),
                fit_prefix_len(t, budget as nat) == i + fit_prefix_len(
                    t.skip(i as int),
                    (budget - used) as nat,
                ),
                stop ==> fit_prefix_len(t.skip(i as int), (budget - used) as nat) == 0,
                text@ == t,
            decreases len - i, (if stop {
                0int
            } else {
                1int
            }),
        {
            let c = text.as_str().get_char(i);
            let cw = char_width(c) as u32;
            let ghost rest = t.skip(i as int);
            proof {
                assert(rest.first() == t[i as int]);
                assert(rest.drop_first() =~= t.skip(i + 1));
            }
            if used + cw <= budget {
                proof {
                    assert(t.take(i + 1).drop_last() =~= t.take(i as int));
                    assert(t.take(i + 1).last() == t[i as int]);
                }
                used = used + cw;
                i = i + 1;
            } else {
                stop = true;
            }
        }
        proof {
            if i == len {
                assert(t.skip(len as int) =~= Seq::<char>::empty());
            }
            assert(fit_prefix_len(t, budget as nat) == i);
        }
        let cut = text.as_str().substring_char(0, i);
        assert(cut@ =~= t.take(i as int));
        let mut out = cut.to_owned();
        out.append("...");
        let ghost cut_text = t.take(i as int) + "..."@;
        proof {
            reveal_strlit("...");
            assert("..."@ =~= repeated('.', 3));
            lemma_cols_repeated('.', 3);
            lemma_seq_cols_concat(t.take(i as int), "..."@);
            assert(seq_cols(cut_text) == used + 3);
        }
        let n: u32 = budget - used;
        let ghost padseq = repeated(' ', n as nat);
        let pad = repeat_char(' ', n as usize);
        out.append(pad.as_str());
        out.append("│");
        proof {
            reveal_strlit("│");
            assert("│"@ =~= seq!['│']);
            assert(out@ == cut_text + padseq + seq!['│']);
            assert(out@ == song_row_spec(t, width));
            lemma_seq_cols_concat(cut_text + padseq, seq!['│']);
            lemma_seq_cols_concat(cut_text, padseq);
            lemma_cols_repeated(' ', n as nat);
            lemma_cols_bar();
        }
        out
    }
}

/// The panel's top border for a header text: the text continued with a
/// horizontal rule out to the panel width and closed with the top-right
/// corner. An emoji icon in the header occupies one extra cell, so the
/// emoji icon set draws one more rule segment.
pub open spec fn top_border_spec(text: Seq<char>, icons: IconKind, width: u32) -> Seq<char> {
    text + repeated(
        '─',
        ((if icons is Emoji {
            width + 5
        } else {
            width + 4
        }) - grapheme_count_of(text)) as nat,
    ) + seq!['╮']
}

/// The panel's bottom border for a closing text, mirroring the top
/// border's width arithmetic.
pub open spec fn bottom_border_spec(text: Seq<char>, icons: IconKind, width: u32) -> Seq<char> {
    text + repeated(
        '─',
        ((if icons is Emoji {
            width - 4
        } else {
            width - 5
        }) - grapheme_count_of(text)) as nat,
    ) + seq!['╯']
}

/// The panel's top border: the header text continued with a horizontal
/// rule out to the panel width and closed with the top-right corner.
pub fn calc_with_hostname(text: String, icons: &IconKind, width: u32) -> (r: String)
    requires
        width <= u32::MAX - 5,
        grapheme_count_of(text@) <= width + 4,
    ensures
        r@ == top_border_spec(text@, *icons, width),
{
    let g = grapheme_count(text.as_str());
    let target: u32 = if matches!(icons, IconKind::Emoji) {
        width + 5
    } else {
        width + 4
    };
    let rule = repeat_char('─', (target as usize) - g);
    let mut out = text;
    out.append(rule.as_str());
    out.append("╮");
    proof {
        reveal_strlit("╮");
        assert("╮"@ =~= seq!['╮']);
    }
    out
}

/// The panel's bottom border: the closing text continued with a horizontal
/// rule and the bottom-right corner, mirroring the top border's width
/// arithmetic.
pub fn calc_bottom(text: String, icons: &IconKind, width: u32) -> (r: String)
    requires
        5 <= width,
        grapheme_count_of(text@) + 5 <= width,
    ensures
        r@ == bottom_border_spec(text@, *icons, width),
{
    let g = grapheme_count(text.as_str());
    let target: u32 = if matches!(icons, IconKind::Emoji) {
        width - 4
    } else {
        width - 5
    };
    let rule = repeat_char('─', (target as usize) - g);
    let mut out = text;
    out.append(rule.as_str());
    out.append("╯");
    proof {
        reveal_strlit("╯");
        assert("╯"@ =~= seq!['╯']);
    }
    out
}

/// One finished body row: a row that fits (in grapheme clusters) is padded
/// with `calc_whitespace`; one that does not is cut to a `width - 9`
/// character prefix and marked with an ellipsis before the border.
pub fn format_row(text: String, width: u32) -> (r: String)
    requires
        9 <= width,
    ensures
        r@ == plain_row_spec(text@, width),
{
    let g = grapheme_count(text.as_str());
    if g <= (width - 5) as usize {
        calc_whitespace(text, width)
    } else {
        let cut = char_prefix(text.as_str(), (width - 9) as usize);
        let mut out = cut;
        out.append("... │");
        out
    }
}

} // verus!
