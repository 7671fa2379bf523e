//! The renderer: the ordered, optional row results laid into the final
//! bordered panel, and the logo-line colorizer.
//!
//! A slot that reported nothing is omitted outright — no blank line, no
//! placeholder — and the remaining rows keep the fixed order. The song
//! slot, always the last one, goes through the column-width truncation
//! path; every other row through the grapheme-cluster path.

use vstd::prelude::*;

use crate::config::Config;
use crate::formatting::bottom_border_spec;
use crate::formatting::calc_bottom;
use crate::formatting::calc_whitespace_song;
use crate::formatting::calc_with_hostname;
use crate::formatting::format_row;
use crate::formatting::plain_row_spec;
use crate::formatting::song_row_spec;
use crate::formatting::top_border_spec;
use crate::metrics::grapheme_count;
use crate::metrics::grapheme_count_of;
use crate::textops::repeat_char;
use crate::textops::repeated;
use crate::textops::replace_all;
use crate::textops::replace_spec;

verus! {

/// One line of a logo file, its color markers rewritten to the escape
/// codes they stand for — or, past the logo's end, blank filler of the
/// logo's width, so the panel beside it stays aligned.
pub fn get_logo_line(line: Option<String>, pad: usize) -> (r: String)
    ensures
        line matches Some(l) ==> r@ == replace_spec(
            replace_spec(l@, "$C"@, "\u{1b}[36m"@),
            "$B"@,
            "\u{1b}[34m"@,
        ),
        line is None ==> r@ == repeated(' ', pad as nat),
{
    match line {
        Some(l) => {
            proof {
                reveal_strlit("$C");
                reveal_strlit("$B");
            }
            let cyan = replace_all(l.as_str(), "$C", "\u{1b}[36m");
            replace_all(cyan.as_str(), "$B", "\u{1b}[34m")
        },
        None => repeat_char(' ', pad),
    }
}

/// The text of the panel's header: the top-left corner, the identity the
/// hostname slot reported (or nothing), and a closing space.
pub open spec fn header_text_spec(h: Option<Seq<char>>) -> Seq<char> {
    "\u{256D}\u{2500} "@ + (match h {
        Some(s) => s,
        None => Seq::<char>::empty(),
    }) + " "@
}

/// The finished line one body slot contributes: its text behind the left
/// border, padded or truncated by the song path for the song slot and by
/// the ordinary path for every other.
pub open spec fn row_line_spec(content: Seq<char>, width: u32, song: bool) -> Seq<char> {
    if song {
        song_row_spec("\u{2502} "@ + content, width)
    } else {
        plain_row_spec("\u{2502} "@ + content, width)
    }
}

/// The lines one slot adds to the body: none at all for a slot that
/// reported nothing.
pub open spec fn line_opt(o: Option<Seq<char>>, width: u32, song: bool) -> Seq<Seq<char>> {
    match o {
        Some(content) => seq![row_line_spec(content, width, song)],
        None => seq![],
    }
}

/// The body lines the slots from `i` on contribute, with the song slot at
/// index `song_at`.
pub open spec fn body_from(
    rows: Seq<Option<Seq<char>>>,
    width: u32,
    song_at: int,
    i: int,
) -> Seq<Seq<char>>
    decreases rows.len() - i,
    when 0 <= i <= rows.len()
{
    if i >= rows.len() {
        seq![]
    } else {
        line_opt(rows[i], width, song_at == i) + body_from(rows, width, song_at, i + 1)
    }
}

/// The body lines the slots from `i` up to (excluding) `j` contribute.
pub open spec fn body_upto(
    rows: Seq<Option<Seq<char>>>,
    width: u32,
    song_at: int,
    i: int,
    j: int,
) -> Seq<Seq<char>>
    decreases j - i,
    when i <= j
{
    if i >= j {
        seq![]
    } else {
        line_opt(rows[i], width, song_at == i) + body_upto(rows, width, song_at, i + 1, j)
    }
}

/// The body from `i` splits at any slot `j`: the lines before `j`, the
/// lines of `j` itself, and the lines after.
proof fn lemma_body_split(rows: Seq<Option<Seq<char>>>, width: u32, song_at: int, i: int, j: int)
    requires
        0 <= i <= j < rows.len(),
    ensures
        body_from(rows, width, song_at, i) == body_upto(rows, width, song_at, i, j) + line_opt(
            rows[j],
            width,
            song_at == j,
        ) + body_from(rows, width, song_at, j + 1),
    decreases j - i,
{
    if i == j {
        assert(body_upto(rows, width, song_at, i, j) =~= Seq::<Seq<char>>::empty());
        assert(body_from(rows, width, song_at, i) =~= line_opt(rows[i], width, song_at == i)
            + body_from(rows, width, song_at, i + 1));
        assert(body_from(rows, width, song_at, i) =~= body_upto(rows, width, song_at, i, j)
            + line_opt(rows[j], width, song_at == j) + body_from(rows, width, song_at, j + 1));
    } else {
        lemma_body_split(rows, width, song_at, i + 1, j);
        assert(body_from(rows, width, song_at, i) =~= body_upto(rows, width, song_at, i, j)
            + line_opt(rows[j], width, song_at == j) + body_from(rows, width, song_at, j + 1));
    }
}

/// Slots outside `[i, j)` do not matter to the lines of `[i, j)`.
proof fn lemma_body_upto_frame(
    rows1: Seq<Option<Seq<char>>>,
    rows2: Seq<Option<Seq<char>>>,
    width: u32,
    song_at: int,
    i: int,
    j: int,
)
    requires
        rows1.len() == rows2.len(),
        0 <= i <= j <= rows1.len(),
        forall|k: int| i <= k < j ==> rows1[k] == rows2[k],
    ensures
        body_upto(rows1, width, song_at, i, j) == body_upto(rows2, width, song_at, i, j),
    decreases j - i,
{
    if i < j {
        lemma_body_upto_frame(rows1, rows2, width, song_at, i + 1, j);
    }
}

/// Slots before `i` do not matter to the lines from `i` on.
proof fn lemma_body_from_frame(
    rows1: Seq<Option<Seq<char>>>,
    rows2: Seq<Option<Seq<char>>>,
    width: u32,
    song_at: int,
    i: int,
)
    requires
        rows1.len() == rows2.len(),
        0 <= i <= rows1.len(),
        forall|k: int| i <= k < rows1.len() ==> rows1[k] == rows2[k],
    ensures
        body_from(rows1, width, song_at, i) == body_from(rows2, width, song_at, i),
    decreases rows1.len() - i,
{
    if i < rows1.len() {
        lemma_body_from_frame(rows1, rows2, width, song_at, i + 1);
    }
}

/// One provider's failure is isolated: with slot `j` emptied, the other
/// slots contribute exactly the lines they contributed before — the body
/// is the same two segments around `j`, with only `j`'s own line gone.
/// The panel is still rendered in full either way.
pub proof fn lemma_provider_failure_isolated(
    rows: Seq<Option<Seq<char>>>,
    width: u32,
    song_at: int,
    j: int,
)
    requires
        0 <= j < rows.len(),
    ensures
        body_from(rows, width, song_at, 0) == body_upto(rows, width, song_at, 0, j) + line_opt(
            rows[j],
            width,
            song_at == j,
        ) + body_from(rows, width, song_at, j + 1),
        body_from(rows.update(j, None), width, song_at, 0) == body_upto(rows, width, song_at, 0, j)
            + body_from(rows, width, song_at, j + 1),
{
    let dropped = rows.update(j, None);
    lemma_body_split(rows, width, song_at, 0, j);
    lemma_body_split(dropped, width, song_at, 0, j);
    lemma_body_upto_frame(dropped, rows, width, song_at, 0, j);
    lemma_body_from_frame(dropped, rows, width, song_at, j + 1);
    assert(line_opt(dropped[j], width, song_at == j) =~= Seq::<Seq<char>>::empty());
    assert(body_from(dropped, width, song_at, 0) =~= body_upto(rows, width, song_at, 0, j)
        + body_from(rows, width, song_at, j + 1));
}

/// Extending the upper bound by one slot appends that slot's lines.
proof fn lemma_body_upto_snoc(rows: Seq<Option<Seq<char>>>, width: u32, song_at: int, i: int, j: int)
    requires
        0 <= i <= j < rows.len(),
    ensures
        body_upto(rows, width, song_at, i, j + 1) == body_upto(rows, width, song_at, i, j)
            + line_opt(rows[j], width, song_at == j),
    decreases j - i,
{
    if i == j {
        assert(body_upto(rows, width, song_at, i, j) =~= Seq::<Seq<char>>::empty());
        assert(body_upto(rows, width, song_at, i + 1, j + 1) =~= Seq::<Seq<char>>::empty());
        assert(body_upto(rows, width, song_at, i, j + 1) =~= line_opt(rows[i], width, song_at == i)
            + body_upto(rows, width, song_at, i + 1, j + 1));
        assert(body_upto(rows, width, song_at, i, j + 1) =~= body_upto(rows, width, song_at, i, j)
            + line_opt(rows[j], width, song_at == j));
    } else {
        lemma_body_upto_snoc(rows, width, song_at, i + 1, j);
        assert(body_upto(rows, width, song_at, i, j + 1) =~= line_opt(rows[i], width, song_at == i)
            + body_upto(rows, width, song_at, i + 1, j + 1));
        assert(body_upto(rows, width, song_at, i, j) =~= line_opt(rows[i], width, song_at == i)
            + body_upto(rows, width, song_at, i + 1, j));
        assert(body_upto(rows, width, song_at, i, j + 1) =~= body_upto(rows, width, song_at, i, j)
            + line_opt(rows[j], width, song_at == j));
    }
}

/// The rendered panel: the top border line, one line per slot that
/// reported something (in slot order, the song slot truncated by column
/// width), and the bottom border line. The panel only fails to render
/// when the header identity itself cannot fit the configured width.
pub fn render(cfg: &Config, rows: Vec<Option<String>>) -> (r: Option<Vec<String>>)
    requires
        9 <= cfg.width,
        cfg.width <= u32::MAX - 5,
        rows@.len() == 12,
    ensures
        r is None <==> grapheme_count_of(header_text_spec(rows.deep_view()[0])) > cfg.width + 4,
        r matches Some(lines) ==> lines.deep_view() == seq![
            top_border_spec(header_text_spec(rows.deep_view()[0]), cfg.icons, cfg.width),
        ] + body_from(rows.deep_view(), cfg.width, 11, 1) + seq![
            bottom_border_spec("\u{2570}\u{2500}"@, cfg.icons, cfg.width),
        ],
{
    let ghost rowsv = rows.deep_view();
    proof {
        assert forall|k: int| 0 <= k < rows@.len() implies rowsv[k] == rows@[k].deep_view() by {}
    }
    let mut header: String = "\u{256D}\u{2500} ".to_owned();
    match &rows[0] {
        Some(h) => {
            header.append(h.as_str());
        },
        None => {},
    }
    header.append(" ");
    proof {
        assert(rowsv[0] == rows@[0].deep_view());
        assert(header@ =~= header_text_spec(rowsv[0]));
    }
    let hg = grapheme_count(header.as_str());
    if hg > (cfg.width + 4) as usize {
        return None;
    }
    let top = calc_with_hostname(header, &cfg.icons, cfg.width);
    let mut lines: Vec<String> = Vec::new();
    lines.push(top);
    let mut i: usize = 1;
    while i < 12
        invariant
            1 <= i <= 12,
            rows@.len() == 12,
            rowsv == rows.deep_view(),
            rowsv.len() == 12,
            9 <= cfg.width,
            lines.deep_view() =~= seq![
                top_border_spec(header_text_spec(rowsv[0]), cfg.icons, cfg.width),
            ] + body_upto(rowsv, cfg.width, 11, 1, i as int),
        decreases 12 - i,
    {
        let ghost dv0 = lines.deep_view();
        match &rows[i] {
            Some(content) => {
                let mut prefixed: String = "\u{2502} ".to_owned();
                prefixed.append(content.as_str());
                let line = if i == 11 {
                    calc_whitespace_song(prefixed, cfg.width)
                } else {
                    format_row(prefixed, cfg.width)
                };
                proof {
                    assert(rowsv[i as int] == rows@[i as int].deep_view());
                    assert(rowsv[i as int] matches Some(c) && c == rows@[i as int]->0@);
                    assert(line@ == row_line_spec(rowsv[i as int]->0, cfg.width, i == 11));
                }
                lines.push(line);
                proof {
                    assert(lines.deep_view() =~= dv0.push(line@));
                }
            },
            None => {
                proof {
                    assert(rowsv[i as int] == rows@[i as int].deep_view());
                    assert(rowsv[i as int] is None);
                }
            },
        }
        proof {
            lemma_body_upto_snoc(rowsv, cfg.width, 11, 1, i as int);
            assert(lines.deep_view() =~= seq![
                top_border_spec(header_text_spec(rowsv[0]), cfg.icons, cfg.width),
            ] + body_upto(rowsv, cfg.width, 11, 1, i + 1));
        }
        i = i + 1;
    }
    let bg = grapheme_count("\u{2570}\u{2500}");
    proof {
        reveal_strlit("\u{2570}\u{2500}");
    }
    if bg + 5 > cfg.width as usize {
        return None;
    }
    let bottom = calc_bottom("\u{2570}\u{2500}".to_owned(), &cfg.icons, cfg.width);
    lines.push(bottom);
    proof {
        lemma_body_upto_is_from(rowsv, cfg.width, 11, 1);
    }
    Some(lines)
}

/// Up to the end, `body_upto` is the whole remaining body.
proof fn lemma_body_upto_is_from(rows: Seq<Option<Seq<char>>>, width: u32, song_at: int, i: int)
    requires
        0 <= i <= rows.len(),
    ensures
        body_upto(rows, width, song_at, i, rows.len() as int) == body_from(
            rows,
            width,
            song_at,
            i,
        ),
    decreases rows.len() - i,
{
    if i < rows.len() {
        lemma_body_upto_is_from(rows, width, song_at, i + 1);
    }
}

} // verus!
