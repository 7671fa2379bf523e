//! The line formatters: padding, truncation and the borders.

use draconis::config::IconKind;
use draconis::formatting::calc_bottom;
use draconis::formatting::calc_whitespace;
use draconis::formatting::calc_whitespace_song;
use draconis::formatting::calc_with_hostname;
use draconis::formatting::format_row;
use draconis::formatting::upper_first;
use draconis::render::get_logo_line;
use draconis::width;

#[test]
fn calc_whitespace_pads_to_five_short_of_width() {
    let row = calc_whitespace("ab".to_string(), 10);
    assert_eq!(row, "ab   \u{2502}");
}

#[test]
fn single_width_row_measures_target_plus_border() {
    // For single-column text the padded row fills (width - 5) columns
    // before its border glyph.
    let row = calc_whitespace("ab".to_string(), 10);
    assert_eq!(width(&row), (10 - 5) + width("\u{2502}"));
}

#[test]
fn calc_whitespace_with_exact_fit_adds_no_spaces() {
    let row = calc_whitespace("hello".to_string(), 10);
    assert_eq!(row, "hello\u{2502}");
}

#[test]
fn song_row_that_fits_is_padded_to_exact_target_width() {
    // The padded song row must measure exactly (width - 3) columns plus
    // the border glyph, whatever the text.
    let w: u32 = 50;
    let row = calc_whitespace_song("abc".to_string(), w);
    assert_eq!(row, format!("abc{}\u{2502}", " ".repeat(44)));
    assert_eq!(width(&row), (w as usize - 3) + width("\u{2502}"));
}

#[test]
fn song_row_with_wide_text_still_hits_exact_target_width() {
    let w: u32 = 50;
    let row = calc_whitespace_song("\u{4F60}\u{597D} song".to_string(), w);
    assert_eq!(width(&row), (w as usize - 3) + width("\u{2502}"));
}

#[test]
fn sixty_character_song_is_truncated_to_exact_panel_width() {
    // A 60-character plain-ASCII title cannot fit a 50-column panel: it
    // is cut so that prefix plus ellipsis fill the song target exactly,
    // and the truncated row measures precisely what a padded row
    // measures: the (width - 3) target plus the border glyph.
    let w: u32 = 50;
    let title = "a".repeat(60);
    let row = calc_whitespace_song(title.clone(), w);
    assert_eq!(row, format!("{}...\u{2502}", "a".repeat(44)));
    assert_eq!(width(&row), (w as usize - 3) + width("\u{2502}"));
    let padded = calc_whitespace_song("short".to_string(), w);
    assert_eq!(width(&row), width(&padded));
}

#[test]
fn wide_song_truncation_never_overflows_the_panel() {
    // Twenty ideographs measure forty columns; on a 20-column panel the
    // cut is chosen by measured width, so the truncated row still hits
    // the target exactly and stays within the panel.
    let w: u32 = 20;
    let title = "\u{4F60}".repeat(20);
    let row = calc_whitespace_song(title, w);
    assert_eq!(row, format!("{}...\u{2502}", "\u{4F60}".repeat(7)));
    assert_eq!(width(&row), (w as usize - 3) + width("\u{2502}"));
    assert!(width(&row) <= w as usize);
}

#[test]
fn wide_song_truncation_pads_out_a_half_filled_cell() {
    // With a 21-column panel the seventh ideograph leaves one column of
    // the budget unusable by a wide character: a space fills it, and the
    // row still measures the target exactly.
    let w: u32 = 21;
    let title = "\u{4F60}".repeat(20);
    let row = calc_whitespace_song(title, w);
    assert_eq!(row, format!("{}... \u{2502}", "\u{4F60}".repeat(7)));
    assert_eq!(width(&row), (w as usize - 3) + width("\u{2502}"));
}

#[test]
fn padding_counts_grapheme_clusters_not_code_points() {
    // "e" plus a combining acute accent is two code points but one
    // user-perceived character: the pad is sized for two clusters, not
    // three characters.
    let row = calc_whitespace("e\u{301}x".to_string(), 10);
    assert_eq!(row, "e\u{301}x   \u{2502}");
}

#[test]
fn format_row_truncates_with_fixed_offset_ellipsis() {
    let row = format_row("abcdefgh".to_string(), 12);
    assert_eq!(row, "abc... \u{2502}");
}

#[test]
fn top_border_closes_at_panel_width() {
    let top = calc_with_hostname("\u{256D}\u{2500} host ".to_string(), &IconKind::Plain, 20);
    assert_eq!(top, format!("\u{256D}\u{2500} host {}\u{256E}", "\u{2500}".repeat(16)));
}

#[test]
fn top_border_with_emoji_icons_draws_one_more_segment() {
    let top = calc_with_hostname("\u{256D}\u{2500} host ".to_string(), &IconKind::Emoji, 20);
    assert_eq!(top, format!("\u{256D}\u{2500} host {}\u{256E}", "\u{2500}".repeat(17)));
}

#[test]
fn bottom_border_closes_at_panel_width() {
    let bottom = calc_bottom("\u{2570}\u{2500}".to_string(), &IconKind::Plain, 20);
    assert_eq!(bottom, format!("\u{2570}\u{2500}{}\u{256F}", "\u{2500}".repeat(13)));
}

#[test]
fn bottom_border_with_emoji_icons_draws_one_more_segment() {
    let bottom = calc_bottom("\u{2570}\u{2500}".to_string(), &IconKind::Emoji, 20);
    assert_eq!(bottom, format!("\u{2570}\u{2500}{}\u{256F}", "\u{2500}".repeat(14)));
}

#[test]
fn upper_first_capitalizes_only_the_first_character() {
    assert_eq!(upper_first("hello world".to_string()), "Hello world");
    assert_eq!(upper_first("Àlready".to_string()), "Àlready");
    assert_eq!(upper_first("ßtreet".to_string()), "SStreet");
}

#[test]
fn upper_first_of_empty_string_is_empty() {
    assert_eq!(upper_first(String::new()), "");
}

#[test]
fn logo_line_rewrites_color_markers() {
    let line = get_logo_line(Some("$Cabc$Bdef".to_string()), 0);
    assert_eq!(line, "\u{1b}[36mabc\u{1b}[34mdef");
}

#[test]
fn logo_line_past_the_end_is_blank_filler() {
    assert_eq!(get_logo_line(None, 4), "    ");
}
