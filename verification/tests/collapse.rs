use ansi_term::{ANSIStrings, Colour, Style};
use compact_bar::collapse::{left_more_message, right_more_message};
use compact_bar::paint::{PaletteColor, StyleDeclaration, Styling};
use compact_bar::separator::{tab_separator, PluginCapabilities, ARROW_SEPARATOR};
use compact_bar::span::LinePart;
use compact_bar::text::{decimal, repeat};

fn declaration(seed: u8) -> StyleDeclaration {
    StyleDeclaration {
        base: PaletteColor::EightBit(seed),
        background: PaletteColor::EightBit(seed + 1),
        emphasis_0: PaletteColor::Rgb((seed, seed + 2, seed + 3)),
        emphasis_1: PaletteColor::EightBit(seed + 3),
        emphasis_2: PaletteColor::EightBit(seed + 4),
        emphasis_3: PaletteColor::EightBit(seed + 5),
    }
}

fn palette() -> Styling {
    Styling {
        text_unselected: declaration(10),
        text_selected: declaration(20),
        ribbon_unselected: declaration(30),
        ribbon_selected: declaration(40),
    }
}

fn more_ribbon(text: &str, separator: &str) -> String {
    let sep_color = Colour::Fixed(11);
    let ribbon = Colour::RGB(20, 22, 23);
    let text_color = Colour::Fixed(30);
    ANSIStrings(&[
        Style::new().fg(sep_color).on(ribbon).paint(separator),
        Style::new().fg(text_color).on(ribbon).bold().paint(text),
        Style::new().fg(ribbon).on(sep_color).paint(separator),
    ])
    .to_string()
}

#[test]
fn no_hidden_tabs_give_an_empty_piece() {
    let empty = LinePart { part: String::new(), len: 0, tab_index: None };
    assert_eq!(left_more_message(0, palette(), "", 7), empty);
    assert_eq!(right_more_message(0, palette(), ARROW_SEPARATOR, 7), empty);
    assert_eq!(LinePart::default(), empty);
}

#[test]
fn left_indicator_counts_the_hidden_tabs() {
    let part = left_more_message(3, palette(), "", 2);
    assert_eq!(part.part, more_ribbon(" ← +3 ", ""));
    assert_eq!(part.len, 6);
    assert_eq!(part.tab_index, Some(2));
}

#[test]
fn right_indicator_counts_the_hidden_tabs() {
    let part = right_more_message(12, palette(), "", 40);
    assert_eq!(part.part, more_ribbon(" +12 → ", ""));
    assert_eq!(part.len, 7);
    assert_eq!(part.tab_index, Some(40));
}

#[test]
fn separator_is_counted_on_both_sides() {
    let left = left_more_message(3, palette(), ARROW_SEPARATOR, 2);
    assert_eq!(left.part, more_ribbon(" ← +3 ", ARROW_SEPARATOR));
    assert_eq!(left.len, 8);
    let right = right_more_message(3, palette(), "||", 2);
    assert_eq!(right.part, more_ribbon(" +3 → ", "||"));
    assert_eq!(right.len, 10);
}

#[test]
fn wide_separator_counts_two_columns_a_side() {
    let left = left_more_message(1, palette(), "\u{3000}", 0);
    assert_eq!(left.len, 6 + 4);
}

#[test]
fn counts_below_ten_thousand_are_written_out() {
    let left = left_more_message(9999, palette(), "", 0);
    assert_eq!(left.part, more_ribbon(" ← +9999 ", ""));
    assert_eq!(left.len, 9);
    let right = right_more_message(9999, palette(), "", 0);
    assert_eq!(right.part, more_ribbon(" +9999 → ", ""));
    assert_eq!(right.len, 9);
}

#[test]
fn ten_thousand_and_more_are_many() {
    let left = left_more_message(10000, palette(), "", 0);
    assert_eq!(left.part, more_ribbon(" ← +many ", ""));
    assert_eq!(left.len, 9);
    let right = right_more_message(usize::MAX, palette(), "", 0);
    assert_eq!(right.part, more_ribbon(" +many → ", ""));
    assert_eq!(right.len, 9);
}

#[test]
fn separator_is_the_arrow_unless_arrow_fonts_is_set() {
    assert_eq!(tab_separator(PluginCapabilities { arrow_fonts: false }), "\u{e0b0}");
    assert_eq!(tab_separator(PluginCapabilities { arrow_fonts: true }), "");
}

#[test]
fn decimal_writes_numbers_as_the_standard_library_does() {
    for n in [0usize, 1, 9, 10, 11, 99, 100, 101, 9999, 10000, 123456789, usize::MAX] {
        assert_eq!(decimal(n), n.to_string());
    }
}

#[test]
fn repeat_writes_the_cell_that_many_times() {
    assert_eq!(repeat("ab", 0), "");
    assert_eq!(repeat("ab", 3), "ababab");
    assert_eq!(repeat("", 5), "");
}
