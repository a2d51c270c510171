use ansi_term::{Colour, Style};
use compact_bar::paint::{PaletteColor, StyleDeclaration, Styling};
use compact_bar::prefix::InputMode;
use compact_bar::span::LinePart;
use compact_bar::swap_layout::swap_layout_status;

fn declaration(seed: u8) -> StyleDeclaration {
    StyleDeclaration {
        base: PaletteColor::EightBit(seed),
        background: PaletteColor::EightBit(seed + 1),
        emphasis_0: PaletteColor::EightBit(seed + 2),
        emphasis_1: PaletteColor::EightBit(seed + 3),
        emphasis_2: PaletteColor::EightBit(seed + 4),
        emphasis_3: PaletteColor::EightBit(seed + 5),
    }
}

fn palette() -> Styling {
    Styling {
        text_unselected: declaration(10),
        text_selected: declaration(20),
        ribbon_unselected: declaration(30),
        ribbon_selected: declaration(40),
    }
}

fn indicator(label: &str, separator: &str, ribbon: u8, italic: bool) -> String {
    let bg = Colour::Fixed(11);
    let ribbon = Colour::Fixed(ribbon);
    let label_style = if italic {
        Style::new().fg(bg).on(ribbon).italic()
    } else {
        Style::new().fg(bg).on(ribbon).bold()
    };
    format!(
        "{}{}{}",
        Style::new().fg(bg).on(ribbon).paint(separator),
        label_style.paint(label),
        Style::new().fg(ribbon).on(bg).paint(separator)
    )
}

fn name(text: &str) -> Option<String> {
    Some(text.to_string())
}

#[test]
fn no_name_gives_no_indicator() {
    assert_eq!(swap_layout_status(100, &None, false, InputMode::Normal, &palette(), ""), None);
    assert_eq!(swap_layout_status(100, &None, true, InputMode::Locked, &palette(), ">"), None);
}

#[test]
fn name_is_shown_in_capitals_between_blanks() {
    let status = swap_layout_status(100, &name("foo"), false, InputMode::Normal, &palette(), "");
    assert_eq!(
        status,
        Some(LinePart { part: indicator(" FOO ", "", 41, false), len: 8, tab_index: None })
    );
}

#[test]
fn only_ascii_letters_are_capitalised() {
    let status =
        swap_layout_status(100, &name("straße 2"), false, InputMode::Normal, &palette(), "");
    assert_eq!(status.unwrap().part, indicator(" STRAßE 2 ", "", 41, false));
}

#[test]
fn width_counts_the_label_both_separators_and_three() {
    let status = swap_layout_status(
        100,
        &name("foo"),
        false,
        InputMode::Normal,
        &palette(),
        "\u{e0b0}",
    );
    assert_eq!(
        status,
        Some(LinePart {
            part: indicator(" FOO ", "\u{e0b0}", 41, false),
            len: 5 + 2 + 3,
            tab_index: None
        })
    );
}

#[test]
fn wide_glyphs_in_the_name_count_two_columns_each() {
    let status = swap_layout_status(100, &name("日本"), false, InputMode::Normal, &palette(), "");
    assert_eq!(status.unwrap().len, 6 + 3);
}

#[test]
fn locked_mode_draws_in_italics_on_the_plain_ribbon() {
    let status = swap_layout_status(100, &name("foo"), false, InputMode::Locked, &palette(), ">");
    assert_eq!(
        status,
        Some(LinePart { part: indicator(" FOO ", ">", 31, true), len: 10, tab_index: None })
    );
    let damaged = swap_layout_status(100, &name("foo"), true, InputMode::Locked, &palette(), ">");
    assert_eq!(damaged, status);
}

#[test]
fn changed_layout_draws_in_bold_on_the_plain_ribbon() {
    let status = swap_layout_status(100, &name("foo"), true, InputMode::Pane, &palette(), ">");
    assert_eq!(
        status,
        Some(LinePart { part: indicator(" FOO ", ">", 31, false), len: 10, tab_index: None })
    );
}

#[test]
fn indicator_that_just_fits_is_shown_in_full() {
    let status = swap_layout_status(8, &name("foo"), false, InputMode::Normal, &palette(), "");
    assert_eq!(status.unwrap().len, 8);
    let locked = swap_layout_status(8, &name("foo"), false, InputMode::Locked, &palette(), "");
    assert_eq!(locked.unwrap().len, 8);
}

#[test]
fn locked_mode_without_room_gives_no_indicator() {
    for max_len in 0..8 {
        let status =
            swap_layout_status(max_len, &name("foo"), false, InputMode::Locked, &palette(), "");
        assert_eq!(status, None, "max_len = {}", max_len);
    }
}

#[test]
fn indicator_is_dropped_whole_and_never_cut() {
    for max_len in 0..8 {
        let status =
            swap_layout_status(max_len, &name("foo"), true, InputMode::Normal, &palette(), "");
        assert_eq!(status, None, "max_len = {}", max_len);
    }
}

#[test]
fn empty_name_still_has_its_blanks() {
    let status = swap_layout_status(5, &name(""), false, InputMode::Normal, &palette(), "");
    assert_eq!(
        status,
        Some(LinePart { part: indicator("  ", "", 41, false), len: 5, tab_index: None })
    );
}
