use ansi_term::{Colour, Style};
use compact_bar::paint::{PaletteColor, StyleDeclaration, Styling};
use compact_bar::prefix::{mode_name, tab_line_prefix, InputMode, BRAND};
use compact_bar::span::{get_current_title_len, LinePart};

fn declaration(seed: u8) -> StyleDeclaration {
    StyleDeclaration {
        base: PaletteColor::EightBit(seed),
        background: PaletteColor::EightBit(seed + 1),
        emphasis_0: PaletteColor::EightBit(seed + 2),
        emphasis_1: PaletteColor::EightBit(seed + 3),
        emphasis_2: PaletteColor::Rgb((seed, seed + 4, seed + 5)),
        emphasis_3: PaletteColor::EightBit(seed + 6),
    }
}

fn palette() -> Styling {
    Styling {
        text_unselected: declaration(10),
        text_selected: declaration(20),
        ribbon_unselected: declaration(30),
        ribbon_selected: declaration(40),
    }
}

fn head(text: &str, color: Colour, len: usize) -> LinePart {
    LinePart {
        part: Style::new().fg(color).on(Colour::Fixed(11)).bold().paint(text).to_string(),
        len,
        tab_index: None,
    }
}

#[test]
fn brand_is_eight_columns_wide() {
    assert_eq!(BRAND, " Zellij ");
    let parts = tab_line_prefix(None, InputMode::Normal, palette(), 0);
    assert_eq!(parts, vec![head(" Zellij ", Colour::Fixed(10), 8)]);
}

#[test]
fn brand_is_shown_even_without_room() {
    for cols in 0..8 {
        let parts = tab_line_prefix(Some("main"), InputMode::Locked, palette(), cols);
        assert_eq!(parts.len(), 1);
        assert_eq!(get_current_title_len(&parts), 8);
    }
}

#[test]
fn session_and_mode_follow_the_brand() {
    let parts = tab_line_prefix(Some("main"), InputMode::Normal, palette(), 80);
    assert_eq!(
        parts,
        vec![
            head(" Zellij ", Colour::Fixed(10), 8),
            head("(main)", Colour::Fixed(10), 6),
            head(" NORMAL ", Colour::RGB(10, 14, 15), 8),
        ]
    );
}

#[test]
fn mode_colour_tells_locked_normal_and_the_rest_apart() {
    let locked = tab_line_prefix(None, InputMode::Locked, palette(), 80);
    assert_eq!(locked[1], head(" LOCKED ", Colour::Fixed(16), 8));
    let normal = tab_line_prefix(None, InputMode::Normal, palette(), 80);
    assert_eq!(normal[1], head(" NORMAL ", Colour::RGB(10, 14, 15), 8));
    let pane = tab_line_prefix(None, InputMode::Pane, palette(), 80);
    assert_eq!(pane[1], head(" PANE ", Colour::Fixed(12), 6));
    let rename = tab_line_prefix(None, InputMode::RenameTab, palette(), 80);
    assert_eq!(rename[1], head(" RENAMETAB ", Colour::Fixed(12), 11));
}

#[test]
fn mode_names_are_in_capitals() {
    assert_eq!(mode_name(InputMode::Normal), "NORMAL");
    assert_eq!(mode_name(InputMode::Locked), "LOCKED");
    assert_eq!(mode_name(InputMode::Resize), "RESIZE");
    assert_eq!(mode_name(InputMode::Pane), "PANE");
    assert_eq!(mode_name(InputMode::Tab), "TAB");
    assert_eq!(mode_name(InputMode::Scroll), "SCROLL");
    assert_eq!(mode_name(InputMode::EnterSearch), "ENTERSEARCH");
    assert_eq!(mode_name(InputMode::Search), "SEARCH");
    assert_eq!(mode_name(InputMode::RenameTab), "RENAMETAB");
    assert_eq!(mode_name(InputMode::RenamePane), "RENAMEPANE");
    assert_eq!(mode_name(InputMode::Session), "SESSION");
    assert_eq!(mode_name(InputMode::Move), "MOVE");
    assert_eq!(mode_name(InputMode::Prompt), "PROMPT");
    assert_eq!(mode_name(InputMode::Tmux), "TMUX");
}

#[test]
fn session_and_mode_are_fitted_independently() {
    // 16 columns leave 8 after the brand: the name (6) fits in them and so
    // does the mode (8), each by itself, though not both together.
    let parts = tab_line_prefix(Some("main"), InputMode::Normal, palette(), 16);
    assert_eq!(parts.len(), 3);
    assert_eq!(get_current_title_len(&parts), 22);
}

#[test]
fn mode_is_shown_where_the_longer_name_is_not() {
    let parts = tab_line_prefix(Some("a-long-session"), InputMode::Tab, palette(), 20);
    assert_eq!(
        parts,
        vec![head(" Zellij ", Colour::Fixed(10), 8), head(" TAB ", Colour::Fixed(12), 5)]
    );
}

#[test]
fn name_is_shown_where_the_longer_mode_is_not() {
    let parts = tab_line_prefix(Some("ab"), InputMode::EnterSearch, palette(), 12);
    assert_eq!(
        parts,
        vec![head(" Zellij ", Colour::Fixed(10), 8), head("(ab)", Colour::Fixed(10), 4)]
    );
}

#[test]
fn name_that_just_fits_is_shown() {
    let fits = tab_line_prefix(Some("main"), InputMode::EnterSearch, palette(), 14);
    assert_eq!(fits.len(), 2);
    let too_narrow = tab_line_prefix(Some("main"), InputMode::EnterSearch, palette(), 13);
    assert_eq!(too_narrow.len(), 1);
}

#[test]
fn wide_glyphs_in_the_name_count_two_columns() {
    let parts = tab_line_prefix(Some("日本"), InputMode::EnterSearch, palette(), 14);
    assert_eq!(parts[1], head("(日本)", Colour::Fixed(10), 6));
    let too_narrow = tab_line_prefix(Some("日本"), InputMode::EnterSearch, palette(), 13);
    assert_eq!(too_narrow.len(), 1);
}
