//! The head of the bar: the brand, the session's name and the input mode.

use crate::measure::{display_width, text_width};
use crate::paint::{paint, painted, PaletteColor, Styling, TextStyle};
use crate::span::{LinePart, LinePartView};
use crate::text::concat3;
use vstd::prelude::*;
use vstd::string::*;

verus! {

/// The mode that the keyboard is in.
#[derive(Clone, Copy, Debug, PartialEq, Eq, Structural)]
pub enum InputMode {
    Normal,
    Locked,
    Resize,
    Pane,
    Tab,
    Scroll,
    EnterSearch,
    Search,
    RenameTab,
    RenamePane,
    Session,
    Move,
    Prompt,
    Tmux,
}

/// The label that opens the bar.
pub const BRAND: &'static str = " Zellij ";

/// The name of a mode, in capitals.
pub open spec fn mode_name_text(mode: InputMode) -> Seq<char> {
    match mode {
        InputMode::Normal => "NORMAL"@,
        InputMode::Locked => "LOCKED"@,
        InputMode::Resize => "RESIZE"@,
        InputMode::Pane => "PANE"@,
        InputMode::Tab => "TAB"@,
        InputMode::Scroll => "SCROLL"@,
        InputMode::EnterSearch => "ENTERSEARCH"@,
        InputMode::Search => "SEARCH"@,
        InputMode::RenameTab => "RENAMETAB"@,
        InputMode::RenamePane => "RENAMEPANE"@,
        InputMode::Session => "SESSION"@,
        InputMode::Move => "MOVE"@,
        InputMode::Prompt => "PROMPT"@,
        InputMode::Tmux => "TMUX"@,
    }
}

/// The name of a mode, in capitals.
pub fn mode_name(mode: InputMode) -> (name: &'static str)
    ensures
        name@ == mode_name_text(mode),
{
    match mode {
        InputMode::Normal => "NORMAL",
        InputMode::Locked => "LOCKED",
        InputMode::Resize => "RESIZE",
        InputMode::Pane => "PANE",
        InputMode::Tab => "TAB",
        InputMode::Scroll => "SCROLL",
        InputMode::EnterSearch => "ENTERSEARCH",
        InputMode::Search => "SEARCH",
        InputMode::RenameTab => "RENAMETAB",
        InputMode::RenamePane => "RENAMEPANE",
        InputMode::Session => "SESSION",
        InputMode::Move => "MOVE",
        InputMode::Prompt => "PROMPT",
        InputMode::Tmux => "TMUX",
    }
}

/// The colour that the name of a mode is written in.
pub open spec fn mode_color(mode: InputMode, palette: Styling) -> PaletteColor {
    match mode {
        InputMode::Locked => palette.text_unselected.emphasis_3,
        InputMode::Normal => palette.text_unselected.emphasis_2,
        _ => palette.text_unselected.emphasis_0,
    }
}

/// Bold text of the given colour on the bar's background.
pub open spec fn head_style(color: PaletteColor, palette: Styling) -> TextStyle {
    TextStyle {
        foreground: color,
        background: palette.text_unselected.background,
        bold: true,
        italic: false,
    }
}

/// The brand.
pub open spec fn brand_view(palette: Styling) -> LinePartView {
    LinePartView {
        part: painted(head_style(palette.text_unselected.base, palette), BRAND@),
        len: BRAND@.len(),
        tab_index: None,
    }
}

/// The session's name, in brackets.
pub open spec fn session_view(name: Seq<char>, palette: Styling) -> LinePartView {
    let text = "("@ + name + ")"@;
    LinePartView {
        part: painted(head_style(palette.text_unselected.base, palette), text),
        len: display_width(text),
        tab_index: None,
    }
}

/// The name of the mode, between two blanks.
pub open spec fn mode_view(mode: InputMode, palette: Styling) -> LinePartView {
    let text = " "@ + mode_name_text(mode) + " "@;
    LinePartView {
        part: painted(head_style(mode_color(mode, palette), palette), text),
        len: display_width(text),
        tab_index: None,
    }
}

/// The columns that the brand leaves of `cols`.
pub open spec fn room_after_brand(cols: nat) -> nat {
    if cols >= BRAND@.len() {
        (cols - BRAND@.len()) as nat
    } else {
        0
    }
}

/// Whether a piece of `len` columns fits in what the brand leaves of `cols`.
pub fn fits_after_brand(cols: usize, len: usize) -> (fits: bool)
    ensures
        fits == (room_after_brand(cols as nat) >= len),
{
    cols.saturating_sub(BRAND.unicode_len()) >= len
}

/// The head of the bar in `cols` columns: always the brand; then the
/// session's name, if there is one and it fits in what the brand leaves;
/// then the mode, if it fits in what the brand leaves. The two are fitted
/// independently of each other.
pub open spec fn prefix_view(
    session_name: Option<Seq<char>>,
    mode: InputMode,
    palette: Styling,
    cols: nat,
) -> Seq<LinePartView> {
    let room = room_after_brand(cols);
    let session = match session_name {
        Some(name) => if room >= session_view(name, palette).len {
            seq![session_view(name, palette)]
        } else {
            seq![]
        },
        None => seq![],
    };
    let mode_part = if room >= mode_view(mode, palette).len {
        seq![mode_view(mode, palette)]
    } else {
        seq![]
    };
    seq![brand_view(palette)] + session + mode_part
}

/// The brand is eight columns wide.
pub proof fn lemma_brand_width()
    ensures
        BRAND@.len() == 8,
{
    reveal_strlit(" Zellij ");
}

/// The contents of an optional text.
pub open spec fn optional_text(text: Option<&str>) -> Option<Seq<char>> {
    match text {
        Some(text) => Some(text@),
        None => None,
    }
}

/// Builds the head of the bar.
pub fn tab_line_prefix(
    session_name: Option<&str>,
    mode: InputMode,
    palette: Styling,
    cols: usize,
) -> (parts: Vec<LinePart>)
    ensures
        crate::span::views(parts@) == prefix_view(
            optional_text(session_name),
            mode,
            palette,
            cols as nat,
        ),
{
    let prefix_text_len = BRAND.unicode_len();
    let text_color = palette.text_unselected.base;
    let bg_color = palette.text_unselected.background;
    let locked_mode_color = palette.text_unselected.emphasis_3;
    let normal_mode_color = palette.text_unselected.emphasis_2;
    let other_modes_color = palette.text_unselected.emphasis_0;

    let mut parts: Vec<LinePart> = Vec::new();
    parts.push(
        LinePart {
            part: paint(TextStyle::new(text_color, bg_color).bold(), BRAND),
            len: prefix_text_len,
            tab_index: None,
        },
    );
    if let Some(name) = session_name {
        let name_part = concat3("(", name, ")");
        let name_part_len = text_width(name_part.as_str());
        if fits_after_brand(cols, name_part_len) {
            parts.push(
                LinePart {
                    part: paint(TextStyle::new(text_color, bg_color).bold(), name_part.as_str()),
                    len: name_part_len,
                    tab_index: None,
                },
            );
        }
    }
    let mode_part_padded = concat3(" ", mode_name(mode), " ");
    let mode_part_len = text_width(mode_part_padded.as_str());
    let mode_color = if mode == InputMode::Locked {
        locked_mode_color
    } else if mode == InputMode::Normal {
        normal_mode_color
    } else {
        other_modes_color
    };
    if fits_after_brand(cols, mode_part_len) {
        parts.push(
            LinePart {
                part: paint(TextStyle::new(mode_color, bg_color).bold(), mode_part_padded.as_str()),
                len: mode_part_len,
                tab_index: None,
            },
        );
    }
    assert(crate::span::views(parts@) =~= prefix_view(
        optional_text(session_name),
        mode,
        palette,
        cols as nat,
    ));
    parts
}

} // verus!
