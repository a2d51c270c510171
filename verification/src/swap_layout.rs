//! The name of the active swap layout, shown at the right end of the bar.

use crate::measure::{display_width, text_width};
use crate::paint::{paint, painted, PaletteColor, Styling, TextStyle};
use crate::prefix::InputMode;
use crate::span::{LinePart, LinePartView};
use crate::text::{ascii_uppercase, concat3, make_ascii_uppercase};
use vstd::prelude::*;

verus! {

/// The label of a swap layout: its name in capitals between two blanks.
pub open spec fn swap_layout_label(name: Seq<char>) -> Seq<char> {
    ascii_uppercase(" "@ + name + " "@)
}

/// The columns of the indicator in full: the label, a separator on either
/// side, and three more.
pub open spec fn full_width(label_width: nat, separator_width: nat) -> nat {
    label_width + 2 * separator_width + 3
}

/// The columns counted for the indicator in `max_len` columns, from those of
/// its label and of its separator: those of the full form if that fits; one
/// more, for the short form, if that fits and the mode is not locked; none
/// else.
pub open spec fn status_width(label_width: nat, separator_width: nat, max_len: nat, locked: bool)
    -> Option<nat> {
    let full = full_width(label_width, separator_width);
    if full <= max_len {
        Some(full)
    } else if full + 1 <= max_len && !locked {
        Some(full + 1)
    } else {
        None
    }
}

/// Counts the columns of the indicator in `max_len` columns, if it has room.
pub fn status_len(label_width: usize, separator_width: usize, max_len: usize, locked: bool) -> (len:
    Option<usize>)
    ensures
        match len {
            Some(len) => Some(len as nat) == status_width(
                label_width as nat,
                separator_width as nat,
                max_len as nat,
                locked,
            ),
            None => status_width(label_width as nat, separator_width as nat, max_len as nat, locked)
                is None,
        },
{
    let full_len: u128 = label_width as u128 + 2 * separator_width as u128 + 3;
    let short_len: u128 = full_len + 1;  // 1 is the space between
    if full_len <= max_len as u128 {
        Some(full_len as usize)
    } else if short_len <= max_len as u128 && !locked {
        Some(short_len as usize)
    } else {
        None
    }
}

/// The colour of the ribbon that the label stands on: the selected ribbon's,
/// unless the mode is locked or the layout was changed by hand.
pub open spec fn swap_layout_ribbon(damaged: bool, mode: InputMode, palette: Styling)
    -> PaletteColor {
    if mode == InputMode::Locked || damaged {
        palette.ribbon_unselected.background
    } else {
        palette.ribbon_selected.background
    }
}

/// The style of the label: italic when the mode is locked, else bold.
pub open spec fn swap_layout_label_style(damaged: bool, mode: InputMode, palette: Styling)
    -> TextStyle {
    TextStyle {
        foreground: palette.text_unselected.background,
        background: swap_layout_ribbon(damaged, mode, palette),
        bold: mode != InputMode::Locked,
        italic: mode == InputMode::Locked,
    }
}

/// The text of the indicator: the label on its ribbon between the separator
/// that leads into the ribbon and the one that leads out of it.
pub open spec fn swap_layout_text(
    name: Seq<char>,
    damaged: bool,
    mode: InputMode,
    palette: Styling,
    separator: Seq<char>,
) -> Seq<char> {
    let bg = palette.text_unselected.background;
    let ribbon = swap_layout_ribbon(damaged, mode, palette);
    painted(
        TextStyle { foreground: bg, background: ribbon, bold: false, italic: false },
        separator,
    ) + painted(swap_layout_label_style(damaged, mode, palette), swap_layout_label(name))
        + painted(
        TextStyle { foreground: ribbon, background: bg, bold: false, italic: false },
        separator,
    )
}

/// The indicator in `max_len` columns: none without a name; in full if that
/// fits; else in the short form if that fits and the mode is not locked; else
/// none. It is never cut.
pub open spec fn swap_layout_view(
    max_len: nat,
    name: Option<Seq<char>>,
    damaged: bool,
    mode: InputMode,
    palette: Styling,
    separator: Seq<char>,
) -> Option<LinePartView> {
    match name {
        None => None,
        Some(name) => match status_width(
            display_width(swap_layout_label(name)),
            display_width(separator),
            max_len,
            mode == InputMode::Locked,
        ) {
            Some(len) => Some(
                LinePartView {
                    part: swap_layout_text(name, damaged, mode, palette, separator),
                    len,
                    tab_index: None,
                },
            ),
            None => None,
        },
    }
}

/// The contents of an optional owned text.
pub open spec fn optional_string(text: Option<String>) -> Option<Seq<char>> {
    match text {
        Some(text) => Some(text@),
        None => None,
    }
}

/// The contents of an optional piece.
pub open spec fn optional_view(part: Option<LinePart>) -> Option<LinePartView> {
    match part {
        Some(part) => Some(part@),
        None => None,
    }
}

/// Builds the indicator of the active swap layout for `max_len` columns.
pub fn swap_layout_status(
    max_len: usize,
    swap_layout_name: &Option<String>,
    is_swap_layout_damaged: bool,
    input_mode: InputMode,
    palette: &Styling,
    separator: &str,
) -> (status: Option<LinePart>)
    ensures
        optional_view(status) == swap_layout_view(
            max_len as nat,
            optional_string(*swap_layout_name),
            is_swap_layout_damaged,
            input_mode,
            *palette,
            separator@,
        ),
{
    match swap_layout_name {
        Some(swap_layout_name) => {
            let mut swap_layout_name = concat3(" ", swap_layout_name.as_str(), " ");
            make_ascii_uppercase(&mut swap_layout_name);
            let len = match status_len(
                text_width(swap_layout_name.as_str()),
                text_width(separator),
                max_len,
                input_mode == InputMode::Locked,
            ) {
                Some(len) => len,
                None => {
                    return None;
                },
            };
            let bg = palette.text_unselected.background;
            let fg = palette.ribbon_unselected.background;
            let green = palette.ribbon_selected.background;

            let (prefix_separator, swap_layout_name, suffix_separator) = if input_mode
                == InputMode::Locked {
                (
                    paint(TextStyle::new(bg, fg), separator),
                    paint(TextStyle::new(bg, fg).italic(), swap_layout_name.as_str()),
                    paint(TextStyle::new(fg, bg), separator),
                )
            } else if is_swap_layout_damaged {
                (
                    paint(TextStyle::new(bg, fg), separator),
                    paint(TextStyle::new(bg, fg).bold(), swap_layout_name.as_str()),
                    paint(TextStyle::new(fg, bg), separator),
                )
            } else {
                (
                    paint(TextStyle::new(bg, green), separator),
                    paint(TextStyle::new(bg, green).bold(), swap_layout_name.as_str()),
                    paint(TextStyle::new(green, bg), separator),
                )
            };
            let swap_layout_indicator = concat3(
                prefix_separator.as_str(),
                swap_layout_name.as_str(),
                suffix_separator.as_str(),
            );
            Some(LinePart { part: swap_layout_indicator, len, tab_index: None })
        },
        None => None,
    }
}

} // verus!
