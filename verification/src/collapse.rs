//! The indicators that stand for the tabs that found no room.

use crate::measure::{display_width, text_width};
use crate::paint::{paint_strip, painted_strip, styled_views, StyledText, Styling, TextStyle};
use crate::span::{LinePart, LinePartView};
use crate::text::{concat3, decimal, decimal_text};
use vstd::prelude::*;
use vstd::string::*;

verus! {

/// From this many hidden tabs on, the indicator no longer counts them.
pub const MANY_TABS: usize = 10000;

/// The words of the indicator for `count` tabs hidden on the left.
pub open spec fn left_more_text(count: nat) -> Seq<char> {
    if count < MANY_TABS {
        " ← +"@ + decimal_text(count) + " "@
    } else {
        " ← +many "@
    }
}

/// The words of the indicator for `count` tabs hidden on the right.
pub open spec fn right_more_text(count: nat) -> Seq<char> {
    if count < MANY_TABS {
        " +"@ + decimal_text(count) + " → "@
    } else {
        " +many → "@
    }
}

/// The columns of an indicator whose words take `text_width` columns and
/// whose separator takes `separator_width`: the words and a separator on
/// either side, capped at `usize::MAX`.
pub open spec fn ribbon_width(text_width: nat, separator_width: nat) -> nat {
    let width = text_width + 2 * separator_width;
    if width <= usize::MAX {
        width
    } else {
        usize::MAX as nat
    }
}

/// The columns of an indicator with the given words and separator.
pub open spec fn more_width(text: Seq<char>, separator: Seq<char>) -> nat {
    ribbon_width(display_width(text), display_width(separator))
}

/// Counts the columns of an indicator from those of its words and of its
/// separator.
pub fn ribbon_len(text_width: usize, separator_width: usize) -> (len: usize)
    ensures
        len as nat == ribbon_width(text_width as nat, separator_width as nat),
{
    // the words plus the separator on both sides
    text_width.saturating_add(separator_width.saturating_add(separator_width))
}

/// The three runs of an indicator: the words in bold on the ribbon's colour,
/// between two separators that lead into it and out of it.
pub open spec fn more_pieces(palette: Styling, separator: Seq<char>, text: Seq<char>) -> Seq<
    (TextStyle, Seq<char>),
> {
    let text_color = palette.ribbon_unselected.base;
    let sep_color = palette.text_unselected.background;
    let ribbon = palette.text_selected.emphasis_0;
    seq![
        (TextStyle { foreground: sep_color, background: ribbon, bold: false, italic: false }, separator),
        (TextStyle { foreground: text_color, background: ribbon, bold: true, italic: false }, text),
        (TextStyle { foreground: ribbon, background: sep_color, bold: false, italic: false }, separator),
    ]
}

/// The indicator with the given words; a click on it selects `tab_index`.
pub open spec fn more_view(
    text: Seq<char>,
    palette: Styling,
    separator: Seq<char>,
    tab_index: usize,
) -> LinePartView {
    LinePartView {
        part: painted_strip(more_pieces(palette, separator, text)),
        len: more_width(text, separator),
        tab_index: Some(tab_index),
    }
}

/// The indicator for `count` tabs hidden on the left: nothing when there are
/// none.
pub open spec fn left_more_view(
    count: nat,
    palette: Styling,
    separator: Seq<char>,
    tab_index: usize,
) -> LinePartView {
    if count == 0 {
        LinePartView::empty()
    } else {
        more_view(left_more_text(count), palette, separator, tab_index)
    }
}

/// The indicator for `count` tabs hidden on the right: nothing when there are
/// none.
pub open spec fn right_more_view(
    count: nat,
    palette: Styling,
    separator: Seq<char>,
    tab_index: usize,
) -> LinePartView {
    if count == 0 {
        LinePartView::empty()
    } else {
        more_view(right_more_text(count), palette, separator, tab_index)
    }
}

/// The columns of the indicator for `count` tabs hidden on the left.
pub open spec fn left_more_width(count: nat, separator: Seq<char>) -> nat {
    if count == 0 {
        0
    } else {
        more_width(left_more_text(count), separator)
    }
}

/// The columns of the indicator for `count` tabs hidden on the right.
pub open spec fn right_more_width(count: nat, separator: Seq<char>) -> nat {
    if count == 0 {
        0
    } else {
        more_width(right_more_text(count), separator)
    }
}

fn more_message(more_text: String, palette: Styling, separator: &str, tab_index: usize) -> (part:
    LinePart)
    ensures
        part@ == more_view(more_text@, palette, separator@, tab_index),
{
    let more_text_len = ribbon_len(text_width(more_text.as_str()), text_width(separator));
    let text_color = palette.ribbon_unselected.base;
    let sep_color = palette.text_unselected.background;
    let plus_ribbon_bg = palette.text_selected.emphasis_0;
    let ghost text = more_text@;
    let pieces = vec![
        StyledText {
            style: TextStyle::new(sep_color, plus_ribbon_bg),
            text: String::from_str(separator),
        },
        StyledText { style: TextStyle::new(text_color, plus_ribbon_bg).bold(), text: more_text },
        StyledText {
            style: TextStyle::new(plus_ribbon_bg, sep_color),
            text: String::from_str(separator),
        },
    ];
    assert(styled_views(pieces@) =~= more_pieces(palette, separator@, text));
    LinePart { part: paint_strip(&pieces), len: more_text_len, tab_index: Some(tab_index) }
}

/// The indicator for the tabs hidden to the left of the visible ones.
pub fn left_more_message(
    tab_count_to_the_left: usize,
    palette: Styling,
    separator: &str,
    tab_index: usize,
) -> (part: LinePart)
    ensures
        part@ == left_more_view(tab_count_to_the_left as nat, palette, separator@, tab_index),
{
    if tab_count_to_the_left == 0 {
        return LinePart::default();
    }
    let more_text = if tab_count_to_the_left < MANY_TABS {
        concat3(" ← +", decimal(tab_count_to_the_left).as_str(), " ")
    } else {
        String::from_str(" ← +many ")
    };
    more_message(more_text, palette, separator, tab_index)
}

/// The indicator for the tabs hidden to the right of the visible ones.
pub fn right_more_message(
    tab_count_to_the_right: usize,
    palette: Styling,
    separator: &str,
    tab_index: usize,
) -> (part: LinePart)
    ensures
        part@ == right_more_view(tab_count_to_the_right as nat, palette, separator@, tab_index),
{
    if tab_count_to_the_right == 0 {
        return LinePart::default();
    }
    let more_text = if tab_count_to_the_right < MANY_TABS {
        concat3(" +", decimal(tab_count_to_the_right).as_str(), " → ")
    } else {
        String::from_str(" +many → ")
    };
    more_message(more_text, palette, separator, tab_index)
}

} // verus!
