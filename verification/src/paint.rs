//! Colours and the escape sequences that apply them.

use ansi_term::{ANSIString, ANSIStrings, Colour, Style};
use vstd::prelude::*;

verus! {

/// A colour of the theme: three channels, or an index into the terminal's
/// palette of 256.
#[derive(Clone, Copy, Debug, PartialEq, Eq)]
pub enum PaletteColor {
    Rgb((u8, u8, u8)),
    EightBit(u8),
}

/// The colours that the theme gives to one kind of element.
#[derive(Clone, Copy, Debug, PartialEq, Eq)]
pub struct StyleDeclaration {
    pub base: PaletteColor,
    pub background: PaletteColor,
    pub emphasis_0: PaletteColor,
    pub emphasis_1: PaletteColor,
    pub emphasis_2: PaletteColor,
    pub emphasis_3: PaletteColor,
}

/// The part of the theme that the bar draws with.
#[derive(Clone, Copy, Debug, PartialEq, Eq)]
pub struct Styling {
    pub text_unselected: StyleDeclaration,
    pub text_selected: StyleDeclaration,
    pub ribbon_unselected: StyleDeclaration,
    pub ribbon_selected: StyleDeclaration,
}

/// How a run of text is drawn.
#[derive(Clone, Copy, Debug, PartialEq, Eq)]
pub struct TextStyle {
    pub foreground: PaletteColor,
    pub background: PaletteColor,
    pub bold: bool,
    pub italic: bool,
}

/// A run of text with the style it is drawn in.
#[derive(Clone, Debug, PartialEq, Eq)]
pub struct StyledText {
    pub style: TextStyle,
    pub text: String,
}

impl View for StyledText {
    type V = (TextStyle, Seq<char>);

    open spec fn view(&self) -> (TextStyle, Seq<char>) {
        (self.style, self.text@)
    }
}

/// The contents of a sequence of styled runs.
pub open spec fn styled_views(pieces: Seq<StyledText>) -> Seq<(TextStyle, Seq<char>)> {
    pieces.map_values(|p: StyledText| p@)
}

/// `text` wrapped in the escape sequences that switch `style` on before it and
/// off after it.
pub uninterp spec fn painted(style: TextStyle, text: Seq<char>) -> Seq<char>;

/// The runs of `pieces` one after another, each in its style, with no more
/// escape sequences between two runs than the change of style needs.
pub uninterp spec fn painted_strip(pieces: Seq<(TextStyle, Seq<char>)>) -> Seq<char>;

impl TextStyle {
    /// Plain text in the given colours.
    pub fn new(foreground: PaletteColor, background: PaletteColor) -> (style: TextStyle)
        ensures
            style == (TextStyle { foreground, background, bold: false, italic: false }),
    {
        TextStyle { foreground, background, bold: false, italic: false }
    }

    /// The same style in bold.
    pub fn bold(self) -> (style: TextStyle)
        ensures
            style == (TextStyle { bold: true, ..self }),
    {
        TextStyle { bold: true, ..self }
    }

    /// The same style in italics.
    pub fn italic(self) -> (style: TextStyle)
        ensures
            style == (TextStyle { italic: true, ..self }),
    {
        TextStyle { italic: true, ..self }
    }
}

/// Paints one run with `ansi_term::Style::paint` and prints it.
///
/// Trusted: the text that comes out depends on the style and the text alone.
#[verifier::external_body]
pub(crate) fn paint(style: TextStyle, text: &str) -> (out: String)
    ensures
        out@ == painted(style, text@),
{
    let foreground = match style.foreground {
        PaletteColor::Rgb((r, g, b)) => Colour::RGB(r, g, b),
        PaletteColor::EightBit(code) => Colour::Fixed(code),
    };
    let background = match style.background {
        PaletteColor::Rgb((r, g, b)) => Colour::RGB(r, g, b),
        PaletteColor::EightBit(code) => Colour::Fixed(code),
    };
    let ansi = Style::new().fg(foreground).on(background);
    Style { is_bold: style.bold, is_italic: style.italic, ..ansi }.paint(text).to_string()
}

/// Paints each run with `ansi_term::Style::paint` and prints them together
/// with `ansi_term::ANSIStrings`.
///
/// Trusted: the text that comes out depends on the styles and texts of the
/// runs, in their order, alone.
#[verifier::external_body]
pub(crate) fn paint_strip(pieces: &Vec<StyledText>) -> (out: String)
    ensures
        out@ == painted_strip(styled_views(pieces@)),
{
    let mut strings: Vec<ANSIString> = Vec::new();
    for piece in pieces.iter() {
        let foreground = match piece.style.foreground {
            PaletteColor::Rgb((r, g, b)) => Colour::RGB(r, g, b),
            PaletteColor::EightBit(code) => Colour::Fixed(code),
        };
        let background = match piece.style.background {
            PaletteColor::Rgb((r, g, b)) => Colour::RGB(r, g, b),
            PaletteColor::EightBit(code) => Colour::Fixed(code),
        };
        let ansi = Style::new().fg(foreground).on(background);
        let ansi = Style { is_bold: piece.style.bold, is_italic: piece.style.italic, ..ansi };
        strings.push(ansi.paint(piece.text.as_str()));
    }
    ANSIStrings(&strings).to_string()
}

} // verus!
