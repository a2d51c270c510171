//! The glyph that closes one ribbon and opens the next.

use vstd::prelude::*;

verus! {

/// The arrow drawn between two ribbons.
pub const ARROW_SEPARATOR: &'static str = "\u{e0b0}";

/// What the host tells of the terminal it draws on.
#[derive(Clone, Copy, Debug, PartialEq, Eq)]
pub struct PluginCapabilities {
    pub arrow_fonts: bool,
}

/// The separator for the given capabilities: the arrow unless `arrow_fonts`
/// is set, else nothing.
pub open spec fn separator_text(capabilities: PluginCapabilities) -> Seq<char> {
    if !capabilities.arrow_fonts {
        ARROW_SEPARATOR@
    } else {
        ""@
    }
}

/// The separator that is drawn between two ribbons.
pub fn tab_separator(capabilities: PluginCapabilities) -> (separator: &'static str)
    ensures
        separator@ == separator_text(capabilities),
{
    if !capabilities.arrow_fonts {
        ARROW_SEPARATOR
    } else {
        ""
    }
}

} // verus!
