//! Measuring text in terminal columns.

use unicode_width::UnicodeWidthStr;
use vstd::prelude::*;

verus! {

/// The number of terminal columns that `text` occupies when printed: wide
/// glyphs count two, zero-width ones none.
pub uninterp spec fn display_width(text: Seq<char>) -> nat;

/// Measures `text` with `unicode_width::UnicodeWidthStr::width`.
///
/// Trusted: the result is the column count of the text, a function of its
/// characters alone. Nothing else is claimed of it; in particular the width of
/// a concatenation need not be the sum of the widths.
#[verifier::external_body]
pub(crate) fn text_width(text: &str) -> (width: usize)
    ensures
        width as nat == display_width(text@),
{
    UnicodeWidthStr::width(text)
}

} // verus!
