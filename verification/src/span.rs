//! The unit the bar is assembled from: a rendered piece of text together with
//! the number of terminal columns it occupies.

use vstd::prelude::*;

verus! {

/// One rendered piece of the bar.
///
/// `part` is the text handed to the terminal, escape sequences included,
/// `len` is the number of columns it occupies, and `tab_index` names the tab
/// that a click on it selects, if any.
#[derive(Debug, Clone, PartialEq, Eq)]
pub struct LinePart {
    pub part: String,
    pub len: usize,
    pub tab_index: Option<usize>,
}

/// The mathematical content of a [`LinePart`].
pub struct LinePartView {
    pub part: Seq<char>,
    pub len: nat,
    pub tab_index: Option<usize>,
}

impl View for LinePart {
    type V = LinePartView;

    open spec fn view(&self) -> LinePartView {
        LinePartView { part: self.part@, len: self.len as nat, tab_index: self.tab_index }
    }
}

impl LinePartView {
    /// The piece that shows nothing and takes no room.
    pub open spec fn empty() -> LinePartView {
        LinePartView { part: Seq::empty(), len: 0, tab_index: None }
    }
}

impl Default for LinePart {
    fn default() -> (part: LinePart)
        ensures
            part@ == LinePartView::empty(),
    {
        LinePart { part: String::new(), len: 0, tab_index: None }
    }
}

/// The contents of a sequence of pieces.
pub open spec fn views(parts: Seq<LinePart>) -> Seq<LinePartView> {
    parts.map_values(|p: LinePart| p@)
}

/// The number of columns that a sequence of pieces occupies.
pub open spec fn total_len(parts: Seq<LinePartView>) -> nat
    decreases parts.len(),
{
    if parts.len() == 0 {
        0
    } else {
        total_len(parts.drop_last()) + parts.last().len
    }
}

/// A single piece occupies its own width.
pub proof fn lemma_total_len_one(part: LinePartView)
    ensures
        total_len(seq![part]) == part.len,
{
    assert(seq![part].drop_last() =~= Seq::<LinePartView>::empty());
    assert(total_len(Seq::<LinePartView>::empty()) == 0);
}

/// Widths add up over concatenation.
pub proof fn lemma_total_len_concat(a: Seq<LinePartView>, b: Seq<LinePartView>)
    ensures
        total_len(a + b) == total_len(a) + total_len(b),
    decreases b.len(),
{
    if b.len() == 0 {
        assert(a + b =~= a);
    } else {
        assert((a + b).drop_last() =~= a + b.drop_last());
        lemma_total_len_concat(a, b.drop_last());
    }
}

/// The columns taken by the given pieces, capped at `usize::MAX`.
pub fn get_current_title_len(current_title: &[LinePart]) -> (total: usize)
    ensures
        total as nat == if total_len(views(current_title@)) <= usize::MAX {
            total_len(views(current_title@))
        } else {
            usize::MAX as nat
        },
{
    let mut total: usize = 0;
    let mut i: usize = 0;
    while i < current_title.len()
        invariant
            i <= current_title.len(),
            total as nat == if total_len(views(current_title@.take(i as int))) <= usize::MAX {
                total_len(views(current_title@.take(i as int)))
            } else {
                usize::MAX as nat
            },
        decreases current_title.len() - i,
    {
        proof {
            let next = current_title@.take(i as int + 1);
            assert(views(next).drop_last() =~= views(current_title@.take(i as int)));
            assert(views(next).last() == current_title@[i as int]@);
        }
        total = total.saturating_add(current_title[i].len);
        i = i + 1;
    }
    proof {
        assert(current_title@.take(i as int) =~= current_title@);
    }
    total
}

} // verus!
