//! Choosing the tabs that are shown around the active one.
//!
//! The packer starts from the active tab and takes neighbours one at a time,
//! from the side that has received fewer columns so far, as long as the line
//! still fits together with the indicators for what stays hidden.

use crate::collapse::{
    left_more_message, left_more_view, left_more_width, right_more_message, right_more_view,
    right_more_width,
};
use crate::paint::Styling;
use crate::separator::{separator_text, tab_separator, PluginCapabilities};
use crate::span::{lemma_total_len_concat, total_len, views, LinePart, LinePartView};
use vstd::prelude::*;

verus! {

/// What the packer decides on: the widths of the tabs on either side of the
/// active one, the width of what is shown from the start, the separator and
/// the room.
pub struct PackInput {
    /// Widths of the tabs before the active one, in their order.
    pub before: Seq<nat>,
    /// Widths of the tabs after the active one, in their order.
    pub after: Seq<nat>,
    /// Width of what is shown from the start.
    pub middle: nat,
    /// The separator that flanks an indicator.
    pub separator: Seq<char>,
    /// The columns at hand.
    pub cols: nat,
}

/// What the packer does in one round.
pub enum Step {
    /// Not even the indicators fit: stop and show no indicator.
    Overflow,
    /// Take the nearest hidden tab on the left.
    TakeLeft,
    /// Take the nearest hidden tab on the right.
    TakeRight,
    /// Nothing more fits or nothing is left: stop and show the indicators.
    Collapse,
}

/// Where the packer ends: how many tabs it took from either side, and whether
/// it stopped with room for the indicators.
pub struct Packing {
    pub taken_left: nat,
    pub taken_right: nat,
    pub collapsed: bool,
}

/// The columns of the line if one more tab is taken: the tab and the line
/// with both indicators, less the indicator of that side if the tab is the
/// last one there.
pub open spec fn size_by_adding(tab: nat, total_size: nat, collapsed: nat, last: bool) -> int {
    tab + total_size - (if last {
        collapsed as int
    } else {
        0
    })
}

/// The round that follows from the widths at hand: `left` and `right` are
/// the nearest hidden tabs, where there are any; `collapsed_left` and
/// `collapsed_right` the indicators for what is hidden; `last_left` and
/// `last_right` say whether the nearest hidden tab is the only one;
/// `middle` is what is shown, `total_left` and `total_right` what was taken
/// on either side.
///
/// Where the line with both indicators is wider than `cols`, nothing more is
/// done and no indicator is shown. Else a tab is taken from the side that
/// has received fewer columns, the left one if both have as many, or from
/// the other side if the tab there fits and this one does not. Where neither
/// fits, or none is left, the indicators are shown.
pub open spec fn decide(
    left: Option<nat>,
    right: Option<nat>,
    collapsed_left: nat,
    collapsed_right: nat,
    last_left: bool,
    last_right: bool,
    middle: nat,
    total_left: nat,
    total_right: nat,
    cols: nat,
) -> Step {
    let total_size = collapsed_left + middle + collapsed_right;
    let left_fits = left matches Some(tab) && size_by_adding(
        tab,
        total_size,
        collapsed_left,
        last_left,
    ) <= cols;
    let right_fits = right matches Some(tab) && size_by_adding(
        tab,
        total_size,
        collapsed_right,
        last_right,
    ) <= cols;
    if total_size > cols {
        Step::Overflow
    } else if (total_left <= total_right || !right_fits) && left_fits {
        Step::TakeLeft
    } else if right_fits {
        Step::TakeRight
    } else {
        Step::Collapse
    }
}

/// The width of a tab that may be there.
pub open spec fn optional_width(width: Option<usize>) -> Option<nat> {
    match width {
        Some(width) => Some(width as nat),
        None => None,
    }
}

impl PackInput {
    /// The columns of the `l` tabs nearest to the active one on the left.
    pub open spec fn total_left(self, l: nat) -> nat
        decreases l,
    {
        if l == 0 || l > self.before.len() {
            0
        } else {
            self.total_left((l - 1) as nat) + self.before[self.before.len() - l]
        }
    }

    /// The columns of the `r` tabs nearest to the active one on the right.
    pub open spec fn total_right(self, r: nat) -> nat
        decreases r,
    {
        if r == 0 || r > self.after.len() {
            0
        } else {
            self.total_right((r - 1) as nat) + self.after[r - 1]
        }
    }

    /// The columns of the tabs shown once `l` are taken on the left and `r`
    /// on the right.
    pub open spec fn middle_width(self, l: nat, r: nat) -> nat {
        self.middle + self.total_left(l) + self.total_right(r)
    }

    /// The columns of the indicator for what is then hidden on the left.
    pub open spec fn collapsed_left(self, l: nat) -> nat {
        left_more_width((self.before.len() - l) as nat, self.separator)
    }

    /// The columns of the indicator for what is then hidden on the right.
    pub open spec fn collapsed_right(self, r: nat) -> nat {
        right_more_width((self.after.len() - r) as nat, self.separator)
    }

    /// The columns of the line with both indicators.
    pub open spec fn total_size(self, l: nat, r: nat) -> nat {
        self.collapsed_left(l) + self.middle_width(l, r) + self.collapsed_right(r)
    }

    /// The width of the nearest hidden tab on the left, if there is one.
    pub open spec fn next_left(self, l: nat) -> Option<nat> {
        if l < self.before.len() {
            Some(self.before[self.before.len() - l - 1])
        } else {
            None
        }
    }

    /// The width of the nearest hidden tab on the right, if there is one.
    pub open spec fn next_right(self, r: nat) -> Option<nat> {
        if r < self.after.len() {
            Some(self.after[r as int])
        } else {
            None
        }
    }

    /// The round that follows when `l` tabs are taken on the left and `r` on
    /// the right.
    pub open spec fn step(self, l: nat, r: nat) -> Step {
        decide(
            self.next_left(l),
            self.next_right(r),
            self.collapsed_left(l),
            self.collapsed_right(r),
            self.before.len() - l == 1,
            self.after.len() - r == 1,
            self.middle_width(l, r),
            self.total_left(l),
            self.total_right(r),
            self.cols,
        )
    }

    /// Where the packer ends when it goes on from `l` tabs taken on the left
    /// and `r` on the right.
    pub open spec fn run(self, l: nat, r: nat) -> Packing
        decreases self.before.len() + self.after.len() - l - r,
    {
        if l > self.before.len() || r > self.after.len() {
            Packing { taken_left: l, taken_right: r, collapsed: false }
        } else {
            match self.step(l, r) {
                Step::Overflow => Packing { taken_left: l, taken_right: r, collapsed: false },
                Step::TakeLeft => self.run(l + 1, r),
                Step::TakeRight => self.run(l, r + 1),
                Step::Collapse => Packing { taken_left: l, taken_right: r, collapsed: true },
            }
        }
    }

    /// Where the packer ends.
    pub open spec fn packing(self) -> Packing {
        self.run(0, 0)
    }
}

/// The widths of a sequence of pieces.
pub open spec fn part_widths(parts: Seq<LinePartView>) -> Seq<nat> {
    parts.map_values(|p: LinePartView| p.len)
}

/// What the packer decides on, for the given pieces.
pub open spec fn pack_input(
    before: Seq<LinePartView>,
    after: Seq<LinePartView>,
    middle: Seq<LinePartView>,
    separator: Seq<char>,
    cols: nat,
) -> PackInput {
    PackInput {
        before: part_widths(before),
        after: part_widths(after),
        middle: total_len(middle),
        separator,
        cols,
    }
}

/// A count as a tab index: itself, or the largest index if it is beyond.
pub open spec fn capped_index(n: nat) -> usize {
    if n <= usize::MAX {
        n as usize
    } else {
        usize::MAX
    }
}

/// The indicator on the left of a line with `left_count` tabs hidden there:
/// present when the packer stopped with room for it and a tab is hidden. A
/// click on it selects the nearest hidden tab.
pub open spec fn left_indicator(
    collapsed: bool,
    left_count: nat,
    palette: Styling,
    separator: Seq<char>,
) -> Seq<LinePartView> {
    if collapsed && left_count > 0 {
        seq![left_more_view(left_count, palette, separator, capped_index((left_count - 1) as nat))]
    } else {
        seq![]
    }
}

/// The indicator on the right of a line that shows `shown` pieces after
/// `left_count` hidden tabs and hides `right_count` tabs on the right.
pub open spec fn right_indicator(
    collapsed: bool,
    left_count: nat,
    shown: nat,
    right_count: nat,
    palette: Styling,
    separator: Seq<char>,
) -> Seq<LinePartView> {
    if collapsed && right_count > 0 {
        seq![right_more_view(right_count, palette, separator, capped_index(left_count + shown))]
    } else {
        seq![]
    }
}

/// The line that the packer makes of the tabs `before` and `after` the pieces
/// of `middle`: the tabs taken on the left, the middle, the tabs taken on the
/// right, between the indicators for what stays hidden.
pub open spec fn packed_line(
    before: Seq<LinePartView>,
    after: Seq<LinePartView>,
    middle: Seq<LinePartView>,
    cols: nat,
    palette: Styling,
    separator: Seq<char>,
) -> Seq<LinePartView> {
    let packing = pack_input(before, after, middle, separator, cols).packing();
    let left_count = (before.len() - packing.taken_left) as nat;
    let right_count = (after.len() - packing.taken_right) as nat;
    let shown = packing.taken_left + middle.len() + packing.taken_right;
    left_indicator(packing.collapsed, left_count, palette, separator) + before.subrange(
        left_count as int,
        before.len() as int,
    ) + middle + after.take(packing.taken_right as int) + right_indicator(
        packing.collapsed,
        left_count,
        shown,
        right_count,
        palette,
        separator,
    )
}

/// The packer takes no more tabs than there are, and gives none back.
pub proof fn lemma_run_bounds(input: PackInput, l: nat, r: nat)
    requires
        l <= input.before.len(),
        r <= input.after.len(),
    ensures
        l <= input.run(l, r).taken_left <= input.before.len(),
        r <= input.run(l, r).taken_right <= input.after.len(),
    decreases input.before.len() + input.after.len() - l - r,
{
    match input.step(l, r) {
        Step::TakeLeft => lemma_run_bounds(input, l + 1, r),
        Step::TakeRight => lemma_run_bounds(input, l, r + 1),
        _ => {},
    }
}

/// The line of a packing that ends with `l` tabs taken on the left and `r` on
/// the right, between the given indicators.
proof fn lemma_packed_line_shape(
    before: Seq<LinePart>,
    after: Seq<LinePart>,
    middle: Seq<LinePart>,
    left_more: Seq<LinePart>,
    right_more: Seq<LinePart>,
    l: nat,
    r: nat,
    cols: nat,
    palette: Styling,
    separator: Seq<char>,
)
    requires
        l <= before.len(),
        r <= after.len(),
        ({
            let packing = pack_input(
                views(before),
                views(after),
                views(middle),
                separator,
                cols,
            ).packing();
            &&& packing.taken_left == l
            &&& packing.taken_right == r
            &&& views(left_more) == left_indicator(
                packing.collapsed,
                (before.len() - l) as nat,
                palette,
                separator,
            )
            &&& views(right_more) == right_indicator(
                packing.collapsed,
                (before.len() - l) as nat,
                l + middle.len() + r,
                (after.len() - r) as nat,
                palette,
                separator,
            )
        }),
    ensures
        views(
            left_more + before.subrange(before.len() - l, before.len() as int) + middle
                + after.take(r as int) + right_more,
        ) == packed_line(views(before), views(after), views(middle), cols, palette, separator),
{
    let shown = left_more + before.subrange(before.len() - l, before.len() as int) + middle
        + after.take(r as int) + right_more;
    assert(views(shown) =~= views(left_more) + views(before).subrange(
        before.len() - l,
        before.len() as int,
    ) + views(middle) + views(after).take(r as int) + views(right_more));
}

/// The columns of `parts`, if the sum fits a `usize`.
pub(crate) fn exact_title_len(parts: &Vec<LinePart>) -> (total: Option<usize>)
    ensures
        match total {
            Some(n) => n as nat == total_len(views(parts@)),
            None => total_len(views(parts@)) > usize::MAX,
        },
{
    let mut total: usize = 0;
    let mut i: usize = 0;
    while i < parts.len()
        invariant
            i <= parts.len(),
            total as nat == total_len(views(parts@.take(i as int))),
        decreases parts.len() - i,
    {
        proof {
            let next = parts@.take(i as int + 1);
            assert(views(next).drop_last() =~= views(parts@.take(i as int)));
            assert(views(next).last() == parts@[i as int]@);
            assert(parts@ =~= next + parts@.skip(i as int + 1));
            assert(views(parts@) =~= views(next) + views(parts@.skip(i as int + 1)));
            lemma_total_len_concat(views(next), views(parts@.skip(i as int + 1)));
        }
        match total.checked_add(parts[i].len) {
            Some(sum) => {
                total = sum;
            },
            None => {
                return None;
            },
        }
        i = i + 1;
    }
    proof {
        assert(parts@.take(i as int) =~= parts@);
    }
    Some(total)
}

/// Decides the round from the widths at hand.
pub fn choose_step(
    left: Option<usize>,
    right: Option<usize>,
    collapsed_left: usize,
    collapsed_right: usize,
    last_left: bool,
    last_right: bool,
    middle_size: usize,
    total_left: usize,
    total_right: usize,
    cols: usize,
) -> (step: Step)
    ensures
        step == decide(
            optional_width(left),
            optional_width(right),
            collapsed_left as nat,
            collapsed_right as nat,
            last_left,
            last_right,
            middle_size as nat,
            total_left as nat,
            total_right as nat,
            cols as nat,
        ),
{
    let total_size: u128 = collapsed_left as u128 + middle_size as u128 + collapsed_right as u128;
    if total_size > cols as u128 {
        return Step::Overflow;
    }
    let left_fits = match left {
        Some(width) => {
            // the line is shorter if the tab is the last one, as its indicator goes
            let gone: u128 = if last_left {
                collapsed_left as u128
            } else {
                0
            };
            width as u128 + total_size - gone <= cols as u128
        },
        None => false,
    };
    let right_fits = match right {
        Some(width) => {
            let gone: u128 = if last_right {
                collapsed_right as u128
            } else {
                0
            };
            width as u128 + total_size - gone <= cols as u128
        },
        None => false,
    };
    // the active tab is kept in the middle by adding to the side that
    // has less width, or if the tab on the other side does not fit
    if (total_left <= total_right || !right_fits) && left_fits {
        Step::TakeLeft
    } else if right_fits {
        Step::TakeRight
    } else {
        Step::Collapse
    }
}

/// Moves tabs from `tabs_before_active` and `tabs_after_active` into
/// `tabs_to_render` while they fit in `cols`, nearest first, and puts an
/// indicator at either end for the tabs that are left over.
#[verifier::rlimit(40)]
pub fn populate_tabs_in_tab_line(
    tabs_before_active: &mut Vec<LinePart>,
    tabs_after_active: &mut Vec<LinePart>,
    tabs_to_render: &mut Vec<LinePart>,
    cols: usize,
    palette: Styling,
    capabilities: PluginCapabilities,
)
    ensures
        views(final(tabs_to_render)@) == packed_line(
            views(old(tabs_before_active)@),
            views(old(tabs_after_active)@),
            views(old(tabs_to_render)@),
            cols as nat,
            palette,
            separator_text(capabilities),
        ),
        ({
            let packing = pack_input(
                views(old(tabs_before_active)@),
                views(old(tabs_after_active)@),
                views(old(tabs_to_render)@),
                separator_text(capabilities),
                cols as nat,
            ).packing();
            &&& final(tabs_before_active)@ == old(tabs_before_active)@.take(
                old(tabs_before_active)@.len() - packing.taken_left,
            )
            &&& final(tabs_after_active)@ == old(tabs_after_active)@.skip(
                packing.taken_right as int,
            )
        }),
{
    let ghost before = tabs_before_active@;
    let ghost after = tabs_after_active@;
    let ghost middle = tabs_to_render@;
    let ghost separator = separator_text(capabilities);
    let ghost input = pack_input(views(before), views(after), views(middle), separator, cols as nat);
    let ghost mut l: nat = 0;
    let ghost mut r: nat = 0;
    let ghost mut left_more: Seq<LinePart> = Seq::empty();
    let ghost mut right_more: Seq<LinePart> = Seq::empty();

    let mut middle_size: usize = match exact_title_len(tabs_to_render) {
        Some(size) => size,
        None => {
            proof {
                assert(input.step(0, 0) is Overflow);
                assert(tabs_to_render@ =~= left_more + before.subrange(
                    before.len() - l,
                    before.len() as int,
                ) + middle + after.take(r as int) + right_more);
                assert(tabs_before_active@ =~= before.take(before.len() - l));
                assert(tabs_after_active@ =~= after.skip(r as int));
                assert(views(left_more) =~= Seq::<LinePartView>::empty());
                assert(views(right_more) =~= Seq::<LinePartView>::empty());
                lemma_packed_line_shape(
                    before,
                    after,
                    middle,
                    left_more,
                    right_more,
                    l,
                    r,
                    cols as nat,
                    palette,
                    separator,
                );
            }
            return ;
        },
    };
    let mut total_left: usize = 0;
    let mut total_right: usize = 0;
    proof {
        assert(before.subrange(before.len() as int, before.len() as int) + middle + after.take(0)
            =~= middle);
        assert(tabs_before_active@ =~= before.take(before.len() - l));
        assert(tabs_after_active@ =~= after.skip(r as int));
    }
    loop
        invariant_except_break
            left_more == Seq::<LinePart>::empty(),
            right_more == Seq::<LinePart>::empty(),
            tabs_to_render@ == before.subrange(before.len() - l, before.len() as int) + middle
                + after.take(r as int),
            middle_size as nat == input.middle_width(l, r),
            total_left as nat == input.total_left(l),
            total_right as nat == input.total_right(r),
            input.run(l, r) == input.packing(),
        invariant
            l <= before.len(),
            r <= after.len(),
            tabs_before_active@ == before.take(before.len() - l),
            tabs_after_active@ == after.skip(r as int),
            input == pack_input(views(before), views(after), views(middle), separator, cols as nat),
            separator == separator_text(capabilities),
        ensures
            input.packing().taken_left == l,
            input.packing().taken_right == r,
            tabs_to_render@ == left_more + before.subrange(before.len() - l, before.len() as int)
                + middle + after.take(r as int) + right_more,
            views(left_more) == left_indicator(
                input.packing().collapsed,
                (before.len() - l) as nat,
                palette,
                separator,
            ),
            views(right_more) == right_indicator(
                input.packing().collapsed,
                (before.len() - l) as nat,
                l + middle.len() + r,
                (after.len() - r) as nat,
                palette,
                separator,
            ),
        decreases tabs_before_active.len() + tabs_after_active.len(),
    {
        let left_count = tabs_before_active.len();
        let right_count = tabs_after_active.len();

        // the tab to the left of the leftmost visible tab
        let left_more_tab_index = left_count.saturating_sub(1);
        let collapsed_left = left_more_message(
            left_count,
            palette,
            tab_separator(capabilities),
            left_more_tab_index,
        );
        // the tab to the right of the rightmost visible tab
        let right_more_tab_index = left_count.saturating_add(tabs_to_render.len());
        let collapsed_right = right_more_message(
            right_count,
            palette,
            tab_separator(capabilities),
            right_more_tab_index,
        );
        let left = if left_count > 0 {
            Some(tabs_before_active[left_count - 1].len)
        } else {
            None
        };
        let right = if right_count > 0 {
            Some(tabs_after_active[0].len)
        } else {
            None
        };
        let step = choose_step(
            left,
            right,
            collapsed_left.len,
            collapsed_right.len,
            left_count == 1,
            right_count == 1,
            middle_size,
            total_left,
            total_right,
            cols,
        );
        assert(step == input.step(l, r));
        match step {
            Step::Overflow => {
                // the indicators do not fit: leave them out
                proof {
                    assert(tabs_to_render@ =~= left_more + tabs_to_render@ + right_more);
                    assert(views(left_more) =~= Seq::<LinePartView>::empty());
                    assert(views(right_more) =~= Seq::<LinePartView>::empty());
                }
                break ;
            },
            Step::TakeLeft => {
                let tab = tabs_before_active.pop().unwrap();
                middle_size = middle_size + tab.len;
                total_left = total_left + tab.len;
                tabs_to_render.insert(0, tab);
                proof {
                    l = l + 1;
                    assert(tabs_before_active@ =~= before.take(before.len() - l));
                    assert(tabs_to_render@ =~= before.subrange(
                        before.len() - l,
                        before.len() as int,
                    ) + middle + after.take(r as int));
                }
            },
            Step::TakeRight => {
                let tab = tabs_after_active.remove(0);
                middle_size = middle_size + tab.len;
                total_right = total_right + tab.len;
                tabs_to_render.push(tab);
                proof {
                    r = r + 1;
                    assert(tabs_after_active@ =~= after.skip(r as int));
                    assert(tabs_to_render@ =~= before.subrange(
                        before.len() - l,
                        before.len() as int,
                    ) + middle + after.take(r as int));
                }
            },
            Step::Collapse => {
                // no room for more tabs, or no more tabs
                let ghost shown = tabs_to_render@;
                if left_count > 0 {
                    proof {
                        left_more = seq![collapsed_left];
                    }
                    tabs_to_render.insert(0, collapsed_left);
                }
                if right_count > 0 {
                    proof {
                        right_more = seq![collapsed_right];
                    }
                    tabs_to_render.push(collapsed_right);
                }
                proof {
                    assert(tabs_to_render@ =~= left_more + shown + right_more);
                    assert(tabs_to_render@ =~= left_more + before.subrange(
                        before.len() - l,
                        before.len() as int,
                    ) + middle + after.take(r as int) + right_more);
                    assert(views(left_more) =~= left_indicator(
                        true,
                        (before.len() - l) as nat,
                        palette,
                        separator,
                    ));
                    assert(views(right_more) =~= right_indicator(
                        true,
                        (before.len() - l) as nat,
                        l + middle.len() + r,
                        (after.len() - r) as nat,
                        palette,
                        separator,
                    ));
                }
                break ;
            },
        }
    }
    proof {
        lemma_packed_line_shape(
            before,
            after,
            middle,
            left_more,
            right_more,
            l,
            r,
            cols as nat,
            palette,
            separator,
        );
    }
}

} // verus!
