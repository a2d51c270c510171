//! What holds of every line that the packer makes.

use crate::pack::{
    left_indicator, pack_input, packed_line, part_widths, right_indicator, PackInput, Packing, Step,
};
use crate::paint::Styling;
use crate::span::{lemma_total_len_concat, lemma_total_len_one, total_len, LinePartView};
use vstd::prelude::*;

verus! {

impl PackInput {
    /// The columns of the line that a packing shows: the tabs with both
    /// indicators if it stopped with room for them, else the tabs alone.
    pub open spec fn packed_width(self, packing: Packing) -> nat {
        if packing.collapsed {
            self.total_size(packing.taken_left, packing.taken_right)
        } else {
            self.middle_width(packing.taken_left, packing.taken_right)
        }
    }

    /// The widest of the `l` tabs nearest to the active one on the left.
    pub open spec fn widest_left(self, l: nat) -> nat
        decreases l,
    {
        if l == 0 || l > self.before.len() {
            0
        } else {
            let rest = self.widest_left((l - 1) as nat);
            let tab = self.before[self.before.len() - l];
            if tab > rest {
                tab
            } else {
                rest
            }
        }
    }

    /// The widest of the `r` tabs nearest to the active one on the right.
    pub open spec fn widest_right(self, r: nat) -> nat
        decreases r,
    {
        if r == 0 || r > self.after.len() {
            0
        } else {
            let rest = self.widest_right((r - 1) as nat);
            let tab = self.after[r - 1];
            if tab > rest {
                tab
            } else {
                rest
            }
        }
    }

    /// The widest of the tabs taken.
    pub open spec fn widest_taken(self, l: nat, r: nat) -> nat {
        if self.widest_left(l) > self.widest_right(r) {
            self.widest_left(l)
        } else {
            self.widest_right(r)
        }
    }

    /// The width of the tab that the packer takes last when it goes on from
    /// `l` tabs taken on the left and `r` on the right; `last` if it takes
    /// none.
    pub open spec fn last_taken(self, l: nat, r: nat, last: nat) -> nat
        decreases self.before.len() + self.after.len() - l - r,
    {
        if l > self.before.len() || r > self.after.len() {
            last
        } else {
            match self.step(l, r) {
                Step::TakeLeft => self.last_taken(l + 1, r, self.before[self.before.len() - l - 1]),
                Step::TakeRight => self.last_taken(l, r + 1, self.after[r as int]),
                _ => last,
            }
        }
    }

    /// From `l` tabs taken on the left and `r` on the right on, every tab
    /// that the packer takes comes from the side that has received fewer
    /// columns, the left one if both have as many.
    pub open spec fn takes_lighter_side(self, l: nat, r: nat) -> bool
        decreases self.before.len() + self.after.len() - l - r,
    {
        if l > self.before.len() || r > self.after.len() {
            true
        } else {
            match self.step(l, r) {
                Step::TakeLeft => self.total_left(l) <= self.total_right(r)
                    && self.takes_lighter_side(l + 1, r),
                Step::TakeRight => self.total_left(l) > self.total_right(r)
                    && self.takes_lighter_side(l, r + 1),
                _ => true,
            }
        }
    }

    /// From `l` tabs taken on the left and `r` on the right on, the packer
    /// never passes over a tab for want of room: whenever it takes a tab
    /// from the side that has received more columns, the other side has none
    /// left.
    pub open spec fn never_skips(self, l: nat, r: nat) -> bool
        decreases self.before.len() + self.after.len() - l - r,
    {
        if l > self.before.len() || r > self.after.len() {
            true
        } else {
            match self.step(l, r) {
                Step::TakeLeft => (self.total_left(l) <= self.total_right(r) || r
                    == self.after.len()) && self.never_skips(l + 1, r),
                Step::TakeRight => (self.total_left(l) > self.total_right(r) || l
                    == self.before.len()) && self.never_skips(l, r + 1),
                _ => true,
            }
        }
    }

    /// The same tabs with other room.
    pub open spec fn with_cols(self, cols: nat) -> PackInput {
        PackInput { cols, ..self }
    }
}

/// The absolute difference of two counts.
pub open spec fn distance(a: nat, b: nat) -> nat {
    if a >= b {
        (a - b) as nat
    } else {
        (b - a) as nat
    }
}

proof fn lemma_run_fits(input: PackInput, l: nat, r: nat)
    requires
        l <= input.before.len(),
        r <= input.after.len(),
        input.middle_width(l, r) <= input.cols,
    ensures
        input.packed_width(input.run(l, r)) <= input.cols,
    decreases input.before.len() + input.after.len() - l - r,
{
    match input.step(l, r) {
        Step::TakeLeft => {
            lemma_run_fits(input, l + 1, r);
        },
        Step::TakeRight => {
            lemma_run_fits(input, l, r + 1);
        },
        _ => {},
    }
}

/// A line that starts within the room stays within it: the packer shows no
/// more columns than it was given.
pub proof fn lemma_packing_fits(input: PackInput)
    requires
        input.middle <= input.cols,
    ensures
        input.packed_width(input.packing()) <= input.cols,
{
    lemma_run_fits(input, 0, 0);
}

proof fn lemma_taken_left_len(before: Seq<LinePartView>, input: PackInput, l: nat)
    requires
        input.before == part_widths(before),
        l <= before.len(),
    ensures
        total_len(before.subrange(before.len() - l, before.len() as int)) == input.total_left(l),
    decreases l,
{
    let taken = before.subrange(before.len() - l, before.len() as int);
    if l == 0 {
        assert(taken =~= Seq::<LinePartView>::empty());
    } else {
        let first = before[before.len() - l];
        let rest = before.subrange(before.len() - (l - 1), before.len() as int);
        assert(taken =~= seq![first] + rest);
        lemma_total_len_concat(seq![first], rest);
        lemma_total_len_one(first);
        lemma_taken_left_len(before, input, (l - 1) as nat);
    }
}

proof fn lemma_taken_right_len(after: Seq<LinePartView>, input: PackInput, r: nat)
    requires
        input.after == part_widths(after),
        r <= after.len(),
    ensures
        total_len(after.take(r as int)) == input.total_right(r),
    decreases r,
{
    if r == 0 {
        assert(after.take(0) =~= Seq::<LinePartView>::empty());
    } else {
        assert(after.take(r as int).drop_last() =~= after.take(r - 1));
        lemma_taken_right_len(after, input, (r - 1) as nat);
    }
}

/// The columns of the packed line are those of the tabs shown, and of the
/// indicators where the packer stopped with room for them.
pub proof fn lemma_packed_line_width(
    before: Seq<LinePartView>,
    after: Seq<LinePartView>,
    middle: Seq<LinePartView>,
    cols: nat,
    palette: Styling,
    separator: Seq<char>,
)
    ensures
        ({
            let input = pack_input(before, after, middle, separator, cols);
            total_len(packed_line(before, after, middle, cols, palette, separator))
                == input.packed_width(input.packing())
        }),
{
    let input = pack_input(before, after, middle, separator, cols);
    let packing = input.packing();
    crate::pack::lemma_run_bounds(input, 0, 0);
    let l = packing.taken_left;
    let r = packing.taken_right;
    let left_count = (before.len() - l) as nat;
    let right_count = (after.len() - r) as nat;
    let left_more = left_indicator(packing.collapsed, left_count, palette, separator);
    let right_more = right_indicator(
        packing.collapsed,
        left_count,
        l + middle.len() + r,
        right_count,
        palette,
        separator,
    );
    let taken_left = before.subrange(left_count as int, before.len() as int);
    let taken_right = after.take(r as int);
    lemma_taken_left_len(before, input, l);
    lemma_taken_right_len(after, input, r);
    lemma_total_len_concat(left_more, taken_left);
    lemma_total_len_concat(left_more + taken_left, middle);
    lemma_total_len_concat(left_more + taken_left + middle, taken_right);
    lemma_total_len_concat(left_more + taken_left + middle + taken_right, right_more);
    if packing.collapsed && left_count > 0 {
        lemma_total_len_one(left_more[0]);
        assert(left_more =~= seq![left_more[0]]);
    } else {
        assert(total_len(left_more) == 0);
    }
    if packing.collapsed && right_count > 0 {
        lemma_total_len_one(right_more[0]);
        assert(right_more =~= seq![right_more[0]]);
    } else {
        assert(total_len(right_more) == 0);
    }
}

/// Within the room: when what is shown from the start fits in `cols`, so
/// does the packed line.
pub proof fn lemma_packed_line_fits(
    before: Seq<LinePartView>,
    after: Seq<LinePartView>,
    middle: Seq<LinePartView>,
    cols: nat,
    palette: Styling,
    separator: Seq<char>,
)
    requires
        total_len(middle) <= cols,
    ensures
        total_len(packed_line(before, after, middle, cols, palette, separator)) <= cols,
{
    lemma_packed_line_width(before, after, middle, cols, palette, separator);
    lemma_packing_fits(pack_input(before, after, middle, separator, cols));
}

proof fn lemma_balance_from(input: PackInput, l: nat, r: nat)
    requires
        l <= input.before.len(),
        r <= input.after.len(),
        input.takes_lighter_side(l, r),
        distance(input.total_left(l), input.total_right(r)) <= input.widest_taken(l, r),
    ensures
        ({
            let packing = input.run(l, r);
            distance(
                input.total_left(packing.taken_left),
                input.total_right(packing.taken_right),
            ) <= input.widest_taken(packing.taken_left, packing.taken_right)
        }),
    decreases input.before.len() + input.after.len() - l - r,
{
    match input.step(l, r) {
        Step::TakeLeft => {
            lemma_balance_from(input, l + 1, r);
        },
        Step::TakeRight => {
            lemma_balance_from(input, l, r + 1);
        },
        _ => {},
    }
}

proof fn lemma_last_taken_bound(input: PackInput, l: nat, r: nat, last: nat)
    requires
        l <= input.before.len(),
        r <= input.after.len(),
        last <= input.widest_taken(l, r),
    ensures
        ({
            let packing = input.run(l, r);
            input.last_taken(l, r, last) <= input.widest_taken(
                packing.taken_left,
                packing.taken_right,
            )
        }),
    decreases input.before.len() + input.after.len() - l - r,
{
    match input.step(l, r) {
        Step::TakeLeft => {
            lemma_last_taken_bound(input, l + 1, r, input.before[input.before.len() - l - 1]);
        },
        Step::TakeRight => {
            lemma_last_taken_bound(input, l, r + 1, input.after[r as int]);
        },
        _ => {},
    }
}

/// Balance: when every tab was taken from the side that had received fewer
/// columns, the columns taken on the two sides differ by no more than the
/// widest tab taken; and by no more than the tab taken last, where none of
/// the others is wider than that one.
pub proof fn lemma_balance(input: PackInput)
    requires
        input.takes_lighter_side(0, 0),
    ensures
        ({
            let packing = input.packing();
            let left = input.total_left(packing.taken_left);
            let right = input.total_right(packing.taken_right);
            let widest = input.widest_taken(packing.taken_left, packing.taken_right);
            &&& distance(left, right) <= widest
            &&& input.last_taken(0, 0, 0) <= widest
            &&& input.last_taken(0, 0, 0) == widest ==> distance(left, right) <= input.last_taken(
                0,
                0,
                0,
            )
        }),
{
    lemma_balance_from(input, 0, 0);
    lemma_last_taken_bound(input, 0, 0, 0);
}

/// Indicators: where the packer stopped with room for them, an indicator
/// stands at an end of the line if and only if a tab is hidden there; where
/// it stopped for want of room, none stands at either end.
pub proof fn lemma_indicator_iff_hidden(
    before: Seq<LinePartView>,
    after: Seq<LinePartView>,
    middle: Seq<LinePartView>,
    cols: nat,
    palette: Styling,
    separator: Seq<char>,
)
    ensures
        ({
            let input = pack_input(before, after, middle, separator, cols);
            let packing = input.packing();
            let left_count = (before.len() - packing.taken_left) as nat;
            let right_count = (after.len() - packing.taken_right) as nat;
            let shown = packing.taken_left + middle.len() + packing.taken_right;
            let left_more = left_indicator(packing.collapsed, left_count, palette, separator);
            let right_more = right_indicator(
                packing.collapsed,
                left_count,
                shown,
                right_count,
                palette,
                separator,
            );
            &&& packing.taken_left <= before.len()
            &&& packing.taken_right <= after.len()
            &&& packed_line(before, after, middle, cols, palette, separator).len() == left_more.len()
                + shown + right_more.len()
            &&& left_more.len() <= 1
            &&& right_more.len() <= 1
            &&& packing.collapsed ==> (left_more.len() == 1 <==> packing.taken_left < before.len())
            &&& packing.collapsed ==> (right_more.len() == 1 <==> packing.taken_right
                < after.len())
            &&& !packing.collapsed ==> left_more.len() == 0 && right_more.len() == 0
            &&& packing.collapsed <==> input.total_size(packing.taken_left, packing.taken_right)
                <= cols
        }),
{
    let input = pack_input(before, after, middle, separator, cols);
    crate::pack::lemma_run_bounds(input, 0, 0);
    lemma_run_collapsed(input, 0, 0);
}

proof fn lemma_run_collapsed(input: PackInput, l: nat, r: nat)
    requires
        l <= input.before.len(),
        r <= input.after.len(),
    ensures
        ({
            let packing = input.run(l, r);
            packing.collapsed <==> input.total_size(packing.taken_left, packing.taken_right)
                <= input.cols
        }),
    decreases input.before.len() + input.after.len() - l - r,
{
    match input.step(l, r) {
        Step::TakeLeft => {
            lemma_run_collapsed(input, l + 1, r);
        },
        Step::TakeRight => {
            lemma_run_collapsed(input, l, r + 1);
        },
        _ => {},
    }
}

proof fn lemma_more_room_from(input: PackInput, cols: nat, l: nat, r: nat)
    requires
        l <= input.before.len(),
        r <= input.after.len(),
        input.cols <= cols,
        input.never_skips(l, r),
    ensures
        input.run(l, r).taken_left <= input.with_cols(cols).run(l, r).taken_left,
        input.run(l, r).taken_right <= input.with_cols(cols).run(l, r).taken_right,
    decreases input.before.len() + input.after.len() - l - r,
{
    let more = input.with_cols(cols);
    assert(more.total_left(l) == input.total_left(l)) by {
        lemma_same_totals(input, cols, l, r);
    }
    assert(more.total_right(r) == input.total_right(r)) by {
        lemma_same_totals(input, cols, l, r);
    }
    match input.step(l, r) {
        Step::TakeLeft => {
            assert(more.step(l, r) is TakeLeft);
            lemma_more_room_from(input, cols, l + 1, r);
        },
        Step::TakeRight => {
            assert(more.step(l, r) is TakeRight);
            lemma_more_room_from(input, cols, l, r + 1);
        },
        _ => {
            crate::pack::lemma_run_bounds(more, l, r);
        },
    }
}

proof fn lemma_same_totals(input: PackInput, cols: nat, l: nat, r: nat)
    ensures
        input.with_cols(cols).total_left(l) == input.total_left(l),
        input.with_cols(cols).total_right(r) == input.total_right(r),
    decreases l + r,
{
    if l > 0 {
        lemma_same_totals(input, cols, (l - 1) as nat, r);
    }
    if r > 0 {
        lemma_same_totals(input, cols, l, (r - 1) as nat);
    }
}

/// More room, no fewer tabs: if the packer never passed over a tab for want
/// of room, then with more room it takes at least as many tabs on either
/// side.
pub proof fn lemma_more_room_more_tabs(input: PackInput, cols: nat)
    requires
        input.cols <= cols,
        input.never_skips(0, 0),
    ensures
        input.packing().taken_left <= input.with_cols(cols).packing().taken_left,
        input.packing().taken_right <= input.with_cols(cols).packing().taken_right,
{
    lemma_more_room_from(input, cols, 0, 0);
}

/// The same tabs in the same room give the same line: two lines that the
/// packer makes of equal input are equal.
pub proof fn lemma_same_input_same_packing(
    before: Seq<LinePartView>,
    after: Seq<LinePartView>,
    middle: Seq<LinePartView>,
    cols: nat,
    palette: Styling,
    separator: Seq<char>,
    first: Seq<LinePartView>,
    second: Seq<LinePartView>,
)
    requires
        first == packed_line(before, after, middle, cols, palette, separator),
        second == packed_line(before, after, middle, cols, palette, separator),
    ensures
        first == second,
{
}

} // verus!
