//! The whole bar: the head, the tabs around the active one, and what is
//! shown at the right end.

use crate::group_controls::{group_controls_view, render_group_controls, ModeInfo};
use crate::keys::KeyBinding;
use crate::pack::{
    exact_title_len, lemma_run_bounds, pack_input, packed_line, populate_tabs_in_tab_line,
};
use crate::pack_laws::lemma_packed_line_fits;
use crate::paint::{paint, painted, Styling, TextStyle};
use crate::prefix::{optional_text, prefix_view, tab_line_prefix, InputMode};
use crate::separator::{separator_text, tab_separator, PluginCapabilities};
use crate::span::{
    lemma_total_len_concat, lemma_total_len_one, total_len, views, LinePart, LinePartView,
};
use crate::swap_layout::{optional_string, optional_view, swap_layout_status, swap_layout_view};
use crate::text::{repeat, repeated};
use vstd::prelude::*;

verus! {

/// What the bar is drawn from.
pub struct TabLineInput {
    /// The name of the session, if it has one.
    pub session_name: Option<Seq<char>>,
    /// All the tabs, in their order.
    pub all_tabs: Seq<LinePartView>,
    /// The place of the active tab among them.
    pub active_tab_index: int,
    /// The columns of the bar.
    pub cols: nat,
    pub palette: Styling,
    pub capabilities: PluginCapabilities,
    /// Whether the session's name is left out.
    pub hide_session_name: bool,
    pub mode: InputMode,
    /// The name of the active swap layout, if there is one.
    pub active_swap_layout_name: Option<Seq<char>>,
    /// Whether that layout was changed by hand.
    pub is_swap_layout_dirty: bool,
    /// The keys bound in the current mode.
    pub keybinds: Seq<KeyBinding>,
    pub currently_marking_pane_group: Option<bool>,
    /// The colours of the controls for a group of panes.
    pub colors: Styling,
    /// The number of panes in the group, if panes are grouped.
    pub grouped_pane_count: Option<usize>,
}

/// `n` blank columns in the bar's background.
pub open spec fn padding_view(n: nat, palette: Styling) -> LinePartView {
    let bg = palette.text_unselected.background;
    LinePartView {
        part: repeated(
            painted(
                TextStyle { foreground: bg, background: bg, bold: false, italic: false },
                " "@,
            ),
            n,
        ),
        len: n,
        tab_index: None,
    }
}

impl TabLineInput {
    /// The head of the bar.
    pub open spec fn prefix(self) -> Seq<LinePartView> {
        prefix_view(
            if self.hide_session_name {
                None
            } else {
                self.session_name
            },
            self.mode,
            self.palette,
            self.cols,
        )
    }

    /// The active tab.
    pub open spec fn active_tab(self) -> LinePartView {
        self.all_tabs[self.active_tab_index]
    }

    /// Whether the head leaves room for the active tab.
    pub open spec fn has_room_for_tabs(self) -> bool {
        total_len(self.prefix()) + self.active_tab().len <= self.cols
    }

    /// The tabs shown in what the head leaves of the bar.
    pub open spec fn tabs(self) -> Seq<LinePartView> {
        packed_line(
            self.all_tabs.take(self.active_tab_index),
            self.all_tabs.skip(self.active_tab_index + 1),
            seq![self.active_tab()],
            (self.cols - total_len(self.prefix())) as nat,
            self.palette,
            separator_text(self.capabilities),
        )
    }

    /// What stands at the right end in `max_len` columns: the controls for
    /// the group of panes where panes are grouped, else the swap layout.
    pub open spec fn right_side(self, max_len: nat) -> Option<LinePartView> {
        match self.grouped_pane_count {
            Some(count) => group_controls_view(
                self.keybinds,
                self.currently_marking_pane_group,
                self.colors,
                count as nat,
                max_len,
            ),
            None => swap_layout_view(
                max_len,
                self.active_swap_layout_name,
                self.is_swap_layout_dirty,
                self.mode,
                self.palette,
                separator_text(self.capabilities),
            ),
        }
    }

    /// The bar. The head alone where it leaves no room for the active tab.
    /// Else the head and the tabs; and where columns are left over and
    /// something is to be shown at the right end in them, blank columns and
    /// that, so that it ends with the bar.
    pub open spec fn line(self) -> Seq<LinePartView> {
        if !self.has_room_for_tabs() {
            self.prefix()
        } else {
            let shown = self.prefix() + self.tabs();
            if total_len(shown) < self.cols {
                let remaining = (self.cols - total_len(shown)) as nat;
                match self.right_side(remaining) {
                    Some(status) => shown + seq![
                        padding_view((remaining - status.len) as nat, self.palette),
                        status,
                    ],
                    None => shown,
                }
            } else {
                shown
            }
        }
    }

    /// The place of the active tab in the bar, where the head leaves room
    /// for it.
    pub open spec fn active_place(self) -> int {
        let before = self.all_tabs.take(self.active_tab_index);
        let after = self.all_tabs.skip(self.active_tab_index + 1);
        let packing = pack_input(
            before,
            after,
            seq![self.active_tab()],
            separator_text(self.capabilities),
            (self.cols - total_len(self.prefix())) as nat,
        ).packing();
        self.prefix().len() + (if packing.collapsed && packing.taken_left < before.len() {
            1int
        } else {
            0int
        }) + packing.taken_left
    }
}

/// What is shown at the right end takes no more than the columns it is
/// given.
pub proof fn lemma_right_side_fits(input: TabLineInput, max_len: nat)
    ensures
        input.right_side(max_len) matches Some(status) ==> status.len <= max_len,
{
}

/// Within the bar: where the head leaves room for the active tab, the bar
/// takes no more than its columns.
pub proof fn lemma_line_fits(input: TabLineInput)
    requires
        0 <= input.active_tab_index < input.all_tabs.len(),
        input.has_room_for_tabs(),
    ensures
        total_len(input.line()) <= input.cols,
{
    let prefix = input.prefix();
    let room = (input.cols - total_len(prefix)) as nat;
    lemma_total_len_one(input.active_tab());
    lemma_packed_line_fits(
        input.all_tabs.take(input.active_tab_index),
        input.all_tabs.skip(input.active_tab_index + 1),
        seq![input.active_tab()],
        room,
        input.palette,
        separator_text(input.capabilities),
    );
    let shown = prefix + input.tabs();
    lemma_total_len_concat(prefix, input.tabs());
    if total_len(shown) < input.cols {
        let remaining = (input.cols - total_len(shown)) as nat;
        lemma_right_side_fits(input, remaining);
        match input.right_side(remaining) {
            Some(status) => {
                let padding = padding_view((remaining - status.len) as nat, input.palette);
                let tail = seq![padding, status];
                assert(tail.drop_last() =~= seq![padding]);
                lemma_total_len_one(padding);
                lemma_total_len_concat(shown, tail);
            },
            None => {},
        }
    }
}

/// The active tab is shown: where the head leaves room for it, it stands in
/// the bar.
pub proof fn lemma_active_tab_shown(input: TabLineInput)
    requires
        0 <= input.active_tab_index < input.all_tabs.len(),
        input.has_room_for_tabs(),
    ensures
        0 <= input.active_place() < input.line().len(),
        input.line()[input.active_place()] == input.active_tab(),
{
    let before = input.all_tabs.take(input.active_tab_index);
    let after = input.all_tabs.skip(input.active_tab_index + 1);
    let pack = pack_input(
        before,
        after,
        seq![input.active_tab()],
        separator_text(input.capabilities),
        (input.cols - total_len(input.prefix())) as nat,
    );
    lemma_run_bounds(pack, 0, 0);
}

/// The same input gives the same bar: two bars drawn from equal input are
/// equal.
pub proof fn lemma_same_input_same_line(
    input: TabLineInput,
    first: Seq<LinePartView>,
    second: Seq<LinePartView>,
)
    requires
        first == input.line(),
        second == input.line(),
    ensures
        first == second,
{
}

/// Builds the bar in `cols` columns.
pub fn tab_line(
    session_name: Option<&str>,
    all_tabs: Vec<LinePart>,
    active_tab_index: usize,
    cols: usize,
    palette: Styling,
    capabilities: PluginCapabilities,
    hide_session_name: bool,
    mode: InputMode,
    active_swap_layout_name: &Option<String>,
    is_swap_layout_dirty: bool,
    mode_info: &ModeInfo,
    grouped_pane_count: Option<usize>,
) -> (line: Vec<LinePart>)
    requires
        active_tab_index < all_tabs.len(),
    ensures
        ({
            let input = TabLineInput {
                session_name: optional_text(session_name),
                all_tabs: views(all_tabs@),
                active_tab_index: active_tab_index as int,
                cols: cols as nat,
                palette,
                capabilities,
                hide_session_name,
                mode,
                active_swap_layout_name: optional_string(*active_swap_layout_name),
                is_swap_layout_dirty,
                keybinds: mode_info.keybinds@,
                currently_marking_pane_group: mode_info.currently_marking_pane_group,
                colors: mode_info.colors,
                grouped_pane_count,
            };
            &&& views(line@) == input.line()
            &&& input.has_room_for_tabs() ==> total_len(views(line@)) <= cols
            &&& input.has_room_for_tabs() ==> 0 <= input.active_place() < line@.len()
                && line@[input.active_place()]@ == all_tabs@[active_tab_index as int]@
        }),
{
    let ghost input = TabLineInput {
        session_name: optional_text(session_name),
        all_tabs: views(all_tabs@),
        active_tab_index: active_tab_index as int,
        cols: cols as nat,
        palette,
        capabilities,
        hide_session_name,
        mode,
        active_swap_layout_name: optional_string(*active_swap_layout_name),
        is_swap_layout_dirty,
        keybinds: mode_info.keybinds@,
        currently_marking_pane_group: mode_info.currently_marking_pane_group,
        colors: mode_info.colors,
        grouped_pane_count,
    };
    let ghost tabs = all_tabs@;
    let mut all_tabs = all_tabs;
    let mut tabs_after_active = all_tabs.split_off(active_tab_index);
    let mut tabs_before_active = all_tabs;
    let active_tab = tabs_after_active.remove(0);
    proof {
        assert(views(tabs_before_active@) =~= input.all_tabs.take(input.active_tab_index));
        assert(views(tabs_after_active@) =~= input.all_tabs.skip(input.active_tab_index + 1));
        assert(active_tab@ == input.active_tab());
    }
    let mut prefix = if hide_session_name {
        tab_line_prefix(None, mode, palette, cols)
    } else {
        tab_line_prefix(session_name, mode, palette, cols)
    };
    assert(views(prefix@) == input.prefix());
    let prefix_len = match exact_title_len(&prefix) {
        Some(len) => len,
        None => {
            return prefix;
        },
    };

    // if the active tab alone does not fit in cols, draw no tabs
    if prefix_len as u128 + active_tab.len as u128 > cols as u128 {
        return prefix;
    }
    proof {
        lemma_line_fits(input);
        lemma_active_tab_shown(input);
    }
    let mut tabs_to_render: Vec<LinePart> = Vec::new();
    tabs_to_render.push(active_tab);
    assert(views(tabs_to_render@) =~= seq![input.active_tab()]);

    populate_tabs_in_tab_line(
        &mut tabs_before_active,
        &mut tabs_after_active,
        &mut tabs_to_render,
        cols.saturating_sub(prefix_len),
        palette,
        capabilities,
    );
    assert(views(tabs_to_render@) == input.tabs());
    let ghost head = prefix@;
    let ghost packed = tabs_to_render@;
    prefix.append(&mut tabs_to_render);
    proof {
        assert(views(head + packed) =~= views(head) + views(packed));
        lemma_total_len_concat(input.prefix(), input.tabs());
        lemma_total_len_one(input.active_tab());
        lemma_packed_line_fits(
            input.all_tabs.take(input.active_tab_index),
            input.all_tabs.skip(input.active_tab_index + 1),
            seq![input.active_tab()],
            (input.cols - total_len(input.prefix())) as nat,
            input.palette,
            separator_text(input.capabilities),
        );
    }

    let current_title_len = crate::span::get_current_title_len(prefix.as_slice());
    if current_title_len < cols {
        let mut remaining_space = cols - current_title_len;
        let remaining_bg = palette.text_unselected.background;
        let right_side_component = match grouped_pane_count {
            Some(grouped_pane_count) => render_group_controls(
                mode_info,
                grouped_pane_count,
                remaining_space,
            ),
            None => swap_layout_status(
                remaining_space,
                active_swap_layout_name,
                is_swap_layout_dirty,
                mode,
                &palette,
                tab_separator(capabilities),
            ),
        };
        assert(optional_view(right_side_component) == input.right_side(remaining_space as nat));
        if let Some(right_side_component) = right_side_component {
            proof {
                lemma_right_side_fits(input, remaining_space as nat);
            }
            remaining_space = remaining_space - right_side_component.len;
            let cell = paint(TextStyle::new(remaining_bg, remaining_bg), " ");
            let buffer = repeat(cell.as_str(), remaining_space);
            let ghost shown = prefix@;
            let padding = LinePart { part: buffer, len: remaining_space, tab_index: None };
            prefix.push(padding);
            prefix.push(right_side_component);
            assert(views(prefix@) =~= views(shown) + seq![padding@, right_side_component@]);
        }
    }
    prefix
}

} // verus!
