//! The controls for a group of selected panes, shown at the right end of the
//! bar in the widest of three wordings that fits.

use crate::keys::{
    common_modifiers, get_common_modifiers, join_names, joined_names, modifiers_of,
    multiple_select_key, multiple_select_key_of, referred, single_action_key,
    single_action_key_of, Action, KeyBinding, KeyModifiers, KeyWithModifier,
};
use crate::paint::{paint_strip, painted_strip, styled_views, StyledText, Styling, TextStyle};
use crate::span::{LinePart, LinePartView};
use crate::swap_layout::optional_view;
use crate::text::{concat3, decimal, decimal_text, repeat, repeated};
use vstd::prelude::*;
use vstd::string::*;
use zellij_tile::ui_components::{serialize_ribbon, serialize_text, Text};

verus! {

/// What the bar knows of the input mode it is drawn in: the keys bound in
/// that mode, whether panes are being added to the group as they get the
/// focus, and the colours.
#[derive(Clone, Debug, PartialEq, Eq)]
pub struct ModeInfo {
    pub keybinds: Vec<KeyBinding>,
    pub currently_marking_pane_group: Option<bool>,
    pub colors: Styling,
}

/// How much the controls say.
#[derive(Clone, Copy, Debug, PartialEq, Eq, Structural)]
pub enum Tier {
    /// Each key with what it does, in words.
    Full,
    /// Each key with a single word.
    Medium,
    /// The keys alone.
    Short,
}

/// The controls in one wording, and the columns they take.
#[derive(Clone, Debug, PartialEq, Eq)]
pub struct GroupControls {
    pub tier: Tier,
    /// The modifiers that all the bound keys share, shown once.
    pub common_modifiers: KeyModifiers,
    /// The shared modifiers as shown: their names and ` + `, or nothing.
    pub common_modifier_text: String,
    /// The labels of the three keys, without the shared modifiers.
    pub multiple_select_key: String,
    pub pane_group_toggle_key: String,
    pub group_mark_toggle_key: String,
    /// How many panes are selected.
    pub selected_panes_text: String,
    /// The three keys, each in angle brackets with what it does.
    pub group_actions_text: String,
    pub toggle_group_text: String,
    pub group_mark_toggle_text: String,
    /// The columns of the controls.
    pub controls_line_len: usize,
}

/// The mathematical content of [`GroupControls`].
pub struct GroupControlsView {
    pub tier: Tier,
    pub common_modifiers: KeyModifiers,
    pub common_modifier_text: Seq<char>,
    pub multiple_select_key: Seq<char>,
    pub pane_group_toggle_key: Seq<char>,
    pub group_mark_toggle_key: Seq<char>,
    pub selected_panes_text: Seq<char>,
    pub group_actions_text: Seq<char>,
    pub toggle_group_text: Seq<char>,
    pub group_mark_toggle_text: Seq<char>,
    pub controls_line_len: nat,
}

impl View for GroupControls {
    type V = GroupControlsView;

    open spec fn view(&self) -> GroupControlsView {
        GroupControlsView {
            tier: self.tier,
            common_modifiers: self.common_modifiers,
            common_modifier_text: self.common_modifier_text@,
            multiple_select_key: self.multiple_select_key@,
            pane_group_toggle_key: self.pane_group_toggle_key@,
            group_mark_toggle_key: self.group_mark_toggle_key@,
            selected_panes_text: self.selected_panes_text@,
            group_actions_text: self.group_actions_text@,
            toggle_group_text: self.toggle_group_text@,
            group_mark_toggle_text: self.group_mark_toggle_text@,
            controls_line_len: self.controls_line_len as nat,
        }
    }
}

/// The columns that the ribbons add around their texts.
pub const RIBBON_PADDINGS_LEN: usize = 12;

/// The text component of the host for `text`, drawn opaque, with the
/// characters before `end` in the emphasis colour `level`.
pub uninterp spec fn serialized_text(text: Seq<char>, level: nat, end: nat) -> Seq<char>;

/// The ribbon component of the host for `text`, with the characters from the
/// second to the one at `key_len` in the first emphasis colour, drawn as
/// selected or not.
pub uninterp spec fn serialized_ribbon(text: Seq<char>, key_len: nat, selected: bool) -> Seq<char>;

/// The emphasis colours that the host knows are numbered from 0 to 3.
pub const EMPHASIS_LEVELS: usize = 4;

/// Builds a text component with `zellij_tile::ui_components::Text::new`,
/// `color_range` and `opaque`, and writes it with
/// `zellij_tile::ui_components::serialize_text`.
///
/// Trusted: what is written depends on the text, the level and the end of
/// the coloured range alone. The range is kept within the text and the level
/// among the emphasis colours, so that the component stays small.
#[verifier::external_body]
fn text_component(text: &str, level: usize, end: usize) -> (out: String)
    requires
        level < EMPHASIS_LEVELS,
        end <= text@.len(),
    ensures
        out@ == serialized_text(text@, level as nat, end as nat),
{
    serialize_text(&Text::new(text).color_range(level, ..end).opaque())
}

/// Builds a ribbon with `zellij_tile::ui_components::Text::new` and
/// `color_range`, and writes it with
/// `zellij_tile::ui_components::serialize_ribbon`.
///
/// Trusted: what is written depends on the text and the length of the key
/// alone. The key is kept within the text, so that the range can be counted
/// up to its end.
#[verifier::external_body]
fn ribbon_component(text: &str, key_len: usize) -> (out: String)
    requires
        key_len < usize::MAX,
        key_len <= text@.len(),
    ensures
        out@ == serialized_ribbon(text@, key_len as nat, false),
{
    serialize_ribbon(&Text::new(text).color_range(0, 1..=key_len))
}

/// As `ribbon_component`, for a ribbon marked as selected with
/// `zellij_tile::ui_components::Text::selected`.
#[verifier::external_body]
fn selected_ribbon_component(text: &str, key_len: usize) -> (out: String)
    requires
        key_len < usize::MAX,
        key_len <= text@.len(),
    ensures
        out@ == serialized_ribbon(text@, key_len as nat, true),
{
    serialize_ribbon(&Text::new(text).color_range(0, 1..=key_len).selected())
}

/// The modifiers of the keys that are bound, in the order of the three keys.
pub open spec fn bound_modifiers(
    multiple_select: Option<KeyWithModifier>,
    toggle_group: Option<KeyWithModifier>,
    follow_focus: Option<KeyWithModifier>,
) -> Seq<KeyModifiers> {
    (match multiple_select {
        Some(key) => seq![key.key_modifiers],
        None => seq![],
    }) + (match toggle_group {
        Some(key) => seq![key.key_modifiers],
        None => seq![],
    }) + (match follow_focus {
        Some(key) => seq![key.key_modifiers],
        None => seq![],
    })
}

/// The label of a key without the shared modifiers; `UNBOUND` where no key
/// is bound.
pub open spec fn key_text(key: Option<KeyWithModifier>, common: KeyModifiers) -> Seq<char> {
    match key {
        Some(key) => key.stripped(common).label(),
        None => "UNBOUND"@,
    }
}

/// The shared modifiers as shown: their names with `-` between them and
/// ` + ` behind, or nothing where no modifier is shared.
pub open spec fn common_modifier_text(common: KeyModifiers) -> Seq<char> {
    if common == KeyModifiers::none() {
        Seq::empty()
    } else {
        joined_names(common.list(), "-"@) + " + "@
    }
}

/// What the controls call the selection.
pub open spec fn selection_noun(tier: Tier) -> Seq<char> {
    match tier {
        Tier::Full => " SELECTED PANES"@,
        _ => " SELECTED"@,
    }
}

/// What the controls say of the key that acts on the group.
pub open spec fn group_actions_verb(tier: Tier) -> Seq<char> {
    match tier {
        Tier::Full => " Group Actions"@,
        Tier::Medium => " Actions"@,
        Tier::Short => ""@,
    }
}

/// What the controls say of the key that adds a pane to the group.
pub open spec fn toggle_group_verb(tier: Tier) -> Seq<char> {
    match tier {
        Tier::Full => " Toggle Group"@,
        Tier::Medium => " Toggle"@,
        Tier::Short => ""@,
    }
}

/// What the controls say of the key that makes the group follow the focus.
pub open spec fn follow_focus_verb(tier: Tier) -> Seq<char> {
    match tier {
        Tier::Full => " Follow Focus"@,
        Tier::Medium => " Follow"@,
        Tier::Short => ""@,
    }
}

/// The count of selected panes as shown, with a bar behind it where shared
/// modifiers follow.
pub open spec fn selected_panes_text(tier: Tier, count: nat, common: KeyModifiers) -> Seq<char> {
    decimal_text(count) + selection_noun(tier) + (if common == KeyModifiers::none() {
        ""@
    } else {
        " |"@
    })
}

/// A key in angle brackets with what it does.
pub open spec fn key_ribbon_text(key: Seq<char>, verb: Seq<char>) -> Seq<char> {
    "<"@ + key + ">"@ + verb
}

/// The controls in the wording `tier`, for `count` selected panes and the
/// keys bound in `keymap`. Their columns are the characters of the texts, a
/// blank, the twelve columns that the ribbons add, and one at the end.
pub open spec fn controls_in_tier(tier: Tier, count: nat, keymap: Seq<KeyBinding>)
    -> GroupControlsView {
    let multiple_select = multiple_select_key_of(keymap);
    let toggle_group = single_action_key_of(keymap, Action::TogglePaneInGroup);
    let follow_focus = single_action_key_of(keymap, Action::ToggleGroupMarking);
    let common = common_modifiers(bound_modifiers(multiple_select, toggle_group, follow_focus));
    let selected = selected_panes_text(tier, count, common);
    let group_actions = key_ribbon_text(key_text(multiple_select, common), group_actions_verb(tier));
    let toggle = key_ribbon_text(key_text(toggle_group, common), toggle_group_verb(tier));
    let follow = key_ribbon_text(key_text(follow_focus, common), follow_focus_verb(tier));
    GroupControlsView {
        tier,
        common_modifiers: common,
        common_modifier_text: common_modifier_text(common),
        multiple_select_key: key_text(multiple_select, common),
        pane_group_toggle_key: key_text(toggle_group, common),
        group_mark_toggle_key: key_text(follow_focus, common),
        selected_panes_text: selected,
        group_actions_text: group_actions,
        toggle_group_text: toggle,
        group_mark_toggle_text: follow,
        controls_line_len: (selected.len() + 1 + common_modifier_text(common).len()
            + group_actions.len() + toggle.len() + follow.len() + RIBBON_PADDINGS_LEN + 1) as nat,
    }
}

/// The controls in the widest wording that fits in `max_len` columns, tried
/// from full over medium to short; none where not even the short one fits.
pub open spec fn controls_that_fit(count: nat, keymap: Seq<KeyBinding>, max_len: nat) -> Option<
    GroupControlsView,
> {
    if max_len >= controls_in_tier(Tier::Full, count, keymap).controls_line_len {
        Some(controls_in_tier(Tier::Full, count, keymap))
    } else if max_len >= controls_in_tier(Tier::Medium, count, keymap).controls_line_len {
        Some(controls_in_tier(Tier::Medium, count, keymap))
    } else if max_len >= controls_in_tier(Tier::Short, count, keymap).controls_line_len {
        Some(controls_in_tier(Tier::Short, count, keymap))
    } else {
        None
    }
}

/// The contents of optional controls.
pub open spec fn optional_controls(controls: Option<GroupControls>) -> Option<GroupControlsView> {
    match controls {
        Some(controls) => Some(controls@),
        None => None,
    }
}

/// Where the emphasis of the count of selected panes ends: before the bar,
/// where there is one.
pub open spec fn emphasis_end(controls: GroupControlsView) -> nat {
    let cut: nat = if controls.common_modifiers == KeyModifiers::none() {
        0
    } else {
        2
    };
    if controls.selected_panes_text.len() >= cut {
        (controls.selected_panes_text.len() - cut) as nat
    } else {
        0
    }
}

/// The controls as handed to the host: the count, a blank, the shared
/// modifiers where there are any, and the three ribbons, the last of them
/// drawn as selected while panes are being added as they get the focus.
pub open spec fn controls_line(controls: GroupControlsView, marking: bool) -> Seq<char> {
    serialized_text(controls.selected_panes_text, 3, emphasis_end(controls)) + " "@ + (
    if controls.common_modifiers == KeyModifiers::none() {
        Seq::empty()
    } else {
        serialized_text(controls.common_modifier_text, 0, controls.common_modifier_text.len())
    }) + serialized_ribbon(
        controls.group_actions_text,
        controls.multiple_select_key.len(),
        false,
    ) + serialized_ribbon(controls.toggle_group_text, controls.pane_group_toggle_key.len(), false)
        + serialized_ribbon(
        controls.group_mark_toggle_text,
        controls.group_mark_toggle_key.len(),
        marking,
    )
}

/// One blank column in the bar's own colours.
pub open spec fn blank_cell(colors: Styling) -> Seq<char> {
    painted_strip(
        seq![
            (
                TextStyle {
                    foreground: colors.text_unselected.base,
                    background: colors.text_unselected.background,
                    bold: true,
                    italic: false,
                },
                " "@,
            ),
        ],
    )
}

/// Whether panes are being added to the group as they get the focus.
pub open spec fn is_marking(currently_marking_pane_group: Option<bool>) -> bool {
    match currently_marking_pane_group {
        Some(marking) => marking,
        None => false,
    }
}

/// The piece that shows `controls` in `max_len` columns: blank columns up to
/// `max_len`, then the controls.
pub open spec fn controls_piece(
    controls: GroupControlsView,
    marking: bool,
    colors: Styling,
    max_len: nat,
) -> LinePartView {
    let remaining: nat = if max_len >= controls.controls_line_len {
        (max_len - controls.controls_line_len) as nat
    } else {
        0
    };
    LinePartView {
        part: repeated(blank_cell(colors), remaining) + controls_line(controls, marking),
        len: controls.controls_line_len + remaining,
        tab_index: None,
    }
}

/// The piece for the group of `count` selected panes in `max_len` columns:
/// the controls in the widest wording that fits, pushed to the right; none
/// where no wording fits.
pub open spec fn group_controls_view(
    keymap: Seq<KeyBinding>,
    currently_marking_pane_group: Option<bool>,
    colors: Styling,
    count: nat,
    max_len: nat,
) -> Option<LinePartView> {
    match controls_that_fit(count, keymap, max_len) {
        Some(controls) => Some(
            controls_piece(controls, is_marking(currently_marking_pane_group), colors, max_len),
        ),
        None => None,
    }
}

fn key_label(key: Option<&KeyWithModifier>, common: &KeyModifiers) -> (text: String)
    ensures
        text@ == key_text(referred(key), *common),
{
    match key {
        Some(key) => key.strip_common_modifiers(common).to_label(),
        None => String::from_str("UNBOUND"),
    }
}

fn key_ribbon(key: &str, verb: &str) -> (text: String)
    ensures
        text@ == key_ribbon_text(key@, verb@),
{
    let mut text = concat3("<", key, ">");
    text.append(verb);
    text
}

/// The controls in the wording `tier`, if they fit in `max_len` columns.
fn controls_if_fit(
    tier: Tier,
    grouped_pane_count: usize,
    common: KeyModifiers,
    common_text: &str,
    multiple_select_key: &str,
    pane_group_toggle_key: &str,
    group_mark_toggle_key: &str,
    max_len: usize,
    Ghost(keymap): Ghost<Seq<KeyBinding>>,
) -> (controls: Option<GroupControls>)
    requires
        ({
            let wanted = controls_in_tier(tier, grouped_pane_count as nat, keymap);
            &&& common == wanted.common_modifiers
            &&& common_text@ == wanted.common_modifier_text
            &&& multiple_select_key@ == wanted.multiple_select_key
            &&& pane_group_toggle_key@ == wanted.pane_group_toggle_key
            &&& group_mark_toggle_key@ == wanted.group_mark_toggle_key
        }),
    ensures
        ({
            let wanted = controls_in_tier(tier, grouped_pane_count as nat, keymap);
            match controls {
                Some(controls) => controls@ == wanted && max_len >= wanted.controls_line_len,
                None => max_len < wanted.controls_line_len,
            }
        }),
{
    let noun = match tier {
        Tier::Full => " SELECTED PANES",
        _ => " SELECTED",
    };
    let bar = if common.is_empty() {
        ""
    } else {
        " |"
    };
    let selected_panes_text = concat3(decimal(grouped_pane_count).as_str(), noun, bar);
    let group_actions_text = key_ribbon(
        multiple_select_key,
        match tier {
            Tier::Full => " Group Actions",
            Tier::Medium => " Actions",
            Tier::Short => "",
        },
    );
    let toggle_group_text = key_ribbon(
        pane_group_toggle_key,
        match tier {
            Tier::Full => " Toggle Group",
            Tier::Medium => " Toggle",
            Tier::Short => "",
        },
    );
    let group_mark_toggle_text = key_ribbon(
        group_mark_toggle_key,
        match tier {
            Tier::Full => " Follow Focus",
            Tier::Medium => " Follow",
            Tier::Short => "",
        },
    );
    let controls_line_len: u128 = selected_panes_text.as_str().unicode_len() as u128 + 1
        + common_text.unicode_len() as u128 + group_actions_text.as_str().unicode_len() as u128
        + toggle_group_text.as_str().unicode_len() as u128
        + group_mark_toggle_text.as_str().unicode_len() as u128 + RIBBON_PADDINGS_LEN as u128
        + 1;  // 1 for the end padding
    if max_len as u128 >= controls_line_len {
        Some(
            GroupControls {
                tier,
                common_modifiers: common,
                common_modifier_text: String::from_str(common_text),
                multiple_select_key: String::from_str(multiple_select_key),
                pane_group_toggle_key: String::from_str(pane_group_toggle_key),
                group_mark_toggle_key: String::from_str(group_mark_toggle_key),
                selected_panes_text,
                group_actions_text,
                toggle_group_text,
                group_mark_toggle_text,
                controls_line_len: controls_line_len as usize,
            },
        )
    } else {
        None
    }
}

/// Chooses the wording of the controls for `grouped_pane_count` selected
/// panes: the widest that fits in `max_len` columns.
pub fn group_controls(help: &ModeInfo, grouped_pane_count: usize, max_len: usize) -> (controls:
    Option<GroupControls>)
    ensures
        optional_controls(controls) == controls_that_fit(
            grouped_pane_count as nat,
            help.keybinds@,
            max_len as nat,
        ),
{
    let keymap = &help.keybinds;
    let multiple_select_key = multiple_select_key(keymap);
    let pane_group_toggle_key = single_action_key(keymap, &Action::TogglePaneInGroup);
    let group_mark_toggle_key = single_action_key(keymap, &Action::ToggleGroupMarking);
    let mut bound: Vec<&KeyWithModifier> = Vec::new();
    if let Some(key) = multiple_select_key {
        bound.push(key);
    }
    if let Some(key) = pane_group_toggle_key {
        bound.push(key);
    }
    if let Some(key) = group_mark_toggle_key {
        bound.push(key);
    }
    assert(modifiers_of(bound@) =~= bound_modifiers(
        referred(multiple_select_key),
        referred(pane_group_toggle_key),
        referred(group_mark_toggle_key),
    ));
    let common_modifiers = get_common_modifiers(bound);
    let multiple_select_key = key_label(multiple_select_key, &common_modifiers);
    let pane_group_toggle_key = key_label(pane_group_toggle_key, &common_modifiers);
    let group_mark_toggle_key = key_label(group_mark_toggle_key, &common_modifiers);
    let common_modifier_text = if common_modifiers.is_empty() {
        String::new()
    } else {
        let mut text = join_names(&common_modifiers.to_vec(), "-");
        text.append(" + ");
        text
    };

    let full = controls_if_fit(
        Tier::Full,
        grouped_pane_count,
        common_modifiers,
        common_modifier_text.as_str(),
        multiple_select_key.as_str(),
        pane_group_toggle_key.as_str(),
        group_mark_toggle_key.as_str(),
        max_len,
        Ghost(help.keybinds@),
    );
    if full.is_some() {
        return full;
    }
    let medium = controls_if_fit(
        Tier::Medium,
        grouped_pane_count,
        common_modifiers,
        common_modifier_text.as_str(),
        multiple_select_key.as_str(),
        pane_group_toggle_key.as_str(),
        group_mark_toggle_key.as_str(),
        max_len,
        Ghost(help.keybinds@),
    );
    if medium.is_some() {
        return medium;
    }
    controls_if_fit(
        Tier::Short,
        grouped_pane_count,
        common_modifiers,
        common_modifier_text.as_str(),
        multiple_select_key.as_str(),
        pane_group_toggle_key.as_str(),
        group_mark_toggle_key.as_str(),
        max_len,
        Ghost(help.keybinds@),
    )
}

/// Writes `controls` as the host takes them.
fn write_controls_line(controls: &GroupControls, currently_marking_group: bool) -> (line: String)
    requires
        controls.multiple_select_key@.len() < usize::MAX,
        controls.pane_group_toggle_key@.len() < usize::MAX,
        controls.group_mark_toggle_key@.len() < usize::MAX,
        controls.multiple_select_key@.len() <= controls.group_actions_text@.len(),
        controls.pane_group_toggle_key@.len() <= controls.toggle_group_text@.len(),
        controls.group_mark_toggle_key@.len() <= controls.group_mark_toggle_text@.len(),
    ensures
        line@ == controls_line(controls@, currently_marking_group),
{
    let color_emphasis_range_end: usize = if controls.common_modifiers.is_empty() {
        0
    } else {
        2
    };
    let mut line = text_component(
        controls.selected_panes_text.as_str(),
        3,
        controls.selected_panes_text.as_str().unicode_len().saturating_sub(
            color_emphasis_range_end,
        ),
    );
    line.append(" ");
    if !controls.common_modifiers.is_empty() {
        let common_modifier = text_component(
            controls.common_modifier_text.as_str(),
            0,
            controls.common_modifier_text.as_str().unicode_len(),
        );
        line.append(common_modifier.as_str());
    }
    let group_actions_ribbon = ribbon_component(
        controls.group_actions_text.as_str(),
        controls.multiple_select_key.as_str().unicode_len(),
    );
    line.append(group_actions_ribbon.as_str());
    let toggle_group_ribbon = ribbon_component(
        controls.toggle_group_text.as_str(),
        controls.pane_group_toggle_key.as_str().unicode_len(),
    );
    line.append(toggle_group_ribbon.as_str());
    let group_mark_toggle_ribbon = if currently_marking_group {
        selected_ribbon_component(
            controls.group_mark_toggle_text.as_str(),
            controls.group_mark_toggle_key.as_str().unicode_len(),
        )
    } else {
        ribbon_component(
            controls.group_mark_toggle_text.as_str(),
            controls.group_mark_toggle_key.as_str().unicode_len(),
        )
    };
    line.append(group_mark_toggle_ribbon.as_str());
    assert(line@ =~= controls_line(controls@, currently_marking_group));
    line
}

/// Builds the controls for the group of `grouped_pane_count` selected panes
/// in `max_len` columns.
pub fn render_group_controls(help: &ModeInfo, grouped_pane_count: usize, max_len: usize) -> (part:
    Option<LinePart>)
    ensures
        optional_view(part) == group_controls_view(
            help.keybinds@,
            help.currently_marking_pane_group,
            help.colors,
            grouped_pane_count as nat,
            max_len as nat,
        ),
{
    let currently_marking_group = match help.currently_marking_pane_group {
        Some(marking) => marking,
        None => false,
    };
    let controls = match group_controls(help, grouped_pane_count, max_len) {
        Some(controls) => controls,
        None => {
            return None;
        },
    };
    let background = help.colors.text_unselected.background;
    let foreground = help.colors.text_unselected.base;
    let superkey_prefix_style = TextStyle::new(foreground, background).bold();
    proof {
        let wanted = controls_in_tier(controls.tier, grouped_pane_count as nat, help.keybinds@);
        assert(controls@ == wanted);
        assert(wanted.group_actions_text.len() >= wanted.multiple_select_key.len());
        assert(wanted.toggle_group_text.len() >= wanted.pane_group_toggle_key.len());
        assert(wanted.group_mark_toggle_text.len() >= wanted.group_mark_toggle_key.len());
    }
    let controls_line = write_controls_line(&controls, currently_marking_group);
    let remaining_space = max_len.saturating_sub(controls.controls_line_len);
    let cell_pieces = vec![StyledText { style: superkey_prefix_style, text: String::from_str(" ") }];
    assert(styled_views(cell_pieces@) =~= seq![(superkey_prefix_style, " "@)]);
    let cell = paint_strip(&cell_pieces);
    let mut part = repeat(cell.as_str(), remaining_space);
    part.append(controls_line.as_str());
    Some(LinePart { part, len: controls.controls_line_len + remaining_space, tab_index: None })
}

} // verus!
