use ansi_term::{Colour, Style};
use compact_bar::assemble::tab_line;
use compact_bar::group_controls::{render_group_controls, ModeInfo};
use compact_bar::keys::{Action, KeyBinding, KeyModifiers, KeyWithModifier};
use compact_bar::paint::{PaletteColor, StyleDeclaration, Styling};
use compact_bar::prefix::{tab_line_prefix, InputMode};
use compact_bar::separator::PluginCapabilities;
use compact_bar::span::{get_current_title_len, LinePart};
use compact_bar::swap_layout::swap_layout_status;

fn declaration(seed: u8) -> StyleDeclaration {
    StyleDeclaration {
        base: PaletteColor::EightBit(seed),
        background: PaletteColor::EightBit(seed + 1),
        emphasis_0: PaletteColor::EightBit(seed + 2),
        emphasis_1: PaletteColor::EightBit(seed + 3),
        emphasis_2: PaletteColor::EightBit(seed + 4),
        emphasis_3: PaletteColor::EightBit(seed + 5),
    }
}

fn palette() -> Styling {
    Styling {
        text_unselected: declaration(10),
        text_selected: declaration(20),
        ribbon_unselected: declaration(30),
        ribbon_selected: declaration(40),
    }
}

fn no_separator() -> PluginCapabilities {
    PluginCapabilities { arrow_fonts: true }
}

fn tab(width: usize, index: usize) -> LinePart {
    LinePart { part: format!("{:>1$}", index, width), len: width, tab_index: Some(index) }
}

fn tabs(widths: &[usize]) -> Vec<LinePart> {
    let mut all = Vec::new();
    for (i, width) in widths.iter().enumerate() {
        all.push(tab(*width, i));
    }
    all
}

fn help() -> ModeInfo {
    let ctrl = KeyModifiers { ctrl: true, alt: false, shift: false, super_key: false };
    let key = |name: &str| KeyWithModifier { bare_key: name.to_string(), key_modifiers: ctrl };
    ModeInfo {
        keybinds: vec![
            KeyBinding {
                key: key("a"),
                actions: vec![Action::LaunchOrFocusPlugin("zellij:multiple-select".to_string())],
            },
            KeyBinding { key: key("b"), actions: vec![Action::TogglePaneInGroup] },
            KeyBinding { key: key("c"), actions: vec![Action::ToggleGroupMarking] },
        ],
        currently_marking_pane_group: None,
        colors: palette(),
    }
}

fn padding(width: usize) -> LinePart {
    let cell = Style::new().fg(Colour::Fixed(11)).on(Colour::Fixed(11)).paint(" ").to_string();
    LinePart { part: cell.repeat(width), len: width, tab_index: None }
}

/// The bar for tabs of the given widths, without a session name, in normal
/// mode: the head takes 16 columns.
fn bar(widths: &[usize], active: usize, cols: usize, layout: &Option<String>) -> Vec<LinePart> {
    tab_line(
        None,
        tabs(widths),
        active,
        cols,
        palette(),
        no_separator(),
        false,
        InputMode::Normal,
        layout,
        false,
        &help(),
        None,
    )
}

#[test]
fn head_alone_where_the_active_tab_has_no_room() {
    let head = tab_line_prefix(None, InputMode::Normal, palette(), 20);
    assert_eq!(get_current_title_len(&head), 16);
    assert_eq!(bar(&[5, 5, 5], 1, 20, &None), head);
    assert_eq!(bar(&[5, 5, 5], 1, 20, &Some("x".to_string())), head);
}

#[test]
fn no_columns_give_the_brand_alone() {
    let line = bar(&[5, 5, 5], 1, 0, &None);
    assert_eq!(line, tab_line_prefix(None, InputMode::Normal, palette(), 0));
    assert_eq!(line.len(), 1);
}

#[test]
fn active_tab_that_just_fits_is_shown() {
    let mut expected = tab_line_prefix(None, InputMode::Normal, palette(), 21);
    expected.push(tab(5, 1));
    assert_eq!(bar(&[5, 5, 5], 1, 21, &None), expected);
}

#[test]
fn tabs_follow_the_head() {
    let line = bar(&[5, 5, 5], 1, 40, &None);
    let mut expected = tab_line_prefix(None, InputMode::Normal, palette(), 40);
    expected.extend(tabs(&[5, 5, 5]));
    assert_eq!(line, expected);
    assert_eq!(get_current_title_len(&line), 31);
}

#[test]
fn nothing_is_appended_without_a_layout_name() {
    let line = bar(&[5, 5, 5], 1, 80, &None);
    assert_eq!(line.len(), 2 + 3);
}

#[test]
fn swap_layout_ends_with_the_bar() {
    let layout = Some("foo".to_string());
    let line = bar(&[5, 5, 5], 1, 80, &layout);
    let status =
        swap_layout_status(49, &layout, false, InputMode::Normal, &palette(), "").unwrap();
    let mut expected = tab_line_prefix(None, InputMode::Normal, palette(), 80);
    expected.extend(tabs(&[5, 5, 5]));
    expected.push(padding(49 - 8));
    expected.push(status);
    assert_eq!(line, expected);
    assert_eq!(get_current_title_len(&line), 80);
}

#[test]
fn padding_of_no_width_still_stands_before_the_status() {
    let layout = Some("foo".to_string());
    let line = bar(&[5, 5, 5], 1, 39, &layout);
    assert_eq!(line.len(), 2 + 3 + 2);
    assert_eq!(line[5], padding(0));
    assert_eq!(line[6].len, 8);
    assert_eq!(get_current_title_len(&line), 39);
}

#[test]
fn status_without_room_is_left_out_with_its_padding() {
    let layout = Some("foo".to_string());
    let line = bar(&[5, 5, 5], 1, 38, &layout);
    assert_eq!(line.len(), 2 + 3);
    assert_eq!(get_current_title_len(&line), 31);
}

#[test]
fn grouped_panes_show_their_controls_in_place_of_the_layout() {
    let layout = Some("foo".to_string());
    let line = tab_line(
        None,
        tabs(&[5, 5, 5]),
        1,
        90,
        palette(),
        no_separator(),
        false,
        InputMode::Normal,
        &layout,
        false,
        &help(),
        Some(3),
    );
    let controls = render_group_controls(&help(), 3, 59).unwrap();
    assert_eq!(controls.len, 59);
    let mut expected = tab_line_prefix(None, InputMode::Normal, palette(), 90);
    expected.extend(tabs(&[5, 5, 5]));
    expected.push(padding(0));
    expected.push(controls);
    assert_eq!(line, expected);
    assert_eq!(get_current_title_len(&line), 90);
}

#[test]
fn grouped_panes_without_room_for_the_controls_show_nothing_more() {
    let layout = Some("foo".to_string());
    let line = tab_line(
        None,
        tabs(&[5, 5, 5]),
        1,
        60,
        palette(),
        no_separator(),
        false,
        InputMode::Normal,
        &layout,
        false,
        &help(),
        Some(3),
    );
    assert_eq!(line.len(), 2 + 3);
}

#[test]
fn session_name_is_left_out_when_hidden() {
    let shown = tab_line(
        Some("main"),
        tabs(&[5]),
        0,
        80,
        palette(),
        no_separator(),
        false,
        InputMode::Normal,
        &None,
        false,
        &help(),
        None,
    );
    let hidden = tab_line(
        Some("main"),
        tabs(&[5]),
        0,
        80,
        palette(),
        no_separator(),
        true,
        InputMode::Normal,
        &None,
        false,
        &help(),
        None,
    );
    assert_eq!(shown.len(), 4);
    assert_eq!(&shown[..3], &tab_line_prefix(Some("main"), InputMode::Normal, palette(), 80)[..]);
    assert_eq!(hidden.len(), 3);
    assert_eq!(&hidden[..2], &tab_line_prefix(None, InputMode::Normal, palette(), 80)[..]);
}

#[test]
fn bar_stays_within_its_columns_and_shows_the_active_tab() {
    let widths = [3, 7, 2, 9, 5, 4, 1, 8];
    let layout = Some("layout".to_string());
    for active in 0..widths.len() {
        for cols in 0..120 {
            let line = bar(&widths, active, cols, &layout);
            let head = get_current_title_len(&tab_line_prefix(
                None,
                InputMode::Normal,
                palette(),
                cols,
            ));
            if head + widths[active] <= cols {
                assert!(get_current_title_len(&line) <= cols, "cols = {}", cols);
                assert!(line.contains(&tab(widths[active], active)), "cols = {}", cols);
            } else {
                assert!(!line.contains(&tab(widths[active], active)), "cols = {}", cols);
            }
        }
    }
}

#[test]
fn hidden_tabs_are_summed_up_at_both_ends() {
    let line = bar(&[5, 5, 5, 5, 5], 2, 16 + 17, &None);
    assert_eq!(line.len(), 2 + 3);
    assert_eq!(line[2].tab_index, Some(1));
    assert_eq!(line[2].len, 6);
    assert_eq!(line[3], tab(5, 2));
    assert_eq!(line[4].tab_index, Some(3));
    assert_eq!(get_current_title_len(&line), 33);
}

#[test]
fn same_input_gives_the_same_bar() {
    let layout = Some("foo".to_string());
    assert_eq!(bar(&[3, 7, 2, 9], 2, 57, &layout), bar(&[3, 7, 2, 9], 2, 57, &layout));
}

#[test]
fn first_and_last_tab_can_be_active() {
    let first = bar(&[5, 5, 5], 0, 40, &None);
    assert_eq!(&first[2..], &tabs(&[5, 5, 5])[..]);
    let last = bar(&[5, 5, 5], 2, 40, &None);
    assert_eq!(&last[2..], &tabs(&[5, 5, 5])[..]);
}
