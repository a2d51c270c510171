use compact_bar::collapse::ribbon_len;
use compact_bar::pack::{choose_step, Step};
use compact_bar::prefix::fits_after_brand;
use compact_bar::swap_layout::status_len;

fn is_overflow(step: Step) -> bool {
    matches!(step, Step::Overflow)
}

fn is_take_left(step: Step) -> bool {
    matches!(step, Step::TakeLeft)
}

fn is_take_right(step: Step) -> bool {
    matches!(step, Step::TakeRight)
}

fn is_collapse(step: Step) -> bool {
    matches!(step, Step::Collapse)
}

#[test]
fn line_wider_than_the_room_with_its_indicators_stops_the_packer() {
    assert!(is_overflow(choose_step(Some(5), Some(5), 6, 6, false, false, 5, 0, 0, 16)));
    assert!(is_overflow(choose_step(None, None, 0, 0, false, false, 5, 0, 0, 4)));
    assert!(!is_overflow(choose_step(Some(5), Some(5), 6, 6, false, false, 5, 0, 0, 17)));
}

#[test]
fn lighter_side_is_served_first_and_ties_go_left() {
    assert!(is_take_left(choose_step(Some(5), Some(5), 6, 6, false, false, 5, 0, 0, 40)));
    assert!(is_take_right(choose_step(Some(5), Some(5), 6, 6, false, false, 10, 5, 0, 40)));
    assert!(is_take_left(choose_step(Some(5), Some(5), 6, 6, false, false, 15, 5, 5, 40)));
    assert!(is_take_left(choose_step(Some(5), Some(5), 6, 6, false, false, 15, 4, 6, 40)));
}

#[test]
fn heavier_side_is_served_where_the_other_tab_does_not_fit() {
    // left is lighter, but its tab of 30 columns has no room
    assert!(is_take_right(choose_step(Some(30), Some(5), 6, 6, false, false, 5, 0, 0, 40)));
    // right is lighter, but its tab of 30 columns has no room
    assert!(is_take_left(choose_step(Some(5), Some(30), 6, 6, false, false, 10, 5, 0, 40)));
}

#[test]
fn last_tab_of_a_side_takes_the_indicator_away() {
    // 5 + (6 + 5 + 6) = 22, or 16 without the left indicator
    assert!(is_collapse(choose_step(Some(5), None, 6, 0, false, false, 5, 0, 0, 15)));
    assert!(is_take_left(choose_step(Some(5), None, 6, 0, true, false, 5, 0, 0, 11)));
    assert!(is_collapse(choose_step(Some(5), None, 6, 0, false, false, 5, 0, 0, 11)));
    assert!(is_take_right(choose_step(None, Some(5), 0, 6, false, true, 5, 0, 0, 11)));
    assert!(is_collapse(choose_step(None, Some(5), 0, 6, false, false, 5, 0, 0, 11)));
}

#[test]
fn no_tab_is_taken_from_an_empty_side() {
    assert!(is_collapse(choose_step(None, None, 0, 0, false, false, 5, 0, 0, usize::MAX)));
    assert!(is_take_right(choose_step(None, Some(1), 0, 6, false, false, 5, 0, 0, usize::MAX)));
    assert!(is_take_left(choose_step(Some(1), None, 6, 0, false, false, 5, 9, 0, usize::MAX)));
}

#[test]
fn widths_beyond_the_largest_number_do_not_fit() {
    let max = usize::MAX;
    assert!(is_overflow(choose_step(Some(1), Some(1), max, max, false, false, max, 0, 0, max)));
    assert!(is_collapse(choose_step(Some(max), Some(max), 0, 0, false, false, 1, 0, 0, max)));
    assert!(is_take_left(choose_step(Some(max - 1), None, 0, 0, true, false, 1, 0, 0, max)));
}

#[test]
fn indicator_counts_its_words_and_two_separators() {
    assert_eq!(ribbon_len(6, 0), 6);
    assert_eq!(ribbon_len(6, 1), 8);
    assert_eq!(ribbon_len(9, 2), 13);
    assert_eq!(ribbon_len(0, 0), 0);
}

#[test]
fn indicator_width_is_capped() {
    assert_eq!(ribbon_len(usize::MAX, 1), usize::MAX);
    assert_eq!(ribbon_len(1, usize::MAX), usize::MAX);
    assert_eq!(ribbon_len(1, usize::MAX / 2), usize::MAX);
    assert_eq!(ribbon_len(0, usize::MAX / 2), usize::MAX - 1);
}

#[test]
fn status_counts_the_label_two_separators_and_three() {
    assert_eq!(status_len(5, 0, 8, false), Some(8));
    assert_eq!(status_len(5, 1, 10, false), Some(10));
    assert_eq!(status_len(5, 1, 100, true), Some(10));
    assert_eq!(status_len(0, 0, 3, true), Some(3));
}

#[test]
fn status_without_room_is_none_whatever_the_mode() {
    assert_eq!(status_len(5, 0, 7, false), None);
    assert_eq!(status_len(5, 0, 7, true), None);
    assert_eq!(status_len(5, 1, 9, false), None);
    assert_eq!(status_len(0, 0, 2, false), None);
    assert_eq!(status_len(usize::MAX, usize::MAX, usize::MAX, false), None);
}

#[test]
fn pieces_of_the_head_are_fitted_in_what_the_brand_leaves() {
    assert!(fits_after_brand(16, 8));
    assert!(!fits_after_brand(15, 8));
    assert!(fits_after_brand(8, 0));
    assert!(fits_after_brand(0, 0));
    assert!(!fits_after_brand(7, 1));
    assert!(fits_after_brand(usize::MAX, usize::MAX - 8));
    assert!(!fits_after_brand(usize::MAX, usize::MAX - 7));
}

/// Runs the packer's rounds on widths alone, every indicator taking
/// `indicator` columns: the tabs taken on either side, and whether the
/// indicators are shown.
fn rounds(before: &[usize], active: usize, after: &[usize], indicator: usize, cols: usize)
    -> (usize, usize, bool) {
    let (mut taken_left, mut taken_right) = (0, 0);
    let (mut total_left, mut total_right) = (0, 0);
    let mut middle = active;
    loop {
        let hidden_left = before.len() - taken_left;
        let hidden_right = after.len() - taken_right;
        let left = if hidden_left > 0 { Some(before[hidden_left - 1]) } else { None };
        let right = if hidden_right > 0 { Some(after[taken_right]) } else { None };
        let step = choose_step(
            left,
            right,
            if hidden_left > 0 { indicator } else { 0 },
            if hidden_right > 0 { indicator } else { 0 },
            hidden_left == 1,
            hidden_right == 1,
            middle,
            total_left,
            total_right,
            cols,
        );
        match step {
            Step::Overflow => return (taken_left, taken_right, false),
            Step::Collapse => return (taken_left, taken_right, true),
            Step::TakeLeft => {
                middle += left.unwrap();
                total_left += left.unwrap();
                taken_left += 1;
            },
            Step::TakeRight => {
                middle += right.unwrap();
                total_right += right.unwrap();
                taken_right += 1;
            },
        }
    }
}

#[test]
fn five_tabs_of_five_columns_fill_25_columns_beside_narrow_indicators() {
    // with indicators of two columns every tab is taken in turn: left,
    // right, left, right
    assert_eq!(rounds(&[5, 5], 5, &[5, 5], 2, 25), (2, 2, true));
}

#[test]
fn one_neighbour_and_both_indicators_fill_14_columns_beside_narrow_indicators() {
    // 2 + 5 + 2 leave room for one more tab, which comes from the left; the
    // line is then 2 + 10 + 2 columns wide and nothing more fits
    assert_eq!(rounds(&[5, 5], 5, &[5, 5], 2, 14), (1, 0, true));
}
