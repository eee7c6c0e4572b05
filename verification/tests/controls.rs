//! The cursor, selections, mouse interaction tracking and UV correction.

use ves::controls::{
    correct_uv, ends_table_row, selection_summary, Cursor, DragEvent, DragState,
    MouseInteraction, MouseInteractionTracker, Selectable, SelectionRange, SelectionState,
    SelectionSummary,
};

#[test]
fn cursor_moves_within_its_bounds() {
    let mut cursor = Cursor::new(5);
    assert_eq!(cursor.position(), 0);
    assert_eq!(cursor.move_backward(3), 0);
    assert_eq!(cursor.move_forward(3), 3);
    assert_eq!(cursor.position(), 3);
    assert_eq!(cursor.move_forward(10), 1);
    assert_eq!(cursor.position(), 4);
    assert_eq!(cursor.next(), None);
    assert_eq!(cursor.move_backward(2), 2);
    assert_eq!(cursor.next(), Some(3));
    cursor.reset();
    assert_eq!(cursor.position(), 0);
}

#[test]
fn cursor_round_trip_returns_to_the_start() {
    let mut cursor = Cursor::new(7);
    cursor.move_forward(2);
    let moved = cursor.move_forward(100);
    assert_eq!(cursor.move_backward(moved), moved);
    assert_eq!(cursor.position(), 2);
}

#[test]
fn selection_state_operations() {
    let mut state = SelectionState::Unselected;
    state.toggle();
    assert!(state.selected());
    state.toggle();
    assert!(!state.selected());
    state.set(true);
    assert_eq!(state, SelectionState::Selected);
    state.unselect();
    assert_eq!(state, SelectionState::Unselected);
    state.select();
    assert_eq!(state, SelectionState::Selected);
    let item = Selectable::new("tile", SelectionState::Unselected);
    assert_eq!(item.item, "tile");
    assert_eq!(item.state, SelectionState::Unselected);
}

/// Items numbered from 0, selected where the pattern holds an `x`.
fn states(pattern: &str) -> Vec<Selectable<usize>> {
    pattern
        .chars()
        .enumerate()
        .map(|(i, c)| {
            Selectable::new(i, if c == 'x' { SelectionState::Selected } else { SelectionState::Unselected })
        })
        .collect()
}

#[test]
fn plain_click_selects_only_the_clicked_item() {
    let mut range = SelectionRange::new();
    let mut values = states("x.x.x");
    range.update(false, false, 1, &mut values);
    assert_eq!(values, states(".x..."));
}

#[test]
fn ctrl_click_toggles_the_clicked_item() {
    let mut range = SelectionRange::new();
    let mut values = states("x.x..");
    range.update(false, true, 2, &mut values);
    assert_eq!(values, states("x...."));
    range.update(false, true, 3, &mut values);
    assert_eq!(values, states("x..x."));
}

#[test]
fn shift_click_selects_the_range_from_the_root() {
    let mut range = SelectionRange::new();
    let mut values = states("......");
    range.update(false, false, 4, &mut values);
    range.update(true, false, 1, &mut values);
    assert_eq!(values, states(".xxxx."));
    // Shift and ctrl adds the range to the selection.
    let mut values = states("x.....");
    range.update(true, true, 5, &mut values);
    assert_eq!(values, states("x...xx"));
}

#[test]
fn shift_click_without_root_unselects_everything() {
    let mut range = SelectionRange::new();
    let mut values = states("xx.x");
    range.update(true, false, 2, &mut values);
    assert_eq!(values, states("...."));
}

#[test]
fn correct_uv_swaps_flipped_axes() {
    assert_eq!(correct_uv((0, 1), (2, 3), false, false), ((0, 1), (2, 3)));
    assert_eq!(correct_uv((0, 1), (2, 3), true, false), ((2, 1), (0, 3)));
    assert_eq!(correct_uv((0, 1), (2, 3), false, true), ((0, 3), (2, 1)));
    assert_eq!(correct_uv((0, 1), (2, 3), true, true), ((2, 3), (0, 1)));
}

#[test]
fn drag_state_reports_start_update_and_finish() {
    let mut drag = DragState::new();
    assert_eq!(drag.update(false, None), None);
    assert_eq!(drag.update(true, Some((1, 1))), Some(DragEvent::Start((1, 1))));
    assert_eq!(drag.update(true, Some((4, 5))), Some(DragEvent::Update((1, 1), (4, 5))));
    assert_eq!(drag.update(false, None), Some(DragEvent::Finished((1, 1), (4, 5))));
    assert_eq!(drag.update(false, None), None);
    drag.update(true, Some((2, 2)));
    drag.reset();
    assert_eq!(drag.update(false, None), None);
}

#[test]
fn mouse_tracker_reports_clicks_and_drags() {
    let mut tracker = MouseInteractionTracker::new();
    assert_eq!(tracker.update(false, true, Some((3, 3))), Some(MouseInteraction::Drag(DragEvent::Start((3, 3)))));
    assert_eq!(tracker.update(true, false, Some((7, 8))), Some(MouseInteraction::Click((7, 8))));
    // The click ended the drag.
    assert_eq!(tracker.update(false, false, None), None);
}

#[test]
fn correcting_uv_twice_gives_the_rectangle_back() {
    for (hflip, vflip) in [(false, false), (true, false), (false, true), (true, true)] {
        let (min, max) = correct_uv((1, 2), (3, 4), hflip, vflip);
        assert_eq!(correct_uv(min, max, hflip, vflip), ((1, 2), (3, 4)));
    }
}

#[test]
fn selection_summary_tells_nothing_one_or_many() {
    let items: Vec<Selectable<char>> = "abcd"
        .chars()
        .map(|c| Selectable::new(c, SelectionState::Unselected))
        .collect();
    assert_eq!(selection_summary(&items), SelectionSummary::Nothing);
    let mut items = items;
    items[2].state = SelectionState::Selected;
    assert_eq!(selection_summary(&items), SelectionSummary::One(2));
    items[0].state = SelectionState::Selected;
    assert_eq!(selection_summary(&items), SelectionSummary::Many);
    assert_eq!(selection_summary::<char>(&[]), SelectionSummary::Nothing);
}

#[test]
fn table_rows_end_after_index_one_then_every_column_count() {
    let ends: Vec<usize> = (0..20).filter(|i| ends_table_row(*i, 8)).collect();
    assert_eq!(ends, vec![1, 9, 17]);
}
