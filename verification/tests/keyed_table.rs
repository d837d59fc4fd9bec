use tuika::components::{KeyedMultiSelectState, KeyedSelectState, SelectNavigation};
use tuika::event::{Event, InputOutcome, Key, KeyCode, Mouse, MouseButton, MouseKind};
use tuika::geometry::Rect;

struct Row {
    id: u64,
}

fn rows(ids: &[u64]) -> Vec<Row> {
    ids.iter().map(|&id| Row { id }).collect()
}

/// The key of each row, in display order.
fn keys(rows: &[Row]) -> Vec<u64> {
    rows.iter().map(|row| row.id).collect()
}

fn key(code: KeyCode) -> Event {
    Event::Key(Key::new(code))
}

#[test]
fn single_selection_uses_keys_across_collection_changes() {
    let mut state = KeyedSelectState::with_selected(2);
    let reordered = rows(&[3, 1, 2]);
    assert_eq!(state.window(&keys(&reordered), 2).range(), 1..3);
    assert_eq!(state.selected(), Some(&2));

    let inserted = rows(&[9, 3, 1, 2]);
    assert!(state.window(&keys(&inserted), 2).contains(3));
    assert_eq!(state.selected(), Some(&2));

    let filtered = rows(&[3, 1]);
    let _ = state.window(&keys(&filtered), 2);
    assert_eq!(state.selected(), Some(&2), "filtering preserves identity");

    state.retain_present(&keys(&filtered));
    assert_eq!(state.selected(), None, "authoritative deletion clears it");
}

#[test]
fn multi_selection_survives_reorder_filter_and_prunes_deletions() {
    let all = rows(&[1, 2, 3]);
    let mut state = KeyedMultiSelectState::new();
    let down = Event::Key(Key::new(KeyCode::Down));
    assert_eq!(
        state.handle(&down, &keys(&all), 3, SelectNavigation::default()),
        InputOutcome::Changed
    );
    assert_eq!(
        state.handle(
            &Event::Key(Key::new(KeyCode::Char(' '))),
            &keys(&all),
            3,
            SelectNavigation::default(),
        ),
        InputOutcome::Changed
    );
    assert!(state.contains(&1));
    let filtered = rows(&[3, 2]);
    assert!(state.contains(&1));
    let reordered = rows(&[3, 1, 2]);
    assert!(state.contains(&1));
    state.retain_present(&keys(&filtered));
    assert!(!state.contains(&1));
    assert_eq!(reordered.len(), 3);
}

#[test]
fn multi_selection_does_not_toggle_a_filtered_cursor() {
    let all = rows(&[1, 2, 3]);
    let filtered = rows(&[1, 3]);
    let mut state = KeyedMultiSelectState::new();
    state.cursor_mut().select(Some(2));
    let outcome = state.handle(
        &Event::Key(Key::new(KeyCode::Char(' '))),
        &keys(&filtered),
        2,
        SelectNavigation::default(),
    );
    assert_eq!(outcome, InputOutcome::Ignored);
    assert!(!state.contains(&2));
    assert_eq!(state.cursor().selected(), Some(&2));
    assert_eq!(all.len(), 3);
}

#[test]
fn window_honors_scroll_margin_and_manual_wheel_scrolling() {
    let rows = rows(&(0..20).collect::<Vec<_>>());
    let rows = keys(&rows);
    let mut state = KeyedSelectState::with_selected(10);
    state.set_scroll_margin(2);
    assert_eq!(state.window(&rows, 6).range(), 7..13);
    let wheel = Event::Mouse(Mouse::at(MouseKind::ScrollDown, 0, 0));
    assert_eq!(state.handle(&wheel, &rows, 6), InputOutcome::Changed);
    assert_eq!(state.window(&rows, 6).start(), 10);
    let end = Event::Key(Key::new(KeyCode::End));
    let _ = state.handle(&end, &rows, 6);
    assert_eq!(state.window(&rows, 6).range(), 14..20);
}

#[test]
fn mouse_maps_through_nonzero_window_and_ignores_header() {
    let rows = keys(&rows(&(0..10).collect::<Vec<_>>()));
    let mut state = KeyedSelectState::new();
    state.set_offset(4);
    let window = state.window(&rows, 3);
    let body = Rect::new(2, 5, 20, 3);
    let click = Event::Mouse(Mouse::at(MouseKind::Down(MouseButton::Left), 3, 6));
    assert_eq!(state.handle_mouse(&click, &rows, body, window), InputOutcome::Submitted);
    assert_eq!(state.selected(), Some(&5));
    let header = Event::Mouse(Mouse::at(MouseKind::Down(MouseButton::Left), 3, 4));
    assert_eq!(state.handle_mouse(&header, &rows, body, window), InputOutcome::Ignored);
}

#[test]
fn keyboard_navigation_follows_keys_and_pages() {
    let rows = keys(&rows(&[10, 20, 30, 40, 50, 60, 70]));
    let mut state = KeyedSelectState::new();
    // Nothing selected: Down lands on the first row, Up on the last.
    assert_eq!(state.handle(&key(KeyCode::Down), &rows, 3), InputOutcome::Changed);
    assert_eq!(state.selected(), Some(&10));
    assert_eq!(state.handle(&key(KeyCode::Up), &rows, 3), InputOutcome::Consumed);
    assert_eq!(state.selected(), Some(&10));
    // A page is one less than the viewport.
    assert_eq!(state.handle(&key(KeyCode::PageDown), &rows, 3), InputOutcome::Changed);
    assert_eq!(state.selected(), Some(&30));
    assert_eq!(state.handle(&key(KeyCode::End), &rows, 3), InputOutcome::Changed);
    assert_eq!(state.selected(), Some(&70));
    assert_eq!(state.handle(&key(KeyCode::PageDown), &rows, 3), InputOutcome::Consumed);
    assert_eq!(state.handle(&key(KeyCode::Home), &rows, 3), InputOutcome::Changed);
    assert_eq!(state.selected(), Some(&10));
    assert_eq!(state.handle(&key(KeyCode::Enter), &rows, 3), InputOutcome::Submitted);
    assert_eq!(state.handle(&key(KeyCode::Esc), &rows, 3), InputOutcome::Cancelled);
    // Shortcuts select by position and only with the numeric aliases on.
    assert_eq!(
        state.handle_with(&key(KeyCode::Char('4')), &rows, 3, SelectNavigation::common()),
        InputOutcome::Submitted
    );
    assert_eq!(state.selected(), Some(&40));
    assert_eq!(state.handle(&key(KeyCode::Char('4')), &rows, 3), InputOutcome::Ignored);
    assert_eq!(
        state.handle_with(&key(KeyCode::Char('9')), &rows, 3, SelectNavigation::common()),
        InputOutcome::Ignored
    );
}

#[test]
fn an_absent_selection_steps_from_the_ends() {
    let rows = keys(&rows(&[1, 2, 3]));
    let mut state = KeyedSelectState::with_selected(99);
    assert_eq!(state.handle(&key(KeyCode::Enter), &rows, 3), InputOutcome::Ignored);
    assert_eq!(state.handle(&key(KeyCode::Up), &rows, 3), InputOutcome::Changed);
    assert_eq!(state.selected(), Some(&3));
}

#[test]
fn an_empty_collection_only_answers_escape() {
    let mut state = KeyedSelectState::new();
    assert_eq!(state.handle(&key(KeyCode::Down), &[], 3), InputOutcome::Ignored);
    assert_eq!(state.handle(&key(KeyCode::Esc), &[], 3), InputOutcome::Cancelled);
    assert_eq!(state.selected(), None);
}

#[test]
fn wheel_scrolling_detaches_and_selecting_reattaches() {
    let rows = keys(&rows(&(0..20).collect::<Vec<_>>()));
    let mut state = KeyedSelectState::with_selected(0);
    let up = Event::Mouse(Mouse::at(MouseKind::ScrollUp, 0, 0));
    assert_eq!(state.handle(&up, &rows, 5), InputOutcome::Consumed);
    let down = Event::Mouse(Mouse::at(MouseKind::ScrollDown, 0, 0));
    assert_eq!(state.handle(&down, &rows, 5), InputOutcome::Changed);
    assert_eq!(state.offset(), 3);
    // The viewport stays where the wheel put it while detached.
    assert_eq!(state.window(&rows, 5).start(), 3);
    state.select(Some(0));
    assert_eq!(state.window(&rows, 5).start(), 0);
    // Scrolling stops at the last full window.
    state.set_offset(14);
    assert_eq!(state.handle(&down, &rows, 5), InputOutcome::Changed);
    assert_eq!(state.offset(), 15);
    assert_eq!(state.handle(&down, &rows, 5), InputOutcome::Consumed);
    let click = Event::Mouse(Mouse::at(MouseKind::Moved, 0, 0));
    assert_eq!(state.handle(&click, &rows, 5), InputOutcome::Ignored);
}

#[test]
fn the_followed_selection_is_always_in_the_window() {
    let rows = keys(&rows(&(0..50).collect::<Vec<_>>()));
    for selected in [0u64, 1, 7, 25, 48, 49] {
        for margin in [0usize, 1, 3, 100] {
            let mut state = KeyedSelectState::with_selected(selected);
            state.set_scroll_margin(margin);
            let window = state.window(&rows, 7);
            assert!(window.contains(selected as usize), "{selected} {margin}");
        }
    }
}

#[test]
fn keyed_multi_selection_checks_and_lists_in_key_order() {
    let rows = keys(&rows(&[5, 3, 9]));
    let mut state = KeyedMultiSelectState::new();
    assert!(state.select(9));
    assert!(!state.select(9));
    assert!(state.select(3));
    assert_eq!(state.selected(), vec![3, 9]);
    assert!(state.deselect(&3));
    assert!(!state.deselect(&3));
    let bounds = Rect::new(0, 0, 10, 3);
    let window = state.cursor().window(&rows, 3);
    let click = Event::Mouse(Mouse::at(MouseKind::Down(MouseButton::Left), 0, 0));
    assert_eq!(state.handle_mouse(&click, &rows, bounds, window), InputOutcome::Changed);
    assert_eq!(state.selected(), vec![5, 9]);
    state.clear();
    assert!(state.selected().is_empty());
}
