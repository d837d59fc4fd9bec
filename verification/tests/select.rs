use tuika::components::select_list::{select_rows, ScrollThumb};
use tuika::components::{MultiSelectState, SelectNavigation, SelectState};
use tuika::event::{Event, InputOutcome, Key, KeyCode, Mouse, MouseButton, MouseKind};
use tuika::geometry::Rect;

fn key(code: KeyCode) -> Event {
    Event::Key(Key::new(code))
}

#[test]
fn select_navigation_wraps_and_confirms() {
    let mut s = SelectState::new();
    let down = Event::Key(Key::new(KeyCode::Down));
    let up = Event::Key(Key::new(KeyCode::Up));
    assert_eq!(s.handle(&up, 3), InputOutcome::Changed);
    assert_eq!(s.selected(), Some(2)); // wrapped from 0 to last
    assert_eq!(s.handle(&down, 3), InputOutcome::Changed);
    assert_eq!(s.selected(), Some(0)); // wrapped back
    let enter = Event::Key(Key::new(KeyCode::Enter));
    assert_eq!(s.handle(&enter, 3), InputOutcome::Submitted);
    let esc = Event::Key(Key::new(KeyCode::Esc));
    assert_eq!(s.handle(&esc, 3), InputOutcome::Cancelled);
}

#[test]
fn common_navigation_supports_vim_ctrl_tab_and_numbers() {
    let policy = SelectNavigation::common();
    let mut state = SelectState::new();
    assert_eq!(
        state.handle_with(&Event::Key(Key::new(KeyCode::Char('j'))), 4, policy),
        InputOutcome::Changed
    );
    assert_eq!(state.selected(), Some(1));
    assert_eq!(
        state.handle_with(
            &Event::Key(Key {
                code: KeyCode::Char('p'),
                ctrl: true,
                alt: false,
                shift: false
            }),
            4,
            policy
        ),
        InputOutcome::Changed
    );
    assert_eq!(state.selected(), Some(0));
    assert_eq!(
        state.handle_with(&Event::Key(Key::new(KeyCode::BackTab)), 4, policy),
        InputOutcome::Changed
    );
    assert_eq!(state.selected(), Some(3));
    assert_eq!(
        state.handle_with(&Event::Key(Key::new(KeyCode::Char('2'))), 4, policy),
        InputOutcome::Submitted
    );
    assert_eq!(state.selected(), Some(1));
}

#[test]
fn default_navigation_does_not_claim_optional_aliases() {
    let mut state = SelectState::new();
    for code in [KeyCode::Char('j'), KeyCode::Tab, KeyCode::Char('1')] {
        assert_eq!(
            state.handle_with(&Event::Key(Key::new(code)), 3, SelectNavigation::default()),
            InputOutcome::Ignored
        );
    }
    assert_eq!(state.selected(), Some(0));
}

#[test]
fn mouse_hit_testing_respects_bounds_and_scroll_offset() {
    let mut state = SelectState::new();
    let bounds = Rect::new(10, 5, 20, 3);
    let click = Event::Mouse(Mouse::at(MouseKind::Down(MouseButton::Left), 12, 6));
    assert_eq!(state.handle_mouse(&click, 10, bounds, 4), InputOutcome::Submitted);
    assert_eq!(state.selected(), Some(5));

    let outside = Event::Mouse(Mouse::at(MouseKind::Down(MouseButton::Left), 9, 6));
    assert_eq!(state.handle_mouse(&outside, 10, bounds, 4), InputOutcome::Ignored);
}

#[test]
fn multi_select_toggles_without_losing_cursor_navigation() {
    let mut state = MultiSelectState::new();
    let policy = SelectNavigation::common();
    assert_eq!(
        state.handle(&Event::Key(Key::new(KeyCode::Char(' '))), 3, policy),
        InputOutcome::Changed
    );
    assert!(state.contains(0));
    assert_eq!(
        state.handle(&Event::Key(Key::new(KeyCode::Char('j'))), 3, policy),
        InputOutcome::Changed
    );
    assert_eq!(
        state.handle(&Event::Key(Key::new(KeyCode::Enter)), 3, policy),
        InputOutcome::Changed
    );
    assert_eq!(state.selected(), vec![0, 1]);
    assert_eq!(
        state.handle(&Event::Key(Key::new(KeyCode::Char('1'))), 3, policy),
        InputOutcome::Changed
    );
    assert_eq!(state.selected(), vec![1]);
}

#[test]
fn select_move_up_down_clamp_at_ends() {
    let mut s = SelectState::new();
    // Down steps forward, clamping at the last of `len` rows (no wrap).
    s.move_down(3);
    assert_eq!(s.selected(), Some(1));
    s.move_down(3);
    assert_eq!(s.selected(), Some(2));
    s.move_down(3);
    assert_eq!(s.selected(), Some(2)); // held at the bottom, not wrapped
    // Up steps back, clamping at the top.
    s.move_up();
    assert_eq!(s.selected(), Some(1));
    s.move_up();
    s.move_up();
    assert_eq!(s.selected(), Some(0)); // held at the top, not wrapped
    // Degenerate: an empty list clears the highlight.
    s.move_down(0);
    assert_eq!(s.selected(), None);
}

#[test]
fn select_state_select_sets_index_directly() {
    // A host can drive the highlight from its own state.
    let mut s = SelectState::new();
    s.select(Some(2));
    assert_eq!(s.selected(), Some(2));
}

#[test]
fn unselected_state_ignores_enter_and_defaults_to_the_first_row() {
    assert_eq!(SelectState::default().selected(), Some(0));
    let mut state = SelectState::unselected();
    assert_eq!(state.selected(), None);
    assert_eq!(state.handle(&key(KeyCode::Enter), 2), InputOutcome::Ignored);
    // A step from no selection lands on an end of the list.
    assert_eq!(state.handle(&key(KeyCode::Down), 2), InputOutcome::Changed);
    assert_eq!(state.selected(), Some(0));
}

#[test]
fn a_single_row_list_answers_consumed_to_steps() {
    let mut state = SelectState::new();
    assert_eq!(state.handle(&key(KeyCode::Down), 1), InputOutcome::Consumed);
    assert_eq!(state.handle(&key(KeyCode::Up), 1), InputOutcome::Consumed);
    assert_eq!(state.selected(), Some(0));
}

#[test]
fn an_empty_list_ignores_every_key() {
    let mut state = SelectState::new();
    for code in [KeyCode::Down, KeyCode::Up, KeyCode::Enter, KeyCode::Esc] {
        assert_eq!(state.handle(&key(code), 0), InputOutcome::Ignored);
    }
    assert_eq!(state.selected(), Some(0));
}

#[test]
fn modified_keys_and_other_events_are_ignored() {
    let mut state = SelectState::new();
    let alt_down = Event::Key(Key {
        code: KeyCode::Down,
        ctrl: false,
        alt: true,
        shift: false,
    });
    assert_eq!(state.handle(&alt_down, 3), InputOutcome::Ignored);
    assert_eq!(state.handle(&Event::Paste("x".to_string()), 3), InputOutcome::Ignored);
    assert_eq!(state.handle(&Event::FocusGained, 3), InputOutcome::Ignored);
    // A digit past the end of the list is not a shortcut.
    assert_eq!(
        state.handle_with(&key(KeyCode::Char('9')), 3, SelectNavigation::common()),
        InputOutcome::Ignored
    );
    assert_eq!(state.selected(), Some(0));
}

#[test]
fn out_of_range_selection_steps_back_into_the_list() {
    let mut state = SelectState::new();
    state.select(Some(usize::MAX));
    assert_eq!(state.handle(&key(KeyCode::Down), 3), InputOutcome::Changed);
    assert_eq!(state.selected(), Some(0));
    state.select(Some(7));
    assert_eq!(state.handle(&key(KeyCode::Up), 3), InputOutcome::Changed);
    assert_eq!(state.selected(), Some(2));
}

#[test]
fn down_then_up_returns_to_the_starting_row() {
    for start in 0..4 {
        let mut state = SelectState::new();
        state.select(Some(start));
        state.handle(&key(KeyCode::Down), 4);
        state.handle(&key(KeyCode::Up), 4);
        assert_eq!(state.selected(), Some(start));
    }
}

#[test]
fn clamp_keeps_the_highlight_in_range() {
    let mut state = SelectState::new();
    state.select(Some(9));
    state.clamp(4);
    assert_eq!(state.selected(), Some(3));
    state.clamp(4);
    assert_eq!(state.selected(), Some(3));
    state.clamp(0);
    assert_eq!(state.selected(), None);
}

#[test]
fn space_twice_restores_the_checked_rows() {
    let mut state = MultiSelectState::new();
    let policy = SelectNavigation::default();
    let space = key(KeyCode::Char(' '));
    assert_eq!(state.handle(&space, 3, policy), InputOutcome::Changed);
    assert_eq!(state.selected(), vec![0]);
    assert_eq!(state.handle(&space, 3, policy), InputOutcome::Changed);
    assert!(state.selected().is_empty());
    // Space on an empty list toggles nothing.
    assert_eq!(state.handle(&space, 0, policy), InputOutcome::Ignored);
    assert_eq!(state.cursor().selected(), None);
}

#[test]
fn multi_select_mouse_toggles_the_clicked_row() {
    let mut state = MultiSelectState::new();
    let bounds = Rect::new(0, 0, 10, 3);
    let click = Event::Mouse(Mouse::at(MouseKind::Down(MouseButton::Left), 1, 2));
    assert_eq!(state.handle_mouse(&click, 5, bounds, 1), InputOutcome::Changed);
    assert!(state.contains(3));
    assert_eq!(state.cursor().selected(), Some(3));
    assert_eq!(state.handle_mouse(&click, 5, bounds, 1), InputOutcome::Changed);
    assert!(!state.contains(3));
    let right = Event::Mouse(Mouse::at(MouseKind::Down(MouseButton::Right), 1, 2));
    assert_eq!(state.handle_mouse(&right, 5, bounds, 1), InputOutcome::Ignored);
    state.cursor_mut().select(Some(4));
    assert_eq!(state.cursor().selected(), Some(4));
    state.clear();
    assert!(state.selected().is_empty());
}

#[test]
fn a_windowed_list_centres_the_selection_and_sizes_its_thumb() {
    let layout = select_rows(20, Some(12), Some(4), true, Rect::new(0, 0, 10, 4));
    assert_eq!(layout.start, 10);
    assert_eq!(layout.rows, 4);
    assert_eq!(layout.drawn, 4);
    assert_eq!(layout.row_width, 9);
    assert_eq!(layout.selected_row, Some(2));
    assert_eq!(
        layout.scrollbar,
        Some(ScrollThumb { x: 9, top: 0, track: 4, thumb_top: 1, thumb: 1 })
    );
}

#[test]
fn a_short_list_shows_every_row_without_a_scrollbar() {
    let layout = select_rows(3, Some(1), None, true, Rect::new(2, 3, 8, 5));
    assert_eq!((layout.start, layout.rows, layout.drawn), (0, 3, 3));
    assert_eq!(layout.row_width, 8);
    assert_eq!(layout.selected_row, Some(4));
    assert_eq!(layout.scrollbar, None);
    // A list taller than its area is cut at the bottom edge.
    let cut = select_rows(6, Some(5), None, false, Rect::new(0, 0, 4, 2));
    assert_eq!((cut.rows, cut.drawn, cut.selected_row), (6, 2, None));
    // Without a scrollbar the rows keep the full width.
    let plain = select_rows(20, None, Some(4), false, Rect::new(0, 0, 10, 4));
    assert_eq!((plain.start, plain.row_width, plain.scrollbar), (0, 10, None));
}
