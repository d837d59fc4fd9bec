use tuika::components::{FormOutcome, FormState};
use tuika::event::{Event, EventFlow, Key, KeyCode};

fn key(code: KeyCode) -> Event {
    Event::Key(Key::new(code))
}

#[test]
fn form_traverses_submits_and_cancels() {
    let mut state = FormState::new();
    assert_eq!(
        state.handle(&Event::Key(Key::new(KeyCode::Tab)), 2),
        FormOutcome::FocusChanged(EventFlow::Consumed)
    );
    assert_eq!(state.focused(), 1);
    assert_eq!(
        state.handle(&Event::Key(Key::new(KeyCode::Enter)), 2),
        FormOutcome::Submitted
    );
    assert_eq!(
        state.handle(&Event::Key(Key::new(KeyCode::Esc)), 2),
        FormOutcome::Cancelled
    );
}

#[test]
fn traversal_wraps_both_ways() {
    let mut state = FormState::default();
    assert_eq!(state.handle(&key(KeyCode::BackTab), 3), FormOutcome::FocusChanged(EventFlow::Consumed));
    assert_eq!(state.focused(), 2);
    state.handle(&key(KeyCode::Tab), 3);
    assert_eq!(state.focused(), 0);
    state.handle(&key(KeyCode::Tab), 3);
    state.handle(&key(KeyCode::BackTab), 3);
    assert_eq!(state.focused(), 0);
}

#[test]
fn an_empty_form_ignores_traversal() {
    let mut state = FormState::new();
    assert_eq!(state.handle(&key(KeyCode::Tab), 0), FormOutcome::FocusChanged(EventFlow::Ignored));
    assert_eq!(state.handle(&key(KeyCode::Enter), 0), FormOutcome::Submitted);
    assert_eq!(
        state.handle(&Event::Paste("x".to_string()), 2),
        FormOutcome::FocusChanged(EventFlow::Ignored)
    );
    let ctrl_enter = Event::Key(Key {
        code: KeyCode::Enter,
        ctrl: true,
        alt: false,
        shift: false,
    });
    assert_eq!(state.handle(&ctrl_enter, 2), FormOutcome::FocusChanged(EventFlow::Ignored));
}

#[test]
fn a_focus_past_the_end_still_lands_on_a_field() {
    let mut state = FormState::new();
    state.focus(usize::MAX);
    assert_eq!(state.handle(&key(KeyCode::Tab), 2), FormOutcome::FocusChanged(EventFlow::Consumed));
    assert_eq!(state.focused(), 0);
    state.focus(9);
    state.clamp(4);
    assert_eq!(state.focused(), 3);
    state.clamp(0);
    assert_eq!(state.focused(), 0);
}
