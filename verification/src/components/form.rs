//! Focus traversal for a labeled form.

use vstd::prelude::*;

use crate::event::{Event, EventFlow, KeyCode};

verus! {

/// Result of routing a form-level navigation event.
#[derive(Clone, Copy, Debug, PartialEq, Eq, Structural)]
pub enum FormOutcome {
    /// Focus moved, with the event's consumed status.
    FocusChanged(EventFlow),
    /// The host should submit the form.
    Submitted,
    /// The host should cancel the form.
    Cancelled,
}

/// The focused field and answer after `event` on a form of `count` fields:
/// Tab moves to the next field and BackTab to the previous one, cycling
/// round the ends; a focus stored past the end counts from its place modulo
/// `count`, so traversal always lands on a field.
pub open spec fn form_handle_spec(focused: usize, event: Event, count: usize) -> (usize, FormOutcome) {
    match event {
        Event::Key(k) => if k.code == KeyCode::Tab && k.is_plain() && count > 0 {
            (((focused + 1) % (count as int)) as usize, FormOutcome::FocusChanged(EventFlow::Consumed))
        } else if k.code == KeyCode::BackTab && count > 0 {
            (
                ((focused + count - 1) % (count as int)) as usize,
                FormOutcome::FocusChanged(EventFlow::Consumed),
            )
        } else if k.code == KeyCode::Enter && k.is_plain() {
            (focused, FormOutcome::Submitted)
        } else if k.code == KeyCode::Esc && k.is_plain() {
            (focused, FormOutcome::Cancelled)
        } else {
            (focused, FormOutcome::FocusChanged(EventFlow::Ignored))
        },
        _ => (focused, FormOutcome::FocusChanged(EventFlow::Ignored)),
    }
}

/// Host-owned focus state for a form.
#[derive(Clone, Copy, Debug)]
pub struct FormState {
    focused: usize,
}

impl View for FormState {
    type V = usize;

    /// The focused field index.
    closed spec fn view(&self) -> usize {
        self.focused
    }
}

impl Default for FormState {
    fn default() -> (s: Self)
        ensures
            s@ == 0,
    {
        Self::new()
    }
}

impl FormState {
    /// Create state focused on the first field.
    pub fn new() -> (s: Self)
        ensures
            s@ == 0,
    {
        FormState { focused: 0 }
    }

    /// Current focused field index.
    pub fn focused(&self) -> (r: usize)
        ensures
            r == self@,
    {
        self.focused
    }

    /// Set focus explicitly; a later [`clamp`](Self::clamp) bounds it.
    pub fn focus(&mut self, index: usize)
        ensures
            final(self)@ == index,
    {
        self.focused = index;
    }

    /// Keep focus within `field_count`.
    pub fn clamp(&mut self, field_count: usize)
        ensures
            final(self)@ == (if field_count == 0 {
                0
            } else if old(self)@ < field_count {
                old(self)@
            } else {
                (field_count - 1) as usize
            }),
    {
        self.focused = if field_count == 0 {
            0
        } else if self.focused < field_count {
            self.focused
        } else {
            field_count - 1
        };
    }

    /// Handle Tab/BackTab traversal, Enter submission, and Esc cancellation.
    ///
    /// Give the focused control first refusal when Enter or Esc has
    /// control-specific meaning, then pass ignored events here.
    pub fn handle(&mut self, event: &Event, field_count: usize) -> (r: FormOutcome)
        ensures
            (final(self)@, r) == form_handle_spec(old(self)@, *event, field_count),
    {
        let key = match event {
            Event::Key(key) => *key,
            _ => {
                return FormOutcome::FocusChanged(EventFlow::Ignored);
            },
        };
        if key.code == KeyCode::Tab && key.plain() && field_count > 0 {
            let at = self.focused % field_count;
            let next = if at + 1 == field_count { 0 } else { at + 1 };
            proof {
                let (f, n) = (self.focused as int, field_count as int);
                assert(next as int == (f + 1) % n) by (nonlinear_arith)
                    requires
                        n > 0,
                        f >= 0,
                        at as int == f % n,
                        next as int == (if at + 1 == n { 0 } else { at + 1 }),
                ;
            }
            self.focused = next;
            FormOutcome::FocusChanged(EventFlow::Consumed)
        } else if key.code == KeyCode::BackTab && field_count > 0 {
            let at = self.focused % field_count;
            let previous = if at == 0 { field_count - 1 } else { at - 1 };
            proof {
                let (f, n) = (self.focused as int, field_count as int);
                assert(previous as int == (f + n - 1) % n) by (nonlinear_arith)
                    requires
                        n > 0,
                        f >= 0,
                        at as int == f % n,
                        previous as int == (if at == 0 { n - 1 } else { at - 1 }),
                ;
            }
            self.focused = previous;
            FormOutcome::FocusChanged(EventFlow::Consumed)
        } else if key.code == KeyCode::Enter && key.plain() {
            FormOutcome::Submitted
        } else if key.code == KeyCode::Esc && key.plain() {
            FormOutcome::Cancelled
        } else {
            FormOutcome::FocusChanged(EventFlow::Ignored)
        }
    }
}

/// A Tab or BackTab press with no modifiers.
pub open spec fn traversal_key(back: bool) -> Event {
    Event::Key(
        crate::event::Key {
            code: if back { KeyCode::BackTab } else { KeyCode::Tab },
            ctrl: false,
            alt: false,
            shift: false,
        },
    )
}

/// Tab then BackTab (or BackTab then Tab) returns focus to the field that
/// held it, and traversal always lands on one of the fields.
pub proof fn tab_then_back_tab_restores_field(focused: usize, count: usize)
    requires
        focused < count,
    ensures
        form_handle_spec(focused, traversal_key(false), count).0 < count,
        form_handle_spec(focused, traversal_key(true), count).0 < count,
        form_handle_spec(
            form_handle_spec(focused, traversal_key(false), count).0,
            traversal_key(true),
            count,
        ).0 == focused,
        form_handle_spec(
            form_handle_spec(focused, traversal_key(true), count).0,
            traversal_key(false),
            count,
        ).0 == focused,
{
    let f = focused as int;
    let n = count as int;
    let a = (f + 1) % n;
    let b = (f + n - 1) % n;
    assert(0 <= a < n && 0 <= b < n) by (nonlinear_arith)
        requires
            0 <= f < n,
            a == (f + 1) % n,
            b == (f + n - 1) % n,
    ;
    assert((a + n - 1) % n == f) by (nonlinear_arith)
        requires
            0 <= f < n,
            a == (f + 1) % n,
    ;
    assert((b + 1) % n == f) by (nonlinear_arith)
        requires
            0 <= f < n,
            b == (f + n - 1) % n,
    ;
}

} // verus!
