//! How the runner's drag selection answers one event, given what the
//! application's update made of it.

use vstd::prelude::*;

use crate::event::{Event, MouseButton, MouseKind};
use crate::runner::UpdateResult;

verus! {

/// What becomes of the runner's drag selection after one event.
#[derive(Clone, Copy, Debug, PartialEq, Eq, Structural)]
pub enum SelectionStep {
    /// The selection stays as it is; nothing needs repainting for it.
    Keep,
    /// The selection, and any copy it was waiting for, is dropped; a repaint
    /// is owed when one was showing.
    Clear {
        /// Whether a selection was showing, so dropping it changed the frame.
        repaint: bool,
    },
    /// The mouse event goes to the selection tracker, whose answer says
    /// whether the frame changed.
    Track,
}

/// A wheel movement in any direction.
pub open spec fn is_wheel(kind: MouseKind) -> bool {
    match kind {
        MouseKind::ScrollUp | MouseKind::ScrollDown | MouseKind::ScrollLeft
        | MouseKind::ScrollRight => true,
        _ => false,
    }
}

/// A press, drag or release of the left button: the gestures that select.
pub open spec fn is_left_gesture(kind: MouseKind) -> bool {
    match kind {
        MouseKind::Down(MouseButton::Left) | MouseKind::Drag(MouseButton::Left) | MouseKind::Up(
            MouseButton::Left,
        ) => true,
        _ => false,
    }
}

/// The selection's step for `event` after the update answered `result`,
/// with selection `enabled` and a selection `active` or not.
///
/// A resize drops the selection. Of mouse events only unmodified ones count:
/// a wheel movement that the application turned into a repaint drops it (the
/// text under it moved), left-button gestures go to the tracker when the
/// application left them alone and drop the selection when it handled them,
/// and everything else leaves it be.
pub open spec fn selection_step_spec(
    enabled: bool,
    event: Event,
    result: UpdateResult,
    active: bool,
) -> SelectionStep {
    if !enabled {
        SelectionStep::Keep
    } else {
        match event {
            Event::Mouse(m) => if !m.is_plain() {
                SelectionStep::Keep
            } else if is_wheel(m.kind) && result == UpdateResult::Dirty {
                SelectionStep::Clear { repaint: active }
            } else if !is_left_gesture(m.kind) {
                SelectionStep::Keep
            } else if result != UpdateResult::Clean {
                SelectionStep::Clear { repaint: active }
            } else {
                SelectionStep::Track
            },
            Event::Resize { .. } => SelectionStep::Clear { repaint: active },
            _ => SelectionStep::Keep,
        }
    }
}

/// Decide what the runner's drag selection does with `event`, after the
/// application's update answered `result`; `enabled` says whether the
/// runner selects text at all and `active` whether a selection is showing.
pub fn selection_step(enabled: bool, event: &Event, result: UpdateResult, active: bool) -> (r:
    SelectionStep)
    ensures
        r == selection_step_spec(enabled, *event, result, active),
{
    if !enabled {
        return SelectionStep::Keep;
    }
    match event {
        Event::Mouse(m) => {
            if !m.plain() {
                return SelectionStep::Keep;
            }
            let wheel = match m.kind {
                MouseKind::ScrollUp | MouseKind::ScrollDown | MouseKind::ScrollLeft
                | MouseKind::ScrollRight => true,
                _ => false,
            };
            let dirty = match result {
                UpdateResult::Dirty => true,
                _ => false,
            };
            if wheel && dirty {
                return SelectionStep::Clear { repaint: active };
            }
            let left = match m.kind {
                MouseKind::Down(MouseButton::Left) | MouseKind::Drag(MouseButton::Left)
                | MouseKind::Up(MouseButton::Left) => true,
                _ => false,
            };
            if !left {
                return SelectionStep::Keep;
            }
            match result {
                UpdateResult::Clean => SelectionStep::Track,
                _ => SelectionStep::Clear { repaint: active },
            }
        },
        Event::Resize { .. } => SelectionStep::Clear { repaint: active },
        _ => SelectionStep::Keep,
    }
}

/// Whether the tracker's answer to a left-button release leaves a finished
/// range to copy: the release changed the selection and a range remains.
pub fn copies_after(changed: bool, kind: MouseKind, has_range: bool) -> (r: bool)
    ensures
        r == (changed && kind == MouseKind::Up(MouseButton::Left) && has_range),
{
    changed && has_range && match kind {
        MouseKind::Up(MouseButton::Left) => true,
        _ => false,
    }
}

/// A selection that is not enabled never changes, whatever the event.
pub proof fn a_disabled_selection_ignores_everything(
    event: Event,
    result: UpdateResult,
    active: bool,
)
    ensures
        selection_step_spec(false, event, result, active) == SelectionStep::Keep,
{
}

/// Once the application has handled a left-button gesture, the runner's
/// selection gives way to it: it is dropped, never tracked.
pub proof fn handled_gestures_never_select(
    event: Event,
    result: UpdateResult,
    active: bool,
)
    requires
        result != UpdateResult::Clean,
    ensures
        selection_step_spec(true, event, result, active) != SelectionStep::Track,
{
}

} // verus!
