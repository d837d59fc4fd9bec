//! Selection and viewport state keyed by application identity.
//!
//! A row is identified by a stable `u64` key supplied by the host, not by its
//! current index, so a selection follows its record through reordering,
//! insertion and filtering. Every operation takes the keys of the rows in
//! display order; keys must be unique within the authoritative collection.

use vstd::prelude::*;

use std::collections::BTreeSet;

use crate::components::select::SelectNavigation;
use crate::components::window::{max_start, min_usize, sat_sub, VirtualWindow, WindowView};
use crate::event::{Event, InputOutcome, Key, KeyCode, MouseButton, MouseKind};
use crate::geometry::Rect;

verus! {

/// `a + b`, held at `usize::MAX`.
pub open spec fn sat_add(a: usize, b: usize) -> usize {
    if a + b > usize::MAX { usize::MAX } else { (a + b) as usize }
}

/// `i` is the first position of `key` in `keys`.
pub open spec fn is_first_position(keys: Seq<u64>, key: u64, i: int) -> bool {
    &&& 0 <= i < keys.len()
    &&& keys[i] == key
    &&& forall|j: int| 0 <= j < i ==> keys[j] != key
}

/// The first position of `key` in `keys`, if it occurs.
pub open spec fn first_position(keys: Seq<u64>, key: u64) -> Option<usize> {
    if exists|i: int| is_first_position(keys, key, i) {
        Some((choose|i: int| is_first_position(keys, key, i)) as usize)
    } else {
        None
    }
}

/// The row index of the selected key among `keys`, if it is shown.
pub open spec fn selected_position(selected: Option<u64>, keys: Seq<u64>) -> Option<usize> {
    match selected {
        Some(k) => first_position(keys, k),
        None => None,
    }
}

/// The plain state of a keyed selection.
pub struct KeyedView {
    /// The selected key, kept while it is filtered out.
    pub selected: Option<u64>,
    /// The top row of a manually scrolled viewport.
    pub offset: usize,
    /// Context rows kept around the selection.
    pub scroll_margin: usize,
    /// Whether the viewport follows the selection.
    pub follow_selection: bool,
}

/// The top row of the window: the stored offset, moved just enough to keep
/// the selected row (at `index`) and `scroll_margin` rows of context visible
/// while the viewport follows the selection.
pub open spec fn window_start(v: KeyedView, total: usize, visible: usize, index: Option<usize>) -> usize {
    let len = min_usize(visible, total);
    let start = min_usize(v.offset, max_start(total, len));
    match index {
        Some(i) => if v.follow_selection && i < total {
            let margin = min_usize(v.scroll_margin, sat_sub(len, 1) / 2);
            let lower = sat_add(start, margin);
            let upper = sat_add(start, sat_sub(len, margin));
            if i < lower {
                sat_sub(i, margin)
            } else if i >= upper {
                sat_sub(sat_add(sat_add(i, margin), 1), len)
            } else {
                start
            }
        } else {
            start
        },
        None => start,
    }
}

/// The window over `total` rows with `visible` rows of room, the selected row
/// being at `index`.
pub open spec fn window_at_spec(v: KeyedView, total: usize, visible: usize, index: Option<usize>) -> WindowView {
    let len = min_usize(visible, total);
    WindowView {
        total,
        len,
        start: min_usize(window_start(v, total, visible, index), max_start(total, len)),
    }
}

/// The window over the rows with keys `keys`.
pub open spec fn keyed_window(v: KeyedView, keys: Seq<u64>, visible: usize) -> WindowView {
    window_at_spec(v, keys.len() as usize, visible, selected_position(v.selected, keys))
}

/// A move of the keyboard cursor.
pub enum Step {
    /// To the first row.
    First,
    /// To the last row.
    Last,
    /// Down by this many rows, held at the last row.
    Forward(usize),
    /// Up by this many rows, held at the first row.
    Backward(usize),
}

/// The rows a page key moves: one less than the viewport, at least one.
pub open spec fn page_rows(viewport_rows: usize) -> usize {
    let p = sat_sub(viewport_rows, 1);
    if p == 0 { 1 } else { p }
}

/// The cursor move a key press asks for, when it is a move.
pub open spec fn step_for(k: Key, viewport_rows: usize, nav: SelectNavigation) -> Option<Step> {
    if nav.ctrl_n_p && k.ctrl && !k.alt && !k.shift {
        match k.code {
            KeyCode::Char('n') => Some(Step::Forward(1)),
            KeyCode::Char('p') => Some(Step::Backward(1)),
            _ => None,
        }
    } else if k.is_plain() {
        match k.code {
            KeyCode::Down => Some(Step::Forward(1)),
            KeyCode::Up => Some(Step::Backward(1)),
            KeyCode::Char(c) => if c == 'j' && nav.vim {
                Some(Step::Forward(1))
            } else if c == 'k' && nav.vim {
                Some(Step::Backward(1))
            } else {
                None
            },
            KeyCode::Tab => if nav.tab { Some(Step::Forward(1)) } else { None },
            KeyCode::BackTab => if nav.tab { Some(Step::Backward(1)) } else { None },
            KeyCode::PageDown => Some(Step::Forward(page_rows(viewport_rows))),
            KeyCode::PageUp => Some(Step::Backward(page_rows(viewport_rows))),
            KeyCode::Home => Some(Step::First),
            KeyCode::End => Some(Step::Last),
            _ => None,
        }
    } else {
        None
    }
}

/// The row a step lands on among `len > 0` rows from the row at `current`.
pub open spec fn step_target(step: Step, current: Option<usize>, len: usize) -> usize {
    match step {
        Step::First => 0,
        Step::Last => (len - 1) as usize,
        Step::Backward(n) => sat_sub(
            match current {
                Some(c) => c,
                None => len,
            },
            n,
        ),
        Step::Forward(n) => min_usize(
            match current {
                Some(c) => sat_add(c, n),
                None => 0,
            },
            (len - 1) as usize,
        ),
    }
}

/// The state after selecting `key` from the keyboard or the mouse.
pub open spec fn chose(v: KeyedView, key: u64) -> KeyedView {
    KeyedView { selected: Some(key), follow_selection: true, ..v }
}

/// The zero-based row a digit shortcut names (`'1'` is row 0), for `1` to `9`.
pub open spec fn shortcut_row(code: KeyCode) -> Option<int> {
    match code {
        KeyCode::Char(c) => if '1' <= c && c <= '9' {
            Some(c as int - '1' as int)
        } else {
            None
        },
        _ => None,
    }
}

/// State and answer after a key press on the rows with keys `keys`.
pub open spec fn keyed_key_spec(
    v: KeyedView,
    k: Key,
    keys: Seq<u64>,
    viewport_rows: usize,
    nav: SelectNavigation,
) -> (KeyedView, InputOutcome) {
    let current = selected_position(v.selected, keys);
    let plain = !(nav.ctrl_n_p && k.ctrl && !k.alt && !k.shift) && k.is_plain();
    if keys.len() == 0 {
        if k.code == KeyCode::Esc && k.is_plain() {
            (v, InputOutcome::Cancelled)
        } else {
            (v, InputOutcome::Ignored)
        }
    } else if plain && nav.numeric && shortcut_row(k.code) is Some {
        match shortcut_row(k.code) {
            Some(index) => if index < keys.len() {
                (chose(v, keys[index]), InputOutcome::Submitted)
            } else {
                (v, InputOutcome::Ignored)
            },
            None => (v, InputOutcome::Ignored),
        }
    } else if plain && k.code == KeyCode::Enter {
        if current is Some {
            (v, InputOutcome::Submitted)
        } else {
            (v, InputOutcome::Ignored)
        }
    } else if plain && k.code == KeyCode::Esc {
        (v, InputOutcome::Cancelled)
    } else {
        match step_for(k, viewport_rows, nav) {
            Some(step) => {
                let next = step_target(step, current, keys.len() as usize);
                let key = keys[next as int];
                (
                    chose(v, key),
                    if v.selected == Some(key) {
                        InputOutcome::Consumed
                    } else {
                        InputOutcome::Changed
                    },
                )
            },
            None => (v, InputOutcome::Ignored),
        }
    }
}

/// State and answer after a wheel event: the viewport moves three rows from
/// where it was shown and stops following the selection.
pub open spec fn keyed_wheel_spec(v: KeyedView, kind: MouseKind, keys: Seq<u64>, viewport_rows: usize) -> (
    KeyedView,
    InputOutcome,
) {
    let before = keyed_window(v, keys, viewport_rows).start;
    let max = max_start(keys.len() as usize, viewport_rows);
    let shown = KeyedView { offset: before, ..v };
    match kind {
        MouseKind::ScrollUp => {
            let offset = sat_sub(before, 3);
            (
                KeyedView { offset, follow_selection: false, ..v },
                if offset == before { InputOutcome::Consumed } else { InputOutcome::Changed },
            )
        },
        MouseKind::ScrollDown => {
            let offset = min_usize(sat_add(before, 3), max);
            (
                KeyedView { offset, follow_selection: false, ..v },
                if offset == before { InputOutcome::Consumed } else { InputOutcome::Changed },
            )
        },
        _ => (shown, InputOutcome::Ignored),
    }
}

/// State and answer after `event` on the rows with keys `keys`.
pub open spec fn keyed_handle_spec(
    v: KeyedView,
    event: Event,
    keys: Seq<u64>,
    viewport_rows: usize,
    nav: SelectNavigation,
) -> (KeyedView, InputOutcome) {
    match event {
        Event::Mouse(m) => keyed_wheel_spec(v, m.kind, keys, viewport_rows),
        Event::Key(k) => keyed_key_spec(v, k, keys, viewport_rows, nav),
        _ => (v, InputOutcome::Ignored),
    }
}

/// The row a plain left click lands on in `window`, when it lands on a row.
pub open spec fn keyed_click(event: Event, len: usize, bounds: Rect, window: WindowView) -> Option<usize> {
    match event {
        Event::Mouse(m) => {
            let index = window.start + (m.row - bounds.y);
            if m.is_plain() && m.kind == MouseKind::Down(MouseButton::Left) && bounds.holds(
                m.column,
                m.row,
            ) && index < len && index < window.start + window.len {
                Some(index as usize)
            } else {
                None
            }
        },
        _ => None,
    }
}

/// A click inside `bounds` names a row index that fits in `usize`.
pub open spec fn click_fits(event: Event, bounds: Rect, window: WindowView) -> bool {
    match event {
        Event::Mouse(m) => bounds.holds(m.column, m.row) ==> window.start + (m.row - bounds.y)
            <= usize::MAX,
        _ => true,
    }
}

/// Host-owned single-selection and viewport state keyed by application identity.
#[derive(Clone, Debug)]
pub struct KeyedSelectState {
    selected: Option<u64>,
    offset: usize,
    scroll_margin: usize,
    follow_selection: bool,
}

impl View for KeyedSelectState {
    type V = KeyedView;

    closed spec fn view(&self) -> KeyedView {
        KeyedView {
            selected: self.selected,
            offset: self.offset,
            scroll_margin: self.scroll_margin,
            follow_selection: self.follow_selection,
        }
    }
}

impl Default for KeyedSelectState {
    fn default() -> (s: Self)
        ensures
            s@ == (KeyedView {
                selected: None,
                offset: 0,
                scroll_margin: 0,
                follow_selection: true,
            }),
    {
        Self::new()
    }
}

/// The index of the first row whose key is `key`.
fn position(keys: &[u64], key: u64) -> (r: Option<usize>)
    ensures
        r == first_position(keys@, key),
{
    let mut i: usize = 0;
    while i < keys.len()
        invariant
            i <= keys@.len(),
            forall|j: int| 0 <= j < i ==> keys@[j] != key,
        decreases keys@.len() - i,
    {
        if keys[i] == key {
            proof {
                assert(is_first_position(keys@, key, i as int));
                let c = choose|c: int| is_first_position(keys@, key, c);
                assert(c == i as int) by {
                    if c < i {
                    } else if c > i {
                        assert(keys@[i as int] != key);
                    }
                }
            }
            return Some(i);
        }
        i = i + 1;
    }
    proof {
        assert forall|c: int| !is_first_position(keys@, key, c) by {
            if 0 <= c < keys@.len() {
                assert(keys@[c] != key);
            }
        }
    }
    None
}

/// Whether `key` is one of `keys`.
fn is_present(keys: &[u64], key: u64) -> (r: bool)
    ensures
        r == keys@.contains(key),
{
    let mut i: usize = 0;
    while i < keys.len()
        invariant
            i <= keys@.len(),
            forall|j: int| 0 <= j < i ==> keys@[j] != key,
        decreases keys@.len() - i,
    {
        if keys[i] == key {
            assert(keys@[i as int] == key);
            return true;
        }
        i = i + 1;
    }
    false
}

impl KeyedSelectState {
    /// Create an unselected state at the top of the collection.
    pub fn new() -> (s: Self)
        ensures
            s@ == (KeyedView {
                selected: None,
                offset: 0,
                scroll_margin: 0,
                follow_selection: true,
            }),
    {
        Self { selected: None, offset: 0, scroll_margin: 0, follow_selection: true }
    }

    /// Create state selecting `key`.
    pub fn with_selected(key: u64) -> (s: Self)
        ensures
            s@ == (KeyedView {
                selected: Some(key),
                offset: 0,
                scroll_margin: 0,
                follow_selection: true,
            }),
    {
        Self { selected: Some(key), offset: 0, scroll_margin: 0, follow_selection: true }
    }

    /// The stable key currently selected, including while filtered out.
    pub fn selected(&self) -> (r: Option<&u64>)
        ensures
            r == (match self@.selected {
                Some(k) => Some(&k),
                None => None,
            }),
    {
        self.selected.as_ref()
    }

    /// Select or clear an application key directly.
    pub fn select(&mut self, key: Option<u64>)
        ensures
            final(self)@ == (KeyedView { selected: key, follow_selection: true, ..old(self)@ }),
    {
        self.selected = key;
        self.follow_selection = true;
    }

    /// Top row of a manually scrolled viewport.
    pub fn offset(&self) -> (r: usize)
        ensures
            r == self@.offset,
    {
        self.offset
    }

    /// Set the top row explicitly, detaching the viewport from the selection.
    pub fn set_offset(&mut self, offset: usize)
        ensures
            final(self)@ == (KeyedView { offset, follow_selection: false, ..old(self)@ }),
    {
        self.offset = offset;
        self.follow_selection = false;
    }

    /// Keep this many context rows around keyboard and mouse selection when possible.
    pub fn set_scroll_margin(&mut self, rows: usize)
        ensures
            final(self)@ == (KeyedView { scroll_margin: rows, ..old(self)@ }),
    {
        self.scroll_margin = rows;
    }

    /// Remove a selected key only when it is absent from the authoritative rows.
    ///
    /// Do not call this with a filtered slice: absence is intentionally
    /// preserved across filtering and streaming windows.
    pub fn retain_present(&mut self, keys: &[u64])
        ensures
            final(self)@ == (KeyedView {
                selected: match old(self)@.selected {
                    Some(k) => if keys@.contains(k) {
                        Some(k)
                    } else {
                        None
                    },
                    None => None,
                },
                ..old(self)@
            }),
    {
        if let Some(selected) = self.selected {
            if !is_present(keys, selected) {
                self.selected = None;
            }
        }
    }

    /// Resolve the visible window for the rows with keys `keys`.
    pub fn window(&self, keys: &[u64], visible: usize) -> (w: VirtualWindow)
        ensures
            w@ == keyed_window(self@, keys@, visible),
            w.fits(),
    {
        let selected_index = match self.selected {
            Some(k) => position(keys, k),
            None => None,
        };
        self.window_at(keys.len(), visible, selected_index)
    }

    pub fn window_at(&self, total: usize, visible: usize, selected_index: Option<usize>) -> (w:
        VirtualWindow)
        ensures
            w@ == window_at_spec(self@, total, visible, selected_index),
            w.fits(),
    {
        let len = if visible <= total { visible } else { total };
        let last = VirtualWindow::max_start_for(total, len);
        let mut start = if self.offset <= last { self.offset } else { last };
        if self.follow_selection {
            if let Some(index) = selected_index {
                if index < total {
                    let half = len.saturating_sub(1) / 2;
                    let margin = if self.scroll_margin <= half { self.scroll_margin } else { half };
                    let lower = start.saturating_add(margin);
                    let upper = start.saturating_add(len.saturating_sub(margin));
                    if index < lower {
                        start = index.saturating_sub(margin);
                    } else if index >= upper {
                        start = index.saturating_add(margin).saturating_add(1).saturating_sub(len);
                    }
                }
            }
        }
        VirtualWindow::new(total, len, start)
    }

    /// Handle keyboard navigation and wheel scrolling over the visible rows.
    pub fn handle(&mut self, event: &Event, keys: &[u64], viewport_rows: usize) -> (r: InputOutcome)
        ensures
            (final(self)@, r) == keyed_handle_spec(
                old(self)@,
                *event,
                keys@,
                viewport_rows,
                SelectNavigation::plain_policy(),
            ),
    {
        self.handle_with(
            event,
            keys,
            viewport_rows,
            SelectNavigation { vim: false, ctrl_n_p: false, tab: false, numeric: false },
        )
    }

    /// Handle input with the same optional aliases as [`SelectState`](super::SelectState).
    pub fn handle_with(
        &mut self,
        event: &Event,
        keys: &[u64],
        viewport_rows: usize,
        navigation: SelectNavigation,
    ) -> (r: InputOutcome)
        ensures
            (final(self)@, r) == keyed_handle_spec(
                old(self)@,
                *event,
                keys@,
                viewport_rows,
                navigation,
            ),
    {
        match event {
            Event::Mouse(mouse) => self.handle_wheel(mouse.kind, keys, viewport_rows),
            Event::Key(k) => self.handle_key(*k, keys, viewport_rows, navigation),
            _ => InputOutcome::Ignored,
        }
    }

    fn handle_wheel(&mut self, kind: MouseKind, keys: &[u64], viewport_rows: usize) -> (r:
        InputOutcome)
        ensures
            (final(self)@, r) == keyed_wheel_spec(old(self)@, kind, keys@, viewport_rows),
    {
        let max = VirtualWindow::max_start_for(keys.len(), viewport_rows);
        let before = self.window(keys, viewport_rows).start();
        self.offset = before;
        match kind {
            MouseKind::ScrollUp => {
                self.offset = self.offset.saturating_sub(3);
            },
            MouseKind::ScrollDown => {
                let up = self.offset.saturating_add(3);
                self.offset = if up <= max { up } else { max };
            },
            _ => {
                return InputOutcome::Ignored;
            },
        }
        self.follow_selection = false;
        if self.offset == before {
            InputOutcome::Consumed
        } else {
            InputOutcome::Changed
        }
    }

    fn handle_key(&mut self, k: Key, keys: &[u64], viewport_rows: usize, navigation: SelectNavigation) -> (r:
        InputOutcome)
        ensures
            (final(self)@, r) == keyed_key_spec(old(self)@, k, keys@, viewport_rows, navigation),
    {
        if keys.len() == 0 {
            return if k.code == KeyCode::Esc && k.plain() {
                InputOutcome::Cancelled
            } else {
                InputOutcome::Ignored
            };
        }
        let current = match self.selected {
            Some(key) => position(keys, key),
            None => None,
        };
        let chord = navigation.ctrl_n_p && k.ctrl && !k.alt && !k.shift;
        if !chord && k.plain() {
            match k.code {
                KeyCode::Char(c) => {
                    if '1' <= c && c <= '9' && navigation.numeric {
                        let index = (c as u32 - '1' as u32) as usize;
                        if index < keys.len() {
                            self.selected = Some(keys[index]);
                            self.follow_selection = true;
                            return InputOutcome::Submitted;
                        }
                        return InputOutcome::Ignored;
                    }
                },
                KeyCode::Enter => {
                    return if current.is_some() {
                        InputOutcome::Submitted
                    } else {
                        InputOutcome::Ignored
                    };
                },
                KeyCode::Esc => {
                    return InputOutcome::Cancelled;
                },
                _ => {},
            }
        }
        let step = Self::step(k, viewport_rows, navigation);
        let step = match step {
            Some(s) => s,
            None => {
                return InputOutcome::Ignored;
            },
        };
        let len = keys.len();
        let next = match step {
            Step::First => 0,
            Step::Last => len - 1,
            Step::Backward(n) => {
                let from = match current {
                    Some(c) => c,
                    None => len,
                };
                from.saturating_sub(n)
            },
            Step::Forward(n) => {
                let to = match current {
                    Some(c) => c.saturating_add(n),
                    None => 0,
                };
                if to <= len - 1 {
                    to
                } else {
                    len - 1
                }
            },
        };
        let key = keys[next];
        let changed = self.selected != Some(key);
        self.selected = Some(key);
        self.follow_selection = true;
        if changed {
            InputOutcome::Changed
        } else {
            InputOutcome::Consumed
        }
    }

    fn step(k: Key, viewport_rows: usize, navigation: SelectNavigation) -> (r: Option<Step>)
        ensures
            r == step_for(k, viewport_rows, navigation),
    {
        let page_base = viewport_rows.saturating_sub(1);
        let page = if page_base == 0 { 1 } else { page_base };
        if navigation.ctrl_n_p && k.ctrl && !k.alt && !k.shift {
            return match k.code {
                KeyCode::Char('n') => Some(Step::Forward(1)),
                KeyCode::Char('p') => Some(Step::Backward(1)),
                _ => None,
            };
        }
        if !k.plain() {
            return None;
        }
        match k.code {
            KeyCode::Down => Some(Step::Forward(1)),
            KeyCode::Up => Some(Step::Backward(1)),
            KeyCode::Char(c) => if c == 'j' && navigation.vim {
                Some(Step::Forward(1))
            } else if c == 'k' && navigation.vim {
                Some(Step::Backward(1))
            } else {
                None
            },
            KeyCode::Tab => if navigation.tab {
                Some(Step::Forward(1))
            } else {
                None
            },
            KeyCode::BackTab => if navigation.tab {
                Some(Step::Backward(1))
            } else {
                None
            },
            KeyCode::PageDown => Some(Step::Forward(page)),
            KeyCode::PageUp => Some(Step::Backward(page)),
            KeyCode::Home => Some(Step::First),
            KeyCode::End => Some(Step::Last),
            _ => None,
        }
    }

    /// Select the clicked row in an already resolved viewport.
    pub fn handle_mouse(&mut self, event: &Event, keys: &[u64], bounds: Rect, window: VirtualWindow) -> (r:
        InputOutcome)
        requires
            click_fits(*event, bounds, window@),
        ensures
            match keyed_click(*event, keys@.len() as usize, bounds, window@) {
                Some(i) => final(self)@ == chose(old(self)@, keys@[i as int]) && r
                    == InputOutcome::Submitted,
                None => final(self)@ == old(self)@ && r == InputOutcome::Ignored,
            },
    {
        let mouse = match event {
            Event::Mouse(m) => *m,
            _ => {
                return InputOutcome::Ignored;
            },
        };
        if !mouse.plain() || mouse.kind != MouseKind::Down(MouseButton::Left) || mouse.column
            < bounds.x || mouse.column >= bounds.right() || mouse.row < bounds.y || mouse.row
            >= bounds.bottom() {
            return InputOutcome::Ignored;
        }
        let index = window.start() + (mouse.row - bounds.y) as usize;
        if index >= keys.len() || index >= window.end() {
            return InputOutcome::Ignored;
        }
        self.selected = Some(keys[index]);
        self.follow_selection = true;
        InputOutcome::Submitted
    }
}


/// The checked keys with `key` flipped: removed when present, added otherwise.
pub open spec fn toggled_key(checked: Set<u64>, key: u64) -> Set<u64> {
    if checked.contains(key) {
        checked.remove(key)
    } else {
        checked.insert(key)
    }
}

/// Cursor, checked keys and answer after toggling the cursor's key.
pub open spec fn keyed_toggle_spec(cursor: KeyedView, checked: Set<u64>) -> (
    KeyedView,
    Set<u64>,
    InputOutcome,
) {
    match cursor.selected {
        Some(k) => (cursor, toggled_key(checked, k), InputOutcome::Changed),
        None => (cursor, checked, InputOutcome::Ignored),
    }
}

/// Cursor, checked keys and answer after `event` on a keyed multi-selection.
pub open spec fn keyed_multi_handle_spec(
    cursor: KeyedView,
    checked: Set<u64>,
    event: Event,
    keys: Seq<u64>,
    viewport_rows: usize,
    nav: SelectNavigation,
) -> (KeyedView, Set<u64>, InputOutcome) {
    if event matches Event::Key(k) && k.is_plain() && k.code == KeyCode::Char(' ') {
        match cursor.selected {
            Some(key) => if keys.contains(key) {
                keyed_toggle_spec(cursor, checked)
            } else {
                (cursor, checked, InputOutcome::Ignored)
            },
            None => (cursor, checked, InputOutcome::Ignored),
        }
    } else {
        let (c, o) = keyed_handle_spec(cursor, event, keys, viewport_rows, nav);
        if o == InputOutcome::Submitted {
            keyed_toggle_spec(c, checked)
        } else {
            (c, checked, o)
        }
    }
}

/// Keyed cursor plus a stable set of checked row keys.
#[derive(Clone, Debug)]
pub struct KeyedMultiSelectState {
    cursor: KeyedSelectState,
    selected: BTreeSet<u64>,
}

impl View for KeyedMultiSelectState {
    type V = (KeyedView, Set<u64>);

    closed spec fn view(&self) -> (KeyedView, Set<u64>) {
        (self.cursor@, self.selected@)
    }
}

impl Default for KeyedMultiSelectState {
    fn default() -> (s: Self)
        ensures
            s@.0 == (KeyedView {
                selected: None,
                offset: 0,
                scroll_margin: 0,
                follow_selection: true,
            }),
            s@.1 == Set::<u64>::empty(),
    {
        Self::new()
    }
}

impl KeyedMultiSelectState {
    /// Create an empty multi-selection.
    pub fn new() -> (s: Self)
        ensures
            s@.0 == (KeyedView {
                selected: None,
                offset: 0,
                scroll_margin: 0,
                follow_selection: true,
            }),
            s@.1 == Set::<u64>::empty(),
    {
        Self { cursor: KeyedSelectState::new(), selected: BTreeSet::new() }
    }

    /// Cursor and viewport state.
    pub fn cursor(&self) -> (r: &KeyedSelectState)
        ensures
            r@ == self@.0,
    {
        &self.cursor
    }

    /// Mutable cursor and viewport state.
    pub fn cursor_mut(&mut self) -> (r: &mut KeyedSelectState)
        ensures
            r@ == old(self)@.0,
            final(self)@ == (final(r)@, old(self)@.1),
    {
        &mut self.cursor
    }

    /// Whether a stable key is checked.
    pub fn contains(&self, key: &u64) -> (r: bool)
        ensures
            r == self@.1.contains(*key),
    {
        broadcast use vstd::std_specs::btree::group_btree_axioms;

        self.selected.contains(key)
    }

    /// Checked keys in ascending key order.
    pub fn selected(&self) -> (r: Vec<u64>)
        ensures
            r@.to_set() == self@.1,
            forall|i: int, j: int| 0 <= i < j < r@.len() ==> r@[i] < r@[j],
    {
        broadcast use {vstd::std_specs::btree::group_btree_axioms, vstd::laws_cmp::group_laws_cmp};

        let ghost keys = vstd::std_specs::iter::IteratorSpec::remaining(
            &vstd::std_specs::btree::spec_btree_keys_iter(&self.selected),
        );
        let mut out: Vec<u64> = Vec::new();
        for k in it: self.selected.iter()
            invariant
                it.seq() == keys,
                out@.len() == it.index(),
                forall|i: int| 0 <= i < it.index() ==> out@[i] == *it.seq()[i],
        {
            out.push(*k);
        }
        proof {
            assert(out@ == keys.unref());
            assert forall|i: int, j: int| 0 <= i < j < out@.len() implies out@[i] < out@[j] by {
                assert(vstd::std_specs::cmp::OrdSpec::cmp_spec(&keys[i], &keys[j]) is Less);
            }
        }
        out
    }

    /// Clear every checked key.
    pub fn clear(&mut self)
        ensures
            final(self)@ == (old(self)@.0, Set::<u64>::empty()),
    {
        self.selected.clear();
    }

    /// Check `key`, returning whether the set changed.
    pub fn select(&mut self, key: u64) -> (r: bool)
        ensures
            final(self)@ == (old(self)@.0, old(self)@.1.insert(key)),
            r == !old(self)@.1.contains(key),
    {
        broadcast use vstd::std_specs::btree::group_btree_axioms;

        self.selected.insert(key)
    }

    /// Uncheck `key`, returning whether the set changed.
    pub fn deselect(&mut self, key: &u64) -> (r: bool)
        ensures
            final(self)@ == (old(self)@.0, old(self)@.1.remove(*key)),
            r == old(self)@.1.contains(*key),
    {
        broadcast use vstd::std_specs::btree::group_btree_axioms;

        self.selected.remove(key)
    }

    /// Remove checked and cursor keys absent from the authoritative rows.
    pub fn retain_present(&mut self, keys: &[u64])
        ensures
            final(self)@.0 == (KeyedView {
                selected: match old(self)@.0.selected {
                    Some(k) => if keys@.contains(k) {
                        Some(k)
                    } else {
                        None
                    },
                    None => None,
                },
                ..old(self)@.0
            }),
            final(self)@.1 == old(self)@.1.filter(|k: u64| keys@.contains(k)),
    {
        broadcast use vstd::std_specs::btree::group_btree_axioms;

        self.cursor.retain_present(keys);
        let ghost cursor_after = self.cursor@;
        let checked = self.selected();
        let mut i: usize = 0;
        while i < checked.len()
            invariant
                0 <= i <= checked@.len(),
                self.cursor@ == cursor_after,
                checked@.to_set() == old(self)@.1,
                forall|k: u64|
                    #![trigger self.selected@.contains(k)]
                    self.selected@.contains(k) <==> (old(self)@.1.contains(k) && (
                    keys@.contains(k) || !checked@.take(i as int).contains(k))),
            decreases checked@.len() - i,
        {
            let key = checked[i];
            if !is_present(keys, key) {
                self.selected.remove(&key);
            }
            proof {
                broadcast use vstd::seq_lib::group_seq_properties;

                assert(checked@.take(i as int + 1) == checked@.take(i as int).push(key));
                assert(old(self)@.1.contains(key)) by {
                    assert(checked@.contains(key)) by {
                        assert(checked@[i as int] == key);
                    }
                }
            }
            i = i + 1;
        }
        proof {
            assert(checked@.take(checked@.len() as int) == checked@);
            assert(self.selected@ =~= old(self)@.1.filter(|k: u64| keys@.contains(k)));
        }
    }

    /// Navigate and toggle with Enter or Space.
    pub fn handle(
        &mut self,
        event: &Event,
        keys: &[u64],
        viewport_rows: usize,
        navigation: SelectNavigation,
    ) -> (r: InputOutcome)
        ensures
            (final(self)@.0, final(self)@.1, r) == keyed_multi_handle_spec(
                old(self)@.0,
                old(self)@.1,
                *event,
                keys@,
                viewport_rows,
                navigation,
            ),
    {
        if let Event::Key(k) = event {
            if k.plain() && k.code == KeyCode::Char(' ') {
                let visible = match self.cursor.selected {
                    Some(key) => is_present(keys, key),
                    None => false,
                };
                return if visible {
                    self.toggle_cursor()
                } else {
                    InputOutcome::Ignored
                };
            }
        }
        match self.cursor.handle_with(event, keys, viewport_rows, navigation) {
            InputOutcome::Submitted => self.toggle_cursor(),
            outcome => outcome,
        }
    }

    /// Hit-test and toggle a row in an already resolved viewport.
    pub fn handle_mouse(&mut self, event: &Event, keys: &[u64], bounds: Rect, window: VirtualWindow) -> (r:
        InputOutcome)
        requires
            click_fits(*event, bounds, window@),
        ensures
            match keyed_click(*event, keys@.len() as usize, bounds, window@) {
                Some(i) => final(self)@ == (
                    chose(old(self)@.0, keys@[i as int]),
                    toggled_key(old(self)@.1, keys@[i as int]),
                ) && r == InputOutcome::Changed,
                None => final(self)@ == old(self)@ && r == InputOutcome::Ignored,
            },
    {
        match self.cursor.handle_mouse(event, keys, bounds, window) {
            InputOutcome::Submitted => self.toggle_cursor(),
            outcome => outcome,
        }
    }

    fn toggle_cursor(&mut self) -> (r: InputOutcome)
        ensures
            (final(self)@.0, final(self)@.1, r) == keyed_toggle_spec(old(self)@.0, old(self)@.1),
    {
        broadcast use vstd::std_specs::btree::group_btree_axioms;

        match self.cursor.selected {
            Some(key) => {
                if !self.selected.remove(&key) {
                    self.selected.insert(key);
                }
                InputOutcome::Changed
            },
            None => InputOutcome::Ignored,
        }
    }
}

/// While the viewport follows the selection, the window over the rows always
/// shows the selected row, whatever the stored offset and scroll margin.
pub proof fn followed_selection_stays_visible(v: KeyedView, keys: Seq<u64>, visible: usize)
    requires
        v.follow_selection,
        visible > 0,
        keys.len() <= usize::MAX,
    ensures
        match selected_position(v.selected, keys) {
            Some(i) => {
                let w = keyed_window(v, keys, visible);
                w.start <= i < w.start + w.len
            },
            None => true,
        },
{
    if let Some(k) = v.selected {
        if exists|i: int| is_first_position(keys, k, i) {
            let i = choose|i: int| is_first_position(keys, k, i);
            assert(is_first_position(keys, k, i));
        }
    }
}

/// Pressing Space twice on a shown cursor row leaves the checked keys as they
/// were.
pub proof fn keyed_space_twice_restores_checked(
    cursor: KeyedView,
    checked: Set<u64>,
    keys: Seq<u64>,
    viewport_rows: usize,
    nav: SelectNavigation,
)
    ensures
        ({
            let space = Event::Key(Key { code: KeyCode::Char(' '), ctrl: false, alt: false, shift: false });
            let first = keyed_multi_handle_spec(cursor, checked, space, keys, viewport_rows, nav);
            let second = keyed_multi_handle_spec(first.0, first.1, space, keys, viewport_rows, nav);
            second.1 == checked && second.0 == first.0
        }),
{
    if let Some(k) = cursor.selected {
        assert(toggled_key(toggled_key(checked, k), k) =~= checked);
    }
}

/// While the viewport follows the selection, the window keeps the scroll
/// margin (capped below half the window) of context rows visible above and
/// below the selected row, wherever the collection has such rows.
pub proof fn followed_selection_keeps_its_margin(
    v: KeyedView,
    total: usize,
    visible: usize,
    index: usize,
)
    requires
        v.follow_selection,
        visible > 0,
        index < total,
    ensures
        ({
            let w = window_at_spec(v, total, visible, Some(index));
            let margin = min_usize(v.scroll_margin, sat_sub(w.len, 1) / 2);
            &&& index >= margin ==> w.start + margin <= index
            &&& index + margin < total ==> index + margin < w.start + w.len
            &&& w.start <= index < w.start + w.len
        }),
{
}

/// A plain key press with no modifiers.
pub open spec fn plain_key(code: KeyCode) -> Key {
    Key { code, ctrl: false, alt: false, shift: false }
}

/// The row a plain navigation key moves the cursor to among `n > 0` rows,
/// from the row at `current`: one or a page down or up, or to an end, held
/// at both ends and never wrapping.
pub open spec fn navigation_target(code: KeyCode, current: Option<usize>, n: usize, viewport_rows: usize) -> usize {
    let page = page_rows(viewport_rows);
    let last = (n - 1) as usize;
    match code {
        KeyCode::Down => match current {
            Some(c) => min_usize(sat_add(c, 1), last),
            None => 0,
        },
        KeyCode::Up => sat_sub(
            match current {
                Some(c) => c,
                None => n,
            },
            1,
        ),
        KeyCode::PageDown => match current {
            Some(c) => min_usize(sat_add(c, page), last),
            None => 0,
        },
        KeyCode::PageUp => sat_sub(
            match current {
                Some(c) => c,
                None => n,
            },
            page,
        ),
        KeyCode::Home => 0,
        _ => last,
    }
}

/// Plain Up, Down, PageUp, PageDown, Home and End select the key of the row
/// `navigation_target` names, whatever the navigation policy: the cursor is
/// held at both ends and never wraps, the viewport's offset and margin are
/// kept and it follows the selection again, and the answer is `Consumed`
/// exactly when the selected key did not change.
pub proof fn keyboard_steps_clamp_and_never_wrap(
    v: KeyedView,
    keys: Seq<u64>,
    viewport_rows: usize,
    code: KeyCode,
    nav: SelectNavigation,
)
    requires
        0 < keys.len() <= usize::MAX,
        code == KeyCode::Down || code == KeyCode::Up || code == KeyCode::PageDown || code
            == KeyCode::PageUp || code == KeyCode::Home || code == KeyCode::End,
    ensures
        ({
            let n = keys.len() as usize;
            let i = navigation_target(code, selected_position(v.selected, keys), n, viewport_rows);
            let (w, r) = keyed_key_spec(v, plain_key(code), keys, viewport_rows, nav);
            &&& i < n
            &&& w == (KeyedView { selected: Some(keys[i as int]), follow_selection: true, ..v })
            &&& r == if v.selected == Some(keys[i as int]) {
                InputOutcome::Consumed
            } else {
                InputOutcome::Changed
            }
        }),
{
}

/// The wheel moves the viewport three rows from where it was shown, up to
/// the last full window, keeps the selection, and detaches the viewport so
/// the next window starts at the new offset; other mouse actions are
/// ignored.
pub proof fn wheel_scrolls_a_detached_viewport(
    v: KeyedView,
    keys: Seq<u64>,
    viewport_rows: usize,
    kind: MouseKind,
)
    requires
        keys.len() <= usize::MAX,
    ensures
        ({
            let total = keys.len() as usize;
            let before = keyed_window(v, keys, viewport_rows).start;
            let (w, r) = keyed_wheel_spec(v, kind, keys, viewport_rows);
            &&& w.selected == v.selected
            &&& w.scroll_margin == v.scroll_margin
            &&& kind == MouseKind::ScrollUp ==> w.offset == sat_sub(before, 3)
            &&& kind == MouseKind::ScrollDown ==> w.offset == min_usize(
                sat_add(before, 3),
                max_start(total, viewport_rows),
            )
            &&& (kind == MouseKind::ScrollUp || kind == MouseKind::ScrollDown) ==> {
                &&& !w.follow_selection
                &&& r == if w.offset == before {
                    InputOutcome::Consumed
                } else {
                    InputOutcome::Changed
                }
                &&& keyed_window(w, keys, viewport_rows).start == w.offset
            }
            &&& !(kind == MouseKind::ScrollUp || kind == MouseKind::ScrollDown) ==> r
                == InputOutcome::Ignored
        }),
{
}

/// Space toggles the cursor's key only while that key is among the rows
/// shown; a cursor on a filtered-out key leaves everything as it was.
pub proof fn space_toggles_only_a_shown_cursor(
    cursor: KeyedView,
    checked: Set<u64>,
    keys: Seq<u64>,
    viewport_rows: usize,
    nav: SelectNavigation,
)
    ensures
        ({
            let space = Event::Key(plain_key(KeyCode::Char(' ')));
            let (c, s, r) = keyed_multi_handle_spec(cursor, checked, space, keys, viewport_rows, nav);
            &&& c == cursor
            &&& match cursor.selected {
                Some(k) => if keys.contains(k) {
                    s == toggled_key(checked, k) && r == InputOutcome::Changed
                } else {
                    s == checked && r == InputOutcome::Ignored
                },
                None => s == checked && r == InputOutcome::Ignored,
            }
        }),
{
}

} // verus!
