//! Selectable list state: an optional highlighted index with wrapping
//! navigation, and a multiple-selection variant with checked rows.

use vstd::prelude::*;

use crate::event::{Event, InputOutcome, Key, KeyCode, MouseButton, MouseKind};
use crate::geometry::Rect;
use std::collections::BTreeSet;

verus! {

/// Optional navigation bindings for [`SelectState`].
///
/// The default keeps the arrow/Enter/Escape behavior only; [`common`](Self::common)
/// enables every alias commonly expected by terminal pickers.
#[derive(Clone, Copy, Debug, PartialEq, Eq, Structural)]
pub struct SelectNavigation {
    /// Enable `j` and `k` as Down and Up.
    pub vim: bool,
    /// Enable Ctrl+N and Ctrl+P as Down and Up.
    pub ctrl_n_p: bool,
    /// Enable Tab and Shift+Tab as Down and Up.
    pub tab: bool,
    /// Enable `1` through `9` as direct activation shortcuts.
    pub numeric: bool,
}

impl Default for SelectNavigation {
    /// The arrow/Enter/Escape policy with no aliases.
    fn default() -> (n: Self)
        ensures
            n == SelectNavigation::plain_policy(),
    {
        SelectNavigation { vim: false, ctrl_n_p: false, tab: false, numeric: false }
    }
}

impl SelectNavigation {
    /// Enable all common terminal-picker aliases.
    pub fn common() -> (n: SelectNavigation)
        ensures
            n == (SelectNavigation { vim: true, ctrl_n_p: true, tab: true, numeric: true }),
    {
        SelectNavigation { vim: true, ctrl_n_p: true, tab: true, numeric: true }
    }

    /// The arrow/Enter/Escape policy with no aliases.
    pub open spec fn plain_policy() -> SelectNavigation {
        SelectNavigation { vim: false, ctrl_n_p: false, tab: false, numeric: false }
    }
}

/// The row a wrapping step up lands on: one up, or the last row from the top
/// (or from no row, or from a row past the end).
pub open spec fn wrap_up(selected: Option<usize>, len: usize) -> usize {
    match selected {
        Some(s) if 0 < s && s < len => (s - 1) as usize,
        _ => (len - 1) as usize,
    }
}

/// The row a wrapping step down lands on: one down, or the first row from the
/// last (or from no row, or from a row past the end).
pub open spec fn wrap_down(selected: Option<usize>, len: usize) -> usize {
    match selected {
        Some(s) if s < len - 1 => (s + 1) as usize,
        _ => 0,
    }
}

/// The answer to a step that lands on `after`.
pub open spec fn step_outcome(before: Option<usize>, after: usize) -> InputOutcome {
    if before == Some(after) { InputOutcome::Consumed } else { InputOutcome::Changed }
}

/// The zero-based row a digit shortcut names (`'1'` is row 0).
pub open spec fn digit_row(c: char) -> int {
    c as int - '1' as int
}

/// Whether `c` is one of the shortcut digits `1` to `9`.
pub open spec fn is_shortcut_digit(c: char) -> bool {
    '1' <= c && c <= '9'
}

/// The selection and answer after a key press on a non-empty list of `len` rows.
pub open spec fn select_key_spec(
    selected: Option<usize>,
    k: Key,
    len: usize,
    nav: SelectNavigation,
) -> (Option<usize>, InputOutcome) {
    let up = (Some(wrap_up(selected, len)), step_outcome(selected, wrap_up(selected, len)));
    let down = (Some(wrap_down(selected, len)), step_outcome(selected, wrap_down(selected, len)));
    if nav.ctrl_n_p && k.ctrl && !k.alt && !k.shift {
        match k.code {
            KeyCode::Char('n') => down,
            KeyCode::Char('p') => up,
            _ => (selected, InputOutcome::Ignored),
        }
    } else if !k.is_plain() {
        (selected, InputOutcome::Ignored)
    } else {
        match k.code {
            KeyCode::Up => up,
            KeyCode::Down => down,
            KeyCode::Char(c) => {
                if c == 'k' && nav.vim {
                    up
                } else if c == 'j' && nav.vim {
                    down
                } else if is_shortcut_digit(c) && nav.numeric {
                    if digit_row(c) < len {
                        (Some(digit_row(c) as usize), InputOutcome::Submitted)
                    } else {
                        (selected, InputOutcome::Ignored)
                    }
                } else {
                    (selected, InputOutcome::Ignored)
                }
            },
            KeyCode::Tab => if nav.tab { down } else { (selected, InputOutcome::Ignored) },
            KeyCode::BackTab => if nav.tab { up } else { (selected, InputOutcome::Ignored) },
            KeyCode::Enter => if selected is Some {
                (selected, InputOutcome::Submitted)
            } else {
                (selected, InputOutcome::Ignored)
            },
            KeyCode::Esc => (selected, InputOutcome::Cancelled),
            _ => (selected, InputOutcome::Ignored),
        }
    }
}

/// The selection and answer after `event` on a list of `len` rows.
pub open spec fn select_handle_spec(
    selected: Option<usize>,
    event: Event,
    len: usize,
    nav: SelectNavigation,
) -> (Option<usize>, InputOutcome) {
    if len == 0 {
        (selected, InputOutcome::Ignored)
    } else {
        match event {
            Event::Key(k) => select_key_spec(selected, k, len, nav),
            _ => (selected, InputOutcome::Ignored),
        }
    }
}

/// The row a plain left click at `(column, row)` lands on, if it lands on a row.
pub open spec fn clicked_row(
    event: Event,
    len: usize,
    bounds: Rect,
    first_visible: usize,
) -> Option<usize> {
    match event {
        Event::Mouse(m) => {
            let index = first_visible + (m.row - bounds.y);
            if m.is_plain() && m.kind == MouseKind::Down(MouseButton::Left) && bounds.holds(
                m.column,
                m.row,
            ) && index < len {
                Some(index as usize)
            } else {
                None
            }
        },
        _ => None,
    }
}

/// The highlight kept in range for a list of `len` rows: cleared on an empty
/// list, moved to the last row when past the end.
pub open spec fn clamped(selected: Option<usize>, len: usize) -> Option<usize> {
    if len == 0 {
        None
    } else {
        match selected {
            Some(s) => Some(if s >= len { (len - 1) as usize } else { s }),
            None => None,
        }
    }
}

/// Persisted optional selection index for one list.
#[derive(Clone, Copy, Debug)]
pub struct SelectState {
    selected: Option<usize>,
}

impl Default for SelectState {
    fn default() -> (s: Self)
        ensures
            s@ == Some(0usize),
    {
        Self::new()
    }
}

impl View for SelectState {
    type V = Option<usize>;

    /// The highlighted index.
    closed spec fn view(&self) -> Option<usize> {
        self.selected
    }
}

impl SelectState {
    /// A fresh state with the first row highlighted.
    pub fn new() -> (s: Self)
        ensures
            s@ == Some(0usize),
    {
        Self { selected: Some(0) }
    }

    /// A fresh state with no highlighted row.
    pub fn unselected() -> (s: Self)
        ensures
            s@ == None::<usize>,
    {
        Self { selected: None }
    }

    /// The currently highlighted index, or `None` when no row is selected.
    pub fn selected(&self) -> (r: Option<usize>)
        ensures
            r == self@,
    {
        self.selected
    }

    /// Set or clear the highlighted index directly.
    pub fn select(&mut self, index: Option<usize>)
        ensures
            final(self)@ == index,
    {
        self.selected = index;
    }

    /// Keep the index in range as the list length changes.
    pub fn clamp(&mut self, len: usize)
        ensures
            final(self)@ == clamped(old(self)@, len),
    {
        if len == 0 {
            self.selected = None;
        } else if let Some(selected) = self.selected {
            if selected >= len {
                self.selected = Some(len - 1);
            }
        }
    }

    /// Move the highlight up one row, holding at the top (no wrap).
    pub fn move_up(&mut self)
        ensures
            final(self)@ == (match old(self)@ {
                Some(s) => Some(if s == 0 { 0 } else { (s - 1) as usize }),
                None => None,
            }),
    {
        if let Some(selected) = self.selected {
            self.selected = Some(selected.saturating_sub(1));
        }
    }

    /// Move the highlight down one row, holding at the last of `len` rows (no
    /// wrap). An empty list clears the highlight.
    pub fn move_down(&mut self, len: usize)
        ensures
            final(self)@ == (if len == 0 {
                None
            } else {
                match old(self)@ {
                    Some(s) => Some(if s + 1 < len { (s + 1) as usize } else { (len - 1) as usize }),
                    None => None,
                }
            }),
    {
        if len == 0 {
            self.selected = None;
        } else if let Some(selected) = self.selected {
            let next = if selected < len - 1 { selected + 1 } else { len - 1 };
            self.selected = Some(next);
        }
    }

    /// Navigate with arrow keys (wrapping), confirm with Enter, cancel on Esc.
    pub fn handle(&mut self, event: &Event, len: usize) -> (r: InputOutcome)
        ensures
            (final(self)@, r) == select_handle_spec(
                old(self)@,
                *event,
                len,
                SelectNavigation::plain_policy(),
            ),
    {
        self.handle_with(
            event,
            len,
            SelectNavigation { vim: false, ctrl_n_p: false, tab: false, numeric: false },
        )
    }

    /// Handle keyboard input with a configurable navigation policy.
    pub fn handle_with(&mut self, event: &Event, len: usize, navigation: SelectNavigation) -> (r:
        InputOutcome)
        ensures
            (final(self)@, r) == select_handle_spec(old(self)@, *event, len, navigation),
    {
        if len == 0 {
            return InputOutcome::Ignored;
        }
        let k = match event {
            Event::Key(k) => *k,
            _ => return InputOutcome::Ignored,
        };
        if navigation.ctrl_n_p && k.ctrl && !k.alt && !k.shift {
            return match k.code {
                KeyCode::Char('n') => self.step_down(len),
                KeyCode::Char('p') => self.step_up(len),
                _ => InputOutcome::Ignored,
            };
        }
        if !k.plain() {
            return InputOutcome::Ignored;
        }
        match k.code {
            KeyCode::Up => self.step_up(len),
            KeyCode::Down => self.step_down(len),
            KeyCode::Char(c) => {
                if c == 'k' && navigation.vim {
                    self.step_up(len)
                } else if c == 'j' && navigation.vim {
                    self.step_down(len)
                } else if '1' <= c && c <= '9' && navigation.numeric {
                    let index = (c as u32 - '1' as u32) as usize;
                    if index < len {
                        self.selected = Some(index);
                        InputOutcome::Submitted
                    } else {
                        InputOutcome::Ignored
                    }
                } else {
                    InputOutcome::Ignored
                }
            },
            KeyCode::Tab => if navigation.tab {
                self.step_down(len)
            } else {
                InputOutcome::Ignored
            },
            KeyCode::BackTab => if navigation.tab {
                self.step_up(len)
            } else {
                InputOutcome::Ignored
            },
            KeyCode::Enter => if self.selected.is_some() {
                InputOutcome::Submitted
            } else {
                InputOutcome::Ignored
            },
            KeyCode::Esc => InputOutcome::Cancelled,
            _ => InputOutcome::Ignored,
        }
    }

    /// Hit-test a plain left-button press against visible list rows.
    ///
    /// `bounds` is the rendered list body and `first_visible` the item shown
    /// on its first row.
    pub fn handle_mouse(&mut self, event: &Event, len: usize, bounds: Rect, first_visible: usize) -> (r:
        InputOutcome)
        ensures
            ({
                let hit = clicked_row(*event, len, bounds, first_visible);
                match hit {
                    Some(i) => final(self)@ == Some(i) && r == InputOutcome::Submitted,
                    None => final(self)@ == old(self)@ && r == InputOutcome::Ignored,
                }
            }),
    {
        let mouse = match event {
            Event::Mouse(m) => *m,
            _ => return InputOutcome::Ignored,
        };
        if !mouse.plain() || mouse.kind != MouseKind::Down(MouseButton::Left) || mouse.column
            < bounds.x || mouse.column >= bounds.right() || mouse.row < bounds.y || mouse.row
            >= bounds.bottom() {
            return InputOutcome::Ignored;
        }
        let index = first_visible.saturating_add((mouse.row - bounds.y) as usize);
        if index >= len {
            return InputOutcome::Ignored;
        }
        self.selected = Some(index);
        InputOutcome::Submitted
    }

    fn step_up(&mut self, len: usize) -> (r: InputOutcome)
        requires
            len > 0,
        ensures
            final(self)@ == Some(wrap_up(old(self)@, len)),
            r == step_outcome(old(self)@, wrap_up(old(self)@, len)),
    {
        let before = self.selected;
        let next = match self.selected {
            Some(selected) => if selected > 0 && selected < len {
                selected - 1
            } else {
                len - 1
            },
            None => len - 1,
        };
        self.selected = Some(next);
        if before == Some(next) {
            InputOutcome::Consumed
        } else {
            InputOutcome::Changed
        }
    }

    fn step_down(&mut self, len: usize) -> (r: InputOutcome)
        requires
            len > 0,
        ensures
            final(self)@ == Some(wrap_down(old(self)@, len)),
            r == step_outcome(old(self)@, wrap_down(old(self)@, len)),
    {
        let before = self.selected;
        let next = match self.selected {
            Some(selected) => if selected < len - 1 {
                selected + 1
            } else {
                0
            },
            None => 0,
        };
        self.selected = Some(next);
        if before == Some(next) {
            InputOutcome::Consumed
        } else {
            InputOutcome::Changed
        }
    }
}


/// The checked set with `index` flipped: removed when present, added otherwise.
pub open spec fn toggled(checked: Set<usize>, index: usize) -> Set<usize> {
    if checked.contains(index) {
        checked.remove(index)
    } else {
        checked.insert(index)
    }
}

/// Whether `event` is a plain Space press, the multi-select toggle key.
pub open spec fn is_space(event: Event) -> bool {
    event matches Event::Key(k) && k.is_plain() && k.code == KeyCode::Char(' ')
}

/// Cursor, checked set and answer after a Space press on a list of `len` rows.
pub open spec fn toggle_cursor_spec(cursor: Option<usize>, checked: Set<usize>, len: usize) -> (
    Option<usize>,
    Set<usize>,
    InputOutcome,
) {
    let c = clamped(cursor, len);
    match c {
        Some(i) => (c, toggled(checked, i), InputOutcome::Changed),
        None => (c, checked, InputOutcome::Ignored),
    }
}

/// Cursor, checked set and answer after `event` on a multiple-selection list.
pub open spec fn multi_handle_spec(
    cursor: Option<usize>,
    checked: Set<usize>,
    event: Event,
    len: usize,
    nav: SelectNavigation,
) -> (Option<usize>, Set<usize>, InputOutcome) {
    if is_space(event) {
        toggle_cursor_spec(cursor, checked, len)
    } else {
        let (c, o) = select_handle_spec(cursor, event, len, nav);
        if o == InputOutcome::Submitted {
            match c {
                Some(i) => (c, toggled(checked, i), InputOutcome::Changed),
                None => (c, checked, InputOutcome::Ignored),
            }
        } else {
            (c, checked, o)
        }
    }
}

/// Cursor and checked-item state for a multiple-selection list.
#[derive(Clone, Debug)]
pub struct MultiSelectState {
    cursor: SelectState,
    selected: BTreeSet<usize>,
}

impl View for MultiSelectState {
    type V = (Option<usize>, Set<usize>);

    /// The cursor row and the checked rows.
    closed spec fn view(&self) -> (Option<usize>, Set<usize>) {
        (self.cursor@, self.selected@)
    }
}

impl Default for MultiSelectState {
    fn default() -> (s: Self)
        ensures
            s@ == (Some(0usize), Set::<usize>::empty()),
    {
        Self::new()
    }
}

impl MultiSelectState {
    /// Create state with the first row highlighted and no checked items.
    pub fn new() -> (s: Self)
        ensures
            s@ == (Some(0usize), Set::<usize>::empty()),
    {
        Self { cursor: SelectState::new(), selected: BTreeSet::new() }
    }

    /// Cursor state used to render the list.
    pub fn cursor(&self) -> (r: &SelectState)
        ensures
            r@ == self@.0,
    {
        &self.cursor
    }

    /// Mutable cursor state for direct host control.
    pub fn cursor_mut(&mut self) -> (r: &mut SelectState)
        ensures
            r@ == old(self)@.0,
            final(self)@ == (final(r)@, old(self)@.1),
    {
        &mut self.cursor
    }

    /// Whether `index` is checked.
    pub fn contains(&self, index: usize) -> (r: bool)
        ensures
            r == self@.1.contains(index),
    {
        broadcast use vstd::std_specs::btree::group_btree_axioms;
        self.selected.contains(&index)
    }

    /// Checked indices in ascending order.
    pub fn selected(&self) -> (r: Vec<usize>)
        ensures
            r@.to_set() == self@.1,
            forall|i: int, j: int| 0 <= i < j < r@.len() ==> r@[i] < r@[j],
    {
        broadcast use {vstd::std_specs::btree::group_btree_axioms, vstd::laws_cmp::group_laws_cmp};

        let ghost keys = vstd::std_specs::iter::IteratorSpec::remaining(&vstd::std_specs::btree::spec_btree_keys_iter(&self.selected));
        let mut out: Vec<usize> = Vec::new();
        for k in it: self.selected.iter()
            invariant
                it.seq() == keys,
                out@.len() == it.index(),
                forall|i: int| 0 <= i < it.index() ==> out@[i] == *it.seq()[i],
        {
            out.push(*k);
        }
        proof {
            assert(out@ == keys.unref());
            assert forall|i: int, j: int| 0 <= i < j < out@.len() implies out@[i] < out@[j] by {
                assert(vstd::std_specs::cmp::OrdSpec::cmp_spec(&keys[i], &keys[j]) is Less);
            }
        }
        out
    }

    /// Clear every checked item.
    pub fn clear(&mut self)
        ensures
            final(self)@ == (old(self)@.0, Set::<usize>::empty()),
    {
        self.selected.clear();
    }

    /// Navigate and toggle with Enter or Space.
    pub fn handle(&mut self, event: &Event, len: usize, navigation: SelectNavigation) -> (r:
        InputOutcome)
        ensures
            (final(self)@.0, final(self)@.1, r) == multi_handle_spec(
                old(self)@.0,
                old(self)@.1,
                *event,
                len,
                navigation,
            ),
    {
        if let Event::Key(key) = event {
            if key.plain() && key.code == KeyCode::Char(' ') {
                return self.toggle_cursor(len);
            }
        }
        match self.cursor.handle_with(event, len, navigation) {
            InputOutcome::Submitted => {
                match self.cursor.selected() {
                    Some(index) => {
                        self.toggle(index);
                        InputOutcome::Changed
                    },
                    None => InputOutcome::Ignored,
                }
            },
            outcome => outcome,
        }
    }

    /// Hit-test and toggle a visible row on a plain left click.
    pub fn handle_mouse(&mut self, event: &Event, len: usize, bounds: Rect, first_visible: usize) -> (r:
        InputOutcome)
        ensures
            ({
                let hit = clicked_row(*event, len, bounds, first_visible);
                match hit {
                    Some(i) => final(self)@ == (Some(i), toggled(old(self)@.1, i)) && r
                        == InputOutcome::Changed,
                    None => final(self)@ == old(self)@ && r == InputOutcome::Ignored,
                }
            }),
    {
        match self.cursor.handle_mouse(event, len, bounds, first_visible) {
            InputOutcome::Submitted => {
                match self.cursor.selected() {
                    Some(index) => {
                        self.toggle(index);
                        InputOutcome::Changed
                    },
                    None => InputOutcome::Ignored,
                }
            },
            outcome => outcome,
        }
    }

    fn toggle_cursor(&mut self, len: usize) -> (r: InputOutcome)
        ensures
            (final(self)@.0, final(self)@.1, r) == toggle_cursor_spec(
                old(self)@.0,
                old(self)@.1,
                len,
            ),
    {
        self.cursor.clamp(len);
        match self.cursor.selected() {
            Some(index) => {
                self.toggle(index);
                InputOutcome::Changed
            },
            None => InputOutcome::Ignored,
        }
    }

    fn toggle(&mut self, index: usize)
        ensures
            final(self)@ == (old(self)@.0, toggled(old(self)@.1, index)),
    {
        broadcast use vstd::std_specs::btree::group_btree_axioms;
        if !self.selected.remove(&index) {
            self.selected.insert(index);
        }
    }
}


/// The key press `code` with no modifiers, as a spec value.
pub open spec fn bare_key(code: KeyCode) -> Event {
    Event::Key(Key { code, ctrl: false, alt: false, shift: false })
}

/// Down then Up returns a wrapping list to the row it started on, whatever
/// the navigation policy, and Up then Down does too.
pub proof fn down_then_up_restores(selected: usize, len: usize, nav: SelectNavigation)
    requires
        selected < len,
    ensures
        select_handle_spec(
            select_handle_spec(Some(selected), bare_key(KeyCode::Down), len, nav).0,
            bare_key(KeyCode::Up),
            len,
            nav,
        ).0 == Some(selected),
        select_handle_spec(
            select_handle_spec(Some(selected), bare_key(KeyCode::Up), len, nav).0,
            bare_key(KeyCode::Down),
            len,
            nav,
        ).0 == Some(selected),
{
}

/// Keyboard navigation never moves an in-range (or absent) highlight out of
/// range: after any event the highlight is absent or names one of the `len`
/// rows.
pub proof fn navigation_keeps_selection_in_range(
    selected: Option<usize>,
    event: Event,
    len: usize,
    nav: SelectNavigation,
)
    requires
        selected matches Some(s) ==> s < len,
    ensures
        select_handle_spec(selected, event, len, nav).0 matches Some(s) ==> s < len,
{
}

/// Clamping leaves the highlight absent or in range, and clamping twice is the
/// same as clamping once.
pub proof fn clamp_is_idempotent(selected: Option<usize>, len: usize)
    ensures
        clamped(selected, len) matches Some(s) ==> s < len,
        clamped(clamped(selected, len), len) == clamped(selected, len),
{
}

/// Pressing Space twice on the same row leaves the checked rows as they were.
pub proof fn space_twice_restores_checked(
    cursor: Option<usize>,
    checked: Set<usize>,
    len: usize,
    nav: SelectNavigation,
)
    ensures
        ({
            let first = multi_handle_spec(cursor, checked, bare_key(KeyCode::Char(' ')), len, nav);
            let second = multi_handle_spec(
                first.0,
                first.1,
                bare_key(KeyCode::Char(' ')),
                len,
                nav,
            );
            second.1 == checked && second.0 == first.0
        }),
{
    let c = clamped(cursor, len);
    if let Some(i) = c {
        assert(toggled(toggled(checked, i), i) =~= checked);
    }
}

} // verus!
