//! Focus registry and input ownership.
//!
//! Focusable regions register a stable string id each frame. The registry
//! tracks which id holds focus and cycles through them with Tab/BackTab.
//! Overlays claim *input ownership*: while an overlay is open, the registry
//! reports its id as the active target regardless of the base focus ring.

use vstd::prelude::*;

use crate::event::{Event, EventFlow, KeyCode};

verus! {

/// `i` is the first position of `id` in `order`.
pub open spec fn is_first_id(order: Seq<Seq<char>>, id: Seq<char>, i: int) -> bool {
    &&& 0 <= i < order.len()
    &&& order[i] == id
    &&& forall|j: int| 0 <= j < i ==> order[j] != id
}

/// The first position of `id` in `order`, if it is registered.
pub open spec fn id_position(order: Seq<Seq<char>>, id: Seq<char>) -> Option<int> {
    if exists|i: int| is_first_id(order, id, i) {
        Some(choose|i: int| is_first_id(order, id, i))
    } else {
        None
    }
}

/// The plain state of a focus registry.
pub struct FocusView {
    /// This frame's registrations, in tab order.
    pub order: Seq<Seq<char>>,
    /// The focused id, which may have vanished from this frame.
    pub focused: Option<Seq<char>>,
    /// The id that owns all input, while an overlay is open.
    pub owner: Option<Seq<char>>,
}

/// The base-ring focus: the focused id while it is registered this frame,
/// otherwise the first registration.
pub open spec fn ring_focus(v: FocusView) -> Option<Seq<char>> {
    match v.focused {
        Some(f) if v.order.contains(f) => Some(f),
        _ => if v.order.len() > 0 {
            Some(v.order[0])
        } else {
            None
        },
    }
}

/// The id that receives input: the owner if any, else the ring focus.
pub open spec fn active_id(v: FocusView) -> Option<Seq<char>> {
    match v.owner {
        Some(o) => Some(o),
        None => ring_focus(v),
    }
}

/// The ring position the next Tab (or, backward, BackTab) moves from.
pub open spec fn current_position(v: FocusView) -> int {
    match ring_focus(v) {
        Some(f) => match id_position(v.order, f) {
            Some(p) => p,
            None => 0,
        },
        None => 0,
    }
}

/// The focus after one step around a non-empty ring.
pub open spec fn advanced(v: FocusView, forward: bool) -> Option<Seq<char>> {
    let len = v.order.len() as int;
    let next = if forward {
        (current_position(v) + 1) % len
    } else {
        (current_position(v) + len - 1) % len
    };
    Some(v.order[next])
}

/// State and answer after `event`.
pub open spec fn focus_handle_spec(v: FocusView, event: Event) -> (FocusView, EventFlow) {
    if v.owner is Some {
        (v, EventFlow::Ignored)
    } else {
        match event {
            Event::Key(k) => if k.code == KeyCode::Tab && k.is_plain() {
                (
                    if v.order.len() == 0 {
                        v
                    } else {
                        FocusView { focused: advanced(v, true), ..v }
                    },
                    EventFlow::Consumed,
                )
            } else if k.code == KeyCode::BackTab {
                (
                    if v.order.len() == 0 {
                        v
                    } else {
                        FocusView { focused: advanced(v, false), ..v }
                    },
                    EventFlow::Consumed,
                )
            } else {
                (v, EventFlow::Ignored)
            },
            _ => (v, EventFlow::Ignored),
        }
    }
}

/// The registry at the start of a frame: the ring is emptied and focus is
/// committed to the ring focus of the frame that ended (none if that frame
/// registered nothing).
pub open spec fn frame_begun(v: FocusView) -> FocusView {
    FocusView {
        order: Seq::empty(),
        focused: if v.order.len() == 0 {
            None
        } else {
            ring_focus(v)
        },
        owner: v.owner,
    }
}

/// The registry after registering `id`: it joins the ring, and takes focus
/// when nothing holds it.
pub open spec fn registered(v: FocusView, id: Seq<char>) -> FocusView {
    FocusView {
        order: v.order.push(id),
        focused: match v.focused {
            Some(f) => Some(f),
            None => Some(id),
        },
        owner: v.owner,
    }
}

/// The registry after registering `ids` in order.
pub open spec fn registered_all(v: FocusView, ids: Seq<Seq<char>>) -> FocusView
    decreases ids.len(),
{
    if ids.len() == 0 {
        v
    } else {
        registered(registered_all(v, ids.drop_last()), ids.last())
    }
}

/// The text of an optional borrowed id.
pub open spec fn text_of(id: Option<&str>) -> Option<Seq<char>> {
    match id {
        Some(s) => Some(s@),
        None => None,
    }
}

/// Tracks the focus ring and the currently focused region.
#[derive(Clone, Debug)]
pub struct FocusRegistry {
    order: Vec<String>,
    focused: Option<String>,
    owner: Option<String>,
}

impl View for FocusRegistry {
    type V = FocusView;

    closed spec fn view(&self) -> FocusView {
        FocusView {
            order: self.order@.map_values(|s: String| s@),
            focused: match self.focused {
                Some(f) => Some(f@),
                None => None,
            },
            owner: match self.owner {
                Some(o) => Some(o@),
                None => None,
            },
        }
    }
}

impl Default for FocusRegistry {
    fn default() -> (r: Self)
        ensures
            r@ == (FocusView { order: Seq::empty(), focused: None, owner: None }),
    {
        Self::new()
    }
}

/// Whether two ids hold the same text.
pub(crate) fn same_id(a: &str, b: &str) -> (r: bool)
    ensures
        r == (a@ == b@),
{
    a.to_owned() == b.to_owned()
}

impl FocusRegistry {
    /// Create an empty registry with no registered or focused regions.
    pub fn new() -> (r: Self)
        ensures
            r@ == (FocusView { order: Seq::empty(), focused: None, owner: None }),
    {
        let r = FocusRegistry { order: Vec::new(), focused: None, owner: None };
        assert(r@.order =~= Seq::<Seq<char>>::empty());
        r
    }

    /// Whether `id` is registered this frame.
    fn registered(&self, id: &str) -> (r: bool)
        ensures
            r == self@.order.contains(id@),
    {
        let mut i: usize = 0;
        while i < self.order.len()
            invariant
                i <= self.order@.len(),
                forall|j: int| 0 <= j < i ==> self@.order[j] != id@,
            decreases self.order@.len() - i,
        {
            if same_id(self.order[i].as_str(), id) {
                assert(self@.order[i as int] == id@);
                return true;
            }
            i = i + 1;
        }
        false
    }

    /// The first position of `id` this frame.
    fn position(&self, id: &str) -> (r: Option<usize>)
        ensures
            match id_position(self@.order, id@) {
                Some(p) => r == Some(p as usize),
                None => r is None,
            },
    {
        let mut i: usize = 0;
        while i < self.order.len()
            invariant
                i <= self.order@.len(),
                forall|j: int| 0 <= j < i ==> self@.order[j] != id@,
            decreases self.order@.len() - i,
        {
            if same_id(self.order[i].as_str(), id) {
                proof {
                    assert(is_first_id(self@.order, id@, i as int));
                    let c = choose|c: int| is_first_id(self@.order, id@, c);
                    assert(c == i as int) by {
                        if c > i {
                            assert(self@.order[i as int] != id@);
                        }
                    }
                }
                return Some(i);
            }
            i = i + 1;
        }
        proof {
            assert forall|c: int| !is_first_id(self@.order, id@, c) by {
                if 0 <= c < self@.order.len() {
                    assert(self@.order[c] != id@);
                }
            }
        }
        None
    }

    /// Begin a frame: reconcile focus against the preceding frame, then clear
    /// the per-frame focus ring. Registrations for the new frame follow.
    pub fn begin_frame(&mut self)
        ensures
            final(self)@ == frame_begun(old(self)@),
    {
        if self.order.len() == 0 {
            self.focused = None;
        } else {
            let keep = match &self.focused {
                Some(f) => self.registered(f.as_str()),
                None => false,
            };
            if !keep {
                self.focused = Some(self.order[0].clone());
            }
        }
        self.order.clear();
        assert(self@.order =~= Seq::<Seq<char>>::empty());
    }

    /// Register a focusable region for this frame, in tab order.
    pub fn register(&mut self, id: &str)
        ensures
            final(self)@ == registered(old(self)@, id@),
    {
        let id = id.to_owned();
        if self.focused.is_none() {
            self.focused = Some(id.clone());
        }
        self.order.push(id);
        assert(self@.order =~= old(self)@.order.push(id@));
    }

    /// Give exclusive input ownership to `id` (an overlay) until cleared.
    pub fn set_owner(&mut self, id: &str)
        ensures
            final(self)@ == (FocusView { owner: Some(id@), ..old(self)@ }),
    {
        self.owner = Some(id.to_owned());
    }

    /// Release input ownership.
    pub fn clear_owner(&mut self)
        ensures
            final(self)@ == (FocusView { owner: None, ..old(self)@ }),
    {
        self.owner = None;
    }

    fn ring_focus(&self) -> (r: Option<&str>)
        ensures
            text_of(r) == ring_focus(self@),
    {
        if let Some(f) = &self.focused {
            if self.registered(f.as_str()) {
                return Some(f.as_str());
            }
        }
        if self.order.len() > 0 {
            Some(self.order[0].as_str())
        } else {
            None
        }
    }

    /// The id that should receive input: the owner if any, else the focused
    /// id. If a focused region disappeared this frame, the first current
    /// registration is used immediately.
    pub fn active(&self) -> (r: Option<&str>)
        ensures
            text_of(r) == active_id(self@),
    {
        match &self.owner {
            Some(o) => Some(o.as_str()),
            None => self.ring_focus(),
        }
    }

    /// Whether `id` is the active input target.
    pub fn is_active(&self, id: &str) -> (r: bool)
        ensures
            r == (active_id(self@) == Some(id@)),
    {
        match self.active() {
            Some(a) => same_id(a, id),
            None => false,
        }
    }

    /// Whether `id` holds focus in the base ring (ignores overlay ownership).
    pub fn is_focused(&self, id: &str) -> (r: bool)
        ensures
            r == (ring_focus(self@) == Some(id@)),
    {
        match self.ring_focus() {
            Some(f) => same_id(f, id),
            None => false,
        }
    }

    /// Focus a registered base-ring region, returning whether the request was
    /// accepted. Requests for unknown ids and requests made while an overlay
    /// owns input are refused and change nothing.
    pub fn focus(&mut self, id: &str) -> (r: bool)
        ensures
            r == (old(self)@.owner is None && old(self)@.order.contains(id@)),
            r ==> final(self)@ == (FocusView { focused: Some(id@), ..old(self)@ }),
            !r ==> final(self)@ == old(self)@,
    {
        if self.owner.is_some() || !self.registered(id) {
            return false;
        }
        self.focused = Some(id.to_owned());
        true
    }

    fn advance(&mut self, forward: bool)
        ensures
            final(self)@ == (if old(self)@.order.len() == 0 {
                old(self)@
            } else {
                FocusView { focused: advanced(old(self)@, forward), ..old(self)@ }
            }),
    {
        let len = self.order.len();
        if len == 0 {
            return;
        }
        let current = match self.ring_focus() {
            Some(f) => match self.position(f) {
                Some(p) => p,
                None => 0,
            },
            None => 0,
        };
        proof {
            if let Some(f) = ring_focus(self@) {
                if let Some(p) = id_position(self@.order, f) {
                    assert(is_first_id(self@.order, f, p));
                }
            }
        }
        let next = if forward {
            if current + 1 == len { 0 } else { current + 1 }
        } else {
            if current == 0 { len - 1 } else { current - 1 }
        };
        proof {
            let c = current as int;
            let l = len as int;
            if forward {
                assert((c + 1) % l == next as int) by (nonlinear_arith)
                    requires 0 <= c < l, next as int == (if c + 1 == l { 0 } else { c + 1 });
            } else {
                assert((c + l - 1) % l == next as int) by (nonlinear_arith)
                    requires 0 <= c < l, next as int == (if c == 0 { l - 1 } else { c - 1 });
            }
        }
        self.focused = Some(self.order[next].clone());
    }

    /// Route Tab/BackTab to move focus. Ignored while an overlay owns input.
    pub fn handle(&mut self, event: &Event) -> (r: EventFlow)
        ensures
            (final(self)@, r) == focus_handle_spec(old(self)@, *event),
    {
        if self.owner.is_some() {
            return EventFlow::Ignored;
        }
        let k = match event {
            Event::Key(k) => *k,
            _ => {
                return EventFlow::Ignored;
            },
        };
        if k.code == KeyCode::Tab && k.plain() {
            self.advance(true);
            EventFlow::Consumed
        } else if k.code == KeyCode::BackTab {
            self.advance(false);
            EventFlow::Consumed
        } else {
            EventFlow::Ignored
        }
    }
}

/// A Tab event with no modifiers.
pub open spec fn tab_event() -> Event {
    Event::Key(crate::event::Key { code: KeyCode::Tab, ctrl: false, alt: false, shift: false })
}

/// A BackTab event with no modifiers.
pub open spec fn back_tab_event() -> Event {
    Event::Key(crate::event::Key { code: KeyCode::BackTab, ctrl: false, alt: false, shift: false })
}

/// On a ring without repeated ids, Tab then BackTab gives focus back to the
/// region that held it, and BackTab then Tab does too.
pub proof fn tab_then_back_tab_restores_focus(v: FocusView)
    requires
        v.owner is None,
        v.order.len() > 0,
        v.order.no_duplicates(),
    ensures
        ring_focus(focus_handle_spec(focus_handle_spec(v, tab_event()).0, back_tab_event()).0)
            == ring_focus(v),
        ring_focus(focus_handle_spec(focus_handle_spec(v, back_tab_event()).0, tab_event()).0)
            == ring_focus(v),
{
    let len = v.order.len() as int;
    let f = ring_focus(v).unwrap();
    let p = current_position(v);
    assert(0 <= p < len && v.order[p] == f) by {
        if let Some(q) = id_position(v.order, f) {
            assert(is_first_id(v.order, f, q));
        } else {
            assert(v.order.contains(f));
            let w = choose|w: int| 0 <= w < len && v.order[w] == f;
            assert(is_first_id(v.order, f, w)) by {
                assert forall|j: int| 0 <= j < w implies v.order[j] != f by {
                    if v.order[j] == f {
                        assert(v.order[j] == v.order[w]);
                    }
                }
            }
        }
    }
    let n1 = (p + 1) % len;
    let n2 = (p + len - 1) % len;
    assert(0 <= n1 < len && 0 <= n2 < len) by (nonlinear_arith)
        requires
            0 <= p < len,
            n1 == (p + 1) % len,
            n2 == (p + len - 1) % len,
    ;
    assert((n1 + len - 1) % len == p) by (nonlinear_arith)
        requires
            0 <= p < len,
            n1 == (p + 1) % len,
    ;
    assert((n2 + 1) % len == p) by (nonlinear_arith)
        requires
            0 <= p < len,
            n2 == (p + len - 1) % len,
    ;
    assert forall|n: int| 0 <= n < len implies id_position(v.order, v.order[n]) == Some(n) by {
        assert(is_first_id(v.order, v.order[n], n));
        let c = choose|c: int| is_first_id(v.order, v.order[n], c);
        assert(c == n);
    }
}

/// While an overlay owns input, no event moves the base focus and every
/// event is left for the owner.
pub proof fn owner_blocks_focus_traversal(v: FocusView, event: Event)
    requires
        v.owner is Some,
    ensures
        focus_handle_spec(v, event) == (v, EventFlow::Ignored),
        active_id(v) == v.owner,
{
}

/// The registry after `n` presses of Tab.
pub open spec fn tab_times(v: FocusView, n: nat) -> FocusView
    decreases n,
{
    if n == 0 {
        v
    } else {
        focus_handle_spec(tab_times(v, (n - 1) as nat), tab_event()).0
    }
}

/// On a ring without repeated ids, every registered id is at its own first
/// position.
proof fn positions_are_unique(order: Seq<Seq<char>>, n: int)
    requires
        order.no_duplicates(),
        0 <= n < order.len(),
    ensures
        id_position(order, order[n]) == Some(n),
{
    assert(is_first_id(order, order[n], n));
    let c = choose|c: int| is_first_id(order, order[n], c);
    assert(c == n);
}

/// Tab walks the ring in registration order: from the region at position
/// `p`, `n` presses land on the region at position `(p + n) % len`, so
/// `len` presses come back to where they started.
pub proof fn tab_cycles_through_the_ring(v: FocusView, n: nat)
    requires
        v.owner is None,
        v.order.len() > 0,
        v.order.no_duplicates(),
    ensures
        ({
            let p = current_position(v);
            let w = tab_times(v, n);
            &&& w.order == v.order
            &&& w.owner is None
            &&& ring_focus(w) == Some(v.order[(p + n) % (v.order.len() as int)])
        }),
    decreases n,
{
    let len = v.order.len() as int;
    let p = current_position(v);
    let f = ring_focus(v).unwrap();
    assert(0 <= p < len && v.order[p] == f) by {
        if let Some(q) = id_position(v.order, f) {
            assert(is_first_id(v.order, f, q));
        } else {
            assert(v.order.contains(f));
            let w = choose|w: int| 0 <= w < len && v.order[w] == f;
            assert(is_first_id(v.order, f, w)) by {
                assert forall|j: int| 0 <= j < w implies v.order[j] != f by {
                    if v.order[j] == f {
                        assert(v.order[j] == v.order[w]);
                    }
                }
            }
        }
    }
    if n == 0 {
        assert(p % len == p) by (nonlinear_arith)
            requires 0 <= p < len;
    } else {
        tab_cycles_through_the_ring(v, (n - 1) as nat);
        let w = tab_times(v, (n - 1) as nat);
        let q = (p + n - 1) % len;
        assert(0 <= q < len) by (nonlinear_arith)
            requires 0 <= p < len, n >= 1, q == (p + n - 1) % len;
        positions_are_unique(v.order, q);
        assert(current_position(w) == q);
        let r = (q + 1) % len;
        assert(r == (p + n) % len) by (nonlinear_arith)
            requires 0 <= p < len, n >= 1, q == (p + n - 1) % len, r == (q + 1) % len;
        assert(0 <= r < len) by (nonlinear_arith)
            requires 0 <= q < len, r == (q + 1) % len;
        assert(v.order.contains(v.order[r]));
    }
}

/// Registering into an empty ring builds the ring in order and keeps a held
/// focus, or gives it to the first registration.
proof fn registrations_from_an_empty_ring(v: FocusView, ids: Seq<Seq<char>>)
    requires
        v.order.len() == 0,
    ensures
        registered_all(v, ids).order == ids,
        registered_all(v, ids).owner == v.owner,
        registered_all(v, ids).focused == match v.focused {
            Some(f) => Some(f),
            None => if ids.len() > 0 {
                Some(ids[0])
            } else {
                None
            },
        },
    decreases ids.len(),
{
    if ids.len() > 0 {
        registrations_from_an_empty_ring(v, ids.drop_last());
        assert(ids.drop_last().push(ids.last()) == ids);
        if ids.len() > 1 {
            assert(ids.drop_last()[0] == ids[0]);
        }
    }
}

/// The focus committed at the start of a frame carries through the frame's
/// registrations: it stays on its region when that region registers again,
/// and otherwise falls to the first registration; until something registers
/// nothing is focused, and overlay ownership is untouched.
pub proof fn frame_focus_carries_through_registrations(v: FocusView, ids: Seq<Seq<char>>)
    ensures
        ({
            let committed = frame_begun(v).focused;
            let w = registered_all(frame_begun(v), ids);
            &&& w.order == ids
            &&& w.owner == v.owner
            &&& active_id(w) == match v.owner {
                Some(o) => Some(o),
                None => ring_focus(w),
            }
            &&& ring_focus(w) == match committed {
                Some(f) => if ids.contains(f) {
                    Some(f)
                } else if ids.len() > 0 {
                    Some(ids[0])
                } else {
                    None
                },
                None => if ids.len() > 0 {
                    Some(ids[0])
                } else {
                    None
                },
            }
        }),
{
    registrations_from_an_empty_ring(frame_begun(v), ids);
    if ids.len() > 0 {
        assert(ids.contains(ids[0]));
    }
}

} // verus!
