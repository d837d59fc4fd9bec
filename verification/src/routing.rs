//! Input routing: turn the frame's focus and overlay ownership into delivery.
//!
//! A [`Router`] is built per event from the frame's [`FocusRegistry`] and
//! offers the event to receivers in four stages, in this order:
//!
//! | Order | RouteStage | Reaches |
//! |---|---|---|
//! | 1 | [`RouteStage::Pre`] | global chords, before any surface |
//! | 2 | [`RouteStage::Always`] | a named surface regardless of focus |
//! | 3 | [`RouteStage::Target`] | the active surface only |
//! | 4 | [`RouteStage::Fallback`] | global chords, only if nothing consumed |
//!
//! Each stage is skipped once the event has been consumed, ownership gates
//! delivery to targets, and the final [`Delivery`] reports which receiver
//! got the event, at which stage, and what it answered.

use vstd::prelude::*;

use crate::event::{Event, InputOutcome};
use crate::focus::{active_id, same_id, text_of, FocusRegistry};

verus! {

/// Which stage of the route delivered an event. Stages must be called in
/// this order.
#[derive(Clone, Copy, Debug, PartialEq, Eq, Structural)]
pub enum RouteStage {
    /// A global handler that runs before any surface.
    Pre,
    /// A surface reached regardless of focus.
    Always,
    /// The surface that owns input this frame.
    Target,
    /// A global handler that runs only when nothing consumed the event.
    Fallback,
    /// Nothing received the event.
    Undelivered,
}

/// The place of a stage in the route's order.
pub open spec fn stage_rank(stage: RouteStage) -> int {
    match stage {
        RouteStage::Pre => 0,
        RouteStage::Always => 1,
        RouteStage::Target => 2,
        RouteStage::Fallback => 3,
        RouteStage::Undelivered => 4,
    }
}

impl RouteStage {
    /// The place of this stage in the route's order.
    pub fn rank(&self) -> (r: u8)
        ensures
            r == stage_rank(*self),
    {
        match self {
            RouteStage::Pre => 0,
            RouteStage::Always => 1,
            RouteStage::Target => 2,
            RouteStage::Fallback => 3,
            RouteStage::Undelivered => 4,
        }
    }
}

/// What a route did with one event.
///
/// `target` and `stage` describe the last receiver the event was delivered
/// to, whether or not it recognized the event; `outcome` is what that
/// receiver answered. [`RouteStage::Undelivered`] with `target: None` means
/// the event reached nothing at all.
#[derive(Clone, Copy, Debug, PartialEq, Eq)]
pub struct Delivery<'a> {
    /// The id of the last receiver, if it had one. Global stages have none.
    pub target: Option<&'a str>,
    /// The stage that delivered the event.
    pub stage: RouteStage,
    /// What the receiver answered.
    pub outcome: InputOutcome,
}

/// The plain content of a delivery.
pub struct DeliveryView {
    /// The text of the receiver's id, if it had one.
    pub target: Option<Seq<char>>,
    /// The stage that delivered the event.
    pub stage: RouteStage,
    /// What the receiver answered.
    pub outcome: InputOutcome,
}

impl<'a> View for Delivery<'a> {
    type V = DeliveryView;

    open spec fn view(&self) -> DeliveryView {
        DeliveryView { target: text_of(self.target), stage: self.stage, outcome: self.outcome }
    }
}

/// A delivery that reached nothing.
pub open spec fn undelivered() -> DeliveryView {
    DeliveryView { target: None, stage: RouteStage::Undelivered, outcome: InputOutcome::Ignored }
}

/// The delivery after a receiver at `stage` (named `id`, or global) answered
/// `outcome`: a named surface always records it; a global handler records it
/// only when it consumed the event, so an ignoring chord masks nothing.
pub open spec fn recorded(
    d: DeliveryView,
    stage: RouteStage,
    id: Option<Seq<char>>,
    outcome: InputOutcome,
) -> DeliveryView {
    if id is Some || outcome.is_consumed() {
        DeliveryView { target: id, stage, outcome }
    } else {
        d
    }
}

impl<'a> Delivery<'a> {
    /// Whether some receiver consumed the event.
    pub fn consumed(&self) -> (r: bool)
        ensures
            r == self.outcome.is_consumed(),
    {
        self.outcome.consumed()
    }

    /// Whether `id` received the event.
    pub fn reached(&self, id: &str) -> (r: bool)
        ensures
            r == (text_of(self.target) == Some(id@)),
    {
        match self.target {
            Some(t) => same_id(t, id),
            None => false,
        }
    }
}

/// Host state that can receive a routed event.
///
/// A state whose `handle` needs frame context (a scroll extent, a viewport
/// height) routes through the `*_fn` stages instead.
pub trait InputTarget {
    /// The answer this state gives to `event`.
    spec fn answer(&self, event: Event) -> InputOutcome;

    /// Handle one event, reporting whether it was recognized.
    fn handle(&mut self, event: &Event) -> (r: InputOutcome)
        ensures
            r == old(self).answer(*event),
    ;
}

/// A borrowed target answers as the target it borrows.
impl<T: InputTarget> InputTarget for &mut T {
    open spec fn answer(&self, event: Event) -> InputOutcome {
        (**self).answer(event)
    }

    fn handle(&mut self, event: &Event) -> (r: InputOutcome) {
        (**self).handle(event)
    }
}

/// The plain state of a route in progress.
pub struct RouteView {
    /// The text of the frame's active id.
    pub active: Option<Seq<char>>,
    /// The event being routed.
    pub event: Event,
    /// What the route has done so far.
    pub delivery: DeliveryView,
    /// The last stage entered.
    pub last_stage: RouteStage,
}

/// The route after entering `stage` and, unless the event is already
/// consumed, recording `outcome` from the receiver `id`.
pub open spec fn staged(
    v: RouteView,
    stage: RouteStage,
    id: Option<Seq<char>>,
    outcome: InputOutcome,
) -> RouteView {
    RouteView {
        last_stage: stage,
        delivery: if v.delivery.outcome.is_consumed() {
            v.delivery
        } else {
            recorded(v.delivery, stage, id, outcome)
        },
        ..v
    }
}

/// The route after entering `stage` without offering the event to anyone.
pub open spec fn passed(v: RouteView, stage: RouteStage) -> RouteView {
    RouteView { last_stage: stage, ..v }
}

/// Routes one event through the frame's focus state.
///
/// Built per `update` call: it copies the active id from the
/// [`FocusRegistry`] once, then borrows each surface's state in turn.
pub struct Router<'a, 'e> {
    active: Option<String>,
    event: &'e Event,
    delivery: Delivery<'a>,
    last_stage: RouteStage,
}

impl<'a, 'e> View for Router<'a, 'e> {
    type V = RouteView;

    closed spec fn view(&self) -> RouteView {
        RouteView {
            active: match self.active {
                Some(a) => Some(a@),
                None => None,
            },
            event: *self.event,
            delivery: self.delivery@,
            last_stage: self.last_stage,
        }
    }
}

impl<'a, 'e> Router<'a, 'e> {
    /// Start routing `event` against the frame's focus state. The registry is
    /// read here and not held.
    pub fn new(focus: &FocusRegistry, event: &'e Event) -> (r: Self)
        ensures
            r@ == (RouteView {
                active: active_id(focus@),
                event: *event,
                delivery: undelivered(),
                last_stage: RouteStage::Pre,
            }),
    {
        let active = match focus.active() {
            Some(a) => Some(a.to_owned()),
            None => None,
        };
        Router {
            active,
            event,
            delivery: Delivery {
                target: None,
                stage: RouteStage::Undelivered,
                outcome: InputOutcome::Ignored,
            },
            last_stage: RouteStage::Pre,
        }
    }

    /// The event being routed, for a stage closure that needs it.
    pub fn event(&self) -> (r: &'e Event)
        ensures
            *r == self@.event,
    {
        self.event
    }

    /// What the route has done so far.
    pub fn delivery(&self) -> (r: Delivery<'a>)
        ensures
            r@ == self@.delivery,
    {
        self.delivery
    }

    /// Finish the route and report what happened.
    pub fn finish(self) -> (r: Delivery<'a>)
        ensures
            r@ == self@.delivery,
    {
        self.delivery
    }

    /// Whether `id` is the frame's active surface.
    fn is_active(&self, id: &str) -> (r: bool)
        ensures
            r == (self@.active == Some(id@)),
    {
        match &self.active {
            Some(a) => same_id(a.as_str(), id),
            None => false,
        }
    }

    fn enter(&mut self, stage: RouteStage)
        requires
            stage_rank(stage) >= stage_rank(old(self)@.last_stage),
        ensures
            final(self)@ == passed(old(self)@, stage),
    {
        self.last_stage = stage;
    }

    fn record(&mut self, stage: RouteStage, id: Option<&'a str>, outcome: InputOutcome)
        requires
            !old(self)@.delivery.outcome.is_consumed(),
        ensures
            final(self)@ == (RouteView {
                delivery: recorded(old(self)@.delivery, stage, text_of(id), outcome),
                ..old(self)@
            }),
    {
        if id.is_some() || outcome.consumed() {
            self.delivery = Delivery { target: id, stage, outcome };
        }
    }

    fn stage_fn<F: FnOnce(&Event) -> InputOutcome>(
        &mut self,
        stage: RouteStage,
        id: Option<&'a str>,
        handler: F,
    )
        requires
            stage_rank(stage) >= stage_rank(old(self)@.last_stage),
            handler.requires((&old(self)@.event,)),
        ensures
            exists|o: InputOutcome|
                (old(self)@.delivery.outcome.is_consumed() || handler.ensures(
                    (&old(self)@.event,),
                    o,
                )) && final(self)@ == staged(old(self)@, stage, text_of(id), o),
    {
        self.enter(stage);
        if self.delivery.consumed() {
            assert(self@ == staged(old(self)@, stage, text_of(id), InputOutcome::Ignored));
            return;
        }
        let outcome = handler(self.event);
        self.record(stage, id, outcome);
        assert(self@ == staged(old(self)@, stage, text_of(id), outcome));
    }

    fn stage_target<T: InputTarget>(&mut self, stage: RouteStage, id: &'a str, target: &mut T)
        requires
            stage_rank(stage) >= stage_rank(old(self)@.last_stage),
        ensures
            final(self)@ == staged(
                old(self)@,
                stage,
                Some(id@),
                old(target).answer(old(self)@.event),
            ),
            old(self)@.delivery.outcome.is_consumed() ==> *final(target) == *old(target),
    {
        self.enter(stage);
        if self.delivery.consumed() {
            assert(self@ == staged(old(self)@, stage, Some(id@), InputOutcome::Ignored));
            return;
        }
        let outcome = target.handle(self.event);
        self.record(stage, Some(id), outcome);
        assert(self@ == staged(old(self)@, stage, Some(id@), outcome));
    }

    /// A global handler that sees the event before any surface: an interrupt
    /// or quit chord that must win over whatever owns input.
    pub fn pre_fn<F: FnOnce(&Event) -> InputOutcome>(&mut self, handler: F) -> (r: &mut Self)
        requires
            old(self)@.last_stage == RouteStage::Pre,
            handler.requires((&old(self)@.event,)),
        ensures
            exists|o: InputOutcome|
                (old(self)@.delivery.outcome.is_consumed() || handler.ensures(
                    (&old(self)@.event,),
                    o,
                )) && r@ == staged(old(self)@, RouteStage::Pre, None, o),
            final(self)@ == final(r)@,
    {
        self.stage_fn(RouteStage::Pre, None, handler);
        self
    }

    /// Deliver to `id` when it is the frame's active surface.
    pub fn target<T: InputTarget>(&mut self, id: &'a str, target: &mut T) -> (r: &mut Self)
        requires
            stage_rank(old(self)@.last_stage) <= stage_rank(RouteStage::Target),
        ensures
            old(self)@.active == Some(id@) ==> r@ == staged(
                old(self)@,
                RouteStage::Target,
                Some(id@),
                old(target).answer(old(self)@.event),
            ),
            old(self)@.active != Some(id@) ==> r@ == passed(old(self)@, RouteStage::Target)
                && *final(target) == *old(target),
            old(self)@.delivery.outcome.is_consumed() ==> *final(target) == *old(target),
            final(self)@ == final(r)@,
    {
        if !self.is_active(id) {
            self.enter(RouteStage::Target);
            return self;
        }
        self.stage_target(RouteStage::Target, id, target);
        self
    }

    /// Deliver to `id` when it is active, through a closure: for a state
    /// whose `handle` needs frame context, or a host type that is not an
    /// [`InputTarget`].
    pub fn target_fn<F: FnOnce(&Event) -> InputOutcome>(&mut self, id: &'a str, handler: F) -> (r:
        &mut Self)
        requires
            stage_rank(old(self)@.last_stage) <= stage_rank(RouteStage::Target),
            handler.requires((&old(self)@.event,)),
        ensures
            old(self)@.active == Some(id@) ==> exists|o: InputOutcome|
                (old(self)@.delivery.outcome.is_consumed() || handler.ensures(
                    (&old(self)@.event,),
                    o,
                )) && r@ == staged(old(self)@, RouteStage::Target, Some(id@), o),
            old(self)@.active != Some(id@) ==> r@ == passed(old(self)@, RouteStage::Target),
            final(self)@ == final(r)@,
    {
        if !self.is_active(id) {
            self.enter(RouteStage::Target);
            return self;
        }
        self.stage_fn(RouteStage::Target, Some(id), handler);
        self
    }

    /// Deliver to `id` whether or not it is active: the deliberate, named
    /// hole in ownership. Such a surface refuses the event before the active
    /// one does.
    pub fn always<T: InputTarget>(&mut self, id: &'a str, target: &mut T) -> (r: &mut Self)
        requires
            stage_rank(old(self)@.last_stage) <= stage_rank(RouteStage::Always),
        ensures
            r@ == staged(
                old(self)@,
                RouteStage::Always,
                Some(id@),
                old(target).answer(old(self)@.event),
            ),
            old(self)@.delivery.outcome.is_consumed() ==> *final(target) == *old(target),
            final(self)@ == final(r)@,
    {
        self.stage_target(RouteStage::Always, id, target);
        self
    }

    /// [`always`](Self::always) through a closure.
    pub fn always_fn<F: FnOnce(&Event) -> InputOutcome>(&mut self, id: &'a str, handler: F) -> (r:
        &mut Self)
        requires
            stage_rank(old(self)@.last_stage) <= stage_rank(RouteStage::Always),
            handler.requires((&old(self)@.event,)),
        ensures
            exists|o: InputOutcome|
                (old(self)@.delivery.outcome.is_consumed() || handler.ensures(
                    (&old(self)@.event,),
                    o,
                )) && r@ == staged(old(self)@, RouteStage::Always, Some(id@), o),
            final(self)@ == final(r)@,
    {
        self.stage_fn(RouteStage::Always, Some(id), handler);
        self
    }

    /// A global handler that runs only when nothing consumed the event.
    pub fn fallback_fn<F: FnOnce(&Event) -> InputOutcome>(&mut self, handler: F) -> (r: &mut Self)
        requires
            stage_rank(old(self)@.last_stage) <= stage_rank(RouteStage::Fallback),
            handler.requires((&old(self)@.event,)),
        ensures
            exists|o: InputOutcome|
                (old(self)@.delivery.outcome.is_consumed() || handler.ensures(
                    (&old(self)@.event,),
                    o,
                )) && r@ == staged(old(self)@, RouteStage::Fallback, None, o),
            final(self)@ == final(r)@,
    {
        self.stage_fn(RouteStage::Fallback, None, handler);
        self
    }
}

/// Once a receiver has consumed the event, no later stage changes the
/// delivery: the first consumer is the one reported, and a later fallback or
/// surface never sees the event.
pub proof fn consumed_event_stops_the_route(
    v: RouteView,
    stage: RouteStage,
    id: Option<Seq<char>>,
    outcome: InputOutcome,
)
    requires
        v.delivery.outcome.is_consumed(),
    ensures
        staged(v, stage, id, outcome).delivery == v.delivery,
{
}

/// A global handler that ignores the event records nothing, so a route that
/// reached no surface still ends undelivered; a named surface is recorded
/// whatever it answered.
pub proof fn ignoring_global_stage_masks_nothing(
    v: RouteView,
    stage: RouteStage,
    id: Option<Seq<char>>,
    outcome: InputOutcome,
)
    requires
        !v.delivery.outcome.is_consumed(),
    ensures
        id is None && !outcome.is_consumed() ==> staged(v, stage, id, outcome).delivery
            == v.delivery,
        id is Some ==> staged(v, stage, id, outcome).delivery == (DeliveryView {
            target: id,
            stage,
            outcome,
        }),
{
}

} // verus!
