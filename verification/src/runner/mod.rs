//! The runner's redraw state machine and configuration.
//!
//! [`RunnerCore`] is the pure decision core shared by every run loop: a host
//! delivers signals to application code, passes the resulting
//! [`UpdateResult`] here, and performs the returned [`RunnerAction`]. The
//! loops themselves, which own the terminal, live with the host.

use vstd::prelude::*;

use std::time::{Duration, Instant};

use crate::clock::{
    checked_later, duration_from_millis, duration_nanos, earlier_instant, earlier_of,
    instant_after, instant_not_after, instant_span, later_instant, later_of, less_by, millis,
    nanos_of, not_after, span_since, Clock, SystemClock,
};
use crate::event::Event;
use crate::screen::{config_captures_mouse, ScreenMode, TerminalSessionConfig};

pub mod asynchronous;
pub mod selection;

pub use asynchronous::AsyncRunner;

verus! {

/// Options for [`Runner`] and [`AsyncRunner`].
#[derive(Clone, Copy, Debug)]
pub struct RunnerConfig {
    /// Maximum time between frames and data-driven redraw checks.
    pub tick_rate: Duration,
    /// Which part of the terminal the frame owns. Defaults to
    /// [`ScreenMode::Alternate`].
    pub screen_mode: ScreenMode,
}

impl Default for RunnerConfig {
    fn default() -> (c: Self)
        ensures
            c.tick_rate == duration_from_millis(100),
            duration_nanos(c.tick_rate) == 100_000_000,
            c.screen_mode == ScreenMode::Alternate,
    {
        RunnerConfig { tick_rate: millis(100), screen_mode: ScreenMode::Alternate }
    }
}

/// The smallest tick interval a runner schedules: one millisecond, so an
/// idle loop never busy-spins.
pub open spec fn tick_floor_nanos() -> u128 {
    1_000_000
}

/// `config` with its tick interval raised to the one-millisecond floor; an
/// interval at or above the floor is kept as it is.
pub open spec fn floored(config: RunnerConfig, result: RunnerConfig) -> bool {
    &&& result.screen_mode == config.screen_mode
    &&& duration_nanos(config.tick_rate) >= tick_floor_nanos() ==> result.tick_rate
        == config.tick_rate
    &&& duration_nanos(config.tick_rate) < tick_floor_nanos() ==> result.tick_rate
        == duration_from_millis(1) && duration_nanos(result.tick_rate) == tick_floor_nanos()
}

/// The configuration with its tick interval held at one millisecond or more.
pub(crate) fn with_tick_floor(config: RunnerConfig) -> (r: RunnerConfig)
    ensures
        floored(config, r),
{
    let mut config = config;
    if nanos_of(&config.tick_rate) < 1_000_000 {
        config.tick_rate = millis(1);
    }
    config
}

/// A signal delivered to a runner update function.
#[derive(Clone, Debug, PartialEq, Eq)]
pub enum Signal {
    /// The configured tick interval elapsed.
    Tick,
    /// A translated terminal input event arrived. Resize events force a redraw
    /// after the update unless it exits, even when the update is clean.
    Event(Event),
}

impl Signal {
    /// Whether the signal forces a redraw: a terminal resize does.
    pub fn requires_redraw(&self) -> (r: bool)
        ensures
            r == (self matches Signal::Event(Event::Resize { .. })),
    {
        match self {
            Signal::Event(Event::Resize { .. }) => true,
            _ => false,
        }
    }
}

/// What a runner should do after an update.
#[derive(Clone, Copy, Debug, PartialEq, Eq, Structural)]
pub enum UpdateResult {
    /// The signal was not handled. Keep waiting without rebuilding or
    /// repainting; the runner may apply a default interaction such as text
    /// selection.
    Clean,
    /// The signal was handled without changing persistent state or repainting.
    /// This prevents runner-provided default interactions.
    Consumed,
    /// The signal was handled and the view must be rebuilt and repainted.
    Dirty,
    /// Stop the runner without painting another frame.
    Exit,
}

impl Default for UpdateResult {
    fn default() -> (r: Self)
        ensures
            r == UpdateResult::Clean,
    {
        UpdateResult::Clean
    }
}

/// Runtime-neutral decision produced by [`RunnerCore`].
#[derive(Clone, Copy, Debug, PartialEq, Eq, Structural)]
pub enum RunnerAction {
    /// Wait for another signal or an external redraw request.
    Wait,
    /// Render the given animation frame number.
    Render(u64),
    /// End the application loop.
    Exit,
}

/// The plain state of a runner core.
pub struct CoreView {
    /// The number the next rendered frame gets.
    pub next_frame: u64,
    /// Whether a frame is owed.
    pub dirty: bool,
    /// Whether an exit result has ended the loop.
    pub exited: bool,
}

/// The core after an application's update result.
pub open spec fn core_applied(v: CoreView, result: UpdateResult) -> CoreView {
    match result {
        UpdateResult::Clean | UpdateResult::Consumed => v,
        UpdateResult::Dirty => CoreView { dirty: true, ..v },
        UpdateResult::Exit => CoreView { exited: true, ..v },
    }
}

/// The next frame number, wrapping after `u64::MAX`.
pub open spec fn following_frame(frame: u64) -> u64 {
    if frame == u64::MAX { 0 } else { (frame + 1) as u64 }
}

/// The core and action after asking for the next action.
pub open spec fn core_next(v: CoreView) -> (CoreView, RunnerAction) {
    if v.exited {
        (v, RunnerAction::Exit)
    } else if v.dirty {
        (
            CoreView { dirty: false, next_frame: following_frame(v.next_frame), ..v },
            RunnerAction::Render(v.next_frame),
        )
    } else {
        (v, RunnerAction::Wait)
    }
}

/// Pure runner state machine shared by the run loops and available to custom
/// runtimes and test hosts.
///
/// It knows nothing about terminals, runtimes, clocks, sleeping, or backends.
#[derive(Clone, Debug)]
pub struct RunnerCore {
    next_frame: u64,
    dirty: bool,
    exited: bool,
}

impl View for RunnerCore {
    type V = CoreView;

    closed spec fn view(&self) -> CoreView {
        CoreView { next_frame: self.next_frame, dirty: self.dirty, exited: self.exited }
    }
}

impl Default for RunnerCore {
    fn default() -> (c: Self)
        ensures
            c@ == (CoreView { next_frame: 0, dirty: true, exited: false }),
    {
        Self::new()
    }
}

impl RunnerCore {
    /// Create a core that requests an initial frame.
    pub fn new() -> (c: Self)
        ensures
            c@ == (CoreView { next_frame: 0, dirty: true, exited: false }),
    {
        RunnerCore { next_frame: 0, dirty: true, exited: false }
    }

    /// Apply an application's update result.
    pub fn apply(&mut self, result: UpdateResult)
        ensures
            final(self)@ == core_applied(old(self)@, result),
    {
        match result {
            UpdateResult::Clean | UpdateResult::Consumed => {},
            UpdateResult::Dirty => self.dirty = true,
            UpdateResult::Exit => self.exited = true,
        }
    }

    /// Request a frame independently of an application signal.
    pub fn request_redraw(&mut self)
        ensures
            final(self)@ == (CoreView { dirty: true, ..old(self)@ }),
    {
        self.dirty = true;
    }

    /// Whether an exit result has made this core terminal.
    pub fn is_exited(&self) -> (r: bool)
        ensures
            r == self@.exited,
    {
        self.exited
    }

    /// Take the next action. A render consumes the dirty flag and advances the
    /// wrapping animation frame counter.
    pub fn next_action(&mut self) -> (r: RunnerAction)
        ensures
            (final(self)@, r) == core_next(old(self)@),
    {
        if self.exited {
            return RunnerAction::Exit;
        }
        if self.dirty {
            self.dirty = false;
            let frame = self.next_frame;
            self.next_frame = self.next_frame.wrapping_add(1);
            RunnerAction::Render(frame)
        } else {
            RunnerAction::Wait
        }
    }
}

/// Once an update has asked to exit, every later action is `Exit`, whatever
/// updates and redraw requests follow.
pub proof fn exit_is_final(v: CoreView, result: UpdateResult)
    requires
        v.exited,
    ensures
        core_next(v).1 == RunnerAction::Exit,
        core_next(v).0 == v,
        core_applied(v, result).exited,
        (CoreView { dirty: true, ..v }).exited,
{
}

/// A render consumes the redraw request: right after a frame is rendered the
/// core waits until something asks for another one, and the next frame gets
/// the following number.
pub proof fn render_consumes_the_request(v: CoreView)
    requires
        !v.exited,
        v.dirty,
    ensures
        core_next(v).1 == RunnerAction::Render(v.next_frame),
        core_next(core_next(v).0).1 == RunnerAction::Wait,
        core_next(core_applied(core_next(v).0, UpdateResult::Dirty)).1 == RunnerAction::Render(
            following_frame(v.next_frame),
        ),
{
}

/// Updates that report `Clean` or `Consumed` never cause a repaint on their
/// own.
pub proof fn clean_updates_do_not_repaint(v: CoreView)
    requires
        !v.exited,
        !v.dirty,
    ensures
        core_next(core_applied(v, UpdateResult::Clean)).1 == RunnerAction::Wait,
        core_next(core_applied(v, UpdateResult::Consumed)).1 == RunnerAction::Wait,
{
}

/// When a redraw an input event asked for is due.
#[derive(Clone, Copy, Debug, PartialEq, Eq, Structural)]
pub enum RedrawDue {
    /// As soon as the loop comes round.
    Now,
    /// One frame interval after the last frame (resize-driven redraws).
    AfterFrameInterval,
}

/// What a run loop does after delivering an input event to the application.
#[derive(Clone, Copy, Debug, PartialEq, Eq, Structural)]
pub enum EventDecision {
    /// Leave the loop.
    Exit,
    /// A frame is owed; schedule it.
    Redraw(RedrawDue),
    /// Nothing to do; keep waiting.
    Idle,
}

/// The core and decision after an input event whose update answered
/// `result`: an exit ends the loop; a resize, a dirty update or a change of
/// the runner's own text selection owes a frame, a resize one frame interval
/// after the last.
pub open spec fn event_decision_spec(
    v: CoreView,
    resize: bool,
    result: UpdateResult,
    selection_changed: bool,
) -> (CoreView, EventDecision) {
    let applied = core_applied(v, result);
    if applied.exited {
        (applied, EventDecision::Exit)
    } else if resize || result == UpdateResult::Dirty || selection_changed {
        (
            CoreView { dirty: true, ..applied },
            EventDecision::Redraw(if resize { RedrawDue::AfterFrameInterval } else { RedrawDue::Now }),
        )
    } else {
        (applied, EventDecision::Idle)
    }
}

/// What a run loop does after a tick whose update answered `result`.
#[derive(Clone, Copy, Debug, PartialEq, Eq, Structural)]
pub enum TickDecision {
    /// Leave the loop.
    Exit,
    /// The update dirtied the view; a frame is due now.
    RedrawNow,
    /// Nothing to do; keep waiting.
    Idle,
}

/// An input event whose update dirtied the view is painted: the loop owes a
/// frame (now, or one frame interval after the last for a resize), and the
/// core's next action renders it; an event that asked for nothing (no
/// resize, no dirty update, no selection change) leaves a settled core
/// waiting.
pub proof fn a_dirty_event_is_painted(v: CoreView, resize: bool, selection_changed: bool)
    requires
        !v.exited,
    ensures
        event_decision_spec(v, resize, UpdateResult::Dirty, selection_changed).1
            == EventDecision::Redraw(
            if resize { RedrawDue::AfterFrameInterval } else { RedrawDue::Now },
        ),
        core_next(event_decision_spec(v, resize, UpdateResult::Dirty, selection_changed).0).1
            == RunnerAction::Render(v.next_frame),
        !v.dirty ==> event_decision_spec(v, false, UpdateResult::Clean, false).1
            == EventDecision::Idle && core_next(
            event_decision_spec(v, false, UpdateResult::Clean, false).0,
        ).1 == RunnerAction::Wait,
{
}

/// The core and decision after a tick whose update answered `result`.
pub open spec fn tick_decision_spec(v: CoreView, result: UpdateResult) -> (CoreView, TickDecision) {
    let applied = core_applied(v, result);
    if applied.exited {
        (applied, TickDecision::Exit)
    } else if result == UpdateResult::Dirty {
        (applied, TickDecision::RedrawNow)
    } else {
        (applied, TickDecision::Idle)
    }
}

/// The core and action of one turn of an event-driven loop: the update's
/// result is applied, a resize or a block published above a split footer
/// asks for a frame, and the core then says what to do.
pub open spec fn loop_turn_spec(v: CoreView, resize: bool, result: UpdateResult, published: bool) -> (
    CoreView,
    RunnerAction,
) {
    let applied = core_applied(v, result);
    if applied.exited {
        (applied, RunnerAction::Exit)
    } else {
        core_next(
            if resize || published {
                CoreView { dirty: true, ..applied }
            } else {
                applied
            },
        )
    }
}

impl RunnerCore {
    /// Decide what follows an input event: apply the update's `result`, and
    /// ask for a frame when the event was a resize (one frame interval after
    /// the last), the update dirtied the view, or the runner's own text
    /// selection changed.
    pub fn after_event(&mut self, resize: bool, result: UpdateResult, selection_changed: bool) -> (r:
        EventDecision)
        ensures
            (final(self)@, r) == event_decision_spec(old(self)@, resize, result, selection_changed),
    {
        self.apply(result);
        if self.is_exited() {
            return EventDecision::Exit;
        }
        if resize || result == UpdateResult::Dirty || selection_changed {
            self.request_redraw();
            EventDecision::Redraw(
                if resize {
                    RedrawDue::AfterFrameInterval
                } else {
                    RedrawDue::Now
                },
            )
        } else {
            EventDecision::Idle
        }
    }

    /// Decide what follows a tick: apply the update's `result`; a dirty
    /// update makes a frame due now.
    pub fn after_tick(&mut self, result: UpdateResult) -> (r: TickDecision)
        ensures
            (final(self)@, r) == tick_decision_spec(old(self)@, result),
    {
        self.apply(result);
        if self.is_exited() {
            TickDecision::Exit
        } else if result == UpdateResult::Dirty {
            TickDecision::RedrawNow
        } else {
            TickDecision::Idle
        }
    }

    /// One turn of an event-driven loop: apply the update's `result`, ask
    /// for a frame after a resize or after publishing above a split footer,
    /// and take the next action.
    pub fn turn(&mut self, resize: bool, result: UpdateResult, published: bool) -> (r: RunnerAction)
        ensures
            (final(self)@, r) == loop_turn_spec(old(self)@, resize, result, published),
    {
        self.apply(result);
        if self.is_exited() {
            return RunnerAction::Exit;
        }
        if resize || published {
            self.request_redraw();
        }
        self.next_action()
    }
}

/// A loop turn renders after a resize or a dirty update unless the update
/// exited, and never renders once the core has exited.
pub proof fn resize_or_dirty_turn_renders(
    v: CoreView,
    resize: bool,
    result: UpdateResult,
    published: bool,
)
    ensures
        v.exited ==> loop_turn_spec(v, resize, result, published).1 == RunnerAction::Exit,
        !v.exited && result != UpdateResult::Exit && (resize || result == UpdateResult::Dirty)
            ==> loop_turn_spec(v, resize, result, published).1 == RunnerAction::Render(
            v.next_frame,
        ),
        !v.exited && !v.dirty && !resize && !published && (result == UpdateResult::Clean
            || result == UpdateResult::Consumed) ==> loop_turn_spec(v, resize, result, published).1
            == RunnerAction::Wait,
{
}

/// The minimum spacing of resize-driven redraws: one frame every 16 ms.
pub fn resize_frame_interval() -> (d: Duration)
    ensures
        d == duration_from_millis(16),
        duration_nanos(d) == 16_000_000,
{
    millis(16)
}

/// When a resize-driven redraw is due: one frame interval after the last
/// frame, or now if that has passed (or cannot be represented).
pub fn resize_redraw_at(last_frame: Instant, now: Instant) -> (r: Instant)
    ensures
        r == match instant_after(last_frame, duration_from_millis(16)) {
            Some(deadline) => later_instant(deadline, now),
            None => now,
        },
{
    match checked_later(last_frame, resize_frame_interval()) {
        Some(deadline) => later_of(deadline, now),
        None => now,
    }
}

/// Schedule a redraw at `at`, keeping an earlier deadline already set.
pub fn schedule_redraw(deadline: &mut Option<Instant>, at: Instant)
    ensures
        *final(deadline) == Some(
            match *old(deadline) {
                Some(current) => earlier_instant(current, at),
                None => at,
            },
        ),
{
    let next = match *deadline {
        Some(current) => earlier_of(current, at),
        None => at,
    };
    *deadline = Some(next);
}

/// Whether a tick is due at `now`: a whole tick interval has passed since
/// the last tick.
pub fn tick_due(now: Instant, last_tick: Instant, tick_rate: Duration) -> (r: bool)
    ensures
        r == (duration_nanos(instant_span(now, last_tick)) >= duration_nanos(tick_rate)),
{
    let elapsed = span_since(now, last_tick);
    nanos_of(&elapsed) >= nanos_of(&tick_rate)
}

/// Whether a scheduled redraw is due at `now`: there is a deadline and it
/// is not later than `now`.
pub fn redraw_due(redraw_at: Option<Instant>, now: Instant) -> (r: bool)
    ensures
        r == match redraw_at {
            Some(deadline) => instant_not_after(deadline, now),
            None => false,
        },
{
    match redraw_at {
        Some(deadline) => not_after(deadline, now),
        None => false,
    }
}

/// How long a loop may wait for input, in nanoseconds: until the next tick
/// (what is left of the tick interval after `since_tick`), or until the
/// scheduled redraw when that comes sooner.
pub open spec fn wait_nanos(since_tick: u128, tick_rate: u128, until_redraw: Option<u128>) -> u128 {
    let until_tick = if tick_rate >= since_tick { (tick_rate - since_tick) as u128 } else { 0 };
    match until_redraw {
        Some(r) => if r < until_tick { r } else { until_tick },
        None => until_tick,
    }
}

/// How long the loop waits for input at `now`: until the next tick is due,
/// or the scheduled redraw when that comes sooner.
pub fn wait_timeout(now: Instant, last_tick: Instant, tick_rate: Duration, redraw_at: Option<
    Instant,
>) -> (d: Duration)
    ensures
        duration_nanos(d) == wait_nanos(
            duration_nanos(instant_span(now, last_tick)),
            duration_nanos(tick_rate),
            match redraw_at {
                Some(deadline) => Some(duration_nanos(instant_span(deadline, now))),
                None => None,
            },
        ),
{
    let elapsed = span_since(now, last_tick);
    let until_tick = less_by(tick_rate, elapsed);
    match redraw_at {
        Some(deadline) => {
            let until_redraw = span_since(deadline, now);
            if nanos_of(&until_redraw) < nanos_of(&until_tick) {
                until_redraw
            } else {
                until_tick
            }
        },
        None => until_tick,
    }
}

/// The plain state of a runner's policy.
pub struct RunnerView {
    /// The effective configuration.
    pub config: RunnerConfig,
    /// The terminal session policy, when overridden.
    pub session_config: Option<TerminalSessionConfig>,
    /// Whether runner-provided drag selection is enabled.
    pub text_selection: bool,
}

/// Whether a runner in this state offers drag selection: it must be enabled,
/// and the session must capture the mouse.
pub open spec fn runner_selects_text(v: RunnerView) -> bool {
    v.text_selection && match v.session_config {
        Some(c) => config_captures_mouse(c),
        None => v.config.screen_mode == ScreenMode::Alternate,
    }
}

/// A synchronous event and rendering loop's configuration and clock.
pub struct Runner<C = SystemClock> {
    config: RunnerConfig,
    clock: C,
    session_config: Option<TerminalSessionConfig>,
    text_selection: bool,
}

impl<C> View for Runner<C> {
    type V = RunnerView;

    closed spec fn view(&self) -> RunnerView {
        RunnerView {
            config: self.config,
            session_config: self.session_config,
            text_selection: self.text_selection,
        }
    }
}

impl Runner<SystemClock> {
    /// Create a runner driven by the system clock, without touching the
    /// terminal.
    pub fn new(config: RunnerConfig) -> (r: Self)
        ensures
            floored(config, r@.config),
            r@.session_config is None,
            r@.text_selection,
    {
        Self::with_clock(config, SystemClock)
    }
}

impl<C: Clock> Runner<C> {
    /// Create a runner driven by an explicit monotonic clock. A zero tick
    /// interval would busy-spin, so the interval is held at one millisecond
    /// or more.
    pub fn with_clock(config: RunnerConfig, clock: C) -> (r: Self)
        ensures
            floored(config, r@.config),
            r.clock_spec() == clock,
            r@.session_config is None,
            r@.text_selection,
    {
        Runner {
            config: with_tick_floor(config),
            clock,
            session_config: None,
            text_selection: true,
        }
    }

    /// The effective configuration.
    pub fn config(&self) -> (r: RunnerConfig)
        ensures
            r == self@.config,
    {
        self.config
    }

    /// The clock that drives tick scheduling.
    pub closed spec fn clock_spec(&self) -> C {
        self.clock
    }

    /// The clock that drives tick scheduling.
    pub fn clock(&self) -> (r: &C)
        ensures
            *r == self.clock_spec(),
    {
        &self.clock
    }

    /// Override terminal lifecycle policy while retaining the runner's loop.
    pub fn with_session_config(self, config: TerminalSessionConfig) -> (r: Self)
        ensures
            r@ == (RunnerView {
                config: RunnerConfig { screen_mode: config.screen_mode, ..self@.config },
                session_config: Some(config),
                text_selection: self@.text_selection,
            }),
    {
        let mut runner = self;
        runner.config.screen_mode = config.screen_mode;
        runner.session_config = Some(config);
        runner
    }

    /// Enable or disable runner-provided drag selection over the final cell
    /// frame. It is enabled by default whenever the session captures the
    /// mouse.
    pub fn with_text_selection(self, enabled: bool) -> (r: Self)
        ensures
            r@ == (RunnerView { text_selection: enabled, ..self@ }),
    {
        let mut runner = self;
        runner.text_selection = enabled;
        runner
    }

    /// Whether the runner offers drag selection over the rendered frame.
    pub fn selects_text(&self) -> (r: bool)
        ensures
            r == runner_selects_text(self@),
    {
        self.text_selection && match self.session_config {
            Some(c) => c.captures_mouse(),
            None => self.config.screen_mode.captures_mouse(),
        }
    }
}

} // verus!
