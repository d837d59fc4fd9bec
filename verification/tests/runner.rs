use std::time::{Duration, Instant};

use tuika::clock::{Clock, SystemClock};
use tuika::event::{Event, Mouse, MouseButton, MouseKind};
use tuika::runner::selection::{copies_after, selection_step, SelectionStep};
use tuika::runner::{
    redraw_due, resize_frame_interval, resize_redraw_at, schedule_redraw, tick_due, wait_timeout, AsyncRunner, EventDecision, RedrawDue,
    Runner, RunnerAction, TickDecision,
    RunnerConfig, RunnerCore, Signal, UpdateResult,
};
use tuika::screen::{MouseCapture, ScreenMode, TerminalSessionConfig};

#[derive(Clone, Copy)]
struct FixedClock(Instant);

impl Clock for FixedClock {
    fn now(&self) -> Instant {
        self.0
    }
}

#[test]
fn asynchronous_zero_tick_rate_is_clamped() {
    let runner = AsyncRunner::new(RunnerConfig {
        tick_rate: Duration::ZERO,
        ..RunnerConfig::default()
    });
    assert_eq!(runner.config().tick_rate, Duration::from_millis(1));
}

#[test]
fn mod_zero_tick_rate_is_clamped() {
    let runner = Runner::new(RunnerConfig {
        tick_rate: Duration::ZERO,
        ..RunnerConfig::default()
    });
    assert_eq!(runner.config().tick_rate, Duration::from_millis(1));
}

#[test]
fn explicit_clock_drives_the_runner() {
    let now = Instant::now();
    let runner = Runner::with_clock(RunnerConfig::default(), FixedClock(now));
    assert_eq!(runner.clock().now(), now);
}

#[test]
fn resize_redraws_are_limited_to_one_frame_interval() {
    let last_frame = Instant::now();
    let during_frame = last_frame + Duration::from_millis(4);
    let after_frame = last_frame + Duration::from_millis(20);

    assert_eq!(
        resize_redraw_at(last_frame, during_frame),
        last_frame + resize_frame_interval()
    );
    assert_eq!(resize_redraw_at(last_frame, after_frame), after_frame);
}

#[test]
fn runner_core_is_deterministic_and_runtime_free() {
    let mut core = RunnerCore::new();
    assert_eq!(core.next_action(), RunnerAction::Render(0));
    assert_eq!(core.next_action(), RunnerAction::Wait);
    core.apply(UpdateResult::Dirty);
    assert_eq!(core.next_action(), RunnerAction::Render(1));
    core.apply(UpdateResult::Consumed);
    assert_eq!(core.next_action(), RunnerAction::Wait);
    core.apply(UpdateResult::Exit);
    assert_eq!(core.next_action(), RunnerAction::Exit);
}

#[test]
fn the_default_config_owns_the_alternate_screen() {
    assert_eq!(RunnerConfig::default().screen_mode, ScreenMode::Alternate);
}

#[test]
fn text_selection_follows_capture_and_can_be_disabled() {
    assert!(Runner::new(RunnerConfig::default()).selects_text());
    assert!(
        !Runner::new(RunnerConfig {
            screen_mode: ScreenMode::split_footer(3),
            ..RunnerConfig::default()
        })
        .selects_text()
    );
    assert!(
        !Runner::new(RunnerConfig::default())
            .with_text_selection(false)
            .selects_text()
    );
    assert!(
        !Runner::new(RunnerConfig::default())
            .with_session_config(TerminalSessionConfig {
                mouse_capture: MouseCapture::Disabled,
                ..TerminalSessionConfig::default()
            })
            .selects_text()
    );
}

#[test]
fn an_exited_core_stays_exited() {
    let mut core = RunnerCore::default();
    core.apply(UpdateResult::Exit);
    assert!(core.is_exited());
    core.request_redraw();
    core.apply(UpdateResult::Dirty);
    assert_eq!(core.next_action(), RunnerAction::Exit);
    assert_eq!(core.next_action(), RunnerAction::Exit);
}

#[test]
fn redraw_requests_render_one_frame_each() {
    let mut core = RunnerCore::new();
    assert_eq!(core.next_action(), RunnerAction::Render(0));
    core.request_redraw();
    core.request_redraw();
    assert_eq!(core.next_action(), RunnerAction::Render(1));
    assert_eq!(core.next_action(), RunnerAction::Wait);
    core.apply(UpdateResult::Clean);
    assert_eq!(core.next_action(), RunnerAction::Wait);
}

#[test]
fn only_resize_signals_force_a_redraw() {
    assert!(Signal::Event(Event::Resize { width: 80, height: 24 }).requires_redraw());
    assert!(!Signal::Tick.requires_redraw());
    assert!(!Signal::Event(Event::FocusLost).requires_redraw());
    assert_eq!(UpdateResult::default(), UpdateResult::Clean);
}

#[test]
fn tick_rates_above_the_floor_are_kept() {
    let runner = Runner::with_clock(
        RunnerConfig {
            tick_rate: Duration::from_micros(1500),
            screen_mode: ScreenMode::split_footer(2),
        },
        SystemClock,
    );
    assert_eq!(runner.config().tick_rate, Duration::from_micros(1500));
    assert_eq!(runner.config().screen_mode, ScreenMode::split_footer(2));
    let sub_milli = Runner::new(RunnerConfig {
        tick_rate: Duration::from_micros(999),
        ..RunnerConfig::default()
    });
    assert_eq!(sub_milli.config().tick_rate, Duration::from_millis(1));
    assert_eq!(RunnerConfig::default().tick_rate, Duration::from_millis(100));
}

#[test]
fn session_config_sets_the_screen_mode_and_capture() {
    let split = TerminalSessionConfig {
        screen_mode: ScreenMode::split_footer(4),
        mouse_capture: MouseCapture::Enabled,
    };
    let runner = Runner::new(RunnerConfig::default()).with_session_config(split);
    assert_eq!(runner.config().screen_mode, ScreenMode::split_footer(4));
    assert!(runner.selects_text());
    let runner = AsyncRunner::new(RunnerConfig::default()).with_session_config(split);
    assert_eq!(runner.config().screen_mode, ScreenMode::split_footer(4));
    assert!(ScreenMode::Alternate.is_alternate());
    assert!(!ScreenMode::split_footer(1).captures_mouse());
}

#[test]
fn scheduling_keeps_the_earliest_deadline() {
    let now = Instant::now();
    let later = now + Duration::from_millis(50);
    let mut deadline = None;
    schedule_redraw(&mut deadline, later);
    assert_eq!(deadline, Some(later));
    schedule_redraw(&mut deadline, now);
    assert_eq!(deadline, Some(now));
    schedule_redraw(&mut deadline, later);
    assert_eq!(deadline, Some(now));
}

#[test]
fn the_system_clock_moves_forward() {
    let clock = SystemClock;
    let first = clock.now();
    let second = clock.now();
    assert!(second >= first);
}

#[test]
fn event_decisions_follow_the_update() {
    let mut core = RunnerCore::new();
    assert_eq!(core.next_action(), RunnerAction::Render(0));
    assert_eq!(core.after_event(false, UpdateResult::Clean, false), EventDecision::Idle);
    assert_eq!(core.next_action(), RunnerAction::Wait);
    assert_eq!(
        core.after_event(true, UpdateResult::Clean, false),
        EventDecision::Redraw(RedrawDue::AfterFrameInterval)
    );
    assert_eq!(core.next_action(), RunnerAction::Render(1));
    assert_eq!(
        core.after_event(false, UpdateResult::Consumed, true),
        EventDecision::Redraw(RedrawDue::Now)
    );
    assert_eq!(
        core.after_event(true, UpdateResult::Exit, true),
        EventDecision::Exit
    );
    assert_eq!(core.next_action(), RunnerAction::Exit);
}

#[test]
fn tick_decisions_follow_the_update() {
    let mut core = RunnerCore::new();
    core.next_action();
    assert_eq!(core.after_tick(UpdateResult::Clean), TickDecision::Idle);
    assert_eq!(core.after_tick(UpdateResult::Dirty), TickDecision::RedrawNow);
    assert_eq!(core.next_action(), RunnerAction::Render(1));
    assert_eq!(core.after_tick(UpdateResult::Exit), TickDecision::Exit);
}

#[test]
fn loop_turns_render_after_resizes_and_publishing() {
    let mut core = RunnerCore::new();
    assert_eq!(core.turn(false, UpdateResult::Clean, false), RunnerAction::Render(0));
    assert_eq!(core.turn(false, UpdateResult::Consumed, false), RunnerAction::Wait);
    assert_eq!(core.turn(true, UpdateResult::Clean, false), RunnerAction::Render(1));
    assert_eq!(core.turn(false, UpdateResult::Clean, true), RunnerAction::Render(2));
    assert_eq!(core.turn(false, UpdateResult::Dirty, false), RunnerAction::Render(3));
    assert_eq!(core.turn(true, UpdateResult::Exit, true), RunnerAction::Exit);
    assert_eq!(core.turn(true, UpdateResult::Dirty, true), RunnerAction::Exit);
}

#[derive(Clone)]
struct ManualClock(std::sync::Arc<std::sync::Mutex<Instant>>);

impl ManualClock {
    fn new(now: Instant) -> Self {
        Self(std::sync::Arc::new(std::sync::Mutex::new(now)))
    }

    fn advance(&self, duration: Duration) {
        let mut now = self.0.lock().expect("manual clock lock");
        *now += duration;
    }
}

impl Clock for ManualClock {
    fn now(&self) -> Instant {
        *self.0.lock().expect("manual clock lock")
    }
}

#[test]
fn system_and_manual_clocks_are_accepted_by_the_runner() {
    let _system = Runner::with_clock(RunnerConfig::default(), SystemClock);
    let clock = ManualClock::new(Instant::now());
    let manual = Runner::with_clock(RunnerConfig::default(), clock.clone());
    let before = manual.clock().now();
    clock.advance(Duration::from_secs(1));
    assert_eq!(manual.clock().now(), before + Duration::from_secs(1));
}

#[test]
fn split_footers_report_their_height() {
    let mode = ScreenMode::split_footer(6);
    assert_eq!(mode.footer_height(), Some(6));
    assert_eq!(ScreenMode::default().footer_height(), None);
    let runner = Runner::new(RunnerConfig {
        screen_mode: mode,
        ..RunnerConfig::default()
    });
    assert_eq!(runner.config().screen_mode, mode);
    assert!(!runner.selects_text());
}

fn left(kind: MouseKind) -> Event {
    Event::Mouse(Mouse::at(kind, 3, 4))
}

#[test]
fn drag_selection_follows_unhandled_left_gestures() {
    let press = left(MouseKind::Down(MouseButton::Left));
    assert_eq!(selection_step(true, &press, UpdateResult::Clean, false), SelectionStep::Track);
    assert_eq!(
        selection_step(true, &press, UpdateResult::Dirty, true),
        SelectionStep::Clear { repaint: true }
    );
    assert_eq!(
        selection_step(true, &press, UpdateResult::Consumed, false),
        SelectionStep::Clear { repaint: false }
    );
    assert_eq!(selection_step(false, &press, UpdateResult::Clean, true), SelectionStep::Keep);
    let mut shifted = Mouse::at(MouseKind::Down(MouseButton::Left), 3, 4);
    shifted.shift = true;
    assert_eq!(
        selection_step(true, &Event::Mouse(shifted), UpdateResult::Clean, true),
        SelectionStep::Keep
    );
    let right = left(MouseKind::Down(MouseButton::Right));
    assert_eq!(selection_step(true, &right, UpdateResult::Dirty, true), SelectionStep::Keep);
}

#[test]
fn drag_selection_drops_on_resize_and_repainting_scroll() {
    let wheel = left(MouseKind::ScrollDown);
    assert_eq!(
        selection_step(true, &wheel, UpdateResult::Dirty, true),
        SelectionStep::Clear { repaint: true }
    );
    assert_eq!(selection_step(true, &wheel, UpdateResult::Clean, true), SelectionStep::Keep);
    let resize = Event::Resize { width: 80, height: 24 };
    assert_eq!(
        selection_step(true, &resize, UpdateResult::Clean, true),
        SelectionStep::Clear { repaint: true }
    );
    assert_eq!(selection_step(true, &Event::FocusLost, UpdateResult::Dirty, true), SelectionStep::Keep);
    assert!(copies_after(true, MouseKind::Up(MouseButton::Left), true));
    assert!(!copies_after(true, MouseKind::Drag(MouseButton::Left), true));
    assert!(!copies_after(false, MouseKind::Up(MouseButton::Left), true));
    assert!(!copies_after(true, MouseKind::Up(MouseButton::Left), false));
}

#[test]
fn ticks_fall_due_after_a_whole_interval() {
    let base = Instant::now();
    let later = base + Duration::from_millis(100);
    assert!(tick_due(later, base, Duration::from_millis(50)));
    assert!(tick_due(later, base, Duration::from_millis(100)));
    assert!(!tick_due(later, base, Duration::from_millis(200)));
    // A last tick in the future counts as no time elapsed.
    assert!(!tick_due(base, later, Duration::from_millis(1)));
    assert!(tick_due(base, later, Duration::ZERO));
}

#[test]
fn redraws_fall_due_at_their_deadline() {
    let base = Instant::now();
    let later = base + Duration::from_millis(30);
    assert!(!redraw_due(None, later));
    assert!(redraw_due(Some(base), later));
    assert!(redraw_due(Some(later), later));
    assert!(!redraw_due(Some(later), base));
}

#[test]
fn the_loop_waits_for_the_sooner_of_tick_and_redraw() {
    let base = Instant::now();
    let now = base + Duration::from_millis(100);
    let rate = Duration::from_millis(250);
    assert_eq!(wait_timeout(now, base, rate, None), Duration::from_millis(150));
    let soon = now + Duration::from_millis(20);
    assert_eq!(wait_timeout(now, base, rate, Some(soon)), Duration::from_millis(20));
    assert_eq!(wait_timeout(now, base, rate, Some(base)), Duration::ZERO);
    let far = now + Duration::from_secs(5);
    assert_eq!(wait_timeout(now, base, rate, Some(far)), Duration::from_millis(150));
    // An overdue tick waits for nothing.
    assert_eq!(wait_timeout(now, base, Duration::from_millis(40), None), Duration::ZERO);
}
