use tuika::event::{Event, InputOutcome, Key, KeyCode};
use tuika::focus::FocusRegistry;
use tuika::routing::{InputTarget, RouteStage, Router};

/// A single-line text input: typed characters and pastes append to its text;
/// everything else is left for someone else.
#[derive(Default)]
struct LineInput {
    text: String,
}

impl LineInput {
    fn new() -> Self {
        Self::default()
    }

    fn text(&self) -> &str {
        &self.text
    }
}

impl InputTarget for LineInput {
    fn answer(&self, event: Event) -> InputOutcome {
        match event {
            Event::Paste(_) => InputOutcome::Changed,
            Event::Key(key) if key.plain() => match key.code {
                KeyCode::Char(_) => InputOutcome::Changed,
                _ => InputOutcome::Ignored,
            },
            _ => InputOutcome::Ignored,
        }
    }

    fn handle(&mut self, event: &Event) -> InputOutcome {
        match event {
            Event::Paste(text) => {
                self.text.push_str(text);
                InputOutcome::Changed
            }
            Event::Key(key) if key.plain() => match key.code {
                KeyCode::Char(c) => {
                    self.text.push(c);
                    InputOutcome::Changed
                }
                _ => InputOutcome::Ignored,
            },
            _ => InputOutcome::Ignored,
        }
    }
}

fn frame(ids: &[&str]) -> FocusRegistry {
    let mut focus = FocusRegistry::new();
    focus.begin_frame();
    for id in ids {
        focus.register(id);
    }
    focus
}

fn paste(text: &str) -> Event {
    Event::Paste(text.to_string())
}

fn ctrl(ch: char) -> Event {
    Event::Key(Key {
        code: KeyCode::Char(ch),
        ctrl: true,
        alt: false,
        shift: false,
    })
}

#[test]
fn nothing_recognized_the_event_is_observable() {
    let mut composer = LineInput::new();
    let focus = frame(&["composer"]);

    // A resize is routed like any other kind; no surface claims it.
    let event = Event::Resize {
        width: 10,
        height: 4,
    };
    let mut router = Router::new(&focus, &event);
    router.pre_fn(|_| InputOutcome::Ignored);
    router.target("composer", &mut composer);
    let delivery = router.finish();

    assert!(!delivery.consumed());
    assert_eq!(delivery.target, Some("composer"));
    assert_eq!(delivery.stage, RouteStage::Target);
}

#[test]
fn an_unregistered_route_delivers_nothing() {
    let focus = frame(&["composer"]);
    let event = ctrl('v');
    let mut router = Router::new(&focus, &event);
    router.pre_fn(|_| InputOutcome::Ignored);
    router.fallback_fn(|_| InputOutcome::Ignored);
    let delivery = router.finish();

    assert_eq!(delivery.target, None);
    assert_eq!(delivery.stage, RouteStage::Undelivered);
}

#[test]
fn fallback_runs_only_when_nothing_consumed() {
    let mut composer = LineInput::new();
    let focus = frame(&["composer"]);

    // Consumed by the composer: the fallback never runs.
    let typed = Event::Key(Key::new(KeyCode::Char('a')));
    let mut fell_through = false;
    let mut router = Router::new(&focus, &typed);
    router.target("composer", &mut composer);
    router.fallback_fn(|_| {
        fell_through = true;
        InputOutcome::Consumed
    });
    assert_eq!(router.finish().stage, RouteStage::Target);
    assert!(!fell_through);

    // Ignored by the composer: the fallback gets it.
    let page = Event::Key(Key::new(KeyCode::PageDown));
    let mut router = Router::new(&focus, &page);
    router.target("composer", &mut composer);
    router.fallback_fn(|_| {
        fell_through = true;
        InputOutcome::Consumed
    });
    assert_eq!(router.finish().stage, RouteStage::Fallback);
    assert!(fell_through);
}

#[test]
fn always_reaches_a_surface_the_owner_left_inactive() {
    let mut prompt = LineInput::new();
    let mut focus = frame(&["transcript"]);
    focus.set_owner("prompt");

    let event = Event::Key(Key::new(KeyCode::PageDown));
    let mut scrolled = false;
    let mut router = Router::new(&focus, &event);
    router.always_fn("transcript", |_| {
        scrolled = true;
        InputOutcome::Changed
    });
    router.target("prompt", &mut prompt);
    let delivery = router.finish();

    assert!(scrolled);
    assert_eq!(delivery.target, Some("transcript"));
    assert_eq!(delivery.stage, RouteStage::Always);
}

#[test]
fn an_always_surface_that_ignores_leaves_the_active_one_its_event() {
    let mut composer = LineInput::new();
    let focus = frame(&["composer"]);

    let typed = paste("filter");
    let mut picker_saw = 0;
    let mut router = Router::new(&focus, &typed);
    router.always_fn("picker", |_| {
        picker_saw += 1;
        InputOutcome::Ignored
    });
    router.target("composer", &mut composer);
    let delivery = router.finish();

    assert_eq!(picker_saw, 1);
    assert!(delivery.reached("composer"));
    assert_eq!(composer.text(), "filter");
}

#[test]
fn overlay_owner_receives_every_event_kind() {
    for event in [
        paste("hunter2"),
        ctrl('v'),
        Event::Key(Key::new(KeyCode::Char('x'))),
    ] {
        let mut composer = LineInput::new();
        let mut prompt = LineInput::new();
        let mut focus = frame(&["composer"]);
        focus.set_owner("prompt");

        let mut router = Router::new(&focus, &event);
        router.target("prompt", &mut prompt);
        router.target("composer", &mut composer);
        let delivery = router.finish();

        assert_eq!(delivery.target, Some("prompt"), "{event:?}");
        assert_eq!(delivery.stage, RouteStage::Target, "{event:?}");
        assert!(composer.text().is_empty(), "{event:?}");
    }
}

#[test]
fn paste_reaches_the_owning_prompt_intact() {
    let mut composer = LineInput::new();
    let mut prompt = LineInput::new();
    let mut focus = frame(&["composer"]);
    focus.set_owner("prompt");

    let event = paste("secret-token");
    let mut router = Router::new(&focus, &event);
    router.target("prompt", &mut prompt);
    router.target("composer", &mut composer);
    let delivery = router.finish();

    assert!(delivery.consumed());
    assert_eq!(delivery.outcome, InputOutcome::Changed);
    assert_eq!(prompt.text(), "secret-token");
    assert!(composer.text().is_empty());
}

#[test]
fn without_an_owner_the_focused_surface_receives() {
    let mut composer = LineInput::new();
    let mut prompt = LineInput::new();
    let focus = frame(&["composer"]);

    let event = paste("draft");
    let mut router = Router::new(&focus, &event);
    router.target("prompt", &mut prompt);
    router.target("composer", &mut composer);

    assert!(router.finish().reached("composer"));
    assert_eq!(composer.text(), "draft");
    assert!(prompt.text().is_empty());
}

#[test]
fn pre_stage_wins_over_the_owning_surface() {
    let mut prompt = LineInput::new();
    let mut focus = frame(&["composer"]);
    focus.set_owner("prompt");

    let event = ctrl('c');
    let mut interrupted = false;
    let mut router = Router::new(&focus, &event);
    router.pre_fn(|_| {
        interrupted = true;
        InputOutcome::Cancelled
    });
    router.target("prompt", &mut prompt);
    let delivery = router.finish();

    assert!(interrupted);
    assert_eq!(delivery.stage, RouteStage::Pre);
    assert_eq!(delivery.target, None);
    assert!(prompt.text().is_empty());
}

#[test]
fn a_consumed_event_stops_at_the_first_receiver() {
    let mut first = LineInput::new();
    let mut second = LineInput::new();
    let focus = frame(&["first"]);

    let event = paste("once");
    let mut router = Router::new(&focus, &event);
    router.always("second", &mut second);
    router.target("first", &mut first);

    assert!(router.finish().reached("second"));
    assert_eq!(second.text(), "once");
    assert!(first.text().is_empty());
}

#[test]
fn the_route_in_progress_is_observable() {
    let focus = frame(&["composer"]);
    let event = paste("x");
    let mut router = Router::new(&focus, &event);
    assert_eq!(router.event(), &event);
    assert_eq!(router.delivery().stage, RouteStage::Undelivered);
    router.target_fn("composer", |_| InputOutcome::Submitted);
    let delivery = router.delivery();
    assert_eq!(delivery.stage, RouteStage::Target);
    assert_eq!(delivery.outcome, InputOutcome::Submitted);
    assert!(!delivery.reached("other"));
    assert_eq!(RouteStage::Pre.rank(), 0);
    assert_eq!(RouteStage::Undelivered.rank(), 4);
}

#[test]
fn a_borrowed_target_answers_as_the_target_it_borrows() {
    let mut composer = LineInput::new();
    {
        let mut borrowed = &mut composer;
        let paste = Event::Paste("hi".to_string());
        assert_eq!(borrowed.handle(&paste), InputOutcome::Changed);
        let focus = frame(&["composer"]);
        let event = Event::Paste("!".to_string());
        let mut router = Router::new(&focus, &event);
        router.target("composer", &mut borrowed);
        assert!(router.finish().consumed());
    }
    assert_eq!(composer.text(), "hi!");
}
