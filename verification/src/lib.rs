//! Host-owned interaction state for terminal user interfaces: focus rings,
//! input routing, selection and form navigation, and the runner's redraw
//! state machine.

pub mod anim;
pub mod clock;
pub mod components;
pub mod event;
pub mod focus;
pub mod geometry;
pub mod pointer;
pub mod routing;
pub mod runner;
pub mod scene;
pub mod screen;
pub mod style;
pub mod view;

pub use clock::{Clock, SystemClock};
pub use event::{Event, EventFlow, InputOutcome, Key, KeyCode, Mouse, MouseButton, MouseKind};
pub use focus::FocusRegistry;
pub use geometry::{Padding, Rect, Size};
pub use runner::{AsyncRunner, Runner, RunnerConfig, Signal, UpdateResult};
pub use scene::Backdrop;
pub use screen::{ScreenMode, TerminalSessionConfig};
pub use style::{StyleSheet, Theme};
