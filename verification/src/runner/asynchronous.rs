//! The asynchronous runner's configuration.

use vstd::prelude::*;

use crate::runner::{floored, with_tick_floor, RunnerConfig};
use crate::screen::TerminalSessionConfig;

verus! {

/// An asynchronous event and rendering loop's configuration.
pub struct AsyncRunner {
    config: RunnerConfig,
    session_config: Option<TerminalSessionConfig>,
}

impl AsyncRunner {
    /// Create a runner without touching the terminal. A zero interval would
    /// busy-spin the event loop, so the tick interval is held at one
    /// millisecond or more, as the synchronous runner does.
    pub fn new(config: RunnerConfig) -> (r: Self)
        ensures
            floored(config, r.config_spec()),
            r.session_spec() is None,
    {
        AsyncRunner { config: with_tick_floor(config), session_config: None }
    }

    /// The effective configuration.
    pub closed spec fn config_spec(&self) -> RunnerConfig {
        self.config
    }

    /// The terminal session policy, when overridden.
    pub closed spec fn session_spec(&self) -> Option<TerminalSessionConfig> {
        self.session_config
    }

    /// The effective configuration.
    pub fn config(&self) -> (r: RunnerConfig)
        ensures
            r == self.config_spec(),
    {
        self.config
    }

    /// Override terminal lifecycle policy while retaining the async loop.
    pub fn with_session_config(self, config: TerminalSessionConfig) -> (r: Self)
        ensures
            r.config_spec() == (RunnerConfig { screen_mode: config.screen_mode, ..self.config_spec() }),
            r.session_spec() == Some(config),
    {
        let mut runner = self;
        runner.config.screen_mode = config.screen_mode;
        runner.session_config = Some(config);
        runner
    }
}

} // verus!
