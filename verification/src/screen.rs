//! Which part of the terminal a frame owns, and the session policy around it.

use vstd::prelude::*;

verus! {

/// Which part of the terminal the frame owns.
#[derive(Clone, Copy, Debug, PartialEq, Eq, Structural)]
pub enum ScreenMode {
    /// The whole alternate screen; the host's scrollback is left untouched.
    Alternate,
    /// A footer of `rows` rows pinned under the host's own scrollback.
    SplitFooter {
        /// Rows the footer reserves.
        rows: u16,
    },
}

impl Default for ScreenMode {
    fn default() -> (m: Self)
        ensures
            m == ScreenMode::Alternate,
    {
        ScreenMode::Alternate
    }
}

impl ScreenMode {
    /// A footer of `rows` rows under the host's scrollback.
    pub fn split_footer(rows: u16) -> (m: Self)
        ensures
            m == (ScreenMode::SplitFooter { rows }),
    {
        ScreenMode::SplitFooter { rows }
    }

    /// The rows a split footer reserves; `None` on the alternate screen.
    pub fn footer_height(&self) -> (r: Option<u16>)
        ensures
            r == match *self {
                ScreenMode::Alternate => None,
                ScreenMode::SplitFooter { rows } => Some(rows),
            },
    {
        match self {
            ScreenMode::Alternate => None,
            ScreenMode::SplitFooter { rows } => Some(*rows),
        }
    }

    /// Whether the frame owns the alternate screen.
    pub fn is_alternate(&self) -> (r: bool)
        ensures
            r == (*self == ScreenMode::Alternate),
    {
        match self {
            ScreenMode::Alternate => true,
            ScreenMode::SplitFooter { .. } => false,
        }
    }

    /// Whether a session in this mode captures the mouse by default: the
    /// alternate screen does, a split footer leaves the mouse to the terminal.
    pub fn captures_mouse(&self) -> (r: bool)
        ensures
            r == (*self == ScreenMode::Alternate),
    {
        self.is_alternate()
    }
}

/// Whether a terminal session captures mouse events.
#[derive(Clone, Copy, Debug, PartialEq, Eq, Structural)]
pub enum MouseCapture {
    /// Follow the screen mode: capture on the alternate screen only.
    Auto,
    /// Always capture.
    Enabled,
    /// Never capture; the terminal keeps its own selection and scrolling.
    Disabled,
}

/// Terminal lifecycle policy for a session.
#[derive(Clone, Copy, Debug, PartialEq, Eq, Structural)]
pub struct TerminalSessionConfig {
    /// Which part of the terminal the frame owns.
    pub screen_mode: ScreenMode,
    /// Whether mouse events are captured.
    pub mouse_capture: MouseCapture,
}

/// Whether a session with `config` captures the mouse.
pub open spec fn config_captures_mouse(config: TerminalSessionConfig) -> bool {
    match config.mouse_capture {
        MouseCapture::Auto => config.screen_mode == ScreenMode::Alternate,
        MouseCapture::Enabled => true,
        MouseCapture::Disabled => false,
    }
}

impl Default for TerminalSessionConfig {
    fn default() -> (c: Self)
        ensures
            c == (TerminalSessionConfig {
                screen_mode: ScreenMode::Alternate,
                mouse_capture: MouseCapture::Auto,
            }),
    {
        TerminalSessionConfig { screen_mode: ScreenMode::Alternate, mouse_capture: MouseCapture::Auto }
    }
}

impl TerminalSessionConfig {
    /// Whether a session with this policy captures the mouse.
    pub fn captures_mouse(&self) -> (r: bool)
        ensures
            r == config_captures_mouse(*self),
    {
        match self.mouse_capture {
            MouseCapture::Auto => self.screen_mode.captures_mouse(),
            MouseCapture::Enabled => true,
            MouseCapture::Disabled => false,
        }
    }
}

} // verus!
