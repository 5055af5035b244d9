//! The state of the terminal user interface.

use vstd::prelude::*;
use crate::event::Duration;

verus! {

/// What the user is doing in the interface.
#[derive(Clone, Copy, Debug, PartialEq, Eq, Structural)]
pub enum Mode {
    /// Choosing a guild.
    GuildSelect,
}

/// How long the interface is drawn before it closes.
pub const DRAW_TIME_SECS: u64 = 5;

/// Whether the interface is still drawn once `elapsed` has passed since it
/// opened: until the draw time has passed.
pub fn keep_drawing(elapsed: Duration) -> (b: bool)
    ensures
        b == (elapsed.secs * 1_000_000_000 + elapsed.nanos < DRAW_TIME_SECS * 1_000_000_000),
{
    (elapsed.secs as u128) * 1_000_000_000 + (elapsed.nanos as u128) < (DRAW_TIME_SECS as u128)
        * 1_000_000_000
}

/// All the state of the interface.
pub struct App {
    mode: Mode,
}

impl App {
    /// The spec view of the interface's mode.
    pub closed spec fn spec_mode(self) -> Mode {
        self.mode
    }

    /// The interface as it opens: choosing a guild.
    pub fn new() -> (app: App)
        ensures
            app.spec_mode() == Mode::GuildSelect,
    {
        App { mode: Mode::GuildSelect }
    }

    /// What the user is doing.
    pub fn mode(&self) -> (m: Mode)
        ensures
            m == self.spec_mode(),
    {
        self.mode
    }
}

} // verus!
