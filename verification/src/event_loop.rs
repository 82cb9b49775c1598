//! The decisions of the monitor's main loop: how long to wait for input
//! and what to do next.
use crate::app_state::{AppState, TICK_MS};
use vstd::prelude::*;

verus! {

/// Nanoseconds between two sensor reads.
pub const TICK_NANOS: u64 = TICK_MS * 1_000_000;

/// What the monitor does after it has handled input.
#[derive(Clone, Copy, Debug, PartialEq, Eq, Structural)]
pub enum Step {
    /// Leave the loop.
    Quit,
    /// Read the sensors and restart the tick timer.
    Refresh,
    /// Draw again and wait for input.
    Wait,
}

/// How long to wait for input, `elapsed_nanos` after the last read: what
/// is left of the tick, or nothing once it is over.
pub fn poll_timeout(elapsed_nanos: u64) -> (r: u64)
    ensures
        r == (if elapsed_nanos < TICK_NANOS {
            TICK_NANOS - elapsed_nanos
        } else {
            0
        }),
{
    if elapsed_nanos < TICK_NANOS {
        TICK_NANOS - elapsed_nanos
    } else {
        0
    }
}

/// The next step once input is handled: quit when asked, read the sensors
/// when a full tick has passed since the last read, else wait.
pub fn next_step(state: &AppState, elapsed_nanos: u64) -> (s: Step)
    ensures
        s == (if state.should_quit {
            Step::Quit
        } else if elapsed_nanos >= TICK_NANOS {
            Step::Refresh
        } else {
            Step::Wait
        }),
{
    if state.should_quit {
        Step::Quit
    } else if elapsed_nanos >= TICK_NANOS {
        Step::Refresh
    } else {
        Step::Wait
    }
}

} // verus!
