//! What a key press does to the monitor.
use crate::app_state::{next_index, prev_index, AppState};
use vstd::prelude::*;

verus! {

/// The keys that the monitor tells apart.
#[derive(Clone, Copy, Debug, PartialEq, Eq, Structural)]
pub enum KeyCode {
    Char(char),
    Esc,
    Up,
    Down,
    /// Any other key.
    Other,
}

/// Whether the key went down, repeats, or went up.
#[derive(Clone, Copy, Debug, PartialEq, Eq, Structural)]
pub enum KeyEventKind {
    Press,
    Repeat,
    Release,
}

/// A key event as the terminal reports it.
#[derive(Clone, Copy, Debug, PartialEq, Eq, Structural)]
pub struct KeyEvent {
    pub code: KeyCode,
    pub kind: KeyEventKind,
}

/// What a key asks of the monitor.
pub enum KeyAction {
    Quit,
    Next,
    Prev,
    Ignore,
}

/// The action bound to a key event: only presses count; `q`, `Q` and Esc
/// quit, Down and `j` select the next sensor, Up and `k` the previous one.
pub open spec fn key_action(key: KeyEvent) -> KeyAction {
    if key.kind != KeyEventKind::Press {
        KeyAction::Ignore
    } else {
        match key.code {
            KeyCode::Char(c) => if c == 'q' || c == 'Q' {
                KeyAction::Quit
            } else if c == 'j' {
                KeyAction::Next
            } else if c == 'k' {
                KeyAction::Prev
            } else {
                KeyAction::Ignore
            },
            KeyCode::Esc => KeyAction::Quit,
            KeyCode::Down => KeyAction::Next,
            KeyCode::Up => KeyAction::Prev,
            KeyCode::Other => KeyAction::Ignore,
        }
    }
}

/// Applies a key event to the state.
pub fn handle_key(state: &mut AppState, key: KeyEvent)
    ensures
        key_action(key) is Ignore ==> *final(state) == *old(state),
        key_action(key) is Quit ==> *final(state) == (AppState {
            should_quit: true,
            ..*old(state)
        }),
        (key_action(key) is Next || key_action(key) is Prev) && old(state).sensors@.len() == 0
            ==> *final(state) == *old(state),
        (key_action(key) is Next || key_action(key) is Prev) && old(state).sensors@.len() > 0
            ==> {
            &&& final(state).selected_idx == (if key_action(key) is Next {
                next_index(old(state).selected_idx as int, old(state).sensors@.len() as int)
            } else {
                prev_index(old(state).selected_idx as int, old(state).sensors@.len() as int)
            })
            &&& final(state).temp_history@ == Seq::<i32>::empty()
            &&& final(state).sensors == old(state).sensors
            &&& final(state).tick == old(state).tick
            &&& final(state).should_quit == old(state).should_quit
            &&& final(state).sensor_max == old(state).sensor_max
        },
        old(state).consistent() ==> final(state).consistent(),
{
    if key.kind != KeyEventKind::Press {
        return ;
    }
    match key.code {
        KeyCode::Char('q') | KeyCode::Char('Q') | KeyCode::Esc => {
            state.should_quit = true;
        },
        KeyCode::Down | KeyCode::Char('j') => state.select_next(),
        KeyCode::Up | KeyCode::Char('k') => state.select_prev(),
        _ => {},
    }
}

} // verus!
