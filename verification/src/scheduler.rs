//! Decisions of the tick loop: how long to wait for input before the next
//! refresh is due, when a refresh is due, and which keys quit. The loop
//! itself — drawing, polling, sleeping — lives outside the core; it feeds
//! elapsed times and key events in and acts on what comes back.

use vstd::prelude::*;

verus! {

/// Fixed refresh cadence in milliseconds.
pub const TICK_MS: u64 = 500;

/// How long the loop may block on input: the time remaining until the next
/// tick deadline, floored at zero so input never starves a due refresh.
pub fn poll_timeout_ms(elapsed_ms: u64) -> (r: u64)
    ensures
        r == if elapsed_ms >= TICK_MS {
            0u64
        } else {
            (TICK_MS - elapsed_ms) as u64
        },
{
    if elapsed_ms >= TICK_MS {
        0
    } else {
        TICK_MS - elapsed_ms
    }
}

/// Whether the tick deadline has elapsed, so both samplers must refresh.
pub fn tick_due(elapsed_ms: u64) -> (r: bool)
    ensures
        r == (elapsed_ms >= TICK_MS),
{
    elapsed_ms >= TICK_MS
}

/// A key event reduced to what the quit decision needs.
pub enum KeyInput {
    /// A function key, by number.
    Function(u8),
    /// A printable character key.
    Letter(char),
    /// Anything else.
    Other,
}

/// The quit triggers: the F10 function key, or the letter q in either case.
pub open spec fn quit_key_spec(key: KeyInput) -> bool {
    match key {
        KeyInput::Function(n) => n == 10,
        KeyInput::Letter(c) => c == 'q' || c == 'Q',
        KeyInput::Other => false,
    }
}

/// Decide whether a key event ends the loop: only an actual press of a
/// quit trigger does; releases, repeats and every other key are ignored.
pub fn is_quit_key(is_press: bool, key: KeyInput) -> (r: bool)
    ensures
        r == (is_press && quit_key_spec(key)),
{
    if !is_press {
        return false;
    }
    match key {
        KeyInput::Function(n) => n == 10,
        KeyInput::Letter(c) => c == 'q' || c == 'Q',
        KeyInput::Other => false,
    }
}

} // verus!
