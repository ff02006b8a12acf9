//! Events delivered to the main loop, and the timing rules of the event
//! source.
//!
//! The event source polls for keyboard input with a bounded timeout and
//! emits a `Tick` whenever a full tick period has elapsed, so that the
//! screen is redrawn at a steady cadence even when no key arrives. The
//! polling loop itself runs outside the library; the functions here decide
//! how long it may wait and when a tick is due.

use vstd::prelude::*;

verus! {

/// One event for the main loop: a key press, or a timer tick that only
/// triggers a redraw.
pub enum Event<I> {
    Input(I),
    Tick,
}

/// Event-source configuration: the tick period in milliseconds.
#[derive(Debug, Clone, Copy)]
pub struct Config {
    pub tick_rate: u64,
}

impl Default for Config {
    /// The default tick period is 250 milliseconds.
    fn default() -> (c: Config)
        ensures
            c.tick_rate == 250,
    {
        Config { tick_rate: 250 }
    }
}

/// How long the poller may wait for input: the remainder of the tick
/// period, or zero once the period has already elapsed.
pub open spec fn poll_timeout_spec(tick_rate: u64, elapsed: u64) -> u64 {
    if elapsed >= tick_rate {
        0
    } else {
        (tick_rate - elapsed) as u64
    }
}

/// Compute the poll timeout for the current iteration of the event loop,
/// given the tick period and the time already spent since the last tick,
/// both in milliseconds.
pub fn poll_timeout(tick_rate: u64, elapsed: u64) -> (t: u64)
    ensures
        t == poll_timeout_spec(tick_rate, elapsed),
{
    if elapsed >= tick_rate {
        0
    } else {
        tick_rate - elapsed
    }
}

/// A tick is due exactly when a full tick period has elapsed since the
/// last tick.
pub open spec fn tick_due_spec(elapsed: u64, tick_rate: u64) -> bool {
    elapsed >= tick_rate
}

/// Decide whether the event loop must emit a `Tick` now.
pub fn tick_due(elapsed: u64, tick_rate: u64) -> (b: bool)
    ensures
        b == tick_due_spec(elapsed, tick_rate),
{
    elapsed >= tick_rate
}

/// Law: if the poller waits out the whole timeout without input, the time
/// since the last tick reaches the tick period, so a tick is emitted at
/// most one tick period after the previous one.
pub proof fn lemma_tick_within_period(tick_rate: u64, elapsed: u64)
    ensures
        tick_due_spec((elapsed + poll_timeout_spec(tick_rate, elapsed)) as u64, tick_rate),
        elapsed + poll_timeout_spec(tick_rate, elapsed) >= tick_rate,
{
}

} // verus!
