//! The debouncer: at most one trigger per window.
//!
//! Times are milliseconds on any clock that does not run backwards.

use vstd::prelude::*;

verus! {

/// The window of a default debouncer, in milliseconds.
pub const DEBOUNCE_WINDOW_MS: u64 = 500;

/// The debouncer's state: when it last let a batch through, and how long it
/// then stays shut.
#[derive(Clone, Copy, Debug, PartialEq, Eq, Structural)]
pub struct DebounceState {
    /// The time of the last trigger, if there has been one.
    pub last_trigger: Option<u64>,
    /// The least time between two triggers.
    pub window: u64,
}

impl DebounceState {
    /// The state before any trigger.
    pub open spec fn fresh(window: u64) -> DebounceState {
        DebounceState { last_trigger: None, window }
    }

    /// The time that has passed at `now` since the last trigger. A clock
    /// reading from before the last trigger counts as no time at all.
    pub open spec fn elapsed(self, now: u64) -> Option<int> {
        match self.last_trigger {
            None => None,
            Some(last) => Some(
                if now >= last {
                    now - last
                } else {
                    0
                },
            ),
        }
    }

    /// Whether a batch at `now` is let through: there was no trigger yet, or
    /// the window has passed since the last one.
    pub open spec fn admits(self, now: u64) -> bool {
        match self.elapsed(now) {
            None => true,
            Some(elapsed) => elapsed >= self.window,
        }
    }

    /// The state after a trigger at `now`.
    pub open spec fn triggered(self, now: u64) -> DebounceState {
        DebounceState { last_trigger: Some(now), window: self.window }
    }

    /// The state after a batch at `now` has asked to pass: a rejected batch
    /// leaves no trace.
    pub open spec fn after(self, now: u64) -> DebounceState {
        if self.admits(now) {
            self.triggered(now)
        } else {
            self
        }
    }
}

/// The debouncer. Exclusive access to it is what keeps two batches from
/// passing together.
#[derive(Debug)]
pub struct Debouncer {
    state: DebounceState,
}

impl View for Debouncer {
    type V = DebounceState;

    closed spec fn view(&self) -> DebounceState {
        self.state
    }
}

impl Debouncer {
    /// A debouncer with the default window that has not triggered yet.
    pub fn new() -> (debouncer: Debouncer)
        ensures
            debouncer@ == DebounceState::fresh(DEBOUNCE_WINDOW_MS),
    {
        Debouncer { state: DebounceState { last_trigger: None, window: DEBOUNCE_WINDOW_MS } }
    }

    /// A debouncer with a window of `window` milliseconds that has not
    /// triggered yet.
    pub fn with_window(window: u64) -> (debouncer: Debouncer)
        ensures
            debouncer@ == DebounceState::fresh(window),
    {
        Debouncer { state: DebounceState { last_trigger: None, window } }
    }

    /// The debouncer's state.
    pub fn state(&self) -> (state: DebounceState)
        ensures
            state == self@,
    {
        self.state
    }

    /// Asks to let a relevant batch through at `now`. If the window has not
    /// passed since the last trigger the batch is dropped and the state stays;
    /// else `now` becomes the last trigger.
    pub fn try_admit(&mut self, now: u64) -> (admitted: bool)
        ensures
            admitted == old(self)@.admits(now),
            final(self)@ == old(self)@.after(now),
    {
        let pass = match self.state.last_trigger {
            None => true,
            Some(last) => {
                let elapsed: u64 = if now >= last {
                    now - last
                } else {
                    0
                };
                elapsed >= self.state.window
            },
        };
        if pass {
            self.state.last_trigger = Some(now);
        }
        pass
    }
}

/// A batch that follows a trigger by less than the window is rejected and
/// leaves the state as the trigger left it. So is a batch whose clock reading
/// lies before the trigger.
pub proof fn law_burst_is_rejected(state: DebounceState, t0: u64, t1: u64)
    requires
        state.window > 0,
        state.admits(t0),
        t1 - t0 < state.window,
    ensures
        !state.after(t0).admits(t1),
        state.after(t0).after(t1) == state.triggered(t0),
{
}

/// A batch that follows a trigger by the window or more is let through.
pub proof fn law_next_window_is_admitted(state: DebounceState, t0: u64, t1: u64)
    requires
        state.admits(t0),
        t1 - t0 >= state.window,
    ensures
        state.after(t0).admits(t1),
        state.after(t0).after(t1) == state.triggered(t1),
{
}

/// With the default window, a second batch less than 500 ms after an
/// admitted one is rejected, and one 600 ms after it is admitted.
pub proof fn law_default_window(state: DebounceState, t0: u64, t1: u64)
    requires
        state.window == DEBOUNCE_WINDOW_MS,
        state.admits(t0),
    ensures
        t1 - t0 < 500 ==> !state.after(t0).admits(t1),
        t1 - t0 == 600 ==> state.after(t0).admits(t1),
{
}

/// A debouncer that has not triggered lets the first batch through, whatever
/// its time.
pub proof fn law_first_batch_is_admitted(window: u64, now: u64)
    ensures
        DebounceState::fresh(window).admits(now),
{
}

/// A rejected batch is dropped for good: the debouncer does not open for it
/// later, it opens for the next batch that comes after the window.
pub proof fn law_rejected_batch_leaves_no_trace(state: DebounceState, now: u64)
    requires
        !state.admits(now),
    ensures
        state.after(now) == state,
{
}

} // verus!
