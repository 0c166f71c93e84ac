//! The idle watchdog: a two-state machine that decides, tick by tick, whether
//! the proxy has been idle for too long.
//!
//! The watchdog only decides. Sleeping between ticks and carrying out a
//! [`TickAction::Terminate`] belong to whoever drives it.

use vstd::prelude::*;
use crate::clock::{elapsed_between, ActivityClock};

verus! {

/// Where the watchdog stands.
#[derive(Clone, Copy, Debug, PartialEq, Eq, Structural)]
pub enum WatchdogState {
    /// Activity has been recent enough at every tick so far.
    Running,
    /// A tick found the idle timeout exceeded. There is no way back.
    Terminating,
}

/// What the driver has to do after a tick.
#[derive(Clone, Copy, Debug, PartialEq, Eq, Structural)]
pub enum TickAction {
    /// Nothing: keep ticking.
    Continue,
    /// Stop the process now, without draining requests in flight.
    Terminate,
}

/// The idle timeout is exceeded once strictly more time than the timeout
/// has passed.
pub open spec fn idle_expired(elapsed: nat, idle_timeout: nat) -> bool {
    elapsed > idle_timeout
}

/// The state after a tick that finds `elapsed` time passed since the last
/// activity.
pub open spec fn state_after_tick(
    state: WatchdogState,
    elapsed: nat,
    idle_timeout: nat,
) -> WatchdogState {
    match state {
        WatchdogState::Terminating => WatchdogState::Terminating,
        WatchdogState::Running => if idle_expired(elapsed, idle_timeout) {
            WatchdogState::Terminating
        } else {
            WatchdogState::Running
        },
    }
}

/// The action of a tick: termination is asked for on the tick that leaves
/// `Running`, and on no other.
pub open spec fn action_of_tick(
    state: WatchdogState,
    elapsed: nat,
    idle_timeout: nat,
) -> TickAction {
    if state == WatchdogState::Running && idle_expired(elapsed, idle_timeout) {
        TickAction::Terminate
    } else {
        TickAction::Continue
    }
}

/// The mathematical content of a [`Watchdog`].
pub struct WatchdogView {
    pub state: WatchdogState,
    pub idle_timeout: nat,
}

/// The watchdog's state together with the timeout it enforces.
#[derive(Clone, Copy, Debug, PartialEq, Eq)]
pub struct Watchdog {
    state: WatchdogState,
    idle_timeout: u64,
}

impl View for Watchdog {
    type V = WatchdogView;

    closed spec fn view(&self) -> WatchdogView {
        WatchdogView { state: self.state, idle_timeout: self.idle_timeout as nat }
    }
}

impl Watchdog {
    /// A running watchdog that enforces `idle_timeout` milliseconds.
    pub fn new(idle_timeout: u64) -> (watchdog: Self)
        ensures
            watchdog@.state == WatchdogState::Running,
            watchdog@.idle_timeout == idle_timeout,
    {
        Watchdog { state: WatchdogState::Running, idle_timeout }
    }

    /// The current state.
    pub fn state(&self) -> (state: WatchdogState)
        ensures
            state == self@.state,
    {
        self.state
    }

    /// The timeout this watchdog enforces, in milliseconds.
    pub fn idle_timeout(&self) -> (idle_timeout: u64)
        ensures
            idle_timeout == self@.idle_timeout,
    {
        self.idle_timeout
    }

    /// One periodic tick at the instant `now`.
    ///
    /// Compares the time since the clock's last touch with the idle
    /// timeout. A running watchdog that finds the timeout exceeded moves
    /// to `Terminating` and asks for termination; every other tick changes
    /// nothing and asks for nothing. The clock is only read.
    pub fn tick(&mut self, clock: &ActivityClock, now: u64) -> (action: TickAction)
        ensures
            final(self)@.idle_timeout == old(self)@.idle_timeout,
            final(self)@.state == state_after_tick(
                old(self)@.state,
                elapsed_between(clock@, now as nat),
                old(self)@.idle_timeout,
            ),
            action == action_of_tick(
                old(self)@.state,
                elapsed_between(clock@, now as nat),
                old(self)@.idle_timeout,
            ),
    {
        let elapsed: u64 = clock.elapsed_since_last_touch(now);
        match self.state {
            WatchdogState::Terminating => TickAction::Continue,
            WatchdogState::Running => {
                if elapsed > self.idle_timeout {
                    self.state = WatchdogState::Terminating;
                    TickAction::Terminate
                } else {
                    TickAction::Continue
                }
            },
        }
    }
}

} // verus!
