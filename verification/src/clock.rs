//! The activity clock: the record of the last moment a request was seen.
//!
//! Instants are whole milliseconds on a monotonic time line that the caller
//! owns (for instance, the time since the process started). The clock never
//! reads a time source itself, so it can be driven by a real timer or by a
//! scripted one.

use vstd::prelude::*;

verus! {

/// Time that has passed at the instant `now` since the instant `last`.
///
/// An instant that lies before `last` has seen no time pass: the difference
/// saturates at zero instead of going negative.
pub open spec fn elapsed_between(last: nat, now: nat) -> nat {
    if now >= last {
        (now - last) as nat
    } else {
        0
    }
}

/// The last instant at which activity was observed.
///
/// The view of a clock is that instant.
#[derive(Clone, Copy, Debug, PartialEq, Eq)]
pub struct ActivityClock {
    last_touch: u64,
}

impl View for ActivityClock {
    type V = nat;

    closed spec fn view(&self) -> nat {
        self.last_touch as nat
    }
}

impl ActivityClock {
    /// A clock whose last activity is the instant `start`.
    pub fn new(start: u64) -> (clock: Self)
        ensures
            clock@ == start,
    {
        ActivityClock { last_touch: start }
    }

    /// Records `now` as the instant of the last activity.
    ///
    /// Whatever the clock held before is overwritten, so no time has
    /// passed since the last activity when the call returns.
    pub fn touch(&mut self, now: u64)
        ensures
            final(self)@ == now,
            elapsed_between(final(self)@, now as nat) == 0,
    {
        self.last_touch = now;
    }

    /// The instant of the last activity.
    pub fn last_touch(&self) -> (last: u64)
        ensures
            last == self@,
    {
        self.last_touch
    }

    /// Time that has passed at `now` since the last activity.
    pub fn elapsed_since_last_touch(&self, now: u64) -> (elapsed: u64)
        ensures
            elapsed == elapsed_between(self@, now as nat),
    {
        now.saturating_sub(self.last_touch)
    }
}

/// A touch never moves the clock backward as long as the instants handed
/// to it do not run backward: with `now` at or after the instant held so
/// far, the instant held afterwards is at or after it too, and the time
/// seen at any later instant only shrinks.
pub proof fn lemma_touch_is_monotonic(before: nat, now: nat, later: nat)
    requires
        before <= now,
    ensures
        elapsed_between(now, later) <= elapsed_between(before, later),
{
}

/// Between two touches the elapsed time grows with the instant that asks:
/// it is exactly the distance to the last touch.
pub proof fn lemma_elapsed_grows_with_time(last: nat, earlier: nat, later: nat)
    requires
        last <= earlier <= later,
    ensures
        elapsed_between(last, earlier) == earlier - last,
        elapsed_between(last, later) == elapsed_between(last, earlier) + (later - earlier),
{
}

} // verus!
