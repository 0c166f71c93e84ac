//! What the clock and the watchdog do together over time.
//!
//! A run of the proxy is read as a sequence of events, each a request or
//! a tick of the watchdog with the instant at which it happens. The
//! functions here replay such a sequence with the very steps that
//! [`ActivityClock::touch`](crate::clock::ActivityClock::touch) and
//! [`Watchdog::tick`](crate::watchdog::Watchdog::tick) promise, and the
//! lemmas say when the watchdog ends a run and when it cannot.

use vstd::prelude::*;
use crate::clock::elapsed_between;
use crate::watchdog::{action_of_tick, idle_expired, state_after_tick, TickAction, WatchdogState};

verus! {

/// Something that happens at an instant.
pub enum Event {
    /// A request arrives and touches the clock.
    Request { at: nat },
    /// The watchdog ticks and reads the clock.
    Tick { at: nat },
}

/// The instant the clock holds after `events`, having started at `start`:
/// that of the last request, or `start` if there was none.
pub open spec fn clock_after(start: nat, events: Seq<Event>) -> nat
    decreases events.len(),
{
    if events.len() == 0 {
        start
    } else {
        match events.last() {
            Event::Request { at } => at,
            Event::Tick { at } => clock_after(start, events.drop_last()),
        }
    }
}

/// The state of a watchdog that was started running, with the clock at
/// `start`, after `events`.
pub open spec fn watchdog_after(start: nat, idle_timeout: nat, events: Seq<Event>) -> WatchdogState
    decreases events.len(),
{
    if events.len() == 0 {
        WatchdogState::Running
    } else {
        let earlier = events.drop_last();
        match events.last() {
            Event::Request { at } => watchdog_after(start, idle_timeout, earlier),
            Event::Tick { at } => state_after_tick(
                watchdog_after(start, idle_timeout, earlier),
                elapsed_between(clock_after(start, earlier), at),
                idle_timeout,
            ),
        }
    }
}

/// The tick at position `i` of `events` finds the idle timeout exceeded:
/// more than `idle_timeout` has passed since the last request before it.
pub open spec fn tick_finds_idle(
    start: nat,
    idle_timeout: nat,
    events: Seq<Event>,
    i: int,
) -> bool {
    events[i] matches Event::Tick { at } && idle_expired(
        elapsed_between(clock_after(start, events.take(i)), at),
        idle_timeout,
    )
}

/// The instant after which an idle proxy is to be stopped.
pub open spec fn deadline(last_touch: nat, idle_timeout: nat) -> nat {
    last_touch + idle_timeout
}

/// The idle timeout is exceeded exactly at the instants behind the
/// deadline.
pub proof fn lemma_expired_iff_past_deadline(last_touch: nat, idle_timeout: nat, now: nat)
    ensures
        idle_expired(elapsed_between(last_touch, now), idle_timeout) <==> now > deadline(
            last_touch,
            idle_timeout,
        ),
{
}

/// A request at `now` moves the deadline to `now` plus the timeout, and
/// no tick up to then ends the run. With instants that do not run
/// backward the deadline only moves forward.
pub proof fn lemma_request_moves_deadline(
    last_touch: nat,
    idle_timeout: nat,
    now: nat,
    tick: nat,
)
    ensures
        deadline(now, idle_timeout) == now + idle_timeout,
        last_touch <= now ==> deadline(last_touch, idle_timeout) <= deadline(now, idle_timeout),
        tick <= deadline(now, idle_timeout) ==> state_after_tick(
            WatchdogState::Running,
            elapsed_between(now, tick),
            idle_timeout,
        ) == WatchdogState::Running,
        tick <= deadline(now, idle_timeout) ==> action_of_tick(
            WatchdogState::Running,
            elapsed_between(now, tick),
            idle_timeout,
        ) == TickAction::Continue,
{
}

/// Once the deadline has passed without a request, the very next tick
/// ends the run, and it comes no later than one tick interval after the
/// deadline.
///
/// `previous` is the instant of the tick before, or of the start of the
/// watchdog if there was none; it had not found the timeout exceeded.
/// `next` is the tick that follows it, at most `interval` later.
pub proof fn lemma_idle_run_ends_within_one_tick(
    last_touch: nat,
    idle_timeout: nat,
    interval: nat,
    previous: nat,
    next: nat,
)
    requires
        previous <= next <= previous + interval,
        !idle_expired(elapsed_between(last_touch, previous), idle_timeout),
        idle_expired(elapsed_between(last_touch, next), idle_timeout),
    ensures
        state_after_tick(
            WatchdogState::Running,
            elapsed_between(last_touch, next),
            idle_timeout,
        ) == WatchdogState::Terminating,
        action_of_tick(WatchdogState::Running, elapsed_between(last_touch, next), idle_timeout)
            == TickAction::Terminate,
        deadline(last_touch, idle_timeout) < next <= deadline(last_touch, idle_timeout) + interval,
{
}

/// A watchdog that has left `Running` never comes back, whatever
/// happens afterwards.
pub proof fn lemma_terminating_is_final(
    start: nat,
    idle_timeout: nat,
    events: Seq<Event>,
    n: int,
)
    requires
        0 <= n <= events.len(),
        watchdog_after(start, idle_timeout, events.take(n)) == WatchdogState::Terminating,
    ensures
        watchdog_after(start, idle_timeout, events) == WatchdogState::Terminating,
    decreases events.len() - n,
{
    if n == events.len() {
        assert(events.take(n) == events);
    } else {
        let longer = events.take(n + 1);
        assert(longer.drop_last() == events.take(n));
        assert(watchdog_after(start, idle_timeout, longer) == WatchdogState::Terminating);
        lemma_terminating_is_final(start, idle_timeout, events, n + 1);
    }
}

/// The watchdog is still running after a sequence of events exactly if
/// no tick in it found the idle timeout exceeded.
///
/// So the run goes on for as long as each tick comes within the timeout
/// of the request before it, and it is over from the first tick that
/// comes later than that.
pub proof fn lemma_running_iff_no_tick_finds_idle(
    start: nat,
    idle_timeout: nat,
    events: Seq<Event>,
)
    ensures
        watchdog_after(start, idle_timeout, events) == WatchdogState::Running <==> forall|i: int|
            0 <= i < events.len() ==> !tick_finds_idle(start, idle_timeout, events, i),
    decreases events.len(),
{
    if events.len() > 0 {
        let earlier = events.drop_last();
        let last = events.len() - 1;
        lemma_running_iff_no_tick_finds_idle(start, idle_timeout, earlier);
        assert(events.take(last) == earlier);
        assert forall|i: int| 0 <= i < last implies tick_finds_idle(
            start,
            idle_timeout,
            earlier,
            i,
        ) == tick_finds_idle(start, idle_timeout, events, i) by {
            assert(earlier.take(i) == events.take(i));
            assert(earlier[i] == events[i]);
        }
        if watchdog_after(start, idle_timeout, events) == WatchdogState::Running {
            assert forall|i: int| 0 <= i < events.len() implies !tick_finds_idle(
                start,
                idle_timeout,
                events,
                i,
            ) by {
                if i < last {
                    assert(!tick_finds_idle(start, idle_timeout, earlier, i));
                }
            }
        } else {
            if watchdog_after(start, idle_timeout, earlier) == WatchdogState::Running {
                assert(tick_finds_idle(start, idle_timeout, events, last));
            } else {
                let i = choose|i: int|
                    0 <= i < earlier.len() && tick_finds_idle(start, idle_timeout, earlier, i);
                assert(tick_finds_idle(start, idle_timeout, events, i));
            }
        }
    }
}

/// While requests keep arriving within the timeout the run never ends:
/// if every tick comes no later than `idle_timeout` after the request
/// before it, or after the start where there was none, the watchdog is
/// running at the end.
pub proof fn lemma_activity_keeps_running(start: nat, idle_timeout: nat, events: Seq<Event>)
    requires
        forall|i: int|
            0 <= i < events.len() ==> (#[trigger] events[i] matches Event::Tick { at } ==> at
                <= deadline(clock_after(start, events.take(i)), idle_timeout)),
    ensures
        watchdog_after(start, idle_timeout, events) == WatchdogState::Running,
{
    assert forall|i: int| 0 <= i < events.len() implies !tick_finds_idle(
        start,
        idle_timeout,
        events,
        i,
    ) by {
        if let Event::Tick { at } = events[i] {
            lemma_expired_iff_past_deadline(clock_after(start, events.take(i)), idle_timeout, at);
        }
    }
    lemma_running_iff_no_tick_finds_idle(start, idle_timeout, events);
}

} // verus!
