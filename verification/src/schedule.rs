//! Frame pacing and the main-loop state machine: drawing may happen every
//! iteration, but a frame is presented to the display sink only when at least
//! `FRAME_INTERVAL_MS` milliseconds have passed since the last presentation.

use vstd::prelude::*;
use crate::FRAME_INTERVAL_MS;

verus! {

/// Throttles presentation to the display sink. Times are milliseconds on a
/// monotonic clock.
pub struct Throttle {
    last_present: u64,
}

/// The presentation times that a sequence of poll times produces: a poll
/// presents exactly when it is more than `FRAME_INTERVAL_MS` after the
/// previous presentation, and then becomes the new reference.
pub open spec fn presents_spec(last: u64, ts: Seq<u64>) -> Seq<u64>
    decreases ts.len(),
{
    if ts.len() == 0 {
        Seq::empty()
    } else if ts[0] > last + FRAME_INTERVAL_MS {
        seq![ts[0]] + presents_spec(ts[0], ts.drop_first())
    } else {
        presents_spec(last, ts.drop_first())
    }
}

impl Throttle {
    /// The time of the most recent presentation (or of construction).
    pub closed spec fn last(&self) -> u64 {
        self.last_present
    }

    /// A throttle that treats `start` as the previous presentation time.
    pub fn new(start: u64) -> (t: Throttle)
        ensures
            t.last() == start,
    {
        Throttle { last_present: start }
    }

    /// Decides whether a frame polled at `now` may be presented; a
    /// presentation moves the reference time to `now`.
    pub fn should_present(&mut self, now: u64) -> (p: bool)
        ensures
            p == (now > old(self).last() + FRAME_INTERVAL_MS),
            final(self).last() == if p {
                now
            } else {
                old(self).last()
            },
    {
        if now > self.last_present && now - self.last_present > FRAME_INTERVAL_MS {
            self.last_present = now;
            true
        } else {
            false
        }
    }
}

/// The two states of the main loop.
#[derive(Clone, Copy, Debug, PartialEq, Eq)]
pub enum RunState {
    Running,
    Terminated,
}

/// One main-loop transition: the loop keeps running exactly while the display
/// sink reports the window open and no quit event has fired.
pub fn next_state(s: RunState, window_open: bool, quit: bool) -> (r: RunState)
    ensures
        r == (if s is Running && window_open && !quit {
            RunState::Running
        } else {
            RunState::Terminated
        }),
{
    match s {
        RunState::Running => {
            if window_open && !quit {
                RunState::Running
            } else {
                RunState::Terminated
            }
        },
        RunState::Terminated => RunState::Terminated,
    }
}

} // verus!
