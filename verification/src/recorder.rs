//! The interval recorder: consumes timestamped input events, filters to
//! pointer movement, and turns consecutive timestamps into duration samples.
//!
//! Policy for non-monotonic timestamps: an event whose timestamp is earlier
//! than the last accepted one is dropped, and the reference timestamp stays at
//! the last *accepted* event, so the next in-order event is measured from
//! there.

use vstd::prelude::*;
use crate::history::{pushed, History};

verus! {

/// The keys the recorder distinguishes: the quit hotkey and everything else.
#[derive(Clone, Copy, Debug, PartialEq, Eq)]
pub enum KeyId {
    Escape,
    Other,
}

/// The kinds of input event the sample source can deliver.
#[derive(Clone, Copy, Debug, PartialEq, Eq)]
pub enum EventKind {
    PointerMove,
    KeyPress(KeyId),
    Other,
}

/// One timestamped event; `time` is in microseconds.
#[derive(Clone, Copy, Debug, PartialEq, Eq)]
pub struct InputEvent {
    pub kind: EventKind,
    pub time: u64,
}

/// What one event led to: immediate termination, nothing, or one new sample
/// (a duration in microseconds).
#[derive(Clone, Copy, Debug, PartialEq, Eq)]
pub enum Outcome {
    Quit,
    NoSample,
    Sample(u64),
}

/// The recorder's one piece of state: the timestamp of the last accepted
/// pointer event, or `None` before the first one.
#[derive(Clone, Copy, Debug, PartialEq, Eq)]
pub struct Recorder {
    last_accepted: Option<u64>,
}

/// The outcome and the new reference timestamp after one event:
/// - the quit key terminates, leaving the state alone;
/// - the first pointer event only establishes the reference timestamp;
/// - a later pointer event at or after the reference yields the difference
///   as a sample and moves the reference;
/// - a pointer event before the reference is dropped, reference unchanged;
/// - every other event is ignored.
pub open spec fn observe_spec(last: Option<u64>, kind: EventKind, time: u64) -> (Outcome, Option<
    u64,
>) {
    match kind {
        EventKind::KeyPress(KeyId::Escape) => (Outcome::Quit, last),
        EventKind::PointerMove => match last {
            Option::None => (Outcome::NoSample, Option::Some(time)),
            Option::Some(p) => if time >= p {
                (Outcome::Sample((time - p) as u64), Option::Some(time))
            } else {
                (Outcome::NoSample, last)
            },
        },
        _ => (Outcome::NoSample, last),
    }
}

/// The history contents after one event: unchanged unless the event yields a
/// sample, which is appended under the capacity bound.
pub open spec fn step_hist(last: Option<u64>, s: Seq<u64>, kind: EventKind, time: u64) -> Seq<
    u64,
> {
    match observe_spec(last, kind, time).0 {
        Outcome::Sample(d) => pushed(s, d),
        _ => s,
    }
}

/// State and history after a whole sequence of events, with the termination
/// flag; processing stops at the first quit event.
pub open spec fn run_spec(last: Option<u64>, s: Seq<u64>, evs: Seq<InputEvent>) -> (
    Option<u64>,
    Seq<u64>,
    bool,
)
    decreases evs.len(),
{
    if evs.len() == 0 {
        (last, s, false)
    } else {
        let e = evs[0];
        if observe_spec(last, e.kind, e.time).0 is Quit {
            (last, s, true)
        } else {
            run_spec(
                observe_spec(last, e.kind, e.time).1,
                step_hist(last, s, e.kind, e.time),
                evs.drop_first(),
            )
        }
    }
}

impl Recorder {
    /// The reference timestamp: the last accepted pointer event.
    pub closed spec fn last_time(&self) -> Option<u64> {
        self.last_accepted
    }

    /// A fresh recorder has accepted no event yet.
    pub fn new() -> (r: Recorder)
        ensures
            r.last_time() == Option::<u64>::None,
    {
        Recorder { last_accepted: None }
    }

    /// Classifies one event and updates the reference timestamp, as
    /// `observe_spec` says.
    pub fn observe(&mut self, kind: EventKind, time: u64) -> (out: Outcome)
        ensures
            out == observe_spec(old(self).last_time(), kind, time).0,
            final(self).last_time() == observe_spec(old(self).last_time(), kind, time).1,
    {
        match kind {
            EventKind::KeyPress(KeyId::Escape) => Outcome::Quit,
            EventKind::PointerMove => {
                match self.last_accepted {
                    None => {
                        self.last_accepted = Some(time);
                        Outcome::NoSample
                    },
                    Some(p) => {
                        if time >= p {
                            self.last_accepted = Some(time);
                            Outcome::Sample(time - p)
                        } else {
                            Outcome::NoSample
                        }
                    },
                }
            },
            _ => Outcome::NoSample,
        }
    }

    /// Processes one event against a history store: a sample is appended, a
    /// quit event is reported, everything else leaves the history alone.
    pub fn handle_event(&mut self, hist: &mut History, ev: InputEvent) -> (quit: bool)
        requires
            old(hist).wf(),
        ensures
            final(self).last_time() == observe_spec(old(self).last_time(), ev.kind, ev.time).1,
            final(hist)@ == step_hist(old(self).last_time(), old(hist)@, ev.kind, ev.time),
            final(hist).wf(),
            quit == (observe_spec(old(self).last_time(), ev.kind, ev.time).0 is Quit),
    {
        match self.observe(ev.kind, ev.time) {
            Outcome::Quit => true,
            Outcome::Sample(d) => {
                hist.push(d);
                false
            },
            Outcome::NoSample => false,
        }
    }

    /// Processes a sequence of events in order, stopping at the first quit
    /// event; the result is exactly what `run_spec` says.
    pub fn process_all(&mut self, hist: &mut History, events: &Vec<InputEvent>) -> (quit: bool)
        requires
            old(hist).wf(),
        ensures
            ({
                let r = run_spec(old(self).last_time(), old(hist)@, events@);
                &&& final(self).last_time() == r.0
                &&& final(hist)@ == r.1
                &&& quit == r.2
                &&& final(hist).wf()
            }),
    {
        let ghost r = run_spec(self.last_time(), hist@, events@);
        proof {
            assert(events@.skip(0) =~= events@);
        }
        let n = events.len();
        let mut i: usize = 0;
        while i < n
            invariant
                i <= n,
                n == events@.len(),
                hist.wf(),
                r == run_spec(old(self).last_time(), old(hist)@, events@),
                run_spec(self.last_time(), hist@, events@.skip(i as int)) == r,
            decreases n - i,
        {
            let ev = events[i];
            let ghost prev_last = self.last_time();
            let ghost prev_hist = hist@;
            proof {
                assert(events@.skip(i as int)[0] == ev);
                assert(events@.skip(i as int).drop_first() =~= events@.skip(i + 1));
            }
            let quit = self.handle_event(hist, ev);
            if quit {
                proof {
                    assert(run_spec(prev_last, prev_hist, events@.skip(i as int)) == (
                        prev_last,
                        prev_hist,
                        true,
                    ));
                }
                return true;
            }
            i += 1;
        }
        false
    }
}

} // verus!
