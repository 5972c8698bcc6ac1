//! The laws of the pipeline, stated and proved over the spec-level models:
//! what the history holds after any sequence of accepted events, that its
//! length is always capped, that clock skew is dropped without corrupting the
//! reference timestamp, and that presentation frequency is bounded.

use vstd::prelude::*;
use crate::{BUFFER_SIZE, FRAME_INTERVAL_MS, FRAME_RATE};
use crate::history::pushed;
use crate::recorder::{observe_spec, run_spec, step_hist, EventKind, InputEvent, KeyId, Outcome};
use crate::schedule::presents_spec;

verus! {

/// How many of the oldest samples a buffer of length `len` has shed.
pub open spec fn drop_count(len: int) -> int {
    if len > BUFFER_SIZE as int {
        len - BUFFER_SIZE as int
    } else {
        0
    }
}

/// The history contents after appending each of `xs` in order.
pub open spec fn pushed_all(s: Seq<u64>, xs: Seq<u64>) -> Seq<u64>
    decreases xs.len(),
{
    if xs.len() == 0 {
        s
    } else {
        pushed_all(pushed(s, xs[0]), xs.drop_first())
    }
}

/// Law: however many samples are appended, the history holds exactly the most
/// recent `BUFFER_SIZE` of them — the concatenation of the old contents and
/// the appended samples, with just enough of the front shed to fit — so its
/// length never exceeds `BUFFER_SIZE`.
pub proof fn lemma_pushed_all(s: Seq<u64>, xs: Seq<u64>)
    requires
        s.len() <= BUFFER_SIZE,
    ensures
        pushed_all(s, xs) == (s + xs).skip(drop_count(s.len() + xs.len() as int)),
        pushed_all(s, xs).len() <= BUFFER_SIZE,
    decreases xs.len(),
{
    if xs.len() == 0 {
        assert((s + xs).skip(0) =~= s);
    } else {
        let d = xs[0];
        let rest = xs.drop_first();
        let p = pushed(s, d);
        assert(p.len() <= BUFFER_SIZE);
        lemma_pushed_all(p, rest);
        if s.len() + 1 > BUFFER_SIZE {
            assert((p + rest).skip(drop_count(p.len() + rest.len() as int)) =~= (s + xs).skip(
                drop_count(s.len() + xs.len() as int),
            ));
        } else {
            assert(p + rest =~= s + xs);
        }
    }
}

/// Every event in the sequence is a pointer movement.
pub open spec fn all_moves(evs: Seq<InputEvent>) -> bool {
    forall|i: int| 0 <= i < evs.len() ==> (#[trigger] evs[i]).kind == EventKind::PointerMove
}

/// The timestamps are non-decreasing, starting no earlier than `prev`.
pub open spec fn sorted_from(prev: u64, evs: Seq<InputEvent>) -> bool
    decreases evs.len(),
{
    evs.len() == 0 || (prev <= evs[0].time && sorted_from(evs[0].time, evs.drop_first()))
}

/// The consecutive timestamp differences, measured first against `prev`.
pub open spec fn deltas(prev: u64, evs: Seq<InputEvent>) -> Seq<u64>
    decreases evs.len(),
{
    if evs.len() == 0 {
        Seq::empty()
    } else {
        seq![(evs[0].time - prev) as u64] + deltas(evs[0].time, evs.drop_first())
    }
}

/// The timestamp of the last event, or `prev` if there is none.
pub open spec fn last_time_of(prev: u64, evs: Seq<InputEvent>) -> u64
    decreases evs.len(),
{
    if evs.len() == 0 {
        prev
    } else {
        last_time_of(evs[0].time, evs.drop_first())
    }
}

/// There are as many differences as events, and each is the distance from its
/// predecessor's timestamp (from `prev` for the first).
pub proof fn lemma_deltas_index(prev: u64, evs: Seq<InputEvent>)
    requires
        sorted_from(prev, evs),
    ensures
        deltas(prev, evs).len() == evs.len(),
        forall|i: int|
            0 <= i < evs.len() ==> #[trigger] deltas(prev, evs)[i] == evs[i].time - (if i == 0 {
                prev as int
            } else {
                evs[i - 1].time as int
            }),
    decreases evs.len(),
{
    if evs.len() > 0 {
        let rest = evs.drop_first();
        lemma_deltas_index(evs[0].time, rest);
        assert(forall|i: int| 0 <= i < rest.len() ==> #[trigger] rest[i] == evs[i + 1]);
    }
}

/// The last timestamp is that of the final event.
pub proof fn lemma_last_time_of(prev: u64, evs: Seq<InputEvent>)
    ensures
        last_time_of(prev, evs) == if evs.len() == 0 {
            prev
        } else {
            evs[evs.len() - 1].time
        },
    decreases evs.len(),
{
    if evs.len() > 0 {
        lemma_last_time_of(evs[0].time, evs.drop_first());
    }
}

/// Processing monotone pointer movements never quits, accepts every event,
/// and appends exactly the consecutive differences, in order.
pub proof fn lemma_run_moves(prev: u64, s: Seq<u64>, evs: Seq<InputEvent>)
    requires
        all_moves(evs),
        sorted_from(prev, evs),
    ensures
        run_spec(Some(prev), s, evs) == (
            Some(last_time_of(prev, evs)),
            pushed_all(s, deltas(prev, evs)),
            false,
        ),
    decreases evs.len(),
{
    if evs.len() > 0 {
        let e = evs[0];
        let rest = evs.drop_first();
        assert(e.kind == EventKind::PointerMove);
        let d = (e.time - prev) as u64;
        assert(observe_spec(Some(prev), e.kind, e.time) == (
            Outcome::Sample(d),
            Some(e.time),
        ));
        assert(step_hist(Some(prev), s, e.kind, e.time) == pushed(s, d));
        assert(forall|i: int| 0 <= i < rest.len() ==> #[trigger] rest[i] == evs[i + 1]);
        lemma_run_moves(e.time, pushed(s, d), rest);
        let dl = deltas(prev, evs);
        assert(dl[0] == d);
        assert(dl.drop_first() =~= deltas(e.time, rest));
        assert(pushed_all(s, dl) == pushed_all(pushed(s, d), deltas(e.time, rest)));
    }
}

/// Law: after any number N of accepted pointer events with non-decreasing
/// timestamps, processed from a fresh recorder and an empty history, the
/// history holds exactly the last `min(N - 1, BUFFER_SIZE)` consecutive
/// timestamp differences, in order, and no quit was signalled. The first
/// event only establishes the reference timestamp and appends nothing.
pub proof fn lemma_monotone_history(evs: Seq<InputEvent>)
    requires
        all_moves(evs),
        forall|i: int| 0 <= i < evs.len() - 1 ==> (#[trigger] evs[i].time) <= evs[i + 1].time,
    ensures
        ({
            let r = run_spec(None, Seq::empty(), evs);
            let n = evs.len() as int;
            let kept = if n - 1 > BUFFER_SIZE as int {
                BUFFER_SIZE as int
            } else if n >= 1 {
                n - 1
            } else {
                0
            };
            &&& !r.2
            &&& r.1.len() == kept
            &&& forall|j: int|
                0 <= j < kept ==> #[trigger] r.1[j] == evs[n - kept + j].time - evs[n - kept + j
                    - 1].time
            &&& r.0 == if n >= 1 {
                Some(evs[n - 1].time)
            } else {
                None::<u64>
            }
        }),
{
    let n = evs.len() as int;
    if n >= 1 {
        let t0 = evs[0].time;
        let rest = evs.drop_first();
        assert(forall|i: int| 0 <= i < rest.len() ==> #[trigger] rest[i] == evs[i + 1]);
        lemma_sorted_from(t0, rest);
        assert(observe_spec(None, evs[0].kind, t0) == (Outcome::NoSample, Some(t0)));
        assert(run_spec(None, Seq::empty(), evs) == run_spec(Some(t0), Seq::<u64>::empty(), rest));
        lemma_run_moves(t0, Seq::empty(), rest);
        let dl = deltas(t0, rest);
        lemma_deltas_index(t0, rest);
        lemma_last_time_of(t0, rest);
        lemma_pushed_all(Seq::empty(), dl);
        assert(Seq::<u64>::empty() + dl =~= dl);
        let dc = drop_count(dl.len() as int);
        let r = run_spec(None, Seq::empty(), evs);
        assert(r.1 =~= dl.skip(dc));
        assert forall|j: int| 0 <= j < r.1.len() implies #[trigger] r.1[j] == evs[n - r.1.len()
            + j].time - evs[n - r.1.len() + j - 1].time by {
            assert(r.1[j] == dl[j + dc]);
        }
    }
}

/// Non-decreasing adjacent timestamps give the recursive sortedness used by
/// the run lemmas.
pub proof fn lemma_sorted_from(prev: u64, evs: Seq<InputEvent>)
    requires
        evs.len() > 0 ==> prev <= evs[0].time,
        forall|i: int| 0 <= i < evs.len() - 1 ==> (#[trigger] evs[i].time) <= evs[i + 1].time,
    ensures
        sorted_from(prev, evs),
    decreases evs.len(),
{
    if evs.len() > 0 {
        let rest = evs.drop_first();
        assert(forall|i: int| 0 <= i < rest.len() ==> #[trigger] rest[i] == evs[i + 1]);
        lemma_sorted_from(evs[0].time, rest);
    }
}

/// Law: an out-of-order pointer event (timestamp before the last accepted
/// one) appends nothing and leaves both the history and the reference
/// timestamp untouched, and the next in-order event is measured from the last
/// accepted timestamp, not from the dropped one.
pub proof fn lemma_skew_dropped(p: u64, s: Seq<u64>, t_bad: u64, t_good: u64)
    requires
        t_bad < p,
        p <= t_good,
    ensures
        observe_spec(Some(p), EventKind::PointerMove, t_bad) == (
            Outcome::NoSample,
            Some(p),
        ),
        step_hist(Some(p), s, EventKind::PointerMove, t_bad) == s,
        observe_spec(Some(p), EventKind::PointerMove, t_good) == (
            Outcome::Sample((t_good - p) as u64),
            Some(t_good),
        ),
{
}

/// Law: the quit key terminates processing unconditionally, whatever the
/// recorder state and history, and touches neither.
pub proof fn lemma_quit_unconditional(last: Option<u64>, s: Seq<u64>, evs: Seq<InputEvent>)
    requires
        evs.len() > 0,
        evs[0].kind == EventKind::KeyPress(KeyId::Escape),
    ensures
        run_spec(last, s, evs) == (last, s, true),
{
}

/// Law: presentations are spaced more than `FRAME_INTERVAL_MS` apart, so over
/// any span of poll times bounded by `hi` the number of presented frames
/// times `FRAME_INTERVAL_MS + 1` fits within the span.
pub proof fn lemma_present_rate(last: u64, ts: Seq<u64>, hi: int)
    requires
        forall|i: int| 0 <= i < ts.len() ==> (#[trigger] ts[i]) <= hi,
    ensures
        presents_spec(last, ts).len() * (FRAME_INTERVAL_MS + 1) <= if hi - last >= 0 {
            hi - last
        } else {
            0
        },
    decreases ts.len(),
{
    if ts.len() > 0 {
        let rest = ts.drop_first();
        assert(forall|i: int| 0 <= i < rest.len() ==> #[trigger] rest[i] == ts[i + 1]);
        if ts[0] > last + FRAME_INTERVAL_MS {
            lemma_present_rate(ts[0], rest, hi);
            assert(ts[0] <= hi);
        } else {
            lemma_present_rate(last, rest, hi);
        }
    }
}

/// Law: over any wall-clock window of 1000 milliseconds, no matter how fast
/// the draw loop iterates, at most `FRAME_RATE` frames are presented (in
/// fact at most 1000 / (FRAME_INTERVAL_MS + 1) = 111 of them).
pub proof fn lemma_present_rate_window(last: u64, ts: Seq<u64>)
    requires
        forall|i: int| 0 <= i < ts.len() ==> (#[trigger] ts[i]) <= last + 1000,
    ensures
        presents_spec(last, ts).len() <= FRAME_RATE,
{
    lemma_present_rate(last, ts, last + 1000);
}

} // verus!
