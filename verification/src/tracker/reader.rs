//! The orientation state machine: consumes raw face-id notifications with
//! their arrival timestamps and emits one completed interval per maximal run
//! of a single trackable side.

use crate::text::{contains_fold, contains_ignore_case};
use crate::tracker::config::{
    lemma_find_side_num, spec_find_side, spec_is_trackable, Side, TimeularConfig,
};
use vstd::prelude::*;

verus! {

/// Whether an advertised device name is the tracker's: it contains
/// "timeular", in any case.
pub fn is_tracker_name(name: &str) -> (r: bool)
    ensures
        r == contains_fold(name@, "timeular"@),
{
    contains_ignore_case(name, "timeular")
}

/// A completed span during which one trackable side was presented.
#[derive(Clone, Debug, PartialEq)]
pub struct Interval {
    pub face: Side,
    pub start: i64,
    pub end: i64,
}

/// The machine is either idle or tracking one side since `start`.
#[derive(Debug, PartialEq)]
pub enum TrackState {
    Idle,
    Tracking { side: Side, start: i64 },
}

/// The state a raw id `raw` arriving at `t` leads to, out of any state that
/// is not currently tracking `raw`: tracking the resolved side when it is
/// trackable, idle otherwise (unknown ids included).
pub open spec fn spec_enter(cfg: TimeularConfig, raw: u8, t: i64) -> TrackState {
    match spec_find_side(cfg.sides@, raw) {
        Some(s) => if s.trackable {
            TrackState::Tracking { side: s, start: t }
        } else {
            TrackState::Idle
        },
        None => TrackState::Idle,
    }
}

/// One transition of the machine: the new state and the emitted interval,
/// if any.  A notification equal to the tracked side is a no-op; any other
/// notification while tracking emits the completed interval, ending at `t`.
pub open spec fn spec_step(cfg: TimeularConfig, st: TrackState, raw: u8, t: i64) -> (
    TrackState,
    Option<Interval>,
) {
    match st {
        TrackState::Tracking { side, start } => {
            if side.side_num == raw {
                (TrackState::Tracking { side, start }, None)
            } else {
                (spec_enter(cfg, raw, t), Some(Interval { face: side, start, end: t }))
            }
        },
        TrackState::Idle => (spec_enter(cfg, raw, t), None),
    }
}

/// The machine folded over a whole notification sequence: final state and
/// every interval emitted, in emission order.
pub open spec fn spec_run(cfg: TimeularConfig, st: TrackState, events: Seq<(u8, i64)>) -> (
    TrackState,
    Seq<Interval>,
)
    decreases events.len(),
{
    if events.len() == 0 {
        (st, Seq::empty())
    } else {
        let stepped = spec_step(cfg, st, events[0].0, events[0].1);
        let rest = spec_run(cfg, stepped.0, events.drop_first());
        (
            rest.0,
            match stepped.1 {
                Some(iv) => seq![iv] + rest.1,
                None => rest.1,
            },
        )
    }
}

/// Whether a raw id arriving in state `st` starts a new tracked run: it must
/// resolve to a trackable side and the machine must not already be tracking
/// that same side.
pub open spec fn is_entry(cfg: TimeularConfig, st: TrackState, raw: u8) -> bool {
    spec_is_trackable(cfg, raw) && !(st matches TrackState::Tracking { side, .. }
        && side.side_num == raw)
}

/// How many events of `events` start a new tracked run.
pub open spec fn count_entries(cfg: TimeularConfig, st: TrackState, events: Seq<(u8, i64)>) -> nat
    decreases events.len(),
{
    if events.len() == 0 {
        0
    } else {
        let stepped = spec_step(cfg, st, events[0].0, events[0].1);
        (if is_entry(cfg, st, events[0].0) {
            1nat
        } else {
            0nat
        }) + count_entries(cfg, stepped.0, events.drop_first())
    }
}

/// 1 when a run is still open in state `st`, else 0.
pub open spec fn pending(st: TrackState) -> nat {
    if st matches TrackState::Tracking { .. } {
        1nat
    } else {
        0nat
    }
}

/// Every emitted interval closes exactly one started run: over any event
/// sequence, the number of emitted intervals plus the run still open at the
/// end equals the number of transitions into a trackable side from a
/// different state plus the run open at the start.  Duplicate notifications
/// of the tracked side start no run and emit nothing.
pub proof fn lemma_interval_count(cfg: TimeularConfig, st: TrackState, events: Seq<(u8, i64)>)
    ensures
        spec_run(cfg, st, events).1.len() + pending(spec_run(cfg, st, events).0) == count_entries(
            cfg,
            st,
            events,
        ) + pending(st),
    decreases events.len(),
{
    if events.len() == 0 {
    } else {
        let stepped = spec_step(cfg, st, events[0].0, events[0].1);
        lemma_interval_count(cfg, stepped.0, events.drop_first());
    }
}

/// Timestamps fit the machine's state: a tracked run never starts after the
/// first event, and arrival times never decrease.
pub open spec fn times_ok(st: TrackState, events: Seq<(u8, i64)>) -> bool {
    (st matches TrackState::Tracking { start, .. } ==> (events.len() > 0 ==> start
        <= events[0].1)) && (forall|i: int|
        0 <= i < events.len() - 1 ==> (#[trigger] events[i].1) <= events[i + 1].1)
}

/// With timestamps that fit the state, every interval the machine emits is
/// well formed: its start never exceeds its end.
pub proof fn lemma_intervals_well_formed(
    cfg: TimeularConfig,
    st: TrackState,
    events: Seq<(u8, i64)>,
)
    requires
        times_ok(st, events),
    ensures
        forall|k: int|
            0 <= k < spec_run(cfg, st, events).1.len() ==> (#[trigger] spec_run(
                cfg,
                st,
                events,
            ).1[k]).start <= spec_run(cfg, st, events).1[k].end,
    decreases events.len(),
{
    if events.len() == 0 {
    } else {
        let stepped = spec_step(cfg, st, events[0].0, events[0].1);
        let rest = events.drop_first();
        assert forall|i: int| 0 <= i < rest.len() - 1 implies (#[trigger] rest[i].1) <= rest[i
            + 1].1 by {
            assert(rest[i] == events[i + 1]);
            assert(rest[i + 1] == events[i + 2]);
        }
        if rest.len() > 0 {
            assert(events[0].1 <= events[1].1);
            assert(rest[0] == events[1]);
        }
        lemma_intervals_well_formed(cfg, stepped.0, rest);
        let run = spec_run(cfg, st, events);
        let run_rest = spec_run(cfg, stepped.0, rest);
        match stepped.1 {
            Some(iv) => {
                assert(run.1 == seq![iv] + run_rest.1);
                assert(run.1[0] == iv);
                assert(forall|k: int|
                    1 <= k < run.1.len() ==> run.1[k] == run_rest.1[k - 1]);
            },
            None => {},
        }
    }
}

/// The orientation state machine: one raw notification in, at most one
/// completed interval out.  It holds the face table it resolves ids against
/// and the current tracking state.
#[derive(Debug)]
pub struct OrientationTracker {
    pub config: TimeularConfig,
    pub state: TrackState,
}

impl OrientationTracker {
    /// A machine that starts idle.
    pub fn new(config: TimeularConfig) -> (r: Self)
        ensures
            r.config == config,
            r.state is Idle,
    {
        OrientationTracker { config, state: TrackState::Idle }
    }

    /// Feeds one raw notification, arrived at time `t`, into the machine.
    ///
    /// The returned interval, if any, is the run completed by this
    /// notification; the caller forwards it to the active vendor handler.
    /// Arrival times must not precede the start of the current run.
    pub fn handle_notification(&mut self, raw: u8, t: i64) -> (r: Option<Interval>)
        requires
            old(self).state matches TrackState::Tracking { start, .. } ==> start <= t,
        ensures
            final(self).config == old(self).config,
            (final(self).state, r) == spec_step(old(self).config, old(self).state, raw, t),
            // A duplicate notification of the tracked side changes nothing.
            (old(self).state matches TrackState::Tracking { side, .. } && side.side_num == raw)
                ==> r is None && final(self).state == old(self).state,
            // An emitted interval is the completed run, ending at this event.
            r matches Some(iv) ==> iv.start <= iv.end && iv.end == t && old(self).state == (
            TrackState::Tracking { side: iv.face, start: iv.start }),
            // Leaving a tracked side for a non-trackable id emits the run
            // and leaves the machine idle.
            (old(self).state matches TrackState::Tracking { side, .. } && side.side_num != raw
                && !spec_is_trackable(old(self).config, raw))
                ==> r is Some && final(self).state is Idle,
            // Switching directly between two trackable sides emits exactly
            // the completed run and starts the new one at this event.
            (old(self).state matches TrackState::Tracking { side, .. } && side.side_num != raw
                && spec_is_trackable(old(self).config, raw)) ==> r is Some && (final(self).state
                matches TrackState::Tracking { side: s2, start: t2 } && s2.side_num == raw && t2
                == t),
            // From idle, a trackable id starts a run and emits nothing.
            (old(self).state is Idle && spec_is_trackable(old(self).config, raw)) ==> r is None
                && (final(self).state matches TrackState::Tracking { side: s2, start: t2 }
                && s2.side_num == raw && t2 == t),
            // From idle, a non-trackable id changes nothing.
            (old(self).state is Idle && !spec_is_trackable(old(self).config, raw)) ==> r is None
                && final(self).state is Idle,
    {
        proof {
            lemma_find_side_num(self.config.sides@, raw);
        }
        let emitted: Option<Interval> = match &self.state {
            TrackState::Tracking { side, start } => {
                if side.side_num == raw {
                    return None;
                }
                Some(Interval { face: side.clone(), start: *start, end: t })
            },
            TrackState::Idle => None,
        };
        self.state = match self.config.find_side(&raw) {
            Some(s) => {
                if s.trackable {
                    let side = s.clone();
                    TrackState::Tracking { side, start: t }
                } else {
                    TrackState::Idle
                }
            },
            None => TrackState::Idle,
        };
        emitted
    }
}

/// Splits a nonnegative duration in seconds into whole hours, leftover
/// minutes and leftover seconds, as reported to the user when a tracked run
/// completes.
pub fn split_duration(total_secs: i64) -> (r: (i64, i64, i64))
    requires
        0 <= total_secs,
    ensures
        r.0 == total_secs as int / 3600,
        r.1 == (total_secs as int / 60) % 60,
        r.2 == total_secs as int % 60,
        r.0 * 3600 + r.1 * 60 + r.2 == total_secs,
{
    let h = total_secs / 3600;
    let m = (total_secs / 60) % 60;
    let s = total_secs % 60;
    proof {
        assert(h * 3600 + m * 60 + s == total_secs) by (nonlinear_arith)
            requires
                h == total_secs as int / 3600,
                m == (total_secs as int / 60) % 60,
                s == total_secs as int % 60,
                0 <= total_secs,
        ;
    }
    (h, m, s)
}

} // verus!
