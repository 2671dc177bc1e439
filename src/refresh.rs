//! The decisions of the refresh loop: from the loop's state and what the
//! last action brought, the next state and the next action. The loop that
//! attaches, decodes and sleeps runs around this.

use vstd::prelude::*;

verus! {

/// Seconds to wait after a failed attach or a failed rebuild.
pub const BACKOFF_SECS: u64 = 5;

/// Seconds to wait after a complete rebuild.
pub const REFRESH_PERIOD_SECS: u64 = 30;

/// What the last action brought.
#[derive(PartialEq, Eq, Structural, Clone, Copy, Debug)]
pub enum RefreshEvent {
    /// The process could not be found or opened.
    AttachFailed,
    /// The process was attached; its process id.
    Attached(u32),
    /// The snapshot was rebuilt and replaced.
    Rebuilt,
    /// The rebuild failed; whether the process shows no fortress.
    RebuildFailed(bool),
    /// The narrower creature-list refresh ended.
    CreaturesRefreshed,
    /// A wait ended.
    Woke,
}

/// What the loop does next.
#[derive(PartialEq, Eq, Structural, Clone, Copy, Debug)]
pub enum RefreshAction {
    Attach,
    Rebuild,
    RefreshCreatures,
    /// Release the snapshot and wait this many seconds.
    Sleep(u64),
}

/// The liveness marker and how many times the snapshot was replaced.
#[derive(PartialEq, Eq, Structural, Clone, Copy, Debug)]
pub struct RefreshState {
    pub pid: u32,
    pub swaps: u64,
}

pub open spec fn next(s: RefreshState, e: RefreshEvent) -> (RefreshState, RefreshAction) {
    match e {
        RefreshEvent::AttachFailed => (RefreshState { pid: 0, ..s }, RefreshAction::Sleep(BACKOFF_SECS)),
        RefreshEvent::Attached(p) => (RefreshState { pid: p, ..s }, RefreshAction::Rebuild),
        RefreshEvent::Rebuilt => (
            RefreshState { swaps: if s.swaps < u64::MAX { (s.swaps + 1) as u64 } else { s.swaps }, ..s },
            RefreshAction::Sleep(REFRESH_PERIOD_SECS),
        ),
        RefreshEvent::RebuildFailed(no_fortress) => (
            s,
            if no_fortress { RefreshAction::RefreshCreatures } else { RefreshAction::Sleep(BACKOFF_SECS) },
        ),
        RefreshEvent::CreaturesRefreshed => (s, RefreshAction::Sleep(BACKOFF_SECS)),
        RefreshEvent::Woke => (s, RefreshAction::Attach),
    }
}

/// The state after `events`, from `s`, and the actions decided on the way.
pub open spec fn run(s: RefreshState, events: Seq<RefreshEvent>) -> (RefreshState, Seq<RefreshAction>)
    decreases events.len(),
{
    if events.len() == 0 {
        (s, Seq::empty())
    } else {
        let (t, acts) = run(s, events.drop_last());
        let (u, a) = next(t, events.last());
        (u, acts.push(a))
    }
}

pub open spec fn count_sleeps(acts: Seq<RefreshAction>) -> int
    decreases acts.len(),
{
    if acts.len() == 0 {
        0
    } else {
        count_sleeps(acts.drop_last()) + if acts.last() is Sleep { 1int } else { 0 }
    }
}

pub open spec fn count_failures(events: Seq<RefreshEvent>) -> int
    decreases events.len(),
{
    if events.len() == 0 {
        0
    } else {
        count_failures(events.drop_last()) + if events.last() == RefreshEvent::AttachFailed { 1int } else { 0 }
    }
}

impl RefreshState {
    pub fn new() -> (r: RefreshState)
        ensures
            r.pid == 0,
            r.swaps == 0,
    {
        RefreshState { pid: 0, swaps: 0 }
    }

    /// The next state and action after `e`.
    pub fn step(self, e: RefreshEvent) -> (r: (RefreshState, RefreshAction))
        ensures
            r == next(self, e),
    {
        match e {
            RefreshEvent::AttachFailed => (RefreshState { pid: 0, ..self }, RefreshAction::Sleep(BACKOFF_SECS)),
            RefreshEvent::Attached(p) => (RefreshState { pid: p, ..self }, RefreshAction::Rebuild),
            RefreshEvent::Rebuilt => (
                RefreshState { swaps: if self.swaps < u64::MAX { self.swaps + 1 } else { self.swaps }, ..self },
                RefreshAction::Sleep(REFRESH_PERIOD_SECS),
            ),
            RefreshEvent::RebuildFailed(no_fortress) => (
                self,
                if no_fortress { RefreshAction::RefreshCreatures } else { RefreshAction::Sleep(BACKOFF_SECS) },
            ),
            RefreshEvent::CreaturesRefreshed => (self, RefreshAction::Sleep(BACKOFF_SECS)),
            RefreshEvent::Woke => (self, RefreshAction::Attach),
        }
    }

    /// Runs the decisions over `events` in order.
    pub fn step_all(self, events: &Vec<RefreshEvent>) -> (r: (RefreshState, Vec<RefreshAction>))
        ensures
            (r.0, r.1@) == run(self, events@),
    {
        let mut s = self;
        let mut acts: Vec<RefreshAction> = Vec::new();
        let mut i: usize = 0;
        while i < events.len()
            invariant
                i <= events@.len(),
                (s, acts@) == run(self, events@.subrange(0, i as int)),
            decreases events@.len() - i,
        {
            proof {
                let p = events@.subrange(0, i as int + 1);
                assert(p.drop_last() =~= events@.subrange(0, i as int));
            }
            let (t, a) = s.step(events[i]);
            s = t;
            acts.push(a);
            i = i + 1;
        }
        assert(events@.subrange(0, i as int) =~= events@);
        (s, acts)
    }
}

/// While attaching keeps failing, every failure is followed by exactly one
/// backoff wait, the liveness marker reads 0 after each failure, no
/// rebuild is asked for, and the snapshot is never replaced.
pub proof fn lemma_attach_failures(s: RefreshState, events: Seq<RefreshEvent>)
    requires
        forall|k: int| 0 <= k < events.len() ==> (#[trigger] events[k]) == RefreshEvent::AttachFailed
            || events[k] == RefreshEvent::Woke,
    ensures
        count_sleeps(run(s, events).1) == count_failures(events),
        run(s, events).0.swaps == s.swaps,
        run(s, events).1.len() == events.len(),
        forall|k: int| 0 <= k < events.len() ==> (#[trigger] run(s, events).1[k]) != RefreshAction::Rebuild,
        events.len() > 0 && events.last() == RefreshEvent::AttachFailed ==> run(s, events).0.pid == 0,
        (s.pid == 0 || count_failures(events) > 0) && events.len() > 0 ==> run(s, events).0.pid == 0,
    decreases events.len(),
{
    if events.len() > 0 {
        let p = events.drop_last();
        assert forall|k: int| 0 <= k < p.len() implies (#[trigger] p[k]) == RefreshEvent::AttachFailed
            || p[k] == RefreshEvent::Woke by {
            assert(p[k] == events[k]);
        }
        lemma_attach_failures(s, p);
        assert(events.last() == events[events.len() - 1]);
        let acts = run(s, events).1;
        assert(acts.drop_last() =~= run(s, p).1);
        assert forall|k: int| 0 <= k < events.len() implies (#[trigger] run(s, events).1[k]) != RefreshAction::Rebuild by {
            if k < p.len() {
                assert(acts[k] == run(s, p).1[k]);
            }
        }
        if p.len() > 0 && (s.pid == 0 || count_failures(p) > 0) {
        }
    }
}

} // verus!
