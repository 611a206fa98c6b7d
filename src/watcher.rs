use vstd::prelude::*;

use crate::state::{in_use, InstanceState};

verus! {

/// Seconds between two lifecycle queries. The watcher has no iteration cap:
/// it polls until the instance leaves the in-use states or it is cancelled.
pub const POLL_INTERVAL_SECS: u64 = 5;

/// What the driver of a watcher must do next.
#[derive(Clone, Copy, Debug, PartialEq, Eq, Structural)]
pub enum WatchAction {
    /// Resolve the instance's current state.
    Query,
    /// Sleep this many seconds, unless the cancellation signal fires first.
    Sleep(u64),
    /// Stop: with the departing state observed, or with nothing when cancelled.
    Finish(Option<InstanceState>),
}

/// What the driver of a watcher observed.
#[derive(Clone, Copy, Debug, PartialEq, Eq, Structural)]
pub enum WatchEvent {
    /// A query resolved to this state.
    Observed(InstanceState),
    /// The sleep between two queries ran out.
    Slept,
    /// The cancellation signal fired.
    CancelRequested,
}

/// The lifecycle watcher: polls until the instance leaves the in-use states.
#[derive(Clone, Copy, Debug, PartialEq, Eq, Structural)]
pub struct Watcher {
    /// The cancellation signal has been observed; it is never cleared.
    pub cancelled: bool,
    /// Between two queries.
    pub sleeping: bool,
    /// The departing state observed, once there is one.
    pub departed: Option<InstanceState>,
}

impl Watcher {
    /// A recorded state is always a departing one.
    pub open spec fn wf(self) -> bool {
        self.departed is Some ==> !in_use(self.departed->0)
    }

    /// The action due in this state.
    pub open spec fn spec_action(self) -> WatchAction {
        if self.departed is Some {
            WatchAction::Finish(self.departed)
        } else if self.cancelled {
            WatchAction::Finish(None)
        } else if self.sleeping {
            WatchAction::Sleep(POLL_INTERVAL_SECS)
        } else {
            WatchAction::Query
        }
    }

    /// The state after observing `e`; an event that does not fit the state
    /// leaves it unchanged.
    pub open spec fn spec_step(self, e: WatchEvent) -> Watcher {
        match e {
            WatchEvent::Observed(s) => if self.spec_action() is Query {
                if in_use(s) {
                    Watcher { sleeping: true, ..self }
                } else {
                    Watcher { departed: Some(s), ..self }
                }
            } else {
                self
            },
            WatchEvent::Slept => Watcher { sleeping: false, ..self },
            WatchEvent::CancelRequested => Watcher { cancelled: true, ..self },
        }
    }

    /// A watcher about to make its first query.
    pub fn new() -> (r: Watcher)
        ensures
            r.wf(),
            !r.cancelled,
            r.departed is None,
            r.spec_action() == WatchAction::Query,
    {
        Watcher { cancelled: false, sleeping: false, departed: None }
    }

    /// The action due now.
    pub fn next_action(&self) -> (r: WatchAction)
        ensures
            r == self.spec_action(),
    {
        if self.departed.is_some() {
            WatchAction::Finish(self.departed)
        } else if self.cancelled {
            WatchAction::Finish(None)
        } else if self.sleeping {
            WatchAction::Sleep(POLL_INTERVAL_SECS)
        } else {
            WatchAction::Query
        }
    }

    /// Records an observation.
    pub fn handle(&mut self, e: WatchEvent)
        requires
            old(self).wf(),
        ensures
            *final(self) == old(self).spec_step(e),
            final(self).wf(),
            old(self).cancelled ==> final(self).cancelled,
            old(self).departed is Some ==> final(self).departed == old(self).departed,
    {
        match e {
            WatchEvent::Observed(s) => {
                if self.departed.is_none() && !self.cancelled && !self.sleeping {
                    if s.is_in_use() {
                        self.sleeping = true;
                    } else {
                        self.departed = Some(s);
                    }
                }
            },
            WatchEvent::Slept => {
                self.sleeping = false;
            },
            WatchEvent::CancelRequested => {
                self.cancelled = true;
            },
        }
    }
}

/// An observed in-use state leads to a sleep of the poll interval and then to
/// another query; an observed departing state ends the watch with that state.
pub proof fn lemma_watch_round(w: Watcher, s: InstanceState)
    requires
        w.wf(),
        w.spec_action() is Query,
    ensures
        in_use(s) ==> w.spec_step(WatchEvent::Observed(s)).spec_action() == WatchAction::Sleep(
            POLL_INTERVAL_SECS,
        ),
        in_use(s) ==> w.spec_step(WatchEvent::Observed(s)).spec_step(
            WatchEvent::Slept,
        ).spec_action() == WatchAction::Query,
        !in_use(s) ==> w.spec_step(WatchEvent::Observed(s)).spec_action() == WatchAction::Finish(
            Some(s),
        ),
{
}

/// Cancellation ends a watch at once, also in the middle of a sleep: nothing
/// is queried nor slept after it.
pub proof fn lemma_cancel_ends_watch(w: Watcher)
    requires
        w.wf(),
    ensures
        w.spec_step(WatchEvent::CancelRequested).spec_action() is Finish,
        w.departed is None ==> w.spec_step(WatchEvent::CancelRequested).spec_action()
            == WatchAction::Finish(None),
{
}

} // verus!
