use vstd::prelude::*;

use crate::prober::ProbeOutcome;
use crate::state::{in_use, InstanceState};

verus! {

/// How a race ended: the probe reached the instance first, or the watcher saw
/// it depart first, carrying the departing state it saw.
#[derive(Clone, Copy, Debug, PartialEq, Eq, Structural)]
pub enum RaceOutcome {
    Connected,
    Departed(InstanceState),
}

/// What the driver of a race observed.
#[derive(Clone, Copy, Debug, PartialEq, Eq, Structural)]
pub enum RaceEvent {
    /// The prober task ended with this outcome.
    ProberFinished(ProbeOutcome),
    /// The watcher task ended: with the departing state it saw, or with
    /// nothing when it was cancelled.
    WatcherFinished(Option<InstanceState>),
    /// The race's cancellation signal was set.
    CancelSignalled,
}

/// What the driver of a race must do next.
#[derive(Clone, Copy, Debug, PartialEq, Eq, Structural)]
pub enum RaceAction {
    /// Both tasks run; wait for the first of them to end.
    AwaitFirst,
    /// Set the cancellation signal so that the losing task unwinds.
    SignalCancel,
    /// Wait for the prober task to unwind.
    AwaitProber,
    /// Wait for the watcher task to unwind.
    AwaitWatcher,
    /// Both tasks have ended: return the outcome.
    Return(RaceOutcome),
}

/// The connection race between the prober and the watcher. One fresh race,
/// with its own cancellation signal, is made for each contest.
#[derive(Clone, Copy, Debug, PartialEq, Eq, Structural)]
pub struct Race {
    pub prober_done: bool,
    pub watcher_done: bool,
    /// Decided by whichever task ends first with a result; never changed after.
    pub winner: Option<RaceOutcome>,
    /// The cancellation signal; set once, never cleared.
    pub signalled: bool,
}

impl Race {
    /// The winner is set by the first task to end, from that task's result,
    /// and the signal is only set once there is a winner.
    pub open spec fn wf(self) -> bool {
        &&& self.signalled ==> self.winner is Some
        &&& (self.prober_done || self.watcher_done) ==> self.winner is Some
        &&& self.winner == Some(RaceOutcome::Connected) ==> self.prober_done
        &&& self.winner matches Some(RaceOutcome::Departed(s)) ==> self.watcher_done && !in_use(s)
    }

    /// Whether `e` can happen now: each task ends once, a task ends without
    /// a winning result only after the signal, and the signal follows a winner.
    pub open spec fn spec_fits(self, e: RaceEvent) -> bool {
        match e {
            RaceEvent::ProberFinished(o) => !self.prober_done && (o is Succeeded || self.signalled),
            RaceEvent::WatcherFinished(w) => !self.watcher_done && ((w is Some && !in_use(w->0))
                || self.signalled),
            RaceEvent::CancelSignalled => self.winner is Some && !self.signalled,
        }
    }

    /// The action due in this state.
    pub open spec fn spec_action(self) -> RaceAction {
        if self.winner is None {
            RaceAction::AwaitFirst
        } else if !self.signalled {
            RaceAction::SignalCancel
        } else if !self.prober_done {
            RaceAction::AwaitProber
        } else if !self.watcher_done {
            RaceAction::AwaitWatcher
        } else {
            RaceAction::Return(self.winner->0)
        }
    }

    /// The state after `e`.
    pub open spec fn spec_step(self, e: RaceEvent) -> Race {
        match e {
            RaceEvent::ProberFinished(_) => Race {
                prober_done: true,
                winner: if self.winner is None {
                    Some(RaceOutcome::Connected)
                } else {
                    self.winner
                },
                ..self
            },
            RaceEvent::WatcherFinished(w) => Race {
                watcher_done: true,
                winner: if self.winner is None {
                    Some(RaceOutcome::Departed(w->0))
                } else {
                    self.winner
                },
                ..self
            },
            RaceEvent::CancelSignalled => Race { signalled: true, ..self },
        }
    }

    /// A race whose two tasks have just been started.
    pub fn new() -> (r: Race)
        ensures
            r.wf(),
            r.winner is None,
            !r.signalled,
            !r.prober_done,
            !r.watcher_done,
    {
        Race { prober_done: false, watcher_done: false, winner: None, signalled: false }
    }

    /// Whether `e` can happen now.
    pub fn fits(&self, e: RaceEvent) -> (r: bool)
        ensures
            r == self.spec_fits(e),
    {
        match e {
            RaceEvent::ProberFinished(o) => !self.prober_done && (matches!(o, ProbeOutcome::Succeeded)
                || self.signalled),
            RaceEvent::WatcherFinished(w) => !self.watcher_done && (match w {
                Some(s) => !s.is_in_use(),
                None => false,
            } || self.signalled),
            RaceEvent::CancelSignalled => self.winner.is_some() && !self.signalled,
        }
    }

    /// The action due now.
    pub fn next_action(&self) -> (r: RaceAction)
        requires
            self.wf(),
        ensures
            r == self.spec_action(),
    {
        match self.winner {
            None => RaceAction::AwaitFirst,
            Some(w) => if !self.signalled {
                RaceAction::SignalCancel
            } else if !self.prober_done {
                RaceAction::AwaitProber
            } else if !self.watcher_done {
                RaceAction::AwaitWatcher
            } else {
                RaceAction::Return(w)
            },
        }
    }

    /// Records an event.
    pub fn handle(&mut self, e: RaceEvent)
        requires
            old(self).wf(),
            old(self).spec_fits(e),
        ensures
            *final(self) == old(self).spec_step(e),
            final(self).wf(),
            old(self).winner is Some ==> final(self).winner == old(self).winner,
            old(self).signalled ==> final(self).signalled,
    {
        match e {
            RaceEvent::ProberFinished(_) => {
                self.prober_done = true;
                if self.winner.is_none() {
                    self.winner = Some(RaceOutcome::Connected);
                }
            },
            RaceEvent::WatcherFinished(w) => {
                self.watcher_done = true;
                if self.winner.is_none() {
                    match w {
                        Some(s) => {
                            self.winner = Some(RaceOutcome::Departed(s));
                        },
                        None => {},
                    }
                }
            },
            RaceEvent::CancelSignalled => {
                self.signalled = true;
            },
        }
    }
}

/// The race after each event of `events` in turn, from `r`.
pub open spec fn run(r: Race, events: Seq<RaceEvent>) -> Race
    decreases events.len(),
{
    if events.len() == 0 {
        r
    } else {
        run(r.spec_step(events[0]), events.drop_first())
    }
}

/// Whether each event of `events` can happen when it comes, from `r`.
pub open spec fn run_fits(r: Race, events: Seq<RaceEvent>) -> bool
    decreases events.len(),
{
    if events.len() == 0 {
        true
    } else {
        r.spec_fits(events[0]) && run_fits(r.spec_step(events[0]), events.drop_first())
    }
}

/// Along any run, the state stays well formed, a winner once decided is kept,
/// and the signal once set stays set.
pub proof fn lemma_run_keeps_winner(r: Race, events: Seq<RaceEvent>)
    requires
        r.wf(),
        run_fits(r, events),
    ensures
        run(r, events).wf(),
        r.winner is Some ==> run(r, events).winner == r.winner,
        r.signalled ==> run(r, events).signalled,
    decreases events.len(),
{
    if events.len() > 0 {
        lemma_run_keeps_winner(r.spec_step(events[0]), events.drop_first());
    }
}

/// The first task to end decides the race: the prober's success makes it
/// `Connected`, the watcher's departing state `s` makes it `Departed(s)`,
/// whatever happens after. The race returns that outcome only once both tasks
/// have ended and the signal was set, so no work of it outlives the race.
pub proof fn lemma_first_finisher_decides(first: RaceEvent, rest: Seq<RaceEvent>)
    requires
        run_fits(Race { prober_done: false, watcher_done: false, winner: None, signalled: false },
            seq![first] + rest),
    ensures
        ({
            let start = Race { prober_done: false, watcher_done: false, winner: None, signalled: false };
            let end = run(start, seq![first] + rest);
            &&& first matches RaceEvent::ProberFinished(_) ==> end.winner == Some(RaceOutcome::Connected)
            &&& first matches RaceEvent::WatcherFinished(w) ==> end.winner == Some(
                RaceOutcome::Departed(w->0),
            )
            &&& end.spec_action() is Return ==> end.prober_done && end.watcher_done && end.signalled
            &&& end.spec_action() is Return ==> end.spec_action() == RaceAction::Return(end.winner->0)
        }),
{
    let start = Race { prober_done: false, watcher_done: false, winner: None, signalled: false };
    let evs = seq![first] + rest;
    assert(evs[0] == first);
    assert(evs.drop_first() == rest);
    let after = start.spec_step(first);
    lemma_run_keeps_winner(after, rest);
}

} // verus!
