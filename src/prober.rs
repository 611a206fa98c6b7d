use vstd::prelude::*;

verus! {

/// How a probe ended: a remote round trip succeeded, or the probe was cancelled.
#[derive(Clone, Copy, Debug, PartialEq, Eq, Structural)]
pub enum ProbeOutcome {
    Succeeded,
    Cancelled,
}

/// What the driver of a probe must do next.
#[derive(Clone, Copy, Debug, PartialEq, Eq, Structural)]
pub enum ProbeAction {
    /// Spawn one remote-shell process that runs a no-op command and exits.
    Spawn,
    /// Wait for the live process to exit, or for the cancellation signal.
    AwaitExit,
    /// Terminate the live process at once, with no grace period.
    Kill,
    /// Stop, reporting the outcome.
    Finish(ProbeOutcome),
}

/// What the driver of a probe observed.
#[derive(Clone, Copy, Debug, PartialEq, Eq, Structural)]
pub enum ProbeEvent {
    /// A process was spawned after a `Spawn` action.
    Spawned,
    /// The live process exited, successfully or not.
    Exited { success: bool },
    /// The cancellation signal fired.
    CancelRequested,
    /// The live process was terminated after a `Kill` action.
    Killed,
}

/// The connectivity prober: retries a no-op remote round trip until one
/// succeeds or it is cancelled, with at most one process alive at a time.
#[derive(Clone, Copy, Debug, PartialEq, Eq, Structural)]
pub struct Prober {
    /// A spawned process has not exited or been killed yet.
    pub child_live: bool,
    /// The cancellation signal has been observed; it is never cleared.
    pub cancelled: bool,
    /// Set when a round trip succeeded before cancellation.
    pub succeeded: bool,
}

impl Prober {
    /// A success is only recorded once its process is gone.
    pub open spec fn wf(self) -> bool {
        self.succeeded ==> !self.child_live
    }

    /// The action due in this state.
    pub open spec fn spec_action(self) -> ProbeAction {
        if self.succeeded {
            ProbeAction::Finish(ProbeOutcome::Succeeded)
        } else if self.cancelled {
            if self.child_live {
                ProbeAction::Kill
            } else {
                ProbeAction::Finish(ProbeOutcome::Cancelled)
            }
        } else if self.child_live {
            ProbeAction::AwaitExit
        } else {
            ProbeAction::Spawn
        }
    }

    /// The state after observing `e`; an event that does not fit the state
    /// leaves it unchanged.
    pub open spec fn spec_step(self, e: ProbeEvent) -> Prober {
        match e {
            ProbeEvent::Spawned => if self.spec_action() is Spawn {
                Prober { child_live: true, ..self }
            } else {
                self
            },
            ProbeEvent::Exited { success } => if self.child_live && !self.succeeded {
                Prober { child_live: false, succeeded: success && !self.cancelled, ..self }
            } else {
                self
            },
            ProbeEvent::CancelRequested => Prober { cancelled: true, ..self },
            ProbeEvent::Killed => if self.spec_action() is Kill {
                Prober { child_live: false, ..self }
            } else {
                self
            },
        }
    }

    /// A prober that has not spawned anything yet.
    pub fn new() -> (r: Prober)
        ensures
            r.wf(),
            !r.child_live,
            !r.cancelled,
            !r.succeeded,
            r.spec_action() == ProbeAction::Spawn,
    {
        Prober { child_live: false, cancelled: false, succeeded: false }
    }

    /// The action due now.
    pub fn next_action(&self) -> (r: ProbeAction)
        ensures
            r == self.spec_action(),
    {
        if self.succeeded {
            ProbeAction::Finish(ProbeOutcome::Succeeded)
        } else if self.cancelled {
            if self.child_live {
                ProbeAction::Kill
            } else {
                ProbeAction::Finish(ProbeOutcome::Cancelled)
            }
        } else if self.child_live {
            ProbeAction::AwaitExit
        } else {
            ProbeAction::Spawn
        }
    }

    /// Records an observation.
    pub fn handle(&mut self, e: ProbeEvent)
        requires
            old(self).wf(),
        ensures
            *final(self) == old(self).spec_step(e),
            final(self).wf(),
            old(self).cancelled ==> final(self).cancelled,
    {
        match e {
            ProbeEvent::Spawned => {
                if !self.succeeded && !self.cancelled && !self.child_live {
                    self.child_live = true;
                }
            },
            ProbeEvent::Exited { success } => {
                if self.child_live && !self.succeeded {
                    self.child_live = false;
                    self.succeeded = success && !self.cancelled;
                }
            },
            ProbeEvent::CancelRequested => {
                self.cancelled = true;
            },
            ProbeEvent::Killed => {
                if !self.succeeded && self.cancelled && self.child_live {
                    self.child_live = false;
                }
            },
        }
    }
}

/// The prober never runs two processes at once, never starts one after it
/// was cancelled, and never reports an outcome while a process is alive.
pub proof fn lemma_prober_safety(p: Prober, e: ProbeEvent)
    requires
        p.wf(),
    ensures
        p.spec_action() is Spawn ==> !p.child_live && !p.cancelled,
        p.spec_action() is Finish ==> !p.child_live,
        p.spec_step(e).child_live && !p.child_live ==> p.spec_action() is Spawn,
        p.cancelled ==> !p.spec_step(e).child_live || p.child_live,
{
}

/// Once cancelled and not already successful, the prober's only remaining
/// course is to terminate its live process, if any, and report `Cancelled`.
pub proof fn lemma_cancel_ends_probe(p: Prober)
    requires
        p.wf(),
        !p.succeeded,
    ensures
        ({
            let q = p.spec_step(ProbeEvent::CancelRequested);
            &&& p.child_live ==> q.spec_action() == ProbeAction::Kill
            &&& p.child_live ==> q.spec_step(ProbeEvent::Killed).spec_action() == ProbeAction::Finish(
                ProbeOutcome::Cancelled,
            )
            &&& !p.child_live ==> q.spec_action() == ProbeAction::Finish(ProbeOutcome::Cancelled)
        }),
{
}

/// The command line of one probe: the host, then a no-op remote command.
pub fn probe_command_args(hostname: &str) -> (r: Vec<String>)
    ensures
        r@.len() == 2,
        r@[0]@ == hostname@,
        r@[1]@ == "exit 0"@,
{
    let mut v: Vec<String> = Vec::new();
    v.push(hostname.to_string());
    v.push("exit 0".to_string());
    v
}

/// The command line of the interactive session: the host alone.
pub fn session_command_args(hostname: &str) -> (r: Vec<String>)
    ensures
        r@.len() == 1,
        r@[0]@ == hostname@,
{
    let mut v: Vec<String> = Vec::new();
    v.push(hostname.to_string());
    v
}

} // verus!
