use vstd::prelude::*;

use crate::catalog::{selection, size_name, Selection};
use crate::race::RaceOutcome;
use crate::state::{in_use, InstanceState};
use crate::watcher::POLL_INTERVAL_SECS;

verus! {

/// Exit status of every fatal path: an unsupported state, an aborted or
/// unusable pick, a failed external call.
pub const FAILURE_EXIT_CODE: i32 = 1;

/// Where the supervisor stands; each phase waits for one kind of event.
#[derive(Clone, Copy, Debug, PartialEq, Eq, Structural)]
pub enum Phase {
    /// Waiting for the first resolution of the instance's state.
    Inspecting,
    /// Waiting, one poll interval at a time, for the instance to be stopped.
    WaitingForStop,
    /// Waiting for the user's pick of an instance size.
    Selecting,
    /// Waiting for the control plane to acknowledge the resize.
    Resizing,
    /// Waiting for the control plane to acknowledge the start.
    Starting,
    /// Waiting for a connection race to end.
    Racing,
    /// Waiting for the user to confirm a restart.
    Confirming,
    /// Waiting for the interactive session to exit.
    InSession,
    /// Finished, with this exit status.
    Done(i32),
}

/// What the driver must do for the supervisor.
#[derive(Debug)]
pub enum Command {
    /// Resolve the instance's current state.
    Resolve,
    /// Sleep this many seconds, then resolve the instance's current state.
    SleepThenResolve(u64),
    /// Let the user pick an instance size from the catalog.
    Pick,
    /// Resize the instance to this size.
    Resize(String),
    /// Start the instance.
    Start,
    /// Run a fresh connection race.
    Race,
    /// Report the departing state seen and wait for the user's confirmation.
    Confirm(InstanceState),
    /// Launch the interactive session in the foreground.
    LaunchSession,
    /// Exit with this status.
    Exit(i32),
}

/// What the driver reports back.
#[derive(Debug)]
pub enum Event {
    /// The instance's state was resolved.
    Resolved(InstanceState),
    /// The picker ended: whether it was aborted, and the lines it returned.
    Picked { aborted: bool, lines: Vec<String> },
    /// The control plane acknowledged a resize or a start.
    Acknowledged,
    /// A connection race ended.
    RaceEnded(RaceOutcome),
    /// The user confirmed.
    Confirmed,
    /// The interactive session exited with this status.
    SessionEnded(i32),
    /// An external call failed fatally.
    Failed,
}

/// The supervisor's phase and command after a resolution to `s` in phase
/// `Inspecting` or `WaitingForStop`.
pub open spec fn after_resolution(p: Phase, s: InstanceState, q: Phase, c: Command) -> bool {
    if s is Stopped {
        q == Phase::Selecting && c is Pick
    } else if p is Inspecting && in_use(s) {
        q == Phase::Racing && c is Race
    } else if p is Inspecting && s is Terminated {
        q == Phase::Done(FAILURE_EXIT_CODE) && c == Command::Exit(FAILURE_EXIT_CODE)
    } else {
        q == Phase::WaitingForStop && c == Command::SleepThenResolve(POLL_INTERVAL_SECS)
    }
}

/// Whether, in phase `p`, event `e` leads to phase `q` with command `c`. An
/// event that the phase does not wait for is fatal.
pub open spec fn steps_to(p: Phase, e: Event, q: Phase, c: Command) -> bool {
    let fail = q == Phase::Done(FAILURE_EXIT_CODE) && c == Command::Exit(FAILURE_EXIT_CODE);
    match p {
        Phase::Done(code) => q == Phase::Done(code) && c == Command::Exit(code),
        _ => match e {
            Event::Failed => fail,
            Event::Resolved(s) => if p is Inspecting || p is WaitingForStop {
                after_resolution(p, s, q, c)
            } else {
                fail
            },
            Event::Picked { aborted, lines } => if p is Selecting {
                if !aborted && lines@.len() == 1 && size_name(lines@[0]@) is Some {
                    q == Phase::Resizing && c is Resize && c->Resize_0@ == size_name(lines@[0]@)->0
                } else {
                    fail
                }
            } else {
                fail
            },
            Event::Acknowledged => if p is Resizing {
                q == Phase::Starting && c is Start
            } else if p is Starting {
                q == Phase::Racing && c is Race
            } else {
                fail
            },
            Event::RaceEnded(o) => if p is Racing {
                match o {
                    RaceOutcome::Connected => q == Phase::InSession && c is LaunchSession,
                    RaceOutcome::Departed(s) => q == Phase::Confirming && c == Command::Confirm(s),
                }
            } else {
                fail
            },
            Event::Confirmed => if p is Confirming {
                q == Phase::WaitingForStop && c == Command::SleepThenResolve(POLL_INTERVAL_SECS)
            } else {
                fail
            },
            Event::SessionEnded(code) => if p is InSession {
                q == Phase::Done(code) && c == Command::Exit(code)
            } else {
                fail
            },
        },
    }
}

/// The instance connection supervisor: a resumable state machine that runs
/// the whole flow, including any number of shutdown and restart cycles,
/// without recursion.
#[derive(Clone, Copy, Debug, PartialEq, Eq, Structural)]
pub struct Supervisor {
    pub phase: Phase,
}

impl Supervisor {
    /// A supervisor at the start of a run, with the command that opens it.
    pub fn new() -> (r: (Supervisor, Command))
        ensures
            r.0.phase == Phase::Inspecting,
            r.1 is Resolve,
    {
        (Supervisor { phase: Phase::Inspecting }, Command::Resolve)
    }

    fn fail(&mut self) -> (c: Command)
        ensures
            final(self).phase == Phase::Done(FAILURE_EXIT_CODE),
            c == Command::Exit(FAILURE_EXIT_CODE),
    {
        self.phase = Phase::Done(FAILURE_EXIT_CODE);
        Command::Exit(FAILURE_EXIT_CODE)
    }

    fn on_resolved(&mut self, s: InstanceState) -> (c: Command)
        requires
            old(self).phase is Inspecting || old(self).phase is WaitingForStop,
        ensures
            after_resolution(old(self).phase, s, final(self).phase, c),
    {
        let inspecting = matches!(self.phase, Phase::Inspecting);
        if matches!(s, InstanceState::Stopped) {
            self.phase = Phase::Selecting;
            Command::Pick
        } else if inspecting && s.is_in_use() {
            self.phase = Phase::Racing;
            Command::Race
        } else if inspecting && matches!(s, InstanceState::Terminated) {
            self.fail()
        } else {
            self.phase = Phase::WaitingForStop;
            Command::SleepThenResolve(POLL_INTERVAL_SECS)
        }
    }

    /// Takes in what the driver observed and says what it must do next.
    pub fn step(&mut self, e: Event) -> (c: Command)
        ensures
            steps_to(old(self).phase, e, final(self).phase, c),
    {
        if let Phase::Done(code) = self.phase {
            return Command::Exit(code);
        }
        match e {
            Event::Failed => self.fail(),
            Event::Resolved(s) => match self.phase {
                Phase::Inspecting | Phase::WaitingForStop => self.on_resolved(s),
                _ => self.fail(),
            },
            Event::Picked { aborted, lines } => match self.phase {
                Phase::Selecting => {
                    let sel = selection(aborted, &lines);
                    match sel {
                        Selection::Chosen(t) => {
                            self.phase = Phase::Resizing;
                            Command::Resize(t)
                        },
                        _ => self.fail(),
                    }
                },
                _ => self.fail(),
            },
            Event::Acknowledged => match self.phase {
                Phase::Resizing => {
                    self.phase = Phase::Starting;
                    Command::Start
                },
                Phase::Starting => {
                    self.phase = Phase::Racing;
                    Command::Race
                },
                _ => self.fail(),
            },
            Event::RaceEnded(o) => match self.phase {
                Phase::Racing => match o {
                    RaceOutcome::Connected => {
                        self.phase = Phase::InSession;
                        Command::LaunchSession
                    },
                    RaceOutcome::Departed(s) => {
                        self.phase = Phase::Confirming;
                        Command::Confirm(s)
                    },
                },
                _ => self.fail(),
            },
            Event::Confirmed => match self.phase {
                Phase::Confirming => {
                    self.phase = Phase::WaitingForStop;
                    Command::SleepThenResolve(POLL_INTERVAL_SECS)
                },
                _ => self.fail(),
            },
            Event::SessionEnded(code) => match self.phase {
                Phase::InSession => {
                    self.phase = Phase::Done(code);
                    Command::Exit(code)
                },
                _ => self.fail(),
            },
        }
    }
}

} // verus!
