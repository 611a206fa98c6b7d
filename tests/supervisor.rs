use jj::prober::{session_command_args, ProbeAction, ProbeEvent, Prober};
use jj::race::{Race, RaceAction, RaceEvent, RaceOutcome};
use jj::state::InstanceState;
use jj::supervisor::{Command, Event, Phase, Supervisor, FAILURE_EXIT_CODE};
use jj::watcher::{WatchAction, WatchEvent, Watcher};

/// Runs one race against a simulated world in which each probe takes one
/// second and ends as `probe_results` says (failing once the list runs out),
/// and each watcher query returns the next of `watch_states` (the last one
/// repeating). Returns the outcome and the number of probes spawned.
fn simulate_race(probe_results: &[bool], watch_states: &[InstanceState]) -> (RaceOutcome, usize) {
    let mut race = Race::new();
    let mut prober = Prober::new();
    let mut watcher = Watcher::new();
    let mut now: u64 = 0;
    let mut attempts: usize = 0;
    let mut queries: usize = 0;
    let mut child_ends_at: u64 = 0;
    let mut wakes_at: u64 = 0;
    loop {
        let mut progressed = false;
        match race.next_action() {
            RaceAction::Return(o) => {
                assert!(!prober.child_live);
                return (o, attempts);
            }
            RaceAction::SignalCancel => {
                race.handle(RaceEvent::CancelSignalled);
                prober.handle(ProbeEvent::CancelRequested);
                watcher.handle(WatchEvent::CancelRequested);
                progressed = true;
            }
            _ => {}
        }
        if !race.prober_done {
            match prober.next_action() {
                ProbeAction::Spawn => {
                    prober.handle(ProbeEvent::Spawned);
                    attempts += 1;
                    child_ends_at = now + 1;
                    progressed = true;
                }
                ProbeAction::AwaitExit => {
                    if now >= child_ends_at {
                        let ok = probe_results.get(attempts - 1).copied().unwrap_or(false);
                        prober.handle(ProbeEvent::Exited { success: ok });
                        progressed = true;
                    }
                }
                ProbeAction::Kill => {
                    prober.handle(ProbeEvent::Killed);
                    progressed = true;
                }
                ProbeAction::Finish(o) => {
                    let e = RaceEvent::ProberFinished(o);
                    assert!(race.fits(e));
                    race.handle(e);
                    progressed = true;
                }
            }
        }
        if !race.watcher_done {
            match watcher.next_action() {
                WatchAction::Query => {
                    let s = watch_states[queries.min(watch_states.len() - 1)];
                    queries += 1;
                    watcher.handle(WatchEvent::Observed(s));
                    wakes_at = now + 5;
                    progressed = true;
                }
                WatchAction::Sleep(_) => {
                    if now >= wakes_at {
                        watcher.handle(WatchEvent::Slept);
                        progressed = true;
                    }
                }
                WatchAction::Finish(w) => {
                    let e = RaceEvent::WatcherFinished(w);
                    assert!(race.fits(e));
                    race.handle(e);
                    progressed = true;
                }
            }
        }
        if !progressed {
            now += 1;
        }
        assert!(now < 1000, "race did not end");
    }
}

#[test]
fn scenario_stopped_resize_start_connect() {
    let hostname = "dev-box";
    let (mut sv, c) = Supervisor::new();
    assert!(matches!(c, Command::Resolve));
    let c = sv.step(Event::Resolved(InstanceState::Stopped));
    assert!(matches!(c, Command::Pick));
    let c = sv.step(Event::Picked {
        aborted: false,
        lines: vec!["m5.large 2 vCPU 8 GiB".to_string()],
    });
    match c {
        Command::Resize(t) => assert_eq!(t, "m5.large"),
        other => panic!("unexpected {:?}", other),
    }
    let c = sv.step(Event::Acknowledged);
    assert!(matches!(c, Command::Start));
    let c = sv.step(Event::Acknowledged);
    assert!(matches!(c, Command::Race));

    let (outcome, attempts) = simulate_race(&[false, false, true], &[InstanceState::Pending]);
    assert_eq!(outcome, RaceOutcome::Connected);
    assert_eq!(attempts, 3);

    let c = sv.step(Event::RaceEnded(outcome));
    assert!(matches!(c, Command::LaunchSession));
    assert_eq!(session_command_args(hostname), vec![hostname.to_string()]);
    let c = sv.step(Event::SessionEnded(0));
    assert!(matches!(c, Command::Exit(0)));
    assert_eq!(sv.phase, Phase::Done(0));
}

#[test]
fn scenario_running_departs_then_restarts() {
    let (mut sv, _) = Supervisor::new();
    let c = sv.step(Event::Resolved(InstanceState::Running));
    assert!(matches!(c, Command::Race));

    let (outcome, _) = simulate_race(&[], &[InstanceState::ShuttingDown]);
    assert_eq!(outcome, RaceOutcome::Departed(InstanceState::ShuttingDown));

    let c = sv.step(Event::RaceEnded(outcome));
    assert!(matches!(c, Command::Confirm(InstanceState::ShuttingDown)));
    let c = sv.step(Event::Confirmed);
    assert!(matches!(c, Command::SleepThenResolve(5)));
    let c = sv.step(Event::Resolved(InstanceState::ShuttingDown));
    assert!(matches!(c, Command::SleepThenResolve(5)));
    let c = sv.step(Event::Resolved(InstanceState::Stopping));
    assert!(matches!(c, Command::SleepThenResolve(5)));
    let c = sv.step(Event::Resolved(InstanceState::Stopped));
    assert!(matches!(c, Command::Pick));
    assert_eq!(sv.phase, Phase::Selecting);
}

#[test]
fn scenario_terminated_exits_without_race() {
    let (mut sv, _) = Supervisor::new();
    let c = sv.step(Event::Resolved(InstanceState::Terminated));
    assert!(matches!(c, Command::Exit(1)));
    assert_eq!(FAILURE_EXIT_CODE, 1);
    assert_eq!(sv.phase, Phase::Done(1));
    let c = sv.step(Event::Acknowledged);
    assert!(matches!(c, Command::Exit(1)));
}

#[test]
fn stopping_at_start_waits_for_stop() {
    for s in [InstanceState::Stopping, InstanceState::ShuttingDown] {
        let (mut sv, _) = Supervisor::new();
        let c = sv.step(Event::Resolved(s));
        assert!(matches!(c, Command::SleepThenResolve(5)));
        assert_eq!(sv.phase, Phase::WaitingForStop);
    }
}

#[test]
fn pending_at_start_races_at_once() {
    let (mut sv, _) = Supervisor::new();
    let c = sv.step(Event::Resolved(InstanceState::Pending));
    assert!(matches!(c, Command::Race));
}

#[test]
fn aborted_or_empty_pick_exits_with_failure() {
    let (mut sv, _) = Supervisor::new();
    sv.step(Event::Resolved(InstanceState::Stopped));
    let c = sv.step(Event::Picked { aborted: true, lines: vec![] });
    assert!(matches!(c, Command::Exit(1)));

    let (mut sv, _) = Supervisor::new();
    sv.step(Event::Resolved(InstanceState::Stopped));
    let c = sv.step(Event::Picked { aborted: false, lines: vec![] });
    assert!(matches!(c, Command::Exit(1)));
}

#[test]
fn failed_call_exits_with_failure() {
    let (mut sv, _) = Supervisor::new();
    sv.step(Event::Resolved(InstanceState::Stopped));
    sv.step(Event::Picked { aborted: false, lines: vec!["t3.micro 2 vCPU".to_string()] });
    let c = sv.step(Event::Failed);
    assert!(matches!(c, Command::Exit(1)));
}

#[test]
fn session_exit_status_becomes_the_exit_status() {
    let (mut sv, _) = Supervisor::new();
    sv.step(Event::Resolved(InstanceState::Running));
    sv.step(Event::RaceEnded(RaceOutcome::Connected));
    let c = sv.step(Event::SessionEnded(130));
    assert!(matches!(c, Command::Exit(130)));
}

#[test]
fn unexpected_event_is_fatal() {
    let (mut sv, _) = Supervisor::new();
    let c = sv.step(Event::Confirmed);
    assert!(matches!(c, Command::Exit(1)));
}
