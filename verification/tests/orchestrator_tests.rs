//! Driving the orchestrator, the waiter, and the pacing gate through whole
//! runs with a simulated backend.

use progresso_service::orchestrator::{ActionStep, BeginStep, Orchestrator};
use progresso_service::pacing::{pacing_step, PacingStep};
use progresso_service::textmatch::text_matches_token;
use progresso_service::waiter::{wait_gate, WaitGate};
use progresso_service::{OrdemTargets, ServiceEntry};

/// Runs the waiter's poll loop against a pre-recorded run of query results,
/// one per second; returns the verdict and the tick it was reached at.
fn run_wait(polls: &[Option<&str>], token: &str, deadline: u64, cancelled_from: Option<u64>) -> (bool, u64) {
    let mut elapsed: u64 = 0;
    loop {
        let cancelled = match cancelled_from {
            Some(c) => elapsed >= c,
            None => false,
        };
        match wait_gate(elapsed, deadline, cancelled) {
            WaitGate::Cancelled | WaitGate::TimedOut => return (false, elapsed),
            WaitGate::Proceed => {}
        }
        if let Some(Some(text)) = polls.get(elapsed as usize) {
            if text_matches_token(text, token) {
                return (true, elapsed);
            }
        }
        elapsed += 1;
    }
}

fn named_entry(name: &str, end_mode: Option<&str>) -> ServiceEntry {
    ServiceEntry {
        name: Some(name.to_string()),
        end_mode: end_mode.map(|m| m.to_string()),
        ..Default::default()
    }
}

/// Drives one in-flight entry to completion, given what the backend
/// reported at the baseline pre-check.
fn finish_entry(orch: &mut Orchestrator, was_running: bool) {
    match orch.on_baseline(was_running) {
        ActionStep::IssueStart(_) | ActionStep::IssueStop(_) => {
            orch.on_transition_done();
        }
        ActionStep::NoAction => {}
    }
    orch.on_load_stable();
}

#[test]
fn full_run_outputs_every_entry_in_order() {
    let doc = OrdemTargets {
        services: vec![
            named_entry("First", Some("Automatic")),
            named_entry("Second", Some("Manual")),
            named_entry("Third", None),
        ],
    };
    let mut orch = Orchestrator::new(doc);
    let mut queried: Vec<String> = Vec::new();
    loop {
        match orch.begin_entry(false) {
            BeginStep::Query(name) => {
                queried.push(name);
                // the backend reports every service as running
                finish_entry(&mut orch, true);
            }
            BeginStep::Skipped => continue,
            BeginStep::Finished => break,
            BeginStep::Halted => panic!("run was never cancelled"),
        }
    }
    assert_eq!(queried, vec!["First", "Second", "Third"]);
    let out = orch.progress();
    assert_eq!(out.len(), 3);
    for (i, expect) in ["First", "Second", "Third"].iter().enumerate() {
        let e = &out.services[i];
        assert_eq!(e.name.as_deref(), Some(*expect));
        assert!(e.start_processing_time.is_some());
        assert!(e.stop_time.is_some());
        assert!(e.end_time.is_some());
        assert!(e.cpu_responsive_time.is_some());
    }
}

#[test]
fn cancellation_before_the_first_entry_outputs_nothing() {
    let doc = OrdemTargets {
        services: vec![named_entry("First", Some("Automatic"))],
    };
    let mut orch = Orchestrator::new(doc);
    assert!(matches!(orch.begin_entry(true), BeginStep::Halted));
    assert!(orch.progress().is_empty());
}

#[test]
fn cancellation_after_entry_k_outputs_exactly_the_first_k() {
    let doc = OrdemTargets {
        services: vec![
            named_entry("A", Some("Manual")),
            named_entry("B", Some("Manual")),
            named_entry("C", Some("Manual")),
        ],
    };
    let mut orch = Orchestrator::new(doc);
    // Entry one completes; cancellation fires during its wait, which does
    // not remove it from the output.
    match orch.begin_entry(false) {
        BeginStep::Query(name) => {
            assert_eq!(name, "A");
            match orch.on_baseline(true) {
                ActionStep::IssueStop(n) => {
                    assert_eq!(n, "A");
                    let polls = [Some("STATE : 4 RUNNING"); 8];
                    let (ok, tick) = run_wait(&polls, "STOPPED", 60, Some(2));
                    assert!(!ok, "cancelled wait must fail");
                    assert_eq!(tick, 2);
                    orch.on_transition_done();
                }
                other => panic!("expected a stop, got {:?}", other),
            }
            assert_eq!(pacing_step(0, true, 900), PacingStep::Cancelled);
            orch.on_load_stable();
        }
        other => panic!("expected a query, got {:?}", other),
    }
    // The next tick observes the cancellation and halts the run.
    assert!(matches!(orch.begin_entry(true), BeginStep::Halted));
    let out = orch.progress();
    assert_eq!(out.len(), 1);
    assert_eq!(out.services[0].name.as_deref(), Some("A"));
    assert!(out.services[0].stop_time.is_some());
}

#[test]
fn entries_without_a_name_are_dropped() {
    let doc = OrdemTargets {
        services: vec![
            named_entry("", Some("Manual")),
            ServiceEntry::default(),
            named_entry("Real", Some("Manual")),
        ],
    };
    let mut orch = Orchestrator::new(doc);
    assert!(matches!(orch.begin_entry(false), BeginStep::Skipped));
    assert!(matches!(orch.begin_entry(false), BeginStep::Skipped));
    match orch.begin_entry(false) {
        BeginStep::Query(name) => {
            assert_eq!(name, "Real");
            finish_entry(&mut orch, false);
        }
        other => panic!("expected a query, got {:?}", other),
    }
    assert!(matches!(orch.begin_entry(false), BeginStep::Finished));
    assert_eq!(orch.progress().len(), 1);
    assert_eq!(orch.progress().services[0].name.as_deref(), Some("Real"));
}

#[test]
fn desired_state_already_holding_issues_no_command() {
    // Start-intent on a running service, stop-intent on a stopped one, and
    // an absent end state: none of them owes the backend a command.
    let doc = OrdemTargets {
        services: vec![
            named_entry("Run", Some("Automatic (Delayed Start)")),
            named_entry("Stop", Some("Disabled")),
            named_entry("None", None),
            named_entry("Empty", Some("")),
        ],
    };
    let mut orch = Orchestrator::new(doc);
    for was_running in [true, false, false, true] {
        match orch.begin_entry(false) {
            BeginStep::Query(_) => {
                let action = orch.on_baseline(was_running);
                assert!(matches!(action, ActionStep::NoAction), "got {:?}", action);
                orch.on_load_stable();
            }
            other => panic!("expected a query, got {:?}", other),
        }
    }
    assert!(matches!(orch.begin_entry(false), BeginStep::Finished));
    assert_eq!(orch.progress().len(), 4);
}

#[test]
fn stop_intent_on_a_running_service_issues_a_stop() {
    let doc = OrdemTargets {
        services: vec![named_entry("Spool", Some("Manual"))],
    };
    let mut orch = Orchestrator::new(doc);
    match orch.begin_entry(false) {
        BeginStep::Query(_) => match orch.on_baseline(true) {
            ActionStep::IssueStop(n) => {
                assert_eq!(n, "Spool");
                orch.on_transition_done();
                orch.on_load_stable();
            }
            other => panic!("expected a stop, got {:?}", other),
        },
        other => panic!("expected a query, got {:?}", other),
    }
    assert_eq!(orch.progress().len(), 1);
}

#[test]
fn waiter_succeeds_at_the_first_matching_poll() {
    let polls = [
        Some("STATE : 1 STOPPED"),
        Some("STATE : 2 START_PENDING"),
        Some("SERVICE_NAME: Svc1  STATE : 4 RUNNING"),
        Some("SERVICE_NAME: Svc1  STATE : 4 RUNNING"),
    ];
    let (ok, tick) = run_wait(&polls, "RUNNING", 60, None);
    assert!(ok, "Should detect the running state");
    assert_eq!(tick, 2, "Should succeed at the first matching poll");
}

#[test]
fn waiter_matches_case_insensitively_amid_any_content() {
    assert!(text_matches_token("noise RuNnInG noise", "running"));
    assert!(text_matches_token("XRUNNINGX", "Running"));
    assert!(!text_matches_token("STATE : 1 STOPPED", "RUNNING"));
}

#[test]
fn waiter_fails_once_the_deadline_passes() {
    let polls = [Some("STATE : 1 STOPPED"); 10];
    let (ok, tick) = run_wait(&polls, "RUNNING", 3, None);
    assert!(!ok, "Should time out waiting for a state that never comes");
    assert_eq!(tick, 3);
}

#[test]
fn waiter_fails_immediately_when_already_cancelled() {
    let polls = [Some("SERVICE_NAME: Svc1  STATE : 4 RUNNING"); 4];
    let (ok, tick) = run_wait(&polls, "RUNNING", 10, Some(0));
    assert!(!ok, "Should return false immediately when already cancelled");
    assert_eq!(tick, 0);
}

#[test]
fn pacing_gate_opens_on_a_first_quiet_sample() {
    // A first sample below the threshold opens the pacing gate at once: the only
    // decision that sleeps is Keep, and it is never taken.
    assert_eq!(pacing_step(0, false, 100), PacingStep::Quiet);
    assert_eq!(pacing_step(0, false, 599), PacingStep::Quiet);
}

#[test]
fn pacing_gate_holds_and_times_out_under_load() {
    assert_eq!(pacing_step(0, false, 600), PacingStep::Keep);
    assert_eq!(pacing_step(299, false, 900), PacingStep::Keep);
    assert_eq!(pacing_step(300, false, 900), PacingStep::TimedOut);
    assert_eq!(pacing_step(0, true, 100), PacingStep::Cancelled);
}

#[test]
fn start_scenario_reaches_running_at_the_third_poll() {
    // One entry asking for a start; the backend reports it stopped at the
    // pre-check, and its query text contains RUNNING from the third poll on.
    let doc = OrdemTargets {
        services: vec![named_entry("Svc1", Some("Automatic"))],
    };
    let mut orch = Orchestrator::new(doc);
    let name = match orch.begin_entry(false) {
        BeginStep::Query(n) => n,
        other => panic!("expected a query, got {:?}", other),
    };
    assert_eq!(name, "Svc1");
    match orch.on_baseline(false) {
        ActionStep::IssueStart(n) => {
            assert_eq!(n, "Svc1", "issueStart is owed for Svc1");
            let polls = [
                Some("STATE : 1 STOPPED"),
                Some("STATE : 2 START_PENDING"),
                Some("SERVICE_NAME: Svc1  STATE : 4 RUNNING"),
            ];
            let (ok, tick) = run_wait(&polls, "RUNNING", 60, None);
            assert!(ok, "Waiter should report success");
            assert_eq!(tick, 2, "Success comes at the third poll");
            orch.on_transition_done();
        }
        other => panic!("expected a start, got {:?}", other),
    }
    assert_eq!(
        pacing_step(0, false, 100),
        PacingStep::Quiet,
        "A first sample of ten percent opens the pacing gate at once"
    );
    orch.on_load_stable();
    let out = orch.progress();
    assert_eq!(out.len(), 1);
    let e = &out.services[0];
    assert_eq!(e.name.as_deref(), Some("Svc1"));
    assert!(e.end_time.is_some(), "completedAt is set");
    assert!(e.cpu_responsive_time.is_some(), "loadStableAt is set");
    assert!(matches!(orch.begin_entry(false), BeginStep::Finished));
}
