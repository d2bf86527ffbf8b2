//! The run orchestrator: scenarios over the whole invocation, with the backend
//! disabled and enabled.

use odx::backend_enabled;
use odx::context::ContextFacts;
use odx::errors::RunError;
use odx::events::{Event, EventLog};
use odx::run::{run, ParseResult, Plan, RunReport};

fn facts_none() -> ContextFacts {
    ContextFacts::none()
}

#[test]
fn backend_enabled_requires_nonempty_endpoint() {
    assert!(!backend_enabled(&None));
    assert!(!backend_enabled(&Some(String::new())));
    assert!(backend_enabled(&Some(String::from("https://example.invalid/42"))));
}

#[test]
fn endpoint_unset_build_success_exits_zero() {
    // No client is bound in this process, so nothing is delivered anywhere.
    assert!(sentry::Hub::current().client().is_none());
    let mut log = EventLog::new();
    let plan = Plan { action: String::from("build"), quiet: false };
    let report = run(ParseResult::Valid { plan }, &facts_none(), Ok(()), &mut log);
    assert_eq!(report.exit, Ok(()));
    assert_eq!(report.display, None);
    assert_eq!(log.len(), 2);
    assert_eq!(log.get(0), &Event::Initialized { name: String::from("build") });
    assert_eq!(log.get(1), &Event::Succeeded { name: String::from("build") });
}

#[test]
fn endpoint_set_deploy_domain_failure_exits_with_its_code() {
    let mut exit: Result<(), i32> = Ok(());
    let mut messages: Vec<String> = Vec::new();
    let started = std::time::Instant::now();
    let envelopes = sentry::test::with_captured_events(|| {
        let mut log = EventLog::new();
        let plan = Plan { action: String::from("deploy"), quiet: true };
        let error = RunError::Domain {
            code: Some(2),
            message: String::from("recipe exited with code 2"),
            displayable: true,
        };
        let report = run(ParseResult::Valid { plan }, &facts_none(), Err(error), &mut log);
        exit = report.exit;
        let mut i = 0;
        while i < log.len() {
            messages.push(odx::events::render_event(log.get(i)));
            i += 1;
        }
    });
    // The flush inside `run` is bounded by its two-second deadline.
    assert!(started.elapsed() < std::time::Duration::from_secs(4));
    assert_eq!(exit, Err(2));
    assert_eq!(
        messages,
        vec![
            String::from("deploy initialized"),
            String::from("recipe exited with code 2"),
            String::from("deploy failed (2)"),
        ]
    );
    // Every recorded event reached the bound client.
    let delivered: Vec<String> = envelopes
        .iter()
        .map(|e| match &e.message {
            Some(m) => m.clone(),
            None => String::new(),
        })
        .collect();
    assert_eq!(delivered, messages);
}

#[test]
fn enabling_the_backend_changes_nothing_observable() {
    let run_once = || -> (RunReport, EventLog) {
        let mut log = EventLog::new();
        let plan = Plan { action: String::from("deploy"), quiet: false };
        let error = RunError::Domain {
            code: Some(7),
            message: String::from("boom"),
            displayable: true,
        };
        let report = run(ParseResult::Valid { plan }, &facts_none(), Err(error), &mut log);
        (report, log)
    };
    let (disabled_report, disabled_log) = run_once();
    let mut enabled: Option<(RunReport, EventLog)> = None;
    sentry::test::with_captured_events(|| {
        enabled = Some(run_once());
    });
    let (enabled_report, enabled_log) = enabled.unwrap();
    assert_eq!(disabled_report.exit, enabled_report.exit);
    assert_eq!(disabled_report.display, enabled_report.display);
    assert_eq!(disabled_log.len(), enabled_log.len());
    let mut i = 0;
    while i < disabled_log.len() {
        assert_eq!(disabled_log.get(i), enabled_log.get(i));
        i += 1;
    }
    assert_eq!(disabled_report.display, Some(String::from("boom")));
}

#[test]
fn parse_failure_exits_at_once_without_events() {
    let mut log = EventLog::new();
    let report = run(ParseResult::Usage { exit_code: 64 }, &facts_none(), Ok(()), &mut log);
    assert_eq!(report.exit, Err(64));
    assert_eq!(report.display, None);
    assert_eq!(log.len(), 0);
}

#[test]
fn invalid_configuration_fails_a_default_named_transaction() {
    let mut log = EventLog::new();
    let error = RunError::Domain {
        code: None,
        message: String::from("no justfile found"),
        displayable: true,
    };
    let report = run(ParseResult::Invalid { error }, &facts_none(), Ok(()), &mut log);
    assert_eq!(report.exit, Err(1));
    assert_eq!(report.display, Some(String::from("no justfile found")));
    assert_eq!(log.len(), 3);
    assert_eq!(log.get(0), &Event::Initialized { name: String::new() });
    assert_eq!(log.get(2), &Event::Failed { name: String::new(), code: None });
}

#[test]
fn quiet_or_undisplayable_failures_print_nothing() {
    let mut log = EventLog::new();
    let plan = Plan { action: String::from("build"), quiet: true };
    let error = RunError::Domain {
        code: Some(5),
        message: String::from("hidden"),
        displayable: true,
    };
    let report = run(ParseResult::Valid { plan }, &facts_none(), Err(error), &mut log);
    assert_eq!(report.display, None);
    assert_eq!(report.exit, Err(5));

    let mut log = EventLog::new();
    let plan = Plan { action: String::from("build"), quiet: false };
    let error = RunError::Signal {
        code: 130,
        message: String::from("interrupted"),
        displayable: false,
    };
    let report = run(ParseResult::Valid { plan }, &facts_none(), Err(error), &mut log);
    assert_eq!(report.display, None);
    assert_eq!(report.exit, Err(130));
    assert_eq!(log.get(2), &Event::Terminated { name: String::from("build") });
}
