//! The transaction lifecycle: exactly one terminal outcome per unit of work,
//! on every path.

use odx::errors::{exit_code_of, terminal_outcome, Outcome, RunError};
use odx::events::{Event, EventLog};
use odx::transaction::UnitOfWork;

fn facts_none() -> odx::context::ContextFacts {
    odx::context::ContextFacts::none()
}

fn terminal_count(log: &EventLog) -> usize {
    let mut count = 0;
    let mut i = 0;
    while i < log.len() {
        if terminal_outcome(log.get(i)).is_some() {
            count += 1;
        }
        i += 1;
    }
    count
}

#[test]
fn pass_records_exactly_one_outcome() {
    let mut log = EventLog::new();
    let txn = UnitOfWork::new(String::from("build"), &facts_none(), &mut log);
    assert!(txn.awaiting_outcome());
    txn.pass(&mut log);
    assert_eq!(log.len(), 2);
    assert_eq!(log.get(0), &Event::Initialized { name: String::from("build") });
    assert_eq!(log.get(1), &Event::Succeeded { name: String::from("build") });
    assert_eq!(terminal_count(&log), 1);
    assert_eq!(terminal_outcome(log.get(1)), Some(Outcome::Success));
}

#[test]
fn fail_with_code_records_exactly_one_outcome() {
    let mut log = EventLog::new();
    let txn = UnitOfWork::new(String::from("deploy"), &facts_none(), &mut log);
    let error = RunError::Domain {
        code: Some(3),
        message: String::from("recipe exited with code 3"),
        displayable: true,
    };
    txn.fail(&error, &mut log);
    assert_eq!(log.len(), 3);
    assert_eq!(log.get(1), &Event::ErrorText { text: String::from("recipe exited with code 3") });
    assert_eq!(log.get(2), &Event::Failed { name: String::from("deploy"), code: Some(3) });
    assert_eq!(terminal_count(&log), 1);
    assert_eq!(exit_code_of(&error), 3);
}

#[test]
fn fail_without_code_falls_back_to_generic_code() {
    let mut log = EventLog::new();
    let txn = UnitOfWork::new(String::from("deploy"), &facts_none(), &mut log);
    let error = RunError::Domain {
        code: None,
        message: String::from("unknown recipe"),
        displayable: true,
    };
    txn.fail(&error, &mut log);
    assert_eq!(log.get(2), &Event::Failed { name: String::from("deploy"), code: None });
    assert_eq!(exit_code_of(&error), 1);
}

#[test]
fn signal_records_terminated_not_failed() {
    let mut log = EventLog::new();
    let txn = UnitOfWork::new(String::from("build"), &facts_none(), &mut log);
    let error = RunError::Signal {
        code: 130,
        message: String::from("interrupted"),
        displayable: false,
    };
    txn.fail(&error, &mut log);
    assert_eq!(log.get(2), &Event::Terminated { name: String::from("build") });
    let mut i = 0;
    while i < log.len() {
        assert!(!matches!(log.get(i), Event::Failed { .. }));
        i += 1;
    }
    assert_eq!(terminal_count(&log), 1);
    assert_eq!(exit_code_of(&error), 130);
}

#[test]
fn abandoned_transaction_records_exactly_one_outcome() {
    let mut log = EventLog::new();
    let mut txn = UnitOfWork::new(String::from("build"), &facts_none(), &mut log);
    txn.finalize_abandoned(&mut log);
    assert!(!txn.awaiting_outcome());
    assert_eq!(log.len(), 2);
    assert_eq!(log.get(1), &Event::Abandoned);
    assert_eq!(terminal_count(&log), 1);
    assert_eq!(terminal_outcome(log.get(1)), Some(Outcome::Abandoned));
}

#[test]
fn safety_net_is_idempotent() {
    let mut log = EventLog::new();
    let mut txn = UnitOfWork::new(String::from("build"), &facts_none(), &mut log);
    txn.finalize_abandoned(&mut log);
    let after_first = log.len();
    txn.finalize_abandoned(&mut log);
    txn.finalize_abandoned(&mut log);
    assert_eq!(log.len(), after_first);
    assert_eq!(terminal_count(&log), 1);
}
