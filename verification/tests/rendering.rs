//! Rendered event messages and decimal numerals.

use odx::decimal::{i32_dec_string, u32_dec_string};
use odx::events::{render_event, severity, Event, Severity};

#[test]
fn decimal_numerals_are_exact() {
    assert_eq!(u32_dec_string(0), "0");
    assert_eq!(u32_dec_string(7), "7");
    assert_eq!(u32_dec_string(10), "10");
    assert_eq!(u32_dec_string(4294967295), "4294967295");
    assert_eq!(i32_dec_string(-1), "-1");
    assert_eq!(i32_dec_string(130), "130");
    assert_eq!(i32_dec_string(i32::MIN), "-2147483648");
    assert_eq!(i32_dec_string(i32::MAX), "2147483647");
}

#[test]
fn event_messages_match_their_shapes() {
    let name = || String::from("deploy");
    assert_eq!(render_event(&Event::Initialized { name: name() }), "deploy initialized");
    assert_eq!(render_event(&Event::Succeeded { name: name() }), "deploy succeeded");
    assert_eq!(render_event(&Event::Failed { name: name(), code: None }), "deploy failed");
    assert_eq!(
        render_event(&Event::Failed { name: name(), code: Some(3) }),
        "deploy failed (3)"
    );
    assert_eq!(render_event(&Event::Terminated { name: name() }), "deploy terminated");
    assert_eq!(
        render_event(&Event::ErrorText { text: String::from("anything at all") }),
        "anything at all"
    );
    assert_eq!(render_event(&Event::ShellPathInvalid), "SHELL does not have a file name");
    assert_eq!(render_event(&Event::Abandoned), "Transaction was never consumed");
}

#[test]
fn event_severities() {
    assert_eq!(severity(&Event::Initialized { name: String::new() }), Severity::Info);
    assert_eq!(severity(&Event::Succeeded { name: String::new() }), Severity::Info);
    assert_eq!(severity(&Event::Failed { name: String::new(), code: None }), Severity::Warning);
    assert_eq!(severity(&Event::Terminated { name: String::new() }), Severity::Warning);
    assert_eq!(severity(&Event::ErrorText { text: String::new() }), Severity::Info);
    assert_eq!(severity(&Event::ShellPathInvalid), Severity::Error);
    assert_eq!(severity(&Event::Abandoned), Severity::Error);
}
