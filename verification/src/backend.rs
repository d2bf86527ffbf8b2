//! Backend connector: decides whether telemetry is enabled and talks to the
//! `sentry` client that the embedding program may have installed.

use vstd::prelude::*;

use crate::events::Severity;

verus! {

/// The status a finished backend span reports for its unit of work.
#[derive(Clone, Copy, Debug, PartialEq, Eq, Structural)]
pub enum SpanStatusKind {
    /// The unit of work succeeded.
    Completed,
    /// The unit of work was interrupted by an operating-system signal.
    Aborted,
    /// The unit of work failed for a reason the backend has no finer class for.
    Errored,
}

#[verifier::external_type_specification]
#[verifier::external_body]
pub struct ExSentryTransaction(sentry::Transaction);

/// Relies on `sentry::TransactionContext::new` and `sentry::start_transaction`:
/// starts a backend span for a unit of work with the given name, under the
/// given operation category.
#[verifier::external_body]
pub(crate) fn start_span(name: &str, op: &str) -> (span: sentry::Transaction) {
    sentry::start_transaction(sentry::TransactionContext::new(name, op))
}

/// Relies on `sentry::configure_scope` and `sentry::Scope::set_span`: binds the
/// span as the ambient one, so nested work attaches to it without explicit
/// threading.
#[verifier::external_body]
pub(crate) fn bind_ambient_span(span: &sentry::Transaction) {
    sentry::configure_scope(|scope| {
        scope.set_span(Some(sentry::TransactionOrSpan::Transaction(span.clone())));
    });
}

/// Relies on `sentry::configure_scope` and `sentry::Scope::set_user`: records
/// the invoking user on the ambient scope.
#[verifier::external_body]
pub(crate) fn scope_set_user(username: &str) {
    sentry::configure_scope(|scope| {
        scope.set_user(Some(sentry::User {
            username: Some(username.to_string()),
            ..Default::default()
        }));
    });
}

/// Relies on `sentry::configure_scope` and `sentry::Scope::set_tag`: records a
/// tag on the ambient scope.
#[verifier::external_body]
pub(crate) fn scope_set_tag(key: &str, value: &str) {
    sentry::configure_scope(|scope| {
        scope.set_tag(key, value);
    });
}

/// Relies on `sentry::configure_scope` and `sentry::Scope::set_extra`: records
/// an extra datum on the ambient scope, wrapped as a `serde_json` string.
#[verifier::external_body]
pub(crate) fn scope_set_extra_text(key: &str, value: &str) {
    sentry::configure_scope(|scope| {
        scope.set_extra(key, serde_json::Value::String(value.to_string()));
    });
}

/// Relies on `sentry::capture_message`: records one message at the given
/// severity.  Without a bound client this is a no-op.
#[verifier::external_body]
pub(crate) fn capture(message: &str, severity: Severity) {
    let level = match severity {
        Severity::Info => sentry::Level::Info,
        Severity::Warning => sentry::Level::Warning,
        Severity::Error => sentry::Level::Error,
    };
    sentry::capture_message(message, level);
}

/// Relies on `sentry::Transaction::set_status`: sets the status the span will
/// report when it finishes.
#[verifier::external_body]
pub(crate) fn span_set_status(span: &sentry::Transaction, status: SpanStatusKind) {
    let s = match status {
        SpanStatusKind::Completed => sentry::protocol::SpanStatus::Ok,
        SpanStatusKind::Aborted => sentry::protocol::SpanStatus::Aborted,
        SpanStatusKind::Errored => sentry::protocol::SpanStatus::UnknownError,
    };
    span.set_status(s);
}

/// Relies on `sentry::Transaction::finish`: closes the span and submits it to
/// the backend.  Taking the span by value, it can be called at most once per
/// span.
#[verifier::external_body]
pub(crate) fn finish_span(span: sentry::Transaction) {
    span.finish();
}

/// Relies on `sentry::Hub::current`, `sentry::Hub::client` and
/// `sentry::Client::close`: waits up to the given number of seconds for
/// buffered telemetry to be delivered, then shuts the client down.
/// Best-effort: without a client it is a no-op, and an elapsed deadline
/// abandons delivery silently.  Returns whether everything was delivered.
#[verifier::external_body]
pub(crate) fn flush_backend(timeout_seconds: u64) -> (delivered: bool) {
    match sentry::Hub::current().client() {
        Some(client) => client.close(Some(std::time::Duration::from_secs(timeout_seconds))),
        None => false,
    }
}

/// Whether a telemetry endpoint setting enables the backend: the endpoint must
/// be present and non-empty.  An absent or empty endpoint disables telemetry
/// entirely; nothing else in the crate behaves differently in that case.
pub open spec fn backend_enabled_spec(dsn: Option<Seq<char>>) -> bool {
    match dsn {
        Option::Some(s) => s.len() > 0,
        Option::None => false,
    }
}

/// Decides whether an endpoint setting (as read from the environment by the
/// embedding program) turns the telemetry backend on.
pub fn backend_enabled(dsn: &Option<String>) -> (enabled: bool)
    ensures
        enabled == backend_enabled_spec(match *dsn {
            Option::Some(ref s) => Option::Some(s@),
            Option::None => Option::None,
        }),
{
    match dsn {
        Option::Some(s) => s.as_str().unicode_len() > 0,
        Option::None => false,
    }
}

} // verus!
