//! The transaction: one observed unit of work, with a strict creation →
//! annotation → exactly-one-terminal-outcome protocol and a safety net against
//! forgotten finalization.

use vstd::prelude::*;

use crate::backend;
use crate::backend::SpanStatusKind;
use crate::context::ContextFacts;
use crate::context::FactsModel;
use crate::context::file_name_spec;
use crate::context::shell_file_name;
use crate::errors::ErrorModel;
use crate::errors::RunError;
use crate::events::Event;
use crate::events::EventLog;
use crate::events::EventModel;

verus! {

/// Whether the facts carry a shell path that has no file-name component — the
/// one annotation failure that is surfaced as a diagnostic event.
pub open spec fn shell_fact_invalid(facts: FactsModel) -> bool {
    match facts.shell_path {
        Option::Some(p) => file_name_spec(p) is None,
        Option::None => false,
    }
}

/// The events recorded when a transaction is created: the shell-path diagnostic
/// when that fact is present but unusable, then the `Initialized` event.
pub open spec fn creation_events(name: Seq<char>, facts: FactsModel) -> Seq<EventModel> {
    if shell_fact_invalid(facts) {
        seq![EventModel::ShellPathInvalid, EventModel::Initialized { name }]
    } else {
        seq![EventModel::Initialized { name }]
    }
}

/// The events recorded when a transaction fails: the failure's full rendered
/// description first, then `Terminated` for a signal interruption and `Failed`
/// (with the failure's code, when it carries one) for everything else.
pub open spec fn failure_events(name: Seq<char>, e: ErrorModel) -> Seq<EventModel> {
    seq![EventModel::ErrorText { text: e.message() }] + (if e.is_signal() {
        seq![EventModel::Terminated { name }]
    } else {
        seq![
            EventModel::Failed {
                name,
                code: match e {
                    ErrorModel::Domain { code, .. } => code,
                    ErrorModel::Signal { code, .. } => Option::Some(code),
                },
            },
        ]
    })
}

/// One observed unit of work.
///
/// A transaction is created open, holding the backend span for the unit of
/// work.  The two explicit terminal operations, [`UnitOfWork::pass`] and
/// [`UnitOfWork::fail`], consume it, so at most one terminal outcome is ever
/// recorded.  A transaction that is about to be discarded without either must
/// be given to [`UnitOfWork::finalize_abandoned`], which records the
/// `Abandoned` outcome exactly once.
pub struct UnitOfWork {
    span: Option<sentry::Transaction>,
    name: String,
}

impl UnitOfWork {
    /// Whether the transaction still awaits its terminal outcome.
    pub closed spec fn is_open(&self) -> bool {
        self.span is Some
    }

    /// The name of the unit of work.
    pub closed spec fn name_model(&self) -> Seq<char> {
        self.name@
    }

    /// Whether the transaction still awaits its terminal outcome — true from
    /// creation until one of the three finalizing paths has run.
    pub fn awaiting_outcome(&self) -> (b: bool)
        ensures
            b == self.is_open(),
    {
        self.span.is_some()
    }

    /// The name of the unit of work.
    pub fn name(&self) -> (name: &String)
        ensures
            name@ == self.name_model(),
    {
        &self.name
    }

    /// Opens a transaction for one unit of work.
    ///
    /// Starts a backend span tagged with `name` under a fixed category for
    /// user-facing actions, binds it as the ambient span, attaches the
    /// best-effort context facts (the invoking user, the shell's file name, the
    /// build's version-control descriptor — each only when available), and
    /// records the `Initialized` event.  A shell path without a file-name
    /// component is surfaced as an error-severity diagnostic, never as a
    /// failure.
    pub fn new(name: String, facts: &ContextFacts, log: &mut EventLog) -> (txn: UnitOfWork)
        ensures
            txn.is_open(),
            txn.name_model() == name@,
            final(log)@ == old(log)@ + creation_events(name@, facts@),
    {
        let span = backend::start_span(name.as_str(), "ui.action");
        backend::bind_ambient_span(&span);
        match &facts.user {
            Option::Some(user) => backend::scope_set_user(user.as_str()),
            Option::None => {},
        }
        match &facts.shell_path {
            Option::Some(path) => match shell_file_name(path.as_str()) {
                Option::Some(base) => backend::scope_set_tag("shell", base.as_str()),
                Option::None => log.emit(Event::ShellPathInvalid),
            },
            Option::None => {},
        }
        match &facts.commit {
            Option::Some(commit) => backend::scope_set_extra_text("commit", commit.as_str()),
            Option::None => {},
        }
        log.emit(Event::Initialized { name: name.clone() });
        proof {
            assert(log@ =~= old(log)@ + creation_events(name@, facts@));
        }
        UnitOfWork { span: Option::Some(span), name }
    }

    /// Records the successful terminal outcome: marks the span as completed,
    /// records the `Succeeded` event, and finishes the span.  Consumes the
    /// transaction.
    pub fn pass(self, log: &mut EventLog)
        requires
            self.is_open(),
        ensures
            final(log)@ == old(log)@.push(EventModel::Succeeded { name: self.name_model() }),
    {
        let UnitOfWork { span, name } = self;
        match span {
            Option::Some(span) => {
                backend::span_set_status(&span, SpanStatusKind::Completed);
                log.emit(Event::Succeeded { name });
                backend::finish_span(span);
            },
            Option::None => {
                proof {
                    assert(false);
                }
            },
        }
    }

    /// Records the failed terminal outcome: records the failure's full rendered
    /// description, then classifies it — a signal interruption marks the span
    /// aborted and records `Terminated`; anything else marks the span as an
    /// unclassified error and records `Failed` with the failure's code, when it
    /// carries one — and finishes the span.  Consumes the transaction.
    pub fn fail(self, error: &RunError, log: &mut EventLog)
        requires
            self.is_open(),
        ensures
            final(log)@ == old(log)@ + failure_events(self.name_model(), error@),
    {
        let ghost nm = self.name_model();
        let UnitOfWork { span, name } = self;
        match span {
            Option::Some(span) => {
                log.emit(Event::ErrorText { text: error.message().clone() });
                match error {
                    RunError::Signal { .. } => {
                        log.emit(Event::Terminated { name });
                        backend::span_set_status(&span, SpanStatusKind::Aborted);
                    },
                    RunError::Domain { code, .. } => {
                        log.emit(Event::Failed { name, code: *code });
                        backend::span_set_status(&span, SpanStatusKind::Errored);
                    },
                }
                backend::finish_span(span);
                proof {
                    assert(log@ =~= old(log)@ + failure_events(nm, error@));
                }
            },
            Option::None => {
                proof {
                    assert(false);
                }
            },
        }
    }

    /// The safety net against forgotten finalization: if the transaction is
    /// still open, records the `Abandoned` outcome and finishes the span;
    /// otherwise it is a no-op.  Idempotent — a second call records nothing.
    pub fn finalize_abandoned(&mut self, log: &mut EventLog)
        ensures
            !final(self).is_open(),
            final(self).name_model() == old(self).name_model(),
            final(log)@ == if old(self).is_open() {
                old(log)@.push(EventModel::Abandoned)
            } else {
                old(log)@
            },
    {
        match self.span.take() {
            Option::Some(span) => {
                log.emit(Event::Abandoned);
                backend::finish_span(span);
            },
            Option::None => {},
        }
    }
}

} // verus!
