//! Classified failures of an invocation, and the process exit codes they map
//! to.

use vstd::prelude::*;

use crate::events::Event;
use crate::events::EventModel;

verus! {

/// The exit code used when a failure carries no code of its own.
pub const EXIT_FAILURE: i32 = 1;

/// Mathematical picture of a classified failure.
pub enum ErrorModel {
    Signal { code: int, message: Seq<char>, displayable: bool },
    Domain { code: Option<int>, message: Seq<char>, displayable: bool },
}

/// A classified failure of an invocation: either the execution was interrupted
/// by an operating-system signal (which carries the exit code conventionally
/// associated with that signal), or the execution engine or configuration
/// reported a failure, with a numeric exit code when it has one.  `message` is
/// the failure's rendered, uncolored description; `displayable` says whether it
/// may be shown to the user.
#[allow(inconsistent_fields)]
#[derive(Debug, PartialEq, Eq)]
pub enum RunError {
    Signal { code: i32, message: String, displayable: bool },
    Domain { code: Option<i32>, message: String, displayable: bool },
}

impl View for RunError {
    type V = ErrorModel;

    open spec fn view(&self) -> ErrorModel {
        match self {
            RunError::Signal { code, message, displayable } => ErrorModel::Signal {
                code: *code as int,
                message: message@,
                displayable: *displayable,
            },
            RunError::Domain { code, message, displayable } => ErrorModel::Domain {
                code: match code {
                    Option::Some(c) => Option::Some(*c as int),
                    Option::None => Option::None,
                },
                message: message@,
                displayable: *displayable,
            },
        }
    }
}

impl ErrorModel {
    /// Whether the failure is an interruption by an operating-system signal.
    pub open spec fn is_signal(self) -> bool {
        self is Signal
    }

    /// The failure's rendered description.
    pub open spec fn message(self) -> Seq<char> {
        match self {
            ErrorModel::Signal { message, .. } => message,
            ErrorModel::Domain { message, .. } => message,
        }
    }

    /// Whether the failure may be shown to the user.
    pub open spec fn displayable(self) -> bool {
        match self {
            ErrorModel::Signal { displayable, .. } => displayable,
            ErrorModel::Domain { displayable, .. } => displayable,
        }
    }

    /// The numeric code the failure carries, if any.
    pub open spec fn code(self) -> Option<int> {
        match self {
            ErrorModel::Signal { code, .. } => Option::Some(code),
            ErrorModel::Domain { code, .. } => code,
        }
    }
}

/// The process exit code of a failed invocation: the code the failure carries,
/// or the generic failure code when it carries none.
pub open spec fn exit_code_spec(e: ErrorModel) -> int {
    match e.code() {
        Option::Some(c) => c,
        Option::None => EXIT_FAILURE as int,
    }
}

impl RunError {
    /// The failure's rendered description.
    pub fn message(&self) -> (m: &String)
        ensures
            m@ == self@.message(),
    {
        match self {
            RunError::Signal { message, .. } => message,
            RunError::Domain { message, .. } => message,
        }
    }

    /// Whether the failure may be shown to the user.
    pub fn displayable(&self) -> (d: bool)
        ensures
            d == self@.displayable(),
    {
        match self {
            RunError::Signal { displayable, .. } => *displayable,
            RunError::Domain { displayable, .. } => *displayable,
        }
    }
}

/// Computes the process exit code of a failed invocation.
pub fn exit_code_of(e: &RunError) -> (code: i32)
    ensures
        code as int == exit_code_spec(e@),
{
    match e {
        RunError::Signal { code, .. } => *code,
        RunError::Domain { code: Option::Some(c), .. } => *c,
        RunError::Domain { code: Option::None, .. } => EXIT_FAILURE,
    }
}

/// Mathematical picture of a terminal outcome.
pub enum OutcomeModel {
    Success,
    DomainFailure { exit_code: Option<int> },
    SignalAborted,
    Abandoned,
}

/// How an invocation ended: exactly one of these is recorded per transaction.
#[derive(Debug, Clone, Copy, PartialEq, Eq)]
pub enum Outcome {
    Success,
    DomainFailure { exit_code: Option<i32> },
    SignalAborted,
    Abandoned,
}

impl View for Outcome {
    type V = OutcomeModel;

    open spec fn view(&self) -> OutcomeModel {
        match self {
            Outcome::Success => OutcomeModel::Success,
            Outcome::DomainFailure { exit_code } => OutcomeModel::DomainFailure {
                exit_code: match exit_code {
                    Option::Some(c) => Option::Some(*c as int),
                    Option::None => Option::None,
                },
            },
            Outcome::SignalAborted => OutcomeModel::SignalAborted,
            Outcome::Abandoned => OutcomeModel::Abandoned,
        }
    }
}

/// The terminal outcome an event records, if it records one.
pub open spec fn outcome_spec(e: EventModel) -> Option<OutcomeModel> {
    match e {
        EventModel::Succeeded { .. } => Option::Some(OutcomeModel::Success),
        EventModel::Failed { code, .. } => Option::Some(
            OutcomeModel::DomainFailure { exit_code: code },
        ),
        EventModel::Terminated { .. } => Option::Some(OutcomeModel::SignalAborted),
        EventModel::Abandoned => Option::Some(OutcomeModel::Abandoned),
        _ => Option::None,
    }
}

/// Classifies an event as the terminal outcome it records, if any.
pub fn terminal_outcome(e: &Event) -> (outcome: Option<Outcome>)
    ensures
        match outcome {
            Option::Some(o) => outcome_spec(e@) == Option::Some(o@),
            Option::None => outcome_spec(e@) is None,
        },
{
    match e {
        Event::Succeeded { .. } => Option::Some(Outcome::Success),
        Event::Failed { code, .. } => Option::Some(Outcome::DomainFailure { exit_code: *code }),
        Event::Terminated { .. } => Option::Some(Outcome::SignalAborted),
        Event::Abandoned => Option::Some(Outcome::Abandoned),
        _ => Option::None,
    }
}

} // verus!
