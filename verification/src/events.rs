//! The telemetry events that an invocation records, and the log that models the
//! stream handed to the backend.

use vstd::prelude::*;

use crate::backend;
use crate::decimal::int_digits;
use crate::decimal::i32_dec_string;

verus! {

/// Severity of an emitted telemetry event.
#[derive(Clone, Copy, Debug, PartialEq, Eq, Structural)]
pub enum Severity {
    Info,
    Warning,
    Error,
}

/// Mathematical picture of one telemetry event: what the crate promises to have
/// recorded, independent of how the backend encodes it.
pub enum EventModel {
    Initialized { name: Seq<char> },
    Succeeded { name: Seq<char> },
    Failed { name: Seq<char>, code: Option<int> },
    Terminated { name: Seq<char> },
    ErrorText { text: Seq<char> },
    ShellPathInvalid,
    Abandoned,
}

/// One telemetry event.
///
/// `Initialized` is recorded when a transaction opens; `Succeeded`, `Failed`
/// (with the failure's numeric code, when it carries one) and `Terminated`
/// (interruption by an operating-system signal) are the explicit terminal
/// outcomes; `Abandoned` is the terminal outcome recorded by the safety net for
/// a transaction that was never consumed.  `ErrorText` carries a failure's full
/// rendered description, recorded before its status; `ShellPathInvalid` is the
/// diagnostic for a shell path with no file-name component.
#[derive(Debug, PartialEq, Eq)]
pub enum Event {
    Initialized { name: String },
    Succeeded { name: String },
    Failed { name: String, code: Option<i32> },
    Terminated { name: String },
    ErrorText { text: String },
    ShellPathInvalid,
    Abandoned,
}

impl View for Event {
    type V = EventModel;

    open spec fn view(&self) -> EventModel {
        match self {
            Event::Initialized { name } => EventModel::Initialized { name: name@ },
            Event::Succeeded { name } => EventModel::Succeeded { name: name@ },
            Event::Failed { name, code } => EventModel::Failed {
                name: name@,
                code: match code {
                    Option::Some(c) => Option::Some(*c as int),
                    Option::None => Option::None,
                },
            },
            Event::Terminated { name } => EventModel::Terminated { name: name@ },
            Event::ErrorText { text } => EventModel::ErrorText { text: text@ },
            Event::ShellPathInvalid => EventModel::ShellPathInvalid,
            Event::Abandoned => EventModel::Abandoned,
        }
    }
}

/// Severity at which each event is recorded: the two explicit failure outcomes
/// are warnings, the safety-net outcome and the shell diagnostic are errors,
/// everything else (including the pre-status error text) is informational.
pub open spec fn severity_spec(e: EventModel) -> Severity {
    match e {
        EventModel::Initialized { .. } => Severity::Info,
        EventModel::Succeeded { .. } => Severity::Info,
        EventModel::Failed { .. } => Severity::Warning,
        EventModel::Terminated { .. } => Severity::Warning,
        EventModel::ErrorText { .. } => Severity::Info,
        EventModel::ShellPathInvalid => Severity::Error,
        EventModel::Abandoned => Severity::Error,
    }
}

/// Whether an event records a terminal outcome of a transaction.
pub open spec fn is_terminal(e: EventModel) -> bool {
    match e {
        EventModel::Succeeded { .. } => true,
        EventModel::Failed { .. } => true,
        EventModel::Terminated { .. } => true,
        EventModel::Abandoned => true,
        _ => false,
    }
}

/// How many of the events record a terminal outcome.
pub open spec fn count_terminal(s: Seq<EventModel>) -> nat
    decreases s.len(),
{
    if s.len() == 0 {
        0
    } else {
        count_terminal(s.drop_last()) + (if is_terminal(s.last()) {
            1nat
        } else {
            0nat
        })
    }
}

/// The message under which an event is recorded.
pub open spec fn render_spec(e: EventModel) -> Seq<char> {
    match e {
        EventModel::Initialized { name } => name + " initialized"@,
        EventModel::Succeeded { name } => name + " succeeded"@,
        EventModel::Failed { name, code } => match code {
            Option::None => name + " failed"@,
            Option::Some(c) => name + " failed ("@ + int_digits(c) + ")"@,
        },
        EventModel::Terminated { name } => name + " terminated"@,
        EventModel::ErrorText { text } => text,
        EventModel::ShellPathInvalid => "SHELL does not have a file name"@,
        EventModel::Abandoned => "Transaction was never consumed"@,
    }
}

/// Severity of one event.
pub fn severity(e: &Event) -> (s: Severity)
    ensures
        s == severity_spec(e@),
{
    match e {
        Event::Initialized { .. } => Severity::Info,
        Event::Succeeded { .. } => Severity::Info,
        Event::Failed { .. } => Severity::Warning,
        Event::Terminated { .. } => Severity::Warning,
        Event::ErrorText { .. } => Severity::Info,
        Event::ShellPathInvalid => Severity::Error,
        Event::Abandoned => Severity::Error,
    }
}

/// Renders the message under which an event is recorded.
pub fn render_event(e: &Event) -> (s: String)
    ensures
        s@ == render_spec(e@),
{
    match e {
        Event::Initialized { name } => {
            let mut s = name.clone();
            s.append(" initialized");
            s
        },
        Event::Succeeded { name } => {
            let mut s = name.clone();
            s.append(" succeeded");
            s
        },
        Event::Failed { name, code } => {
            let mut s = name.clone();
            match code {
                Option::None => {
                    s.append(" failed");
                },
                Option::Some(c) => {
                    s.append(" failed (");
                    s.append(i32_dec_string(*c).as_str());
                    s.append(")");
                },
            }
            s
        },
        Event::Terminated { name } => {
            let mut s = name.clone();
            s.append(" terminated");
            s
        },
        Event::ErrorText { text } => text.clone(),
        Event::ShellPathInvalid => String::from_str("SHELL does not have a file name"),
        Event::Abandoned => String::from_str("Transaction was never consumed"),
    }
}

/// The record of every telemetry event one invocation has emitted, in order.
/// Emitting an event appends it here and hands its rendered message to the
/// backend.
pub struct EventLog {
    events: Vec<Event>,
}

impl View for EventLog {
    type V = Seq<EventModel>;

    closed spec fn view(&self) -> Seq<EventModel> {
        self.events@.map_values(|e: Event| e@)
    }
}

impl EventLog {
    /// An empty log.
    pub fn new() -> (log: EventLog)
        ensures
            log@ == Seq::<EventModel>::empty(),
    {
        let log = EventLog { events: Vec::new() };
        proof {
            assert(log@ =~= Seq::<EventModel>::empty());
        }
        log
    }

    /// Records one event and hands its rendered message to the backend at the
    /// event's severity.
    pub fn emit(&mut self, e: Event)
        ensures
            final(self)@ == old(self)@.push(e@),
    {
        let message = render_event(&e);
        let level = severity(&e);
        backend::capture(message.as_str(), level);
        let ghost prior = self@;
        let ghost model = e@;
        self.events.push(e);
        proof {
            assert(self@ =~= prior.push(model));
        }
    }

    /// How many events have been recorded.
    pub fn len(&self) -> (n: usize)
        ensures
            n == self@.len(),
    {
        self.events.len()
    }

    /// The event at one position.
    pub fn get(&self, i: usize) -> (e: &Event)
        requires
            i < self@.len(),
        ensures
            e@ == self@[i as int],
    {
        &self.events[i]
    }
}

} // verus!
