//! The run orchestrator: sequences one invocation from parsed arguments through
//! the transaction's terminal outcome to the bounded flush and the process exit
//! code.

use vstd::prelude::*;

use crate::backend;
use crate::context::ContextFacts;
use crate::context::FactsModel;
use crate::errors::ErrorModel;
use crate::errors::RunError;
use crate::errors::exit_code_of;
use crate::errors::exit_code_spec;
use crate::events::EventLog;
use crate::events::EventModel;
use crate::transaction::UnitOfWork;
use crate::transaction::creation_events;
use crate::transaction::failure_events;

verus! {

/// How many seconds the final flush may wait for buffered telemetry: delivery
/// must not delay process exit for longer than this.
pub const FLUSH_TIMEOUT_SECONDS: u64 = 2;

/// What one invocation asks for: the resolved action's name (the transaction is
/// named after it) and whether user-facing error output is suppressed.
pub struct Plan {
    pub action: String,
    pub quiet: bool,
}

/// Mathematical picture of a plan.
pub struct PlanModel {
    pub action: Seq<char>,
    pub quiet: bool,
}

impl View for Plan {
    type V = PlanModel;

    open spec fn view(&self) -> PlanModel {
        PlanModel { action: self.action@, quiet: self.quiet }
    }
}

/// How argument parsing ended.
///
/// `Usage` is a malformed invocation: the parser has already printed its usage
/// message, and the invocation exits with the parser's own code at once — no
/// transaction is opened, nothing is recorded.  `Invalid` is a syntactically
/// valid invocation whose configuration could not be built: a transaction is
/// still opened, under a defaulted empty name, and routed straight to the
/// failure path; the execution engine never runs.  `Valid` carries the plan.
pub enum ParseResult {
    Usage { exit_code: i32 },
    Invalid { error: RunError },
    Valid { plan: Plan },
}

/// Mathematical picture of how argument parsing ended.
pub enum ParseModel {
    Usage { exit_code: int },
    Invalid { error: ErrorModel },
    Valid { plan: PlanModel },
}

impl View for ParseResult {
    type V = ParseModel;

    open spec fn view(&self) -> ParseModel {
        match self {
            ParseResult::Usage { exit_code } => ParseModel::Usage { exit_code: *exit_code as int },
            ParseResult::Invalid { error } => ParseModel::Invalid { error: error@ },
            ParseResult::Valid { plan } => ParseModel::Valid { plan: plan@ },
        }
    }
}

/// Mathematical picture of an execution outcome.
pub open spec fn outcome_view(outcome: Result<(), RunError>) -> Result<(), ErrorModel> {
    match outcome {
        Result::Ok(_) => Result::Ok(()),
        Result::Err(e) => Result::Err(e@),
    }
}

/// The events a transaction's conclusion records: `Succeeded` on success, the
/// failure events otherwise.
pub open spec fn conclusion_events(name: Seq<char>, outcome: Result<(), ErrorModel>) -> Seq<
    EventModel,
> {
    match outcome {
        Result::Ok(_) => seq![EventModel::Succeeded { name }],
        Result::Err(e) => failure_events(name, e),
    }
}

/// Every event one resolved invocation records: the creation events followed by
/// the conclusion events.
pub open spec fn invocation_events(
    name: Seq<char>,
    facts: FactsModel,
    outcome: Result<(), ErrorModel>,
) -> Seq<EventModel> {
    creation_events(name, facts) + conclusion_events(name, outcome)
}

/// The exit of a concluded invocation: success, or the failure's exit code.
pub open spec fn conclusion_exit(outcome: Result<(), ErrorModel>) -> Result<(), int> {
    match outcome {
        Result::Ok(_) => Result::Ok(()),
        Result::Err(e) => Result::Err(exit_code_spec(e)),
    }
}

/// What is shown to the user on the error stream: the failure's rendered
/// description, only when output is not suppressed and the failure is
/// displayable.
pub open spec fn display_spec(quiet: bool, outcome: Result<(), ErrorModel>) -> Option<Seq<char>> {
    match outcome {
        Result::Ok(_) => Option::None,
        Result::Err(e) => if !quiet && e.displayable() {
            Option::Some(e.message())
        } else {
            Option::None
        },
    }
}

/// Whether an exit value realizes its model.
pub open spec fn exit_matches(actual: Result<(), i32>, model: Result<(), int>) -> bool {
    match actual {
        Result::Ok(_) => model is Ok,
        Result::Err(c) => model == Result::<(), int>::Err(c as int),
    }
}

/// Whether a displayed text realizes its model.
pub open spec fn display_matches(actual: Option<String>, model: Option<Seq<char>>) -> bool {
    match actual {
        Option::Some(d) => model == Option::Some(d@),
        Option::None => model is None,
    }
}

/// What one invocation hands back to the process boundary: success or the
/// resolved exit code, and the error text to print to the error stream, if any
/// (the embedding program applies its color mode to it).
pub struct RunReport {
    pub exit: Result<(), i32>,
    pub display: Option<String>,
}

/// Concludes a transaction from the execution outcome.
///
/// On success the transaction passes; on failure, the text to display is
/// resolved (suppressed output or an undisplayable failure shows nothing), the
/// exit code is computed from the failure, and the transaction fails with it.
/// Either way the backend is then flushed with the fixed bounded timeout —
/// strictly after the terminal outcome is recorded, so the flush can deliver
/// it.
pub fn conclude(txn: UnitOfWork, outcome: Result<(), RunError>, quiet: bool, log: &mut EventLog) -> (report:
    RunReport)
    requires
        txn.is_open(),
    ensures
        final(log)@ == old(log)@ + conclusion_events(txn.name_model(), outcome_view(outcome)),
        exit_matches(report.exit, conclusion_exit(outcome_view(outcome))),
        display_matches(report.display, display_spec(quiet, outcome_view(outcome))),
{
    let ghost nm = txn.name_model();
    let ghost out = outcome_view(outcome);
    let report = match outcome {
        Result::Ok(_) => {
            txn.pass(log);
            RunReport { exit: Result::Ok(()), display: Option::None }
        },
        Result::Err(error) => {
            let display = if !quiet && error.displayable() {
                Option::Some(error.message().clone())
            } else {
                Option::None
            };
            let code = exit_code_of(&error);
            txn.fail(&error, log);
            RunReport { exit: Result::Err(code), display }
        },
    };
    proof {
        assert(log@ =~= old(log)@ + conclusion_events(nm, out));
    }
    backend::flush_backend(FLUSH_TIMEOUT_SECONDS);
    report
}

/// Every event one invocation records, over the whole run: nothing for a pure
/// parse failure, a defaulted-name invocation concluded with the configuration
/// failure for an invalid configuration, and the full invocation otherwise.
pub open spec fn run_events(
    parsed: ParseModel,
    facts: FactsModel,
    engine: Result<(), ErrorModel>,
) -> Seq<EventModel> {
    match parsed {
        ParseModel::Usage { .. } => Seq::empty(),
        ParseModel::Invalid { error } => invocation_events(
            Seq::empty(),
            facts,
            Result::Err(error),
        ),
        ParseModel::Valid { plan } => invocation_events(plan.action, facts, engine),
    }
}

/// The exit of the whole run: the parser's code verbatim for a parse failure,
/// the configuration failure's code for an invalid configuration, and the
/// engine outcome's exit otherwise.
pub open spec fn run_exit(parsed: ParseModel, engine: Result<(), ErrorModel>) -> Result<(), int> {
    match parsed {
        ParseModel::Usage { exit_code } => Result::Err(exit_code),
        ParseModel::Invalid { error } => Result::Err(exit_code_spec(error)),
        ParseModel::Valid { .. } => conclusion_exit(engine),
    }
}

/// What the whole run shows on the error stream: nothing for a parse failure
/// (the parser printed its own message), and the conclusion's display
/// otherwise.
pub open spec fn run_display(parsed: ParseModel, engine: Result<(), ErrorModel>) -> Option<
    Seq<char>,
> {
    match parsed {
        ParseModel::Usage { .. } => Option::None,
        ParseModel::Invalid { error } => display_spec(false, Result::Err(error)),
        ParseModel::Valid { plan } => display_spec(plan.quiet, engine),
    }
}

/// Runs one invocation, from how parsing ended to the report for the process
/// boundary.
///
/// A pure parse failure exits at once with the parser's code: no transaction,
/// no events, no flush.  Otherwise a transaction is opened (under the resolved
/// action's name, or a defaulted empty name when configuration failed), the
/// context facts are attached, and the transaction is concluded — with the
/// configuration failure, or with `engine_outcome`, the result of delegating to
/// the execution engine (a failure to install the signal handler is handed in
/// the same way; for `Usage` and `Invalid` the engine never ran and
/// `engine_outcome` is not consulted).  The terminal outcome is recorded
/// strictly before the bounded flush.
pub fn run(
    parsed: ParseResult,
    facts: &ContextFacts,
    engine_outcome: Result<(), RunError>,
    log: &mut EventLog,
) -> (report: RunReport)
    ensures
        final(log)@ == old(log)@ + run_events(parsed@, facts@, outcome_view(engine_outcome)),
        exit_matches(report.exit, run_exit(parsed@, outcome_view(engine_outcome))),
        display_matches(report.display, run_display(parsed@, outcome_view(engine_outcome))),
{
    let ghost parsed_model = parsed@;
    let ghost eng = outcome_view(engine_outcome);
    match parsed {
        ParseResult::Usage { exit_code } => {
            proof {
                assert(log@ =~= old(log)@ + run_events(parsed_model, facts@, eng));
            }
            RunReport { exit: Result::Err(exit_code), display: Option::None }
        },
        ParseResult::Invalid { error } => {
            let txn = UnitOfWork::new(String::new(), facts, log);
            let report = conclude(txn, Result::Err(error), false, log);
            proof {
                assert(log@ =~= old(log)@ + run_events(parsed_model, facts@, eng));
            }
            report
        },
        ParseResult::Valid { plan } => {
            let Plan { action, quiet } = plan;
            let txn = UnitOfWork::new(action, facts, log);
            let report = conclude(txn, engine_outcome, quiet, log);
            proof {
                assert(log@ =~= old(log)@ + run_events(parsed_model, facts@, eng));
            }
            report
        },
    }
}

} // verus!
