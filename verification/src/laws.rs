//! The crate's laws: what holds of every invocation, proved over the models
//! that the functions' contracts use.

use vstd::prelude::*;

use crate::backend::backend_enabled_spec;
use crate::context::FactsModel;
use crate::errors::ErrorModel;
use crate::errors::EXIT_FAILURE;
use crate::errors::exit_code_spec;
use crate::events::EventModel;
use crate::events::count_terminal;
use crate::events::is_terminal;
use crate::run::ParseModel;
use crate::run::conclusion_events;
use crate::run::invocation_events;
use crate::run::run_display;
use crate::run::run_events;
use crate::run::run_exit;
use crate::transaction::creation_events;
use crate::transaction::shell_fact_invalid;

verus! {

/// Terminal outcomes in a concatenation add up.
pub proof fn lemma_count_terminal_concat(a: Seq<EventModel>, b: Seq<EventModel>)
    ensures
        count_terminal(a + b) == count_terminal(a) + count_terminal(b),
    decreases b.len(),
{
    if b.len() == 0 {
        assert(a + b =~= a);
    } else {
        lemma_count_terminal_concat(a, b.drop_last());
        assert((a + b).drop_last() =~= a + b.drop_last());
    }
}

/// Terminal outcomes in a one-event record: one if that event is terminal.
pub proof fn lemma_count_terminal_singleton(e: EventModel)
    ensures
        count_terminal(seq![e]) == if is_terminal(e) {
            1nat
        } else {
            0nat
        },
{
    assert(seq![e].drop_last() =~= Seq::<EventModel>::empty());
    assert(count_terminal(Seq::<EventModel>::empty()) == 0);
    assert(seq![e].last() == e);
}

/// Creating a transaction records no terminal outcome: neither the
/// `Initialized` event nor the shell diagnostic is one.
pub proof fn lemma_creation_records_no_outcome(name: Seq<char>, facts: FactsModel)
    ensures
        count_terminal(creation_events(name, facts)) == 0,
{
    if shell_fact_invalid(facts) {
        assert(creation_events(name, facts) =~= seq![EventModel::ShellPathInvalid] + seq![
            EventModel::Initialized { name },
        ]);
        lemma_count_terminal_concat(
            seq![EventModel::ShellPathInvalid],
            seq![EventModel::Initialized { name }],
        );
        lemma_count_terminal_singleton(EventModel::ShellPathInvalid);
        lemma_count_terminal_singleton(EventModel::Initialized { name });
    } else {
        lemma_count_terminal_singleton(EventModel::Initialized { name });
    }
}

/// Concluding a transaction records exactly one terminal outcome, whichever way
/// it ends.
pub proof fn lemma_conclusion_records_one_outcome(
    name: Seq<char>,
    outcome: Result<(), ErrorModel>,
)
    ensures
        count_terminal(conclusion_events(name, outcome)) == 1,
{
    match outcome {
        Result::Ok(_) => {
            lemma_count_terminal_singleton(EventModel::Succeeded { name });
        },
        Result::Err(e) => {
            let terminal = if e.is_signal() {
                seq![EventModel::Terminated { name }]
            } else {
                seq![
                    EventModel::Failed {
                        name,
                        code: match e {
                            ErrorModel::Domain { code, .. } => code,
                            ErrorModel::Signal { code, .. } => Option::Some(code),
                        },
                    },
                ]
            };
            lemma_count_terminal_concat(seq![EventModel::ErrorText { text: e.message() }], terminal);
            lemma_count_terminal_singleton(EventModel::ErrorText { text: e.message() });
            lemma_count_terminal_singleton(terminal[0]);
            assert(terminal =~= seq![terminal[0]]);
        },
    }
}

/// Exactly one terminal outcome is recorded per resolved invocation: never
/// zero, never more than one — whatever the facts, and whether the invocation
/// passes or fails in either class.
pub proof fn lemma_invocation_exactly_one_outcome(
    name: Seq<char>,
    facts: FactsModel,
    outcome: Result<(), ErrorModel>,
)
    ensures
        count_terminal(invocation_events(name, facts, outcome)) == 1,
{
    lemma_count_terminal_concat(creation_events(name, facts), conclusion_events(name, outcome));
    lemma_creation_records_no_outcome(name, facts);
    lemma_conclusion_records_one_outcome(name, outcome);
}

/// A transaction resolved only by the safety net also records exactly one
/// terminal outcome: the `Abandoned` event, once.
pub proof fn lemma_abandonment_exactly_one_outcome(name: Seq<char>, facts: FactsModel)
    ensures
        count_terminal(creation_events(name, facts).push(EventModel::Abandoned)) == 1,
{
    assert(creation_events(name, facts).push(EventModel::Abandoned) =~= creation_events(
        name,
        facts,
    ) + seq![EventModel::Abandoned]);
    lemma_count_terminal_concat(creation_events(name, facts), seq![EventModel::Abandoned]);
    lemma_creation_records_no_outcome(name, facts);
    lemma_count_terminal_singleton(EventModel::Abandoned);
}

/// Everything one run makes observable, the backend's enablement included.
pub struct RunObservation {
    pub telemetry_enabled: bool,
    pub events: Seq<EventModel>,
    pub exit: Result<(), int>,
    pub display: Option<Seq<char>>,
}

/// The observable picture of one run under a given endpoint setting.
pub open spec fn observed_run(
    dsn: Option<Seq<char>>,
    parsed: ParseModel,
    facts: FactsModel,
    engine: Result<(), ErrorModel>,
) -> RunObservation {
    RunObservation {
        telemetry_enabled: backend_enabled_spec(dsn),
        events: run_events(parsed, facts, engine),
        exit: run_exit(parsed, engine),
        display: run_display(parsed, engine),
    }
}

/// Telemetry is purely additive: two runs of the same invocation that differ
/// only in the endpoint setting — one disabling the backend, one enabling it —
/// have the same exit, the same displayed text and the same recorded events;
/// the setting selects only whether a backend client exists to deliver them.
pub proof fn lemma_backend_is_additive(
    dsn_a: Option<Seq<char>>,
    dsn_b: Option<Seq<char>>,
    parsed: ParseModel,
    facts: FactsModel,
    engine: Result<(), ErrorModel>,
)
    ensures
        observed_run(dsn_a, parsed, facts, engine).exit == observed_run(
            dsn_b,
            parsed,
            facts,
            engine,
        ).exit,
        observed_run(dsn_a, parsed, facts, engine).display == observed_run(
            dsn_b,
            parsed,
            facts,
            engine,
        ).display,
        observed_run(dsn_a, parsed, facts, engine).events == observed_run(
            dsn_b,
            parsed,
            facts,
            engine,
        ).events,
{
}

/// Whether no event in the record is the `Failed` outcome.
pub open spec fn no_failed_event(s: Seq<EventModel>) -> bool {
    forall|i: int| 0 <= i < s.len() ==> !(s[i] is Failed)
}

/// Whether the exit code equals the code the failure itself carries.
pub open spec fn exits_with_own_code(e: ErrorModel) -> bool {
    e.code() matches Option::Some(code) && exit_code_spec(e) == code
}

/// A signal interruption ends in the `Terminated` outcome, never the `Failed`
/// one, and the exit code is the one the signal path carries, not the generic
/// failure code.
pub proof fn lemma_signal_yields_terminated(name: Seq<char>, facts: FactsModel, e: ErrorModel)
    requires
        e.is_signal(),
    ensures
        invocation_events(name, facts, Result::Err(e)).last() == (EventModel::Terminated { name }),
        no_failed_event(invocation_events(name, facts, Result::Err(e))),
        exits_with_own_code(e),
{
    let evs = invocation_events(name, facts, Result::Err(e));
    if shell_fact_invalid(facts) {
        assert(evs =~= seq![
            EventModel::ShellPathInvalid,
            EventModel::Initialized { name },
            EventModel::ErrorText { text: e.message() },
            EventModel::Terminated { name },
        ]);
    } else {
        assert(evs =~= seq![
            EventModel::Initialized { name },
            EventModel::ErrorText { text: e.message() },
            EventModel::Terminated { name },
        ]);
    }
}

/// A failure that is no signal ends in the `Failed` outcome, carrying exactly
/// the failure's own code; the exit code is that code, or the generic failure
/// code when the failure carries none.
pub proof fn lemma_domain_failure_carries_code(name: Seq<char>, facts: FactsModel, e: ErrorModel)
    requires
        !e.is_signal(),
    ensures
        invocation_events(name, facts, Result::Err(e)).last() == (EventModel::Failed {
            name,
            code: e.code(),
        }),
        e.code() is Some ==> exits_with_own_code(e),
        e.code() is None ==> exit_code_spec(e) == EXIT_FAILURE as int,
{
    let evs = invocation_events(name, facts, Result::Err(e));
    assert(evs.last() == (EventModel::Failed { name, code: e.code() }));
}

/// Context facts are best-effort: an environment without a shell path yields a
/// transaction with no shell diagnostic and no failure — creation records only
/// the `Initialized` event — while a shell path with no file-name component
/// yields the diagnostic and still only that beside the `Initialized` event.
pub proof fn lemma_context_facts_best_effort(name: Seq<char>, facts: FactsModel)
    ensures
        facts.shell_path is None ==> creation_events(name, facts) == seq![
            EventModel::Initialized { name },
        ],
        shell_fact_invalid(facts) ==> creation_events(name, facts) == seq![
            EventModel::ShellPathInvalid,
            EventModel::Initialized { name },
        ],
{
}

} // verus!
