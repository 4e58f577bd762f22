//! The completion reporter, and the supervisor's final report step.
//!
//! A successful detection outcome becomes a single-key completion value
//! mapping the program name to the literal marker `"success"`; a failure
//! outcome propagates its error unchanged. The fixed shape is the seam for
//! carrying richer child output in the future.

use vstd::prelude::*;

use crate::detector::ExitOutcome;
use crate::detector::ModelEvent;
use crate::detector::ModelKillEvent;
use crate::detector::ModelOutcome;
use crate::detector::ModelProbeState;
use crate::detector::ModelTickEvent;
use crate::detector::ModelWaitEvent;
use crate::detector::lemma_probe_success_implies_kill;
use crate::detector::lemma_run_preserves_wf;
use crate::detector::model_kill_outcome;
use crate::detector::model_run;
use crate::detector::model_successful;
use crate::detector::model_tick;
use crate::detector::model_wait_outcome;
use crate::detector::outcome_wf;
use crate::errors::ErrorModel;
use crate::errors::SupervisionError;
use crate::errors::lemma_failure_message_names_program;
use crate::errors::process_failure_message;

verus! {

/// The completion value: a single-key structured value mapping the program
/// name to the literal marker `"success"`.
pub struct CompletionValue {
    /// The single key: the supervised program's name.
    pub key: String,
    /// The marker the key maps to; always the literal `"success"`.
    pub marker: String,
}

impl View for CompletionValue {
    type V = Map<Seq<char>, Seq<char>>;

    open spec fn view(&self) -> Map<Seq<char>, Seq<char>> {
        Map::empty().insert(self.key@, self.marker@)
    }
}

/// The completion value owed for a program: the single-key map from its name
/// to `"success"`.
pub open spec fn model_completion(program: Seq<char>) -> Map<Seq<char>, Seq<char>> {
    Map::empty().insert(program, "success"@)
}

/// Builds the completion value for a program.
pub fn completion_value(program: &str) -> (v: CompletionValue)
    ensures
        v@ == model_completion(program@),
        v.key@ == program@,
        v.marker@ == "success"@,
{
    CompletionValue { key: program.to_owned(), marker: "success".to_owned() }
}

/// What the report step owes for each outcome: the completion value for a
/// successful outcome, the failure's own error otherwise.
pub open spec fn model_finalize(
    program: Seq<char>,
    o: ModelOutcome,
) -> Result<Map<Seq<char>, Seq<char>>, ErrorModel> {
    match o {
        ModelOutcome::Failure(e) => Err(e),
        _ => Ok(model_completion(program)),
    }
}

/// The supervisor's final step: report a successful outcome as the
/// completion value, propagate a failure's error unchanged.
pub fn finalize(program: &str, outcome: ExitOutcome) -> (r: Result<
    CompletionValue,
    SupervisionError,
>)
    ensures
        r is Ok <==> model_successful(outcome@),
        r matches Ok(v) ==> model_finalize(program@, outcome@) == Ok::<_, ErrorModel>(v@),
        r matches Err(e) ==> model_finalize(program@, outcome@) == Err::<Map<Seq<char>, Seq<char>>, _>(e@),
{
    match outcome {
        ExitOutcome::Success => Ok(completion_value(program)),
        ExitOutcome::TerminatedByProbe => Ok(completion_value(program)),
        ExitOutcome::Failure(e) => Err(e),
    }
}

/// A child that exits successfully, with no ports configured, yields the
/// completion value keyed by the program name and mapping it to `"success"`.
pub proof fn lemma_clean_exit_completes(program: Seq<char>)
    ensures
        model_finalize(program, model_wait_outcome(program, ModelWaitEvent::Exited(true)))
            == Ok::<_, ErrorModel>(model_completion(program)),
        model_completion(program).dom() =~= set![program],
        model_completion(program)[program] == "success"@,
{
}

/// A child that exits with a non-success status, with no ports configured,
/// yields a process-failure error whose message has the program name as a
/// prefix.
pub proof fn lemma_failed_exit_reports_failure(program: Seq<char>)
    ensures
        model_finalize(program, model_wait_outcome(program, ModelWaitEvent::Exited(false)))
            == Err::<Map<Seq<char>, Seq<char>>, _>(
            ErrorModel::ProcessFailure(process_failure_message(program)),
        ),
        process_failure_message(program).subrange(0, program.len() as int) == program,
{
    lemma_failure_message_names_program(program);
}

/// A still-running child that opens any one of the configured ports is moved
/// to the termination step, and once the termination signal is delivered —
/// or benignly races with the child's own exit — the invocation completes
/// with the usual completion value.
pub proof fn lemma_port_ready_completes(program: Seq<char>, ready: Seq<bool>, i: int)
    requires
        0 <= i < ready.len(),
        ready[i],
    ensures
        model_tick(program, ModelTickEvent::StillRunning(ready)) == ModelProbeState::Terminating,
        model_finalize(program, model_kill_outcome(program, ModelKillEvent::Delivered))
            == Ok::<_, ErrorModel>(model_completion(program)),
        model_finalize(program, model_kill_outcome(program, ModelKillEvent::AlreadyExited))
            == Ok::<_, ErrorModel>(model_completion(program)),
{
}

/// Soundness of a whole polling run, whatever the interleaving of
/// observations. A run that reaches a terminal outcome is reported exactly:
/// a successful outcome becomes the completion value keyed by the program
/// name; a failure propagates its error unchanged, and that error's message
/// names the program whenever it concerns the process or the kill signal.
/// Success through the port path moreover implies that a termination signal
/// was sent, so no child outlives such an invocation.
pub proof fn lemma_supervision_report_sound(
    program: Seq<char>,
    events: Seq<ModelEvent>,
    outcome: ModelOutcome,
)
    requires
        model_run(program, ModelProbeState::Polling, events) == ModelProbeState::Done(outcome),
    ensures
        model_successful(outcome) ==> model_finalize(program, outcome) == Ok::<_, ErrorModel>(
            model_completion(program),
        ),
        outcome matches ModelOutcome::Failure(e) ==> model_finalize(program, outcome) == Err::<
            Map<Seq<char>, Seq<char>>,
            _,
        >(e) && outcome_wf(program, outcome),
        outcome == ModelOutcome::TerminatedByProbe ==> exists|j: int|
            0 <= j < events.len() && events[j] is Kill,
{
    lemma_run_preserves_wf(program, ModelProbeState::Polling, events);
    if outcome == ModelOutcome::TerminatedByProbe {
        lemma_probe_success_implies_kill(program, ModelProbeState::Polling, events);
    }
}

/// Determinism of the completion value: for a given program name the value
/// always has the same literal shape, so two runs over identical requests
/// produce structurally identical success values.
pub proof fn lemma_completion_deterministic(
    program: Seq<char>,
    first: CompletionValue,
    second: CompletionValue,
)
    requires
        first@ == model_completion(program),
        second@ == model_completion(program),
    ensures
        first@ == second@,
        first.key@ == second.key@,
        first.marker@ == second.marker@,
{
    assert(first.key@ == program) by {
        assert(first@.dom().contains(first.key@));
        assert(model_completion(program).dom().contains(first.key@));
    }
    assert(second.key@ == program) by {
        assert(second@.dom().contains(second.key@));
        assert(model_completion(program).dom().contains(second.key@));
    }
    assert(first.marker@ == first@[first.key@]);
    assert(second.marker@ == second@[second.key@]);
}

} // verus!
