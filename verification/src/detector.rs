//! Exit detection: the algorithmic core of the supervisor.
//!
//! Two strategies detect that a supervised child is done. *Wait-only* blocks
//! until the child exits and classifies the exit status. *Wait-or-port-probe*
//! polls on a fixed interval; each tick first queries the exit status
//! (exit check) and, only if the child still runs, probes the configured
//! loopback ports (port check). A reachable port moves the detector to a
//! termination step that kills the still-running child before success is
//! declared.
//!
//! The embedding program performs the blocking calls (waiting, probing,
//! killing, sleeping) and feeds each observation back as a plain event; the
//! functions here make every decision and are specified against a
//! mathematical model of the detector's state machine:
//! `Polling -> {Done(outcome) | Terminating}`, `Terminating -> Done(outcome)`,
//! with `Done` final.

use vstd::prelude::*;

use crate::errors::ErrorModel;
use crate::errors::SupervisionError;
use crate::errors::kill_failure;
use crate::errors::kill_failure_message;
use crate::errors::process_failure;
use crate::errors::process_failure_message;

verus! {

/// Milliseconds between two ticks of the polling detector. The embedding
/// program sleeps this long before each tick.
pub const POLL_INTERVAL_MILLIS: u64 = 100;

/// How a supervised invocation ended.
pub enum ExitOutcome {
    /// The child exited on its own with a success status.
    Success,
    /// The invocation failed; the error says how.
    Failure(SupervisionError),
    /// A configured port became reachable and the child was then terminated
    /// (or had just exited on its own when the signal was sent — a benign
    /// race, equivalent to a delivered signal).
    TerminatedByProbe,
}

/// Mathematical model of an [`ExitOutcome`].
pub ghost enum ModelOutcome {
    Success,
    Failure(ErrorModel),
    TerminatedByProbe,
}

impl View for ExitOutcome {
    type V = ModelOutcome;

    open spec fn view(&self) -> ModelOutcome {
        match self {
            ExitOutcome::Success => ModelOutcome::Success,
            ExitOutcome::Failure(e) => ModelOutcome::Failure(e@),
            ExitOutcome::TerminatedByProbe => ModelOutcome::TerminatedByProbe,
        }
    }
}

/// An outcome that is reported as a completion value rather than an error.
pub open spec fn model_successful(o: ModelOutcome) -> bool {
    !(o is Failure)
}

/// What a blocking wait on the child observed.
pub enum WaitEvent {
    /// The child exited; the payload is whether its exit status was success.
    Exited(bool),
    /// The wait itself failed at the OS level, with this message.
    WaitError(String),
}

/// Mathematical model of a [`WaitEvent`].
pub ghost enum ModelWaitEvent {
    Exited(bool),
    WaitError(Seq<char>),
}

impl View for WaitEvent {
    type V = ModelWaitEvent;

    open spec fn view(&self) -> ModelWaitEvent {
        match self {
            WaitEvent::Exited(s) => ModelWaitEvent::Exited(*s),
            WaitEvent::WaitError(m) => ModelWaitEvent::WaitError(m@),
        }
    }
}

/// How an exit status is classified, shared by both strategies: a success
/// status completes the invocation, any other status is a process failure
/// whose message names the program.
pub open spec fn model_exit_outcome(program: Seq<char>, exit_success: bool) -> ModelOutcome {
    if exit_success {
        ModelOutcome::Success
    } else {
        ModelOutcome::Failure(ErrorModel::ProcessFailure(process_failure_message(program)))
    }
}

/// What the wait-only strategy concludes from its single observation.
pub open spec fn model_wait_outcome(program: Seq<char>, e: ModelWaitEvent) -> ModelOutcome {
    match e {
        ModelWaitEvent::Exited(s) => model_exit_outcome(program, s),
        ModelWaitEvent::WaitError(m) => ModelOutcome::Failure(ErrorModel::Io(m)),
    }
}

/// The wait-only detector: classifies what one blocking wait on the child
/// observed.
pub fn wait_outcome(program: &str, event: WaitEvent) -> (o: ExitOutcome)
    ensures
        o@ == model_wait_outcome(program@, event@),
{
    match event {
        WaitEvent::Exited(true) => ExitOutcome::Success,
        WaitEvent::Exited(false) => ExitOutcome::Failure(process_failure(program)),
        WaitEvent::WaitError(m) => ExitOutcome::Failure(SupervisionError::Io(m)),
    }
}

/// The polling detector's state between two events.
pub enum ProbeState {
    /// The child is assumed to still run; another tick is due after the
    /// polling interval.
    Polling,
    /// A configured port answered: the child must now be sent a termination
    /// signal, and the signal's fate decides the outcome.
    Terminating,
    /// The invocation is over.
    Done(ExitOutcome),
}

/// Mathematical model of a [`ProbeState`].
pub ghost enum ModelProbeState {
    Polling,
    Terminating,
    Done(ModelOutcome),
}

impl View for ProbeState {
    type V = ModelProbeState;

    open spec fn view(&self) -> ModelProbeState {
        match self {
            ProbeState::Polling => ModelProbeState::Polling,
            ProbeState::Terminating => ModelProbeState::Terminating,
            ProbeState::Done(o) => ModelProbeState::Done(o@),
        }
    }
}

/// What one tick of the polling detector observed. The embedding program
/// queries the exit status first; only if the child still runs does it probe
/// the ports, so an `Exited` event never carries port information — within a
/// tick the exit check strictly precedes the port check.
pub enum TickEvent {
    /// Querying the child's status failed at the OS level, with this message.
    StatusError(String),
    /// The child has exited; the payload is whether its exit status was
    /// success.
    Exited(bool),
    /// The child still runs; one flag per configured port, true where a
    /// loopback connection to that port succeeded this tick.
    StillRunning(Vec<bool>),
}

/// Mathematical model of a [`TickEvent`].
pub ghost enum ModelTickEvent {
    StatusError(Seq<char>),
    Exited(bool),
    StillRunning(Seq<bool>),
}

impl View for TickEvent {
    type V = ModelTickEvent;

    open spec fn view(&self) -> ModelTickEvent {
        match self {
            TickEvent::StatusError(m) => ModelTickEvent::StatusError(m@),
            TickEvent::Exited(s) => ModelTickEvent::Exited(*s),
            TickEvent::StillRunning(r) => ModelTickEvent::StillRunning(r@),
        }
    }
}

/// The fate of the termination signal sent from the `Terminating` state.
pub enum KillEvent {
    /// The signal was delivered to the running child.
    Delivered,
    /// The signal was rejected because the child had already exited: the
    /// benign race, recovered as success.
    AlreadyExited,
    /// The signal could not be delivered for any other reason, described by
    /// this message.
    Failed(String),
}

/// Mathematical model of a [`KillEvent`].
pub ghost enum ModelKillEvent {
    Delivered,
    AlreadyExited,
    Failed(Seq<char>),
}

impl View for KillEvent {
    type V = ModelKillEvent;

    open spec fn view(&self) -> ModelKillEvent {
        match self {
            KillEvent::Delivered => ModelKillEvent::Delivered,
            KillEvent::AlreadyExited => ModelKillEvent::AlreadyExited,
            KillEvent::Failed(m) => ModelKillEvent::Failed(m@),
        }
    }
}

/// Whether any configured port answered: one reachable port is sufficient.
pub open spec fn any_ready(ready: Seq<bool>) -> bool {
    exists|i: int| 0 <= i < ready.len() && ready[i]
}

/// What one tick decides. The exit check has priority: an observed exit is
/// finalized exactly as the wait-only strategy would finalize it, and the
/// port signal can never override it. Only a tick that saw the child still
/// running consults the port flags, and a single reachable port moves the
/// detector to the termination step.
pub open spec fn model_tick(program: Seq<char>, e: ModelTickEvent) -> ModelProbeState {
    match e {
        ModelTickEvent::StatusError(m) => ModelProbeState::Done(
            ModelOutcome::Failure(ErrorModel::Io(m)),
        ),
        ModelTickEvent::Exited(s) => ModelProbeState::Done(model_exit_outcome(program, s)),
        ModelTickEvent::StillRunning(ready) => if any_ready(ready) {
            ModelProbeState::Terminating
        } else {
            ModelProbeState::Polling
        },
    }
}

/// What the termination step decides: a delivered signal and the benign
/// already-exited race both complete the invocation; any other delivery
/// failure is fatal, with a message that names the program.
pub open spec fn model_kill_outcome(program: Seq<char>, e: ModelKillEvent) -> ModelOutcome {
    match e {
        ModelKillEvent::Delivered => ModelOutcome::TerminatedByProbe,
        ModelKillEvent::AlreadyExited => ModelOutcome::TerminatedByProbe,
        ModelKillEvent::Failed(d) => ModelOutcome::Failure(
            ErrorModel::Kill(kill_failure_message(program, d)),
        ),
    }
}

/// One loopback probe target: the IPv4 loopback address together with one
/// configured port. The embedding program attempts a TCP connection to each
/// target on every tick that found the child still running.
#[derive(Clone, Copy, PartialEq, Eq, Structural, Debug)]
pub struct ProbeAddr {
    /// First octet of the address; always 127.
    pub ip0: u8,
    /// Second octet of the address; always 0.
    pub ip1: u8,
    /// Third octet of the address; always 0.
    pub ip2: u8,
    /// Fourth octet of the address; always 1.
    pub ip3: u8,
    /// The configured port to probe.
    pub port: u16,
}

/// The loopback probe target for one port.
pub open spec fn loopback(port: u16) -> ProbeAddr {
    ProbeAddr { ip0: 127, ip1: 0, ip2: 0, ip3: 1, port }
}

/// The probe targets of a port list: the loopback address paired with each
/// configured port, in order.
pub fn probe_targets(ports: &Vec<u16>) -> (targets: Vec<ProbeAddr>)
    ensures
        targets@.len() == ports@.len(),
        forall|i: int| 0 <= i < ports@.len() ==> targets@[i] == loopback(ports@[i]),
{
    let mut targets: Vec<ProbeAddr> = Vec::new();
    let mut i: usize = 0;
    while i < ports.len()
        invariant
            i <= ports@.len(),
            targets@.len() == i,
            forall|j: int| 0 <= j < i ==> targets@[j] == loopback(ports@[j]),
        decreases ports@.len() - i,
    {
        targets.push(ProbeAddr { ip0: 127, ip1: 0, ip2: 0, ip3: 1, port: ports[i] });
        i += 1;
    }
    targets
}

/// Whether any of the per-port connection flags is set. One reachable port
/// is sufficient; no flag is required of the others.
pub fn any_port_ready(ready: &Vec<bool>) -> (b: bool)
    ensures
        b == any_ready(ready@),
{
    let mut i: usize = 0;
    while i < ready.len()
        invariant
            i <= ready@.len(),
            forall|j: int| 0 <= j < i ==> !ready@[j],
        decreases ready@.len() - i,
    {
        if ready[i] {
            assert(ready@[i as int]);
            return true;
        }
        i += 1;
    }
    false
}

/// One tick of the polling detector, from the `Polling` state.
pub fn probe_tick(program: &str, event: TickEvent) -> (next: ProbeState)
    ensures
        next@ == model_tick(program@, event@),
{
    match event {
        TickEvent::StatusError(m) => ProbeState::Done(
            ExitOutcome::Failure(SupervisionError::Io(m)),
        ),
        TickEvent::Exited(true) => ProbeState::Done(ExitOutcome::Success),
        TickEvent::Exited(false) => ProbeState::Done(ExitOutcome::Failure(process_failure(program))),
        TickEvent::StillRunning(ready) => {
            if any_port_ready(&ready) {
                ProbeState::Terminating
            } else {
                ProbeState::Polling
            }
        },
    }
}

/// The termination step of the polling detector, from the `Terminating`
/// state: classifies the fate of the termination signal.
pub fn kill_outcome(program: &str, event: KillEvent) -> (o: ExitOutcome)
    ensures
        o@ == model_kill_outcome(program@, event@),
{
    match event {
        KillEvent::Delivered => ExitOutcome::TerminatedByProbe,
        KillEvent::AlreadyExited => ExitOutcome::TerminatedByProbe,
        KillEvent::Failed(detail) => ExitOutcome::Failure(kill_failure(program, detail.as_str())),
    }
}

/// One event of a whole polling run, for reasoning about event sequences.
pub ghost enum ModelEvent {
    Tick(ModelTickEvent),
    Kill(ModelKillEvent),
}

/// The detector's transition relation over whole runs. Tick events apply in
/// `Polling`, the kill event applies in `Terminating`, `Done` is final; an
/// event arriving in a state it does not apply to changes nothing.
pub open spec fn model_step(
    program: Seq<char>,
    s: ModelProbeState,
    e: ModelEvent,
) -> ModelProbeState {
    match s {
        ModelProbeState::Polling => match e {
            ModelEvent::Tick(t) => model_tick(program, t),
            ModelEvent::Kill(_) => s,
        },
        ModelProbeState::Terminating => match e {
            ModelEvent::Kill(k) => ModelProbeState::Done(model_kill_outcome(program, k)),
            ModelEvent::Tick(_) => s,
        },
        ModelProbeState::Done(_) => s,
    }
}

/// The state after a sequence of events, applied in order.
pub open spec fn model_run(
    program: Seq<char>,
    s: ModelProbeState,
    events: Seq<ModelEvent>,
) -> ModelProbeState
    decreases events.len(),
{
    if events.len() == 0 {
        s
    } else {
        model_run(program, model_step(program, s, events[0]), events.subrange(1, events.len() as int))
    }
}

/// A terminal outcome is final: once the detector is `Done`, no later event
/// changes the outcome.
pub proof fn lemma_done_is_final(
    program: Seq<char>,
    o: ModelOutcome,
    events: Seq<ModelEvent>,
)
    ensures
        model_run(program, ModelProbeState::Done(o), events) == ModelProbeState::Done(o),
    decreases events.len(),
{
    if events.len() > 0 {
        lemma_done_is_final(program, o, events.subrange(1, events.len() as int));
    }
}

/// The exit check wins: a tick that observes the child exited finalizes the
/// run exactly as the wait-only strategy would finalize that exit status.
/// A port opening in the same tick is never consulted, so the readiness
/// signal can never mask a genuine crash that races with it.
pub proof fn lemma_exit_status_decides(program: Seq<char>, exit_success: bool)
    ensures
        model_tick(program, ModelTickEvent::Exited(exit_success)) == ModelProbeState::Done(
            model_wait_outcome(program, ModelWaitEvent::Exited(exit_success)),
        ),
{
}

/// One reachable port among the configured ones is sufficient to move the
/// detector to the termination step; nothing is required of the other ports.
pub proof fn lemma_one_port_suffices(program: Seq<char>, ready: Seq<bool>, i: int)
    requires
        0 <= i < ready.len(),
        ready[i],
    ensures
        model_tick(program, ModelTickEvent::StillRunning(ready)) == ModelProbeState::Terminating,
{
}

/// While the child runs and no configured port answers, the detector keeps
/// polling: a refused or timed-out connection is steady state, not an error.
pub proof fn lemma_quiet_tick_keeps_polling(program: Seq<char>, ready: Seq<bool>)
    requires
        forall|i: int| 0 <= i < ready.len() ==> !ready[i],
    ensures
        model_tick(program, ModelTickEvent::StillRunning(ready)) == ModelProbeState::Polling,
{
}

/// Success through the port path always terminates the child: a run that
/// ends in `TerminatedByProbe` contains a kill event, so no child is left
/// running past an invocation completed by port readiness.
pub proof fn lemma_probe_success_implies_kill(
    program: Seq<char>,
    s: ModelProbeState,
    events: Seq<ModelEvent>,
)
    requires
        !(s is Done),
        model_run(program, s, events) == ModelProbeState::Done(ModelOutcome::TerminatedByProbe),
    ensures
        exists|j: int| 0 <= j < events.len() && events[j] is Kill,
    decreases events.len(),
{
    let rest = events.subrange(1, events.len() as int);
    let next = model_step(program, s, events[0]);
    if next is Done {
        lemma_done_is_final(program, next->Done_0, rest);
        assert(next == ModelProbeState::Done(ModelOutcome::TerminatedByProbe));
        assert(s is Terminating && events[0] is Kill);
        assert(events[0 as int] is Kill);
    } else {
        lemma_probe_success_implies_kill(program, next, rest);
        let j = choose|j: int| 0 <= j < rest.len() && rest[j] is Kill;
        assert(events[j + 1] is Kill);
    }
}

/// Every error the detector can report is well formed for the supervised
/// program: a process failure carries exactly the message that names the
/// program, a kill failure names the program and some delivery detail, and
/// the detector never reports a spawn failure.
pub open spec fn outcome_wf(program: Seq<char>, o: ModelOutcome) -> bool {
    match o {
        ModelOutcome::Failure(e) => match e {
            ErrorModel::ProcessFailure(m) => m == process_failure_message(program),
            ErrorModel::Kill(m) => exists|d: Seq<char>| m == kill_failure_message(program, d),
            ErrorModel::Spawn(_) => false,
            ErrorModel::Io(_) => true,
        },
        _ => true,
    }
}

/// Well-formedness of a detector state: a terminal state carries a well
/// formed outcome.
pub open spec fn state_wf(program: Seq<char>, s: ModelProbeState) -> bool {
    match s {
        ModelProbeState::Done(o) => outcome_wf(program, o),
        _ => true,
    }
}

/// One step preserves well-formedness of the state.
pub proof fn lemma_step_preserves_wf(program: Seq<char>, s: ModelProbeState, e: ModelEvent)
    requires
        state_wf(program, s),
    ensures
        state_wf(program, model_step(program, s, e)),
{
    if s is Terminating && e is Kill {
        if e->Kill_0 is Failed {
            let d = e->Kill_0->Failed_0;
            assert(kill_failure_message(program, d) == kill_failure_message(program, d));
        }
    }
}

/// Every outcome reachable over any event sequence is well formed: in
/// particular, whatever the interleaving of ticks and kill results, a
/// process-failure or kill-failure message always names the supervised
/// program.
pub proof fn lemma_run_preserves_wf(
    program: Seq<char>,
    s: ModelProbeState,
    events: Seq<ModelEvent>,
)
    requires
        state_wf(program, s),
    ensures
        state_wf(program, model_run(program, s, events)),
    decreases events.len(),
{
    if events.len() > 0 {
        lemma_step_preserves_wf(program, s, events[0]);
        lemma_run_preserves_wf(
            program,
            model_step(program, s, events[0]),
            events.subrange(1, events.len() as int),
        );
    }
}

} // verus!
