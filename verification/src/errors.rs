//! The error taxonomy of the supervisor.
//!
//! Every failure is surfaced unchanged to the caller; none is retried or
//! swallowed. The one recovered condition — a termination signal rejected
//! because the child had already exited — never becomes an error at all (see
//! the detector module).

use vstd::prelude::*;
use vstd::string::StringExecFns;

verus! {

/// Mathematical model of a supervision error: its kind together with the
/// full message text.
pub ghost enum ErrorModel {
    /// The executable could not be found or started. Carries the launcher's
    /// own message, unchanged.
    Spawn(Seq<char>),
    /// Querying or waiting on the child's status failed at the OS level,
    /// unrelated to an ordinary "not yet ready" signal. Carries the OS
    /// message, unchanged.
    Io(Seq<char>),
    /// The child ran and exited with a non-success status. The message names
    /// the program.
    ProcessFailure(Seq<char>),
    /// A termination signal could not be delivered, for a reason other than
    /// "the child had already exited". The message names the program and the
    /// delivery failure.
    Kill(Seq<char>),
}

/// The message text of an error model, whatever its kind.
pub open spec fn model_message(e: ErrorModel) -> Seq<char> {
    match e {
        ErrorModel::Spawn(m) => m,
        ErrorModel::Io(m) => m,
        ErrorModel::ProcessFailure(m) => m,
        ErrorModel::Kill(m) => m,
    }
}

/// The exact message reported when the child exits with a non-success
/// status.
pub open spec fn process_failure_message(program: Seq<char>) -> Seq<char> {
    program + " process failed!"@
}

/// The exact message reported when a termination signal cannot be delivered
/// to a child that has not already exited; `detail` is the OS's own account
/// of the delivery failure.
pub open spec fn kill_failure_message(program: Seq<char>, detail: Seq<char>) -> Seq<char> {
    "Failed to kill "@ + program + ": "@ + detail
}

/// A failure of one supervised invocation.
pub enum SupervisionError {
    /// The executable could not be found or started.
    Spawn(String),
    /// Reading the child's status failed at the OS level.
    Io(String),
    /// The child ran and exited with a non-success status.
    ProcessFailure(String),
    /// A termination signal could not be delivered to a still-running child.
    Kill(String),
}

impl View for SupervisionError {
    type V = ErrorModel;

    open spec fn view(&self) -> ErrorModel {
        match self {
            SupervisionError::Spawn(m) => ErrorModel::Spawn(m@),
            SupervisionError::Io(m) => ErrorModel::Io(m@),
            SupervisionError::ProcessFailure(m) => ErrorModel::ProcessFailure(m@),
            SupervisionError::Kill(m) => ErrorModel::Kill(m@),
        }
    }
}

impl SupervisionError {
    /// The message text carried by this error.
    pub fn message(&self) -> (m: &String)
        ensures
            m@ == model_message(self@),
    {
        match self {
            SupervisionError::Spawn(m) => m,
            SupervisionError::Io(m) => m,
            SupervisionError::ProcessFailure(m) => m,
            SupervisionError::Kill(m) => m,
        }
    }
}

/// Builds the error for a child that exited with a non-success status.
pub fn process_failure(program: &str) -> (e: SupervisionError)
    ensures
        e@ == ErrorModel::ProcessFailure(process_failure_message(program@)),
{
    SupervisionError::ProcessFailure(program.to_owned().concat(" process failed!"))
}

/// Builds the error for a termination signal that could not be delivered.
pub fn kill_failure(program: &str, detail: &str) -> (e: SupervisionError)
    ensures
        e@ == ErrorModel::Kill(kill_failure_message(program@, detail@)),
{
    let mut m = "Failed to kill ".to_owned();
    m.append(program);
    m.append(": ");
    m.append(detail);
    SupervisionError::Kill(m)
}

/// The failure messages name the failed program: the program name is a
/// prefix of a process-failure message, and stands right after the fixed
/// prefix of a kill-failure message, whatever the delivery detail.
pub proof fn lemma_failure_message_names_program(program: Seq<char>)
    ensures
        process_failure_message(program).subrange(0, program.len() as int) == program,
        forall|detail: Seq<char>|
            #[trigger] kill_failure_message(program, detail).subrange(
                15,
                15 + program.len() as int,
            ) == program,
{
    assert(process_failure_message(program).subrange(0, program.len() as int) =~= program);
    reveal_strlit("Failed to kill ");
    assert("Failed to kill "@.len() == 15);
    assert forall|detail: Seq<char>|
        #[trigger] kill_failure_message(program, detail).subrange(
            15,
            15 + program.len() as int,
        ) == program by {
        assert(kill_failure_message(program, detail).subrange(15, 15 + program.len() as int)
            =~= program);
    }
}

} // verus!
