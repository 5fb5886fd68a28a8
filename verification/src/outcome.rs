//! Terminal results of a sandbox run and their classification.
//!
//! The supervisor observes exactly one wait report per child and turns it
//! into either a `SandboxOutcome` (the child terminated on its own terms)
//! or a `SandboxError` (the machinery around the child failed).

use vstd::prelude::*;

verus! {

/// What the process-wait primitive reported about the child, reduced to
/// plain values: the two legitimate terminal states, the three classified
/// wait failures, and the catch-all buckets for anything else.
#[derive(Clone, Copy, Debug, PartialEq, Eq, Structural)]
pub enum WaitReport {
    /// The child exited normally with the given exit code.
    Exited(i32),
    /// The child was killed by the given signal number.
    Signaled(i32),
    /// A stopped/continued style notification; never requested by this
    /// design, so observing one is an invariant violation.
    OtherStatus,
    /// The wait call failed: no such child (stale pid or already reaped).
    NoChild,
    /// The wait call failed: interrupted by a signal.
    Interrupted,
    /// The wait call failed: invalid arguments.
    InvalidArgument,
    /// The wait call failed in a way this design does not anticipate.
    UnknownError,
}

/// Sub-kinds of a failed or impossible wait, all fatal to the invocation.
#[derive(Clone, Copy, Debug, PartialEq, Eq, Structural)]
pub enum WaitErrorKind {
    NoSuchChild,
    Interrupted,
    InvalidArgument,
    OtherUnexpected,
}

/// Which phase of the choreography failed.
#[derive(Clone, Copy, Debug, PartialEq, Eq, Structural)]
pub enum SandboxError {
    /// The kernel clone call could not create the child.
    Clone,
    /// Rendezvous setup or handshake failed.
    Synchronization,
    /// Writing the uid/gid/setgroups mapping failed.
    PrivilegeMapping,
    /// Waiting for the child failed or reported an impossible status.
    Wait(WaitErrorKind),
}

/// How the child terminated: a numeric exit status or an uncaught signal.
#[derive(Clone, Copy, Debug, PartialEq, Eq, Structural)]
pub enum SandboxOutcome {
    /// The child exited normally with this code; code 0 means the work
    /// closure succeeded, any other code means it failed.
    NormalExit(i32),
    /// The child was killed by this signal number.
    Signaled(i32),
}

impl SandboxOutcome {
    /// An outcome counts as success exactly when the child exited with
    /// code 0; every nonzero code and every signal death is a failure.
    pub open spec fn is_success_spec(self) -> bool {
        self == SandboxOutcome::NormalExit(0i32)
    }

    /// Whether the sandbox run as a whole succeeded.
    pub fn is_success(&self) -> (b: bool)
        ensures
            b == self.is_success_spec(),
    {
        match self {
            SandboxOutcome::NormalExit(code) => *code == 0,
            SandboxOutcome::Signaled(_) => false,
        }
    }
}

/// The classification the supervisor applies to the single wait report it
/// observes: normal exits and signal deaths are outcomes, everything else
/// is a fatal wait error of the matching kind.
pub open spec fn classify_wait_spec(w: WaitReport) -> Result<SandboxOutcome, SandboxError> {
    match w {
        WaitReport::Exited(code) => Ok(SandboxOutcome::NormalExit(code)),
        WaitReport::Signaled(signal) => Ok(SandboxOutcome::Signaled(signal)),
        WaitReport::OtherStatus => Err(SandboxError::Wait(WaitErrorKind::OtherUnexpected)),
        WaitReport::NoChild => Err(SandboxError::Wait(WaitErrorKind::NoSuchChild)),
        WaitReport::Interrupted => Err(SandboxError::Wait(WaitErrorKind::Interrupted)),
        WaitReport::InvalidArgument => Err(SandboxError::Wait(WaitErrorKind::InvalidArgument)),
        WaitReport::UnknownError => Err(SandboxError::Wait(WaitErrorKind::OtherUnexpected)),
    }
}

/// Turn the wait report into the supervisor's verdict.
pub fn classify_wait(w: &WaitReport) -> (r: Result<SandboxOutcome, SandboxError>)
    ensures
        r == classify_wait_spec(*w),
        r matches Ok(o) ==> (o is Signaled <==> *w is Signaled),
{
    match w {
        WaitReport::Exited(code) => Ok(SandboxOutcome::NormalExit(*code)),
        WaitReport::Signaled(signal) => Ok(SandboxOutcome::Signaled(*signal)),
        WaitReport::OtherStatus => Err(SandboxError::Wait(WaitErrorKind::OtherUnexpected)),
        WaitReport::NoChild => Err(SandboxError::Wait(WaitErrorKind::NoSuchChild)),
        WaitReport::Interrupted => Err(SandboxError::Wait(WaitErrorKind::Interrupted)),
        WaitReport::InvalidArgument => Err(SandboxError::Wait(WaitErrorKind::InvalidArgument)),
        WaitReport::UnknownError => Err(SandboxError::Wait(WaitErrorKind::OtherUnexpected)),
    }
}

/// The context line attached to each failing phase.
pub open spec fn error_message_spec(e: SandboxError) -> Seq<char> {
    match e {
        SandboxError::Clone => "Error while cloning mzr child with unshared user and mount namespaces."@,
        SandboxError::Synchronization => "Error encountered in interprocess communication mechanism."@,
        SandboxError::PrivilegeMapping => "Error encountered while mapping user to root within the child process user namespace."@,
        SandboxError::Wait(WaitErrorKind::NoSuchChild) => "Failed to find mzr child after fork."@,
        SandboxError::Wait(WaitErrorKind::Interrupted) => "Waiting for mzr child interrupted by signal."@,
        SandboxError::Wait(WaitErrorKind::InvalidArgument) => "Impossible: waitpid was called wrong."@,
        SandboxError::Wait(WaitErrorKind::OtherUnexpected) => "Unexpected result from waiting for mzr child."@,
    }
}

impl SandboxError {
    /// A human-readable line naming the phase that failed.
    pub fn message(&self) -> (s: String)
        ensures
            s@ == error_message_spec(*self),
    {
        match self {
            SandboxError::Clone => "Error while cloning mzr child with unshared user and mount namespaces.".to_owned(),
            SandboxError::Synchronization => "Error encountered in interprocess communication mechanism.".to_owned(),
            SandboxError::PrivilegeMapping => "Error encountered while mapping user to root within the child process user namespace.".to_owned(),
            SandboxError::Wait(WaitErrorKind::NoSuchChild) => "Failed to find mzr child after fork.".to_owned(),
            SandboxError::Wait(WaitErrorKind::Interrupted) => "Waiting for mzr child interrupted by signal.".to_owned(),
            SandboxError::Wait(WaitErrorKind::InvalidArgument) => "Impossible: waitpid was called wrong.".to_owned(),
            SandboxError::Wait(WaitErrorKind::OtherUnexpected) => "Unexpected result from waiting for mzr child.".to_owned(),
        }
    }
}

/// The exit code the child reports for a given fate of the work it ran:
/// 0 for success, 1 for any reported failure.
pub open spec fn child_exit_code_spec(ok: bool) -> i32 {
    if ok {
        0i32
    } else {
        1i32
    }
}

/// Map the work closure's result to the child's process exit code.
pub fn child_exit_code(work_result: &Result<(), String>) -> (code: i32)
    ensures
        code == child_exit_code_spec(work_result is Ok),
{
    match work_result {
        Ok(()) => 0,
        Err(_) => 1,
    }
}

/// Exit-code mapping: the code the child reports for the work's result,
/// classified by the supervisor as a normal exit with that code, is a
/// successful outcome exactly when the work succeeded, and a failed
/// outcome (still a normal exit, never an error) exactly when the work
/// failed.
pub proof fn lemma_exit_code_roundtrip(work_ok: bool)
    ensures
        ({
            let code = child_exit_code_spec(work_ok);
            &&& classify_wait_spec(WaitReport::Exited(code)) == Ok::<
                SandboxOutcome,
                SandboxError,
            >(SandboxOutcome::NormalExit(code))
            &&& (SandboxOutcome::NormalExit(code).is_success_spec() <==> work_ok)
        }),
{
}

} // verus!
