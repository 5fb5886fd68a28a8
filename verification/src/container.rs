//! The namespace sandbox: clone a child into fresh user and mount
//! namespaces, map the invoking user to root in there, release the child
//! through the rendezvous, and supervise its exit.
//!
//! The choreography is the point: the mapping is written after the clone
//! returns and strictly before the ready message is sent, and the child
//! runs the caller's work only after it has received that message, so the
//! work always observes the committed mapping. The protocol module states
//! and proves this ordering over the abstract protocol.

use std::io::Write;

use vstd::prelude::*;

use crate::outcome::child_exit_code;
use crate::outcome::classify_wait;
use crate::outcome::classify_wait_spec;
use crate::outcome::SandboxError;
use crate::outcome::SandboxOutcome;
use crate::outcome::WaitReport;

verus! {

/// Size of the private stack region handed to the kernel for the child.
/// Sized generously: namespace-entry paths are shallow, but the injected
/// work must be assumed to use an ordinary amount of stack.
pub const CHILD_STACK_SIZE: usize = 1024 * 1024;

/// A child created by the clone call and not yet reaped. The handle owns
/// the stack region the kernel uses as the child's call stack, so the
/// region cannot be freed or reused before the child is reaped, and it is
/// consumed by the wait, so exactly one reap occurs per created child.
pub struct ChildProcess {
    pid: i32,
    #[allow(dead_code)]
    stack: Vec<u8>,
}

impl ChildProcess {
    /// The child's process id.
    pub closed spec fn pid_spec(&self) -> int {
        self.pid as int
    }

    /// A handle is only ever built from a successful clone, whose pid is
    /// positive.
    pub closed spec fn wf(&self) -> bool {
        self.pid > 0
    }

    /// The child's process id, as the wait call and the mapping need it.
    pub fn pid(&self) -> (p: i32)
        requires
            self.wf(),
        ensures
            p == self.pid_spec(),
            p > 0,
    {
        self.pid
    }
}

/// Relies on the writeln macro: prints the child's diagnostic line to
/// standard output before the child exits with a failure code.
#[verifier::external_body]
fn print_child_error(message: &String) {
    let _ = writeln!(std::io::stdout(), "\nmzr child error: {}", message);
}

/// What the child does once it exists: block on the rendezvous for the
/// one ready message, then run the caller's work, and reduce the result
/// to the process exit code (0 for success, 1 for any failure, each
/// failure printed first). The slot carries the rendezvous name and the
/// work across the clone boundary; the code returned here becomes the
/// child's exit status, so control never returns to the caller's frame.
fn child_entry<F: FnOnce() -> Result<(), String>>(slot: &mut Option<(String, F)>) -> (code: i32)
    requires
        (*old(slot)) matches Some(p) ==> call_requires(p.1, ()),
    ensures
        code == 0 || code == 1,
{
    match slot.take() {
        None => 1,
        Some((parent_name, work)) => {
            match crate::rendezvous::recv_ready(&parent_name) {
                Err(e) => {
                    print_child_error(&e.message());
                    1
                },
                Ok(()) => {
                    let result = work();
                    match &result {
                        Err(message) => print_child_error(message),
                        Ok(_) => {},
                    }
                    child_exit_code(&result)
                },
            }
        },
    }
}

/// Relies on nix::sched::clone with CLONE_NEWNS | CLONE_NEWUSER and
/// SIGCHLD as the termination signal (so the wait call can find the
/// child): creates one child process that runs the entry callback on the
/// provided stack in fresh user and mount namespaces; per clone(2) the
/// parent receives the child's pid, which is positive, or an error with
/// no child created.
/// The stack buffer moves into the returned handle so that it outlives
/// the child.
#[verifier::external_body]
fn clone_into_new_namespaces<F: FnOnce() -> Result<(), String>>(
    parent_name: &String,
    work: F,
) -> (r: Result<ChildProcess, ()>)
    requires
        call_requires(work, ()),
    ensures
        r matches Ok(c) ==> c.wf(),
{
    let mut stack: Vec<u8> = vec![0u8; CHILD_STACK_SIZE];
    let mut slot = Some((parent_name.clone(), work));
    let cloned = nix::sched::clone(
        Box::new(|| child_entry(&mut slot) as isize),
        stack.as_mut_slice(),
        nix::sched::CloneFlags::CLONE_NEWNS | nix::sched::CloneFlags::CLONE_NEWUSER,
        Some(nix::sys::signal::Signal::SIGCHLD as i32),
    );
    match cloned {
        Ok(pid) => Ok(ChildProcess { pid: pid.as_raw(), stack }),
        Err(_) => Err(()),
    }
}

/// Relies on nix::sys::wait::waitpid, called with no options: blocks
/// until the child terminates and reports either a normal exit with its
/// code or a signal death with its signal number. Statuses that waitpid
/// only reports under options this design never passes surface as
/// OtherStatus; failures are told apart by errno as waitpid(2) defines
/// them. Consuming the handle makes this the child's one reap.
#[verifier::external_body]
fn wait_for_child(child: ChildProcess) -> (w: WaitReport)
{
    match nix::sys::wait::waitpid(nix::unistd::Pid::from_raw(child.pid), None) {
        Ok(nix::sys::wait::WaitStatus::Exited(_, code)) => WaitReport::Exited(code),
        Ok(nix::sys::wait::WaitStatus::Signaled(_, signal, _)) => WaitReport::Signaled(
            signal as i32,
        ),
        Ok(_) => WaitReport::OtherStatus,
        Err(nix::errno::Errno::ECHILD) => WaitReport::NoChild,
        Err(nix::errno::Errno::EINTR) => WaitReport::Interrupted,
        Err(nix::errno::Errno::EINVAL) => WaitReport::InvalidArgument,
        Err(_) => WaitReport::UnknownError,
    }
}

/// Run the given fallible work inside a child process that holds fresh,
/// rootless user and mount namespaces.
///
/// The sequence is: create the rendezvous endpoint, clone the child,
/// write the uid/gid mapping for it, release it with the one ready
/// message, then wait for it and classify how it ended. A failure in any
/// phase is returned as that phase's error; a child that terminated on
/// its own terms is an outcome, successful exactly when its exit code
/// was 0.
pub fn with_unshared_user_and_mount<F: FnOnce() -> Result<(), String>>(child_fn: F) -> (r: Result<
    SandboxOutcome,
    SandboxError,
>)
    requires
        call_requires(child_fn, ()),
    ensures
        r matches Ok(o) ==> exists|w: WaitReport|
            classify_wait_spec(w) == Ok::<SandboxOutcome, SandboxError>(o),
        r matches Err(e) ==> (e is Wait ==> exists|w: WaitReport|
            classify_wait_spec(w) == Err::<SandboxOutcome, SandboxError>(e)),
{
    let (server, parent_name) = match crate::rendezvous::init_ipc() {
        Ok(pair) => pair,
        Err(e) => {
            return Err(e);
        },
    };
    let child = match clone_into_new_namespaces(&parent_name, child_fn) {
        Ok(c) => c,
        Err(()) => {
            return Err(SandboxError::Clone);
        },
    };
    match crate::mapping::map_user_to_root(child.pid()) {
        Ok(()) => {},
        Err(e) => {
            return Err(e);
        },
    }
    match crate::rendezvous::send_ready(server) {
        Ok(()) => {},
        Err(e) => {
            return Err(e);
        },
    }
    // No delay is needed between the release and the wait: the wait call
    // itself blocks until the child terminates, however the two processes
    // are scheduled.
    let report = wait_for_child(child);
    let verdict = classify_wait(&report);
    proof {
        assert(classify_wait_spec(report) == verdict);
    }
    verdict
}

} // verus!
