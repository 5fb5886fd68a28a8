//! The cross-process choreography as an abstract protocol, with proofs of
//! the two guarantees the design exists to enforce.
//!
//! A run of the sandbox is a sequence of steps taken jointly by parent
//! and child. Each step has an enabling condition that the implementation
//! realizes by construction: the parent writes the mapping only after the
//! clone returned (it needs the pid) and sends the ready message only
//! after the mapping writes finished (program order in the supervisor,
//! over a one-shot server its one accept consumes); the child receives
//! only what was sent, at most once (its receiver is dropped after the
//! one receive), and begins the work only after the receive returned.

use vstd::prelude::*;

verus! {

/// One step of a sandbox run.
#[derive(Clone, Copy, Debug, PartialEq, Eq, Structural)]
pub enum ProtocolStep {
    /// The clone call returns in the parent; the child exists.
    CloneChild,
    /// The parent commits the uid/gid mapping for the child.
    WriteMapping,
    /// The parent sends the one ready message.
    SendReady,
    /// The child receives the one ready message.
    RecvReady,
    /// The child starts running the caller's work.
    BeginWork,
}

/// What has happened so far in a run. Every field moves from false to
/// true at most once; nothing is ever undone.
#[derive(Clone, Copy, Debug, PartialEq, Eq, Structural)]
pub struct ProtocolState {
    pub cloned: bool,
    pub mapping_written: bool,
    pub ready_sent: bool,
    pub ready_received: bool,
    pub work_begun: bool,
}

/// Before the clone, nothing has happened.
pub open spec fn protocol_init() -> ProtocolState {
    ProtocolState {
        cloned: false,
        mapping_written: false,
        ready_sent: false,
        ready_received: false,
        work_begun: false,
    }
}

/// When a step may be taken: each one presupposes the step it is ordered
/// after, and none can repeat.
pub open spec fn step_allowed(s: ProtocolState, step: ProtocolStep) -> bool {
    match step {
        ProtocolStep::CloneChild => !s.cloned,
        ProtocolStep::WriteMapping => s.cloned && !s.mapping_written,
        ProtocolStep::SendReady => s.mapping_written && !s.ready_sent,
        ProtocolStep::RecvReady => s.ready_sent && !s.ready_received,
        ProtocolStep::BeginWork => s.ready_received && !s.work_begun,
    }
}

/// The effect of a step: it records that the step has happened and
/// changes nothing else.
pub open spec fn step_result(s: ProtocolState, step: ProtocolStep) -> ProtocolState {
    match step {
        ProtocolStep::CloneChild => ProtocolState { cloned: true, ..s },
        ProtocolStep::WriteMapping => ProtocolState { mapping_written: true, ..s },
        ProtocolStep::SendReady => ProtocolState { ready_sent: true, ..s },
        ProtocolStep::RecvReady => ProtocolState { ready_received: true, ..s },
        ProtocolStep::BeginWork => ProtocolState { work_begun: true, ..s },
    }
}

/// Run the protocol from a state through a sequence of steps; None if
/// some step was taken when it was not allowed.
pub open spec fn run_from(s: ProtocolState, steps: Seq<ProtocolStep>) -> Option<ProtocolState>
    decreases steps.len(),
{
    if steps.len() == 0 {
        Some(s)
    } else if step_allowed(s, steps[0]) {
        run_from(step_result(s, steps[0]), steps.drop_first())
    } else {
        None
    }
}

/// The ordering invariant: each recorded fact implies the fact it is
/// ordered after, all the way back to the clone.
pub open spec fn protocol_inv(s: ProtocolState) -> bool {
    &&& s.work_begun ==> s.ready_received
    &&& s.ready_received ==> s.ready_sent
    &&& s.ready_sent ==> s.mapping_written
    &&& s.mapping_written ==> s.cloned
}

proof fn lemma_step_preserves_inv(s: ProtocolState, step: ProtocolStep)
    requires
        protocol_inv(s),
        step_allowed(s, step),
    ensures
        protocol_inv(step_result(s, step)),
{
}

proof fn lemma_run_preserves_inv(s: ProtocolState, steps: Seq<ProtocolStep>)
    requires
        protocol_inv(s),
        run_from(s, steps) is Some,
    ensures
        protocol_inv(run_from(s, steps)->Some_0),
    decreases steps.len(),
{
    if steps.len() > 0 {
        lemma_step_preserves_inv(s, steps[0]);
        lemma_run_preserves_inv(step_result(s, steps[0]), steps.drop_first());
    }
}

/// Mapping-before-work: in every run of the protocol from its initial
/// state, if the caller's work has begun then the uid/gid mapping was
/// committed beforehand (and the ready message was sent and received in
/// between). The work can therefore never observe the namespaces without
/// the mapping.
pub proof fn lemma_mapping_precedes_work(steps: Seq<ProtocolStep>, s: ProtocolState)
    requires
        run_from(protocol_init(), steps) == Some(s),
        s.work_begun,
    ensures
        s.mapping_written,
        s.ready_sent,
        s.ready_received,
        s.cloned,
{
    lemma_run_preserves_inv(protocol_init(), steps);
}

/// How many times a run takes the given step.
pub open spec fn step_count(steps: Seq<ProtocolStep>, step: ProtocolStep) -> int
    decreases steps.len(),
{
    if steps.len() == 0 {
        0
    } else {
        (if steps[0] == step {
            1int
        } else {
            0int
        }) + step_count(steps.drop_first(), step)
    }
}

/// Whether the state records the given step as having happened.
pub open spec fn step_recorded(s: ProtocolState, step: ProtocolStep) -> bool {
    match step {
        ProtocolStep::CloneChild => s.cloned,
        ProtocolStep::WriteMapping => s.mapping_written,
        ProtocolStep::SendReady => s.ready_sent,
        ProtocolStep::RecvReady => s.ready_received,
        ProtocolStep::BeginWork => s.work_begun,
    }
}

proof fn lemma_step_count_from(
    s0: ProtocolState,
    steps: Seq<ProtocolStep>,
    s: ProtocolState,
    step: ProtocolStep,
)
    requires
        run_from(s0, steps) == Some(s),
    ensures
        step_recorded(s0, step) ==> step_count(steps, step) == 0 && step_recorded(s, step),
        !step_recorded(s0, step) ==> step_count(steps, step) == (if step_recorded(s, step) {
            1int
        } else {
            0int
        }),
    decreases steps.len(),
{
    if steps.len() > 0 {
        lemma_step_count_from(step_result(s0, steps[0]), steps.drop_first(), s, step);
    }
}

/// No step of a run repeats: each step is taken exactly once in the runs
/// whose final state records it, and never otherwise. In particular the
/// mapping is written at most once per child, and the ready message is
/// sent, and received, at most once per run.
pub proof fn lemma_each_step_at_most_once(
    steps: Seq<ProtocolStep>,
    s: ProtocolState,
    step: ProtocolStep,
)
    requires
        run_from(protocol_init(), steps) == Some(s),
    ensures
        step_count(steps, step) == (if step_recorded(s, step) {
            1int
        } else {
            0int
        }),
{
    lemma_step_count_from(protocol_init(), steps, s, step);
}

/// Exactly-once rendezvous: in every run of the protocol from its initial
/// state, the ready message is received at most once, and exactly once in
/// the runs in which the work ran. A second receive is never an allowed
/// step.
pub proof fn lemma_ready_received_exactly_once(steps: Seq<ProtocolStep>, s: ProtocolState)
    requires
        run_from(protocol_init(), steps) == Some(s),
    ensures
        step_count(steps, ProtocolStep::RecvReady) == (if s.ready_received {
            1int
        } else {
            0int
        }),
        s.work_begun ==> step_count(steps, ProtocolStep::RecvReady) == 1,
{
    lemma_each_step_at_most_once(steps, s, ProtocolStep::RecvReady);
    if s.work_begun {
        lemma_mapping_precedes_work(steps, s);
    }
}

} // verus!
