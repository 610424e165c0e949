//! The life of the background worker as a state machine over plain values.
//!
//! [`TaskState`] is what a task manager looks like from outside: whether a
//! worker is tracked, whether the current stop signal is raised, which role
//! is selected, how many workers were ever started and stopped, and in
//! which role the last one was started. The transitions below are the
//! meaning of the manager's operations; the lemmas at the end are what
//! holds of every sequence of them.

use crate::worker::spec_worker_step;
use crate::worker::Role;
use crate::worker::WorkerStep;
use vstd::prelude::*;

verus! {

/// Abstract state of a task manager.
pub struct TaskState {
    /// A worker is tracked.
    pub has_task: bool,
    /// The current stop signal is raised.
    pub cancel_raised: bool,
    /// The role flag: `true` selects the master role.
    pub handle_type: bool,
    /// Workers handed to the runtime so far.
    pub spawned: nat,
    /// Workers signalled to stop and aborted so far.
    pub stopped: nat,
    /// The role flag as it stood when the last worker was started: the
    /// role of that worker's first iteration.
    pub started_as: bool,
}

/// Where the worker stands, seen from its manager.
pub enum Phase {
    /// No worker is tracked.
    Idle,
    /// A worker is tracked and its stop signal is clear.
    Running,
    /// A worker is tracked and its stop signal is raised. A manager passes
    /// through this phase inside a delete and is never left in it.
    Stopping,
}

/// The three operations that start or stop a worker.
pub enum LifecycleOp {
    Create,
    Delete,
    Recreate,
}

impl TaskState {
    /// A fresh manager: no worker, a clear signal, the slave role.
    pub open spec fn initial() -> TaskState {
        TaskState {
            has_task: false,
            cancel_raised: false,
            handle_type: false,
            spawned: 0,
            stopped: 0,
            started_as: false,
        }
    }

    /// Workers that were started and not yet stopped.
    pub open spec fn live(self) -> int {
        self.spawned - self.stopped
    }

    /// A tracked worker runs on a clear signal, and the tracked worker is
    /// the only one alive.
    pub open spec fn wf(self) -> bool {
        &&& self.has_task ==> !self.cancel_raised
        &&& self.live() == if self.has_task { 1int } else { 0int }
    }

    pub open spec fn phase(self) -> Phase {
        if !self.has_task {
            Phase::Idle
        } else if self.cancel_raised {
            Phase::Stopping
        } else {
            Phase::Running
        }
    }

    /// Starting a worker. With one already tracked nothing happens;
    /// otherwise the worker starts on a new, clear signal, in the role
    /// selected at that moment.
    pub open spec fn create(self) -> TaskState {
        if self.has_task {
            self
        } else {
            TaskState {
                has_task: true,
                cancel_raised: false,
                spawned: self.spawned + 1,
                started_as: self.handle_type,
                ..self
            }
        }
    }

    /// Stopping the worker. With none tracked nothing happens; otherwise
    /// the signal is raised and the worker is no longer tracked.
    pub open spec fn delete(self) -> TaskState {
        if self.has_task {
            TaskState { has_task: false, cancel_raised: true, stopped: self.stopped + 1, ..self }
        } else {
            self
        }
    }

    /// Stopping the worker, if any, and starting a new one.
    pub open spec fn recreate(self) -> TaskState {
        self.delete().create()
    }

    /// Selecting a role. Neither the worker nor its signal is touched, and
    /// the role a worker was started in is history that stays.
    pub open spec fn set_handle_type(self, value: bool) -> TaskState {
        TaskState { handle_type: value, ..self }
    }

    pub open spec fn apply(self, op: LifecycleOp) -> TaskState {
        match op {
            LifecycleOp::Create => self.create(),
            LifecycleOp::Delete => self.delete(),
            LifecycleOp::Recreate => self.recreate(),
        }
    }

    /// The state after the operations of `ops`, first to last.
    pub open spec fn run(self, ops: Seq<LifecycleOp>) -> TaskState
        decreases ops.len(),
    {
        if ops.len() == 0 {
            self
        } else {
            self.run(ops.drop_last()).apply(ops.last())
        }
    }

    /// What a worker decides if its iteration begins in this state.
    pub open spec fn observed_step(self) -> WorkerStep {
        spec_worker_step(self.cancel_raised, self.handle_type)
    }
}

/// A fresh manager is well formed, and every operation keeps a manager so.
pub proof fn lemma_wf_preserved(s: TaskState, op: LifecycleOp, value: bool)
    requires
        s.wf(),
    ensures
        TaskState::initial().wf(),
        s.apply(op).wf(),
        s.set_handle_type(value).wf(),
{
}

/// Between two operations a manager is idle or running. From idle, create
/// and recreate lead to running and delete stays idle. From running,
/// create keeps the worker that runs, delete leads to idle, and recreate
/// leads to running again with another worker in place of the stopped one.
pub proof fn lemma_phase_transitions(s: TaskState)
    requires
        s.wf(),
    ensures
        s.phase() == Phase::Idle || s.phase() == Phase::Running,
        s.delete().phase() == Phase::Idle,
        s.create().phase() == Phase::Running,
        s.recreate().phase() == Phase::Running,
        s.phase() == Phase::Idle ==> s.delete() == s,
        s.phase() == Phase::Idle ==> s.create().spawned == s.spawned + 1,
        s.phase() == Phase::Idle ==> s.recreate() == s.create(),
        s.phase() == Phase::Running ==> s.create() == s,
        s.phase() == Phase::Running ==> s.delete().stopped == s.stopped + 1,
        s.phase() == Phase::Running ==> s.recreate().spawned == s.spawned + 1,
        s.phase() == Phase::Running ==> s.recreate().stopped == s.stopped + 1,
{
}

/// At any time, at most one worker is alive, and it is the tracked one.
pub proof fn lemma_at_most_one_worker(s: TaskState, ops: Seq<LifecycleOp>)
    requires
        s.wf(),
    ensures
        s.run(ops).wf(),
        s.run(ops).live() == 0 || s.run(ops).live() == 1,
        s.run(ops).has_task <==> s.run(ops).live() == 1,
    decreases ops.len(),
{
    if ops.len() > 0 {
        lemma_at_most_one_worker(s, ops.drop_last());
    }
}

/// After any non-empty sequence of operations a worker is tracked exactly
/// if the last operation was a create or a recreate. The role is the one
/// the sequence started with.
pub proof fn lemma_tracked_iff_last_starts(s: TaskState, ops: Seq<LifecycleOp>)
    ensures
        ops.len() > 0 ==> (s.run(ops).has_task <==> ops.last() != LifecycleOp::Delete),
        ops.len() == 0 ==> s.run(ops) == s,
        s.run(ops).handle_type == s.handle_type,
    decreases ops.len(),
{
    if ops.len() > 0 {
        lemma_tracked_iff_last_starts(s, ops.drop_last());
    }
}

/// Deleting twice is deleting once: the second call finds nothing to stop.
pub proof fn lemma_delete_idempotent(s: TaskState)
    ensures
        !s.delete().has_task,
        s.delete().delete() == s.delete(),
{
}

/// Creating twice is creating once: the second call starts nothing, so
/// exactly one worker is tracked and alive.
pub proof fn lemma_create_idempotent(s: TaskState)
    requires
        s.wf(),
    ensures
        s.create().has_task,
        s.create().create() == s.create(),
        s.create().live() == 1,
{
}

/// A role selected before an iteration begins is the role that iteration
/// runs in, as long as the worker has not been told to stop.
pub proof fn lemma_role_visible(s: TaskState, value: bool)
    requires
        s.wf(),
        s.has_task,
    ensures
        s.set_handle_type(value).observed_step() == WorkerStep::Run(Role::spec_from_flag(value)),
        s.set_handle_type(value).has_task,
{
}

/// A recreated worker starts on a clear signal: its first iteration runs,
/// in the selected role, whatever the state before.
pub proof fn lemma_recreate_starts_clear(s: TaskState)
    ensures
        s.recreate().has_task,
        !s.recreate().cancel_raised,
        s.recreate().observed_step() == WorkerStep::Run(Role::spec_from_flag(s.handle_type)),
        s.recreate().handle_type == s.handle_type,
        s.recreate().started_as == s.handle_type,
{
}

/// A worker starts in the role that was selected before it was started: a
/// role selected first and a worker created second gives a worker that
/// never ran in another role, while a role selected after the start leaves
/// the record of the start as it was.
pub proof fn lemma_started_in_selected_role(s: TaskState, value: bool)
    requires
        !s.has_task,
    ensures
        s.create().started_as == s.handle_type,
        s.set_handle_type(value).create().started_as == value,
        s.create().set_handle_type(value).started_as == s.handle_type,
{
}

/// A created worker starts on a clear signal as well, also right after a
/// delete has raised the old one.
pub proof fn lemma_create_starts_clear(s: TaskState)
    requires
        s.wf(),
    ensures
        s.create().observed_step() == WorkerStep::Run(Role::spec_from_flag(s.handle_type)),
        s.delete().create().observed_step() == WorkerStep::Run(Role::spec_from_flag(s.handle_type)),
{
}

} // verus!
