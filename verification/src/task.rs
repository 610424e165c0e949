//! The task manager: owner of the runtime and of at most one worker on it.

use crate::flag::SharedFlag;
use crate::lifecycle::TaskState;
use crate::worker::WorkerLink;
use std::future::Future;
use std::sync::atomic::AtomicBool;
use std::sync::Arc;
use tokio::runtime::Runtime;
use tokio::task::JoinHandle;
use vstd::prelude::*;

verus! {

/// `tokio::runtime::Runtime`, held as a value that nothing here looks into.
#[verifier::external_type_specification]
#[verifier::external_body]
pub struct ExRuntime(tokio::runtime::Runtime);

/// `tokio::task::JoinHandle`, the handle of a spawned task, held as a value
/// that nothing here looks into.
#[verifier::external_type_specification]
#[verifier::external_body]
#[verifier::reject_recursive_types(T)]
pub struct ExJoinHandle<T>(tokio::task::JoinHandle<T>);

/// `tokio::task::JoinError`, what awaiting a `JoinHandle` can end in. It is
/// named here only because the handle's own type mentions it.
#[verifier::external_type_specification]
#[verifier::external_body]
pub struct ExJoinError(tokio::task::JoinError);

/// `std::io::Error`, the error that starting a runtime can end in. Only
/// its presence is ever looked at.
#[verifier::external_type_specification]
#[verifier::external_body]
pub struct ExIoError(std::io::Error);

/// `Runtime::spawn` hands a future to the runtime and returns the handle of
/// the task made for it. Nothing is claimed about the handle.
pub assume_specification<F>[ tokio::runtime::Runtime::spawn::<F> ](
    runtime: &tokio::runtime::Runtime,
    future: F,
) -> tokio::task::JoinHandle<F::Output> where
    F: Future + Send + 'static,
    F::Output: Send + 'static,
;

/// `JoinHandle::abort` asks the runtime to cancel the task and returns at
/// once, without waiting for the task to end.
pub assume_specification<T>[ tokio::task::JoinHandle::<T>::abort ](
    handle: &tokio::task::JoinHandle<T>,
);

/// Why a task manager could not be made.
#[derive(Debug, Clone, Copy, PartialEq, Eq, Structural)]
pub enum TaskError {
    /// The runtime that workers run on could not be started.
    RuntimeUnavailable,
}

/// Starts, stops and restarts the one background worker.
///
/// The manager lives as long as the application. Workers come and go on
/// its runtime; at most one of them is tracked at a time, and a tracked
/// worker always runs on a stop signal that is clear.
pub struct TaskManager {
    cancel_flag: SharedFlag,
    handle_type: SharedFlag,
    task_handle: Option<JoinHandle<()>>,
    runtime: Runtime,
    spawned: Ghost<nat>,
    stopped: Ghost<nat>,
    started_as: Ghost<bool>,
}

impl View for TaskManager {
    type V = TaskState;

    closed spec fn view(&self) -> TaskState {
        TaskState {
            has_task: self.task_handle is Some,
            cancel_raised: self.cancel_flag.value(),
            handle_type: self.handle_type.value(),
            spawned: self.spawned@,
            stopped: self.stopped@,
            started_as: self.started_as@,
        }
    }
}

impl TaskManager {
    /// The cell of the role flag. It is made with the manager and stays
    /// with it, so every worker reads the role from the same place.
    pub closed spec fn role_cell(&self) -> Arc<AtomicBool> {
        self.handle_type.cell()
    }

    /// The cell of the current stop signal. Starting a worker puts a new
    /// cell in its place; nothing else does.
    pub closed spec fn cancel_cell(&self) -> Arc<AtomicBool> {
        self.cancel_flag.cell()
    }

    /// `worker` made a future from a link that reads the role flag and the
    /// current stop signal of this manager.
    pub open spec fn gave_link<W, F>(&self, worker: W) -> bool where W: FnOnce(WorkerLink) -> F {
        exists|link: WorkerLink, future: F|
            #[trigger] worker.ensures((link,), future) && link.role_cell() == self.role_cell()
                && link.cancel_cell() == self.cancel_cell()
    }

    /// A manager on the given runtime. It tracks no worker and has the
    /// slave role selected.
    ///
    /// Starting the runtime is left to the caller: how many threads it
    /// gets, and what happens where the machine refuses them, is the
    /// caller's to settle before a manager exists.
    pub fn new(runtime: Runtime) -> (manager: TaskManager)
        ensures
            manager@ == TaskState::initial(),
    {
        TaskManager {
            cancel_flag: SharedFlag::new(false),
            handle_type: SharedFlag::new(false),
            task_handle: None,
            runtime,
            spawned: Ghost(0),
            stopped: Ghost(0),
            started_as: Ghost(false),
        }
    }

    /// A manager on the runtime that an attempt to start one gave, or the
    /// error for an attempt that failed.
    pub fn from_runtime(runtime: Result<Runtime, std::io::Error>) -> (made: Result<
        TaskManager,
        TaskError,
    >)
        ensures
            runtime is Ok <==> made is Ok,
            made matches Ok(manager) ==> manager@ == TaskState::initial(),
            made matches Err(error) ==> error == TaskError::RuntimeUnavailable,
    {
        match runtime {
            Ok(runtime) => Ok(TaskManager::new(runtime)),
            Err(_) => Err(TaskError::RuntimeUnavailable),
        }
    }

    /// Starts a worker unless one is tracked already.
    ///
    /// `worker` turns the link it is given into the future to run. The
    /// link reads the role flag of this manager and a stop signal made for
    /// this worker alone, so nothing an earlier worker was told can reach
    /// the new one. With a worker tracked already, `worker` is dropped
    /// unused and both cells stay.
    pub fn create_task<W, F>(&mut self, worker: W) where
        W: FnOnce(WorkerLink) -> F,
        F: Future<Output = ()> + Send + 'static,

        requires
            forall|link: WorkerLink| worker.requires((link,)),
        ensures
            final(self)@ == old(self)@.create(),
            final(self).role_cell() == old(self).role_cell(),
            old(self)@.has_task ==> final(self).cancel_cell() == old(self).cancel_cell(),
            !old(self)@.has_task ==> final(self).gave_link(worker),
    {
        if self.task_handle.is_none() {
            self.cancel_flag = SharedFlag::new(false);
            let link = WorkerLink::new(self.cancel_flag.reader(), self.handle_type.reader());
            let ghost given = link;
            let future = worker(link);
            let ghost made = future;
            let handle = self.runtime.spawn(future);
            self.spawned = Ghost((self.spawned@ + 1) as nat);
            self.started_as = Ghost(self.handle_type.value());
            self.task_handle = Some(handle);
            assert(worker.ensures((given,), made));
        }
    }

    /// Stops the tracked worker, if there is one: raises its stop signal,
    /// aborts its task without waiting for it, and forgets it. The signal
    /// raised is the one the worker was started on.
    pub fn delete_task(&mut self)
        ensures
            final(self)@ == old(self)@.delete(),
            final(self).role_cell() == old(self).role_cell(),
            final(self).cancel_cell() == old(self).cancel_cell(),
    {
        if let Some(handle) = self.task_handle.take() {
            self.cancel_flag.set(true);
            handle.abort();
            self.stopped = Ghost((self.stopped@ + 1) as nat);
        }
    }

    /// Stops the tracked worker, if any, and starts a new one on a signal
    /// of its own.
    pub fn recreate_task<W, F>(&mut self, worker: W) where
        W: FnOnce(WorkerLink) -> F,
        F: Future<Output = ()> + Send + 'static,

        requires
            forall|link: WorkerLink| worker.requires((link,)),
        ensures
            final(self)@ == old(self)@.recreate(),
            final(self).role_cell() == old(self).role_cell(),
            final(self).gave_link(worker),
    {
        self.delete_task();
        self.create_task(worker);
    }

    /// Selects the role: `true` for master, `false` for slave. A running
    /// worker is left alone and picks the role up at its next iteration:
    /// the value goes into the cell that its link reads.
    pub fn set_handle_type(&mut self, value: bool)
        ensures
            final(self)@ == old(self)@.set_handle_type(value),
            final(self).role_cell() == old(self).role_cell(),
            final(self).cancel_cell() == old(self).cancel_cell(),
    {
        self.handle_type.set(value);
    }

    pub fn get_handle_type(&self) -> (value: bool)
        ensures
            value == self@.handle_type,
    {
        self.handle_type.get()
    }

    pub fn has_task(&self) -> (present: bool)
        ensures
            present == self@.has_task,
    {
        self.task_handle.is_some()
    }
}

} // verus!
