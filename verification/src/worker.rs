//! What a background worker decides at the start of each iteration.
//!
//! The worker itself is a future that somebody else writes and drives. It
//! owns a [`WorkerLink`], asks it for the next step before every unit of
//! work, and sleeps [`WORKER_INTERVAL_MS`] between two iterations.

use crate::flag::FlagReader;
use std::sync::atomic::AtomicBool;
use std::sync::Arc;
use vstd::prelude::*;

verus! {

/// Pause between two iterations of a worker, in milliseconds.
pub const WORKER_INTERVAL_MS: u64 = 100;

/// The two roles a worker can act in.
#[derive(Debug, Clone, Copy, PartialEq, Eq, Structural)]
pub enum Role {
    /// The responding side; the role flag is `false`.
    Slave,
    /// The initiating side; the role flag is `true`.
    Master,
}

impl Role {
    pub open spec fn spec_from_flag(master: bool) -> Role {
        if master {
            Role::Master
        } else {
            Role::Slave
        }
    }

    pub open spec fn spec_as_flag(self) -> bool {
        self == Role::Master
    }

    #[verifier::when_used_as_spec(spec_from_flag)]
    pub fn from_flag(master: bool) -> (role: Role)
        ensures
            role == Role::from_flag(master),
    {
        if master {
            Role::Master
        } else {
            Role::Slave
        }
    }

    #[verifier::when_used_as_spec(spec_as_flag)]
    pub fn as_flag(self) -> (master: bool)
        ensures
            master == self.as_flag(),
    {
        match self {
            Role::Master => true,
            Role::Slave => false,
        }
    }

    /// The word a unit of work is tagged with.
    pub fn label(self) -> (label: &'static str)
        ensures
            self == Role::Master ==> label@ == "master"@,
            self == Role::Slave ==> label@ == "slave"@,
    {
        match self {
            Role::Master => "master",
            Role::Slave => "slave",
        }
    }
}

/// What a worker does next.
#[derive(Debug, Clone, Copy, PartialEq, Eq, Structural)]
pub enum WorkerStep {
    /// Leave the loop: the stop signal is raised.
    Stop,
    /// Do one unit of work in the given role, then pause.
    Run(Role),
}

/// The step that follows from one reading of the two flags: a raised stop
/// signal ends the loop whatever the role, a clear one runs the role that
/// the role flag names.
pub open spec fn spec_worker_step(cancelled: bool, master: bool) -> WorkerStep {
    if cancelled {
        WorkerStep::Stop
    } else {
        WorkerStep::Run(Role::from_flag(master))
    }
}

#[verifier::when_used_as_spec(spec_worker_step)]
pub fn worker_step(cancelled: bool, master: bool) -> (step: WorkerStep)
    ensures
        step == worker_step(cancelled, master),
{
    if cancelled {
        WorkerStep::Stop
    } else {
        WorkerStep::Run(Role::from_flag(master))
    }
}

/// The read-only ends of the stop signal and of the role flag, as handed
/// to a worker when it is created.
#[derive(Debug)]
pub struct WorkerLink {
    cancel: FlagReader,
    role: FlagReader,
}

impl WorkerLink {
    /// The cell that the link loads the stop signal from.
    pub closed spec fn cancel_cell(&self) -> Arc<AtomicBool> {
        self.cancel.cell()
    }

    /// The cell that the link loads the role flag from.
    pub closed spec fn role_cell(&self) -> Arc<AtomicBool> {
        self.role.cell()
    }

    /// A link that reads the stop signal through `cancel` and the role
    /// flag through `role`.
    pub(crate) fn new(cancel: FlagReader, role: FlagReader) -> (link: WorkerLink)
        ensures
            link.cancel_cell() == cancel.cell(),
            link.role_cell() == role.cell(),
    {
        WorkerLink { cancel, role }
    }

    /// Whether the stop signal is raised at this moment.
    pub fn is_cancelled(&self) -> bool {
        self.cancel.get()
    }

    /// The role that the role flag names at this moment.
    pub fn role(&self) -> Role {
        Role::from_flag(self.role.get())
    }

    /// Reads the stop signal, then the role flag, and decides by
    /// [`worker_step`]. Both readings are of this moment only.
    pub fn next_step(&self) -> WorkerStep {
        let cancelled = self.cancel.get();
        let master = self.role.get();
        worker_step(cancelled, master)
    }
}

} // verus!
