//! A boolean that one owner writes and any number of background readers poll.
//!
//! The owner keeps the value it last wrote beside the shared cell, so what
//! the owner reads back never depends on another thread. A reader only ever
//! loads the cell; what it sees is the owner's latest store or an earlier
//! one, and nothing is claimed about which.

use std::sync::atomic::AtomicBool;
use std::sync::atomic::Ordering;
use std::sync::Arc;
use vstd::prelude::*;

verus! {

/// `Arc::clone`: another handle to the same allocation, so what the new
/// handle points to is what the given one points to.
#[verifier::external_body]
pub(crate) fn share<T>(cell: &Arc<T>) -> (shared: Arc<T>)
    ensures
        shared == *cell,
{
    Arc::clone(cell)
}

/// The writing end of a shared flag.
#[derive(Debug)]
pub struct SharedFlag {
    cell: Arc<AtomicBool>,
    value: bool,
}

/// A read-only handle to a [`SharedFlag`], fit to be moved into a task.
#[derive(Debug)]
pub struct FlagReader {
    cell: Arc<AtomicBool>,
}

impl SharedFlag {
    /// The value last written through this handle.
    pub closed spec fn value(&self) -> bool {
        self.value
    }

    /// The cell that this handle writes and its readers load.
    pub closed spec fn cell(&self) -> Arc<AtomicBool> {
        self.cell
    }

    /// A new cell, shared with nobody yet, holding `value`.
    pub fn new(value: bool) -> (flag: SharedFlag)
        ensures
            flag.value() == value,
    {
        SharedFlag { cell: Arc::new(AtomicBool::new(value)), value }
    }

    /// Publishes `value` to every reader and records it. The cell stays
    /// the same, so readers made before the call go on reading this flag.
    pub fn set(&mut self, value: bool)
        ensures
            final(self).value() == value,
            final(self).cell() == old(self).cell(),
    {
        self.cell.store(value, Ordering::Relaxed);
        self.value = value;
    }

    pub fn get(&self) -> (value: bool)
        ensures
            value == self.value(),
    {
        self.value
    }

    /// A handle through which the cell of this flag can be read but not
    /// written.
    pub fn reader(&self) -> (reader: FlagReader)
        ensures
            reader.cell() == self.cell(),
    {
        FlagReader { cell: share(&self.cell) }
    }
}

impl FlagReader {
    /// The cell that this handle loads.
    pub closed spec fn cell(&self) -> Arc<AtomicBool> {
        self.cell
    }

    /// Loads the cell. The result is whatever the owner had published when
    /// the load happened, so no contract ties it to a particular write.
    pub fn get(&self) -> bool {
        self.cell.load(Ordering::Relaxed)
    }
}

} // verus!
