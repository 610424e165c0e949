//! The settings of the serial link, and the lock they are shared under.
//!
//! One side owns the settings and edits them; background readers take
//! snapshots. Every edit and every snapshot holds the lock exactly once and
//! only for the copy itself, so a reader never sees half an edit and never
//! keeps an editor waiting while it sleeps.

use crate::flag::share;
use std::sync::Arc;
use std::sync::Mutex;
use vstd::prelude::*;

verus! {

/// Number of bits per character.
#[derive(Debug, Clone, Copy, PartialEq, Eq, Structural)]
pub enum DataBits {
    Five,
    Six,
    Seven,
    Eight,
}

/// How the parity bit is set.
#[derive(Debug, Clone, Copy, PartialEq, Eq, Structural)]
pub enum Parity {
    /// No parity bit.
    Off,
    Odd,
    Even,
}

/// Number of bits that end a character.
#[derive(Debug, Clone, Copy, PartialEq, Eq, Structural)]
pub enum StopBits {
    One,
    Two,
}

/// How the flow of data is controlled.
#[derive(Debug, Clone, Copy, PartialEq, Eq, Structural)]
pub enum FlowControl {
    /// No flow control.
    Off,
    Software,
    Hardware,
}

/// Settings of a serial link.
#[derive(Debug, Clone)]
pub struct PortSettings {
    /// The port name, usually the device path.
    pub path: String,
    /// The baud rate in symbols per second.
    pub baud_rate: u32,
    /// Number of bits used to represent a character sent on the line.
    pub data_bits: DataBits,
    /// The type of signalling to use for controlling data transfer.
    pub flow_control: FlowControl,
    /// The type of parity to use for error checking.
    pub parity: Parity,
    /// Number of bits to use to signal the end of a character.
    pub stop_bits: StopBits,
    /// Time to wait for data before giving up, in milliseconds.
    pub timeout_ms: u64,
    /// The state to set DTR to when opening the device.
    pub dtr_on_open: Option<bool>,
}

/// [`PortSettings`] with the path as a sequence of characters.
pub struct PortSettingsView {
    pub path: Seq<char>,
    pub baud_rate: u32,
    pub data_bits: DataBits,
    pub flow_control: FlowControl,
    pub parity: Parity,
    pub stop_bits: StopBits,
    pub timeout_ms: u64,
    pub dtr_on_open: Option<bool>,
}

impl PortSettingsView {
    /// No path, 9600 baud, 8 data bits, no flow control, no parity, 1 stop
    /// bit, 100 ms, DTR left alone.
    pub open spec fn initial() -> PortSettingsView {
        PortSettingsView {
            path: Seq::empty(),
            baud_rate: 9600,
            data_bits: DataBits::Eight,
            flow_control: FlowControl::Off,
            parity: Parity::Off,
            stop_bits: StopBits::One,
            timeout_ms: 100,
            dtr_on_open: None,
        }
    }
}

impl View for PortSettings {
    type V = PortSettingsView;

    open spec fn view(&self) -> PortSettingsView {
        PortSettingsView {
            path: self.path@,
            baud_rate: self.baud_rate,
            data_bits: self.data_bits,
            flow_control: self.flow_control,
            parity: self.parity,
            stop_bits: self.stop_bits,
            timeout_ms: self.timeout_ms,
            dtr_on_open: self.dtr_on_open,
        }
    }
}

impl Default for PortSettings {
    fn default() -> (settings: PortSettings)
        ensures
            settings@ == PortSettingsView::initial(),
    {
        PortSettings {
            path: String::new(),
            baud_rate: 9600,
            data_bits: DataBits::Eight,
            flow_control: FlowControl::Off,
            parity: Parity::Off,
            stop_bits: StopBits::One,
            timeout_ms: 100,
            dtr_on_open: None,
        }
    }
}

impl PortSettings {
    /// A copy that is equal field by field.
    pub fn duplicate(&self) -> (copy: PortSettings)
        ensures
            copy@ == self@,
    {
        PortSettings {
            path: self.path.clone(),
            baud_rate: self.baud_rate,
            data_bits: self.data_bits,
            flow_control: self.flow_control,
            parity: self.parity,
            stop_bits: self.stop_bits,
            timeout_ms: self.timeout_ms,
            dtr_on_open: self.dtr_on_open,
        }
    }
}

/// `std::sync::Mutex`, held as a value that nothing here looks into.
#[verifier::external_type_specification]
#[verifier::external_body]
#[verifier::reject_recursive_types(T)]
pub struct ExMutex<T: ?Sized>(std::sync::Mutex<T>);

/// `Mutex::new` makes an unlocked mutex around the value. Nothing is
/// claimed about the mutex beyond its type.
pub assume_specification<T>[ std::sync::Mutex::<T>::new ](value: T) -> std::sync::Mutex<T>;

/// `Mutex::lock`, once: waits for the lock, puts `settings` in place of
/// what the mutex held, and lets the lock go. A lock that a panicking
/// holder left poisoned is taken all the same.
#[verifier::external_body]
fn store_locked(cell: &Arc<Mutex<PortSettings>>, settings: PortSettings) {
    let mut guard = match cell.lock() {
        Ok(guard) => guard,
        Err(poisoned) => poisoned.into_inner(),
    };
    *guard = settings;
}

/// `Mutex::lock`, once: waits for the lock, copies what the mutex holds,
/// and lets the lock go. What it holds is up to whoever stored last, so
/// nothing is claimed about the copy.
#[verifier::external_body]
fn load_locked(cell: &Arc<Mutex<PortSettings>>) -> PortSettings {
    let guard = match cell.lock() {
        Ok(guard) => guard,
        Err(poisoned) => poisoned.into_inner(),
    };
    guard.clone()
}

/// The editing end of the shared settings.
///
/// The owner keeps the settings it last stored, so reading them back takes
/// no lock and does not depend on any other thread.
#[derive(Debug)]
pub struct SharedSettings {
    cell: Arc<Mutex<PortSettings>>,
    current: PortSettings,
}

/// A handle through which the shared settings can be copied out but not
/// changed, fit to be moved into a task.
#[derive(Debug)]
pub struct SettingsReader {
    cell: Arc<Mutex<PortSettings>>,
}

impl View for SharedSettings {
    type V = PortSettingsView;

    closed spec fn view(&self) -> PortSettingsView {
        self.current@
    }
}

impl SharedSettings {
    /// The locked cell that this handle stores to and its readers copy
    /// from.
    pub closed spec fn cell(&self) -> Arc<Mutex<PortSettings>> {
        self.cell
    }

    /// Settings shared with nobody yet.
    pub fn new(settings: PortSettings) -> (shared: SharedSettings)
        ensures
            shared@ == settings@,
    {
        let current = settings.duplicate();
        SharedSettings { cell: Arc::new(Mutex::new(settings)), current }
    }

    /// The settings as last stored.
    pub fn get(&self) -> (settings: &PortSettings)
        ensures
            settings@ == self@,
    {
        &self.current
    }

    /// Replaces all settings at once. Like every edit below, it stores
    /// into the cell the handle has had from the start.
    pub fn replace(&mut self, settings: PortSettings)
        ensures
            final(self)@ == settings@,
            final(self).cell() == old(self).cell(),
    {
        self.current = settings.duplicate();
        store_locked(&self.cell, settings);
    }

    pub fn set_path(&mut self, path: String)
        ensures
            final(self)@ == (PortSettingsView { path: path@, ..old(self)@ }),
            final(self).cell() == old(self).cell(),
    {
        self.current.path = path;
        store_locked(&self.cell, self.current.duplicate());
    }

    pub fn set_baud_rate(&mut self, baud_rate: u32)
        ensures
            final(self)@ == (PortSettingsView { baud_rate, ..old(self)@ }),
            final(self).cell() == old(self).cell(),
    {
        self.current.baud_rate = baud_rate;
        store_locked(&self.cell, self.current.duplicate());
    }

    pub fn set_data_bits(&mut self, data_bits: DataBits)
        ensures
            final(self)@ == (PortSettingsView { data_bits, ..old(self)@ }),
            final(self).cell() == old(self).cell(),
    {
        self.current.data_bits = data_bits;
        store_locked(&self.cell, self.current.duplicate());
    }

    pub fn set_flow_control(&mut self, flow_control: FlowControl)
        ensures
            final(self)@ == (PortSettingsView { flow_control, ..old(self)@ }),
            final(self).cell() == old(self).cell(),
    {
        self.current.flow_control = flow_control;
        store_locked(&self.cell, self.current.duplicate());
    }

    pub fn set_parity(&mut self, parity: Parity)
        ensures
            final(self)@ == (PortSettingsView { parity, ..old(self)@ }),
            final(self).cell() == old(self).cell(),
    {
        self.current.parity = parity;
        store_locked(&self.cell, self.current.duplicate());
    }

    pub fn set_stop_bits(&mut self, stop_bits: StopBits)
        ensures
            final(self)@ == (PortSettingsView { stop_bits, ..old(self)@ }),
            final(self).cell() == old(self).cell(),
    {
        self.current.stop_bits = stop_bits;
        store_locked(&self.cell, self.current.duplicate());
    }

    pub fn set_timeout_ms(&mut self, timeout_ms: u64)
        ensures
            final(self)@ == (PortSettingsView { timeout_ms, ..old(self)@ }),
            final(self).cell() == old(self).cell(),
    {
        self.current.timeout_ms = timeout_ms;
        store_locked(&self.cell, self.current.duplicate());
    }

    pub fn set_dtr_on_open(&mut self, dtr_on_open: Option<bool>)
        ensures
            final(self)@ == (PortSettingsView { dtr_on_open, ..old(self)@ }),
            final(self).cell() == old(self).cell(),
    {
        self.current.dtr_on_open = dtr_on_open;
        store_locked(&self.cell, self.current.duplicate());
    }

    /// A handle through which a background reader copies these settings
    /// out of their cell.
    pub fn reader(&self) -> (reader: SettingsReader)
        ensures
            reader.cell() == self.cell(),
    {
        SettingsReader { cell: share(&self.cell) }
    }
}

impl SettingsReader {
    /// The locked cell that this handle copies from.
    pub closed spec fn cell(&self) -> Arc<Mutex<PortSettings>> {
        self.cell
    }

    /// A copy of the settings as they are at this moment.
    pub fn snapshot(&self) -> PortSettings {
        load_locked(&self.cell)
    }
}

} // verus!
