//! The application core: keeps the worker in step with the selected screen
//! and with the connection switch.
//!
//! Once per refresh the caller reports the screen the user has selected.
//! The tool first settles the role, then starts or stops the worker so
//! that a worker runs exactly while the link is open.

use crate::lifecycle::TaskState;
use crate::page::Page;
use crate::page::PageManager;
use crate::serial::SerialPort;
use crate::serial::SerialPortView;
use crate::task::TaskManager;
use crate::worker::Role;
use crate::worker::WorkerLink;
use crate::worker::WorkerStep;
use std::future::Future;
use std::sync::atomic::AtomicBool;
use std::sync::Arc;
use vstd::prelude::*;

verus! {

/// The role flag that a screen stands for. The home screen stands for
/// none.
pub open spec fn spec_page_role(page: Page) -> Option<bool> {
    match page {
        Page::Home => None,
        Page::Slave => Some(false),
        Page::Master => Some(true),
    }
}

#[verifier::when_used_as_spec(spec_page_role)]
pub fn page_role(page: Page) -> (role: Option<bool>)
    ensures
        role == page_role(page),
{
    match page {
        Page::Home => None,
        Page::Slave => Some(false),
        Page::Master => Some(true),
    }
}

/// The role flag a worker starts with when the link opens on `page`: the
/// role of the screen, and slave on the home screen.
pub open spec fn spec_connect_role(page: Page) -> bool {
    match page_role(page) {
        Some(role) => role,
        None => false,
    }
}

#[verifier::when_used_as_spec(spec_connect_role)]
pub fn connect_role(page: Page) -> (role: bool)
    ensures
        role == connect_role(page),
{
    match page_role(page) {
        Some(role) => role,
        None => false,
    }
}

/// What the tool looks like from outside.
pub struct ToolState {
    pub current: Page,
    pub previous: Page,
    pub task: TaskState,
    pub serial: SerialPortView,
}

impl ToolState {
    /// Selecting a screen: a screen other than the current one becomes
    /// current and the current one previous.
    pub open spec fn select(self, page: Page) -> ToolState {
        if page == self.current {
            self
        } else {
            ToolState { current: page, previous: self.current, ..self }
        }
    }

    /// Following a change of screen: where the current screen differs from
    /// the previous one and stands for a role, that role is selected. The
    /// worker is not touched.
    pub open spec fn page_changed(self) -> ToolState {
        if self.current != self.previous && page_role(self.current) is Some {
            ToolState { task: self.task.set_handle_type(page_role(self.current).unwrap()), ..self }
        } else {
            self
        }
    }

    /// Whether following the connection switch starts a worker: the link
    /// is open and no worker is tracked.
    pub open spec fn starts_worker(self) -> bool {
        self.serial.is_open && !self.task.has_task
    }

    /// Following the connection switch: an open link without a worker gets
    /// one, after the role of the current screen has been selected, so
    /// that the worker starts in that role; a closed link with a worker
    /// loses it; otherwise nothing happens.
    pub open spec fn reconciled(self) -> ToolState {
        if self.starts_worker() {
            ToolState {
                task: self.task.set_handle_type(connect_role(self.current)).create(),
                ..self
            }
        } else if !self.serial.is_open && self.task.has_task {
            ToolState { task: self.task.delete(), ..self }
        } else {
            self
        }
    }

    /// One refresh with `selected` as the screen the user has chosen:
    /// first the role follows a change of screen, then the worker follows
    /// the connection switch.
    pub open spec fn updated(self, selected: Page) -> ToolState {
        if selected == self.current {
            self.reconciled()
        } else {
            self.select(selected).page_changed().reconciled()
        }
    }
}

/// The application core.
pub struct ModbusTool {
    page_manager: PageManager,
    task_manager: TaskManager,
    serial: SerialPort,
}

impl View for ModbusTool {
    type V = ToolState;

    closed spec fn view(&self) -> ToolState {
        ToolState {
            current: self.page_manager.current_page(),
            previous: self.page_manager.previous_page(),
            task: self.task_manager@,
            serial: self.serial@,
        }
    }
}

impl ModbusTool {
    /// The cell of the role flag of the task manager inside.
    pub closed spec fn role_cell(&self) -> Arc<AtomicBool> {
        self.task_manager.role_cell()
    }

    /// The cell of the current stop signal of the task manager inside.
    pub closed spec fn cancel_cell(&self) -> Arc<AtomicBool> {
        self.task_manager.cancel_cell()
    }

    /// `worker` made a future from a link that reads the role flag and the
    /// current stop signal of this tool.
    pub open spec fn gave_link<W, F>(&self, worker: W) -> bool where W: FnOnce(WorkerLink) -> F {
        exists|link: WorkerLink, future: F|
            #[trigger] worker.ensures((link,), future) && link.role_cell() == self.role_cell()
                && link.cancel_cell() == self.cancel_cell()
    }

    /// A tool on the home screen around the given task manager and serial
    /// panel.
    pub fn new(task_manager: TaskManager, serial: SerialPort) -> (tool: ModbusTool)
        ensures
            tool@ == (ToolState {
                current: Page::Home,
                previous: Page::Home,
                task: task_manager@,
                serial: serial@,
            }),
            tool.role_cell() == task_manager.role_cell(),
            tool.cancel_cell() == task_manager.cancel_cell(),
    {
        ModbusTool { page_manager: PageManager::new(), task_manager, serial }
    }

    pub fn current_page(&self) -> (page: Page)
        ensures
            page == self@.current,
    {
        self.page_manager.current_page()
    }

    pub fn previous_page(&self) -> (page: Page)
        ensures
            page == self@.previous,
    {
        self.page_manager.previous_page()
    }

    pub fn has_task(&self) -> (present: bool)
        ensures
            present == self@.task.has_task,
    {
        self.task_manager.has_task()
    }

    pub fn serial(&self) -> (serial: &SerialPort)
        ensures
            serial@ == self@.serial,
    {
        &self.serial
    }

    /// The serial panel, for editing. Whatever the caller does to it, the
    /// screens and the worker stay as they are.
    pub fn serial_mut(&mut self) -> (serial: &mut SerialPort)
        ensures
            serial@ == old(self)@.serial,
            final(self)@ == (ToolState { serial: final(serial)@, ..old(self)@ }),
            final(self).role_cell() == old(self).role_cell(),
            final(self).cancel_cell() == old(self).cancel_cell(),
    {
        &mut self.serial
    }

    /// Selects a screen, as [`PageManager::set_page`] does.
    pub fn set_page(&mut self, page: Page) -> (replaced: Option<Page>)
        ensures
            final(self)@ == old(self)@.select(page),
            page == old(self)@.current ==> replaced.is_none(),
            page != old(self)@.current ==> replaced == Some(old(self)@.current),
            final(self).role_cell() == old(self).role_cell(),
            final(self).cancel_cell() == old(self).cancel_cell(),
    {
        self.page_manager.set_page(page)
    }

    /// Lets the role follow a change of screen.
    pub fn handle_page_change(&mut self)
        ensures
            final(self)@ == old(self)@.page_changed(),
            final(self).role_cell() == old(self).role_cell(),
            final(self).cancel_cell() == old(self).cancel_cell(),
    {
        let previous_page = self.page_manager.previous_page();
        let current_page = self.page_manager.current_page();
        if previous_page != current_page {
            match current_page {
                Page::Slave => {
                    self.task_manager.set_handle_type(false);
                },
                Page::Master => {
                    self.task_manager.set_handle_type(true);
                },
                Page::Home => {},
            }
        }
    }

    /// Lets the worker follow the connection switch. Where a worker is
    /// started, the role of the current screen is selected first and the
    /// worker second, so that the worker never runs in another role.
    /// `worker` is only used where a worker is started.
    pub fn handle_serial_connection<W, F>(&mut self, worker: W) where
        W: FnOnce(WorkerLink) -> F,
        F: Future<Output = ()> + Send + 'static,

        requires
            forall|link: WorkerLink| worker.requires((link,)),
        ensures
            final(self)@ == old(self)@.reconciled(),
            final(self).role_cell() == old(self).role_cell(),
            old(self)@.starts_worker() ==> final(self).gave_link(worker),
            !old(self)@.starts_worker() ==> final(self).cancel_cell() == old(self).cancel_cell(),
    {
        let is_connected = self.serial.is_connected();
        let has_task = self.task_manager.has_task();
        if is_connected && !has_task {
            match self.page_manager.current_page() {
                Page::Slave => {
                    self.task_manager.set_handle_type(false);
                },
                Page::Master => {
                    self.task_manager.set_handle_type(true);
                },
                Page::Home => {
                    self.task_manager.set_handle_type(false);
                },
            }
            self.create_task(worker);
        } else if !is_connected && has_task {
            self.delete_task();
        }
    }

    /// One refresh: `selected` is the screen the user has chosen. The role
    /// follows the screen before the worker follows the connection.
    pub fn update<W, F>(&mut self, selected: Page, worker: W) where
        W: FnOnce(WorkerLink) -> F,
        F: Future<Output = ()> + Send + 'static,

        requires
            forall|link: WorkerLink| worker.requires((link,)),
        ensures
            final(self)@ == old(self)@.updated(selected),
            final(self).role_cell() == old(self).role_cell(),
            old(self)@.starts_worker() ==> final(self).gave_link(worker),
            !old(self)@.starts_worker() ==> final(self).cancel_cell() == old(self).cancel_cell(),
    {
        if selected != self.page_manager.current_page() {
            self.page_manager.set_page(selected);
            self.handle_page_change();
        }
        self.handle_serial_connection(worker);
    }

    pub fn create_task<W, F>(&mut self, worker: W) where
        W: FnOnce(WorkerLink) -> F,
        F: Future<Output = ()> + Send + 'static,

        requires
            forall|link: WorkerLink| worker.requires((link,)),
        ensures
            final(self)@ == (ToolState { task: old(self)@.task.create(), ..old(self)@ }),
            final(self).role_cell() == old(self).role_cell(),
            old(self)@.task.has_task ==> final(self).cancel_cell() == old(self).cancel_cell(),
            !old(self)@.task.has_task ==> final(self).gave_link(worker),
    {
        self.task_manager.create_task(worker);
    }

    pub fn delete_task(&mut self)
        ensures
            final(self)@ == (ToolState { task: old(self)@.task.delete(), ..old(self)@ }),
            final(self).role_cell() == old(self).role_cell(),
            final(self).cancel_cell() == old(self).cancel_cell(),
    {
        self.task_manager.delete_task();
    }

    pub fn recreate_task<W, F>(&mut self, worker: W) where
        W: FnOnce(WorkerLink) -> F,
        F: Future<Output = ()> + Send + 'static,

        requires
            forall|link: WorkerLink| worker.requires((link,)),
        ensures
            final(self)@ == (ToolState { task: old(self)@.task.recreate(), ..old(self)@ }),
            final(self).role_cell() == old(self).role_cell(),
            final(self).gave_link(worker),
    {
        self.task_manager.recreate_task(worker);
    }

    pub fn set_handle_type(&mut self, value: bool)
        ensures
            final(self)@ == (ToolState {
                task: old(self)@.task.set_handle_type(value),
                ..old(self)@
            }),
            final(self).role_cell() == old(self).role_cell(),
            final(self).cancel_cell() == old(self).cancel_cell(),
    {
        self.task_manager.set_handle_type(value);
    }

    pub fn get_handle_type(&self) -> (value: bool)
        ensures
            value == self@.task.handle_type,
    {
        self.task_manager.get_handle_type()
    }
}

/// After a refresh a worker is tracked exactly while the link is open, and
/// every worker that was ever started is either that one or stopped.
pub proof fn lemma_worker_follows_connection(s: ToolState, selected: Page)
    requires
        s.task.wf(),
    ensures
        s.updated(selected).task.has_task == s.serial.is_open,
        s.updated(selected).task.wf(),
        s.updated(selected).serial == s.serial,
        s.updated(selected).current == selected,
{
}

/// A worker that a refresh starts is started in the role of the screen
/// selected in that refresh, slave on the home screen, whatever role was
/// selected before: the role is settled before the worker exists, and the
/// worker's first iteration runs in it.
pub proof fn lemma_role_settled_before_start(s: ToolState, selected: Page)
    requires
        s.task.wf(),
        s.starts_worker(),
    ensures
        s.updated(selected).task.has_task,
        s.updated(selected).task.spawned == s.task.spawned + 1,
        s.updated(selected).task.started_as == spec_connect_role(selected),
        s.updated(selected).task.handle_type == spec_connect_role(selected),
        s.updated(selected).task.observed_step() == WorkerStep::Run(
            Role::spec_from_flag(spec_connect_role(selected)),
        ),
{
}

/// While a worker runs, the home screen leaves the role alone, and any
/// other newly selected screen selects its own role; the worker itself is
/// never restarted by a change of screen.
pub proof fn lemma_screen_change_keeps_worker(s: ToolState, selected: Page)
    requires
        s.task.wf(),
        s.serial.is_open,
        s.task.has_task,
    ensures
        s.updated(selected).task.has_task,
        s.updated(selected).task.spawned == s.task.spawned,
        s.updated(selected).task.stopped == s.task.stopped,
        selected == Page::Home || selected == s.current ==> s.updated(selected).task.handle_type
            == s.task.handle_type,
        selected != Page::Home && selected != s.current ==> s.updated(selected).task.handle_type
            == spec_connect_role(selected),
{
}

} // verus!
