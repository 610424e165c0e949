use modbus_tool::page::Page;
use modbus_tool::serial::PortInfo;
use modbus_tool::serial::SerialPort;
use modbus_tool::settings::PortSettings;
use modbus_tool::task::TaskManager;
use modbus_tool::tool::connect_role;
use modbus_tool::tool::page_role;
use modbus_tool::tool::ModbusTool;
use modbus_tool::worker::Role;
use modbus_tool::worker::WorkerLink;
use modbus_tool::worker::WorkerStep;
use std::future::Future;
use std::sync::mpsc::channel;
use std::sync::mpsc::Receiver;
use std::time::Duration;

fn tool() -> ModbusTool {
    let scanned: Vec<PortInfo> = Vec::new();
    match TaskManager::from_runtime(tokio::runtime::Runtime::new()) {
        Ok(manager) => ModbusTool::new(manager, SerialPort::new(Some(scanned))),
        Err(error) => panic!("no runtime: {:?}", error),
    }
}

fn idle(link: WorkerLink) -> impl Future<Output = ()> + Send + 'static {
    async move {
        while let WorkerStep::Run(_) = link.next_step() {
            tokio::time::sleep(Duration::from_millis(5)).await;
        }
    }
}

fn after_now<T>(log: &Receiver<T>) -> T {
    while log.try_recv().is_ok() {}
    log.recv_timeout(Duration::from_secs(10)).unwrap();
    log.recv_timeout(Duration::from_secs(10)).unwrap()
}

#[test]
fn screens_and_their_roles() {
    assert_eq!(page_role(Page::Home), None);
    assert_eq!(page_role(Page::Slave), Some(false));
    assert_eq!(page_role(Page::Master), Some(true));
    assert!(!connect_role(Page::Home));
    assert!(!connect_role(Page::Slave));
    assert!(connect_role(Page::Master));
}

#[test]
fn initial_state_has_no_worker() {
    let tool = tool();
    assert!(!tool.has_task());
    assert!(!tool.get_handle_type());
    assert_eq!(tool.current_page(), Page::Home);
    assert_eq!(tool.previous_page(), Page::Home);
    assert!(!tool.serial().is_connected());
}

#[test]
fn connect_on_the_master_screen_starts_a_master() {
    let mut tool = tool();
    tool.update(Page::Master, idle);
    assert!(!tool.has_task());
    tool.serial_mut().set_is_open(true);
    tool.update(Page::Master, idle);
    assert!(tool.has_task());
    assert!(tool.get_handle_type());
    tool.delete_task();
}

#[test]
fn disconnect_stops_the_worker() {
    let mut tool = tool();
    tool.serial_mut().set_is_open(true);
    tool.update(Page::Home, idle);
    assert!(tool.has_task());
    tool.serial_mut().set_is_open(false);
    tool.update(Page::Home, idle);
    assert!(!tool.has_task());
}

#[test]
fn home_keeps_the_slave_role() {
    let mut tool = tool();
    let (log, reports) = channel();
    tool.serial_mut().set_is_open(true);
    tool.update(Page::Slave, move |link: WorkerLink| async move {
        while let WorkerStep::Run(role) = link.next_step() {
            let _ = log.send(role);
            tokio::time::sleep(Duration::from_millis(5)).await;
        }
    });
    assert!(tool.has_task());
    assert!(!tool.get_handle_type());
    tool.update(Page::Home, idle);
    assert_eq!(tool.current_page(), Page::Home);
    assert_eq!(tool.previous_page(), Page::Slave);
    assert!(tool.has_task());
    assert!(!tool.get_handle_type());
    assert_eq!(after_now(&reports), Role::Slave);
    tool.delete_task();
}

#[test]
fn home_keeps_the_master_role_of_a_running_worker() {
    let mut tool = tool();
    tool.serial_mut().set_is_open(true);
    tool.update(Page::Master, idle);
    tool.update(Page::Home, idle);
    assert!(tool.has_task());
    assert!(tool.get_handle_type());
    tool.delete_task();
}

#[test]
fn connecting_on_home_starts_a_slave() {
    let mut tool = tool();
    tool.update(Page::Master, idle);
    assert!(tool.get_handle_type());
    tool.update(Page::Home, idle);
    assert!(tool.get_handle_type());
    tool.serial_mut().set_is_open(true);
    tool.update(Page::Home, idle);
    assert!(tool.has_task());
    assert!(!tool.get_handle_type());
    tool.delete_task();
}

#[test]
fn screen_change_switches_the_role_of_a_running_worker() {
    let mut tool = tool();
    let (log, reports) = channel();
    tool.serial_mut().set_is_open(true);
    tool.update(Page::Slave, move |link: WorkerLink| async move {
        while let WorkerStep::Run(role) = link.next_step() {
            let _ = log.send(role);
            tokio::time::sleep(Duration::from_millis(5)).await;
        }
    });
    assert_eq!(after_now(&reports), Role::Slave);
    tool.update(Page::Master, idle);
    assert!(tool.has_task());
    assert!(tool.get_handle_type());
    assert_eq!(after_now(&reports), Role::Master);
    tool.delete_task();
}

#[test]
fn worker_sees_a_baud_rate_edit() {
    let mut tool = tool();
    let (log, reports) = channel();
    let reader = tool.serial().settings_reader();
    tool.serial_mut().set_is_open(true);
    tool.update(Page::Slave, move |link: WorkerLink| async move {
        while let WorkerStep::Run(_) = link.next_step() {
            let settings: PortSettings = reader.snapshot();
            let _ = log.send((settings.baud_rate, settings.timeout_ms));
            tokio::time::sleep(Duration::from_millis(5)).await;
        }
    });
    assert_eq!(after_now(&reports), (9600, 100));
    tool.serial_mut().set_baud_rate(38400);
    assert_eq!(after_now(&reports), (38400, 100));
    assert!(tool.has_task());
    assert!(tool.serial().get_need_update());
    tool.delete_task();
}

#[test]
fn handle_page_change_follows_only_a_real_change() {
    let mut tool = tool();
    tool.set_handle_type(true);
    tool.handle_page_change();
    assert!(tool.get_handle_type());
    assert_eq!(tool.set_page(Page::Slave), Some(Page::Home));
    tool.handle_page_change();
    assert!(!tool.get_handle_type());
    assert_eq!(tool.set_page(Page::Master), Some(Page::Slave));
    tool.handle_page_change();
    assert!(tool.get_handle_type());
    assert_eq!(tool.set_page(Page::Home), Some(Page::Master));
    tool.handle_page_change();
    assert!(tool.get_handle_type());
    assert_eq!(tool.set_page(Page::Home), None);
    assert!(!tool.has_task());
}

#[test]
fn handle_serial_connection_does_nothing_when_in_step() {
    let mut tool = tool();
    tool.handle_serial_connection(idle);
    assert!(!tool.has_task());
    tool.serial_mut().toggle_connection();
    tool.handle_serial_connection(idle);
    assert!(tool.has_task());
    tool.set_handle_type(true);
    tool.handle_serial_connection(idle);
    assert!(tool.has_task());
    assert!(tool.get_handle_type());
    tool.serial_mut().toggle_connection();
    tool.handle_serial_connection(idle);
    assert!(!tool.has_task());
    assert!(tool.get_handle_type());
}

#[test]
fn tool_forwards_the_lifecycle_calls() {
    let mut tool = tool();
    tool.create_task(idle);
    assert!(tool.has_task());
    tool.create_task(idle);
    assert!(tool.has_task());
    tool.recreate_task(idle);
    assert!(tool.has_task());
    tool.set_handle_type(true);
    assert!(tool.get_handle_type());
    tool.delete_task();
    assert!(!tool.has_task());
    tool.delete_task();
    assert!(!tool.has_task());
    tool.recreate_task(idle);
    assert!(tool.has_task());
    tool.delete_task();
}

#[test]
fn role_is_selected_before_the_worker_starts() {
    let mut tool = tool();
    let (log, reports) = channel();
    tool.serial_mut().set_is_open(true);
    assert!(!tool.get_handle_type());
    tool.update(Page::Master, move |link: WorkerLink| async move {
        let _ = log.send(link.role());
    });
    assert!(tool.has_task());
    assert_eq!(reports.recv_timeout(Duration::from_secs(10)).unwrap(), Role::Master);
    tool.delete_task();
}

#[test]
fn connecting_on_home_after_master_starts_the_worker_as_slave() {
    let mut tool = tool();
    let (log, reports) = channel();
    tool.set_handle_type(true);
    tool.serial_mut().set_is_open(true);
    tool.handle_serial_connection(move |link: WorkerLink| async move {
        let _ = log.send(link.role());
    });
    assert_eq!(reports.recv_timeout(Duration::from_secs(10)).unwrap(), Role::Slave);
    assert!(!tool.get_handle_type());
    tool.delete_task();
}
