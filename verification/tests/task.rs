use modbus_tool::task::TaskError;
use modbus_tool::task::TaskManager;
use modbus_tool::worker::Role;
use modbus_tool::worker::WorkerLink;
use modbus_tool::worker::WorkerStep;
use std::future::Future;
use std::sync::mpsc::channel;
use std::sync::mpsc::Receiver;
use std::sync::mpsc::Sender;
use std::time::Duration;

fn manager() -> TaskManager {
    match TaskManager::from_runtime(tokio::runtime::Runtime::new()) {
        Ok(manager) => manager,
        Err(error) => panic!("no runtime: {:?}", error),
    }
}

/// A worker that only polls its link.
fn quiet(link: WorkerLink) -> impl Future<Output = ()> + Send + 'static {
    async move {
        while let WorkerStep::Run(_) = link.next_step() {
            tokio::time::sleep(Duration::from_millis(5)).await;
        }
    }
}

/// A worker that reports the role of every iteration, and `None` when it
/// leaves its loop.
fn reporting(
    log: Sender<Option<Role>>,
) -> impl FnOnce(WorkerLink) -> std::pin::Pin<Box<dyn Future<Output = ()> + Send + 'static>> {
    move |link: WorkerLink| {
        Box::pin(async move {
            while let WorkerStep::Run(role) = link.next_step() {
                let _ = log.send(Some(role));
                tokio::time::sleep(Duration::from_millis(5)).await;
            }
            let _ = log.send(None);
        })
    }
}

fn next_report(log: &Receiver<Option<Role>>) -> Option<Role> {
    log.recv_timeout(Duration::from_secs(10)).unwrap()
}

/// Waits until the worker has begun an iteration after this call.
fn report_after_now(log: &Receiver<Option<Role>>) -> Option<Role> {
    while log.try_recv().is_ok() {}
    next_report(log);
    next_report(log)
}

#[test]
fn new_manager_has_no_task_and_the_slave_role() {
    let manager = manager();
    assert!(!manager.has_task());
    assert!(!manager.get_handle_type());
}

#[test]
fn failed_runtime_is_reported_at_construction() {
    let failure = std::io::Error::new(std::io::ErrorKind::Other, "no threads");
    match TaskManager::from_runtime(Err(failure)) {
        Ok(_) => panic!("a manager without a runtime"),
        Err(error) => assert_eq!(error, TaskError::RuntimeUnavailable),
    }
}

#[test]
fn manager_on_a_small_runtime() {
    let runtime = tokio::runtime::Builder::new_multi_thread()
        .worker_threads(1)
        .enable_all()
        .build()
        .unwrap();
    let mut manager = TaskManager::new(runtime);
    assert!(!manager.has_task());
    assert!(!manager.get_handle_type());
    let (log, reports) = channel();
    manager.set_handle_type(true);
    manager.create_task(reporting(log));
    assert!(manager.has_task());
    assert_eq!(next_report(&reports), Some(Role::Master));
    manager.delete_task();
    assert!(!manager.has_task());
}

#[test]
fn given_runtime_is_used() {
    let runtime = tokio::runtime::Runtime::new();
    match TaskManager::from_runtime(runtime) {
        Ok(mut manager) => {
            assert!(!manager.has_task());
            assert!(!manager.get_handle_type());
            manager.create_task(quiet);
            assert!(manager.has_task());
            manager.delete_task();
        },
        Err(error) => panic!("no runtime: {:?}", error),
    }
}

#[test]
fn create_then_delete() {
    let mut manager = manager();
    manager.create_task(quiet);
    assert!(manager.has_task());
    manager.delete_task();
    assert!(!manager.has_task());
}

#[test]
fn delete_twice_is_delete_once() {
    let mut manager = manager();
    manager.delete_task();
    assert!(!manager.has_task());
    manager.create_task(quiet);
    manager.delete_task();
    assert!(!manager.has_task());
    manager.delete_task();
    assert!(!manager.has_task());
}

#[test]
fn second_create_starts_nothing() {
    let mut manager = manager();
    let (log, reports) = channel();
    let (second_log, second_reports) = channel();
    manager.create_task(reporting(log));
    manager.create_task(reporting(second_log));
    assert!(manager.has_task());
    assert_eq!(next_report(&reports), Some(Role::Slave));
    // The second factory was dropped unused, so its channel is closed.
    assert!(second_reports.recv_timeout(Duration::from_secs(10)).is_err());
    manager.delete_task();
    assert!(!manager.has_task());
}

#[test]
fn tracked_iff_last_call_started_a_worker() {
    let mut manager = manager();
    manager.create_task(quiet);
    manager.recreate_task(quiet);
    assert!(manager.has_task());
    manager.delete_task();
    assert!(!manager.has_task());
    manager.recreate_task(quiet);
    assert!(manager.has_task());
    manager.delete_task();
    manager.delete_task();
    assert!(!manager.has_task());
    manager.create_task(quiet);
    assert!(manager.has_task());
    manager.delete_task();
}

#[test]
fn role_is_kept_across_the_lifecycle() {
    let mut manager = manager();
    manager.set_handle_type(true);
    assert!(manager.get_handle_type());
    manager.create_task(quiet);
    assert!(manager.get_handle_type());
    manager.recreate_task(quiet);
    assert!(manager.get_handle_type());
    manager.delete_task();
    assert!(manager.get_handle_type());
    manager.set_handle_type(false);
    assert!(!manager.get_handle_type());
}

#[test]
fn set_handle_type_does_not_start_or_stop_a_worker() {
    let mut manager = manager();
    manager.set_handle_type(true);
    assert!(!manager.has_task());
    manager.create_task(quiet);
    manager.set_handle_type(false);
    assert!(manager.has_task());
    manager.delete_task();
}

#[test]
fn worker_first_iteration_sees_the_role_set_before_create() {
    let mut manager = manager();
    let (log, reports) = channel();
    manager.set_handle_type(true);
    manager.create_task(reporting(log));
    assert_eq!(next_report(&reports), Some(Role::Master));
    manager.delete_task();
}

#[test]
fn running_worker_picks_up_a_role_change() {
    let mut manager = manager();
    let (log, reports) = channel();
    manager.create_task(reporting(log));
    assert_eq!(next_report(&reports), Some(Role::Slave));
    manager.set_handle_type(true);
    assert_eq!(report_after_now(&reports), Some(Role::Master));
    manager.set_handle_type(false);
    assert_eq!(report_after_now(&reports), Some(Role::Slave));
    assert!(manager.has_task());
    manager.delete_task();
}

#[test]
fn recreated_worker_starts_on_a_clear_signal() {
    let mut manager = manager();
    let (first_log, first_reports) = channel();
    let (second_log, second_reports) = channel();
    manager.create_task(reporting(first_log));
    assert_eq!(next_report(&first_reports), Some(Role::Slave));
    manager.recreate_task(reporting(second_log));
    assert!(manager.has_task());
    assert_eq!(next_report(&second_reports), Some(Role::Slave));
    assert_eq!(report_after_now(&second_reports), Some(Role::Slave));
    manager.delete_task();
}

#[test]
fn created_worker_after_delete_starts_on_a_clear_signal() {
    let mut manager = manager();
    manager.create_task(quiet);
    manager.delete_task();
    let (log, reports) = channel();
    manager.create_task(reporting(log));
    assert_eq!(next_report(&reports), Some(Role::Slave));
    manager.delete_task();
}

#[test]
fn deleted_worker_stops_reporting() {
    let mut manager = manager();
    let (log, reports) = channel();
    manager.create_task(reporting(log));
    assert_eq!(next_report(&reports), Some(Role::Slave));
    manager.delete_task();
    // The worker either leaves its loop on the raised signal or is
    // aborted; either way its end of the channel goes away.
    loop {
        match reports.recv_timeout(Duration::from_secs(10)) {
            Ok(Some(_)) => {},
            Ok(None) => break,
            Err(_) => break,
        }
    }
    assert!(reports.recv_timeout(Duration::from_millis(50)).is_err());
}

#[test]
fn link_reports_cancellation_and_role() {
    let mut manager = manager();
    let (log, reports) = channel();
    manager.set_handle_type(true);
    manager.create_task(move |link: WorkerLink| async move {
        let _ = log.send((link.is_cancelled(), link.role()));
    });
    assert_eq!(reports.recv_timeout(Duration::from_secs(10)).unwrap(), (false, Role::Master));
    manager.delete_task();
}
