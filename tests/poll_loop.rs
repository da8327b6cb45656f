use egui_serial_term::{sync_due, wait_timeout, EventAction, LoopControl, WakeStep};

#[test]
fn timeout_follows_sync_deadline() {
    assert_eq!(wait_timeout(None, 5), None);
    assert_eq!(wait_timeout(Some(150), 100), Some(50));
    assert_eq!(wait_timeout(Some(100), 150), Some(0));
}

#[test]
fn quiet_period_flushes_once() {
    let mut c = LoopControl::new();
    assert!(c.on_registration(true));
    assert_eq!(c.on_wake(false, false, true), WakeStep::FlushSync);
    assert_eq!(c.on_wake(false, false, true), WakeStep::Idle);
    assert_eq!(c.on_wake(false, false, false), WakeStep::Idle);
    assert_eq!(c.on_wake(true, false, true), WakeStep::Dispatch);
    assert_eq!(c.on_wake(false, false, true), WakeStep::FlushSync);
}

#[test]
fn quiet_wake_without_sync_is_idle() {
    let mut c = LoopControl::new();
    assert_eq!(c.on_wake(false, false, false), WakeStep::Idle);
    assert_eq!(c.on_wake(false, true, false), WakeStep::Dispatch);
}

#[test]
fn events_are_dispatched_by_readiness() {
    let c = LoopControl::new();
    assert_eq!(c.on_event(true, true, true), EventAction::ReadThenWrite);
    assert_eq!(c.on_event(true, true, false), EventAction::Read);
    assert_eq!(c.on_event(true, false, true), EventAction::Write);
    assert_eq!(c.on_event(true, false, false), EventAction::Ignore);
    assert_eq!(c.on_event(false, true, true), EventAction::Ignore);
}

#[test]
fn shutdown_stops_io_and_deregisters() {
    let mut c = LoopControl::new();
    assert!(c.on_registration(true));
    c.on_shutdown();
    assert!(c.is_stopped());
    assert_eq!(c.on_wake(true, true, true), WakeStep::Stop);
    assert_eq!(c.on_event(true, true, true), EventAction::Ignore);
    assert!(c.finish());
    assert!(!c.is_registered());
    assert!(!c.finish());
}

#[test]
fn write_interest_changes_only_on_change() {
    let mut c = LoopControl::new();
    assert!(!c.update_write_interest(false));
    assert!(c.update_write_interest(true));
    assert!(!c.update_write_interest(true));
    assert!(c.update_write_interest(false));
}

#[test]
fn fatal_errors_stop_the_loop() {
    let mut c = LoopControl::new();
    assert!(!c.on_registration(false));
    assert!(c.is_stopped());
    let mut c = LoopControl::new();
    assert!(c.on_wait_error(true));
    assert!(!c.on_wait_error(false));
    assert!(c.is_stopped());
    let mut c = LoopControl::new();
    assert!(c.on_read_error(true));
    assert!(!c.is_stopped());
    assert!(!c.on_read_error(false));
    let mut c = LoopControl::new();
    c.on_write_error();
    assert!(c.is_stopped());
}

#[test]
fn sync_is_due_at_its_deadline() {
    assert!(!sync_due(None, 10));
    assert!(!sync_due(Some(11), 10));
    assert!(sync_due(Some(10), 10));
    assert!(sync_due(Some(3), 10));
}
