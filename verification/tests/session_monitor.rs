use ftp_manager::monitor::ConnectionMonitor;
use ftp_manager::session::{cd_command, connect_result, remote_op_result, CdCommand, RemoteSession};
use ftp_manager::OpError;

#[test]
fn fresh_session_is_disconnected() {
    let s: RemoteSession<u32> = RemoteSession::new();
    assert!(!s.is_connected());
}

#[test]
fn take_and_restore_round_trip() {
    let mut s: RemoteSession<u32> = RemoteSession::new();
    assert_eq!(s.take(), None);
    s.restore(7);
    assert!(s.is_connected());
    assert_eq!(s.take(), Some(7));
    assert!(!s.is_connected());
}

#[test]
fn failed_probe_clears_session_and_stays_cleared() {
    let mut s: RemoteSession<u32> = RemoteSession::new();
    s.restore(7);
    let h = s.take().unwrap();
    // The no-op probe failed: the dead handle is discarded.
    assert!(!s.settle_probe(h, false));
    assert!(!s.is_connected());
    // Probing again finds no session: false again, nothing further to clear.
    assert_eq!(s.take(), None);
    assert!(!s.is_connected());
}

#[test]
fn successful_probe_keeps_session() {
    let mut s: RemoteSession<u32> = RemoteSession::new();
    s.restore(7);
    let h = s.take().unwrap();
    assert!(s.settle_probe(h, true));
    assert!(s.is_connected());
    assert_eq!(s.take(), Some(7));
}

#[test]
fn change_directory_keeps_the_session_whatever_the_outcome() {
    let mut s: RemoteSession<u32> = RemoteSession::new();
    s.restore(9);
    let h = s.take().unwrap();
    assert_eq!(s.settle_change_directory(h, true), Ok(()));
    assert!(s.is_connected());
    // A rejected command is an error, but the control connection survives it.
    let h = s.take().unwrap();
    assert_eq!(s.settle_change_directory(h, false), Err(OpError::Protocol));
    assert!(s.is_connected());
    assert_eq!(s.take(), Some(9));
}

#[test]
fn parent_target_issues_parent_navigation() {
    assert!(matches!(cd_command(&"..".to_string()), CdCommand::Parent));
    match cd_command(&"pub".to_string()) {
        CdCommand::To(t) => assert_eq!(t, "pub"),
        CdCommand::Parent => panic!("a named target must not navigate to the parent"),
    }
}

#[test]
fn remote_operation_without_session_is_an_error() {
    assert_eq!(remote_op_result(false, true), Err(OpError::NotConnected));
    assert_eq!(remote_op_result(false, false), Err(OpError::NotConnected));
    assert_eq!(remote_op_result(true, false), Err(OpError::Protocol));
    assert_eq!(remote_op_result(true, true), Ok(()));
}

#[test]
fn connect_failures_are_told_apart() {
    assert_eq!(connect_result(false, false), Err(OpError::Network));
    assert_eq!(connect_result(true, false), Err(OpError::Auth));
    assert_eq!(connect_result(true, true), Ok(()));
}

#[test]
fn monitor_tick_emits_both_notifications() {
    let mut m = ConnectionMonitor::new();
    m.begin_tick();
    let (footer, button) = m.finish_tick(true);
    assert_eq!(footer, "<p>Connected to the server</p>");
    assert!(button.contains("hx-post='/disconnect'"));
    m.begin_tick();
    let (footer, button) = m.finish_tick(false);
    assert_eq!(footer, "<p>No connection</p>");
    assert!(button.contains("hx-post='/connect'"));
}
