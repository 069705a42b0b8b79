use std::io::{Error, ErrorKind};

use udp_proxy::{handle_io_error, is_fatal, tx_send_failed, ErrorAction};

#[test]
fn terminable_action_passes_error_through() {
    let underlying_err = Error::new(ErrorKind::PermissionDenied, "Permission was denied");
    match handle_io_error(underlying_err) {
        ErrorAction::Continue => panic!("Expected a terminate action, but got continue"),
        ErrorAction::Terminate(err) => assert_eq!(err.kind(), ErrorKind::PermissionDenied),
    }
}

#[test]
fn retriable_error_continues() {
    let underlying_err = Error::new(ErrorKind::Interrupted, "I/O was interrupted");
    match handle_io_error(underlying_err) {
        ErrorAction::Continue => (),
        ErrorAction::Terminate(_) => panic!("Expected a continue action, but got terminate"),
    }
}

#[test]
fn fatal_kinds_terminate() {
    let fatal = [
        ErrorKind::PermissionDenied,
        ErrorKind::ConnectionRefused,
        ErrorKind::AddrInUse,
        ErrorKind::AddrNotAvailable,
        ErrorKind::Unsupported,
        ErrorKind::OutOfMemory,
    ];
    for kind in fatal {
        assert!(is_fatal(kind));
        match handle_io_error(Error::new(kind, "fatal")) {
            ErrorAction::Terminate(err) => {
                assert_eq!(err.kind(), kind);
                assert_eq!(err.to_string(), "fatal");
            }
            ErrorAction::Continue => panic!("expected {kind:?} to terminate"),
        }
    }
}

#[test]
fn transient_kinds_continue() {
    let transient = [
        ErrorKind::Interrupted,
        ErrorKind::WouldBlock,
        ErrorKind::TimedOut,
        ErrorKind::ConnectionReset,
        ErrorKind::NotFound,
        ErrorKind::InvalidInput,
        ErrorKind::Other,
    ];
    for kind in transient {
        assert!(!is_fatal(kind));
        assert!(matches!(handle_io_error(Error::new(kind, "transient")), ErrorAction::Continue));
    }
}

#[test]
fn refused_send_is_passed_over() {
    let err = Error::new(ErrorKind::ConnectionRefused, "backend down");
    assert!(matches!(tx_send_failed(err), ErrorAction::Continue));
}

#[test]
fn other_send_errors_are_classified() {
    match tx_send_failed(Error::new(ErrorKind::PermissionDenied, "denied")) {
        ErrorAction::Terminate(err) => assert_eq!(err.kind(), ErrorKind::PermissionDenied),
        ErrorAction::Continue => panic!("expected a terminate action"),
    }
    assert!(matches!(
        tx_send_failed(Error::new(ErrorKind::WouldBlock, "busy")),
        ErrorAction::Continue
    ));
}

#[test]
fn fatal_ingress_read_error_ends_the_dispatcher() {
    let err = Error::new(ErrorKind::AddrNotAvailable, "ingress socket gone");
    match handle_io_error(err) {
        ErrorAction::Terminate(err) => assert_eq!(err.kind(), ErrorKind::AddrNotAvailable),
        ErrorAction::Continue => panic!("expected a terminate action"),
    }
}
