use std::io::{Error, ErrorKind};
use std::time::Duration;
use ticklore::listener::{is_transient_accept_error, is_transient_error_kind, AcceptBackoff, IoErrorKind};

#[test]
fn transient_kinds() {
    for kind in [ErrorKind::ConnectionAborted, ErrorKind::ConnectionRefused, ErrorKind::ConnectionReset, ErrorKind::Interrupted] {
        assert!(is_transient_accept_error(&Error::from(kind)), "{kind:?}");
    }
    for kind in [ErrorKind::OutOfMemory, ErrorKind::PermissionDenied, ErrorKind::Other, ErrorKind::WouldBlock] {
        assert!(!is_transient_accept_error(&Error::from(kind)), "{kind:?}");
    }
    assert!(!is_transient_accept_error(&Error::from_raw_os_error(24)));
}

#[test]
fn transient_kind_classification() {
    assert!(is_transient_error_kind(IoErrorKind::ConnectionReset));
    assert!(is_transient_error_kind(IoErrorKind::ConnectionAborted));
    assert!(is_transient_error_kind(IoErrorKind::ConnectionRefused));
    assert!(is_transient_error_kind(IoErrorKind::Interrupted));
    assert!(!is_transient_error_kind(IoErrorKind::Other));
    assert!(!is_transient_error_kind(IoErrorKind::TimedOut));
    assert!(!is_transient_error_kind(IoErrorKind::NotConnected));
    assert!(!is_transient_error_kind(IoErrorKind::Unlisted));
}

#[test]
fn backoff_doubles_up_to_one_second() {
    let mut backoff = AcceptBackoff::new();
    let mut waits = vec![];
    for _ in 0..7 {
        waits.push(backoff.on_failure(false).unwrap().as_millis());
    }
    assert_eq!(waits, vec![50, 100, 200, 400, 800, 1000, 1000]);
}

#[test]
fn backoff_ignores_transient_failures_and_resets() {
    let mut backoff = AcceptBackoff::new();
    assert_eq!(backoff.on_failure(false), Some(Duration::from_millis(50)));
    assert_eq!(backoff.on_failure(true), None);
    assert_eq!(backoff.on_failure(false), Some(Duration::from_millis(100)));
    backoff.reset();
    assert_eq!(backoff.on_failure(false), Some(Duration::from_millis(50)));
}

#[test]
fn backoff_on_accept_errors() {
    let mut backoff = AcceptBackoff::new();
    assert_eq!(backoff.on_accept_error(&Error::from(ErrorKind::ConnectionAborted)), None);
    assert_eq!(backoff.on_accept_error(&Error::from_raw_os_error(24)), Some(Duration::from_millis(50)));
    assert_eq!(backoff.on_accept_error(&Error::from(ErrorKind::Other)), Some(Duration::from_millis(100)));
}
