use socket_config::errors::{CleanupSocketError, IoError, IoErrorKind};
use socket_config::{cleanup_checked, cleanup_removed, CleanupAction, SocketAddr};

fn not_found() -> IoError {
    IoError { kind: IoErrorKind::NotFound, code: Some(2) }
}

fn denied() -> IoError {
    IoError { kind: IoErrorKind::PermissionDenied, code: Some(13) }
}

#[test]
fn only_a_path_is_cleaned_up() {
    assert_eq!(SocketAddr::Unix { path: "/run/x".into() }.cleanup(), CleanupAction::Check);
    assert_eq!(SocketAddr::default().cleanup(), CleanupAction::Done);
    assert_eq!(SocketAddr::new_inherit(3).cleanup(), CleanupAction::Done);
    assert_eq!(SocketAddr::new_inherit_stdin().cleanup(), CleanupAction::Done);
    assert_eq!(SocketAddr::new_systemd_numeric(3).cleanup(), CleanupAction::Done);
}

#[test]
fn nothing_at_the_path_is_no_error() {
    assert_eq!(cleanup_checked(Err(not_found())), CleanupAction::Done);
}

#[test]
fn a_file_that_is_no_socket_is_left_alone() {
    assert_eq!(cleanup_checked(Ok(false)), CleanupAction::Done);
}

#[test]
fn a_socket_is_removed() {
    assert_eq!(cleanup_checked(Ok(true)), CleanupAction::Remove);
    assert_eq!(cleanup_removed(Ok(())), CleanupAction::Done);
    assert_eq!(cleanup_removed(Err(not_found())), CleanupAction::Done);
}

#[test]
fn other_errors_fail_the_cleanup() {
    assert_eq!(
        cleanup_checked(Err(denied())),
        CleanupAction::Fail(CleanupSocketError::Stat { error: denied() })
    );
    assert_eq!(
        cleanup_removed(Err(denied())),
        CleanupAction::Fail(CleanupSocketError::Unlink { error: denied() })
    );
    assert_eq!(CleanupSocketError::Stat { error: denied() }.kind(), IoErrorKind::PermissionDenied);
}
