use joatmon::error::HasOtherError;
use joatmon::fs::failure::{IoFailure, IoFailureKind};
use joatmon::fs::read::{FileReadError, FileReadErrorKind, Platform};

fn not_found() -> IoFailure {
    IoFailure::new(IoFailureKind::NotFound, "No such file or directory (os error 2)")
}

#[test]
fn test_read_text_file_not_found_fails() {
    let path = "/tmp/joatmon-test/file.txt";
    let e = FileReadError::convert(Platform::Posix, not_found(), path, false);

    assert_eq!(FileReadErrorKind::NotFound, e.kind());
    assert!(!e.is_is_a_directory());
    assert!(e.is_not_found());
    assert!(!e.is_other());
    let message = e.message();
    assert!(message.contains(path));
    assert_eq!("File /tmp/joatmon-test/file.txt not found", message);
    assert_eq!(Some(path), e.path());
}

#[test]
fn test_read_text_file_is_a_directory_fails() {
    let path = "/tmp/joatmon-test";
    let failure = IoFailure::new(IoFailureKind::IsADirectory, "Is a directory (os error 21)");
    let e = FileReadError::convert(Platform::Posix, failure, path, false);

    assert_eq!(FileReadErrorKind::IsADirectory, e.kind());
    assert!(e.is_is_a_directory());
    assert!(!e.is_not_found());
    assert!(!e.is_other());
    let message = e.message();
    assert!(message.contains(path));
    assert_eq!(
        "File system object /tmp/joatmon-test is a directory not a file",
        message
    );
}

#[test]
fn windows_reports_a_directory_as_permission_denied() {
    let path = "C:\\joatmon-test";
    let denied = || IoFailure::new(IoFailureKind::PermissionDenied, "Access is denied.");

    assert!(Platform::Windows.needs_directory_probe(IoFailureKind::PermissionDenied));
    assert!(!Platform::Windows.needs_directory_probe(IoFailureKind::NotFound));
    assert!(!Platform::Posix.needs_directory_probe(IoFailureKind::PermissionDenied));

    let on_directory = FileReadError::convert(Platform::Windows, denied(), path, true);
    assert_eq!(FileReadErrorKind::IsADirectory, on_directory.kind());

    let on_file = FileReadError::convert(Platform::Windows, denied(), path, false);
    assert_eq!(FileReadErrorKind::Other, on_file.kind());

    let elsewhere = FileReadError::convert(Platform::Posix, denied(), path, true);
    assert_eq!(FileReadErrorKind::Other, elsewhere.kind());

    let named = IoFailure::new(IoFailureKind::IsADirectory, "Is a directory");
    let ignored = FileReadError::convert(Platform::Windows, named, path, true);
    assert_eq!(FileReadErrorKind::Other, ignored.kind());
}

#[test]
fn directory_strategy_by_platform() {
    assert!(Platform::Posix.is_is_a_directory(IoFailureKind::IsADirectory, false));
    assert!(!Platform::Posix.is_is_a_directory(IoFailureKind::PermissionDenied, true));
    assert!(Platform::Windows.is_is_a_directory(IoFailureKind::PermissionDenied, true));
    assert!(!Platform::Windows.is_is_a_directory(IoFailureKind::PermissionDenied, false));
    assert!(!Platform::Windows.is_is_a_directory(IoFailureKind::IsADirectory, true));
}

#[test]
fn other_read_failure_keeps_its_cause() {
    let failure = IoFailure::new(IoFailureKind::Other, "stream did not contain valid UTF-8");
    let e = FileReadError::convert(Platform::Posix, failure, "/tmp/joatmon-test/file.txt", false);

    assert_eq!(FileReadErrorKind::Other, e.kind());
    assert!(e.is_other());
    assert!(HasOtherError::is_other(&e));
    assert_eq!(None, e.path());
    assert_eq!("stream did not contain valid UTF-8", e.message());
    let cause = e.downcast_other_ref().expect("must be Some");
    assert_eq!(IoFailureKind::Other, cause.kind());
    assert_eq!("stream did not contain valid UTF-8", cause.description());
}

#[test]
fn classified_read_failure_has_no_cause() {
    let e = FileReadError::convert(Platform::Posix, not_found(), "/tmp/x", false);
    assert!(!HasOtherError::is_other(&e));
    assert!(e.downcast_other_ref().is_none());
}

#[test]
fn already_exists_is_no_category_of_a_read() {
    let failure = IoFailure::new(IoFailureKind::AlreadyExists, "File exists (os error 17)");
    let e = FileReadError::convert(Platform::Posix, failure, "/tmp/x", false);
    assert_eq!(FileReadErrorKind::Other, e.kind());
    let wrapped = FileReadError::other(IoFailure::new(IoFailureKind::NotFound, "gone"));
    assert_eq!(FileReadErrorKind::Other, wrapped.kind());
    assert_eq!("gone", wrapped.message());
}

#[test]
fn test_read_text_file_succeeds() {
    let outcome = Ok("hello-world".to_string());
    let value = joatmon::fs::read::read_text_file(
        outcome,
        "/tmp/joatmon-test/file.txt",
        Platform::Posix,
        false,
    )
    .expect("must succeed");
    assert_eq!("hello-world", value);
}

#[test]
fn test_read_bytes_succeeds() {
    let outcome = Ok(br"hello-world".to_vec());
    let value = joatmon::fs::read::read_bytes(
        outcome,
        "/tmp/joatmon-test/file.txt",
        Platform::Posix,
        false,
    )
    .expect("must succeed");
    assert_eq!(br"hello-world".to_vec(), value);
}

#[test]
fn test_read_bytes_not_found_fails() {
    let path = "/tmp/joatmon-test/file.txt";
    let e = match joatmon::fs::read::read_bytes(Err(not_found()), path, Platform::Posix, false) {
        Ok(_) => panic!("read_bytes must fail"),
        Err(e) => e,
    };

    assert_eq!(FileReadErrorKind::NotFound, e.kind());
    assert!(e.is_not_found());
    assert!(!e.is_other());
    let message = e.message();
    assert!(message.contains(path));
}

#[test]
fn test_open_file_not_found_fails() {
    let path = "/tmp/joatmon-test/file.txt";
    let outcome: Result<u32, IoFailure> = Err(not_found());
    let e = match joatmon::fs::read::read_outcome(outcome, path, Platform::Posix, false) {
        Ok(_) => panic!("open_file must fail"),
        Err(e) => e,
    };

    assert_eq!(FileReadErrorKind::NotFound, e.kind());
    assert!(e.is_not_found());
    assert!(!e.is_other());
    let message = e.message();
    assert!(message.contains(path));
}

#[test]
fn read_outcome_hands_the_contents_through() {
    let outcome: Result<u32, IoFailure> = Ok(7);
    let read = joatmon::fs::read::read_outcome(outcome, "/tmp/x", Platform::Windows, true);
    assert_eq!(7, read.expect("must succeed"));
}
