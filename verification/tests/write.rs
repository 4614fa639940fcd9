use joatmon::error::HasOtherError;
use joatmon::fs::failure::{IoFailure, IoFailureKind};
use joatmon::fs::write::{FileWriteError, FileWriteErrorKind, OpenMode, WritePlan, WriteStage};

fn file_exists() -> IoFailure {
    IoFailure::new(IoFailureKind::AlreadyExists, "File exists (os error 17)")
}

#[test]
fn test_safe_write_file_exists_no_overwrite_fails() {
    let path = "/tmp/joatmon-test/file.txt";
    let plan = WritePlan::new(path, false);
    assert_eq!(OpenMode::CreateNew, plan.mode());

    let e = FileWriteError::convert_at(WriteStage::File, file_exists(), path);

    assert_eq!(FileWriteErrorKind::AlreadyExists, e.kind());
    assert!(e.is_already_exists());
    assert!(!e.is_other());
    let message = e.message();
    assert!(message.contains(path));
    assert_eq!("File /tmp/joatmon-test/file.txt already exists", message);
    assert_eq!(Some(path), e.path());
    assert!(e.downcast_other_ref().is_none());
}

#[test]
fn test_safe_write_file_exists_overwrite_succeeds() {
    let plan = WritePlan::new("/tmp/joatmon-test/file.txt", true);
    assert_eq!(OpenMode::Truncate, plan.mode());
    assert_eq!("/tmp/joatmon-test", plan.directory());
}

#[test]
fn plan_names_the_parent_directory() {
    assert_eq!("/tmp/a/b", WritePlan::new("/tmp/a/b/file.txt", false).directory());
    assert_eq!("", WritePlan::new("file.txt", false).directory());
    assert_eq!("a", WritePlan::new("a/file.txt", true).directory());
}

#[test]
fn plan_of_a_path_without_parent_names_the_path() {
    assert_eq!("/", WritePlan::new("/", false).directory());
    assert_eq!("", WritePlan::new("", false).directory());
}

#[test]
fn directory_failure_is_never_classified() {
    let path = "/tmp/joatmon-test/file.txt";
    let e = FileWriteError::convert_at(WriteStage::Directories, file_exists(), path);
    assert_eq!(FileWriteErrorKind::Other, e.kind());
    assert!(e.is_other());
    assert!(HasOtherError::is_other(&e));
    assert!(!e.is_already_exists());
    assert_eq!(None, e.path());
    assert_eq!("File exists (os error 17)", e.message());
    let cause = e.downcast_other_ref().expect("must be Some");
    assert_eq!(IoFailureKind::AlreadyExists, cause.kind());
}

#[test]
fn other_write_failure_keeps_its_cause() {
    let failure = IoFailure::new(IoFailureKind::PermissionDenied, "Permission denied (os error 13)");
    let e = FileWriteError::convert(failure, "/root/file.txt");
    assert_eq!(FileWriteErrorKind::Other, e.kind());
    assert_eq!("Permission denied (os error 13)", e.message());
    let cause = e.downcast_other_ref().expect("must be Some");
    assert_eq!(IoFailureKind::PermissionDenied, cause.kind());

    let wrapped = FileWriteError::other(IoFailure::new(IoFailureKind::NotFound, "gone"));
    assert!(wrapped.is_other());
}

#[test]
fn write_outcome_by_stage() {
    let path = "/tmp/joatmon-test/file.txt";
    let done: Result<u32, IoFailure> = Ok(7);
    assert_eq!(
        7,
        joatmon::fs::write::write_outcome(WriteStage::File, done, path).expect("must succeed")
    );

    let refused: Result<u32, IoFailure> = Err(file_exists());
    let e = joatmon::fs::write::write_outcome(WriteStage::File, refused, path)
        .expect_err("must fail");
    assert_eq!(FileWriteErrorKind::AlreadyExists, e.kind());

    let refused: Result<u32, IoFailure> = Err(file_exists());
    let e = joatmon::fs::write::write_outcome(WriteStage::Directories, refused, path)
        .expect_err("must fail");
    assert_eq!(FileWriteErrorKind::Other, e.kind());
}
