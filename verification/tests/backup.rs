use chrono::{TimeZone, Utc};
use joatmon::fs::backup::{
    generate_backup_path, safe_back_up, safe_back_up_inner, try_safe_back_up, BackupStep,
};
use joatmon::fs::failure::{IoFailure, IoFailureKind};
use joatmon::fs::paths::Timestamp;

fn march_2019() -> Timestamp {
    let dt = Utc
        .with_ymd_and_hms(2019, 3, 17, 16, 43, 0)
        .single()
        .expect("must be valid");
    Timestamp::from_millis(dt.timestamp_millis()).expect("must be valid")
}

fn taken() -> Result<(), IoFailure> {
    Err(IoFailure::new(IoFailureKind::AlreadyExists, "File exists (os error 17)"))
}

#[test]
fn no_conflict() {
    let path = "/tmp/joatmon-test/file.ext";

    let backup = safe_back_up_inner(path, Some(march_2019()));
    assert_eq!(path, backup.source());
    assert_eq!("/tmp/joatmon-test/file-20190317T164300000Z.ext", backup.candidate());

    match backup.advance(Ok(())) {
        BackupStep::Copy { from, to } => {
            assert_ne!(path, to);
            assert_eq!(path, from);
            assert_eq!("/tmp/joatmon-test/file-20190317T164300000Z.ext", to);
        }
        other => panic!("must copy, not {other:?}"),
    }
}

#[test]
fn conflict() {
    let path1 = "/tmp/joatmon-test/file.ext";
    // Deliberately conflicting file name
    let path2 = "/tmp/joatmon-test/file-20190317T164300000Z.ext";

    let backup = safe_back_up_inner(path1, Some(march_2019()));
    assert_eq!(path2, backup.candidate());

    let retry = match backup.advance(taken()) {
        BackupStep::Retry(next) => next,
        other => panic!("must retry, not {other:?}"),
    };
    assert_eq!(path1, retry.source());
    assert_ne!(path1, retry.candidate());
    assert_ne!(path2, retry.candidate());

    match retry.advance(Ok(())) {
        BackupStep::Copy { from, to } => {
            assert_eq!(path1, from);
            assert_ne!(path1, to);
            assert_ne!(path2, to);
        }
        other => panic!("must copy, not {other:?}"),
    }
}

#[test]
fn retry_is_labelled_with_the_given_instant() {
    let path = "/tmp/joatmon-test/file.ext";
    let later = Timestamp::from_millis(march_2019().millis() + 1).expect("must be valid");

    let backup = safe_back_up_inner(path, Some(march_2019()));
    match backup.resolve(taken(), &later) {
        BackupStep::Retry(next) => {
            assert_eq!("/tmp/joatmon-test/file-20190317T164300001Z.ext", next.candidate());
            assert_eq!(path, next.source());
        }
        other => panic!("must retry, not {other:?}"),
    }
}

#[test]
fn other_failure_ends_the_backup() {
    let backup = safe_back_up_inner("/tmp/joatmon-test/file.ext", Some(march_2019()));
    let denied = IoFailure::new(IoFailureKind::PermissionDenied, "Permission denied (os error 13)");
    match backup.resolve(Err(denied), &march_2019()) {
        BackupStep::Fail(failure) => {
            assert_eq!(IoFailureKind::PermissionDenied, failure.kind());
            assert_eq!("Permission denied (os error 13)", failure.description());
        }
        other => panic!("must fail, not {other:?}"),
    }
}

#[test]
fn generate_backup_path_basics() {
    assert_eq!(
        "/aaa/bbb/ccc-20190317T164300000Z.txt",
        generate_backup_path("/aaa/bbb/ccc.txt", &march_2019())
    );
    assert_eq!(
        "/aaa/bbb/ccc-20190317T164300000Z",
        generate_backup_path("/aaa/bbb/ccc", &march_2019())
    );
}

#[test]
fn backup_needs_an_absolute_path_with_a_file_name() {
    assert!(try_safe_back_up("file.ext", Some(march_2019())).is_none());
    assert!(try_safe_back_up("aaa/file.ext", None).is_none());
    assert!(try_safe_back_up("/", Some(march_2019())).is_none());
    assert!(try_safe_back_up("", None).is_none());
    let started = try_safe_back_up("/aaa/file.ext", Some(march_2019())).expect("must be Some");
    assert_eq!("/aaa/file-20190317T164300000Z.ext", started.candidate());
}

#[test]
fn backup_now_is_labelled_with_the_clock() {
    let backup = safe_back_up("/aaa/file.ext");
    let candidate = backup.candidate();
    assert!(candidate.starts_with("/aaa/file-2"));
    assert!(candidate.ends_with("Z.ext"));
    assert_eq!("/aaa/file-20190317T164300000Z.ext".len(), candidate.len());
    assert!(candidate > "/aaa/file-20190317T164300000Z.ext");
}
