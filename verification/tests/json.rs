use joatmon::error::HasOtherError;
use joatmon::formats::json::{
    read_json_file, read_json_text, JsonCategory, JsonError, JsonErrorKind, JsonFailure,
};
use joatmon::fs::failure::{IoFailure, IoFailureKind};
use joatmon::fs::read::{FileReadError, Platform};

#[test]
fn test_read_json_file_succeeds() {
    let path = "/tmp/joatmon-test/file.json";
    let contents = Ok("{\"message\": \"hello-world\"}".to_string());

    let value = read_json_file(contents, path).expect("must succeed");

    let mut expected = serde_json::Map::new();
    expected.insert("message".to_string(), serde_json::Value::String("hello-world".to_string()));
    assert_eq!(serde_json::Value::Object(expected), value);
}

#[test]
fn test_read_json_file_invalid_fails() {
    let path = "/tmp/joatmon-test/file.json";
    let contents = Ok("xxx{\"message\": \"hello-world\"}".to_string());

    let e = match read_json_file(contents, path) {
        Ok(_) => panic!("read_json_file must fail"),
        Err(e) => e,
    };

    assert_eq!(JsonErrorKind::Syntax, e.kind());
    assert!(!e.is_data());
    assert!(!e.is_eof());
    assert!(!e.is_io());
    assert!(e.is_syntax());
    assert!(!e.is_other());
    let message = e.message();
    assert!(message.contains(path));
    assert_eq!("expected value at line 1 column 1 in /tmp/joatmon-test/file.json", message);
    assert_eq!(Some(path), e.path());
    assert_eq!(Some((1, 1)), e.location());
    assert!(e.downcast_other_ref().is_none());
}

#[test]
fn truncated_json_is_an_early_end() {
    let e = match read_json_text("{\"message\": ", "/tmp/file.json") {
        Ok(_) => panic!("read_json_text must fail"),
        Err(e) => e,
    };
    assert_eq!(JsonErrorKind::Eof, e.kind());
    assert!(e.is_eof());
    assert!(!e.is_syntax());
    assert!(e.message().ends_with(" in /tmp/file.json"));
}

#[test]
fn read_json_text_succeeds() {
    let value = read_json_text("[1, 2]", "/tmp/file.json").expect("must succeed");
    assert_eq!(serde_json::Value::Array(vec![serde_json::Value::from(1), serde_json::Value::from(2)]), value);
}

#[test]
fn unread_json_file_wraps_the_read_failure() {
    let path = "/tmp/joatmon-test/file.json";
    let failure = IoFailure::new(IoFailureKind::NotFound, "No such file or directory (os error 2)");
    let contents = Err(FileReadError::convert(Platform::Posix, failure, path, false));

    let e = match read_json_file(contents, path) {
        Ok(_) => panic!("read_json_file must fail"),
        Err(e) => e,
    };

    assert_eq!(JsonErrorKind::Other, e.kind());
    assert!(e.is_other());
    assert!(HasOtherError::is_other(&e));
    assert!(!e.is_syntax());
    assert_eq!(None, e.path());
    assert_eq!(None, e.location());
    assert!(e.message().contains(path));
    assert!(e.downcast_other_ref().expect("must be Some").is_not_found());
}

#[test]
fn json_failure_categories() {
    let path = "/tmp/file.json";
    let kinds = [
        (JsonCategory::Data, JsonErrorKind::Data),
        (JsonCategory::Eof, JsonErrorKind::Eof),
        (JsonCategory::Io, JsonErrorKind::Io),
        (JsonCategory::Syntax, JsonErrorKind::Syntax),
    ];
    for (category, kind) in kinds {
        let e = JsonError::convert(JsonFailure::new(category, "missing field", 3, 7), path);
        assert_eq!(kind, e.kind());
        assert_eq!(kind == JsonErrorKind::Data, e.is_data());
        assert_eq!(kind == JsonErrorKind::Eof, e.is_eof());
        assert_eq!(kind == JsonErrorKind::Io, e.is_io());
        assert_eq!(kind == JsonErrorKind::Syntax, e.is_syntax());
        assert!(!e.is_other());
        assert_eq!("missing field in /tmp/file.json", e.message());
        assert_eq!(Some((3, 7)), e.location());
    }
}
