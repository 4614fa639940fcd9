use joatmon::fs::find::{
    find_sentinel, find_sentinel_dir, find_sentinel_file, first_present, hop_limit,
    sentinel_candidates, SentinelKind, DEFAULT_HOP_LIMIT,
};
use std::path::Path;
use tempdir::TempDir;

fn text(path: &Path) -> String {
    path.to_str().expect("must be valid string").to_string()
}

fn name_of(path: &Path) -> String {
    let name = path.file_name().expect("must have a name");
    name.to_str().expect("must be valid string").to_string()
}

#[test]
fn test_find_sentinel_dir_found() {
    // Arrange: the sentinel stands two hops above the start
    let temp_dir = TempDir::new("joatmon-test").expect("must succeed");
    let aaa = TempDir::new_in(temp_dir.path(), "aaa").expect("must succeed");
    let sentinel = TempDir::new_in(aaa.path(), "SENTINEL").expect("must succeed");
    let start_dir = aaa.path().join("bbb").join("ccc");

    // Act
    let value = find_sentinel_dir(&name_of(sentinel.path()), &text(&start_dir), Some(3));

    // Assert
    assert_eq!(Some(text(sentinel.path())), value);
}

#[test]
fn test_find_sentinel_dir_not_found() {
    let temp_dir = TempDir::new("joatmon-test").expect("must succeed");
    let start_dir = temp_dir.path().join("aaa").join("bbb").join("ccc");

    let value = find_sentinel_dir("SENTINEL", &text(&start_dir), Some(3));

    assert!(value.is_none());
}

#[test]
fn find_sentinel_dir_beyond_the_limit() {
    // The sentinel stands four hops above the start
    let temp_dir = TempDir::new("joatmon-test").expect("must succeed");
    let sentinel = TempDir::new_in(temp_dir.path(), "SENTINEL").expect("must succeed");
    let start_dir = temp_dir.path().join("aaa").join("bbb").join("ccc").join("ddd");
    let name = name_of(sentinel.path());

    assert!(find_sentinel_dir(&name, &text(&start_dir), Some(3)).is_none());
    assert!(find_sentinel_dir(&name, &text(&start_dir), Some(4)).is_none());
    assert_eq!(
        Some(text(sentinel.path())),
        find_sentinel_dir(&name, &text(&start_dir), Some(5))
    );
    assert_eq!(
        Some(text(sentinel.path())),
        find_sentinel_dir(&name, &text(&start_dir), None)
    );
    assert_eq!(
        Some(text(sentinel.path())),
        find_sentinel_dir(&name, &text(&start_dir), Some(-1))
    );
}

#[test]
fn find_sentinel_dir_takes_the_nearest() {
    let temp_dir = TempDir::new("joatmon-test").expect("must succeed");
    let inner = TempDir::new_in(temp_dir.path(), "inner").expect("must succeed");
    let name = name_of(inner.path());
    let nested = inner.path().join(&name);
    let start_dir = inner.path().join("aaa");

    // Only the outer one exists: found one hop further up
    assert_eq!(
        Some(text(inner.path())),
        find_sentinel_dir(&name, &text(&start_dir), Some(3))
    );
    assert!(find_sentinel_dir(&name, &text(&nested), Some(1)).is_none());
}

#[test]
fn find_sentinel_with_no_hops() {
    let temp_dir = TempDir::new("joatmon-test").expect("must succeed");
    let sentinel = TempDir::new_in(temp_dir.path(), "SENTINEL").expect("must succeed");
    let name = name_of(sentinel.path());
    assert!(find_sentinel_dir(&name, &text(temp_dir.path()), Some(0)).is_none());
    assert!(find_sentinel_file(&name, &text(temp_dir.path()), Some(0)).is_none());
    assert_eq!(
        Some(text(sentinel.path())),
        find_sentinel_dir(&name, &text(temp_dir.path()), Some(1))
    );
}

#[test]
fn test_find_sentinel_file_found() {
    // A file that stands on every system of this family; elsewhere there is
    // nothing to find
    let sentinel_file_path = Path::new("/etc/passwd");
    if !sentinel_file_path.is_file() {
        return;
    }
    let start_dir = Path::new("/etc").join("aaa").join("bbb");

    let value = find_sentinel_file("passwd", &text(&start_dir), Some(3));

    assert_eq!(Some(text(sentinel_file_path)), value);
    assert!(find_sentinel_file("passwd", &text(&start_dir), Some(2)).is_none());
    assert!(find_sentinel_dir("passwd", &text(&start_dir), Some(3)).is_none());
}

#[test]
fn test_find_sentinel_file_not_found() {
    let temp_dir = TempDir::new("joatmon-test").expect("must succeed");
    let start_dir = temp_dir.path().join("aaa").join("bbb").join("ccc");

    let value = find_sentinel_file("SENTINEL", &text(&start_dir), Some(3));

    assert!(value.is_none());
}

#[test]
fn a_directory_is_no_sentinel_file() {
    let temp_dir = TempDir::new("joatmon-test").expect("must succeed");
    let sentinel = TempDir::new_in(temp_dir.path(), "SENTINEL").expect("must succeed");
    let name = name_of(sentinel.path());
    let start_dir = temp_dir.path().join("aaa");

    assert!(find_sentinel_file(&name, &text(&start_dir), Some(3)).is_none());
    assert!(find_sentinel(&name, &text(&start_dir), Some(3), SentinelKind::File).is_none());
    assert_eq!(
        Some(text(sentinel.path())),
        find_sentinel(&name, &text(&start_dir), Some(3), SentinelKind::Directory)
    );
}

#[test]
fn sentinel_candidates_walk_upward() {
    let places = sentinel_candidates("SENTINEL", "/tmp/x/aaa/bbb/ccc", Some(3));
    assert_eq!(
        vec![
            "/tmp/x/aaa/bbb/ccc/SENTINEL".to_string(),
            "/tmp/x/aaa/bbb/SENTINEL".to_string(),
            "/tmp/x/aaa/SENTINEL".to_string(),
        ],
        places
    );
}

#[test]
fn sentinel_candidates_stop_at_the_root() {
    let places = sentinel_candidates("SENTINEL", "/aaa/bbb", None);
    assert_eq!(
        vec![
            "/aaa/bbb/SENTINEL".to_string(),
            "/aaa/SENTINEL".to_string(),
            "/SENTINEL".to_string(),
        ],
        places
    );
    let relative = sentinel_candidates("SENTINEL", "aaa", Some(-5));
    assert_eq!(vec!["aaa/SENTINEL".to_string(), "SENTINEL".to_string()], relative);
    assert!(sentinel_candidates("SENTINEL", "/aaa", Some(0)).is_empty());
}

#[test]
fn hop_limit_basics() {
    assert_eq!(30, DEFAULT_HOP_LIMIT);
    assert_eq!(30, hop_limit(None));
    assert_eq!(0, hop_limit(Some(0)));
    assert_eq!(3, hop_limit(Some(3)));
    assert_eq!(2_147_483_647, hop_limit(Some(i32::MAX)));
    assert_eq!(4_294_967_295, hop_limit(Some(-1)));
    assert_eq!(2_147_483_648, hop_limit(Some(i32::MIN)));
}

#[test]
fn first_present_basics() {
    let candidates = vec!["c".to_string(), "b".to_string(), "a".to_string()];
    assert_eq!(
        Some("a".to_string()),
        first_present(&candidates, &vec![false, false, true])
    );
    assert_eq!(
        Some("b".to_string()),
        first_present(&candidates, &vec![false, true, true])
    );
    assert_eq!(None, first_present(&candidates, &vec![false, false, false]));
    assert_eq!(None, first_present(&candidates, &vec![false, false]));
    assert_eq!(None, first_present(&candidates, &vec![]));
    assert_eq!(
        Some("c".to_string()),
        first_present(&candidates, &vec![true, false, false, true])
    );
    assert_eq!(None, first_present(&vec![], &vec![true]));
}
