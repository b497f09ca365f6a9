// Decomposition of watch paths into parent directory and file name, and the
// synthetic result a failed spawn is downgraded to.

use watchc::outcome::{ExecutionResult, SPAWN_FAILURE_STATUS};
use watchc::target::WatchTarget;

fn split(path: &[u8]) -> Option<WatchTarget> {
    WatchTarget::from_path(&path.to_vec())
}

#[test]
fn relative_path_splits_at_last_separator() {
    let t = split(b"watched/file.txt").unwrap();
    assert_eq!(t.parent, b"watched".to_vec());
    assert_eq!(t.file_name, Some(b"file.txt".to_vec()));
}

#[test]
fn absolute_path_keeps_the_root_as_parent() {
    let t = split(b"/tmp/file.txt").unwrap();
    assert_eq!(t.parent, b"/tmp".to_vec());
    assert_eq!(t.file_name, Some(b"file.txt".to_vec()));

    let u = split(b"/file.txt").unwrap();
    assert_eq!(u.parent, b"/".to_vec());
    assert_eq!(u.file_name, Some(b"file.txt".to_vec()));
}

#[test]
fn bare_name_has_the_empty_parent() {
    let t = split(b"file.txt").unwrap();
    assert_eq!(t.parent, b"".to_vec());
    assert_eq!(t.file_name, Some(b"file.txt".to_vec()));
}

#[test]
fn trailing_separators_are_ignored() {
    let t = split(b"a/b/").unwrap();
    assert_eq!(t.parent, b"a".to_vec());
    assert_eq!(t.file_name, Some(b"b".to_vec()));

    let u = split(b"a/b///").unwrap();
    assert_eq!(u.parent, b"a".to_vec());
    assert_eq!(u.file_name, Some(b"b".to_vec()));
}

#[test]
fn repeated_separators_collapse() {
    let t = split(b"a//b").unwrap();
    assert_eq!(t.parent, b"a".to_vec());
    assert_eq!(t.file_name, Some(b"b".to_vec()));
}

#[test]
fn root_and_empty_path_have_no_target() {
    assert!(split(b"").is_none());
    assert!(split(b"/").is_none());
    assert!(split(b"///").is_none());
}

#[test]
fn dot_components_name_no_file() {
    let t = split(b"a/..").unwrap();
    assert_eq!(t.parent, b"a".to_vec());
    assert_eq!(t.file_name, None);

    let u = split(b"a/.").unwrap();
    assert_eq!(u.parent, b"a".to_vec());
    assert_eq!(u.file_name, None);

    let v = split(b"..").unwrap();
    assert_eq!(v.parent, b"".to_vec());
    assert_eq!(v.file_name, None);
}

#[test]
fn dotted_names_are_ordinary_names() {
    let t = split(b"a/...").unwrap();
    assert_eq!(t.file_name, Some(b"...".to_vec()));
    let u = split(b"a/.hidden").unwrap();
    assert_eq!(u.file_name, Some(b".hidden".to_vec()));
}

#[test]
fn spawn_failure_is_a_fixed_silent_failure() {
    let r = ExecutionResult::spawn_failure();
    assert_eq!(r.status, SPAWN_FAILURE_STATUS);
    assert_eq!(r.status, 1);
    assert!(r.stdout.is_empty());
    assert!(r.stderr.is_empty());
}

#[test]
fn completed_keeps_what_the_process_reported() {
    let r = ExecutionResult::completed(b"out".to_vec(), b"err".to_vec(), 0);
    assert_eq!(r.stdout, b"out".to_vec());
    assert_eq!(r.stderr, b"err".to_vec());
    assert_eq!(r.status, 0);
}
