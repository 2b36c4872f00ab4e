use mdslide::workspace::{
    create_directory, delete_file, ensure_directory, io_error, refusal, rename_file, ErrorKind,
    FsOp,
};

#[test]
fn ensure_directory_twice_creates_then_skips() {
    let first = ensure_directory("/ws/notes", false);
    assert!(matches!(first, Some(FsOp::CreateDirAll(ref p)) if p == "/ws/notes"));
    let second = ensure_directory("/ws/notes", true);
    assert!(second.is_none());
}

#[test]
fn create_directory_on_existing_path_is_refused() {
    let r = create_directory("/ws/notes", true);
    assert!(matches!(r, Err(ErrorKind::AlreadyExists)));
}

#[test]
fn create_directory_on_free_path_creates_chain() {
    let r = create_directory("/ws/a/b/c", false);
    assert!(matches!(r, Ok(FsOp::CreateDirAll(ref p)) if p == "/ws/a/b/c"));
}

#[test]
fn rename_existing_to_free_path() {
    let r = rename_file("/ws/a.md", "/ws/b.md", true, false);
    assert!(matches!(r, Ok(FsOp::Rename(ref a, ref b)) if a == "/ws/a.md" && b == "/ws/b.md"));
}

#[test]
fn rename_onto_existing_is_refused() {
    let r = rename_file("/ws/a.md", "/ws/b.md", true, true);
    assert!(matches!(r, Err(ErrorKind::AlreadyExists)));
}

#[test]
fn rename_missing_source_is_not_found() {
    let r = rename_file("/ws/a.md", "/ws/b.md", false, false);
    assert!(matches!(r, Err(ErrorKind::NotFound)));
    let r = rename_file("/ws/a.md", "/ws/b.md", false, true);
    assert!(matches!(r, Err(ErrorKind::NotFound)));
}

#[test]
fn delete_directory_is_recursive() {
    let r = delete_file("/ws/dir", true, true);
    assert!(matches!(r, Ok(FsOp::RemoveDirAll(ref p)) if p == "/ws/dir"));
}

#[test]
fn delete_file_removes_single_file() {
    let r = delete_file("/ws/a.md", true, false);
    assert!(matches!(r, Ok(FsOp::RemoveFile(ref p)) if p == "/ws/a.md"));
}

#[test]
fn delete_missing_is_not_found() {
    let r = delete_file("/ws/gone", false, false);
    assert!(matches!(r, Err(ErrorKind::NotFound)));
}

#[test]
fn errors_carry_kind_and_cause() {
    let e = io_error("disk full".to_string());
    assert_eq!(e.kind, ErrorKind::Io);
    assert_eq!(e.message(), "disk full");
    let e = refusal(ErrorKind::NotFound);
    assert_eq!(e.kind, ErrorKind::NotFound);
    assert_eq!(e.message(), "the file does not exist");
    let e = refusal(ErrorKind::AlreadyExists);
    assert_eq!(e.message(), "a file or directory with the same name already exists");
}
