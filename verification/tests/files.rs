use std::path::Path;
use test_files::{TestFiles, TestFilesError};

fn read(path: &str) -> String {
    touch::file::read(path).unwrap()
}

#[test]
fn makes_deletes_files() {
    let tmp_path: Option<String>;
    {
        let files = TestFiles::try_new().unwrap();
        tmp_path = Some(files.path().to_string());

        let content = "---\nversion: 3\n";

        files.try_file("a/b/index.yml", content).unwrap();
        let file_path = format!("{}/a/b/index.yml", files.path());
        let written_content = read(&file_path);
        assert_eq!(written_content, content);
    }
    // directory is cleaned up when TestFiles falls out of scope
    assert!(!Path::new(&tmp_path.unwrap()).is_dir());
}

#[test]
fn write_read_round_trip() {
    let files = TestFiles::try_new().unwrap();
    files.try_file("note.txt", "hello world").unwrap();
    assert_eq!(read(&format!("{}/note.txt", files.path())), "hello world");
}

#[test]
fn overwrite_truncates() {
    let files = TestFiles::try_new().unwrap();
    files.try_file("same.txt", "a much longer first content").unwrap();
    files.try_file("same.txt", "c2").unwrap();
    assert_eq!(read(&format!("{}/same.txt", files.path())), "c2");
}

#[test]
fn creates_intermediate_directories() {
    let files = TestFiles::try_new().unwrap();
    files.try_file("a/b/c.txt", "deep").unwrap();
    let root = files.path();
    assert!(Path::new(&format!("{}/a", root)).is_dir());
    assert!(Path::new(&format!("{}/a/b", root)).is_dir());
    assert_eq!(read(&format!("{}/a/b/c.txt", root)), "deep");
}

#[test]
fn cleanup_on_scope_end() {
    let root: String;
    {
        let files = TestFiles::try_new().unwrap();
        root = files.path().to_string();
        files.try_file("kept/until/drop.txt", "transient").unwrap();
        assert!(Path::new(&root).is_dir());
    }
    assert!(!Path::new(&root).is_dir());
    assert!(!Path::new(&format!("{}/kept/until/drop.txt", root)).exists());
}

#[test]
fn two_instances_are_isolated() {
    let first = TestFiles::try_new().unwrap();
    let second = TestFiles::try_new().unwrap();
    let a = first.path().to_string();
    let b = second.path().to_string();
    assert_ne!(a, b);
    assert!(!a.starts_with(&format!("{}/", b)));
    assert!(!b.starts_with(&format!("{}/", a)));
}

#[test]
fn chained_writes_both_exist() {
    let files = TestFiles::try_new().unwrap();
    files
        .try_file("a/b/c.txt", "ok")
        .unwrap()
        .try_file("b/c/d.txt", "fine")
        .unwrap();
    let root = files.path();
    assert_eq!(read(&format!("{}/a/b/c.txt", root)), "ok");
    assert_eq!(read(&format!("{}/b/c/d.txt", root)), "fine");
}

#[test]
fn path_is_an_existing_directory() {
    let files = TestFiles::try_new().unwrap();
    assert!(Path::new(files.path()).is_dir());
}

#[test]
fn nul_in_path_is_a_path_error() {
    let files = TestFiles::try_new().unwrap();
    match files.try_file("bad\0name.txt", "x") {
        Err(TestFilesError::PathError { path }) => assert_eq!(path, "bad\0name.txt"),
        Err(_) => panic!("expected a path error"),
        Ok(_) => panic!("expected an error"),
    }
    // the object is otherwise unaffected
    files.try_file("good.txt", "still fine").unwrap();
    assert_eq!(read(&format!("{}/good.txt", files.path())), "still fine");
}

#[test]
fn empty_content_makes_empty_file() {
    let files = TestFiles::try_new().unwrap();
    files.try_file("empty.txt", "").unwrap();
    let target = format!("{}/empty.txt", files.path());
    assert!(Path::new(&target).is_file());
    assert_eq!(read(&target), "");
}

#[test]
fn os_refusal_is_a_write_error() {
    let files = TestFiles::try_new().unwrap();
    files.try_file("f", "plain file").unwrap();
    // "f" is a file, so no directory can be created beneath it
    match files.try_file("f/g.txt", "cannot exist") {
        Err(e) => assert!(matches!(e, TestFilesError::FileWriteError { .. })),
        Ok(_) => panic!("expected an error"),
    }
}
