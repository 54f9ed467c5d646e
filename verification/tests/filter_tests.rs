use openbook::error::Error;
use openbook::fs::{filter_raw_fs_event, FileSystemEvent, RawFileSystemEvent};

fn s(text: &str) -> String {
    String::from(text)
}

#[test]
fn creation_maps_to_create() {
    let r = filter_raw_fs_event(RawFileSystemEvent::Create(s("/a/b")));
    assert!(matches!(r, Some(FileSystemEvent::Create(ref p)) if p == "/a/b"));
}

#[test]
fn removal_maps_to_delete() {
    let r = filter_raw_fs_event(RawFileSystemEvent::Remove(s("/a/b")));
    assert!(matches!(r, Some(FileSystemEvent::Delete(ref p)) if p == "/a/b"));
}

#[test]
fn rename_maps_to_one_rename_with_both_paths() {
    let r = filter_raw_fs_event(RawFileSystemEvent::Rename(s("/a/old"), s("/a/new")));
    assert!(
        matches!(r, Some(FileSystemEvent::Rename { ref from, ref to }) if from == "/a/old" && to == "/a/new")
    );
}

#[test]
fn write_maps_to_write() {
    let r = filter_raw_fs_event(RawFileSystemEvent::Write(s("/a/b")));
    assert!(matches!(r, Some(FileSystemEvent::Write(ref p)) if p == "/a/b"));
}

#[test]
fn backend_error_maps_to_inner_error_with_path() {
    let r = filter_raw_fs_event(RawFileSystemEvent::Error(s("queue overflow"), Some(s("/a"))));
    match r {
        Some(FileSystemEvent::Error(Error::Inner(m), Some(p))) => {
            assert_eq!(m, "queue overflow");
            assert_eq!(p, "/a");
        }
        other => panic!("unexpected normalization: {:?}", other),
    }
}

#[test]
fn backend_error_without_path_keeps_no_path() {
    let r = filter_raw_fs_event(RawFileSystemEvent::Error(s("boom"), None));
    assert!(matches!(r, Some(FileSystemEvent::Error(Error::Inner(ref m), None)) if m == "boom"));
}

#[test]
fn normalization_keeps_relative_order_and_never_duplicates() {
    let raws = vec![
        RawFileSystemEvent::Create(s("/a")),
        RawFileSystemEvent::Rescan,
        RawFileSystemEvent::Write(s("/b")),
        RawFileSystemEvent::NoticeRemove(s("/c")),
        RawFileSystemEvent::Remove(s("/c")),
    ];
    let mut out = Vec::new();
    for raw in raws {
        if let Some(e) = filter_raw_fs_event(raw) {
            out.push(e);
        }
    }
    assert_eq!(out.len(), 3);
    assert!(matches!(out[0], FileSystemEvent::Create(ref p) if p == "/a"));
    assert!(matches!(out[1], FileSystemEvent::Write(ref p) if p == "/b"));
    assert!(matches!(out[2], FileSystemEvent::Delete(ref p) if p == "/c"));
}

#[test]
fn housekeeping_kinds_are_dropped() {
    assert!(filter_raw_fs_event(RawFileSystemEvent::NoticeWrite(s("/a"))).is_none());
    assert!(filter_raw_fs_event(RawFileSystemEvent::NoticeRemove(s("/a"))).is_none());
    assert!(filter_raw_fs_event(RawFileSystemEvent::Chmod(s("/a"))).is_none());
    assert!(filter_raw_fs_event(RawFileSystemEvent::Rescan).is_none());
}
