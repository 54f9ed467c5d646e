use openbook::error::Error;
use openbook::fs::{channel_sink_send, FileSystemEvent, FileSystemEventSink};

#[test]
fn channel_sink_send_delivers_while_connected() {
    let (tx, rx) = std::sync::mpsc::channel();
    channel_sink_send(&tx, FileSystemEvent::Create(String::from("/a"))).unwrap();
    assert!(matches!(rx.try_recv(), Ok(FileSystemEvent::Create(ref p)) if p == "/a"));
}

#[test]
fn channel_sink_send_fails_with_inner_error_once_disconnected() {
    let (tx, rx) = std::sync::mpsc::channel();
    drop(rx);
    let result = channel_sink_send(&tx, FileSystemEvent::Write(String::from("/b")));
    assert!(matches!(result, Err(Error::Inner(_))));
}

#[test]
fn channel_sink_delivers_events_in_order() {
    let (tx, rx) = std::sync::mpsc::channel();
    FileSystemEventSink::send(&tx, FileSystemEvent::Create(String::from("/a"))).unwrap();
    FileSystemEventSink::send(&tx, FileSystemEvent::Write(String::from("/b"))).unwrap();
    assert!(matches!(rx.try_recv(), Ok(FileSystemEvent::Create(ref p)) if p == "/a"));
    assert!(matches!(rx.try_recv(), Ok(FileSystemEvent::Write(ref p)) if p == "/b"));
    assert!(rx.try_recv().is_err());
}

#[test]
fn channel_sink_fails_with_inner_error_once_receiver_is_gone() {
    let (tx, rx) = std::sync::mpsc::channel();
    drop(rx);
    let result = FileSystemEventSink::send(&tx, FileSystemEvent::Delete(String::from("/a")));
    assert!(matches!(result, Err(Error::Inner(_))));
}
