//! The local-disk backend: a [`FileSystemWatcher`] implementation driven by
//! the `notify` crate, and the change-notification pipeline around it.
//!
//! Construction of a watcher creates an internal unbounded FIFO channel for
//! raw backend events, hands out a [`FileSystemEventPump`] that receives raw
//! events one by one, normalizes them and forwards the survivors into the
//! consumer's sink, and initializes the OS-level observer that feeds the
//! channel, with no debounce delay. The pump's loop is the whole behaviour
//! of the watcher's single background observation thread; creating that
//! thread, like the blocking read operations of the
//! [`FileSystem`](crate::fs::FileSystem) capability, is bare OS work with no
//! logic of its own and belongs to the embedding application.

use vstd::prelude::*;

use notify::{DebouncedEvent, Watcher};

use crate::error::Error;
use crate::fs::{
    filter_raw_fs_event, FileSystemEvent, FileSystemEventSink, FileSystemWatchMode,
    FileSystemWatcher, RawFileSystemEvent,
};

verus! {

#[verifier::external_type_specification]
#[verifier::external_body]
pub struct ExRecommendedWatcher(notify::RecommendedWatcher);

#[verifier::external_type_specification]
#[verifier::external_body]
pub struct ExDebouncedEvent(notify::DebouncedEvent);

#[verifier::external_type_specification]
#[verifier::external_body]
#[verifier::reject_recursive_types(T)]
pub struct ExMutex<T: ?Sized>(std::sync::Mutex<T>);

/// Relies on `std::sync::mpsc::channel`: creates a connected, unbounded,
/// FIFO, multi-producer/single-consumer channel for raw backend events.
#[verifier::external_body]
fn raw_event_channel() -> (r: (
    std::sync::mpsc::Sender<notify::DebouncedEvent>,
    std::sync::mpsc::Receiver<notify::DebouncedEvent>,
)) {
    std::sync::mpsc::channel()
}

/// Relies on `std::sync::mpsc::Receiver::recv`: blocks until one raw event
/// arrives and returns it, or returns nothing once the channel has been
/// closed (every sender dropped), after which no event will ever arrive.
#[verifier::external_body]
fn receive_raw_event(
    receiver: &std::sync::mpsc::Receiver<notify::DebouncedEvent>,
) -> (r: Option<notify::DebouncedEvent>) {
    receiver.recv().ok()
}

/// Relies on the vocabulary of `notify::DebouncedEvent`: re-states the
/// received raw event variant for variant, with each path rendered as plain
/// text and a backend failure rendered as its description.
#[verifier::external_body]
fn raw_event_of(event: DebouncedEvent) -> (r: RawFileSystemEvent) {
    let t = |p: std::path::PathBuf| p.to_string_lossy().into_owned();
    match event {
        DebouncedEvent::NoticeWrite(p) => RawFileSystemEvent::NoticeWrite(t(p)),
        DebouncedEvent::NoticeRemove(p) => RawFileSystemEvent::NoticeRemove(t(p)),
        DebouncedEvent::Create(p) => RawFileSystemEvent::Create(t(p)),
        DebouncedEvent::Write(p) => RawFileSystemEvent::Write(t(p)),
        DebouncedEvent::Chmod(p) => RawFileSystemEvent::Chmod(t(p)),
        DebouncedEvent::Remove(p) => RawFileSystemEvent::Remove(t(p)),
        DebouncedEvent::Rename(a, b) => RawFileSystemEvent::Rename(t(a), t(b)),
        DebouncedEvent::Rescan => RawFileSystemEvent::Rescan,
        DebouncedEvent::Error(e, p) => RawFileSystemEvent::Error(e.to_string(), p.map(t)),
    }
}

/// Relies on `notify::watcher`: initializes the OS-level observer that feeds
/// its raw events into the given channel end, with a zero coalescing window
/// (every raw notification is forwarded without batching). Fails when the
/// observation mechanism cannot be initialized; the backend's failure is
/// wrapped as an `Inner` error carrying its rendered description.
#[verifier::external_body]
fn new_raw_watcher(
    sender: std::sync::mpsc::Sender<notify::DebouncedEvent>,
) -> (r: Result<notify::RecommendedWatcher, Error>)
    ensures
        r matches Err(e) ==> e is Inner,
{
    notify::watcher(sender, std::time::Duration::new(0, 0)).map_err(
        |e| Error::Inner(e.to_string()),
    )
}

/// Relies on `std::sync::Mutex::new`: puts the observer handle behind
/// mutual exclusion, so that concurrent registrations cannot race on it.
#[verifier::external_body]
fn new_watcher_lock(watcher: notify::RecommendedWatcher) -> (r: std::sync::Mutex<
    notify::RecommendedWatcher,
>) {
    std::sync::Mutex::new(watcher)
}

/// Relies on `notify::Watcher::watch`, called under the handle's lock
/// (`std::sync::Mutex::lock`): registers the path for observation,
/// recursively — the path and all its nested contents — exactly when the
/// flag says so, and the path alone otherwise (the flag maps one-for-one
/// to the backend's two-variant recursion mode). It fails exactly when the
/// backend rejects the path, and the backend's failure is wrapped as an
/// `Inner` error carrying its rendered description. A poisoned lock aborts
/// the calling thread deliberately: it signals an unrecovered panic
/// elsewhere in the process.
#[verifier::external_body]
fn watch_path(
    watcher: &std::sync::Mutex<notify::RecommendedWatcher>,
    path: &str,
    recursive: bool,
) -> (r: Result<(), Error>)
    ensures
        r matches Err(e) ==> e is Inner,
{
    let mode = if recursive {
        notify::RecursiveMode::Recursive
    } else {
        notify::RecursiveMode::NonRecursive
    };
    let mut lock = watcher.lock().expect("mutex lock failed");
    lock.watch(std::path::Path::new(path), mode).map_err(|e| Error::Inner(e.to_string()))
}

/// Translate a watch mode to the backend's native recursion flag: exactly
/// the `Recursive` mode asks for recursive registration.
pub fn backend_recursive_flag(mode: FileSystemWatchMode) -> (r: bool)
    ensures
        r == (mode is Recursive),
{
    match mode {
        FileSystemWatchMode::Normal => false,
        FileSystemWatchMode::Recursive => true,
    }
}

/// The consuming half of a watcher's change-notification pipeline: it holds
/// the receiving end of the internal raw-event channel and the consumer's
/// sink. Calling [`pump_one`](FileSystemEventPump::pump_one) until it
/// returns `false` is the entire behaviour of the watcher's background
/// observation thread; the embedding application gives that loop a
/// dedicated thread, since it blocks until the watcher is dropped.
pub struct FileSystemEventPump<S> {
    receiver: std::sync::mpsc::Receiver<notify::DebouncedEvent>,
    event_sink: S,
}

impl<S> FileSystemEventPump<S> {
    /// The sink this pump forwards normalized events into.
    pub closed spec fn spec_event_sink(&self) -> S {
        self.event_sink
    }
}

impl<S: FileSystemEventSink> FileSystemEventPump<S> {
    /// Process one raw event: block until an event arrives on the internal
    /// channel, normalize it and, if it survives the filter, forward it into
    /// the consumer's sink, discarding any delivery failure (delivery is
    /// best-effort: a failed delivery is neither retried nor fatal). Returns
    /// `false` once the channel is closed — the watcher was dropped — after
    /// which no event will ever arrive again.
    pub fn pump_one(&self) -> bool {
        let event = match receive_raw_event(&self.receiver) {
            Some(e) => e,
            None => {
                return false;
            },
        };
        let user_event = filter_raw_fs_event(raw_event_of(event));
        if let Some(e) = user_event {
            let _ = self.event_sink.send(e);
        }
        true
    }
}

/// An implementation of the [`FileSystem`](crate::fs::FileSystem)
/// capability that operates on the local file system. It is logically
/// stateless: a capability provider, not a stateful session.
pub struct LocalFileSystem;

impl LocalFileSystem {
    /// Create a new `LocalFileSystem` instance.
    pub fn new() -> LocalFileSystem {
        LocalFileSystem
    }

    /// Create a file system watcher that emits normalized events into the
    /// specified event sink; see [`LocalFileSystemWatcher::new`].
    pub fn create_watcher<S: FileSystemEventSink + Send + 'static>(&self, event_sink: S) -> (r:
        Result<(LocalFileSystemWatcher, FileSystemEventPump<S>), Error>)
        ensures
            r matches Ok(p) ==> p.1.spec_event_sink() == event_sink,
            r matches Err(e) ==> e is Inner,
    {
        LocalFileSystemWatcher::new(event_sink)
    }
}

/// Watches file system state changes in the local file system. Owns the
/// underlying observer handle for its whole lifetime; dropping the watcher
/// drops the observer, which closes the internal channel and thereby
/// terminates the pump — and with it the background observation thread —
/// after which no further event is delivered.
pub struct LocalFileSystemWatcher {
    raw_watcher: std::sync::Mutex<notify::RecommendedWatcher>,
}

impl LocalFileSystemWatcher {
    /// Create a new `LocalFileSystemWatcher` instance, paired with the pump
    /// that carries its normalized file system events into the specified
    /// event sink: on success the returned pump holds exactly that sink.
    /// The caller gives the pump's loop a dedicated thread.
    ///
    /// Fails with an `Inner` error exactly when the OS-level observer
    /// cannot be initialized; no partial watcher is produced then, and the
    /// pump, seeing the channel closed, terminates at once.
    pub fn new<S: FileSystemEventSink + Send + 'static>(event_sink: S) -> (r: Result<
        (LocalFileSystemWatcher, FileSystemEventPump<S>),
        Error,
    >)
        ensures
            r matches Ok(p) ==> p.1.spec_event_sink() == event_sink,
            r matches Err(e) ==> e is Inner,
    {
        let (raw_events_send, raw_events_recv) = raw_event_channel();
        let pump = FileSystemEventPump { receiver: raw_events_recv, event_sink };

        match new_raw_watcher(raw_events_send) {
            Ok(w) => Ok((LocalFileSystemWatcher { raw_watcher: new_watcher_lock(w) }, pump)),
            Err(e) => Err(e),
        }
    }
}

impl FileSystemWatcher for LocalFileSystemWatcher {
    /// Translate the watch mode to the backend's native recursion flag —
    /// recursive registration exactly for the `Recursive` mode — and
    /// register the path with the shared observer handle, under its lock.
    /// Fails with an `Inner` error exactly when the backend rejects the
    /// path.
    fn watch(&self, path: &str, mode: FileSystemWatchMode) -> (r: Result<(), Error>) {
        let recursive = backend_recursive_flag(mode);
        watch_path(&self.raw_watcher, path, recursive)
    }
}

} // verus!
