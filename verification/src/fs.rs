//! A platform-independent definition of a file system that supports the
//! operations this crate needs:
//!
//! * read a file;
//! * list all entries under a directory;
//! * watch for file changes. The following events are watched: a new file is
//!   created; an existing file is deleted; a file or directory is moved
//!   (renamed); a file is written to.
//!
//! The [`FileSystem`] trait provides these operations as an abstract
//! capability: any backend may implement it. The `local` submodule provides
//! the implementation that operates on the local file system.

pub mod local;

use vstd::prelude::*;

use crate::error::Error;

verus! {

/// A file system capability. Any backend implements this trait
/// independently; the `local` submodule holds the local-disk backend.
///
/// The two existence checks are total: a path whose status cannot be
/// determined reads as "not present", never as an error.
pub trait FileSystem: Sync {
    /// Type of the directory iterator produced by `read_directory`: a lazy,
    /// forward-only, single-pass, finite sequence of per-entry results, each
    /// a resolved path or an [`Error`]; a failure on one entry does not
    /// terminate the sequence.
    type DirIter;

    /// Type of the file system watcher that emits events when the state of
    /// the file system changes.
    type Watcher: FileSystemWatcher;

    /// Whether a regular file exists at the given path.
    fn has_file(&self, path: &str) -> bool;

    /// Whether a directory exists at the given path.
    fn has_dir(&self, path: &str) -> bool;

    /// Read the whole content of the specified file as a string.
    ///
    /// Fails with an `Inner` error if the path does not exist, is not a
    /// file, or cannot be decoded as text.
    fn read_file_as_string(&self, path: &str) -> Result<String, Error>;

    /// Create a `DirIter` over all files and subdirectories immediately
    /// under the specified directory (the listing does not descend).
    ///
    /// Fails with an `Inner` error if the path does not exist or is not a
    /// directory. The returned sequence is not restartable: listing again
    /// requires calling `read_directory` again, which may observe a
    /// different directory state.
    fn read_directory(&self, path: &str) -> Result<Self::DirIter, Error>;

    /// Create a file system watcher that emits normalized events into the
    /// specified event sink, from a background observation thread that runs
    /// until the watcher is dropped.
    ///
    /// Fails with an `Inner` error if the backend's observation mechanism
    /// cannot be initialized; no partial watcher is produced then.
    fn create_watcher<S: FileSystemEventSink + Send + 'static>(&self, event_sink: S) -> Result<
        Self::Watcher,
        Error,
    >;
}

/// Watches state changes in the file system and emits corresponding events.
pub trait FileSystemWatcher {
    /// Register the specified file system path for observation under the
    /// given mode; see [`FileSystemWatchMode`] for the two modes.
    ///
    /// Fails only with an `Inner` error, when the backend rejects the path.
    fn watch(&self, path: &str, mode: FileSystemWatchMode) -> (r: Result<(), Error>)
        ensures
            r matches Err(e) ==> e is Inner,
    ;
}

/// Whether the file system watcher should watch the specified path
/// recursively.
#[derive(Clone, Copy, Debug, Eq, Hash, PartialEq, Structural)]
pub enum FileSystemWatchMode {
    /// Watch only the specified path: if it is a directory, its contained
    /// files and subdirectories are excluded.
    Normal,

    /// Watch the whole directory at the specified path (if it is a
    /// directory), including its contained files and subdirectories.
    Recursive,
}

/// File system events emitted by a file system watcher: the normalized,
/// backend-neutral vocabulary.
#[derive(Debug)]
pub enum FileSystemEvent {
    /// A file has been created at the given path.
    Create(String),

    /// The file that was at the given path has been deleted.
    Delete(String),

    /// A file or directory has been moved (renamed) from one location to
    /// another.
    Rename {
        /// The old path of the moved file.
        from: String,

        /// The new path of the moved file.
        to: String,
    },

    /// The file at the given path has been written to.
    Write(String),

    /// An error occurred in the file system watcher, possibly at a known
    /// path.
    Error(Error, Option<String>),
}

/// Raw file system events, as a backend produces them before normalization.
/// This vocabulary mirrors the one of the local backend's notification
/// facility; paths are carried as plain text, and a backend failure as its
/// rendered description.
#[derive(Debug)]
pub enum RawFileSystemEvent {
    /// First notice of a write to the path, before the write settles.
    NoticeWrite(String),

    /// First notice of a removal or rename at the path.
    NoticeRemove(String),

    /// A file or directory has been created at the path.
    Create(String),

    /// The file at the path has been written to.
    Write(String),

    /// Attributes of the file at the path have changed.
    Chmod(String),

    /// The file or directory at the path has been removed.
    Remove(String),

    /// A file or directory has been moved from the first path to the second.
    Rename(String, String),

    /// The backend detected a problem and the watched directories must be
    /// rescanned.
    Rescan,

    /// The backend reported a failure, possibly at a known path.
    Error(String, Option<String>),
}

/// The normalization filter: the total mapping from a raw backend event to
/// an optional normalized event.
///
/// Creation, removal, rename and write map to their normalized equivalents;
/// a backend-reported failure is wrapped as an `Inner` error; every other
/// raw kind (notices, attribute changes, rescans) is dropped: no event is
/// emitted for it.
pub open spec fn normalized_event(raw: RawFileSystemEvent) -> Option<FileSystemEvent> {
    match raw {
        RawFileSystemEvent::Create(path) => Some(FileSystemEvent::Create(path)),
        RawFileSystemEvent::Remove(path) => Some(FileSystemEvent::Delete(path)),
        RawFileSystemEvent::Rename(from, to) => Some(FileSystemEvent::Rename { from, to }),
        RawFileSystemEvent::Write(path) => Some(FileSystemEvent::Write(path)),
        RawFileSystemEvent::Error(inner, path) => Some(
            FileSystemEvent::Error(Error::Inner(inner), path),
        ),
        _ => None,
    }
}

/// Filter out uninteresting raw file system events, mapping the interesting
/// ones into the normalized vocabulary. Total: it never fails, it only
/// drops.
pub fn filter_raw_fs_event(raw_event: RawFileSystemEvent) -> (r: Option<FileSystemEvent>)
    ensures
        r == normalized_event(raw_event),
{
    match raw_event {
        RawFileSystemEvent::Create(path) => Some(FileSystemEvent::Create(path)),
        RawFileSystemEvent::Remove(path) => Some(FileSystemEvent::Delete(path)),
        RawFileSystemEvent::Rename(from, to) => Some(FileSystemEvent::Rename { from, to }),
        RawFileSystemEvent::Write(path) => Some(FileSystemEvent::Write(path)),
        RawFileSystemEvent::Error(inner, path) => Some(
            FileSystemEvent::Error(Error::from_inner(inner), path),
        ),
        _ => None,
    }
}

/// The normalized event stream that a sequence of raw backend events gives
/// rise to: each raw event contributes its normalized form, in order, or
/// nothing where the filter drops it.
pub open spec fn normalized_stream(raws: Seq<RawFileSystemEvent>) -> Seq<FileSystemEvent>
    decreases raws.len(),
{
    if raws.len() == 0 {
        Seq::empty()
    } else {
        match normalized_event(raws.first()) {
            Some(e) => seq![e] + normalized_stream(raws.drop_first()),
            None => normalized_stream(raws.drop_first()),
        }
    }
}

/// Law: one raw event never yields more than one normalized event — a
/// creation yields exactly one `Create`, a rename exactly one `Rename`, and
/// a dropped kind yields nothing.
pub proof fn lemma_one_raw_event_yields_at_most_one_event(raw: RawFileSystemEvent)
    ensures
        normalized_event(raw) matches Some(e) ==> normalized_stream(seq![raw]) == seq![e],
        normalized_event(raw) is None ==> normalized_stream(seq![raw]) == Seq::<
            FileSystemEvent,
        >::empty(),
{
    assert(seq![raw].len() == 1);
    assert(seq![raw].first() == raw);
    assert(seq![raw].drop_first() =~= Seq::<RawFileSystemEvent>::empty());
    assert(normalized_stream(Seq::<RawFileSystemEvent>::empty()) == Seq::<
        FileSystemEvent,
    >::empty());
    match normalized_event(raw) {
        Some(e) => {
            assert(seq![e] + Seq::<FileSystemEvent>::empty() =~= seq![e]);
            assert(normalized_stream(seq![raw]) =~= seq![e]);
        },
        None => {
        },
    }
}

/// Law: normalization never reorders or batches. The stream of a raw-event
/// sequence followed by another is the stream of the first followed by the
/// stream of the second, so normalized events keep the relative order in
/// which the backend produced the raw events.
pub proof fn lemma_normalization_keeps_order(
    first: Seq<RawFileSystemEvent>,
    second: Seq<RawFileSystemEvent>,
)
    ensures
        normalized_stream(first + second) == normalized_stream(first) + normalized_stream(second),
    decreases first.len(),
{
    if first.len() == 0 {
        assert(first + second =~= second);
        assert(normalized_stream(first) + normalized_stream(second) =~= normalized_stream(
            second,
        ));
    } else {
        lemma_normalization_keeps_order(first.drop_first(), second);
        assert((first + second).first() == first.first());
        assert((first + second).drop_first() =~= first.drop_first() + second);
        match normalized_event(first.first()) {
            Some(e) => {
                assert(normalized_stream(first + second) =~= seq![e] + (normalized_stream(
                    first.drop_first(),
                ) + normalized_stream(second)));
                assert(seq![e] + (normalized_stream(first.drop_first()) + normalized_stream(
                    second,
                )) =~= normalized_stream(first) + normalized_stream(second));
            },
            None => {
                assert(normalized_stream(first + second) =~= normalized_stream(first)
                    + normalized_stream(second));
            },
        }
    }
}

/// Law: normalization never invents events: a raw-event sequence yields at
/// most as many normalized events as it has raw events.
pub proof fn lemma_normalization_never_duplicates(raws: Seq<RawFileSystemEvent>)
    ensures
        normalized_stream(raws).len() <= raws.len(),
    decreases raws.len(),
{
    if raws.len() > 0 {
        lemma_normalization_never_duplicates(raws.drop_first());
    }
}

/// Law: a raw creation at `path` is normalized to exactly `Create(path)`;
/// in particular no write event is needed for a creation to be delivered,
/// and a creation is never normalized to anything else.
pub proof fn lemma_creation_normalizes_to_create(path: String)
    ensures
        normalized_event(RawFileSystemEvent::Create(path)) == Some(FileSystemEvent::Create(path)),
{
}

/// Law: a raw rename from `from` to `to` is normalized to exactly one
/// `Rename` event carrying both paths, never to a `Delete` plus `Create`
/// pair.
pub proof fn lemma_rename_normalizes_to_rename(from: String, to: String)
    ensures
        normalized_event(RawFileSystemEvent::Rename(from, to)) == Some(
            FileSystemEvent::Rename { from, to },
        ),
        !(normalized_event(RawFileSystemEvent::Rename(from, to)) matches Some(e) && e is Delete),
        !(normalized_event(RawFileSystemEvent::Rename(from, to)) matches Some(e) && e is Create),
{
}

/// File system watchers emit normalized file system events into this sink;
/// the consumer supplies an implementation at watcher-construction time.
/// Delivery is best-effort: the watcher discards a failed `send` rather
/// than retrying it or dying of it.
pub trait FileSystemEventSink {
    /// Send the specified event into this sink.
    fn send(&self, event: FileSystemEvent) -> Result<(), Error>;
}

#[verifier::external_type_specification]
#[verifier::external_body]
#[verifier::reject_recursive_types(T)]
pub struct ExSender<T>(std::sync::mpsc::Sender<T>);

#[verifier::external_type_specification]
#[verifier::external_body]
#[verifier::reject_recursive_types(T)]
pub struct ExReceiver<T>(std::sync::mpsc::Receiver<T>);

#[verifier::external_type_specification]
#[verifier::external_body]
#[verifier::reject_recursive_types(T)]
pub struct ExSendError<T>(std::sync::mpsc::SendError<T>);

/// Relies on `std::sync::mpsc::Sender::send`: delivers the event to the
/// channel's receiving end, failing exactly when that end has been dropped.
#[verifier::external_body]
fn channel_send(
    sender: &std::sync::mpsc::Sender<FileSystemEvent>,
    event: FileSystemEvent,
) -> (r: Result<(), std::sync::mpsc::SendError<FileSystemEvent>>) {
    sender.send(event)
}

/// Relies on the `Display` impl of `std::sync::mpsc::SendError`: renders
/// the delivery failure as text.
#[verifier::external_body]
fn send_error_text(e: &std::sync::mpsc::SendError<FileSystemEvent>) -> (r: String) {
    e.to_string()
}

/// Send a normalized event into a channel endpoint, the canonical sink:
/// the event goes to whoever holds the receiving end, and every delivery
/// failure — it occurs once that end is gone, and the event is then lost —
/// surfaces as an `Inner` error wrapping the channel's own description of
/// the failure.
pub fn channel_sink_send(
    sender: &std::sync::mpsc::Sender<FileSystemEvent>,
    event: FileSystemEvent,
) -> (r: Result<(), Error>)
    ensures
        r matches Err(e) ==> e is Inner,
{
    match channel_send(sender, event) {
        Ok(()) => Ok(()),
        Err(e) => {
            let text = send_error_text(&e);
            Err(Error::from_inner(text))
        },
    }
}

impl FileSystemEventSink for std::sync::mpsc::Sender<FileSystemEvent> {
    /// A bounded, ordered, in-process channel endpoint is the canonical
    /// sink; this forwards to [`channel_sink_send`], which carries the
    /// contract that every delivery failure is an `Inner` error.
    fn send(&self, event: FileSystemEvent) -> Result<(), Error> {
        channel_sink_send(self, event)
    }
}

} // verus!
