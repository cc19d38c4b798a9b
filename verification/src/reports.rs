//! What a watcher tells its user: change events and failures, and the `notify` values that carry
//! them.

use crate::fault::{io_error_kind, IoErrorKind};
use std::io;
use std::path::PathBuf;
use vstd::prelude::*;

verus! {

/// An event of the `notify` crate.
#[verifier::external_type_specification]
#[verifier::external_body]
pub struct ExNotifyEvent(notify::Event);

/// An error of the `notify` crate.
#[verifier::external_type_specification]
#[verifier::external_body]
pub struct ExNotifyError(notify::Error);

/// How a watched file or directory changed.
#[derive(Clone, Copy, Debug, PartialEq, Eq, Structural)]
pub enum WatchChange {
    /// It was deleted.
    Removed,
    /// It was renamed, or another file was renamed over it.
    Renamed,
    /// Its contents or attributes changed, or what is mounted on it did. A directory event does
    /// not say which entry changed.
    Modified,
}

/// The kind of a `notify` event that reports a change: `Remove(Any)`, `Modify(Name(Any))` or
/// `Modify(Any)`. Of an event of another kind nothing is said.
pub uninterp spec fn event_change(event: notify::Event) -> WatchChange;

/// The paths that a `notify` event is about, in order.
pub uninterp spec fn event_paths(event: notify::Event) -> Seq<PathBuf>;

/// The info attribute of a `notify` event.
pub uninterp spec fn event_info(event: notify::Event) -> Option<Seq<char>>;

/// The kinds of `notify` error that watching gives rise to.
pub enum NotifyErrorKind {
    Generic(Seq<char>),
    Io(io::Error),
    PathNotFound,
    WatchNotFound,
    MaxFilesWatch,
}

/// The kind of a `notify` error that watching gives rise to. Of an error of another kind nothing
/// is said.
pub uninterp spec fn error_kind_of(error: notify::Error) -> NotifyErrorKind;

/// The paths that a `notify` error is about, in order.
pub uninterp spec fn error_paths(error: notify::Error) -> Seq<PathBuf>;

/// Calls `notify::Event::new` with the kind that stands for `change`. Claimed: the event has
/// that kind, no path and no info.
#[verifier::external_body]
fn new_event(change: WatchChange) -> (event: notify::Event)
    ensures
        event_change(event) == change,
        event_paths(event) == Seq::<PathBuf>::empty(),
        event_info(event) == None::<Seq<char>>,
{
    notify::Event::new(match change {
        WatchChange::Removed => notify::EventKind::Remove(notify::event::RemoveKind::Any),
        WatchChange::Renamed => notify::EventKind::Modify(
            notify::event::ModifyKind::Name(notify::event::RenameMode::Any),
        ),
        WatchChange::Modified => notify::EventKind::Modify(notify::event::ModifyKind::Any),
    })
}

/// `notify::Event::add_path`. Claimed: the path is added at the end of the event's paths and
/// nothing else changes.
pub assume_specification[ notify::Event::add_path ](event: notify::Event, path: PathBuf) -> (result:
    notify::Event)
    ensures
        event_paths(result) == event_paths(event).push(path),
        event_change(result) == event_change(event),
        event_info(result) == event_info(event),
;

/// `notify::Event::set_info`. Claimed: the info becomes `info` and nothing else changes.
pub assume_specification[ notify::Event::set_info ](event: notify::Event, info: &str) -> (result:
    notify::Event)
    ensures
        event_info(result) == Some(info@),
        event_change(result) == event_change(event),
        event_paths(result) == event_paths(event),
;

/// `notify::Error::generic`. Claimed: a generic error with that message and no path.
pub assume_specification[ notify::Error::generic ](msg: &str) -> (error: notify::Error)
    ensures
        error_kind_of(error) == NotifyErrorKind::Generic(msg@),
        error_paths(error) == Seq::<PathBuf>::empty(),
;

/// `notify::Error::io`. Claimed: an I/O error that holds `err`, without a path.
pub assume_specification[ notify::Error::io ](err: io::Error) -> (error: notify::Error)
    ensures
        error_kind_of(error) == NotifyErrorKind::Io(err),
        error_paths(error) == Seq::<PathBuf>::empty(),
;

/// `notify::Error::io_watch`. Claimed: as `io`, but a missing file gives a path-not-found
/// error.
pub assume_specification[ notify::Error::io_watch ](err: io::Error) -> (error: notify::Error)
    ensures
        error_kind_of(error) == if io_error_kind(err) == IoErrorKind::NotFound {
            NotifyErrorKind::PathNotFound
        } else {
            NotifyErrorKind::Io(err)
        },
        error_paths(error) == Seq::<PathBuf>::empty(),
;

/// `notify::Error::watch_not_found`. Claimed: a watch-not-found error without a path.
pub assume_specification[ notify::Error::watch_not_found ]() -> (error: notify::Error)
    ensures
        error_kind_of(error) == NotifyErrorKind::WatchNotFound,
        error_paths(error) == Seq::<PathBuf>::empty(),
;

/// Calls `notify::Error::new` with `notify::ErrorKind::MaxFilesWatch`. Claimed: an error of that
/// kind without a path.
#[verifier::external_body]
fn max_files_watch() -> (error: notify::Error)
    ensures
        error_kind_of(error) == NotifyErrorKind::MaxFilesWatch,
        error_paths(error) == Seq::<PathBuf>::empty(),
{
    notify::Error::new(notify::ErrorKind::MaxFilesWatch)
}

/// `notify::Error::add_path`. Claimed: the path is added at the end of the error's paths and the
/// kind stays.
pub assume_specification[ notify::Error::add_path ](error: notify::Error, path: PathBuf) -> (result:
    notify::Error)
    ensures
        error_paths(result) == error_paths(error).push(path),
        error_kind_of(result) == error_kind_of(error),
;

/// A change of a watched path.
pub struct WatchEvent {
    pub change: WatchChange,
    pub path: PathBuf,
}

impl WatchEvent {
    /// The `notify` event that reports this change: it is about the watched path alone and
    /// carries `info`.
    pub fn into_notify(self, info: &str) -> (event: notify::Event)
        ensures
            event_change(event) == self.change,
            event_paths(event) == seq![self.path],
            event_info(event) == Some(info@),
    {
        let event = new_event(self.change).add_path(self.path).set_info(info);
        assert(event_paths(event) =~= seq![self.path]);
        event
    }
}

/// Why a watch request or a watch failed.
pub enum FailureKind {
    /// The path holds a NUL byte, so the system has no name for it.
    NulInPath,
    /// File events do not reach below a directory.
    RecursiveUnsupported,
    /// The thread that serves the requests is gone.
    ThreadStopped,
    /// The path is not watched.
    WatchNotFound,
    /// The system watches as many files as it can.
    MaxFilesWatch,
    /// The system refused something.
    Io(io::Error),
    /// The system refused to look at or to watch the path.
    IoWatch(io::Error),
}

impl FailureKind {
    /// The kind of `notify` error that reports this failure.
    pub open spec fn notify_kind(self) -> NotifyErrorKind {
        match self {
            FailureKind::NulInPath => NotifyErrorKind::Generic("path contains a NUL byte"@),
            FailureKind::RecursiveUnsupported => NotifyErrorKind::Generic(
                "recursive Illumos file-event watches are unsupported"@,
            ),
            FailureKind::ThreadStopped => NotifyErrorKind::Generic(
                "Illumos file-event thread stopped"@,
            ),
            FailureKind::WatchNotFound => NotifyErrorKind::WatchNotFound,
            FailureKind::MaxFilesWatch => NotifyErrorKind::MaxFilesWatch,
            FailureKind::Io(error) => NotifyErrorKind::Io(error),
            FailureKind::IoWatch(error) => if io_error_kind(error) == IoErrorKind::NotFound {
                NotifyErrorKind::PathNotFound
            } else {
                NotifyErrorKind::Io(error)
            },
        }
    }
}

/// A failure, with the path that it is about where it is about one.
pub struct WatchFailure {
    pub kind: FailureKind,
    pub path: Option<PathBuf>,
}

impl WatchFailure {
    /// The `notify` error that reports this failure.
    pub fn into_notify(self) -> (error: notify::Error)
        ensures
            error_kind_of(error) == self.kind.notify_kind(),
            error_paths(error) == match self.path {
                Some(path) => seq![path],
                None => Seq::<PathBuf>::empty(),
            },
    {
        let error = match self.kind {
            FailureKind::NulInPath => notify::Error::generic("path contains a NUL byte"),
            FailureKind::RecursiveUnsupported => notify::Error::generic(
                "recursive Illumos file-event watches are unsupported",
            ),
            FailureKind::ThreadStopped => notify::Error::generic(
                "Illumos file-event thread stopped",
            ),
            FailureKind::WatchNotFound => notify::Error::watch_not_found(),
            FailureKind::MaxFilesWatch => max_files_watch(),
            FailureKind::Io(error) => notify::Error::io(error),
            FailureKind::IoWatch(error) => notify::Error::io_watch(error),
        };
        match self.path {
            Some(path) => {
                let ghost about = path;
                let error = error.add_path(path);
                assert(error_paths(error) =~= seq![about]);
                error
            },
            None => error,
        }
    }
}

/// The event that reports a change has the kind of the change, is about its path alone and carries
/// the info it was given.
pub proof fn a_change_is_reported_as_it_was(event: WatchEvent, info: &str, report: notify::Event)
    requires
        call_ensures(WatchEvent::into_notify, (event, info), report),
    ensures
        event_change(report) == event.change,
        event_paths(report).len() == 1,
        event_paths(report)[0] == event.path,
        event_info(report) == Some(info@),
{
}

/// The error that reports a failure is about the path that the failure is about, and no other.
pub proof fn a_failure_is_reported_about_its_path(failure: WatchFailure, report: notify::Error)
    requires
        call_ensures(WatchFailure::into_notify, (failure,), report),
    ensures
        failure.path is None <==> error_paths(report).len() == 0,
        failure.path matches Some(path) ==> error_paths(report).len() == 1 && error_paths(report)[0]
            == path,
{
}

/// An error of the system is reported as it came, but for a path that is not there when it is
/// looked at or given to the port: that is reported as a path that was not found, and nothing else
/// is.
pub proof fn a_system_error_is_reported_as_it_came(
    failure: WatchFailure,
    error: io::Error,
    report: notify::Error,
)
    requires
        failure.kind == FailureKind::Io(error) || failure.kind == FailureKind::IoWatch(error),
        call_ensures(WatchFailure::into_notify, (failure,), report),
    ensures
        error_kind_of(report) is PathNotFound <==> failure.kind is IoWatch && io_error_kind(error)
            == IoErrorKind::NotFound,
        !(error_kind_of(report) is PathNotFound) ==> error_kind_of(report) == NotifyErrorKind::Io(
            error,
        ),
{
}

/// Every failure is reported as one of its own sort: an unwatched path, the system's limit, and
/// the three that have a text of their own are each told apart.
pub proof fn failures_are_told_apart(failure: WatchFailure, report: notify::Error)
    requires
        call_ensures(WatchFailure::into_notify, (failure,), report),
    ensures
        error_kind_of(report) is WatchNotFound <==> failure.kind is WatchNotFound,
        error_kind_of(report) is MaxFilesWatch <==> failure.kind is MaxFilesWatch,
        error_kind_of(report) is Generic <==> failure.kind is NulInPath || failure.kind
            is RecursiveUnsupported || failure.kind is ThreadStopped,
        failure.kind is NulInPath ==> error_kind_of(report)->Generic_0
            == "path contains a NUL byte"@,
        failure.kind is RecursiveUnsupported ==> error_kind_of(report)->Generic_0
            == "recursive Illumos file-event watches are unsupported"@,
        failure.kind is ThreadStopped ==> error_kind_of(report)->Generic_0
            == "Illumos file-event thread stopped"@,
{
}

} // verus!
