//! The event port: which file events it is asked for, what the events it delivers mean, and what
//! the thread that waits on it does next.

use crate::fault::{IoErrorKind, OsError};
use crate::reports::{FailureKind, WatchChange, WatchFailure};
use vstd::prelude::*;

verus! {

/// The contents changed.
pub const FILE_MODIFIED: i32 = 0x0000_0002;

/// The attributes changed.
pub const FILE_ATTRIB: i32 = 0x0000_0004;

/// The file was deleted.
pub const FILE_DELETE: i32 = 0x0000_0010;

/// Another file was renamed to this name.
pub const FILE_RENAME_TO: i32 = 0x0000_0020;

/// The file was renamed away from this name.
pub const FILE_RENAME_FROM: i32 = 0x0000_0040;

/// Watch a symbolic link itself.
pub const FILE_NOFOLLOW: i32 = 0x1000_0000;

/// The file system was unmounted.
pub const UNMOUNTED: i32 = 0x2000_0000;

/// Something was mounted over the file.
pub const MOUNTEDOVER: i32 = 0x4000_0000;

/// What the port is asked to report of a watched file.
pub const WATCH_EVENTS: i32 = FILE_MODIFIED | FILE_ATTRIB | FILE_NOFOLLOW;

/// The events after which the port has let go of the file for good.
pub const TERMINAL_EVENTS: i32 = FILE_DELETE | FILE_RENAME_TO | FILE_RENAME_FROM | UNMOUNTED
    | MOUNTEDOVER;

/// Whether `events` holds any of `flags`.
pub open spec fn has_any(events: i32, flags: i32) -> bool {
    events & flags != 0
}

/// Whether `events` ends the watch.
pub open spec fn ends_watch(events: i32) -> bool {
    ||| has_any(events, FILE_DELETE)
    ||| has_any(events, FILE_RENAME_TO)
    ||| has_any(events, FILE_RENAME_FROM)
    ||| has_any(events, UNMOUNTED)
    ||| has_any(events, MOUNTEDOVER)
}

/// What `events` is reported as: a deletion ahead of a rename, a rename ahead of anything else.
pub open spec fn change_of(events: i32) -> WatchChange {
    if has_any(events, FILE_DELETE) {
        WatchChange::Removed
    } else if has_any(events, FILE_RENAME_TO) || has_any(events, FILE_RENAME_FROM) {
        WatchChange::Renamed
    } else {
        WatchChange::Modified
    }
}

/// Whether an event with the flags `events` ends the watch.
pub fn is_terminal(events: i32) -> (terminal: bool)
    ensures
        terminal == ends_watch(events),
{
    assert(events & (0x10i32 | 0x20 | 0x40 | 0x2000_0000 | 0x4000_0000) != 0 <==> (events & 0x10
        != 0 || events & 0x20 != 0 || events & 0x40 != 0 || events & 0x2000_0000 != 0 || events
        & 0x4000_0000 != 0)) by (bit_vector);
    events & TERMINAL_EVENTS != 0
}

/// What an event with the flags `events` is reported as.
pub fn event_kind(events: i32) -> (change: WatchChange)
    ensures
        change == change_of(events),
{
    assert(events & (0x20i32 | 0x40) != 0 <==> (events & 0x20 != 0 || events & 0x40 != 0))
        by (bit_vector);
    if events & FILE_DELETE != 0 {
        WatchChange::Removed
    } else if events & (FILE_RENAME_TO | FILE_RENAME_FROM) != 0 {
        WatchChange::Renamed
    } else {
        WatchChange::Modified
    }
}

/// The system's numbers for what the event code tells apart.
#[derive(Clone, Copy, Debug, PartialEq, Eq, Structural)]
pub struct PortCodes {
    /// Source of events that wake the thread (`PORT_SOURCE_USER`).
    pub source_user: i32,
    /// Source of file events (`PORT_SOURCE_FILE`).
    pub source_file: i32,
    /// Error code of a request beyond the system's limit (`EAGAIN`).
    pub again: i32,
    /// Error code of a request about something that is not there (`ENOENT`).
    pub missing: i32,
}

/// An event that the port delivered.
#[derive(Clone, Copy, Debug, PartialEq, Eq, Structural)]
pub struct PortEvent {
    pub source: u16,
    pub object: usize,
    pub events: i32,
}

/// What the thread that waits on the port does next.
pub enum PortAction {
    /// Wait again.
    Wait,
    /// Serve the requests that have come, then wait again.
    ServeCommands,
    /// See to a file event, then wait again.
    FileEvent { object: usize, events: i32 },
    /// Report the failure and stop.
    Fail(WatchFailure),
}

/// What the thread does with what a wait on the port gave.
pub open spec fn port_action(polled: Result<PortEvent, OsError>, codes: PortCodes) -> PortAction {
    match polled {
        Ok(event) => if event.source == codes.source_user {
            PortAction::ServeCommands
        } else if event.source == codes.source_file {
            PortAction::FileEvent { object: event.object, events: event.events }
        } else {
            PortAction::Wait
        },
        Err(error) => if error.kind == IoErrorKind::Interrupted {
            PortAction::Wait
        } else {
            PortAction::Fail(WatchFailure { kind: FailureKind::Io(error.error), path: None })
        },
    }
}

/// Decides what the thread does with what a wait on the port gave: an interrupted wait is
/// repeated, any other error is reported and ends the thread, and an event goes by its source.
pub fn run(polled: Result<PortEvent, OsError>, codes: &PortCodes) -> (action: PortAction)
    ensures
        action == port_action(polled, *codes),
{
    match polled {
        Ok(event) => {
            let source: i32 = event.source as i32;
            if source == codes.source_user {
                PortAction::ServeCommands
            } else if source == codes.source_file {
                PortAction::FileEvent { object: event.object, events: event.events }
            } else {
                PortAction::Wait
            }
        },
        Err(error) => if error.kind == IoErrorKind::Interrupted {
            PortAction::Wait
        } else {
            PortAction::Fail(WatchFailure { kind: FailureKind::Io(error.error), path: None })
        },
    }
}

/// What a request to watch an object came to.
pub open spec fn association(
    outcome: Result<(), OsError>,
    codes: PortCodes,
) -> Result<(), FailureKind> {
    match outcome {
        Ok(()) => Ok(()),
        Err(error) => if error.code == Some(codes.again) {
            Err(FailureKind::MaxFilesWatch)
        } else {
            Err(FailureKind::IoWatch(error.error))
        },
    }
}

/// Reads what a request to watch an object came to: a request beyond the system's limit is told
/// apart from one that the system refused.
pub fn associate(outcome: Result<(), OsError>, codes: &PortCodes) -> (result: Result<
    (),
    FailureKind,
>)
    ensures
        result == association(outcome, *codes),
{
    match outcome {
        Ok(()) => Ok(()),
        Err(error) => match error.code {
            Some(code) if code == codes.again => Err(FailureKind::MaxFilesWatch),
            _ => Err(FailureKind::IoWatch(error.error)),
        },
    }
}

/// Whatever else an event says, a deleted or renamed file is no longer watched; and an event
/// that does not end the watch is reported as a modification.
pub proof fn what_ends_a_watch(events: i32)
    ensures
        change_of(events) != WatchChange::Modified ==> ends_watch(events),
        !ends_watch(events) ==> change_of(events) == WatchChange::Modified,
        change_of(events) == WatchChange::Modified && ends_watch(events) ==> has_any(
            events,
            UNMOUNTED,
        ) || has_any(events, MOUNTEDOVER),
{
}

/// The events that a watch asks for do not by themselves end it.
pub proof fn asked_events_keep_the_watch(events: i32)
    requires
        events & WATCH_EVENTS == events,
    ensures
        !ends_watch(events),
        change_of(events) == WatchChange::Modified,
{
    assert(events & (0x2i32 | 0x4 | 0x1000_0000) == events ==> events & 0x10 == 0 && events & 0x20
        == 0 && events & 0x40 == 0 && events & 0x2000_0000 == 0 && events & 0x4000_0000 == 0)
        by (bit_vector);
}

/// An event is reported as a removal exactly if it says that the file was deleted, whatever else
/// it says, as a rename exactly if it says that a file was renamed and not that it was deleted,
/// and as a modification if it says none of these.
pub proof fn reports_go_by_deletion_and_rename(events: i32, change: WatchChange)
    requires
        call_ensures(event_kind, (events,), change),
    ensures
        change == WatchChange::Removed <==> events & FILE_DELETE != 0,
        change == WatchChange::Renamed <==> events & FILE_DELETE == 0 && (events & FILE_RENAME_TO
            != 0 || events & FILE_RENAME_FROM != 0),
        change == WatchChange::Modified <==> events & FILE_DELETE == 0 && events & FILE_RENAME_TO
            == 0 && events & FILE_RENAME_FROM == 0,
{
}

/// What an event says besides deletions and renames does not alter how it is reported.
pub proof fn other_flags_do_not_alter_the_report(
    events: i32,
    more: i32,
    change: WatchChange,
    same: WatchChange,
)
    requires
        more & FILE_DELETE == 0,
        more & FILE_RENAME_TO == 0,
        more & FILE_RENAME_FROM == 0,
        call_ensures(event_kind, (events,), change),
        call_ensures(event_kind, (events | more,), same),
    ensures
        same == change,
{
    assert(more & 0x10 == 0 ==> (events | more) & 0x10 == events & 0x10) by (bit_vector);
    assert(more & 0x20 == 0 ==> (events | more) & 0x20 == events & 0x20) by (bit_vector);
    assert(more & 0x40 == 0 ==> (events | more) & 0x40 == events & 0x40) by (bit_vector);
}

/// An event ends the watch exactly if it says that the file was deleted or renamed, that a file
/// was renamed over it, that its file system was unmounted or that something was mounted over it.
pub proof fn watches_end_by_what_an_event_says(events: i32, terminal: bool)
    requires
        call_ensures(is_terminal, (events,), terminal),
    ensures
        terminal <==> {
            ||| events & FILE_DELETE != 0
            ||| events & FILE_RENAME_TO != 0
            ||| events & FILE_RENAME_FROM != 0
            ||| events & UNMOUNTED != 0
            ||| events & MOUNTEDOVER != 0
        },
        terminal <==> events & TERMINAL_EVENTS != 0,
{
    assert(events & (0x10i32 | 0x20 | 0x40 | 0x2000_0000 | 0x4000_0000) != 0 <==> (events & 0x10
        != 0 || events & 0x20 != 0 || events & 0x40 != 0 || events & 0x2000_0000 != 0 || events
        & 0x4000_0000 != 0)) by (bit_vector);
}

/// An event that ends the watch does so whatever else it says.
pub proof fn an_end_stays_an_end(events: i32, more: i32, terminal: bool, still: bool)
    requires
        call_ensures(is_terminal, (events,), terminal),
        call_ensures(is_terminal, (events | more,), still),
        terminal,
    ensures
        still,
{
    assert(events & 0x10 != 0 ==> (events | more) & 0x10 != 0) by (bit_vector);
    assert(events & 0x20 != 0 ==> (events | more) & 0x20 != 0) by (bit_vector);
    assert(events & 0x40 != 0 ==> (events | more) & 0x40 != 0) by (bit_vector);
    assert(events & 0x2000_0000 != 0 ==> (events | more) & 0x2000_0000 != 0) by (bit_vector);
    assert(events & 0x4000_0000 != 0 ==> (events | more) & 0x4000_0000 != 0) by (bit_vector);
}

/// Each flag is one bit of its own.
pub proof fn flags_are_told_apart()
    ensures
        FILE_MODIFIED == 0x2 && FILE_ATTRIB == 0x4 && FILE_DELETE == 0x10,
        FILE_RENAME_TO == 0x20 && FILE_RENAME_FROM == 0x40,
        FILE_NOFOLLOW == 0x1000_0000 && UNMOUNTED == 0x2000_0000 && MOUNTEDOVER == 0x4000_0000,
        forall|events: i32| #[trigger] (events & WATCH_EVENTS) == 0 <==> events & FILE_MODIFIED
            == 0 && events & FILE_ATTRIB == 0 && events & FILE_NOFOLLOW == 0,
{
    assert forall|events: i32| #[trigger] (events & WATCH_EVENTS) == 0 <==> events & FILE_MODIFIED
        == 0 && events & FILE_ATTRIB == 0 && events & FILE_NOFOLLOW == 0 by {
        assert(events & (0x2i32 | 0x4 | 0x1000_0000) == 0 <==> (events & 0x2 == 0 && events & 0x4
            == 0 && events & 0x1000_0000 == 0)) by (bit_vector);
    }
}

/// Every event goes where its source says: one of the user source has the requests served, and
/// one of the file source is handed on with its own object and its own flags, whatever they are.
/// Only an event of neither source is passed over.
pub proof fn events_go_by_their_source(event: PortEvent, codes: PortCodes, action: PortAction)
    requires
        call_ensures(run, (Ok(event), &codes), action),
    ensures
        event.source == codes.source_user <==> action is ServeCommands,
        event.source == codes.source_file && codes.source_file != codes.source_user ==> action == (
        PortAction::FileEvent { object: event.object, events: event.events }),
        action matches PortAction::FileEvent { object, events } ==> event.source
            == codes.source_file && object == event.object && events == event.events,
        action is Wait <==> event.source != codes.source_user && event.source != codes.source_file,
        !(action is Fail),
{
}

/// Only an interrupted wait is repeated; after any other error the thread reports that very error,
/// about no path, and stops.
pub proof fn errors_end_the_thread_unless_interrupted(
    error: OsError,
    codes: PortCodes,
    action: PortAction,
)
    requires
        call_ensures(run, (Err(error), &codes), action),
    ensures
        action is Wait <==> error.kind == IoErrorKind::Interrupted,
        error.kind != IoErrorKind::Interrupted ==> (action matches PortAction::Fail(failure)
            && failure.path is None && failure.kind == FailureKind::Io(error.error)),
{
}

/// A request to watch succeeds exactly if the system granted it; beyond the system's limit it is
/// told that, and otherwise the system's own error.
pub proof fn requests_to_watch_are_told_the_truth(
    outcome: Result<(), OsError>,
    codes: PortCodes,
    result: Result<(), FailureKind>,
)
    requires
        call_ensures(associate, (outcome, &codes), result),
    ensures
        result is Ok <==> outcome is Ok,
        outcome matches Err(error) ==> (result matches Err(kind) && (error.code == Some(codes.again)
            ==> kind == FailureKind::MaxFilesWatch) && (error.code != Some(codes.again) ==> kind
            == FailureKind::IoWatch(error.error))),
{
}

} // verus!
