//! What holds of a watch table over several requests and events.

use crate::fault::{IoErrorKind, OsError};
use crate::paths::path_class;
use crate::port::{
    association, change_of, ends_watch, PortCodes, FILE_DELETE, FILE_RENAME_FROM, FILE_RENAME_TO,
    MOUNTEDOVER, UNMOUNTED,
};
use crate::reports::{FailureKind, WatchChange, WatchEvent, WatchFailure};
use crate::watch_entry::{times_of, Metadata, WatchEntry};
use crate::watch_table::{
    after_command, after_file_event, after_inspection, command_action, dropping_keeps_agreement,
    file_action, reassociated, reassociation, refreshing_keeps_agreement, stat_action, unwatched,
    Command, CommandAction, FileAction, RecursiveMode, StatAction, TableModel, WatchTable,
};
use std::path::PathBuf;
use vstd::prelude::*;

verus! {

/// Giving up a watch right after it was taken in leaves the table as it was.
pub proof fn unwatching_undoes_watching(model: TableModel, entry: WatchEntry, path: PathBuf)
    requires
        model.agrees(),
        !model.watching(entry.path),
        !model.objects.contains_key(entry.object),
        path_class(path) == path_class(entry.path),
    ensures
        command_action(model.added(entry), Command::Unwatch(path)) == (CommandAction::Dissociate {
            path,
            object: entry.object,
        }),
        after_command(model.added(entry), Command::Unwatch(path)) == model,
{
    let undone = after_command(model.added(entry), Command::Unwatch(path));
    assert(undone.watches =~= model.watches);
    assert(undone.objects =~= model.objects);
}

/// To watch a path that is already watched succeeds and changes nothing, however the path is
/// spelled.
pub proof fn watching_twice_is_watching_once(model: TableModel, entry: WatchEntry, path: PathBuf)
    requires
        path_class(path) == path_class(entry.path),
    ensures
        command_action(
            model.added(entry),
            Command::Watch(path, RecursiveMode::NonRecursive),
        ) == CommandAction::Reply(Ok(())),
        after_command(model.added(entry), Command::Watch(path, RecursiveMode::NonRecursive))
            == model.added(entry),
{
}

/// A recursive watch is refused whatever is watched, and nothing changes.
pub proof fn recursive_watches_are_refused(model: TableModel, path: PathBuf)
    ensures
        command_action(model, Command::Watch(path, RecursiveMode::Recursive))
            == CommandAction::Reply(
            Err(WatchFailure { kind: FailureKind::RecursiveUnsupported, path: None }),
        ),
        after_command(model, Command::Watch(path, RecursiveMode::Recursive)) == model,
{
}

/// To give up a watch a second time fails, and changes nothing.
pub proof fn unwatching_twice_fails(model: TableModel, path: PathBuf)
    ensures
        ({
            let after = after_command(model, Command::Unwatch(path));
            &&& command_action(after, Command::Unwatch(path)) == CommandAction::Reply(
                Err(WatchFailure { kind: FailureKind::WatchNotFound, path: Some(path) }),
            )
            &&& after_command(after, Command::Unwatch(path)) == after
        }),
{
}

/// An event on the object of a watched path is reported about that path.
pub proof fn events_are_reported_about_their_path(model: TableModel, path: PathBuf, events: i32)
    requires
        model.agrees(),
        model.watching(path),
    ensures
        match file_action(model, model.entry(path).object, events) {
            FileAction::Ignore => false,
            FileAction::Forget(event) => ends_watch(events) && event.path == model.entry(path).path,
            FileAction::Inspect(event) => !ends_watch(events) && event.path == model.entry(
                path,
            ).path,
        },
        path_class(model.entry(path).path) == path_class(path),
{
}

/// Once an event has ended a watch, its path is not watched, further events on its object are
/// ignored, and the path can be watched anew.
pub proof fn an_ended_watch_is_forgotten(
    model: TableModel,
    object: usize,
    events: i32,
    later: i32,
)
    requires
        model.agrees(),
        model.objects.contains_key(object),
        ends_watch(events),
    ensures
        ({
            let path = model.objects[object];
            let after = after_file_event(model, object, events);
            &&& !after.watching(path)
            &&& file_action(after, object, later) == FileAction::Ignore
            &&& after_file_event(after, object, later) == after
            &&& command_action(after, Command::Watch(path, RecursiveMode::NonRecursive))
                == CommandAction::Open(path)
        }),
{
}

/// A path that is found gone after an event is forgotten just as if the event had ended its
/// watch.
pub proof fn a_missing_path_is_forgotten(
    model: TableModel,
    object: usize,
    error: OsError,
    events: i32,
)
    requires
        model.objects.contains_key(object),
        error.kind == IoErrorKind::NotFound,
        ends_watch(events),
    ensures
        stat_action(model, object, Err(error)) == StatAction::Forget,
        after_inspection(model, object, Err(error)) == after_file_event(model, object, events),
{
}

/// An event that does not end the watch, on a path that can still be looked at, leaves the same
/// paths watched under the same addresses: only the times of that one path change, to what was
/// just seen, and the port is told to go on from them.
pub proof fn a_surviving_watch_stays(
    model: TableModel,
    object: usize,
    events: i32,
    metadata: Metadata,
)
    requires
        model.agrees(),
        model.objects.contains_key(object),
        !ends_watch(events),
    ensures
        ({
            let path = model.objects[object];
            let after = after_inspection(
                after_file_event(model, object, events),
                object,
                Ok(metadata),
            );
            &&& after.objects == model.objects
            &&& after.watches.dom() == model.watches.dom()
            &&& after.entry(path) == (WatchEntry {
                times: times_of(metadata),
                ..model.entry(path)
            })
            &&& forall|class: int|
                class != path_class(path) && model.watches.contains_key(class)
                    ==> #[trigger] after.watches[class] == model.watches[class]
            &&& stat_action(after_file_event(model, object, events), object, Ok(metadata)) == (
            StatAction::Reassociate { path, times: times_of(metadata) })
        }),
{
    let path = model.objects[object];
    let after = after_inspection(after_file_event(model, object, events), object, Ok(metadata));
    assert(after.watches.dom() =~= model.watches.dom());
}

/// What the thread reports.
pub enum Report {
    Change(WatchEvent),
    Failure(WatchFailure),
}

/// What looking again at the path of `object` comes to: the table, and what is reported of it.
/// `stat` is what the look gave, and `outcome` what the port said to watching the object again.
pub open spec fn inspected(
    table: TableModel,
    object: usize,
    stat: Result<Metadata, OsError>,
    outcome: Result<(), OsError>,
    codes: PortCodes,
) -> (TableModel, Seq<Report>) {
    (
        after_inspection(table, object, stat),
        match stat_action(table, object, stat) {
            StatAction::Ignore => Seq::empty(),
            StatAction::Forget => Seq::empty(),
            StatAction::Report(failure) => seq![Report::Failure(failure)],
            StatAction::Reassociate { path, .. } => match reassociation(path, outcome, codes) {
                None => Seq::empty(),
                Some(failure) => seq![Report::Failure(failure)],
            },
        },
    )
}

/// What the thread makes of `events` on `object`: the table, and what it reports in order.
pub open spec fn handle_file_event(
    table: TableModel,
    object: usize,
    events: i32,
    stat: Result<Metadata, OsError>,
    outcome: Result<(), OsError>,
    codes: PortCodes,
) -> (TableModel, Seq<Report>) {
    let after = after_file_event(table, object, events);
    match file_action(table, object, events) {
        FileAction::Ignore => (after, Seq::empty()),
        FileAction::Forget(event) => (after, seq![Report::Change(event)]),
        FileAction::Inspect(event) => {
            let (left, reports) = inspected(after, object, stat, outcome, codes);
            (left, seq![Report::Change(event)] + reports)
        },
    }
}

/// What a file event comes to. An event on an unknown object changes and reports nothing. Any
/// other is reported once, about its path, before all else; then the watch is dropped if the
/// event ended it or the path is gone, and goes on from what was just seen if the path could be
/// looked at. A failure to look or to watch again is reported about the path and drops nothing.
pub proof fn what_a_file_event_comes_to(
    table: TableModel,
    object: usize,
    events: i32,
    stat: Result<Metadata, OsError>,
    outcome: Result<(), OsError>,
    codes: PortCodes,
)
    requires
        table.agrees(),
    ensures
        ({
            let (after, reports) = handle_file_event(table, object, events, stat, outcome, codes);
            let path = table.objects[object];
            let change = Report::Change(WatchEvent { change: change_of(events), path });
            if !table.objects.contains_key(object) {
                after == table && reports == Seq::<Report>::empty()
            } else if ends_watch(events) {
                after == table.dropped(path) && reports == seq![change]
            } else {
                match stat {
                    Ok(metadata) => after == table.refreshed(path, metadata) && reports == match (
                    association(outcome, codes)) {
                        Ok(()) => seq![change],
                        Err(kind) => seq![
                            change,
                            Report::Failure(WatchFailure { kind, path: Some(path) }),
                        ],
                    },
                    Err(error) => if error.kind == IoErrorKind::NotFound {
                        after == table.dropped(path) && reports == seq![change]
                    } else {
                        after == table && reports == seq![
                            change,
                            Report::Failure(
                                WatchFailure {
                                    kind: FailureKind::Io(error.error),
                                    path: Some(path),
                                },
                            ),
                        ]
                    },
                }
            }
        }),
        handle_file_event(table, object, events, stat, outcome, codes).0.agrees(),
{
    let (after, reports) = handle_file_event(table, object, events, stat, outcome, codes);
    if table.objects.contains_key(object) {
        let path = table.objects[object];
        let change = Report::Change(WatchEvent { change: change_of(events), path });
        dropping_keeps_agreement(table, path);
        if !ends_watch(events) {
            assert(reports =~= seq![change] + inspected(table, object, stat, outcome, codes).1);
            if inspected(table, object, stat, outcome, codes).1.len() == 0 {
                assert(reports =~= seq![change]);
            } else {
                let failure = inspected(table, object, stat, outcome, codes).1[0];
                assert(reports =~= seq![change, failure]);
            }
            if let Ok(metadata) = stat {
                refreshing_keeps_agreement(table, path, metadata);
            }
        }
    }
}

/// Two watched paths never share an address.
pub proof fn addresses_are_not_shared(model: TableModel, left: PathBuf, right: PathBuf)
    requires
        model.agrees(),
        model.watching(left),
        model.watching(right),
        path_class(left) != path_class(right),
    ensures
        model.entry(left).object != model.entry(right).object,
{
}

/// Dropping the watch of one path leaves every other watch as it is.
pub proof fn dropping_leaves_others_alone(model: TableModel, path: PathBuf, other: PathBuf)
    requires
        model.agrees(),
        model.watching(path),
        model.watching(other),
        path_class(path) != path_class(other),
    ensures
        model.dropped(path).watching(other),
        model.dropped(path).entry(other) == model.entry(other),
        model.dropped(path).objects.contains_key(model.entry(other).object),
        model.dropped(path).objects[model.entry(other).object] == model.entry(other).path,
{
    addresses_are_not_shared(model, path, other);
}

/// A new table watches nothing and knows no address.
pub proof fn nothing_is_watched_at_first(table: WatchTable)
    requires
        call_ensures(WatchTable::new, (), table),
    ensures
        table.wf(),
        forall|class: int| !#[trigger] table@.watches.contains_key(class),
        forall|object: usize| !#[trigger] table@.objects.contains_key(object),
{
}

/// A path is watched exactly if there is an entry for it or for another spelling of it, and an
/// address is known exactly if it leads to a path.
pub proof fn a_table_tells_what_is_watched(
    table: WatchTable,
    path: PathBuf,
    watching: bool,
    object: usize,
    known: bool,
)
    requires
        table.wf(),
        call_ensures(WatchTable::is_watching, (&table, &path), watching),
        call_ensures(WatchTable::knows_object, (&table, object), known),
    ensures
        watching <==> table@.watches.contains_key(path_class(path)),
        watching <==> table@.watching(path),
        watching ==> table@.entry(path) == table@.watches[path_class(path)],
        watching ==> path_class(table@.watches[path_class(path)].path) == path_class(path),
        watching ==> table@.objects.contains_key(table@.watches[path_class(path)].object),
        known <==> table@.objects.contains_key(object),
        known ==> table@.watches.contains_key(path_class(table@.objects[object]))
            && table@.watches[path_class(table@.objects[object])].object == object,
        known ==> table@.watches[path_class(table@.objects[object])].path == table@.objects[object],
{
}

/// A request to watch, whatever its path and mode, leaves every watch as it is. One that reaches
/// below a directory is refused, one for a watched path succeeds, and any other has the path
/// opened as it was given.
pub proof fn a_request_to_watch_leaves_all_watches(
    table: &mut WatchTable,
    path: PathBuf,
    mode: RecursiveMode,
    action: CommandAction,
)
    requires
        old(table).wf(),
        call_ensures(WatchTable::handle_command, (table, Command::Watch(path, mode)), action),
    ensures
        final(table)@.watches == old(table)@.watches,
        final(table)@.objects == old(table)@.objects,
        mode == RecursiveMode::Recursive ==> (action matches CommandAction::Reply(Err(failure))
            && failure.kind is RecursiveUnsupported && failure.path is None),
        mode == RecursiveMode::NonRecursive && old(table)@.watches.contains_key(path_class(path))
            ==> (action matches CommandAction::Reply(reply) && reply is Ok),
        mode == RecursiveMode::NonRecursive && !old(table)@.watches.contains_key(path_class(path))
            ==> (action matches CommandAction::Open(opened) && opened == path),
{
}

/// A request to give up a watch drops the watch of that path and its address, no other, and has
/// the port let go of that address. It is refused, about the path, exactly if the path is not
/// watched, and then nothing changes.
pub proof fn a_request_to_unwatch_drops_one_watch(
    table: &mut WatchTable,
    path: PathBuf,
    action: CommandAction,
)
    requires
        old(table).wf(),
        call_ensures(WatchTable::handle_command, (table, Command::Unwatch(path)), action),
    ensures
        old(table)@.watches.contains_key(path_class(path)) ==> (
        action matches CommandAction::Dissociate { path: given, object } && given == path && object
            == old(table)@.watches[path_class(path)].object),
        !old(table)@.watches.contains_key(path_class(path))
            ==> (action matches CommandAction::Reply(
            Err(failure),
        ) && failure.kind is WatchNotFound && failure.path == Some(path)),
        forall|class: int| #[trigger]
            final(table)@.watches.contains_key(class) <==> class != path_class(path)
                && old(table)@.watches.contains_key(class),
        forall|class: int| #[trigger]
            final(table)@.watches.contains_key(class) ==> final(table)@.watches[class]
                == old(table)@.watches[class],
        forall|object: usize| #[trigger]
            final(table)@.objects.contains_key(object) <==> old(table)@.objects.contains_key(object)
                && path_class(old(table)@.objects[object]) != path_class(path),
        forall|object: usize| #[trigger]
            final(table)@.objects.contains_key(object) ==> final(table)@.objects[object]
                == old(table)@.objects[object],
{
}

/// A request to stop stops the thread and leaves every watch as it is; no other request stops it.
pub proof fn only_a_shutdown_stops_the_thread(
    table: &mut WatchTable,
    command: Command,
    action: CommandAction,
)
    requires
        old(table).wf(),
        call_ensures(WatchTable::handle_command, (table, command), action),
    ensures
        action is Stop <==> command is Shutdown,
        command is Shutdown ==> final(table)@ == old(table)@,
{
}

/// Dropping a watch gives the address that the port knows it by and drops that watch alone; there
/// is none exactly if the path is not watched.
pub proof fn removing_drops_one_watch(
    table: &mut WatchTable,
    path: PathBuf,
    object: Option<usize>,
)
    requires
        old(table).wf(),
        call_ensures(WatchTable::remove_watch, (table, &path), object),
    ensures
        object is Some <==> old(table)@.watches.contains_key(path_class(path)),
        object matches Some(gone) ==> gone == old(table)@.watches[path_class(path)].object,
        forall|class: int| #[trigger]
            final(table)@.watches.contains_key(class) <==> class != path_class(path)
                && old(table)@.watches.contains_key(class),
        forall|class: int| #[trigger]
            final(table)@.watches.contains_key(class) ==> final(table)@.watches[class]
                == old(table)@.watches[class],
        forall|known: usize| #[trigger]
            final(table)@.objects.contains_key(known) <==> old(table)@.objects.contains_key(known)
                && object != Some(known),
        forall|known: usize| #[trigger]
            final(table)@.objects.contains_key(known) ==> final(table)@.objects[known]
                == old(table)@.objects[known],
{
}

/// A watch that the port accepted stands beside those already held, which stay as they are; one
/// that it refused changes nothing and is answered with the port's reason, about its path.
pub proof fn an_accepted_watch_stands_beside_the_others(
    table: &mut WatchTable,
    entry: WatchEntry,
    associated: Result<(), FailureKind>,
    result: Result<(), WatchFailure>,
)
    requires
        old(table).wf(),
        !old(table)@.watches.contains_key(path_class(entry.path)),
        !old(table)@.objects.contains_key(entry.object),
        call_ensures(WatchTable::add_watch, (table, entry, associated), result),
    ensures
        result is Ok <==> associated is Ok,
        associated matches Err(kind) ==> (result matches Err(failure) && failure.kind == kind
            && failure.path == Some(entry.path)),
        forall|class: int| #[trigger]
            final(table)@.watches.contains_key(class) <==> old(table)@.watches.contains_key(class)
                || (associated is Ok && class == path_class(entry.path)),
        associated is Ok ==> final(table)@.watches[path_class(entry.path)] == entry,
        forall|class: int| #[trigger]
            old(table)@.watches.contains_key(class) ==> final(table)@.watches[class]
                == old(table)@.watches[class],
        forall|object: usize| #[trigger]
            final(table)@.objects.contains_key(object) <==> old(table)@.objects.contains_key(object)
                || (associated is Ok && object == entry.object),
        associated is Ok ==> final(table)@.objects[entry.object] == entry.path,
        forall|object: usize| #[trigger]
            old(table)@.objects.contains_key(object) ==> final(table)@.objects[object]
                == old(table)@.objects[object],
{
}

/// Any new path at a new address can be taken in, and any request and any event can be seen to.
pub proof fn a_table_can_be_told_anything(
    table: &mut WatchTable,
    command: Command,
    object: usize,
    events: i32,
    stat: Result<Metadata, OsError>,
    entry: WatchEntry,
    associated: Result<(), FailureKind>,
)
    requires
        old(table).wf(),
    ensures
        call_requires(WatchTable::handle_command, (table, command)),
        call_requires(WatchTable::handle_file_event, (table, object, events)),
        call_requires(WatchTable::after_stat, (table, object, stat)),
        !old(table)@.watches.contains_key(path_class(entry.path))
            && !old(table)@.objects.contains_key(entry.object) ==> call_requires(
            WatchTable::add_watch,
            (table, entry, associated),
        ),
{
}

/// An event on an unknown address is ignored. Any other is reported about the path at its address,
/// as a removal if it says that the file was deleted, as a rename if it says that a file was
/// renamed, and as a modification otherwise. The watch is looked at again unless the event says
/// that the file was deleted or renamed, unmounted or mounted over.
pub proof fn events_are_reported_by_what_they_say(
    table: &mut WatchTable,
    object: usize,
    events: i32,
    action: FileAction,
)
    requires
        old(table).wf(),
        call_ensures(WatchTable::handle_file_event, (table, object, events), action),
    ensures
        action is Ignore <==> !old(table)@.objects.contains_key(object),
        action is Inspect <==> old(table)@.objects.contains_key(object) && events & FILE_DELETE == 0
            && events & FILE_RENAME_TO == 0 && events & FILE_RENAME_FROM == 0 && events & UNMOUNTED
            == 0 && events & MOUNTEDOVER == 0,
        action matches FileAction::Inspect(event) ==> event.path == old(table)@.objects[object]
            && event.change == WatchChange::Modified,
        action matches FileAction::Forget(event) ==> event.path == old(table)@.objects[object],
        action matches FileAction::Forget(event) ==> (event.change == WatchChange::Removed
            <==> events & FILE_DELETE != 0),
        action matches FileAction::Forget(event) ==> (event.change == WatchChange::Renamed
            <==> events & FILE_DELETE == 0 && (events & FILE_RENAME_TO != 0 || events
            & FILE_RENAME_FROM != 0)),
{
}

/// An event drops the watch of its own path alone, and only if it says that the file was deleted
/// or renamed, unmounted or mounted over; every other watch stays as it is.
pub proof fn an_event_drops_its_own_watch_alone(
    table: &mut WatchTable,
    object: usize,
    events: i32,
    action: FileAction,
)
    requires
        old(table).wf(),
        call_ensures(WatchTable::handle_file_event, (table, object, events), action),
    ensures
        !(action is Forget) ==> final(table)@ == old(table)@,
        action is Forget ==> forall|known: usize| #[trigger]
            final(table)@.objects.contains_key(known) <==> known != object
                && old(table)@.objects.contains_key(known),
        action is Forget ==> forall|class: int| #[trigger]
            final(table)@.watches.contains_key(class) <==> old(table)@.watches.contains_key(class)
                && class != path_class(old(table)@.objects[object]),
        forall|known: usize| #[trigger]
            final(table)@.objects.contains_key(known) ==> final(table)@.objects[known]
                == old(table)@.objects[known],
        forall|class: int| #[trigger]
            final(table)@.watches.contains_key(class) ==> final(table)@.watches[class]
                == old(table)@.watches[class],
{
}

/// A path that could be looked at again is to be watched again from its own access, modification
/// and status-change times, and its entry has these times; its address and every other watch stay
/// as they are.
pub proof fn a_seen_path_goes_on_from_its_times(
    table: &mut WatchTable,
    object: usize,
    seen: Metadata,
    action: StatAction,
)
    requires
        old(table).wf(),
        call_ensures(WatchTable::after_stat, (table, object, Ok(seen)), action),
    ensures
        action is Reassociate <==> old(table)@.objects.contains_key(object),
        action is Ignore <==> !old(table)@.objects.contains_key(object),
        action matches StatAction::Reassociate { path, times } ==> path
            == old(table)@.objects[object] && times.atime.tv_sec == seen.atime
            && times.atime.tv_nsec
            == seen.atime_nsec && times.mtime.tv_sec == seen.mtime && times.mtime.tv_nsec
            == seen.mtime_nsec && times.ctime.tv_sec == seen.ctime && times.ctime.tv_nsec
            == seen.ctime_nsec,
        action matches StatAction::Reassociate { path, times }
            ==> final(table)@.watches[path_class(path)].times == times
            && final(table)@.watches[path_class(path)].path
            == path && final(table)@.watches[path_class(path)].object == object,
        final(table)@.objects == old(table)@.objects,
        forall|class: int| #[trigger]
            final(table)@.watches.contains_key(class) <==> old(table)@.watches.contains_key(class),
        forall|class: int|
            old(table)@.watches.contains_key(class) && !(old(table)@.objects.contains_key(object)
                && class == path_class(old(table)@.objects[object]))
                ==> #[trigger] final(table)@.watches[class] == old(table)@.watches[class],
{
}

/// A path that is not there any more is forgotten with its address, and no other is. Any other
/// failure to look at a path is reported about it with the system's error, and nothing changes.
pub proof fn an_unseen_path_is_forgotten_only_if_gone(
    table: &mut WatchTable,
    object: usize,
    error: OsError,
    action: StatAction,
)
    requires
        old(table).wf(),
        call_ensures(WatchTable::after_stat, (table, object, Err(error)), action),
    ensures
        action is Ignore <==> !old(table)@.objects.contains_key(object),
        action is Forget <==> old(table)@.objects.contains_key(object) && error.kind
            == IoErrorKind::NotFound,
        old(table)@.objects.contains_key(object) && error.kind != IoErrorKind::NotFound ==> (
        action matches StatAction::Report(failure) && failure.path == Some(
            old(table)@.objects[object],
        ) && failure.kind == FailureKind::Io(error.error)),
        !(action is Forget) ==> final(table)@ == old(table)@,
        action is Forget ==> forall|known: usize| #[trigger]
            final(table)@.objects.contains_key(known) <==> known != object
                && old(table)@.objects.contains_key(known),
        action is Forget ==> forall|class: int| #[trigger]
            final(table)@.watches.contains_key(class) <==> old(table)@.watches.contains_key(class)
                && class != path_class(old(table)@.objects[object]),
        forall|known: usize| #[trigger]
            final(table)@.objects.contains_key(known) ==> final(table)@.objects[known]
                == old(table)@.objects[known],
        forall|class: int| #[trigger]
            final(table)@.watches.contains_key(class) ==> final(table)@.watches[class]
                == old(table)@.watches[class],
{
}

/// Giving up a watch succeeds if the port let go of it or had nothing to let go of; any other
/// error of the port is the answer, about the path.
pub proof fn unwatching_fails_only_by_the_port(
    path: PathBuf,
    outcome: Result<(), OsError>,
    codes: PortCodes,
    result: Result<(), WatchFailure>,
)
    requires
        call_ensures(unwatched, (path, outcome, &codes), result),
    ensures
        outcome is Ok ==> result is Ok,
        outcome matches Err(error) ==> (result is Ok <==> error.code == Some(codes.missing)),
        result matches Err(failure) ==> outcome is Err && failure.path == Some(path) && failure.kind
            == FailureKind::Io(outcome->Err_0.error),
{
}

/// Watching again is reported exactly if the port refused it: that the system watches as many
/// files as it can, or else the system's error, about the path.
pub proof fn only_a_refusal_is_reported(
    path: PathBuf,
    outcome: Result<(), OsError>,
    codes: PortCodes,
    report: Option<WatchFailure>,
)
    requires
        call_ensures(reassociated, (path, outcome, &codes), report),
    ensures
        report is None <==> outcome is Ok,
        report matches Some(failure) ==> failure.path == Some(path) && (failure.kind
            is MaxFilesWatch <==> outcome->Err_0.code == Some(codes.again)) && (outcome->Err_0.code
            != Some(codes.again) ==> failure.kind == FailureKind::IoWatch(outcome->Err_0.error)),
{
}

} // verus!
