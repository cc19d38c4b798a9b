//! The paths that are watched, and what requests and file events do to them.
//!
//! The thread that owns a `WatchTable` talks to the system; the table says what to do next and
//! is told how it went.

use crate::fault::{IoErrorKind, OsError};
use crate::paths::{copy_path, path_class, same_path};
use crate::port::{
    associate, association, change_of, ends_watch, event_kind, is_terminal, PortCodes,
};
use crate::reports::{FailureKind, WatchEvent, WatchFailure};
use crate::watch_entry::{times_of, FileTimes, Metadata, WatchEntry};
use std::collections::HashMap;
use std::path::PathBuf;
use vstd::prelude::*;

verus! {

broadcast use vstd::std_specs::hash::group_hash_axioms;

/// What a watch table stands for: the entry of each watched path, by the path's class, and the
/// path of each address that the port may name in an event.
pub struct TableModel {
    pub watches: Map<int, WatchEntry>,
    pub objects: Map<usize, PathBuf>,
}

impl TableModel {
    /// Nothing is watched.
    pub open spec fn empty() -> Self {
        TableModel { watches: Map::empty(), objects: Map::empty() }
    }

    /// Whether `path` is watched.
    pub open spec fn watching(self, path: PathBuf) -> bool {
        self.watches.contains_key(path_class(path))
    }

    /// The entry of a watched path.
    pub open spec fn entry(self, path: PathBuf) -> WatchEntry {
        self.watches[path_class(path)]
    }

    /// The two tables say the same: every entry stands under its own path, its address leads
    /// back to its path, and every address belongs to the entry of the path it leads to.
    pub open spec fn agrees(self) -> bool {
        &&& forall|class: int| #[trigger]
            self.watches.contains_key(class) ==> {
                let entry = self.watches[class];
                &&& path_class(entry.path) == class
                &&& self.objects.contains_key(entry.object)
                &&& self.objects[entry.object] == entry.path
            }
        &&& forall|object: usize| #[trigger]
            self.objects.contains_key(object) ==> {
                let path = self.objects[object];
                &&& self.watching(path)
                &&& self.entry(path).object == object
            }
    }

    /// `entry` has been added.
    pub open spec fn added(self, entry: WatchEntry) -> Self {
        TableModel {
            watches: self.watches.insert(path_class(entry.path), entry),
            objects: self.objects.insert(entry.object, entry.path),
        }
    }

    /// The watch of `path` has been dropped.
    pub open spec fn dropped(self, path: PathBuf) -> Self {
        TableModel {
            watches: self.watches.remove(path_class(path)),
            objects: self.objects.remove(self.entry(path).object),
        }
    }

    /// The watch of `path` has been brought up to date with `metadata`.
    pub open spec fn refreshed(self, path: PathBuf, metadata: Metadata) -> Self {
        TableModel {
            watches: self.watches.insert(
                path_class(path),
                WatchEntry { times: times_of(metadata), ..self.entry(path) },
            ),
            objects: self.objects,
        }
    }
}

/// The index of the entry for `class`.
spec fn index_of(entries: Seq<WatchEntry>, class: int) -> int {
    choose|i: int| 0 <= i < entries.len() && path_class(entries[i].path) == class
}

/// Whether there is an entry for `class`.
spec fn holds(entries: Seq<WatchEntry>, class: int) -> bool {
    exists|i: int| 0 <= i < entries.len() && path_class(entries[i].path) == class
}

/// No two entries are for the same path.
spec fn distinct(entries: Seq<WatchEntry>) -> bool {
    forall|i: int, j: int|
        0 <= i < j < entries.len() ==> path_class(entries[i].path) != path_class(entries[j].path)
}

/// The entries by the class of their path.
spec fn by_class(entries: Seq<WatchEntry>) -> Map<int, WatchEntry> {
    Map::new(|class: int| holds(entries, class), |class: int| entries[index_of(entries, class)])
}

/// The entry at `index` is the one found under the class of its path.
proof fn found_at(entries: Seq<WatchEntry>, index: int)
    requires
        distinct(entries),
        0 <= index < entries.len(),
    ensures
        by_class(entries).contains_key(path_class(entries[index].path)),
        by_class(entries)[path_class(entries[index].path)] == entries[index],
{
    let class = path_class(entries[index].path);
    assert(holds(entries, class));
    let found = index_of(entries, class);
    assert(0 <= found < entries.len() && path_class(entries[found].path) == class);
}

/// Pushing an entry for a new path adds it to the map.
proof fn push_by_class(entries: Seq<WatchEntry>, entry: WatchEntry)
    requires
        distinct(entries),
        !holds(entries, path_class(entry.path)),
    ensures
        distinct(entries.push(entry)),
        by_class(entries.push(entry)) == by_class(entries).insert(path_class(entry.path), entry),
{
    let pushed = entries.push(entry);
    assert(distinct(pushed));
    found_at(pushed, entries.len() as int);
    assert forall|class: int| class != path_class(entry.path) implies #[trigger] by_class(
        pushed,
    ).contains_key(class) == by_class(entries).contains_key(class) && (by_class(
        entries,
    ).contains_key(class) ==> by_class(pushed)[class] == by_class(entries)[class]) by {
        if holds(entries, class) {
            let i = index_of(entries, class);
            assert(pushed[i] == entries[i]);
            found_at(pushed, i);
            found_at(entries, i);
        }
        if holds(pushed, class) {
            let i = index_of(pushed, class);
            assert(pushed[i] == entries[i]);
            assert(holds(entries, class));
        }
    }
    assert(by_class(pushed) =~= by_class(entries).insert(path_class(entry.path), entry));
}

/// Taking an entry out, with the last one in its place, removes it from the map.
proof fn remove_by_class(entries: Seq<WatchEntry>, index: int)
    requires
        distinct(entries),
        0 <= index < entries.len(),
    ensures
        distinct(entries.update(index, entries.last()).drop_last()),
        by_class(entries.update(index, entries.last()).drop_last()) == by_class(entries).remove(
            path_class(entries[index].path),
        ),
{
    let left = entries.update(index, entries.last()).drop_last();
    let gone = path_class(entries[index].path);
    assert(distinct(left));
    assert forall|class: int| #[trigger] by_class(left).contains_key(class) == (class != gone
        && by_class(entries).contains_key(class)) && (by_class(left).contains_key(class)
        ==> by_class(left)[class] == by_class(entries)[class]) by {
        if holds(left, class) {
            let i = index_of(left, class);
            let from = if i == index {
                entries.len() - 1
            } else {
                i
            };
            assert(left[i] == entries[from]);
            found_at(left, i);
            found_at(entries, from);
        }
        if class != gone && holds(entries, class) {
            let i = index_of(entries, class);
            let to = if i == entries.len() - 1 {
                index
            } else {
                i
            };
            assert(left[to] == entries[i]);
            assert(holds(left, class));
        }
    }
    assert(by_class(left) =~= by_class(entries).remove(gone));
}

/// Replacing an entry by one for the same path replaces it in the map.
proof fn update_by_class(entries: Seq<WatchEntry>, index: int, entry: WatchEntry)
    requires
        distinct(entries),
        0 <= index < entries.len(),
        path_class(entry.path) == path_class(entries[index].path),
    ensures
        distinct(entries.update(index, entry)),
        by_class(entries.update(index, entry)) == by_class(entries).insert(
            path_class(entry.path),
            entry,
        ),
{
    let after = entries.update(index, entry);
    assert(distinct(after));
    assert forall|class: int| #[trigger] by_class(after).contains_key(class) == by_class(
        entries,
    ).contains_key(class) && (by_class(after).contains_key(class) ==> by_class(after)[class]
        == by_class(entries).insert(path_class(entry.path), entry)[class]) by {
        if holds(after, class) {
            let i = index_of(after, class);
            found_at(after, i);
            found_at(entries, i);
        }
        if holds(entries, class) {
            let i = index_of(entries, class);
            assert(path_class(after[i].path) == class);
            assert(holds(after, class));
        }
    }
    found_at(entries, index);
    assert(by_class(after) =~= by_class(entries).insert(path_class(entry.path), entry));
}

/// Whether a watch reaches below a directory.
#[derive(Clone, Copy, Debug, PartialEq, Eq, Structural)]
pub enum RecursiveMode {
    Recursive,
    NonRecursive,
}

/// A request to the thread that owns the table.
pub enum Command {
    Watch(PathBuf, RecursiveMode),
    Unwatch(PathBuf),
    Shutdown,
}

/// What the thread does about a request.
pub enum CommandAction {
    /// Answer it.
    Reply(Result<(), WatchFailure>),
    /// Open a watch of the path, in the steps that `open_watch` gives.
    Open(PathBuf),
    /// Have the port let go of the object, then answer as `unwatched` says.
    Dissociate { path: PathBuf, object: usize },
    /// Stop.
    Stop,
}

/// What the thread does about a file event.
pub enum FileAction {
    /// The object is not watched: nothing.
    Ignore,
    /// Report the event; the object is no longer watched.
    Forget(WatchEvent),
    /// Report the event, look at its path again, then tell `after_stat`.
    Inspect(WatchEvent),
}

/// What the thread does once it has looked at a path again.
pub enum StatAction {
    /// The object is not watched: nothing.
    Ignore,
    /// Have the port watch the object again from these times, then report what
    /// `reassociated` says.
    Reassociate { path: PathBuf, times: FileTimes },
    /// The path is gone and so is its watch.
    Forget,
    /// Report the failure.
    Report(WatchFailure),
}

/// What the thread does about `command` when the table is `model`.
pub open spec fn command_action(model: TableModel, command: Command) -> CommandAction {
    match command {
        Command::Watch(path, mode) => if mode == RecursiveMode::Recursive {
            CommandAction::Reply(
                Err(WatchFailure { kind: FailureKind::RecursiveUnsupported, path: None }),
            )
        } else if model.watching(path) {
            CommandAction::Reply(Ok(()))
        } else {
            CommandAction::Open(path)
        },
        Command::Unwatch(path) => if model.watching(path) {
            CommandAction::Dissociate { path, object: model.entry(path).object }
        } else {
            CommandAction::Reply(
                Err(WatchFailure { kind: FailureKind::WatchNotFound, path: Some(path) }),
            )
        },
        Command::Shutdown => CommandAction::Stop,
    }
}

/// What `command` makes of the table `model`.
pub open spec fn after_command(model: TableModel, command: Command) -> TableModel {
    match command {
        Command::Unwatch(path) if model.watching(path) => model.dropped(path),
        _ => model,
    }
}

/// What the port's answer to the request to watch `entry` comes to.
pub open spec fn admission(entry: WatchEntry, associated: Result<(), FailureKind>) -> Result<
    (),
    WatchFailure,
> {
    match associated {
        Ok(()) => Ok(()),
        Err(kind) => Err(WatchFailure { kind, path: Some(entry.path) }),
    }
}

/// What a request to let go of the object of `path` is answered with: that the port had already
/// let go of it is as good.
pub open spec fn dissociation(
    path: PathBuf,
    outcome: Result<(), OsError>,
    codes: PortCodes,
) -> Result<(), WatchFailure> {
    match outcome {
        Ok(()) => Ok(()),
        Err(error) => if error.code == Some(codes.missing) {
            Ok(())
        } else {
            Err(WatchFailure { kind: FailureKind::Io(error.error), path: Some(path) })
        },
    }
}

/// What the thread does about `events` on `object` when the table is `model`.
pub open spec fn file_action(model: TableModel, object: usize, events: i32) -> FileAction {
    if !model.objects.contains_key(object) {
        FileAction::Ignore
    } else {
        let event = WatchEvent { change: change_of(events), path: model.objects[object] };
        if ends_watch(events) {
            FileAction::Forget(event)
        } else {
            FileAction::Inspect(event)
        }
    }
}

/// What `events` on `object` makes of the table `model`.
pub open spec fn after_file_event(model: TableModel, object: usize, events: i32) -> TableModel {
    if model.objects.contains_key(object) && ends_watch(events) {
        model.dropped(model.objects[object])
    } else {
        model
    }
}

/// What the thread does once it has looked again at the path of `object`, when the table is
/// `model`.
pub open spec fn stat_action(
    model: TableModel,
    object: usize,
    stat: Result<Metadata, OsError>,
) -> StatAction {
    if !model.objects.contains_key(object) {
        StatAction::Ignore
    } else {
        let path = model.objects[object];
        match stat {
            Ok(metadata) => StatAction::Reassociate { path, times: times_of(metadata) },
            Err(error) => if error.kind == IoErrorKind::NotFound {
                StatAction::Forget
            } else {
                StatAction::Report(
                    WatchFailure { kind: FailureKind::Io(error.error), path: Some(path) },
                )
            },
        }
    }
}

/// What looking again at the path of `object` makes of the table `model`.
pub open spec fn after_inspection(
    model: TableModel,
    object: usize,
    stat: Result<Metadata, OsError>,
) -> TableModel {
    if !model.objects.contains_key(object) {
        model
    } else {
        let path = model.objects[object];
        match stat {
            Ok(metadata) => model.refreshed(path, metadata),
            Err(error) => if error.kind == IoErrorKind::NotFound {
                model.dropped(path)
            } else {
                model
            },
        }
    }
}

/// What a request to let go of the object of `path` is answered with. An event that already
/// waits in the port has ended the association, so that it is missing counts as success.
pub fn unwatched(path: PathBuf, outcome: Result<(), OsError>, codes: &PortCodes) -> (result: Result<
    (),
    WatchFailure,
>)
    ensures
        result == dissociation(path, outcome, *codes),
{
    match outcome {
        Ok(()) => Ok(()),
        Err(error) => match error.code {
            Some(code) if code == codes.missing => Ok(()),
            _ => Err(WatchFailure { kind: FailureKind::Io(error.error), path: Some(path) }),
        },
    }
}

/// What is reported of the attempt to have the port watch the object of `path` again; nothing
/// exactly when it succeeded.
pub open spec fn reassociation(
    path: PathBuf,
    outcome: Result<(), OsError>,
    codes: PortCodes,
) -> Option<WatchFailure> {
    match association(outcome, codes) {
        Ok(()) => None,
        Err(kind) => Some(WatchFailure { kind, path: Some(path) }),
    }
}

/// What is reported of the attempt to have the port watch the object of `path` again.
pub fn reassociated(path: PathBuf, outcome: Result<(), OsError>, codes: &PortCodes) -> (report:
    Option<WatchFailure>)
    ensures
        report == reassociation(path, outcome, *codes),
{
    match associate(outcome, codes) {
        Ok(()) => None,
        Err(kind) => Some(WatchFailure { kind, path: Some(path) }),
    }
}

/// The watched paths.
pub struct WatchTable {
    entries: Vec<WatchEntry>,
    object_paths: HashMap<usize, PathBuf>,
}

impl View for WatchTable {
    type V = TableModel;

    closed spec fn view(&self) -> TableModel {
        TableModel { watches: by_class(self.entries@), objects: self.object_paths@ }
    }
}

impl WatchTable {
    /// Each path has one entry.
    pub closed spec fn one_entry_each(&self) -> bool {
        distinct(self.entries@)
    }

    /// Each path has one entry and the two tables agree.
    pub open spec fn wf(&self) -> bool {
        self.one_entry_each() && self@.agrees()
    }

    /// A table with nothing in it.
    pub fn new() -> (table: Self)
        ensures
            table.wf(),
            table@ == TableModel::empty(),
    {
        let table = WatchTable { entries: Vec::new(), object_paths: HashMap::new() };
        assert(table@.watches =~= Map::<int, WatchEntry>::empty());
        table
    }

    fn find(&self, path: &PathBuf) -> (found: Option<usize>)
        requires
            self.wf(),
        ensures
            match found {
                Some(index) => index < self.entries@.len() && path_class(
                    self.entries@[index as int].path,
                ) == path_class(*path) && self@.watching(*path) && self@.entry(*path)
                    == self.entries@[index as int],
                None => !self@.watching(*path),
            },
    {
        let mut index: usize = 0;
        while index < self.entries.len()
            invariant
                self.wf(),
                index <= self.entries@.len(),
                forall|i: int|
                    0 <= i < index ==> path_class(self.entries@[i].path) != path_class(*path),
            decreases self.entries@.len() - index,
        {
            if same_path(&self.entries[index].path, path) {
                proof {
                    found_at(self.entries@, index as int);
                }
                return Some(index);
            }
            index += 1;
        }
        None
    }

    /// Whether `path` is watched.
    pub fn is_watching(&self, path: &PathBuf) -> (watching: bool)
        requires
            self.wf(),
        ensures
            watching == self@.watching(*path),
    {
        self.find(path).is_some()
    }

    /// Whether the port may name `object` in an event.
    pub fn knows_object(&self, object: usize) -> (known: bool)
        ensures
            known == self@.objects.contains_key(object),
    {
        self.object_paths.contains_key(&object)
    }

    /// Drops the entry at `index` and its address.
    fn forget(&mut self, index: usize) -> (entry: WatchEntry)
        requires
            old(self).wf(),
            index < old(self).entries@.len(),
        ensures
            final(self).wf(),
            entry == old(self).entries@[index as int],
            final(self)@ == old(self)@.dropped(entry.path),
    {
        proof {
            found_at(self.entries@, index as int);
            remove_by_class(self.entries@, index as int);
        }
        let entry = self.entries.swap_remove(index);
        self.object_paths.remove(&entry.object);
        proof {
            dropping_keeps_agreement(old(self)@, entry.path);
        }
        entry
    }

    /// Decides what a request comes to. A watch that would reach below a directory is refused, a
    /// path that is already watched is left as it is, and a watch that is given up is dropped
    /// before the port is told.
    pub fn handle_command(&mut self, command: Command) -> (action: CommandAction)
        requires
            old(self).wf(),
        ensures
            final(self).wf(),
            action == command_action(old(self)@, command),
            final(self)@ == after_command(old(self)@, command),
    {
        match command {
            Command::Watch(path, mode) => if mode == RecursiveMode::Recursive {
                CommandAction::Reply(
                    Err(WatchFailure { kind: FailureKind::RecursiveUnsupported, path: None }),
                )
            } else if self.is_watching(&path) {
                CommandAction::Reply(Ok(()))
            } else {
                CommandAction::Open(path)
            },
            Command::Unwatch(path) => match self.remove_watch(&path) {
                Some(object) => CommandAction::Dissociate { path, object },
                None => CommandAction::Reply(
                    Err(WatchFailure { kind: FailureKind::WatchNotFound, path: Some(path) }),
                ),
            },
            Command::Shutdown => CommandAction::Stop,
        }
    }

    /// Drops the watch of `path` and gives the address that the port knows it by; nothing, and
    /// no change, exactly when the path is not watched.
    pub fn remove_watch(&mut self, path: &PathBuf) -> (object: Option<usize>)
        requires
            old(self).wf(),
        ensures
            final(self).wf(),
            object == if old(self)@.watching(*path) {
                Some(old(self)@.entry(*path).object)
            } else {
                None::<usize>
            },
            final(self)@ == if old(self)@.watching(*path) {
                old(self)@.dropped(*path)
            } else {
                old(self)@
            },
    {
        match self.find(path) {
            Some(index) => {
                let entry = self.forget(index);
                Some(entry.object)
            },
            None => None,
        }
    }

    /// Takes in a new watch once the port has been asked to watch it. A watch that the port
    /// refused is not taken in; the failure is then about its path.
    pub fn add_watch(&mut self, entry: WatchEntry, associated: Result<(), FailureKind>) -> (result:
        Result<(), WatchFailure>)
        requires
            old(self).wf(),
            !old(self)@.watching(entry.path),
            !old(self)@.objects.contains_key(entry.object),
        ensures
            final(self).wf(),
            result == admission(entry, associated),
            final(self)@ == if result is Ok {
                old(self)@.added(entry)
            } else {
                old(self)@
            },
    {
        match associated {
            Ok(()) => {
                proof {
                    push_by_class(self.entries@, entry);
                    adding_keeps_agreement(self@, entry);
                }
                self.object_paths.insert(entry.object, copy_path(&entry.path));
                self.entries.push(entry);
                Ok(())
            },
            Err(kind) => Err(WatchFailure { kind, path: Some(entry.path) }),
        }
    }

    /// Decides what a file event comes to: an event on an object that is not watched is ignored,
    /// any other one is reported about the watched path, and one that ends the watch drops it.
    pub fn handle_file_event(&mut self, object: usize, events: i32) -> (action: FileAction)
        requires
            old(self).wf(),
        ensures
            final(self).wf(),
            action == file_action(old(self)@, object, events),
            final(self)@ == after_file_event(old(self)@, object, events),
    {
        let path = match self.object_paths.get(&object) {
            Some(path) => copy_path(path),
            None => {
                return FileAction::Ignore;
            },
        };
        let event = WatchEvent { change: event_kind(events), path: copy_path(&path) };
        if is_terminal(events) {
            self.remove_watch(&path);
            FileAction::Forget(event)
        } else {
            FileAction::Inspect(event)
        }
    }

    /// Decides what follows once the path of `object` has been looked at again: its times are
    /// taken over and the port is to watch it again, its watch is dropped if it is gone, and any
    /// other failure is reported.
    pub fn after_stat(&mut self, object: usize, stat: Result<Metadata, OsError>) -> (action:
        StatAction)
        requires
            old(self).wf(),
        ensures
            final(self).wf(),
            action == stat_action(old(self)@, object, stat),
            final(self)@ == after_inspection(old(self)@, object, stat),
    {
        let path = match self.object_paths.get(&object) {
            Some(path) => copy_path(path),
            None => {
                return StatAction::Ignore;
            },
        };
        let index: usize = match self.find(&path) {
            Some(index) => index,
            None => {
                return StatAction::Ignore;
            },
        };
        match stat {
            Ok(metadata) => {
                proof {
                    update_by_class(
                        self.entries@,
                        index as int,
                        WatchEntry {
                            times: times_of(metadata),
                            ..self.entries@[index as int]
                        },
                    );
                    refreshing_keeps_agreement(self@, path, metadata);
                }
                self.entries[index].refresh(&metadata);
                StatAction::Reassociate { path, times: self.entries[index].times }
            },
            Err(error) => if error.kind == IoErrorKind::NotFound {
                self.forget(index);
                StatAction::Forget
            } else {
                StatAction::Report(
                    WatchFailure { kind: FailureKind::Io(error.error), path: Some(path) },
                )
            },
        }
    }
}

/// Adding a watch of a new path under a new address keeps the two tables in agreement.
pub proof fn adding_keeps_agreement(model: TableModel, entry: WatchEntry)
    requires
        model.agrees(),
        !model.watching(entry.path),
        !model.objects.contains_key(entry.object),
    ensures
        model.added(entry).agrees(),
{
}

/// Dropping a watch keeps the two tables in agreement.
pub proof fn dropping_keeps_agreement(model: TableModel, path: PathBuf)
    requires
        model.agrees(),
        model.watching(path),
    ensures
        model.dropped(path).agrees(),
{
}

/// Bringing a watch up to date keeps the two tables in agreement.
pub proof fn refreshing_keeps_agreement(model: TableModel, path: PathBuf, metadata: Metadata)
    requires
        model.agrees(),
        model.watching(path),
    ensures
        model.refreshed(path, metadata).agrees(),
{
}

} // verus!
