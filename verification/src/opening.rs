//! How a watch is opened: its path is named, looked at and given to the port, and is then taken
//! into the table.

use crate::fault::{IoErrorKind, OsError};
use crate::paths::path_class;
use crate::port::{associate, association, PortCodes};
use crate::reports::{FailureKind, NotifyErrorKind, WatchFailure};
use crate::watch_entry::{entering, naming, watch_name, Metadata, WatchEntry};
use crate::watch_table::{admission, TableModel, WatchTable};
use std::path::PathBuf;
use vstd::prelude::*;

verus! {

/// What the system has to say while one request is served.
pub struct Surroundings {
    /// The bytes of the path.
    pub bytes: Seq<u8>,
    /// The address at which the port is to know the path.
    pub object: usize,
    /// What looking at the path gives.
    pub metadata: Result<Metadata, OsError>,
    /// What asking the port to watch the object comes to.
    pub associated: Result<(), OsError>,
    /// What asking the port to let go of the object comes to.
    pub dissociated: Result<(), OsError>,
}

/// What opening the watch `entry` comes to once the port has been asked to watch it.
pub open spec fn opening_from_entry(
    entry: WatchEntry,
    system: Surroundings,
    codes: PortCodes,
) -> Result<WatchEntry, WatchFailure> {
    match admission(entry, association(system.associated, codes)) {
        Err(failure) => Err(failure),
        Ok(()) => Ok(entry),
    }
}

/// What opening a watch of `path` comes to once it has a name.
pub open spec fn opening_from_look(
    path: PathBuf,
    system: Surroundings,
    codes: PortCodes,
) -> Result<WatchEntry, WatchFailure> {
    match entering(path, system.object, system.metadata) {
        Err(failure) => Err(failure),
        Ok(entry) => opening_from_entry(entry, system, codes),
    }
}

/// What opening a watch of `path` comes to: the entry to take in, or the answer to give instead.
pub open spec fn opening(
    path: PathBuf,
    system: Surroundings,
    codes: PortCodes,
) -> Result<WatchEntry, WatchFailure> {
    match naming(system.bytes) {
        Err(failure) => Err(failure),
        Ok(_) => opening_from_look(path, system, codes),
    }
}

/// The table and the answer once an opening has come to `opened`.
pub open spec fn taken_in(table: TableModel, opened: Result<WatchEntry, WatchFailure>) -> (
    TableModel,
    Result<(), WatchFailure>,
) {
    match opened {
        Ok(entry) => (table.added(entry), Ok(())),
        Err(failure) => (table, Err(failure)),
    }
}

/// How the latest step of opening a watch went.
pub enum OpenEvent {
    /// The path to watch was named by its bytes.
    Named { path: PathBuf, bytes: Vec<u8> },
    /// The path was looked at; the port is to know it by `object`.
    Looked { path: PathBuf, object: usize, metadata: Result<Metadata, OsError> },
    /// The port was asked to watch the object of `entry`.
    Associated { entry: WatchEntry, outcome: Result<(), OsError> },
}

/// The next step of opening a watch.
pub enum OpenStep {
    /// Look at the path; `name` is what the system knows it by.
    Look { path: PathBuf, name: Vec<u8> },
    /// Have the port watch the object of the entry from the entry's times.
    Associate(WatchEntry),
    /// Answer the request.
    Finish(Result<(), WatchFailure>),
}

/// A step of opening a watch, with a name told by its bytes.
pub enum OpenView {
    Look { path: PathBuf, name: Seq<u8> },
    Associate(WatchEntry),
    Finish(Result<(), WatchFailure>),
}

impl View for OpenStep {
    type V = OpenView;

    open spec fn view(&self) -> OpenView {
        match *self {
            OpenStep::Look { path, name } => OpenView::Look { path, name: name@ },
            OpenStep::Associate(entry) => OpenView::Associate(entry),
            OpenStep::Finish(result) => OpenView::Finish(result),
        }
    }
}

impl OpenEvent {
    /// Whether the event tells what `system` has to say.
    pub open spec fn tells(self, system: Surroundings) -> bool {
        match self {
            OpenEvent::Named { bytes, .. } => bytes@ == system.bytes,
            OpenEvent::Looked { object, metadata, .. } => object == system.object && metadata
                == system.metadata,
            OpenEvent::Associated { outcome, .. } => outcome == system.associated,
        }
    }

    /// The table and the answer to which an opening comes that has got as far as this event.
    pub open spec fn comes_to(
        self,
        table: TableModel,
        system: Surroundings,
        codes: PortCodes,
    ) -> (TableModel, Result<(), WatchFailure>) {
        match self {
            OpenEvent::Named { path, .. } => taken_in(table, opening(path, system, codes)),
            OpenEvent::Looked { path, .. } => taken_in(
                table,
                opening_from_look(path, system, codes),
            ),
            OpenEvent::Associated { entry, .. } => taken_in(
                table,
                opening_from_entry(entry, system, codes),
            ),
        }
    }

    /// How many steps may follow.
    pub open spec fn steps_left(self) -> nat {
        match self {
            OpenEvent::Named { .. } => 3,
            OpenEvent::Looked { .. } => 2,
            OpenEvent::Associated { .. } => 1,
        }
    }

    /// The table has room for what the event may bring in: the path is not watched and the port
    /// knows nothing at its address.
    pub open spec fn fits(self, table: TableModel) -> bool {
        self matches OpenEvent::Associated { entry, .. } ==> !table.watching(entry.path)
            && !table.objects.contains_key(entry.object)
    }
}

impl OpenView {
    /// The table and the answer to which an opening comes that is about to take this step.
    pub open spec fn comes_to(
        self,
        table: TableModel,
        system: Surroundings,
        codes: PortCodes,
    ) -> (TableModel, Result<(), WatchFailure>) {
        match self {
            OpenView::Look { path, .. } => taken_in(
                table,
                opening_from_look(path, system, codes),
            ),
            OpenView::Associate(entry) => taken_in(
                table,
                opening_from_entry(entry, system, codes),
            ),
            OpenView::Finish(answer) => (table, answer),
        }
    }
}

/// The step that follows `event`.
pub open spec fn open_step(event: OpenEvent, codes: PortCodes) -> OpenView {
    match event {
        OpenEvent::Named { path, bytes } => match naming(bytes@) {
            Ok(name) => OpenView::Look { path, name },
            Err(failure) => OpenView::Finish(Err(failure)),
        },
        OpenEvent::Looked { path, object, metadata } => match entering(path, object, metadata) {
            Ok(entry) => OpenView::Associate(entry),
            Err(failure) => OpenView::Finish(Err(failure)),
        },
        OpenEvent::Associated { entry, outcome } => OpenView::Finish(
            admission(entry, association(outcome, codes)),
        ),
    }
}

/// What `event` makes of the table: only a watch that the port accepted is taken in.
pub open spec fn after_open(table: TableModel, event: OpenEvent, codes: PortCodes) -> TableModel {
    match event {
        OpenEvent::Associated { entry, outcome } if association(outcome, codes) is Ok => table.added(
            entry,
        ),
        _ => table,
    }
}

impl WatchTable {
    /// Decides how the opening of a watch goes on: the path needs a name before it is looked at,
    /// a look before the port is asked, and the port's consent before it is taken in; the first
    /// step that fails ends the opening with its failure. Whatever the system goes on to say, an
    /// opening comes to what `opening` says of it.
    pub fn open_watch(&mut self, event: OpenEvent, codes: &PortCodes) -> (step: OpenStep)
        requires
            old(self).wf(),
            event.fits(old(self)@),
        ensures
            final(self).wf(),
            step@ == open_step(event, *codes),
            final(self)@ == after_open(old(self)@, event, *codes),
            forall|system: Surroundings|
                event.tells(system) ==> #[trigger] step@.comes_to(final(self)@, system, *codes)
                    == event.comes_to(old(self)@, system, *codes),
    {
        let ghost before = self@;
        proof {
            assert forall|system: Surroundings| event.tells(system) implies #[trigger] open_step(
                event,
                *codes,
            ).comes_to(after_open(before, event, *codes), system, *codes) == event.comes_to(
                before,
                system,
                *codes,
            ) by {
                a_step_keeps_the_opening(before, event, system, *codes);
            }
        }
        match event {
            OpenEvent::Named { path, bytes } => match watch_name(bytes.as_slice()) {
                Ok(name) => OpenStep::Look { path, name },
                Err(failure) => OpenStep::Finish(Err(failure)),
            },
            OpenEvent::Looked { path, object, metadata } => match WatchEntry::new(
                path,
                object,
                metadata,
            ) {
                Ok(entry) => OpenStep::Associate(entry),
                Err(failure) => OpenStep::Finish(Err(failure)),
            },
            OpenEvent::Associated { entry, outcome } => {
                let associated = associate(outcome, codes);
                OpenStep::Finish(self.add_watch(entry, associated))
            },
        }
    }
}

/// No step of an opening changes what the opening comes to.
pub proof fn a_step_keeps_the_opening(
    table: TableModel,
    event: OpenEvent,
    system: Surroundings,
    codes: PortCodes,
)
    requires
        event.tells(system),
    ensures
        open_step(event, codes).comes_to(after_open(table, event, codes), system, codes)
            == event.comes_to(table, system, codes),
{
}

/// The table and the answer with which the steps from `event` on end, when the system goes on to
/// say `system`.
pub open spec fn run_open(
    table: TableModel,
    event: OpenEvent,
    system: Surroundings,
    codes: PortCodes,
) -> (TableModel, Result<(), WatchFailure>)
    decreases event.steps_left(),
{
    let after = after_open(table, event, codes);
    match open_step(event, codes) {
        OpenView::Look { path, .. } => run_open(
            after,
            OpenEvent::Looked { path, object: system.object, metadata: system.metadata },
            system,
            codes,
        ),
        OpenView::Associate(entry) => run_open(
            after,
            OpenEvent::Associated { entry, outcome: system.associated },
            system,
            codes,
        ),
        OpenView::Finish(answer) => (after, answer),
    }
}

/// The steps of an opening, taken one after the other, end with what the opening comes to.
pub proof fn the_steps_come_to_the_opening(
    table: TableModel,
    event: OpenEvent,
    system: Surroundings,
    codes: PortCodes,
)
    requires
        event.tells(system),
    ensures
        run_open(table, event, system, codes) == event.comes_to(table, system, codes),
    decreases event.steps_left(),
{
    a_step_keeps_the_opening(table, event, system, codes);
    let after = after_open(table, event, codes);
    match open_step(event, codes) {
        OpenView::Look { path, .. } => {
            the_steps_come_to_the_opening(
                after,
                OpenEvent::Looked { path, object: system.object, metadata: system.metadata },
                system,
                codes,
            );
        },
        OpenView::Associate(entry) => {
            the_steps_come_to_the_opening(
                after,
                OpenEvent::Associated { entry, outcome: system.associated },
                system,
                codes,
            );
        },
        OpenView::Finish(_) => {},
    }
}

/// A path that holds a NUL is refused whatever the system would say of it.
pub proof fn a_path_with_a_nul_is_not_looked_at(
    path: PathBuf,
    bytes: Vec<u8>,
    codes: PortCodes,
)
    ensures
        open_step(OpenEvent::Named { path, bytes }, codes) is Finish <==> bytes@.contains(0u8),
        open_step(OpenEvent::Named { path, bytes }, codes) is Look <==> !bytes@.contains(0u8),
{
}

/// A path that cannot be looked at is answered with a failure about that path: that the path was
/// not found, exactly if that is what the system said, and the system's error otherwise.
pub proof fn a_missing_path_is_answered_as_such(
    path: PathBuf,
    system: Surroundings,
    codes: PortCodes,
    error: OsError,
)
    requires
        !system.bytes.contains(0u8),
        system.metadata == Err::<Metadata, OsError>(error),
        error.wf(),
    ensures
        opening(path, system, codes) matches Err(failure) && failure.path == Some(path)
            && failure.kind.notify_kind() == if error.kind == IoErrorKind::NotFound {
            NotifyErrorKind::PathNotFound
        } else {
            NotifyErrorKind::Io(error.error)
        },
{
}

/// A path that the port refuses is answered with a failure about that path: that the system
/// watches as many files as it can, that the path was not found, or the system's error.
pub proof fn a_refused_path_is_answered_as_such(
    path: PathBuf,
    system: Surroundings,
    codes: PortCodes,
    error: OsError,
)
    requires
        !system.bytes.contains(0u8),
        system.metadata is Ok,
        system.associated == Err::<(), OsError>(error),
        error.wf(),
    ensures
        opening(path, system, codes) matches Err(failure) && failure.path == Some(path)
            && failure.kind.notify_kind() == if error.code == Some(codes.again) {
            NotifyErrorKind::MaxFilesWatch
        } else if error.kind == IoErrorKind::NotFound {
            NotifyErrorKind::PathNotFound
        } else {
            NotifyErrorKind::Io(error.error)
        },
{
}

/// A named path is looked at exactly if it holds no NUL, under its bytes and a closing NUL; if it
/// holds one it is refused. Nothing changes either way.
pub proof fn a_named_path_is_looked_at(
    table: &mut WatchTable,
    path: PathBuf,
    bytes: Vec<u8>,
    codes: PortCodes,
    step: OpenStep,
)
    requires
        old(table).wf(),
        call_ensures(
            WatchTable::open_watch,
            (table, OpenEvent::Named { path, bytes }, &codes),
            step,
        ),
    ensures
        final(table)@ == old(table)@,
        !(step is Associate),
        step is Look <==> forall|i: int| 0 <= i < bytes@.len() ==> bytes@[i] != 0,
        step matches OpenStep::Look { path: looked, name } ==> looked == path && name@
            == bytes@.push(0u8),
        step matches OpenStep::Finish(result) ==> (result matches Err(failure) && failure.kind
            is NulInPath && failure.path is None),
{
    if forall|i: int| 0 <= i < bytes@.len() ==> bytes@[i] != 0 {
        assert(!bytes@.contains(0u8));
    }
    if step is Look {
        assert(step@ is Look);
        assert forall|i: int| 0 <= i < bytes@.len() implies bytes@[i] != 0 by {
            assert(bytes@.contains(bytes@[i]));
        }
    }
    assert(step@ is Look <==> step is Look);
}

/// A path that could be looked at is given to the port at its address, from its own access,
/// modification and status-change times. One that could not is refused with the system's error,
/// about that path. Nothing changes either way.
pub proof fn a_looked_at_path_is_associated(
    table: &mut WatchTable,
    path: PathBuf,
    object: usize,
    metadata: Result<Metadata, OsError>,
    codes: PortCodes,
    step: OpenStep,
)
    requires
        old(table).wf(),
        call_ensures(
            WatchTable::open_watch,
            (table, OpenEvent::Looked { path, object, metadata }, &codes),
            step,
        ),
    ensures
        final(table)@ == old(table)@,
        !(step is Look),
        step is Associate <==> metadata is Ok,
        step matches OpenStep::Associate(entry) ==> entry.path == path && entry.object == object,
        step matches OpenStep::Associate(entry) ==> entry.times.atime.tv_sec == metadata->Ok_0.atime
            && entry.times.atime.tv_nsec == metadata->Ok_0.atime_nsec,
        step matches OpenStep::Associate(entry) ==> entry.times.mtime.tv_sec == metadata->Ok_0.mtime
            && entry.times.mtime.tv_nsec == metadata->Ok_0.mtime_nsec,
        step matches OpenStep::Associate(entry) ==> entry.times.ctime.tv_sec == metadata->Ok_0.ctime
            && entry.times.ctime.tv_nsec == metadata->Ok_0.ctime_nsec,
        step matches OpenStep::Finish(result) ==> (result matches Err(failure) && failure.path
            == Some(path) && failure.kind == FailureKind::IoWatch(metadata->Err_0.error)),
{
    assert(step@ is Associate <==> step is Associate);
    assert(step@ is Look <==> step is Look);
}

/// A watch that the port accepted is taken in beside those already held, which stay as they are.
/// One that it refused changes nothing, and the port's reason is the answer, about the path.
pub proof fn an_associated_path_is_taken_in(
    table: &mut WatchTable,
    entry: WatchEntry,
    outcome: Result<(), OsError>,
    codes: PortCodes,
    step: OpenStep,
)
    requires
        old(table).wf(),
        !old(table)@.watches.contains_key(path_class(entry.path)),
        !old(table)@.objects.contains_key(entry.object),
        call_ensures(
            WatchTable::open_watch,
            (table, OpenEvent::Associated { entry, outcome }, &codes),
            step,
        ),
    ensures
        step matches OpenStep::Finish(result) && (result is Ok <==> outcome is Ok) && (
        result matches Err(failure) ==> failure.path == Some(entry.path) && (failure.kind
            is MaxFilesWatch <==> outcome->Err_0.code == Some(codes.again)) && (outcome->Err_0.code
            != Some(codes.again) ==> failure.kind == FailureKind::IoWatch(outcome->Err_0.error))),
        outcome is Err ==> final(table)@ == old(table)@,
        outcome is Ok ==> final(table)@.watches == old(table)@.watches.insert(
            path_class(entry.path),
            entry,
        ),
        outcome is Ok ==> final(table)@.objects == old(table)@.objects.insert(
            entry.object,
            entry.path,
        ),
{
    assert(step@ is Finish <==> step is Finish);
}

/// An opening can go on from anything, but for a watch that would take the place of another.
pub proof fn an_opening_can_always_go_on(
    table: &mut WatchTable,
    event: OpenEvent,
    codes: PortCodes,
)
    requires
        old(table).wf(),
        event matches OpenEvent::Associated { entry, .. } ==> !old(table)@.watches.contains_key(
            path_class(entry.path),
        ) && !old(table)@.objects.contains_key(entry.object),
    ensures
        call_requires(WatchTable::open_watch, (table, event, &codes)),
{
}

/// An opening succeeds exactly if the path holds no NUL, could be looked at and was accepted by
/// the port. The entry is then for that path, at its address, with the file's own times.
pub proof fn what_an_opening_needs(path: PathBuf, system: Surroundings, codes: PortCodes)
    ensures
        opening(path, system, codes) is Ok <==> !system.bytes.contains(0u8) && system.metadata is Ok
            && system.associated is Ok,
        opening(path, system, codes) matches Ok(entry) ==> entry.path == path && entry.object
            == system.object,
        opening(path, system, codes) matches Ok(entry) ==> entry.times.atime.tv_sec
            == system.metadata->Ok_0.atime && entry.times.mtime.tv_sec
            == system.metadata->Ok_0.mtime && entry.times.ctime.tv_sec
            == system.metadata->Ok_0.ctime,
        opening(path, system, codes) matches Ok(entry) ==> entry.times.atime.tv_nsec
            == system.metadata->Ok_0.atime_nsec && entry.times.mtime.tv_nsec
            == system.metadata->Ok_0.mtime_nsec && entry.times.ctime.tv_nsec
            == system.metadata->Ok_0.ctime_nsec,
        opening(path, system, codes) matches Err(failure) ==> (failure.kind is NulInPath
            <==> system.bytes.contains(0u8)) && (failure.path is None <==> failure.kind
            is NulInPath) && (failure.path is Some ==> failure.path == Some(path)),
{
}

} // verus!
