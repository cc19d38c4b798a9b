use illumos_events::command::{command, CommandEvent, CommandStep};
use illumos_events::fault::OsError;
use illumos_events::opening::{OpenEvent, OpenStep};
use illumos_events::port::{
    associate, event_kind, is_terminal, run, PortAction, PortCodes, PortEvent, FILE_ATTRIB,
    FILE_DELETE, FILE_MODIFIED, FILE_NOFOLLOW, FILE_RENAME_FROM, FILE_RENAME_TO, MOUNTEDOVER,
    TERMINAL_EVENTS, UNMOUNTED, WATCH_EVENTS,
};
use illumos_events::reports::{FailureKind, WatchChange, WatchEvent, WatchFailure};
use illumos_events::watch_entry::{
    timestamp, watch_name, FileTimes, Metadata, Timespec, WatchEntry,
};
use illumos_events::watch_table::{
    reassociated, unwatched, Command, CommandAction, FileAction, RecursiveMode, StatAction,
    WatchTable,
};
use notify::event::{ModifyKind, RemoveKind, RenameMode};
use notify::EventKind;
use std::io;
use std::path::PathBuf;

const CODES: PortCodes = PortCodes {
    source_user: 3,
    source_file: 7,
    again: libc::EAGAIN,
    missing: libc::ENOENT,
};

const SEEN: Metadata = Metadata {
    atime: 1,
    atime_nsec: 2,
    mtime: 3,
    mtime_nsec: 4,
    ctime: 5,
    ctime_nsec: 6,
};

const SEEN_LATER: Metadata = Metadata {
    atime: 10,
    atime_nsec: 20,
    mtime: 30,
    mtime_nsec: 40,
    ctime: 50,
    ctime_nsec: 60,
};

fn path(text: &str) -> PathBuf {
    PathBuf::from(text)
}

fn raw(code: i32) -> OsError {
    OsError::new(io::Error::from_raw_os_error(code))
}

fn entry(text: &str, object: usize) -> WatchEntry {
    match WatchEntry::new(path(text), object, Ok(SEEN)) {
        Ok(entry) => entry,
        Err(_) => panic!("the metadata was there"),
    }
}

fn table(watches: &[(&str, usize)]) -> WatchTable {
    let mut table = WatchTable::new();
    for (text, object) in watches {
        assert!(!table.is_watching(&path(text)));
        assert!(!table.knows_object(*object));
        assert!(table.add_watch(entry(text, *object), Ok(())).is_ok());
    }
    table
}

fn watch(text: &str) -> Command {
    Command::Watch(path(text), RecursiveMode::NonRecursive)
}

#[test]
fn the_watched_and_the_terminal_events_are_the_systems() {
    assert_eq!(WATCH_EVENTS, 0x1000_0006);
    assert_eq!(TERMINAL_EVENTS, 0x6000_0070);
    assert_eq!(WATCH_EVENTS & TERMINAL_EVENTS, 0);
    assert_eq!(FILE_MODIFIED | FILE_ATTRIB | FILE_NOFOLLOW, WATCH_EVENTS);
}

#[test]
fn a_deletion_goes_ahead_of_a_rename() {
    assert_eq!(event_kind(FILE_DELETE), WatchChange::Removed);
    assert_eq!(event_kind(FILE_DELETE | FILE_RENAME_TO), WatchChange::Removed);
    assert_eq!(event_kind(FILE_RENAME_TO), WatchChange::Renamed);
    assert_eq!(
        event_kind(FILE_RENAME_FROM | FILE_MODIFIED),
        WatchChange::Renamed
    );
    assert_eq!(event_kind(FILE_MODIFIED), WatchChange::Modified);
    assert_eq!(event_kind(UNMOUNTED), WatchChange::Modified);
    assert_eq!(event_kind(0), WatchChange::Modified);
}

#[test]
fn some_events_end_a_watch() {
    for events in [
        FILE_DELETE,
        FILE_RENAME_TO,
        FILE_RENAME_FROM,
        UNMOUNTED,
        MOUNTEDOVER,
        FILE_MODIFIED | MOUNTEDOVER,
    ] {
        assert!(is_terminal(events));
    }
    for events in [0, FILE_MODIFIED, FILE_ATTRIB, WATCH_EVENTS] {
        assert!(!is_terminal(events));
    }
}

#[test]
fn the_thread_goes_by_the_source_of_an_event() {
    let event = |source| {
        run(
            Ok(PortEvent {
                source,
                object: 42,
                events: FILE_ATTRIB,
            }),
            &CODES,
        )
    };
    assert!(matches!(event(3), PortAction::ServeCommands));
    assert!(matches!(
        event(7),
        PortAction::FileEvent {
            object: 42,
            events: FILE_ATTRIB
        }
    ));
    assert!(matches!(event(4), PortAction::Wait));
}

#[test]
fn an_interrupted_wait_is_repeated() {
    assert!(matches!(run(Err(raw(libc::EINTR)), &CODES), PortAction::Wait));
    match run(Err(raw(libc::EBADF)), &CODES) {
        PortAction::Fail(failure) => {
            assert!(failure.path.is_none());
            match failure.kind {
                FailureKind::Io(error) => assert_eq!(error.raw_os_error(), Some(libc::EBADF)),
                _ => panic!("not an I/O failure"),
            }
        }
        _ => panic!("the thread went on"),
    }
}

#[test]
fn a_watch_beyond_the_limit_is_told_apart() {
    assert!(associate(Ok(()), &CODES).is_ok());
    assert!(matches!(
        associate(Err(raw(libc::EAGAIN)), &CODES),
        Err(FailureKind::MaxFilesWatch)
    ));
    match associate(Err(raw(libc::EACCES)), &CODES) {
        Err(FailureKind::IoWatch(error)) => {
            assert_eq!(error.raw_os_error(), Some(libc::EACCES))
        }
        _ => panic!("not a refusal"),
    }
}

#[test]
fn a_name_ends_in_its_only_nul() {
    assert_eq!(watch_name(b"/tmp/a").ok(), Some(b"/tmp/a\0".to_vec()));
    assert_eq!(watch_name(b"").ok(), Some(vec![0]));
    match watch_name(b"/tmp\0/a") {
        Err(failure) => {
            assert!(matches!(failure.kind, FailureKind::NulInPath));
            assert!(failure.path.is_none());
        }
        Ok(_) => panic!("the NUL was taken"),
    }
}

#[test]
fn an_entry_starts_from_the_times_of_its_file() {
    let entry = entry("/a", 8);
    assert_eq!(entry.object, 8);
    assert_eq!(entry.path, path("/a"));
    assert_eq!(
        entry.times,
        FileTimes {
            atime: timestamp(1, 2),
            mtime: timestamp(3, 4),
            ctime: Timespec {
                tv_sec: 5,
                tv_nsec: 6
            },
        }
    );
}

#[test]
fn a_path_that_cannot_be_looked_at_is_a_failure_about_it() {
    match WatchEntry::new(path("/gone"), 8, Err(raw(libc::ENOENT))) {
        Err(failure) => {
            assert_eq!(failure.path, Some(path("/gone")));
            let error = failure.into_notify();
            assert!(matches!(error.kind, notify::ErrorKind::PathNotFound));
            assert_eq!(error.paths, vec![path("/gone")]);
        }
        Ok(_) => panic!("the path was there"),
    }
}

#[test]
fn a_new_path_is_opened_and_taken_in() {
    let mut table = WatchTable::new();
    match table.handle_command(watch("/a")) {
        CommandAction::Open(opened) => assert_eq!(opened, path("/a")),
        _ => panic!("the path was not opened"),
    }
    assert!(!table.is_watching(&path("/a")));
    assert!(table.add_watch(entry("/a", 8), Ok(())).is_ok());
    assert!(table.is_watching(&path("/a")));
    assert!(table.knows_object(8));
}

#[test]
fn a_refused_watch_is_not_taken_in() {
    let mut table = WatchTable::new();
    match table.add_watch(entry("/a", 8), Err(FailureKind::MaxFilesWatch)) {
        Err(failure) => {
            let error = failure.into_notify();
            assert!(matches!(error.kind, notify::ErrorKind::MaxFilesWatch));
            assert_eq!(error.paths, vec![path("/a")]);
        }
        Ok(()) => panic!("the watch was taken in"),
    }
    assert!(!table.is_watching(&path("/a")));
    assert!(!table.knows_object(8));
}

#[test]
fn a_recursive_watch_is_refused() {
    let mut table = table(&[("/a", 8)]);
    for text in ["/a", "/b"] {
        match table.handle_command(Command::Watch(path(text), RecursiveMode::Recursive)) {
            CommandAction::Reply(Err(failure)) => {
                let error = failure.into_notify();
                assert!(error.paths.is_empty());
                match error.kind {
                    notify::ErrorKind::Generic(message) => assert_eq!(
                        message,
                        "recursive Illumos file-event watches are unsupported"
                    ),
                    _ => panic!("not a generic error"),
                }
            }
            _ => panic!("the watch was not refused"),
        }
    }
}

#[test]
fn watching_twice_is_watching_once() {
    let mut table = table(&[("/a/b", 8)]);
    for text in ["/a/b", "/a/b/", "/a//b", "/a/./b"] {
        assert!(matches!(
            table.handle_command(watch(text)),
            CommandAction::Reply(Ok(()))
        ));
    }
    assert!(matches!(
        table.handle_command(watch("/a/B")),
        CommandAction::Open(_)
    ));
}

#[test]
fn unwatching_undoes_watching() {
    let mut table = table(&[("/a", 8), ("/b", 16), ("/c", 24)]);
    match table.handle_command(Command::Unwatch(path("/a/"))) {
        CommandAction::Dissociate { path: given, object } => {
            assert_eq!(given, path("/a/"));
            assert_eq!(object, 8);
        }
        _ => panic!("the watch was not given up"),
    }
    assert!(!table.is_watching(&path("/a")));
    assert!(!table.knows_object(8));
    assert!(table.is_watching(&path("/b")) && table.knows_object(16));
    assert!(table.is_watching(&path("/c")) && table.knows_object(24));
    match table.handle_command(Command::Unwatch(path("/a"))) {
        CommandAction::Reply(Err(failure)) => {
            let error = failure.into_notify();
            assert!(matches!(error.kind, notify::ErrorKind::WatchNotFound));
            assert_eq!(error.paths, vec![path("/a")]);
        }
        _ => panic!("the watch was given up twice"),
    }
}

#[test]
fn a_missing_association_is_as_good_as_a_dissociated_one() {
    assert!(unwatched(path("/a"), Ok(()), &CODES).is_ok());
    assert!(unwatched(path("/a"), Err(raw(libc::ENOENT)), &CODES).is_ok());
    match unwatched(path("/a"), Err(raw(libc::EBADF)), &CODES) {
        Err(failure) => {
            let error = failure.into_notify();
            match error.kind {
                notify::ErrorKind::Io(error) => {
                    assert_eq!(error.raw_os_error(), Some(libc::EBADF))
                }
                _ => panic!("not an I/O error"),
            }
            assert_eq!(error.paths, vec![path("/a")]);
        }
        Ok(()) => panic!("the error was lost"),
    }
}

#[test]
fn shutdown_stops_the_thread() {
    assert!(matches!(
        WatchTable::new().handle_command(Command::Shutdown),
        CommandAction::Stop
    ));
}

#[test]
fn an_event_on_an_unknown_object_is_ignored() {
    let mut table = table(&[("/a", 8)]);
    assert!(matches!(
        table.handle_file_event(9, FILE_DELETE),
        FileAction::Ignore
    ));
    assert!(table.is_watching(&path("/a")));
    assert!(matches!(table.after_stat(9, Ok(SEEN)), StatAction::Ignore));
}

#[test]
fn an_event_that_ends_a_watch_drops_it() {
    for (events, change) in [
        (FILE_DELETE, WatchChange::Removed),
        (FILE_RENAME_FROM, WatchChange::Renamed),
        (FILE_RENAME_TO, WatchChange::Renamed),
        (UNMOUNTED, WatchChange::Modified),
        (MOUNTEDOVER | FILE_MODIFIED, WatchChange::Modified),
    ] {
        let mut table = table(&[("/a", 8), ("/b", 16)]);
        match table.handle_file_event(8, events) {
            FileAction::Forget(event) => {
                assert_eq!(event.change, change);
                assert_eq!(event.path, path("/a"));
            }
            _ => panic!("the watch went on"),
        }
        assert!(!table.is_watching(&path("/a")));
        assert!(table.is_watching(&path("/b")));
        assert!(matches!(
            table.handle_file_event(8, FILE_MODIFIED),
            FileAction::Ignore
        ));
    }
}

#[test]
fn a_modified_path_is_watched_again_from_its_new_times() {
    let mut table = table(&[("/a", 8)]);
    match table.handle_file_event(8, FILE_MODIFIED | FILE_ATTRIB) {
        FileAction::Inspect(event) => {
            assert_eq!(event.change, WatchChange::Modified);
            assert_eq!(event.path, path("/a"));
        }
        _ => panic!("the watch ended"),
    }
    match table.after_stat(8, Ok(SEEN_LATER)) {
        StatAction::Reassociate { path: again, times } => {
            assert_eq!(again, path("/a"));
            assert_eq!(times.atime, timestamp(10, 20));
            assert_eq!(times.mtime, timestamp(30, 40));
            assert_eq!(times.ctime, timestamp(50, 60));
        }
        _ => panic!("the path was not watched again"),
    }
    assert!(table.is_watching(&path("/a")) && table.knows_object(8));
}

#[test]
fn a_path_that_is_gone_is_forgotten() {
    let mut table = table(&[("/a", 8)]);
    assert!(matches!(
        table.after_stat(8, Err(raw(libc::ENOENT))),
        StatAction::Forget
    ));
    assert!(!table.is_watching(&path("/a")));
    assert!(!table.knows_object(8));
}

#[test]
fn a_path_that_cannot_be_inspected_stays_watched() {
    let mut table = table(&[("/a", 8)]);
    match table.after_stat(8, Err(raw(libc::EACCES))) {
        StatAction::Report(failure) => {
            assert_eq!(failure.path, Some(path("/a")));
            assert!(matches!(failure.kind, FailureKind::Io(_)));
        }
        _ => panic!("the failure was not reported"),
    }
    assert!(table.is_watching(&path("/a")) && table.knows_object(8));
}

#[test]
fn a_failed_reassociation_is_reported_about_its_path() {
    assert!(reassociated(path("/a"), Ok(()), &CODES).is_none());
    let failure = reassociated(path("/a"), Err(raw(libc::EAGAIN)), &CODES).unwrap();
    assert_eq!(failure.path, Some(path("/a")));
    assert!(matches!(failure.kind, FailureKind::MaxFilesWatch));
}

#[test]
fn changes_become_notify_events() {
    for (change, kind) in [
        (WatchChange::Removed, EventKind::Remove(RemoveKind::Any)),
        (
            WatchChange::Renamed,
            EventKind::Modify(ModifyKind::Name(RenameMode::Any)),
        ),
        (WatchChange::Modified, EventKind::Modify(ModifyKind::Any)),
    ] {
        let event = WatchEvent {
            change,
            path: path("/a"),
        }
        .into_notify("seen by the port");
        assert_eq!(event.kind, kind);
        assert_eq!(event.paths, vec![path("/a")]);
        assert_eq!(event.info(), Some("seen by the port"));
    }
}

#[test]
fn failures_become_notify_errors() {
    let text = |kind| {
        let error = WatchFailure { kind, path: None }.into_notify();
        assert!(error.paths.is_empty());
        match error.kind {
            notify::ErrorKind::Generic(message) => message,
            _ => panic!("not a generic error"),
        }
    };
    assert_eq!(text(FailureKind::NulInPath), "path contains a NUL byte");
    assert_eq!(
        text(FailureKind::ThreadStopped),
        "Illumos file-event thread stopped"
    );
    let io_watch = |code| {
        WatchFailure {
            kind: FailureKind::IoWatch(io::Error::from_raw_os_error(code)),
            path: None,
        }
        .into_notify()
        .kind
    };
    assert!(matches!(
        io_watch(libc::ENOENT),
        notify::ErrorKind::PathNotFound
    ));
    assert!(matches!(io_watch(libc::EACCES), notify::ErrorKind::Io(_)));
}

#[test]
fn a_request_is_sent_then_wakes_then_waits() {
    assert!(matches!(
        command(CommandEvent::Sent { delivered: true }),
        CommandStep::Wake
    ));
    assert!(matches!(
        command(CommandEvent::Woken(Ok(()))),
        CommandStep::AwaitReply
    ));
    assert!(matches!(
        command(CommandEvent::Replied(Some(Ok(())))),
        CommandStep::Finish(Ok(()))
    ));
    match command(CommandEvent::Replied(Some(Err(WatchFailure {
        kind: FailureKind::MaxFilesWatch,
        path: Some(path("/a")),
    })))) {
        CommandStep::Finish(Err(failure)) => assert_eq!(failure.path, Some(path("/a"))),
        _ => panic!("the answer was lost"),
    }
}

#[test]
fn a_request_to_a_stopped_thread_fails() {
    for event in [
        CommandEvent::Sent { delivered: false },
        CommandEvent::Replied(None),
    ] {
        match command(event) {
            CommandStep::Finish(Err(failure)) => {
                assert!(matches!(failure.kind, FailureKind::ThreadStopped))
            }
            _ => panic!("the request went on"),
        }
    }
    match command(CommandEvent::Woken(Err(raw(libc::EBADF)))) {
        CommandStep::Finish(Err(failure)) => {
            assert!(matches!(failure.kind, FailureKind::Io(_)));
            assert!(failure.path.is_none());
        }
        _ => panic!("the request went on"),
    }
}

/// What the system says while one request of a batch is served.
struct Reply {
    object: usize,
    metadata: Result<Metadata, i32>,
    associated: Result<(), i32>,
    dissociated: Result<(), i32>,
}

fn granted(object: usize) -> Reply {
    Reply {
        object,
        metadata: Ok(SEEN),
        associated: Ok(()),
        dissociated: Ok(()),
    }
}

fn open(table: &mut WatchTable, opened: PathBuf, reply: Reply) -> Result<(), WatchFailure> {
    let mut event = named(opened.to_str().unwrap());
    loop {
        event = match table.open_watch(event, &CODES) {
            OpenStep::Look { path, .. } => OpenEvent::Looked {
                path,
                object: reply.object,
                metadata: reply.metadata.map_err(raw),
            },
            OpenStep::Associate(entry) => {
                assert!(!table.is_watching(&entry.path) && !table.knows_object(entry.object));
                OpenEvent::Associated {
                    entry,
                    outcome: reply.associated.map_err(raw),
                }
            }
            OpenStep::Finish(result) => return result,
        };
    }
}

fn named(text: &str) -> OpenEvent {
    OpenEvent::Named {
        path: path(text),
        bytes: text.as_bytes().to_vec(),
    }
}

/// Serves a batch; gives the answers, and whether the thread goes on.
fn serve(table: &mut WatchTable, batch: Vec<(Command, Reply)>) -> (Vec<notify::Result<()>>, bool) {
    let mut answers = Vec::new();
    for (request, reply) in batch {
        let answer = match table.handle_command(request) {
            CommandAction::Reply(answer) => answer,
            CommandAction::Open(opened) => open(table, opened, reply),
            CommandAction::Dissociate { path, .. } => {
                unwatched(path, reply.dissociated.map_err(raw), &CODES)
            }
            CommandAction::Stop => return (answers, false),
        };
        answers.push(answer.map_err(WatchFailure::into_notify));
    }
    (answers, true)
}

#[test]
fn a_batch_is_served_in_order() {
    let mut table = WatchTable::new();
    let (answers, goes_on) = serve(
        &mut table,
        vec![
            (watch("/a"), granted(8)),
            (watch("/a/"), granted(16)),
            (
                watch("/gone"),
                Reply {
                    metadata: Err(libc::ENOENT),
                    ..granted(24)
                },
            ),
            (
                watch("/many"),
                Reply {
                    associated: Err(libc::EAGAIN),
                    ..granted(32)
                },
            ),
            (watch("/n\0ul"), granted(40)),
            (Command::Unwatch(path("/a")), granted(48)),
            (Command::Unwatch(path("/a")), granted(56)),
            (watch("/a"), granted(64)),
        ],
    );
    assert!(goes_on);
    assert_eq!(answers.len(), 8);
    assert!(answers[0].is_ok());
    assert!(answers[1].is_ok());
    let gone = answers[2].as_ref().unwrap_err();
    assert!(matches!(gone.kind, notify::ErrorKind::PathNotFound));
    assert_eq!(gone.paths, vec![path("/gone")]);
    let many = answers[3].as_ref().unwrap_err();
    assert!(matches!(many.kind, notify::ErrorKind::MaxFilesWatch));
    assert_eq!(many.paths, vec![path("/many")]);
    let nul = answers[4].as_ref().unwrap_err();
    assert!(matches!(nul.kind, notify::ErrorKind::Generic(_)));
    assert!(nul.paths.is_empty());
    assert!(answers[5].is_ok());
    let twice = answers[6].as_ref().unwrap_err();
    assert!(matches!(twice.kind, notify::ErrorKind::WatchNotFound));
    assert!(answers[7].is_ok());
    assert!(table.is_watching(&path("/a")));
    assert!(table.knows_object(64) && !table.knows_object(8));
    for text in ["/gone", "/many", "/n\0ul"] {
        assert!(!table.is_watching(&path(text)));
    }
}

#[test]
fn nothing_is_taken_after_a_shutdown() {
    let mut table = table(&[("/a", 8)]);
    let (answers, goes_on) = serve(
        &mut table,
        vec![
            (watch("/b"), granted(16)),
            (Command::Shutdown, granted(24)),
            (Command::Unwatch(path("/a")), granted(32)),
            (watch("/c"), granted(40)),
        ],
    );
    assert!(!goes_on);
    assert_eq!(answers.len(), 1);
    assert!(answers[0].is_ok());
    assert!(table.is_watching(&path("/a")) && table.knows_object(8));
    assert!(table.is_watching(&path("/b")) && table.knows_object(16));
    assert!(!table.is_watching(&path("/c")));
    let (answers, goes_on) = serve(&mut table, Vec::new());
    assert!(goes_on && answers.is_empty());
}

#[test]
fn a_watch_is_named_then_looked_at_then_associated() {
    let mut table = WatchTable::new();
    let looked = match table.open_watch(named("/a"), &CODES) {
        OpenStep::Look { path: looked, name } => {
            assert_eq!(name, b"/a\0".to_vec());
            looked
        }
        _ => panic!("the path was not looked at"),
    };
    assert_eq!(looked, path("/a"));
    let seen = OpenEvent::Looked {
        path: looked,
        object: 8,
        metadata: Ok(SEEN),
    };
    let opened = match table.open_watch(seen, &CODES) {
        OpenStep::Associate(opened) => opened,
        _ => panic!("the port was not asked"),
    };
    assert_eq!((&opened.path, opened.object), (&path("/a"), 8));
    assert_eq!(opened.times, entry("/a", 8).times);
    assert!(!table.is_watching(&path("/a")) && !table.knows_object(8));
    let agreed = OpenEvent::Associated {
        entry: opened,
        outcome: Ok(()),
    };
    assert!(matches!(
        table.open_watch(agreed, &CODES),
        OpenStep::Finish(Ok(()))
    ));
    assert!(table.is_watching(&path("/a")) && table.knows_object(8));
}

#[test]
fn the_first_step_that_fails_ends_an_opening() {
    let mut table = WatchTable::new();
    match table.open_watch(named("/n\0ul"), &CODES) {
        OpenStep::Finish(Err(failure)) => match failure.into_notify().kind {
            notify::ErrorKind::Generic(message) => {
                assert_eq!(message, "path contains a NUL byte")
            }
            _ => panic!("not a generic error"),
        },
        _ => panic!("the path was looked at"),
    }
    for (code, missing) in [(libc::ENOENT, true), (libc::EACCES, false)] {
        let seen = OpenEvent::Looked {
            path: path("/gone"),
            object: 8,
            metadata: Err(raw(code)),
        };
        match table.open_watch(seen, &CODES) {
            OpenStep::Finish(Err(failure)) => {
                let error = failure.into_notify();
                assert_eq!(error.paths, vec![path("/gone")]);
                match error.kind {
                    notify::ErrorKind::PathNotFound => assert!(missing),
                    notify::ErrorKind::Io(error) => {
                        assert!(!missing);
                        assert_eq!(error.raw_os_error(), Some(code));
                    }
                    _ => panic!("neither missing nor an I/O error"),
                }
            }
            _ => panic!("the opening went on"),
        }
    }
    for code in [libc::EAGAIN, libc::ENOENT, libc::EACCES] {
        let refused = OpenEvent::Associated {
            entry: entry("/a", 8),
            outcome: Err(raw(code)),
        };
        match table.open_watch(refused, &CODES) {
            OpenStep::Finish(Err(failure)) => {
                let error = failure.into_notify();
                assert_eq!(error.paths, vec![path("/a")]);
                match error.kind {
                    notify::ErrorKind::MaxFilesWatch => assert_eq!(code, libc::EAGAIN),
                    notify::ErrorKind::PathNotFound => assert_eq!(code, libc::ENOENT),
                    notify::ErrorKind::Io(_) => assert_eq!(code, libc::EACCES),
                    _ => panic!("an error of another kind"),
                }
            }
            _ => panic!("the watch was taken in"),
        }
        assert!(!table.is_watching(&path("/a")) && !table.knows_object(8));
    }
}

/// Sees to a file event; gives the text of each report, with the paths it is about.
fn reports_of(
    table: &mut WatchTable,
    object: usize,
    events: i32,
    stat: Result<Metadata, i32>,
    outcome: Result<(), i32>,
) -> Vec<(&'static str, Vec<PathBuf>)> {
    let mut reports = Vec::new();
    match table.handle_file_event(object, events) {
        FileAction::Ignore => {}
        FileAction::Forget(event) => {
            reports.push(("change", event.into_notify("test").paths));
        }
        FileAction::Inspect(event) => {
            reports.push(("change", event.into_notify("test").paths));
            match table.after_stat(object, stat.map_err(raw)) {
                StatAction::Ignore | StatAction::Forget => {}
                StatAction::Report(failure) => {
                    reports.push(("unseen", failure.into_notify().paths));
                }
                StatAction::Reassociate { path, .. } => {
                    if let Some(failure) = reassociated(path, outcome.map_err(raw), &CODES) {
                        reports.push(("unwatched", failure.into_notify().paths));
                    }
                }
            }
        }
    }
    reports
}

#[test]
fn what_a_file_event_comes_to() {
    let about = |kind| (kind, vec![path("/a")]);
    let cases = [
        (24, FILE_MODIFIED, Ok(SEEN_LATER), Ok(()), vec![], true),
        (8, FILE_DELETE, Ok(SEEN_LATER), Ok(()), vec![about("change")], false),
        (8, FILE_MODIFIED, Ok(SEEN_LATER), Ok(()), vec![about("change")], true),
        (
            8,
            FILE_MODIFIED,
            Ok(SEEN_LATER),
            Err(libc::EAGAIN),
            vec![about("change"), about("unwatched")],
            true,
        ),
        (8, FILE_MODIFIED, Err(libc::ENOENT), Ok(()), vec![about("change")], false),
        (
            8,
            FILE_MODIFIED,
            Err(libc::EACCES),
            Ok(()),
            vec![about("change"), about("unseen")],
            true,
        ),
    ];
    for (object, events, stat, outcome, expected, stays) in cases {
        let mut table = table(&[("/a", 8), ("/b", 16)]);
        assert_eq!(reports_of(&mut table, object, events, stat, outcome), expected);
        assert_eq!(table.is_watching(&path("/a")), stays);
        assert_eq!(table.knows_object(8), stays);
        assert!(table.is_watching(&path("/b")) && table.knows_object(16));
    }
}
