//! What is kept of a watched path: the name that the system knows it by and the times that it
//! was last seen with.

use crate::fault::OsError;
use crate::reports::{FailureKind, WatchFailure};
use std::path::PathBuf;
use vstd::prelude::*;

verus! {

/// A point in time as the system writes it.
#[derive(Clone, Copy, Debug, PartialEq, Eq, Structural)]
pub struct Timespec {
    pub tv_sec: i64,
    pub tv_nsec: i64,
}

/// The point in time at `seconds` and `nanoseconds`.
pub fn timestamp(seconds: i64, nanoseconds: i64) -> (time: Timespec)
    ensures
        time == (Timespec { tv_sec: seconds, tv_nsec: nanoseconds }),
{
    Timespec { tv_sec: seconds, tv_nsec: nanoseconds }
}

/// The times in a file's metadata: last access, last modification and last status change.
#[derive(Clone, Copy, Debug, PartialEq, Eq, Structural)]
pub struct Metadata {
    pub atime: i64,
    pub atime_nsec: i64,
    pub mtime: i64,
    pub mtime_nsec: i64,
    pub ctime: i64,
    pub ctime_nsec: i64,
}

/// The times that the port compares a file against.
#[derive(Clone, Copy, Debug, PartialEq, Eq, Structural)]
pub struct FileTimes {
    pub atime: Timespec,
    pub mtime: Timespec,
    pub ctime: Timespec,
}

/// The times that `metadata` gives.
pub open spec fn times_of(metadata: Metadata) -> FileTimes {
    FileTimes {
        atime: Timespec { tv_sec: metadata.atime, tv_nsec: metadata.atime_nsec },
        mtime: Timespec { tv_sec: metadata.mtime, tv_nsec: metadata.mtime_nsec },
        ctime: Timespec { tv_sec: metadata.ctime, tv_nsec: metadata.ctime_nsec },
    }
}

/// The name under which the system is asked for the path `bytes`: the bytes and a NUL to end
/// them. There is none exactly when a NUL is among the bytes.
pub open spec fn naming(bytes: Seq<u8>) -> Result<Seq<u8>, WatchFailure> {
    if bytes.contains(0u8) {
        Err(WatchFailure { kind: FailureKind::NulInPath, path: None })
    } else {
        Ok(bytes.push(0u8))
    }
}

/// The name under which the system is asked for the path `bytes`.
pub fn watch_name(bytes: &[u8]) -> (name: Result<Vec<u8>, WatchFailure>)
    ensures
        match name {
            Ok(text) => naming(bytes@) == Ok::<Seq<u8>, WatchFailure>(text@),
            Err(failure) => naming(bytes@) == Err::<Seq<u8>, WatchFailure>(failure),
        },
{
    let mut text: Vec<u8> = Vec::new();
    let mut next: usize = 0;
    while next < bytes.len()
        invariant
            next <= bytes@.len(),
            text@ == bytes@.take(next as int),
            forall|i: int| 0 <= i < next ==> bytes@[i] != 0,
        decreases bytes@.len() - next,
    {
        let byte: u8 = bytes[next];
        if byte == 0 {
            assert(bytes@[next as int] == 0u8);
            return Err(WatchFailure { kind: FailureKind::NulInPath, path: None });
        }
        text.push(byte);
        proof {
            assert(bytes@.take(next + 1) =~= bytes@.take(next as int).push(byte));
        }
        next += 1;
    }
    text.push(0);
    proof {
        assert(bytes@.take(bytes@.len() as int) =~= bytes@);
    }
    Ok(text)
}

/// A watched path.
pub struct WatchEntry {
    pub path: PathBuf,
    /// The address that the port knows the watched file by.
    pub object: usize,
    /// What the port compares the file against.
    pub times: FileTimes,
}

/// The entry for `path`, which the port is to know by `object`, from what looking at the path
/// gave. A path that could not be looked at gives a failure about that path.
pub open spec fn entering(
    path: PathBuf,
    object: usize,
    metadata: Result<Metadata, OsError>,
) -> Result<WatchEntry, WatchFailure> {
    match metadata {
        Ok(metadata) => Ok(WatchEntry { path, object, times: times_of(metadata) }),
        Err(error) => Err(
            WatchFailure { kind: FailureKind::IoWatch(error.error), path: Some(path) },
        ),
    }
}

impl WatchEntry {
    /// The entry for `path`, which the port is to know by `object`. A path that could not be
    /// looked at gives a failure about that path.
    pub fn new(path: PathBuf, object: usize, metadata: Result<Metadata, OsError>) -> (entry: Result<
        Self,
        WatchFailure,
    >)
        ensures
            entry == entering(path, object, metadata),
    {
        match metadata {
            Ok(metadata) => Ok(
                WatchEntry {
                    path,
                    object,
                    times: FileTimes {
                        atime: timestamp(metadata.atime, metadata.atime_nsec),
                        mtime: timestamp(metadata.mtime, metadata.mtime_nsec),
                        ctime: timestamp(metadata.ctime, metadata.ctime_nsec),
                    },
                },
            ),
            Err(error) => Err(
                WatchFailure { kind: FailureKind::IoWatch(error.error), path: Some(path) },
            ),
        }
    }

    /// Takes over the times of `metadata`; the path and the address stay.
    pub fn refresh(&mut self, metadata: &Metadata)
        ensures
            *final(self) == (WatchEntry { times: times_of(*metadata), ..*old(self) }),
    {
        self.times.atime = timestamp(metadata.atime, metadata.atime_nsec);
        self.times.mtime = timestamp(metadata.mtime, metadata.mtime_nsec);
        self.times.ctime = timestamp(metadata.ctime, metadata.ctime_nsec);
    }
}

/// A point in time has the seconds and the nanoseconds that it was made of.
pub proof fn timestamps_keep_their_parts(seconds: i64, nanoseconds: i64, time: Timespec)
    requires
        call_ensures(timestamp, (seconds, nanoseconds), time),
    ensures
        time.tv_sec == seconds,
        time.tv_nsec == nanoseconds,
{
}

/// A path has a name exactly if it holds no NUL; the name is the path's bytes in order and then a
/// NUL, its only one.
pub proof fn a_name_is_the_path_and_a_nul(bytes: &[u8], name: Result<Vec<u8>, WatchFailure>)
    requires
        call_ensures(watch_name, (bytes,), name),
    ensures
        name is Ok <==> forall|i: int| 0 <= i < bytes@.len() ==> bytes@[i] != 0,
        name matches Ok(text) ==> text@.len() == bytes@.len() + 1,
        name matches Ok(text) ==> forall|i: int|
            0 <= i < bytes@.len() ==> #[trigger] text@[i] == bytes@[i],
        name matches Ok(text) ==> text@[bytes@.len() as int] == 0,
        name matches Ok(text) ==> forall|i: int|
            0 <= i < bytes@.len() ==> #[trigger] text@[i] != 0,
        name matches Err(failure) ==> failure.kind is NulInPath && failure.path is None,
{
    if forall|i: int| 0 <= i < bytes@.len() ==> bytes@[i] != 0 {
        assert(!bytes@.contains(0u8));
    }
    if name is Ok {
        assert forall|i: int| 0 <= i < bytes@.len() implies bytes@[i] != 0 by {
            assert(bytes@.contains(bytes@[i]));
        }
    }
}

/// A new entry is for its path, at its address, and has the access, modification and status-change
/// times of the file. There is one exactly if the path could be looked at; if not, the failure is
/// about the path and holds the system's error.
pub proof fn an_entry_has_the_times_of_its_file(
    path: PathBuf,
    object: usize,
    metadata: Result<Metadata, OsError>,
    entry: Result<WatchEntry, WatchFailure>,
)
    requires
        call_ensures(WatchEntry::new, (path, object, metadata), entry),
    ensures
        entry is Ok <==> metadata is Ok,
        metadata matches Ok(seen) ==> (entry matches Ok(made) && made.path == path && made.object
            == object && made.times.atime.tv_sec == seen.atime && made.times.atime.tv_nsec
            == seen.atime_nsec && made.times.mtime.tv_sec == seen.mtime && made.times.mtime.tv_nsec
            == seen.mtime_nsec && made.times.ctime.tv_sec == seen.ctime && made.times.ctime.tv_nsec
            == seen.ctime_nsec),
        metadata matches Err(error) ==> (entry matches Err(failure) && failure.path == Some(path)
            && failure.kind == FailureKind::IoWatch(error.error)),
{
}

/// Bringing an entry up to date gives it the access, modification and status-change times of the
/// file and leaves its path and its address.
pub proof fn a_refreshed_entry_has_the_times_of_its_file(entry: &mut WatchEntry, seen: Metadata)
    requires
        call_ensures(WatchEntry::refresh, (entry, &seen), ()),
    ensures
        final(entry).path == old(entry).path,
        final(entry).object == old(entry).object,
        final(entry).times.atime.tv_sec == seen.atime,
        final(entry).times.atime.tv_nsec == seen.atime_nsec,
        final(entry).times.mtime.tv_sec == seen.mtime,
        final(entry).times.mtime.tv_nsec == seen.mtime_nsec,
        final(entry).times.ctime.tv_sec == seen.ctime,
        final(entry).times.ctime.tv_nsec == seen.ctime_nsec,
{
}

} // verus!
