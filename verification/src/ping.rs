//! Waking an event loop through a pair of connected sockets: one byte is written for each ping,
//! and the reader drains them all at once.

use crate::fault::{IoErrorKind, OsError};
use std::io;
use vstd::prelude::*;

verus! {

/// What an event loop does with a source once the source has seen to its events.
#[derive(Clone, Copy, Debug, PartialEq, Eq, Structural)]
pub enum PostAction {
    /// Go on as before.
    Continue,
    /// Register the source anew.
    Reregister,
    /// Stop listening to the source.
    Disable,
    /// Drop the source.
    Remove,
}

/// The socket of a ping source could not be read.
#[derive(Debug)]
pub struct PingError(io::Error);

impl PingError {
    /// What went wrong with the socket.
    pub closed spec fn cause(&self) -> io::Error {
        self.0
    }

    /// The error of a socket on which `error` came.
    pub fn new(error: io::Error) -> (failure: Self)
        ensures
            failure.cause() == error,
    {
        PingError(error)
    }

    /// What went wrong with the socket.
    pub fn source(&self) -> (error: &io::Error)
        ensures
            *error == self.cause(),
    {
        &self.0
    }

    /// The text of what went wrong with the socket.
    pub fn message(&self) -> (text: String)
        ensures
            vstd::string::to_string_from_display_ensures::<io::Error>(&self.cause(), text),
    {
        self.0.to_string()
    }

    /// What went wrong with the socket, handed over.
    pub fn into_source(self) -> (error: io::Error)
        ensures
            error == self.cause(),
    {
        self.0
    }
}

/// The error to log after a ping was written, if any. A socket that takes no more bytes holds
/// unread pings, so the reader is woken anyway.
pub fn ping(written: Result<usize, OsError>) -> (unexpected: Option<OsError>)
    ensures
        unexpected == match written {
            Ok(_) => None::<OsError>,
            Err(error) => if error.kind == IoErrorKind::WouldBlock {
                None
            } else {
                Some(error)
            },
        },
{
    match written {
        Ok(_) => None,
        Err(error) => if error.kind == IoErrorKind::WouldBlock {
            None
        } else {
            Some(error)
        },
    }
}

/// What a ping source does after a read.
pub enum DrainStep {
    /// Read again.
    Read,
    /// Call back if `notify` says so, then hand `action` to the event loop.
    Finish { notify: bool, action: PostAction },
    /// Give the error to the event loop.
    Fail(PingError),
}

/// The step that `step` is, with an error told by what caused it.
pub enum DrainView {
    Read,
    Finish { notify: bool, action: PostAction },
    Fail(io::Error),
}

impl View for DrainStep {
    type V = DrainView;

    open spec fn view(&self) -> DrainView {
        match self {
            DrainStep::Read => DrainView::Read,
            DrainStep::Finish { notify, action } => DrainView::Finish {
                notify: *notify,
                action: *action,
            },
            DrainStep::Fail(error) => DrainView::Fail(error.cause()),
        }
    }
}

/// What a ping source does after the read `read`, when a byte had come before it or not.
pub open spec fn drain_step(received: bool, read: Result<usize, OsError>) -> DrainView {
    match read {
        Ok(count) => if count == 0 {
            DrainView::Finish { notify: false, action: PostAction::Remove }
        } else {
            DrainView::Read
        },
        Err(error) => if error.kind == IoErrorKind::WouldBlock {
            DrainView::Finish { notify: received, action: PostAction::Reregister }
        } else {
            DrainView::Fail(error.error)
        },
    }
}

/// Whether a byte has come once `read` is done.
pub open spec fn received_after(received: bool, read: Result<usize, OsError>) -> bool {
    received || (read matches Ok(count) && count > 0)
}

/// A ping source at work: it reads until the socket is empty and calls back once if there was
/// anything to read. The socket is registered anew only once it is empty, so that a ping cannot
/// wake the loop a second time.
pub struct PingDrain {
    received_ping: bool,
}

impl PingDrain {
    /// Whether a byte has come.
    pub closed spec fn received(&self) -> bool {
        self.received_ping
    }

    /// Nothing has been read.
    pub fn new() -> (drain: Self)
        ensures
            !drain.received(),
    {
        PingDrain { received_ping: false }
    }

    /// Decides what follows a read: the other end is gone if it gave nothing, the socket is
    /// empty if it would block, and there may be more if it gave something.
    pub fn process_events(&mut self, read: Result<usize, OsError>) -> (step: DrainStep)
        ensures
            step@ == drain_step(old(self).received(), read),
            final(self).received() == received_after(old(self).received(), read),
    {
        match read {
            Ok(count) => if count == 0 {
                DrainStep::Finish { notify: false, action: PostAction::Remove }
            } else {
                self.received_ping = true;
                DrainStep::Read
            },
            Err(error) => if error.kind == IoErrorKind::WouldBlock {
                DrainStep::Finish { notify: self.received_ping, action: PostAction::Reregister }
            } else {
                DrainStep::Fail(PingError::new(error.error))
            },
        }
    }
}

/// What a ping source that reads `reads` one after the other ends with; `Read` if they run out.
pub open spec fn drain(received: bool, reads: Seq<Result<usize, OsError>>) -> DrainView
    decreases reads.len(),
{
    if reads.len() == 0 {
        DrainView::Read
    } else {
        match drain_step(received, reads[0]) {
            DrainView::Read => drain(received_after(received, reads[0]), reads.drop_first()),
            ended => ended,
        }
    }
}

/// `reads` empty a socket that holds `unread` bytes and whose other end is open: each read but
/// the last gives some of the bytes, and the last one would block because none is left.
pub open spec fn empties(unread: nat, reads: Seq<Result<usize, OsError>>) -> bool
    decreases reads.len(),
{
    reads.len() > 0 && match reads[0] {
        Ok(count) => 0 < count <= unread && empties((unread - count) as nat, reads.drop_first()),
        Err(error) => unread == 0 && error.kind == IoErrorKind::WouldBlock,
    }
}

/// However many pings a socket holds, draining it calls back exactly once, and not at all if it
/// holds none; the socket is then registered anew, and it is empty.
pub proof fn pings_are_answered_once(
    unread: nat,
    received: bool,
    reads: Seq<Result<usize, OsError>>,
)
    requires
        empties(unread, reads),
    ensures
        drain(received, reads) == (DrainView::Finish {
            notify: received || unread > 0,
            action: PostAction::Reregister,
        }),
    decreases reads.len(),
{
    match reads[0] {
        Ok(count) => {
            pings_are_answered_once((unread - count) as nat, true, reads.drop_first());
        },
        Err(_) => {},
    }
}

/// A source that is registered anew has just found its socket empty.
pub proof fn only_an_empty_socket_is_registered_anew(
    received: bool,
    read: Result<usize, OsError>,
    notify: bool,
)
    requires
        drain_step(received, read) == (DrainView::Finish {
            notify,
            action: PostAction::Reregister,
        }),
    ensures
        read matches Err(error) && error.kind == IoErrorKind::WouldBlock,
        notify == received,
{
}

/// The bytes that a socket with room for `room` bytes holds after a ping, of which it held
/// `unread`: one more, unless it is full.
pub open spec fn unread_after_ping(unread: nat, room: nat) -> nat {
    if unread < room {
        unread + 1
    } else {
        unread
    }
}

/// A ping always reaches the reader: whether or not its byte found room, the next drain calls
/// back.
pub proof fn a_ping_is_never_lost(unread: nat, room: nat, reads: Seq<Result<usize, OsError>>)
    requires
        0 < room,
        empties(unread_after_ping(unread, room), reads),
    ensures
        drain(false, reads) == (DrainView::Finish { notify: true, action: PostAction::Reregister }),
{
    pings_are_answered_once(unread_after_ping(unread, room), false, reads);
}

/// An error of a ping source holds the very error that came on its socket, and gives it back.
pub proof fn a_ping_error_keeps_its_cause(
    error: io::Error,
    failure: PingError,
    seen: &io::Error,
    back: io::Error,
    text: String,
)
    requires
        call_ensures(PingError::new, (error,), failure),
        call_ensures(PingError::source, (&failure,), seen),
        call_ensures(PingError::into_source, (failure,), back),
        call_ensures(PingError::message, (&failure,), text),
    ensures
        *seen == error,
        back == error,
        vstd::string::to_string_from_display_ensures::<io::Error>(&error, text),
{
}

/// A ping that was written, or found the socket full, is nothing to log; any other error is logged
/// as it came.
pub proof fn only_an_unexpected_error_is_logged(
    written: Result<usize, OsError>,
    unexpected: Option<OsError>,
)
    requires
        call_ensures(ping, (written,), unexpected),
    ensures
        unexpected is Some <==> written is Err && written->Err_0.kind != IoErrorKind::WouldBlock,
        unexpected matches Some(error) ==> error == written->Err_0,
{
}

/// A source reads on after every read that gave something, drops itself without calling back once
/// the other end is gone, and fails with the very error of a read that failed.
pub proof fn a_drain_goes_by_what_it_reads(
    drain: &mut PingDrain,
    read: Result<usize, OsError>,
    step: DrainStep,
)
    requires
        call_ensures(PingDrain::process_events, (drain, read), step),
    ensures
        step is Read <==> read is Ok && read->Ok_0 > 0,
        read is Ok && read->Ok_0 == 0 ==> (step matches DrainStep::Finish { notify, action }
            && !notify && action == PostAction::Remove),
        step is Fail <==> read is Err && read->Err_0.kind != IoErrorKind::WouldBlock,
        step matches DrainStep::Fail(error) ==> error.cause() == read->Err_0.error,
{
    assert(step@ is Read <==> step is Read);
    assert(step@ is Fail <==> step is Fail);
}

/// A source that finds its socket empty registers anew, and calls back exactly if anything was
/// read since it began: a new source has read nothing, a read that gave something is remembered,
/// and nothing else is.
pub proof fn a_drain_calls_back_for_what_it_read(
    fresh: PingDrain,
    drain: &mut PingDrain,
    read: Result<usize, OsError>,
    step: DrainStep,
)
    requires
        call_ensures(PingDrain::new, (), fresh),
        call_ensures(PingDrain::process_events, (drain, read), step),
    ensures
        !fresh.received(),
        final(drain).received() <==> old(drain).received() || (read is Ok && read->Ok_0 > 0),
        read is Err && read->Err_0.kind == IoErrorKind::WouldBlock ==> (
        step matches DrainStep::Finish { notify, action } && notify == old(drain).received()
            && action == PostAction::Reregister),
{
    assert(step@ is Finish <==> step is Finish);
}

} // verus!
