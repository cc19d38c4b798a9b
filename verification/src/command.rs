//! How a request is passed to the thread that owns the watch table and how its answer comes
//! back.

use crate::fault::OsError;
use crate::reports::{FailureKind, WatchFailure};
use vstd::prelude::*;

verus! {

/// How the latest step of passing a request went.
pub enum CommandEvent {
    /// The request was put in the thread's channel, unless the thread is gone.
    Sent { delivered: bool },
    /// The thread was woken.
    Woken(Result<(), OsError>),
    /// The answer came; there is none if the thread is gone.
    Replied(Option<Result<(), WatchFailure>>),
}

/// The next step of passing a request.
pub enum CommandStep {
    /// Wake the thread.
    Wake,
    /// Wait for the answer.
    AwaitReply,
    /// Answer the caller.
    Finish(Result<(), WatchFailure>),
}

/// The step that follows `event`.
pub open spec fn next_step(event: CommandEvent) -> CommandStep {
    match event {
        CommandEvent::Sent { delivered } => if delivered {
            CommandStep::Wake
        } else {
            CommandStep::Finish(
                Err(WatchFailure { kind: FailureKind::ThreadStopped, path: None }),
            )
        },
        CommandEvent::Woken(Ok(())) => CommandStep::AwaitReply,
        CommandEvent::Woken(Err(error)) => CommandStep::Finish(
            Err(WatchFailure { kind: FailureKind::Io(error.error), path: None }),
        ),
        CommandEvent::Replied(Some(reply)) => CommandStep::Finish(reply),
        CommandEvent::Replied(None) => CommandStep::Finish(
            Err(WatchFailure { kind: FailureKind::ThreadStopped, path: None }),
        ),
    }
}

/// Decides how a request goes on: it is sent, the thread is woken, and the answer is awaited; the
/// first step that fails ends it.
pub fn command(event: CommandEvent) -> (step: CommandStep)
    ensures
        step == next_step(event),
{
    match event {
        CommandEvent::Sent { delivered } => if delivered {
            CommandStep::Wake
        } else {
            CommandStep::Finish(
                Err(WatchFailure { kind: FailureKind::ThreadStopped, path: None }),
            )
        },
        CommandEvent::Woken(woken) => match woken {
            Ok(()) => CommandStep::AwaitReply,
            Err(error) => CommandStep::Finish(
                Err(WatchFailure { kind: FailureKind::Io(error.error), path: None }),
            ),
        },
        CommandEvent::Replied(reply) => match reply {
            Some(reply) => CommandStep::Finish(reply),
            None => CommandStep::Finish(
                Err(WatchFailure { kind: FailureKind::ThreadStopped, path: None }),
            ),
        },
    }
}

/// A caller is told that its request succeeded only if the thread said so.
pub proof fn success_comes_from_the_thread(event: CommandEvent)
    ensures
        next_step(event) == CommandStep::Finish(Ok(())) ==> event == CommandEvent::Replied(
            Some(Ok(())),
        ),
{
}

/// A request that was delivered wakes the thread, a thread that was woken is waited for, and what
/// it answers is the answer. A thread that is gone, or cannot be woken, ends the request with a
/// failure about no path.
pub proof fn a_request_goes_its_way(event: CommandEvent, step: CommandStep)
    requires
        call_ensures(command, (event,), step),
    ensures
        step is Wake <==> (event matches CommandEvent::Sent { delivered } && delivered),
        step is AwaitReply <==> (event matches CommandEvent::Woken(woken) && woken is Ok),
        event matches CommandEvent::Sent { delivered } ==> delivered || (
        step matches CommandStep::Finish(Err(failure)) && failure.kind is ThreadStopped
            && failure.path is None),
        event matches CommandEvent::Woken(woken) ==> woken is Ok || (
        step matches CommandStep::Finish(Err(failure)) && failure.kind == FailureKind::Io(
            woken->Err_0.error,
        ) && failure.path is None),
        event matches CommandEvent::Replied(reply)
            ==> (step matches CommandStep::Finish(result) && (
        reply is Some ==> result == reply->0) && (reply is None ==> (result matches Err(failure)
            && failure.kind is ThreadStopped && failure.path is None))),
{
}

} // verus!
