//! A queue that an event loop listens to: each message that is sent pings the loop, and the loop
//! takes out everything that waits.

use crate::ping::{PingError, PostAction};
use std::io;
use vstd::prelude::*;

verus! {

/// What the loop is told of the queue.
pub enum ChannelEvent<T> {
    /// A message came.
    Msg(T),
    /// Every sender is gone.
    Closed,
}

/// The queue could not be listened to.
#[derive(Debug)]
pub struct ChannelError(PingError);

impl ChannelError {
    /// What went wrong with the socket that wakes the loop.
    pub closed spec fn cause(&self) -> io::Error {
        self.0.cause()
    }

    /// The error of a queue whose wake-up source failed with `error`.
    pub fn new(error: PingError) -> (failure: Self)
        ensures
            failure.cause() == error.cause(),
    {
        ChannelError(error)
    }

    /// The text of what went wrong with the socket that wakes the loop.
    pub fn message(&self) -> (text: String)
        ensures
            vstd::string::to_string_from_display_ensures::<io::Error>(&self.cause(), text),
    {
        self.0.message()
    }

    /// What the wake-up source failed with.
    pub fn source(&self) -> (error: &PingError)
        ensures
            error.cause() == self.cause(),
    {
        &self.0
    }

    /// What the wake-up source failed with, handed over.
    pub fn into_source(self) -> (error: PingError)
        ensures
            error.cause() == self.cause(),
    {
        self.0
    }
}

/// Whether the loop is to be pinged after a message was handed to the queue: exactly when the
/// queue took it.
pub fn send<E>(sent: &Result<(), E>) -> (ping: bool)
    ensures
        ping == (sent is Ok),
{
    sent.is_ok()
}

/// How far a loop has come with one wake-up of its queue.
#[derive(Clone, Copy, Debug, PartialEq, Eq, Structural)]
pub struct ChannelRound {
    /// Nothing has been taken out since the wake-up.
    pub is_empty: bool,
    /// The queue has said that every sender is gone.
    pub disconnected: bool,
    /// The wake-up found nothing.
    pub clear_readiness: bool,
}

/// What the loop does once its wake-up source is done.
#[derive(Clone, Copy, Debug, PartialEq, Eq, Structural)]
pub struct ChannelOutcome {
    pub action: PostAction,
    /// Ping, so that the queue is looked at again.
    pub ping: bool,
}

/// What the loop is told of `item`.
pub open spec fn item_event<T, E>(item: Result<T, E>) -> Option<ChannelEvent<T>> {
    match item {
        Ok(message) => Some(ChannelEvent::Msg(message)),
        Err(_) => None,
    }
}

impl ChannelRound {
    /// Nothing has happened.
    pub open spec fn start() -> Self {
        ChannelRound { is_empty: true, disconnected: false, clear_readiness: false }
    }

    /// `item` has been taken out.
    pub open spec fn after_item<T, E>(self, item: Result<T, E>) -> Self {
        match item {
            Ok(_) => ChannelRound { is_empty: false, ..self },
            Err(_) => ChannelRound { disconnected: true, ..self },
        }
    }

    /// The queue has nothing more to give.
    pub open spec fn exhausted(self) -> Self {
        ChannelRound { clear_readiness: self.clear_readiness || self.is_empty, ..self }
    }

    /// What the loop does when its wake-up source has asked for `action`.
    pub open spec fn outcome(self, action: PostAction) -> ChannelOutcome {
        if self.disconnected {
            ChannelOutcome { action: PostAction::Remove, ping: false }
        } else {
            ChannelOutcome { action, ping: !self.clear_readiness }
        }
    }

    /// A round in which nothing has happened.
    pub fn new() -> (round: Self)
        ensures
            round == Self::start(),
    {
        ChannelRound { is_empty: true, disconnected: false, clear_readiness: false }
    }

    /// Sees to what the queue gave: a message is passed on, and the loss of the senders is
    /// remembered.
    pub fn process_item<T, E>(&mut self, item: Result<T, E>) -> (event: Option<ChannelEvent<T>>)
        ensures
            event == item_event(item),
            *final(self) == old(self).after_item(item),
    {
        match item {
            Ok(message) => {
                self.is_empty = false;
                Some(ChannelEvent::Msg(message))
            },
            Err(_) => {
                self.disconnected = true;
                None
            },
        }
    }

    /// Sees to a queue that has nothing more to give: the loop is told if the senders are gone.
    pub fn finish_items<T>(&mut self) -> (event: Option<ChannelEvent<T>>)
        ensures
            event == if old(self).disconnected {
                Some(ChannelEvent::<T>::Closed)
            } else {
                None
            },
            *final(self) == old(self).exhausted(),
    {
        if self.is_empty {
            self.clear_readiness = true;
        }
        if self.disconnected {
            Some(ChannelEvent::Closed)
        } else {
            None
        }
    }

    /// Decides what the loop does once its wake-up source is done: a closed queue is dropped, and
    /// a queue that was not found empty is looked at again. The error of a source that failed is
    /// the error of the queue, and nothing is pinged.
    pub fn process_events(&self, source: Result<PostAction, PingError>) -> (result: Result<
        ChannelOutcome,
        ChannelError,
    >)
        ensures
            match source {
                Ok(action) => result == Ok::<ChannelOutcome, ChannelError>(self.outcome(action)),
                Err(error) => result matches Err(failure) && failure.cause() == error.cause(),
            },
    {
        match source {
            Ok(action) => if self.disconnected {
                Ok(ChannelOutcome { action: PostAction::Remove, ping: false })
            } else {
                Ok(ChannelOutcome { action, ping: !self.clear_readiness })
            },
            Err(error) => Err(ChannelError::new(error)),
        }
    }
}

} // verus!
