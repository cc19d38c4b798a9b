//! What holds of a queue that an event loop listens to, over whole rounds and between senders
//! and the loop.

use crate::channel::{
    item_event, send, ChannelError, ChannelEvent, ChannelOutcome, ChannelRound,
};
use crate::fault::OsError;
use crate::ping::{drain, empties, pings_are_answered_once, DrainView, PingError, PostAction};
use std::io;
use vstd::prelude::*;

verus! {

/// Where a round has come to once `items` have been taken out.
pub open spec fn after_items<T, E>(round: ChannelRound, items: Seq<Result<T, E>>) -> ChannelRound
    decreases items.len(),
{
    if items.len() == 0 {
        round
    } else {
        after_items(round, items.drop_last()).after_item(items.last())
    }
}

/// What the loop is told while `items` are taken out.
pub open spec fn passed_on<T, E>(items: Seq<Result<T, E>>) -> Seq<ChannelEvent<T>>
    decreases items.len(),
{
    if items.len() == 0 {
        Seq::empty()
    } else {
        let earlier = passed_on(items.drop_last());
        match item_event(items.last()) {
            Some(event) => earlier.push(event),
            None => earlier,
        }
    }
}

/// Whether a message is among `items`.
pub open spec fn any_message<T, E>(items: Seq<Result<T, E>>) -> bool {
    exists|i: int| 0 <= i < items.len() && items[i] is Ok
}

/// Whether the loss of the senders is among `items`.
pub open spec fn any_loss<T, E>(items: Seq<Result<T, E>>) -> bool {
    exists|i: int| 0 <= i < items.len() && items[i] is Err
}

/// What a wake-up that finds `items` comes to: the queue is dropped if the senders are gone, is
/// looked at again if there were messages, and is left alone if there were none.
pub proof fn what_a_round_comes_to<T, E>(items: Seq<Result<T, E>>, action: PostAction)
    ensures
        ({
            let round = after_items(ChannelRound::start(), items);
            &&& round.is_empty == !any_message(items)
            &&& round.disconnected == any_loss(items)
            &&& round.exhausted().outcome(action) == if any_loss(items) {
                ChannelOutcome { action: PostAction::Remove, ping: false }
            } else {
                ChannelOutcome { action, ping: any_message(items) }
            }
        }),
    decreases items.len(),
{
    if items.len() > 0 {
        let earlier = items.drop_last();
        what_a_round_comes_to(earlier, action);
        assert(items[items.len() - 1] == items.last());
        if any_message(earlier) {
            let i = choose|i: int| 0 <= i < earlier.len() && earlier[i] is Ok;
            assert(items[i] is Ok);
        }
        if any_loss(earlier) {
            let i = choose|i: int| 0 <= i < earlier.len() && earlier[i] is Err;
            assert(items[i] is Err);
        }
        if any_message(items) && items.last() is Err {
            let i = choose|i: int| 0 <= i < items.len() && items[i] is Ok;
            assert(earlier[i] is Ok);
        }
        if any_loss(items) && items.last() is Ok {
            let i = choose|i: int| 0 <= i < items.len() && items[i] is Err;
            assert(earlier[i] is Err);
        }
    }
}

/// The messages among `items`, in order.
pub open spec fn messages<T, E>(items: Seq<Result<T, E>>) -> Seq<T> {
    items.filter(|item: Result<T, E>| item is Ok).map_values(|item: Result<T, E>| item->Ok_0)
}

/// Every message that is taken out is passed on, once and in order, and nothing else is.
pub proof fn every_message_is_passed_on<T, E>(items: Seq<Result<T, E>>)
    ensures
        passed_on(items) == messages(items).map_values(|message: T| ChannelEvent::Msg(message)),
    decreases items.len(),
{
    reveal(Seq::filter);
    if items.len() > 0 {
        every_message_is_passed_on(items.drop_last());
    }
    assert(passed_on(items) =~= messages(items).map_values(
        |message: T| ChannelEvent::Msg(message),
    ));
}

/// A wake-up that did not call back leaves the queue unread, so it is looked at again.
pub proof fn an_unread_queue_is_looked_at_again(action: PostAction)
    ensures
        ChannelRound::start().outcome(action) == (ChannelOutcome { action, ping: true }),
{
}

/// What a receiver does with one wake-up.
pub struct Wakeup<T> {
    /// How many items it takes out of its queue.
    pub taken: nat,
    /// What it tells the loop, in order.
    pub events: Seq<ChannelEvent<T>>,
    /// What it hands to the loop at the end; an error is told by what caused it. It pings only if
    /// there is an outcome that says so.
    pub result: Result<ChannelOutcome, io::Error>,
}

/// What a receiver does with a wake-up when its socket gives `reads` and its queue would give
/// `items`; nothing yet if the reads run out.
pub open spec fn wakeup<T, E>(
    reads: Seq<Result<usize, OsError>>,
    items: Seq<Result<T, E>>,
) -> Option<Wakeup<T>> {
    match drain(false, reads) {
        DrainView::Read => None,
        DrainView::Finish { notify, action } => if notify {
            let round = after_items(ChannelRound::start(), items);
            Some(
                Wakeup {
                    taken: items.len(),
                    events: if round.disconnected {
                        passed_on(items).push(ChannelEvent::Closed)
                    } else {
                        passed_on(items)
                    },
                    result: Ok(round.exhausted().outcome(action)),
                },
            )
        } else {
            Some(
                Wakeup {
                    taken: 0,
                    events: Seq::empty(),
                    result: Ok(ChannelRound::start().outcome(action)),
                },
            )
        },
        DrainView::Fail(error) => Some(
            Wakeup { taken: 0, events: Seq::empty(), result: Err(error) },
        ),
    }
}

/// A wake-up fails exactly if reading the socket does, with the same error. Then nothing is taken
/// out of the queue, the loop is told nothing of it, and nothing is pinged.
pub proof fn a_failed_wake_up_leaves_the_queue_alone<T, E>(
    reads: Seq<Result<usize, OsError>>,
    items: Seq<Result<T, E>>,
    error: io::Error,
)
    ensures
        (wakeup(reads, items) matches Some(done) && done.result == Err::<
            ChannelOutcome,
            io::Error,
        >(error)) <==> drain(false, reads) == DrainView::Fail(error),
        drain(false, reads) == DrainView::Fail(error) ==> wakeup(reads, items) == Some(
            Wakeup::<T> { taken: 0, events: Seq::empty(), result: Err(error) },
        ),
{
}

/// A wake-up of which something could be read until the socket was empty takes out all that is in
/// the queue, tells the loop of each message once and in order, and then, if every sender is
/// gone, of that.
pub proof fn a_wake_up_takes_out_everything<T, E>(
    unread: nat,
    reads: Seq<Result<usize, OsError>>,
    items: Seq<Result<T, E>>,
)
    requires
        0 < unread,
        empties(unread, reads),
    ensures
        ({
            let told = messages(items).map_values(|message: T| ChannelEvent::Msg(message));
            wakeup(reads, items) == Some(
                Wakeup {
                    taken: items.len(),
                    events: if any_loss(items) {
                        told.push(ChannelEvent::Closed)
                    } else {
                        told
                    },
                    result: Ok(
                        if any_loss(items) {
                            ChannelOutcome { action: PostAction::Remove, ping: false }
                        } else {
                            ChannelOutcome {
                                action: PostAction::Reregister,
                                ping: any_message(items),
                            }
                        },
                    ),
                },
            )
        }),
{
    pings_are_answered_once(unread, false, reads);
    what_a_round_comes_to(items, PostAction::Reregister);
    every_message_is_passed_on(items);
}

/// A queue, its senders and its loop.
pub struct ChannelModel {
    /// The senders that are not gone.
    pub senders: nat,
    /// The senders that have pinged for the last time and are about to go.
    pub leaving: nat,
    /// The messages in the queue.
    pub waiting: nat,
    /// The messages in the queue whose sender has not pinged for them yet.
    pub about_to_ping: nat,
    /// A ping has been written that the loop has not read.
    pub pinged: bool,
    /// The round that the loop is in.
    pub round: Option<ChannelRound>,
    /// The round has found that the queue has nothing more to give.
    pub exhausted: bool,
    /// The loop knows that every sender is gone.
    pub closed: bool,
    /// A round used up every ping and found nothing while a sender was about to go, and no ping
    /// has come since.
    pub overtaken: bool,
}

/// Something that a sender or the loop does.
pub enum ChannelMove {
    /// A sender puts a message in the queue.
    Send,
    /// A sender pings for its message.
    Ping,
    /// A sender pings for the last time.
    Leave,
    /// A sender that has pinged for the last time is gone.
    Gone,
    /// The loop reads the pings and calls back.
    Wake,
    /// The loop takes a message out.
    Take,
    /// The loop finds the queue empty and every sender gone.
    Lose,
    /// The loop finds that the queue has nothing more to give.
    Exhaust,
    /// The loop ends its round; its wake-up source asked for `action`.
    Conclude { action: PostAction },
}

impl ChannelModel {
    /// A queue with `senders` senders to which nothing has been sent.
    pub open spec fn quiet(senders: nat) -> Self {
        ChannelModel {
            senders,
            leaving: 0,
            waiting: 0,
            about_to_ping: 0,
            pinged: false,
            round: None,
            exhausted: false,
            closed: false,
            overtaken: false,
        }
    }

    /// `after` is what `step` makes of this.
    pub open spec fn follows(self, step: ChannelMove, after: Self) -> bool {
        match step {
            ChannelMove::Send => self.leaving < self.senders && after == (ChannelModel {
                waiting: self.waiting + 1,
                about_to_ping: self.about_to_ping + 1,
                ..self
            }),
            ChannelMove::Ping => self.about_to_ping > 0 && after == (ChannelModel {
                about_to_ping: (self.about_to_ping - 1) as nat,
                pinged: true,
                overtaken: false,
                ..self
            }),
            ChannelMove::Leave => self.leaving < self.senders && after == (ChannelModel {
                leaving: self.leaving + 1,
                pinged: true,
                overtaken: false,
                ..self
            }),
            ChannelMove::Gone => 0 < self.leaving <= self.senders && after == (ChannelModel {
                leaving: (self.leaving - 1) as nat,
                senders: (self.senders - 1) as nat,
                ..self
            }),
            ChannelMove::Wake => self.round is None && self.pinged && !self.closed && after == (
            ChannelModel {
                pinged: false,
                round: Some(ChannelRound::start()),
                exhausted: false,
                ..self
            }),
            ChannelMove::Take => self.round is Some && !self.exhausted && self.waiting > 0 && after
                == (ChannelModel {
                waiting: (self.waiting - 1) as nat,
                round: Some(self.round->0.after_item(Ok::<(), ()>(()))),
                ..self
            }),
            ChannelMove::Lose => self.round is Some && !self.exhausted && self.waiting == 0
                && self.senders == 0 && after == (ChannelModel {
                round: Some(self.round->0.after_item(Err::<(), ()>(()))),
                ..self
            }),
            ChannelMove::Exhaust => self.round is Some && !self.exhausted && self.waiting == 0 && (
            self.senders == 0 ==> self.round->0.disconnected) && after == (ChannelModel {
                round: Some(self.round->0.exhausted()),
                exhausted: true,
                overtaken: self.overtaken || (self.leaving > 0 && self.round->0.is_empty
                    && !self.pinged),
                ..self
            }),
            ChannelMove::Conclude { action } => self.round is Some && self.exhausted && after == (
            ChannelModel {
                pinged: self.pinged || self.round->0.outcome(action).ping,
                overtaken: self.overtaken && !self.round->0.outcome(action).ping,
                closed: self.closed || self.round->0.disconnected,
                round: None,
                ..self
            }),
        }
    }

    /// The loop is in a round that has yet to see what is in the queue.
    pub open spec fn still_looking(self) -> bool {
        self.round is Some && !self.exhausted
    }

    /// Messages that wait have been, or are about to be, pinged for, or the loop is about to see
    /// them.
    pub open spec fn messages_announced(self) -> bool {
        self.waiting > 0 ==> self.pinged || self.about_to_ping > 0 || self.still_looking()
    }

    /// Senders that go or are gone have been pinged for, or the loop is about to see that, or it
    /// looked just before they were gone.
    pub open spec fn end_announced(self) -> bool {
        (self.leaving > 0 || self.senders == 0) && !self.closed ==> {
            ||| self.pinged
            ||| self.still_looking()
            ||| self.round is Some && (self.round->0.disconnected
                || !self.round->0.clear_readiness)
            ||| self.overtaken
        }
    }
}

/// `states` are what a queue with `senders` senders goes through as `steps` are made.
pub open spec fn is_channel_run(
    senders: nat,
    states: Seq<ChannelModel>,
    steps: Seq<ChannelMove>,
) -> bool {
    &&& states.len() == steps.len() + 1
    &&& states[0] == ChannelModel::quiet(senders)
    &&& forall|i: int|
        0 <= i < steps.len() ==> #[trigger] states[i].follows(steps[i], states[i + 1])
}

/// Whatever senders and loop do, in whatever order, no message waits without the loop being
/// woken for it: when the loop rests and no sender is on its way to ping, a waiting message has
/// been pinged for.
pub proof fn no_message_waits_unannounced(
    senders: nat,
    states: Seq<ChannelModel>,
    steps: Seq<ChannelMove>,
    count: nat,
)
    requires
        is_channel_run(senders, states, steps),
        count <= steps.len(),
    ensures
        states[count as int].messages_announced(),
        states[count as int].waiting > 0 && states[count as int].round is None
            && states[count as int].about_to_ping == 0 ==> states[count as int].pinged,
    decreases count,
{
    if count > 0 {
        no_message_waits_unannounced(senders, states, steps, (count - 1) as nat);
        assert(states[count - 1].follows(steps[count - 1], states[count - 1 + 1]));
    }
}

/// Once every sender is gone the loop is woken to be told so: when it rests and does not know
/// yet, a ping is there. The one way round that is a round that used up the last ping of a
/// sender and found nothing just before that sender was gone.
pub proof fn the_end_is_announced(
    senders: nat,
    states: Seq<ChannelModel>,
    steps: Seq<ChannelMove>,
    count: nat,
)
    requires
        0 < senders,
        is_channel_run(senders, states, steps),
        count <= steps.len(),
    ensures
        states[count as int].end_announced(),
        states[count as int].senders == 0 && !states[count as int].closed
            && states[count as int].round is None && !states[count as int].overtaken
            ==> states[count as int].pinged,
        states[count as int].leaving <= states[count as int].senders,
        states[count as int].still_looking()
            ==> !states[count as int].round->0.clear_readiness,
    decreases count,
{
    if count > 0 {
        the_end_is_announced(senders, states, steps, (count - 1) as nat);
        assert(states[count - 1].follows(steps[count - 1], states[count - 1 + 1]));
    }
}

/// The loop is pinged for a message exactly if the queue took it.
pub proof fn a_taken_message_is_pinged_for<E>(sent: Result<(), E>, ping: bool)
    requires
        call_ensures(send::<E>, (&sent,), ping),
    ensures
        ping <==> sent is Ok,
{
}

/// An error of a queue holds the very error of its wake-up source, and gives it back.
pub proof fn a_channel_error_keeps_its_cause(
    error: PingError,
    failure: ChannelError,
    seen: &PingError,
    back: PingError,
    text: String,
)
    requires
        call_ensures(ChannelError::new, (error,), failure),
        call_ensures(ChannelError::source, (&failure,), seen),
        call_ensures(ChannelError::into_source, (failure,), back),
        call_ensures(ChannelError::message, (&failure,), text),
    ensures
        failure.cause() == error.cause(),
        seen.cause() == error.cause(),
        back.cause() == error.cause(),
        vstd::string::to_string_from_display_ensures::<io::Error>(&error.cause(), text),
{
}

/// A round begins with nothing taken out and no loss found.
pub proof fn a_round_begins_with_nothing(round: ChannelRound)
    requires
        call_ensures(ChannelRound::new, (), round),
    ensures
        round.is_empty,
        !round.disconnected,
        !round.clear_readiness,
{
}

/// A message is passed on as it is, and the round is not empty from then on; the loss of the
/// senders is remembered and not passed on yet. Nothing else changes.
pub proof fn an_item_is_passed_on_or_remembered<T, E>(
    round: &mut ChannelRound,
    item: Result<T, E>,
    event: Option<ChannelEvent<T>>,
)
    requires
        call_ensures(ChannelRound::process_item::<T, E>, (round, item), event),
    ensures
        item matches Ok(message) ==> event == Some(ChannelEvent::Msg(message)),
        item is Err ==> event is None,
        final(round).is_empty <==> old(round).is_empty && item is Err,
        final(round).disconnected <==> old(round).disconnected || item is Err,
        final(round).clear_readiness == old(round).clear_readiness,
{
}

/// Once the queue has nothing more to give, the loop is told of the end exactly if the loss of the
/// senders was found, and a round that took nothing out is known to have found nothing.
pub proof fn the_end_is_told_if_found<T>(
    round: &mut ChannelRound,
    event: Option<ChannelEvent<T>>,
)
    requires
        call_ensures(ChannelRound::finish_items::<T>, (round,), event),
    ensures
        event is Some <==> old(round).disconnected,
        event matches Some(told) ==> told is Closed,
        final(round).clear_readiness <==> old(round).clear_readiness || old(round).is_empty,
        final(round).is_empty == old(round).is_empty,
        final(round).disconnected == old(round).disconnected,
{
}

/// A closed queue is dropped and not pinged; any other does what its source asked for and is
/// looked at again exactly if it was not found empty. The error of a source is the error of its
/// queue, whatever the round found.
pub proof fn a_round_ends_by_what_it_found(
    round: ChannelRound,
    source: Result<PostAction, PingError>,
    result: Result<ChannelOutcome, ChannelError>,
)
    requires
        call_ensures(ChannelRound::process_events, (&round, source), result),
    ensures
        result is Ok <==> source is Ok,
        result matches Err(failure) ==> failure.cause() == source->Err_0.cause(),
        result matches Ok(outcome) ==> outcome.ping == (!round.disconnected
            && !round.clear_readiness),
        result matches Ok(outcome) ==> round.disconnected ==> outcome.action == PostAction::Remove,
        result matches Ok(outcome) ==> !round.disconnected ==> outcome.action == source->Ok_0,
{
}

} // verus!
