use calloop::channel::Event;
use calloop::ping;
use illumos_events::channel::{send, ChannelError, ChannelEvent, ChannelRound};
use illumos_events::fault::{IoErrorKind, OsError};
use illumos_events::ping::{DrainStep, PingDrain, PingError, PostAction};
use std::cell::RefCell;
use std::io;
use std::rc::Rc;
use std::sync::mpsc;

fn failed(kind: io::ErrorKind) -> OsError {
    OsError::new(io::Error::from(kind))
}

fn from_calloop(action: calloop::PostAction) -> PostAction {
    match action {
        calloop::PostAction::Continue => PostAction::Continue,
        calloop::PostAction::Reregister => PostAction::Reregister,
        calloop::PostAction::Disable => PostAction::Disable,
        calloop::PostAction::Remove => PostAction::Remove,
    }
}

fn to_calloop(action: PostAction) -> calloop::PostAction {
    match action {
        PostAction::Continue => calloop::PostAction::Continue,
        PostAction::Reregister => calloop::PostAction::Reregister,
        PostAction::Disable => calloop::PostAction::Disable,
        PostAction::Remove => calloop::PostAction::Remove,
    }
}

struct LoopSender<T> {
    sender: mpsc::Sender<T>,
    ping: ping::Ping,
}

impl<T> LoopSender<T> {
    fn send(&self, item: T) -> Result<(), mpsc::SendError<T>> {
        let sent = self.sender.send(item);
        if send(&sent) {
            self.ping.ping();
        }
        sent
    }
}

impl<T> Drop for LoopSender<T> {
    fn drop(&mut self) {
        self.ping.ping();
    }
}

struct LoopReceiver<T> {
    receiver: mpsc::Receiver<T>,
    source: ping::PingSource,
    ping: ping::Ping,
}

impl<T> LoopReceiver<T> {
    fn new() -> (LoopSender<T>, Self) {
        let (ping, source) = ping::make_ping().unwrap();
        let (sender, receiver) = mpsc::channel();
        (
            LoopSender {
                sender,
                ping: ping.clone(),
            },
            LoopReceiver {
                receiver,
                source,
                ping,
            },
        )
    }
}

impl<T> calloop::EventSource for LoopReceiver<T> {
    type Event = Event<T>;
    type Metadata = ();
    type Ret = ();
    type Error = io::Error;

    fn process_events<F>(
        &mut self,
        readiness: calloop::Readiness,
        token: calloop::Token,
        mut callback: F,
    ) -> Result<calloop::PostAction, Self::Error>
    where
        F: FnMut(Event<T>, &mut ()),
    {
        let mut round = ChannelRound::new();
        let receiver = &self.receiver;
        let mut tell = |event: Option<ChannelEvent<T>>| match event {
            Some(ChannelEvent::Msg(message)) => callback(Event::Msg(message), &mut ()),
            Some(ChannelEvent::Closed) => callback(Event::Closed, &mut ()),
            None => {}
        };
        let source = self
            .source
            .process_events(readiness, token, |(), &mut ()| {
                loop {
                    match receiver.try_recv() {
                        Ok(item) => tell(round.process_item(Ok::<T, ()>(item))),
                        Err(mpsc::TryRecvError::Empty) => break,
                        Err(mpsc::TryRecvError::Disconnected) => {
                            tell(round.process_item(Err::<T, ()>(())));
                            break;
                        }
                    }
                }
                tell(round.finish_items());
            });
        let source = source
            .map(from_calloop)
            .map_err(|error| PingError::new(io::Error::new(io::ErrorKind::Other, error)));
        let outcome = round
            .process_events(source)
            .map_err(|error| error.into_source().into_source())?;
        if outcome.ping {
            self.ping.ping();
        }
        Ok(to_calloop(outcome.action))
    }

    fn register(
        &mut self,
        poll: &mut calloop::Poll,
        token_factory: &mut calloop::TokenFactory,
    ) -> calloop::Result<()> {
        self.source.register(poll, token_factory)
    }

    fn reregister(
        &mut self,
        poll: &mut calloop::Poll,
        token_factory: &mut calloop::TokenFactory,
    ) -> calloop::Result<()> {
        self.source.reregister(poll, token_factory)
    }

    fn unregister(&mut self, poll: &mut calloop::Poll) -> calloop::Result<()> {
        self.source.unregister(poll)
    }
}

struct Data {
    got_msg: bool,
    got_closed: bool,
}

#[test]
fn calloop_works() {
    let mut event_loop = calloop::EventLoop::try_new().unwrap();
    let handle = event_loop.handle();

    let (tx, rx) = LoopReceiver::new();

    let mut data = Data {
        got_msg: false,
        got_closed: false,
    };

    let _channel_token = handle
        .insert_source(rx, move |evt, &mut (), data: &mut Data| match evt {
            Event::Msg(()) => {
                data.got_msg = true;
            }

            Event::Closed => {
                data.got_closed = true;
            }
        })
        .unwrap();

    // nothing is sent, nothing is received
    event_loop
        .dispatch(Some(::std::time::Duration::ZERO), &mut data)
        .unwrap();

    assert!(!data.got_msg);
    assert!(!data.got_closed);
    // a message is send

    tx.send(()).unwrap();
    event_loop
        .dispatch(Some(::std::time::Duration::ZERO), &mut data)
        .unwrap();

    assert!(data.got_msg);
    assert!(!data.got_closed);

    // the sender is dropped
    drop(tx);
    event_loop
        .dispatch(Some(::std::time::Duration::ZERO), &mut data)
        .unwrap();

    assert!(data.got_msg);
    assert!(data.got_closed);
}

#[test]
fn messages_come_in_order_and_once() {
    let mut event_loop = calloop::EventLoop::try_new().unwrap();
    let (tx, rx) = LoopReceiver::new();
    let seen = Rc::new(RefCell::new(Vec::new()));
    let sink = seen.clone();
    event_loop
        .handle()
        .insert_source(rx, move |event, &mut (), _: &mut ()| {
            if let Event::Msg(number) = event {
                sink.borrow_mut().push(number);
            }
        })
        .unwrap();
    for number in 0..100 {
        tx.send(number).unwrap();
    }
    for _ in 0..3 {
        event_loop
            .dispatch(Some(::std::time::Duration::ZERO), &mut ())
            .unwrap();
    }
    assert_eq!(*seen.borrow(), (0..100).collect::<Vec<i32>>());
}

#[test]
fn a_send_pings_only_if_the_queue_took_it() {
    assert!(send(&Ok::<(), ()>(())));
    assert!(!send(&Err::<(), ()>(())));
}

#[test]
fn a_round_with_messages_looks_again() {
    let mut round = ChannelRound::new();
    assert!(matches!(
        round.process_item(Ok::<u8, ()>(7)),
        Some(ChannelEvent::Msg(7))
    ));
    assert!(round.finish_items::<u8>().is_none());
    let outcome = round.process_events(Ok(PostAction::Continue)).unwrap();
    assert_eq!(outcome.action, PostAction::Continue);
    assert!(outcome.ping);
}

#[test]
fn a_round_without_messages_rests() {
    let mut round = ChannelRound::new();
    assert!(round.finish_items::<u8>().is_none());
    let outcome = round.process_events(Ok(PostAction::Reregister)).unwrap();
    assert_eq!(outcome.action, PostAction::Reregister);
    assert!(!outcome.ping);
}

#[test]
fn a_closed_queue_is_dropped_after_its_last_message() {
    let mut round = ChannelRound::new();
    assert!(matches!(
        round.process_item(Ok::<u8, ()>(7)),
        Some(ChannelEvent::Msg(7))
    ));
    assert!(round.process_item(Err::<u8, ()>(())).is_none());
    assert!(matches!(
        round.finish_items::<u8>(),
        Some(ChannelEvent::Closed)
    ));
    let outcome = round.process_events(Ok(PostAction::Continue)).unwrap();
    assert_eq!(outcome.action, PostAction::Remove);
    assert!(!outcome.ping);
}

#[test]
fn a_wake_up_that_did_not_call_back_is_repeated() {
    let outcome = ChannelRound::new()
        .process_events(Ok(PostAction::Disable))
        .unwrap();
    assert_eq!(outcome.action, PostAction::Disable);
    assert!(outcome.ping);
}

#[test]
fn a_full_socket_is_no_reason_to_complain() {
    assert!(illumos_events::ping::ping(Ok(1)).is_none());
    assert!(illumos_events::ping::ping(Err(failed(io::ErrorKind::WouldBlock))).is_none());
    let unexpected = illumos_events::ping::ping(Err(failed(io::ErrorKind::BrokenPipe))).unwrap();
    assert_eq!(unexpected.error.kind(), io::ErrorKind::BrokenPipe);
    assert_eq!(unexpected.kind, IoErrorKind::Other);
}

#[test]
fn many_pings_are_answered_once() {
    let mut drain = PingDrain::new();
    for count in [64, 64, 3] {
        assert!(matches!(
            drain.process_events(Ok(count)),
            DrainStep::Read
        ));
    }
    assert!(matches!(
        drain.process_events(Err(failed(io::ErrorKind::WouldBlock))),
        DrainStep::Finish {
            notify: true,
            action: PostAction::Reregister
        }
    ));
}

#[test]
fn an_empty_socket_calls_nobody() {
    let mut drain = PingDrain::new();
    assert!(matches!(
        drain.process_events(Err(failed(io::ErrorKind::WouldBlock))),
        DrainStep::Finish {
            notify: false,
            action: PostAction::Reregister
        }
    ));
}

#[test]
fn a_closed_socket_is_dropped_without_a_call() {
    let mut drain = PingDrain::new();
    assert!(matches!(drain.process_events(Ok(5)), DrainStep::Read));
    assert!(matches!(
        drain.process_events(Ok(0)),
        DrainStep::Finish {
            notify: false,
            action: PostAction::Remove
        }
    ));
}

#[test]
fn a_broken_socket_is_an_error() {
    let mut drain = PingDrain::new();
    match drain.process_events(Err(OsError::new(io::Error::from(
        io::ErrorKind::ConnectionReset,
    )))) {
        DrainStep::Fail(error) => {
            let text = io::Error::from(io::ErrorKind::ConnectionReset).to_string();
            assert_eq!(error.message(), text);
            let error = ChannelError::new(error);
            assert_eq!(error.message(), text);
            assert_eq!(error.source().source().kind(), io::ErrorKind::ConnectionReset);
        }
        _ => panic!("the drain went on"),
    }
    let error = PingError::new(io::Error::from(io::ErrorKind::TimedOut));
    assert_eq!(error.into_source().kind(), io::ErrorKind::TimedOut);
}

#[test]
fn the_kinds_that_matter_are_told_apart() {
    assert_eq!(failed(io::ErrorKind::Interrupted).kind, IoErrorKind::Interrupted);
    assert_eq!(failed(io::ErrorKind::NotFound).kind, IoErrorKind::NotFound);
    assert_eq!(failed(io::ErrorKind::WouldBlock).kind, IoErrorKind::WouldBlock);
    assert_eq!(failed(io::ErrorKind::PermissionDenied).kind, IoErrorKind::Other);
    assert_eq!(failed(io::ErrorKind::PermissionDenied).code, None);
    let error = OsError::new(io::Error::from_raw_os_error(libc::ENOENT));
    assert_eq!(error.code, Some(libc::ENOENT));
    assert_eq!(error.kind, IoErrorKind::NotFound);
    assert_eq!(error.error.raw_os_error(), Some(libc::ENOENT));
}

#[test]
fn the_error_of_a_source_is_the_error_of_its_queue() {
    let mut read = ChannelRound::new();
    read.process_item(Ok::<u8, ()>(1));
    read.finish_items::<u8>();
    let mut closed = ChannelRound::new();
    closed.process_item(Err::<u8, ()>(()));
    closed.finish_items::<u8>();
    for round in [ChannelRound::new(), read, closed] {
        let failed = PingError::new(io::Error::from(io::ErrorKind::ConnectionReset));
        let error = round.process_events(Err(failed)).unwrap_err();
        let text = io::Error::from(io::ErrorKind::ConnectionReset).to_string();
        assert_eq!(error.message(), text);
        assert!(format!("{error:?}").starts_with("ChannelError(PingError("));
        assert_eq!(
            error.into_source().into_source().kind(),
            io::ErrorKind::ConnectionReset
        );
    }
}
