use illumos_events::timer::{ScheduledTimer, TimerAfter};
use illumos_events::timer_heap::TimerHeap;
use illumos_events::timer_queue::{TimerEvent, TimerInput, TimerLoop, TimerQueue, TimerStep};
use std::cmp::Ordering;
use std::sync::mpsc;
use std::time::{Duration, Instant};

fn millis(count: u64) -> u128 {
    Duration::from_millis(count).as_nanos()
}

/// A timer thread on the real clock, run until something has fired.
struct TimerThread<T> {
    base: Instant,
    timers: TimerLoop<T>,
    requests: mpsc::Receiver<TimerAfter<T>>,
    step: TimerStep<T>,
}

impl<T> TimerThread<T> {
    fn new(requests: mpsc::Receiver<TimerAfter<T>>) -> Self {
        TimerThread {
            base: Instant::now(),
            timers: TimerLoop::new(),
            requests,
            step: TimerStep::Pass,
        }
    }

    fn now(&self) -> u128 {
        Instant::now().saturating_duration_since(self.base).as_nanos()
    }

    fn wait(&self, wait: Option<u128>) -> TimerEvent<T> {
        match wait {
            Some(left) => match self.requests.recv_timeout(Duration::from_nanos(left as u64)) {
                Ok(request) => TimerEvent::Requested(request),
                Err(mpsc::RecvTimeoutError::Timeout) => TimerEvent::TimedOut,
                Err(mpsc::RecvTimeoutError::Disconnected) => TimerEvent::Disconnected,
            },
            None => match self.requests.recv() {
                Ok(request) => TimerEvent::Requested(request),
                Err(_) => TimerEvent::Disconnected,
            },
        }
    }

    /// What fires next, within `limit`; nothing if the thread stops.
    fn next_fired(&mut self, limit: Duration) -> Option<T> {
        let start = Instant::now();
        loop {
            assert!(start.elapsed() <= limit, "nothing fired in time");
            let step = std::mem::replace(&mut self.step, TimerStep::Pass);
            let (input, fired) = match step {
                TimerStep::Fire(timer) => (TimerInput::Fired, Some(timer.runnable)),
                TimerStep::Rest => (TimerInput::Rested { now: self.now() }, None),
                TimerStep::Wait(wait) => {
                    let event = self.wait(wait);
                    (
                        TimerInput::Ended {
                            now: self.now(),
                            event,
                        },
                        None,
                    )
                }
                TimerStep::Pass => (TimerInput::Pass { now: self.now() }, None),
                TimerStep::Stop => return None,
            };
            self.step = self.timers.run_illumos_timer_queue(input);
            if fired.is_some() {
                return fired;
            }
        }
    }
}

#[test]
fn illumos_timer_queue_survives_burst_and_idle() {
    let (timer_tx, timer_rx) = mpsc::channel();
    let mut timer_thread = TimerThread::new(timer_rx);

    const TIMER_COUNT: usize = 512;
    for value in 0..TIMER_COUNT {
        timer_tx
            .send(TimerAfter {
                duration: millis((value % 4) as u64),
                runnable: value,
            })
            .unwrap();
    }

    let mut seen = vec![false; TIMER_COUNT];
    for _ in 0..TIMER_COUNT {
        let value = timer_thread.next_fired(Duration::from_secs(5)).unwrap();
        assert!(!seen[value], "timer {value} fired twice");
        seen[value] = true;
    }
    assert!(seen.into_iter().all(|fired| fired));

    let (_idle_tx, idle_rx) = mpsc::channel::<()>();
    assert!(idle_rx.recv_timeout(Duration::from_millis(50)).is_err());
    timer_tx
        .send(TimerAfter {
            duration: millis(10),
            runnable: usize::MAX,
        })
        .unwrap();
    assert_eq!(
        timer_thread.next_fired(Duration::from_secs(1)).unwrap(),
        usize::MAX
    );

    drop(timer_tx);
    assert!(timer_thread.next_fired(Duration::from_secs(5)).is_none());
    assert!(timer_thread.timers.into_pending().is_empty());
}

fn timer(deadline: u128, sequence: u64) -> ScheduledTimer<&'static str> {
    ScheduledTimer {
        deadline,
        sequence,
        runnable: "work",
    }
}

#[test]
fn the_timer_that_fires_first_is_the_greater() {
    assert_eq!(timer(1, 5).cmp(&timer(2, 0)), Ordering::Greater);
    assert_eq!(timer(2, 0).cmp(&timer(1, 5)), Ordering::Less);
    assert_eq!(timer(3, 1).cmp(&timer(3, 2)), Ordering::Greater);
    assert_eq!(timer(3, 2).cmp(&timer(3, 1)), Ordering::Less);
    assert_eq!(timer(3, 2).cmp(&timer(3, 2)), Ordering::Equal);
    assert_eq!(timer(3, 2).partial_cmp(&timer(3, 1)), Some(Ordering::Less));
    assert!(timer(3, 1) > timer(3, 2));
}

#[test]
fn equal_timers_have_the_same_deadline_and_number() {
    let other = ScheduledTimer {
        deadline: 4,
        sequence: 9,
        runnable: "other work",
    };
    assert!(timer(4, 9) == other);
    assert!(timer(4, 9) != timer(4, 8));
    assert!(timer(4, 9) != timer(5, 9));
}

#[test]
fn a_heap_gives_its_timers_in_firing_order() {
    let mut heap = TimerHeap::new();
    assert!(heap.peek().is_none());
    assert!(heap.pop().is_none());
    for (sequence, deadline) in [7u128, 3, 9, 3, 1, 8, 1, 0, 5, 3].iter().enumerate() {
        heap.push(timer(*deadline, sequence as u64));
    }
    assert_eq!(heap.peek().unwrap().deadline, 0);
    let mut order = Vec::new();
    while let Some(first) = heap.pop() {
        order.push((first.deadline, first.sequence));
    }
    assert_eq!(
        order,
        vec![
            (0, 7),
            (1, 4),
            (1, 6),
            (3, 1),
            (3, 3),
            (3, 9),
            (5, 8),
            (7, 0),
            (8, 5),
            (9, 2)
        ]
    );
}

#[test]
fn a_heap_hands_back_what_is_left() {
    let mut heap = TimerHeap::new();
    for sequence in 0..20u64 {
        heap.push(timer(((sequence * 7) % 11) as u128, sequence));
    }
    heap.pop();
    let mut left: Vec<u64> = heap
        .into_vec()
        .into_iter()
        .map(|timer| timer.sequence)
        .collect();
    left.sort();
    assert_eq!(left, (1..20).collect::<Vec<u64>>());
}

#[test]
fn no_timer_fires_early() {
    let mut queue = TimerQueue::new();
    queue.schedule(
        100,
        TimerAfter {
            duration: 50,
            runnable: 'a',
        },
    );
    assert!(queue.pop_due(149).is_none());
    let fired = queue.pop_due(150).unwrap();
    assert_eq!((fired.deadline, fired.sequence, fired.runnable), (150, 0, 'a'));
    assert!(queue.pop_due(1_000).is_none());
}

#[test]
fn a_wait_lasts_until_the_first_deadline() {
    let mut queue = TimerQueue::new();
    assert_eq!(queue.next_wait(5), None);
    for (now, duration) in [(0u128, 40u128), (10, 20), (20, 30)] {
        queue.schedule(
            now,
            TimerAfter {
                duration,
                runnable: (),
            },
        );
    }
    assert_eq!(queue.next_wait(20), Some(10));
    assert_eq!(queue.next_wait(30), Some(0));
    assert_eq!(queue.next_wait(31), Some(0));
}

#[test]
fn equal_deadlines_fire_in_the_order_of_the_requests() {
    let mut queue = TimerQueue::new();
    for runnable in ['x', 'y', 'z'] {
        queue.schedule(
            7,
            TimerAfter {
                duration: 3,
                runnable,
            },
        );
    }
    let mut order = Vec::new();
    while let Some(timer) = queue.pop_due(10) {
        order.push(timer.runnable);
    }
    assert_eq!(order, vec!['x', 'y', 'z']);
}

fn ended(now: u128, event: TimerEvent<&'static str>) -> TimerInput<&'static str> {
    TimerInput::Ended { now, event }
}

fn request(duration: u128, runnable: &'static str) -> TimerEvent<&'static str> {
    TimerEvent::Requested(TimerAfter { duration, runnable })
}

#[test]
fn a_lost_channel_hands_back_what_waits() {
    let mut timers = TimerLoop::new();
    for (duration, runnable) in [(30, "late"), (10, "early"), (20, "middle")] {
        assert!(matches!(
            timers.run_illumos_timer_queue(ended(0, request(duration, runnable))),
            TimerStep::Pass
        ));
    }
    assert!(matches!(
        timers.run_illumos_timer_queue(ended(10, TimerEvent::TimedOut)),
        TimerStep::Pass
    ));
    assert!(matches!(
        timers.run_illumos_timer_queue(TimerInput::Pass { now: 10 }),
        TimerStep::Fire(ScheduledTimer {
            runnable: "early",
            ..
        })
    ));
    assert!(matches!(
        timers.run_illumos_timer_queue(ended(11, TimerEvent::Disconnected)),
        TimerStep::Stop
    ));
    let mut pending = timers.into_pending();
    pending.sort();
    assert_eq!(pending, vec!["late", "middle"]);
}

#[test]
fn a_pass_fires_only_what_was_due_when_it_began() {
    let mut timers = TimerLoop::new();
    assert!(matches!(
        timers.run_illumos_timer_queue(TimerInput::Pass { now: 0 }),
        TimerStep::Rest
    ));
    assert!(matches!(
        timers.run_illumos_timer_queue(TimerInput::Rested { now: 0 }),
        TimerStep::Wait(None)
    ));
    timers.run_illumos_timer_queue(ended(0, request(10, "first")));
    timers.run_illumos_timer_queue(ended(0, request(20, "second")));
    assert!(matches!(
        timers.run_illumos_timer_queue(TimerInput::Pass { now: 5 }),
        TimerStep::Rest
    ));
    assert!(matches!(
        timers.run_illumos_timer_queue(TimerInput::Rested { now: 6 }),
        TimerStep::Wait(Some(4))
    ));
    assert!(matches!(
        timers.run_illumos_timer_queue(TimerInput::Pass { now: 12 }),
        TimerStep::Fire(ScheduledTimer {
            runnable: "first",
            ..
        })
    ));
    assert!(matches!(
        timers.run_illumos_timer_queue(TimerInput::Fired),
        TimerStep::Rest
    ));
    assert!(matches!(
        timers.run_illumos_timer_queue(TimerInput::Rested { now: 25 }),
        TimerStep::Wait(Some(0))
    ));
    assert!(matches!(
        timers.run_illumos_timer_queue(TimerInput::Pass { now: 25 }),
        TimerStep::Fire(ScheduledTimer {
            runnable: "second",
            ..
        })
    ));
}

/// The timers that a pass which begins at `now` fires, in order.
fn pass(
    timers: &mut TimerLoop<&'static str>,
    now: u128,
    fired: &mut Vec<(u128, u64, &'static str)>,
) {
    let mut step = timers.run_illumos_timer_queue(TimerInput::Pass { now });
    while let TimerStep::Fire(timer) = step {
        fired.push((timer.deadline, timer.sequence, timer.runnable));
        step = timers.run_illumos_timer_queue(TimerInput::Fired);
    }
    assert!(matches!(step, TimerStep::Rest));
}

#[test]
fn firings_keep_their_order_over_several_passes() {
    let mut timers = TimerLoop::new();
    let mut fired = Vec::new();
    timers.run_illumos_timer_queue(ended(0, request(30, "a")));
    timers.run_illumos_timer_queue(ended(5, request(5, "b")));
    pass(&mut timers, 12, &mut fired);
    assert_eq!(fired, vec![(10, 1, "b")]);
    timers.run_illumos_timer_queue(ended(12, request(18, "c")));
    timers.run_illumos_timer_queue(ended(13, request(0, "d")));
    timers.run_illumos_timer_queue(ended(20, request(10, "e")));
    pass(&mut timers, 29, &mut fired);
    timers.run_illumos_timer_queue(ended(29, request(2, "f")));
    pass(&mut timers, 31, &mut fired);
    assert_eq!(
        fired,
        vec![
            (10, 1, "b"),
            (13, 3, "d"),
            (30, 0, "a"),
            (30, 2, "c"),
            (30, 4, "e"),
            (31, 5, "f"),
        ]
    );
    assert!(timers.into_pending().is_empty());
}

#[test]
fn a_later_request_for_no_shorter_a_time_does_not_overtake() {
    let mut timers = TimerLoop::new();
    let mut fired = Vec::new();
    timers.run_illumos_timer_queue(ended(0, request(10, "earlier")));
    timers.run_illumos_timer_queue(ended(0, request(10, "as long")));
    timers.run_illumos_timer_queue(ended(1, request(15, "longer")));
    timers.run_illumos_timer_queue(ended(1, request(90, "last")));
    pass(&mut timers, 16, &mut fired);
    let order: Vec<&str> = fired.iter().map(|timer| timer.2).collect();
    assert_eq!(order, vec!["earlier", "as long", "longer"]);
    assert!(matches!(
        timers.run_illumos_timer_queue(ended(17, TimerEvent::Disconnected)),
        TimerStep::Stop
    ));
    assert_eq!(timers.into_pending(), vec!["last"]);
}
