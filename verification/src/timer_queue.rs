//! The timer thread's decisions: which timer to fire, how long to wait for the next request and
//! what to hand back when no more requests can come.
//!
//! The thread itself reads the clock, fires and waits on the request channel; `TimerLoop` tells
//! it what to do next.

use crate::timer::{ScheduledTimer, TimerAfter};
use crate::timer_heap::{fires_first, TimerHeap};
use vstd::multiset::Multiset;
use vstd::prelude::*;

verus! {

/// What a timer queue stands for: the timers that wait, and the number of the next request.
pub struct TimerModel<T> {
    pub waiting: Multiset<ScheduledTimer<T>>,
    pub sequence: u64,
}

impl<T> TimerModel<T> {
    /// Nothing waits and no request has come.
    pub open spec fn empty() -> Self {
        TimerModel { waiting: Multiset::empty(), sequence: 0 }
    }

    /// The timer that a request made at `now` turns into.
    pub open spec fn timer_for(self, now: u128, request: TimerAfter<T>) -> ScheduledTimer<T> {
        ScheduledTimer {
            deadline: (now + request.duration) as u128,
            sequence: self.sequence,
            runnable: request.runnable,
        }
    }

    /// A request made at `now` has been taken in; request numbers wrap around.
    pub open spec fn scheduled(self, now: u128, request: TimerAfter<T>) -> Self {
        TimerModel {
            waiting: self.waiting.insert(self.timer_for(now, request)),
            sequence: self.sequence.wrapping_add(1),
        }
    }

    /// `timer` has been taken out to fire.
    pub open spec fn fired(self, timer: ScheduledTimer<T>) -> Self {
        TimerModel { waiting: self.waiting.remove(timer), sequence: self.sequence }
    }

    /// `timer` waits, is due at `now`, and nothing that waits fires before it.
    pub open spec fn owed(self, now: u128, timer: ScheduledTimer<T>) -> bool {
        fires_first(self.waiting, timer) && timer.deadline <= now
    }

    /// Something that waits is due at `now`.
    pub open spec fn any_due(self, now: u128) -> bool {
        exists|timer: ScheduledTimer<T>| #[trigger]
            self.waiting.contains(timer) && timer.deadline <= now
    }
}

/// The nanoseconds from `now` to `deadline`, none if the deadline has passed.
pub open spec fn time_left(deadline: u128, now: u128) -> u128 {
    if deadline > now {
        (deadline - now) as u128
    } else {
        0
    }
}

/// `wait` is how long to wait at `now` for the first of the timers that wait: until it is due, or
/// for as long as it takes if there is none.
pub open spec fn is_wait<T>(model: TimerModel<T>, now: u128, wait: Option<u128>) -> bool {
    match wait {
        Some(left) => exists|first: ScheduledTimer<T>| #[trigger]
            fires_first(model.waiting, first) && left == time_left(first.deadline, now),
        None => model.waiting == Multiset::<ScheduledTimer<T>>::empty(),
    }
}

/// What ended the timer thread's wait.
pub enum TimerEvent<T> {
    /// A request came.
    Requested(TimerAfter<T>),
    /// The wait ran out.
    TimedOut,
    /// Every sender of requests is gone.
    Disconnected,
}

/// The timers that a timer thread keeps.
pub struct TimerQueue<T> {
    timers: TimerHeap<T>,
    sequence: u64,
}

impl<T> View for TimerQueue<T> {
    type V = TimerModel<T>;

    closed spec fn view(&self) -> TimerModel<T> {
        TimerModel { waiting: self.timers@, sequence: self.sequence }
    }
}

impl<T> TimerQueue<T> {
    /// The timers are kept in firing order.
    pub closed spec fn wf(&self) -> bool {
        self.timers.wf()
    }

    /// A queue in which nothing waits.
    pub fn new() -> (queue: Self)
        ensures
            queue.wf(),
            queue@ == TimerModel::<T>::empty(),
    {
        TimerQueue { timers: TimerHeap::new(), sequence: 0 }
    }

    /// Takes out the timer that is owed at `now`; nothing, and no change, exactly when nothing
    /// is due.
    pub fn pop_due(&mut self, now: u128) -> (due: Option<ScheduledTimer<T>>)
        requires
            old(self).wf(),
        ensures
            final(self).wf(),
            due is Some == old(self)@.any_due(now),
            match due {
                Some(timer) => old(self)@.owed(now, timer) && final(self)@ == old(self)@.fired(
                    timer,
                ),
                None => final(self)@ == old(self)@,
            },
    {
        let is_due = match self.timers.peek() {
            Some(timer) => {
                assert(self@.waiting.contains(*timer));
                timer.deadline <= now
            },
            None => false,
        };
        if is_due {
            self.timers.pop()
        } else {
            None
        }
    }

    /// How long to wait at `now` for the next timer, in nanoseconds; nothing exactly when no
    /// timer waits, so that only a request can end the wait.
    pub fn next_wait(&self, now: u128) -> (wait: Option<u128>)
        requires
            self.wf(),
        ensures
            is_wait(self@, now, wait),
    {
        match self.timers.peek() {
            Some(first) => {
                let left: u128 = if first.deadline > now {
                    first.deadline - now
                } else {
                    0
                };
                assert(fires_first(self@.waiting, *first));
                Some(left)
            },
            None => None,
        }
    }

    /// Takes in a request made at `now`.
    pub fn schedule(&mut self, now: u128, request: TimerAfter<T>)
        requires
            old(self).wf(),
            now + request.duration <= u128::MAX,
        ensures
            final(self).wf(),
            final(self)@ == old(self)@.scheduled(now, request),
    {
        self.timers.push(
            ScheduledTimer {
                deadline: now + request.duration,
                sequence: self.sequence,
                runnable: request.runnable,
            },
        );
        self.sequence = self.sequence.wrapping_add(1);
    }

    /// Hands back what the timers that still wait would have run, each once, in no particular
    /// order.
    pub fn into_pending(self) -> (pending: Vec<T>)
        ensures
            exists|order: Seq<ScheduledTimer<T>>| #[trigger]
                order.to_multiset() == self@.waiting && pending@ == order.map_values(
                    |timer: ScheduledTimer<T>| timer.runnable,
                ),
    {
        let timers = self.timers.into_vec();
        let ghost order = timers@;
        let mut pending: Vec<T> = Vec::new();
        for timer in iter: timers
            invariant
                iter.seq() == order,
                pending@ == order.take(iter.index()).map_values(
                    |timer: ScheduledTimer<T>| timer.runnable,
                ),
        {
            proof {
                assert(order.take(iter.index() + 1) =~= order.take(iter.index()).push(timer));
            }
            pending.push(timer.runnable);
            assert(pending@ =~= order.take(iter.index() + 1).map_values(
                |timer: ScheduledTimer<T>| timer.runnable,
            ));
        }
        assert(order.take(order.len() as int) =~= order);
        assert(order.to_multiset() == self@.waiting);
        pending
    }
}

/// What the timer thread has come to.
pub enum TimerInput<T> {
    /// It begins a pass at `now`.
    Pass { now: u128 },
    /// It has fired the timer that it was given.
    Fired,
    /// It has fired all that was due; it is `now`.
    Rested { now: u128 },
    /// Its wait was ended at `now` by `event`.
    Ended { now: u128, event: TimerEvent<T> },
}

/// What the timer thread does next.
pub enum TimerStep<T> {
    /// Fire the timer.
    Fire(ScheduledTimer<T>),
    /// Nothing more is due: read the clock again.
    Rest,
    /// Wait for a request, for that many nanoseconds or for as long as it takes.
    Wait(Option<u128>),
    /// Begin another pass.
    Pass,
    /// Stop, and hand back what still waits.
    Stop,
}

/// What a timer thread stands for: its timers, and when its latest pass began.
pub struct ThreadModel<T> {
    pub timers: TimerModel<T>,
    pub began: u128,
}

/// The thread, in a pass that began at `began`, fires the timer that is owed, or rests if none is.
pub open spec fn fires_or_rests<T>(
    before: TimerModel<T>,
    began: u128,
    step: TimerStep<T>,
    after: TimerModel<T>,
) -> bool {
    match step {
        TimerStep::Fire(timer) => before.owed(began, timer) && after == before.fired(timer),
        TimerStep::Rest => !before.any_due(began) && after == before,
        _ => false,
    }
}

/// The thread, told `input`, does `step` and becomes `after`. As long as a timer that was due when
/// the pass began waits, the first such timer is fired; then the thread waits until the next one
/// is due. A request is taken in and begins another pass, as does a wait that ran out; a lost
/// channel stops the thread.
pub open spec fn thread_step<T>(
    before: ThreadModel<T>,
    input: TimerInput<T>,
    step: TimerStep<T>,
    after: ThreadModel<T>,
) -> bool {
    match input {
        TimerInput::Pass { now } => {
            &&& after.began == now
            &&& fires_or_rests(before.timers, now, step, after.timers)
        },
        TimerInput::Fired => {
            &&& after.began == before.began
            &&& fires_or_rests(before.timers, before.began, step, after.timers)
        },
        TimerInput::Rested { now } => {
            &&& step matches TimerStep::Wait(wait) && is_wait(before.timers, now, wait)
            &&& after == before
        },
        TimerInput::Ended { now, event: TimerEvent::Requested(request) } => {
            &&& step is Pass
            &&& after.began == before.began
            &&& after.timers == before.timers.scheduled(now, request)
        },
        TimerInput::Ended { now, event: TimerEvent::TimedOut } => step is Pass && after == before,
        TimerInput::Ended { now, event: TimerEvent::Disconnected } => step is Stop && after
            == before,
    }
}

/// Whether a deadline can be given to the request in `input`, if there is one.
pub open spec fn has_deadline<T>(input: TimerInput<T>) -> bool {
    input matches TimerInput::Ended { now, event: TimerEvent::Requested(request) } ==> now
        + request.duration <= u128::MAX
}

/// The timer thread: in each pass it fires what was due when the pass began, then waits for a
/// request until the next timer is due.
pub struct TimerLoop<T> {
    queue: TimerQueue<T>,
    now: u128,
}

impl<T> View for TimerLoop<T> {
    type V = ThreadModel<T>;

    closed spec fn view(&self) -> ThreadModel<T> {
        ThreadModel { timers: self.queue@, began: self.now }
    }
}

impl<T> TimerLoop<T> {
    /// The timers are kept in firing order.
    pub closed spec fn wf(&self) -> bool {
        self.queue.wf()
    }

    /// A thread that has not begun a pass and for which nothing waits.
    pub fn new() -> (thread: Self)
        ensures
            thread.wf(),
            thread@ == (ThreadModel { timers: TimerModel::<T>::empty(), began: 0 }),
    {
        TimerLoop { queue: TimerQueue::new(), now: 0 }
    }

    /// Takes out the next timer that was due when the pass began.
    fn fire_or_rest(&mut self) -> (step: TimerStep<T>)
        requires
            old(self).wf(),
        ensures
            final(self).wf(),
            final(self)@.began == old(self)@.began,
            fires_or_rests(old(self)@.timers, old(self)@.began, step, final(self)@.timers),
    {
        match self.queue.pop_due(self.now) {
            Some(timer) => TimerStep::Fire(timer),
            None => TimerStep::Rest,
        }
    }

    /// Decides what the thread does next.
    pub fn run_illumos_timer_queue(&mut self, input: TimerInput<T>) -> (step: TimerStep<T>)
        requires
            old(self).wf(),
            has_deadline(input),
        ensures
            final(self).wf(),
            thread_step(old(self)@, input, step, final(self)@),
    {
        match input {
            TimerInput::Pass { now } => {
                self.now = now;
                self.fire_or_rest()
            },
            TimerInput::Fired => self.fire_or_rest(),
            TimerInput::Rested { now } => TimerStep::Wait(self.queue.next_wait(now)),
            TimerInput::Ended { now, event } => match event {
                TimerEvent::Requested(request) => {
                    self.queue.schedule(now, request);
                    TimerStep::Pass
                },
                TimerEvent::TimedOut => TimerStep::Pass,
                TimerEvent::Disconnected => TimerStep::Stop,
            },
        }
    }

    /// Hands back what the timers that still wait would have run, each once, in no particular
    /// order.
    pub fn into_pending(self) -> (pending: Vec<T>)
        ensures
            exists|order: Seq<ScheduledTimer<T>>| #[trigger]
                order.to_multiset() == self@.timers.waiting && pending@ == order.map_values(
                    |timer: ScheduledTimer<T>| timer.runnable,
                ),
    {
        self.queue.into_pending()
    }
}

} // verus!
