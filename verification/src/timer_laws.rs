//! What holds of a timer queue over a whole run of requests and firings.

use crate::timer::{ScheduledTimer, TimerAfter};
use crate::timer_heap::fires_first;
use crate::timer_queue::{
    fires_or_rests, has_deadline, is_wait, thread_step, time_left, ThreadModel, TimerEvent,
    TimerInput, TimerLoop, TimerModel, TimerQueue, TimerStep,
};
use vstd::multiset::Multiset;
use vstd::prelude::*;

verus! {

/// One change of a timer queue.
pub enum TimerMove<T> {
    /// A request is taken in at `now`.
    Request { now: u128, request: TimerAfter<T> },
    /// `timer` is taken out at `now` to fire.
    Fire { now: u128, timer: ScheduledTimer<T> },
    /// Nothing changes at `now`.
    Idle { now: u128 },
}

/// `after` is what `step` makes of `before`.
pub open spec fn follows<T>(
    before: TimerModel<T>,
    step: TimerMove<T>,
    after: TimerModel<T>,
) -> bool {
    match step {
        TimerMove::Request { now, request } => now + request.duration <= u128::MAX && after
            == before.scheduled(now, request),
        TimerMove::Fire { now, timer } => before.owed(now, timer) && after == before.fired(timer),
        TimerMove::Idle { .. } => after == before,
    }
}

/// `states` are what a new queue goes through as `steps` are made.
pub open spec fn is_run<T>(states: Seq<TimerModel<T>>, steps: Seq<TimerMove<T>>) -> bool {
    &&& states.len() == steps.len() + 1
    &&& states[0] == TimerModel::<T>::empty()
    &&& forall|i: int|
        0 <= i < steps.len() ==> #[trigger] follows(states[i], steps[i], states[i + 1])
}

/// The timers that the first `count` steps of a run asked for, in the order of the requests.
pub open spec fn requested<T>(
    states: Seq<TimerModel<T>>,
    steps: Seq<TimerMove<T>>,
    count: nat,
) -> Seq<ScheduledTimer<T>>
    decreases count,
{
    if count == 0 {
        Seq::empty()
    } else {
        let earlier = requested(states, steps, (count - 1) as nat);
        match steps[count - 1] {
            TimerMove::Request { now, request } => earlier.push(
                states[count - 1].timer_for(now, request),
            ),
            _ => earlier,
        }
    }
}

/// The timers that the first `count` steps fired, in the order of firing.
pub open spec fn fired<T>(steps: Seq<TimerMove<T>>, count: nat) -> Seq<ScheduledTimer<T>>
    decreases count,
{
    if count == 0 {
        Seq::empty()
    } else {
        let earlier = fired(steps, (count - 1) as nat);
        match steps[count - 1] {
            TimerMove::Fire { now, timer } => earlier.push(timer),
            _ => earlier,
        }
    }
}

/// Every timer that was asked for has fired or waits, as often as it was asked for, and nothing
/// else has fired or waits.
pub proof fn every_request_fires_or_waits<T>(
    states: Seq<TimerModel<T>>,
    steps: Seq<TimerMove<T>>,
    count: nat,
)
    requires
        is_run(states, steps),
        count <= steps.len(),
    ensures
        states[count as int].waiting.add(fired(steps, count).to_multiset()) == requested(
            states,
            steps,
            count,
        ).to_multiset(),
    decreases count,
{
    broadcast use vstd::seq_lib::group_to_multiset_ensures;

    if count == 0 {
        assert(Seq::<ScheduledTimer<T>>::empty().to_multiset() =~= Multiset::empty());
        assert(states[0].waiting.add(fired(steps, count).to_multiset()) =~= requested(
            states,
            steps,
            count,
        ).to_multiset());
    } else {
        let earlier = (count - 1) as nat;
        every_request_fires_or_waits(states, steps, earlier);
        assert(follows(states[count - 1], steps[count - 1], states[count - 1 + 1]));
        assert(states[count as int].waiting.add(fired(steps, count).to_multiset()) =~= requested(
            states,
            steps,
            count,
        ).to_multiset());
    }
}

/// Until request numbers wrap around, the timer of the n-th request has the number n.
pub proof fn requests_are_numbered_in_order<T>(
    states: Seq<TimerModel<T>>,
    steps: Seq<TimerMove<T>>,
    count: nat,
)
    requires
        is_run(states, steps),
        count <= steps.len(),
        requested(states, steps, count).len() <= u64::MAX + 1,
    ensures
        forall|i: int|
            0 <= i < requested(states, steps, count).len() ==> (#[trigger] requested(
                states,
                steps,
                count,
            )[i]).sequence == i,
        requested(states, steps, count).len() <= u64::MAX ==> states[count as int].sequence
            == requested(states, steps, count).len(),
    decreases count,
{
    if count > 0 {
        let earlier = (count - 1) as nat;
        requests_are_numbered_in_order(states, steps, earlier);
        assert(follows(states[count - 1], steps[count - 1], states[count - 1 + 1]));
    }
}

/// Until request numbers wrap around, of two requests the earlier one fires before the later
/// one unless its deadline is later.
pub proof fn equal_deadlines_fire_in_request_order<T>(
    states: Seq<TimerModel<T>>,
    steps: Seq<TimerMove<T>>,
    i: int,
    j: int,
)
    requires
        is_run(states, steps),
        requested(states, steps, steps.len()).len() <= u64::MAX + 1,
        0 <= i < j < requested(states, steps, steps.len()).len(),
        requested(states, steps, steps.len())[i].deadline <= requested(
            states,
            steps,
            steps.len(),
        )[j].deadline,
    ensures
        requested(states, steps, steps.len())[i].fires_before(
            &requested(states, steps, steps.len())[j],
        ),
{
    requests_are_numbered_in_order(states, steps, steps.len());
}

/// Until request numbers wrap around, no timer fires twice, and none that has fired still waits.
pub proof fn no_timer_fires_twice<T>(states: Seq<TimerModel<T>>, steps: Seq<TimerMove<T>>)
    requires
        is_run(states, steps),
        requested(states, steps, steps.len()).len() <= u64::MAX + 1,
    ensures
        fired(steps, steps.len()).no_duplicates(),
        forall|i: int|
            0 <= i < fired(steps, steps.len()).len() ==> !states.last().waiting.contains(
                #[trigger] fired(steps, steps.len())[i],
            ),
{
    broadcast use vstd::seq_lib::group_to_multiset_ensures;

    let asked = requested(states, steps, steps.len());
    let done = fired(steps, steps.len());
    requests_are_numbered_in_order(states, steps, steps.len());
    every_request_fires_or_waits(states, steps, steps.len());
    assert(asked.no_duplicates());
    asked.lemma_multiset_has_no_duplicates();
    assert(forall|timer: ScheduledTimer<T>| #[trigger] asked.to_multiset().count(timer) <= 1);
    assert forall|timer: ScheduledTimer<T>| #[trigger]
        done.to_multiset().contains(timer) implies done.to_multiset().count(timer) == 1 by {
        assert(asked.to_multiset().count(timer) <= 1);
    }
    done.lemma_multiset_has_no_duplicates_conv();
    assert forall|i: int| 0 <= i < done.len() implies !states.last().waiting.contains(
        #[trigger] done[i],
    ) by {
        assert(done.contains(done[i]));
        assert(asked.to_multiset().count(done[i]) <= 1);
    }
}

/// When `step` is made.
pub open spec fn time_of<T>(step: TimerMove<T>) -> u128 {
    match step {
        TimerMove::Request { now, .. } => now,
        TimerMove::Fire { now, .. } => now,
        TimerMove::Idle { now } => now,
    }
}

/// The clock that `steps` are made by never goes back.
pub open spec fn clock_goes_on<T>(steps: Seq<TimerMove<T>>) -> bool {
    forall|i: int, j: int|
        0 <= i <= j < steps.len() ==> time_of(#[trigger] steps[i]) <= time_of(#[trigger] steps[j])
}

/// What has fired or waits was asked for, and so has the number of a request.
proof fn known_timers_are_numbered<T>(
    states: Seq<TimerModel<T>>,
    steps: Seq<TimerMove<T>>,
    count: nat,
    timer: ScheduledTimer<T>,
)
    requires
        is_run(states, steps),
        count <= steps.len(),
        requested(states, steps, count).len() <= u64::MAX + 1,
        states[count as int].waiting.contains(timer) || fired(steps, count).contains(timer),
    ensures
        timer.sequence < requested(states, steps, count).len(),
        requested(states, steps, count)[timer.sequence as int] == timer,
{
    broadcast use vstd::seq_lib::group_to_multiset_ensures;

    let asked = requested(states, steps, count);
    every_request_fires_or_waits(states, steps, count);
    requests_are_numbered_in_order(states, steps, count);
    assert(asked.to_multiset().count(timer) > 0);
    assert(asked.contains(timer));
    let index = choose|i: int| 0 <= i < asked.len() && asked[i] == timer;
    assert(asked[index].sequence == index);
}

/// At every point of a run, what has fired was due by then and fired in order, and nothing that
/// waits fires before any of it.
proof fn what_waits_comes_after_what_fired<T>(
    states: Seq<TimerModel<T>>,
    steps: Seq<TimerMove<T>>,
    count: nat,
)
    requires
        is_run(states, steps),
        clock_goes_on(steps),
        count <= steps.len(),
        requested(states, steps, count).len() <= u64::MAX + 1,
    ensures
        forall|i: int|
            0 <= i < fired(steps, count).len() ==> (#[trigger] fired(steps, count)[i]).deadline
                <= time_of(steps[count - 1]),
        forall|i: int, timer: ScheduledTimer<T>|
            #![trigger fired(steps, count)[i], states[count as int].waiting.contains(timer)]
            0 <= i < fired(steps, count).len() && states[count as int].waiting.contains(timer)
                ==> !timer.fires_before(&fired(steps, count)[i]),
        forall|i: int, j: int|
            #![trigger fired(steps, count)[i], fired(steps, count)[j]]
            0 <= i < j < fired(steps, count).len() ==> !fired(steps, count)[j].fires_before(
                &fired(steps, count)[i],
            ),
    decreases count,
{
    if count > 0 {
        let earlier = (count - 1) as nat;
        let before = states[count - 1];
        let after = states[count as int];
        let done = fired(steps, earlier);
        what_waits_comes_after_what_fired(states, steps, earlier);
        assert(follows(states[count - 1], steps[count - 1], states[count - 1 + 1]));
        assert forall|i: int| 0 <= i < done.len() implies (#[trigger] done[i]).deadline <= time_of(
            steps[count - 1],
        ) by {
            assert(earlier > 0);
            assert(time_of(steps[earlier - 1]) <= time_of(steps[count - 1]));
        }
        match steps[count - 1] {
            TimerMove::Request { now, request } => {
                let added = before.timer_for(now, request);
                assert(fired(steps, count) == done);
                requests_are_numbered_in_order(states, steps, earlier);
                assert forall|i: int, timer: ScheduledTimer<T>|
                    #![trigger done[i], after.waiting.contains(timer)]
                    0 <= i < done.len() && after.waiting.contains(
                        timer,
                    ) implies !timer.fires_before(&done[i]) by {
                    if timer == added {
                        assert(done.contains(done[i]));
                        known_timers_are_numbered(states, steps, earlier, done[i]);
                    } else {
                        assert(before.waiting.contains(timer));
                    }
                }
            },
            TimerMove::Fire { now, timer: first } => {
                assert(fired(steps, count) == done.push(first));
                assert(before.waiting.contains(first));
                assert forall|timer: ScheduledTimer<T>| #[trigger]
                    after.waiting.contains(timer) implies before.waiting.contains(timer) by {}
            },
            TimerMove::Idle { .. } => {},
        }
    }
}

/// As long as the clock does not go back and request numbers do not wrap around, all the firings
/// of a run come in the order of their deadlines and, where deadlines are equal, in the order of
/// the requests.
pub proof fn all_firings_come_in_order<T>(states: Seq<TimerModel<T>>, steps: Seq<TimerMove<T>>)
    requires
        is_run(states, steps),
        clock_goes_on(steps),
        requested(states, steps, steps.len()).len() <= u64::MAX + 1,
    ensures
        forall|i: int, j: int|
            #![trigger fired(steps, steps.len())[i], fired(steps, steps.len())[j]]
            0 <= i < j < fired(steps, steps.len()).len() ==> !fired(
                steps,
                steps.len(),
            )[j].fires_before(&fired(steps, steps.len())[i]),
        forall|i: int, j: int|
            #![trigger fired(steps, steps.len())[i], fired(steps, steps.len())[j]]
            0 <= i < j < fired(steps, steps.len()).len() ==> {
                let first = fired(steps, steps.len())[i];
                let second = fired(steps, steps.len())[j];
                first.deadline < second.deadline || (first.deadline == second.deadline
                    && first.sequence < second.sequence)
            },
{
    let done = fired(steps, steps.len());
    what_waits_comes_after_what_fired(states, steps, steps.len());
    no_timer_fires_twice(states, steps);
    assert forall|i: int, j: int|
        #![trigger done[i], done[j]]
        0 <= i < j < done.len() implies done[i].fires_before(&done[j]) by {
        assert(done.contains(done[i]) && done.contains(done[j]));
        known_timers_are_numbered(states, steps, steps.len(), done[i]);
        known_timers_are_numbered(states, steps, steps.len(), done[j]);
        assert(done[i] != done[j]);
    }
}

/// What was asked for early in a run stays where it is as more is asked for.
proof fn requests_stay<T>(
    states: Seq<TimerModel<T>>,
    steps: Seq<TimerMove<T>>,
    early: nat,
    late: nat,
)
    requires
        early <= late <= steps.len(),
    ensures
        requested(states, steps, early).len() <= requested(states, steps, late).len(),
        forall|i: int|
            0 <= i < requested(states, steps, early).len() ==> #[trigger] requested(
                states,
                steps,
                late,
            )[i] == requested(states, steps, early)[i],
    decreases late,
{
    if early < late {
        requests_stay(states, steps, early, (late - 1) as nat);
    }
}

/// What has fired was fired by a step.
proof fn fired_by_a_step<T>(steps: Seq<TimerMove<T>>, count: nat, timer: ScheduledTimer<T>)
    requires
        count <= steps.len(),
        fired(steps, count).contains(timer),
    ensures
        exists|h: int| 0 <= h < count && #[trigger] fires(steps[h], timer),
    decreases count,
{
    if count > 0 {
        let earlier = (count - 1) as nat;
        let done = fired(steps, count);
        let at = choose|i: int| 0 <= i < done.len() && done[i] == timer;
        if !fires(steps[count - 1], timer) {
            assert(fired(steps, earlier)[at] == timer);
            fired_by_a_step(steps, earlier, timer);
            let h = choose|h: int| 0 <= h < earlier && #[trigger] fires(steps[h], timer);
            assert(fires(steps[h], timer));
        }
    }
}

/// What a step fires has fired from then on.
proof fn a_step_fires<T>(steps: Seq<TimerMove<T>>, at: int, count: nat, timer: ScheduledTimer<T>)
    requires
        0 <= at < count <= steps.len(),
        fires(steps[at], timer),
    ensures
        fired(steps, count).contains(timer),
    decreases count,
{
    let done = fired(steps, count);
    if at == count - 1 {
        assert(done[done.len() - 1] == timer);
    } else {
        a_step_fires(steps, at, (count - 1) as nat, timer);
        let earlier = fired(steps, (count - 1) as nat);
        let i = choose|i: int| 0 <= i < earlier.len() && earlier[i] == timer;
        assert(done[i] == timer);
    }
}

/// Whether `step` fires `timer`.
pub open spec fn fires<T>(step: TimerMove<T>, timer: ScheduledTimer<T>) -> bool {
    step matches TimerMove::Fire { timer: taken, .. } && taken == timer
}

/// As long as the clock does not go back and request numbers do not wrap around, of two requests
/// the earlier one, if it is for no longer a time, fires before the later one does, and does not
/// wait any more once the later one has fired.
pub proof fn an_earlier_request_is_not_overtaken<T>(
    states: Seq<TimerModel<T>>,
    steps: Seq<TimerMove<T>>,
    earlier: int,
    later: int,
    at: int,
)
    requires
        is_run(states, steps),
        clock_goes_on(steps),
        requested(states, steps, steps.len()).len() <= u64::MAX + 1,
        0 <= earlier < later < steps.len(),
        steps[earlier] is Request,
        steps[later] is Request,
        steps[earlier]->request.duration <= steps[later]->request.duration,
        0 <= at < steps.len(),
        fires(
            steps[at],
            states[later].timer_for(time_of(steps[later]), steps[later]->request),
        ),
    ensures
        ({
            let first = states[earlier].timer_for(
                time_of(steps[earlier]),
                steps[earlier]->request,
            );
            &&& exists|h: int| 0 <= h < at && #[trigger] fires(steps[h], first)
            &&& forall|count: int|
                at < count <= steps.len() ==> !(#[trigger] states[count]).waiting.contains(first)
        }),
{
    broadcast use vstd::seq_lib::group_to_multiset_ensures;

    let total = steps.len();
    let first = states[earlier].timer_for(time_of(steps[earlier]), steps[earlier]->request);
    let second = states[later].timer_for(time_of(steps[later]), steps[later]->request);
    let asked = requested(states, steps, at as nat);

    // Both timers have the number of their request.
    requests_stay(states, steps, earlier as nat, total);
    requests_stay(states, steps, (earlier + 1) as nat, total);
    requests_stay(states, steps, later as nat, total);
    requests_stay(states, steps, (later + 1) as nat, total);
    requests_stay(states, steps, (earlier + 1) as nat, later as nat);
    requests_stay(states, steps, at as nat, total);
    requests_are_numbered_in_order(states, steps, earlier as nat);
    requests_are_numbered_in_order(states, steps, later as nat);
    let place = requested(states, steps, earlier as nat).len();
    assert(requested(states, steps, (earlier + 1) as nat)[place as int] == first);
    assert(first.sequence == place);
    assert(second.sequence == requested(states, steps, later as nat).len());

    // The first one fires before the second one.
    assert(follows(states[earlier], steps[earlier], states[earlier + 1]));
    assert(follows(states[later], steps[later], states[later + 1]));
    assert(time_of(steps[earlier]) <= time_of(steps[later]));
    assert(first.fires_before(&second));

    // It had been asked for when the second one fired.
    assert(follows(states[at], steps[at], states[at + 1]));
    assert(states[at].waiting.contains(second));
    known_timers_are_numbered(states, steps, at as nat, second);
    assert(place < asked.len());
    assert(asked[place as int] == requested(states, steps, total)[place as int]);
    assert(requested(states, steps, total)[place as int] == requested(
        states,
        steps,
        (earlier + 1) as nat,
    )[place as int]);
    assert(asked.contains(first));

    // It did not wait then, so it had fired.
    every_request_fires_or_waits(states, steps, at as nat);
    assert(!states[at].waiting.contains(first));
    assert(asked.to_multiset().count(first) > 0);
    assert(fired(steps, at as nat).to_multiset().count(first) > 0);
    assert(fired(steps, at as nat).contains(first));
    fired_by_a_step(steps, at as nat, first);
    let h = choose|h: int| 0 <= h < at && #[trigger] fires(steps[h], first);

    // Nothing that has fired waits again.
    assert forall|count: int| at < count <= steps.len() implies !(
    #[trigger] states[count]).waiting.contains(first) by {
        a_step_fires(steps, h, count as nat, first);
        fired_timers_do_not_wait(states, steps, count as nat, first);
    }
}

/// Nothing that has fired by a point of a run waits at that point.
proof fn fired_timers_do_not_wait<T>(
    states: Seq<TimerModel<T>>,
    steps: Seq<TimerMove<T>>,
    count: nat,
    timer: ScheduledTimer<T>,
)
    requires
        is_run(states, steps),
        count <= steps.len(),
        requested(states, steps, steps.len()).len() <= u64::MAX + 1,
        fired(steps, count).contains(timer),
    ensures
        !states[count as int].waiting.contains(timer),
{
    broadcast use vstd::seq_lib::group_to_multiset_ensures;

    let asked = requested(states, steps, count);
    requests_stay(states, steps, count, steps.len());
    requests_are_numbered_in_order(states, steps, count);
    every_request_fires_or_waits(states, steps, count);
    assert(asked.no_duplicates());
    asked.lemma_multiset_has_no_duplicates();
    assert(asked.to_multiset().count(timer) <= 1);
}

/// Of two timers fired one after the other, the second one is not one that fires before the
/// first.
pub proof fn firings_keep_the_order<T>(
    model: TimerModel<T>,
    now: u128,
    first: ScheduledTimer<T>,
    later: u128,
    second: ScheduledTimer<T>,
)
    requires
        model.owed(now, first),
        model.fired(first).owed(later, second),
    ensures
        !second.fires_before(&first),
{
    assert(model.waiting.contains(second));
}

/// A wait of the length that `next_wait` gives ends when the first timer is due and no sooner
/// than any timer is due.
pub proof fn a_wait_ends_on_time<T>(model: TimerModel<T>, now: u128, first: ScheduledTimer<T>)
    requires
        fires_first(model.waiting, first),
    ensures
        first.deadline <= now + time_left(first.deadline, now),
        forall|early: u128|
            now <= early < now + time_left(first.deadline, now) ==> !#[trigger] model.any_due(
                early,
            ),
        time_left(first.deadline, now) == 0 <==> model.any_due(now),
{
}

/// Firing shrinks the queue, so that firing everything that is due comes to an end.
pub proof fn firing_shrinks_the_queue<T>(model: TimerModel<T>, now: u128, timer: ScheduledTimer<T>)
    requires
        model.owed(now, timer),
    ensures
        model.fired(timer).waiting.len() + 1 == model.waiting.len(),
{
}

/// A request leaves the timers that already wait as they are, and the timer it adds is due
/// exactly its duration after the request.
pub proof fn a_request_adds_one_timer<T>(model: TimerModel<T>, now: u128, request: TimerAfter<T>)
    requires
        now + request.duration <= u128::MAX,
    ensures
        model.scheduled(now, request).waiting.len() == model.waiting.len() + 1,
        model.waiting.subset_of(model.scheduled(now, request).waiting),
        model.timer_for(now, request).deadline - now == request.duration,
        model.timer_for(now, request).runnable == request.runnable,
{
}

/// Whether `input` is what comes of doing `step`.
pub open spec fn comes_of<T>(step: TimerStep<T>, input: TimerInput<T>) -> bool {
    match step {
        TimerStep::Fire(_) => input is Fired,
        TimerStep::Rest => input is Rested,
        TimerStep::Wait(_) => input is Ended,
        TimerStep::Pass => input is Pass,
        TimerStep::Stop => false,
    }
}

/// `states` are what a new timer thread goes through when it does `steps` one after the other and
/// is told `inputs`.
pub open spec fn is_thread_run<T>(
    states: Seq<ThreadModel<T>>,
    inputs: Seq<TimerInput<T>>,
    steps: Seq<TimerStep<T>>,
) -> bool {
    &&& inputs.len() == steps.len()
    &&& states.len() == steps.len() + 1
    &&& states[0].timers == TimerModel::<T>::empty()
    &&& inputs.len() > 0 ==> inputs[0] is Pass
    &&& forall|i: int| 0 <= i < inputs.len() ==> #[trigger] has_deadline(inputs[i])
    &&& forall|i: int|
        0 <= i < steps.len() ==> #[trigger] thread_step(
            states[i],
            inputs[i],
            steps[i],
            states[i + 1],
        )
    &&& forall|i: int| 0 < i < steps.len() ==> comes_of(steps[i - 1], #[trigger] inputs[i])
}

/// What the clock showed when the thread was told `input`, where it was read.
pub open spec fn reading<T>(input: TimerInput<T>) -> Option<u128> {
    match input {
        TimerInput::Pass { now } => Some(now),
        TimerInput::Fired => None,
        TimerInput::Rested { now } => Some(now),
        TimerInput::Ended { now, .. } => Some(now),
    }
}

/// The clock that the thread reads never goes back.
pub open spec fn readings_go_on<T>(inputs: Seq<TimerInput<T>>) -> bool {
    forall|i: int, j: int|
        #![trigger reading(inputs[i]), reading(inputs[j])]
        0 <= i <= j < inputs.len() && reading(inputs[i]) is Some && reading(inputs[j]) is Some
            ==> reading(inputs[i])->0 <= reading(inputs[j])->0
}

/// The change that the thread makes when it is told `input` and does `step`.
pub open spec fn move_of<T>(
    before: ThreadModel<T>,
    input: TimerInput<T>,
    step: TimerStep<T>,
) -> TimerMove<T> {
    let now = match reading(input) {
        Some(now) => now,
        None => before.began,
    };
    match (input, step) {
        (_, TimerStep::Fire(timer)) => TimerMove::Fire { now, timer },
        (TimerInput::Ended { event: TimerEvent::Requested(request), .. }, _) => TimerMove::Request {
            now,
            request,
        },
        _ => TimerMove::Idle { now },
    }
}

/// The changes that the thread makes, one for each step.
pub open spec fn moves_of<T>(
    states: Seq<ThreadModel<T>>,
    inputs: Seq<TimerInput<T>>,
    steps: Seq<TimerStep<T>>,
) -> Seq<TimerMove<T>> {
    Seq::new(steps.len(), |i: int| move_of(states[i], inputs[i], steps[i]))
}

/// The timers that a thread goes through.
pub open spec fn timers_of<T>(states: Seq<ThreadModel<T>>) -> Seq<TimerModel<T>> {
    states.map_values(|state: ThreadModel<T>| state.timers)
}

/// The timers that the first `count` of `steps` hand out to be fired, in order.
pub open spec fn handed_out<T>(steps: Seq<TimerStep<T>>, count: nat) -> Seq<ScheduledTimer<T>>
    decreases count,
{
    if count == 0 {
        Seq::empty()
    } else {
        let earlier = handed_out(steps, (count - 1) as nat);
        match steps[count - 1] {
            TimerStep::Fire(timer) => earlier.push(timer),
            _ => earlier,
        }
    }
}

proof fn handed_out_is_fired<T>(
    states: Seq<ThreadModel<T>>,
    inputs: Seq<TimerInput<T>>,
    steps: Seq<TimerStep<T>>,
    count: nat,
)
    requires
        count <= steps.len(),
    ensures
        fired(moves_of(states, inputs, steps), count) == handed_out(steps, count),
    decreases count,
{
    if count > 0 {
        handed_out_is_fired(states, inputs, steps, (count - 1) as nat);
    }
}

/// The changes of a thread come in the order of the clock: the latest one was made at a time that
/// the clock showed, which is when the pass began if a timer has just been handed out.
proof fn thread_moves_in_time<T>(
    states: Seq<ThreadModel<T>>,
    inputs: Seq<TimerInput<T>>,
    steps: Seq<TimerStep<T>>,
    count: nat,
)
    requires
        is_thread_run(states, inputs, steps),
        readings_go_on(inputs),
        0 < count <= steps.len(),
    ensures
        ({
            let moves = moves_of(states, inputs, steps);
            &&& forall|i: int, j: int|
                0 <= i <= j < count ==> time_of(#[trigger] moves[i]) <= time_of(
                    #[trigger] moves[j],
                )
            &&& exists|r: int|
                0 <= r < count && #[trigger] reading(inputs[r]) == Some(
                    time_of(moves[count - 1]),
                )
            &&& steps[count - 1] is Fire ==> states[count as int].began == time_of(
                moves[count - 1],
            )
        }),
    decreases count,
{
    let moves = moves_of(states, inputs, steps);
    let last = count - 1;
    assert(thread_step(states[last], inputs[last], steps[last], states[last + 1]));
    if count == 1 {
        assert(reading(inputs[0]) == Some(time_of(moves[0])));
    } else {
        thread_moves_in_time(states, inputs, steps, last as nat);
        let r = choose|r: int|
            0 <= r < last && #[trigger] reading(inputs[r]) == Some(time_of(moves[last - 1]));
        assert(comes_of(steps[last - 1], inputs[last]));
        if inputs[last] is Fired {
            assert(reading(inputs[r]) == Some(time_of(moves[last])));
        } else {
            assert(reading(inputs[r])->0 <= reading(inputs[last])->0);
            assert(reading(inputs[last]) == Some(time_of(moves[last])));
        }
        assert(time_of(moves[last - 1]) <= time_of(moves[last]));
        assert forall|i: int, j: int| 0 <= i <= j < count implies time_of(#[trigger] moves[i])
            <= time_of(#[trigger] moves[j]) by {
            if j == last && i < last {
                assert(time_of(moves[i]) <= time_of(moves[last - 1]));
            }
        }
    }
}

/// What a timer thread does is a run of its queue, in which what the thread hands out is what
/// fires; and the clock of that run does not go back if the thread's does not. So what holds of
/// every run holds of the thread.
pub proof fn a_thread_is_a_run<T>(
    states: Seq<ThreadModel<T>>,
    inputs: Seq<TimerInput<T>>,
    steps: Seq<TimerStep<T>>,
)
    requires
        is_thread_run(states, inputs, steps),
    ensures
        is_run(timers_of(states), moves_of(states, inputs, steps)),
        fired(moves_of(states, inputs, steps), steps.len()) == handed_out(steps, steps.len()),
        readings_go_on(inputs) ==> clock_goes_on(moves_of(states, inputs, steps)),
{
    let moves = moves_of(states, inputs, steps);
    let timers = timers_of(states);
    assert forall|i: int| 0 <= i < moves.len() implies #[trigger] follows(
        timers[i],
        moves[i],
        timers[i + 1],
    ) by {
        assert(thread_step(states[i], inputs[i], steps[i], states[i + 1]));
        assert(has_deadline(inputs[i]));
    }
    handed_out_is_fired(states, inputs, steps, steps.len());
    if readings_go_on(inputs) && steps.len() > 0 {
        thread_moves_in_time(states, inputs, steps, steps.len());
    }
}

/// As long as the clock does not go back and request numbers do not wrap around, a timer thread
/// hands its timers out in the order of their deadlines and, where deadlines are equal, in the
/// order of the requests.
pub proof fn a_thread_fires_in_order<T>(
    states: Seq<ThreadModel<T>>,
    inputs: Seq<TimerInput<T>>,
    steps: Seq<TimerStep<T>>,
    i: int,
    j: int,
)
    requires
        is_thread_run(states, inputs, steps),
        readings_go_on(inputs),
        requested(timers_of(states), moves_of(states, inputs, steps), steps.len()).len() <= u64::MAX
            + 1,
        0 <= i < j < handed_out(steps, steps.len()).len(),
    ensures
        handed_out(steps, steps.len())[i].fires_before(&handed_out(steps, steps.len())[j]),
{
    a_thread_is_a_run(states, inputs, steps);
    all_firings_come_in_order(timers_of(states), moves_of(states, inputs, steps));
}

/// The timer of the request that the thread was told of in `input`, when it stood at `before`.
pub open spec fn timer_of<T>(before: ThreadModel<T>, input: TimerInput<T>) -> ScheduledTimer<T> {
    match input {
        TimerInput::Ended { now, event: TimerEvent::Requested(request) } => before.timers.timer_for(
            now,
            request,
        ),
        _ => arbitrary(),
    }
}

/// The request that the thread was told of in `input`, where it was told of one.
pub open spec fn request_of<T>(input: TimerInput<T>) -> Option<TimerAfter<T>> {
    match input {
        TimerInput::Ended { event: TimerEvent::Requested(request), .. } => Some(request),
        _ => None,
    }
}

/// As long as the clock does not go back and request numbers do not wrap around, of two requests
/// that a timer thread takes in, the earlier one, if it is for no longer a time, is handed out
/// before the later one is, and is not among what waits, and so not among what is handed back,
/// once the later one has been handed out.
pub proof fn a_thread_lets_no_request_be_overtaken<T>(
    states: Seq<ThreadModel<T>>,
    inputs: Seq<TimerInput<T>>,
    steps: Seq<TimerStep<T>>,
    earlier: int,
    later: int,
    at: int,
)
    requires
        is_thread_run(states, inputs, steps),
        readings_go_on(inputs),
        requested(timers_of(states), moves_of(states, inputs, steps), steps.len()).len() <= u64::MAX
            + 1,
        0 <= earlier < later < inputs.len(),
        request_of(inputs[earlier]) is Some,
        request_of(inputs[later]) is Some,
        request_of(inputs[earlier])->0.duration <= request_of(inputs[later])->0.duration,
        0 <= at < steps.len(),
        steps[at] == TimerStep::Fire(timer_of(states[later], inputs[later])),
    ensures
        exists|h: int|
            0 <= h < at && #[trigger] steps[h] == TimerStep::Fire(
                timer_of(states[earlier], inputs[earlier]),
            ),
        forall|count: int|
            at < count <= steps.len() ==> !(#[trigger] states[count]).timers.waiting.contains(
                timer_of(states[earlier], inputs[earlier]),
            ),
{
    let timers = timers_of(states);
    let moves = moves_of(states, inputs, steps);
    let first = timer_of(states[earlier], inputs[earlier]);
    a_thread_is_a_run(states, inputs, steps);
    assert(thread_step(states[earlier], inputs[earlier], steps[earlier], states[earlier + 1]));
    assert(thread_step(states[later], inputs[later], steps[later], states[later + 1]));
    an_earlier_request_is_not_overtaken(timers, moves, earlier, later, at);
    let h = choose|h: int| 0 <= h < at && #[trigger] fires(moves[h], first);
    assert(steps[h] == TimerStep::Fire(first));
    assert forall|count: int| at < count <= steps.len() implies !(
    #[trigger] states[count]).timers.waiting.contains(first) by {
        assert(!timers[count].waiting.contains(first));
    }
}

/// Whenever a timer waits, the wait is until the earliest deadline among those that wait, and none
/// at all if that has passed; only if no timer waits is the wait without end.
pub proof fn a_queue_waits_for_the_earliest_deadline<T>(
    queue: TimerQueue<T>,
    now: u128,
    wait: Option<u128>,
)
    requires
        queue.wf(),
        call_ensures(TimerQueue::<T>::next_wait, (&queue, now), wait),
    ensures
        wait is None <==> queue@.waiting.len() == 0,
        forall|timer: ScheduledTimer<T>| #[trigger]
            queue@.waiting.count(timer) > 0 ==> wait is Some && (now + wait->0 <= now || now
                + wait->0 <= timer.deadline),
        wait matches Some(left) ==> exists|timer: ScheduledTimer<T>| #[trigger]
            queue@.waiting.count(timer) > 0 && (if timer.deadline < now {
                left == 0
            } else {
                now + left == timer.deadline
            }),
{
    wait_is_until_the_earliest(queue@, now, wait);
}

/// What `is_wait` says of the deadlines of all that wait.
proof fn wait_is_until_the_earliest<T>(model: TimerModel<T>, now: u128, wait: Option<u128>)
    requires
        is_wait(model, now, wait),
    ensures
        wait is None <==> model.waiting.len() == 0,
        forall|timer: ScheduledTimer<T>| #[trigger]
            model.waiting.count(timer) > 0 ==> wait is Some && (now + wait->0 <= now || now
                + wait->0 <= timer.deadline),
        wait matches Some(left) ==> exists|timer: ScheduledTimer<T>| #[trigger]
            model.waiting.count(timer) > 0 && (if timer.deadline < now {
                left == 0
            } else {
                now + left == timer.deadline
            }),
{
    let waiting = model.waiting;
    match wait {
        Some(left) => {
            let first = choose|first: ScheduledTimer<T>| #[trigger]
                fires_first(waiting, first) && left == time_left(first.deadline, now);
            assert(waiting.contains(first));
            assert(waiting.count(first) > 0);
            assert forall|timer: ScheduledTimer<T>| #[trigger] waiting.count(timer) > 0 implies now
                + left <= now || now + left <= timer.deadline by {
                assert(waiting.contains(timer));
            }
            if waiting.len() == 0 {
                assert(waiting.remove(first).len() == waiting.len() - 1);
            }
        },
        None => {},
    }
}

/// Once a thread rests, it waits until the earliest deadline among the timers that wait, and not
/// at all if that has passed; only if no timer waits does it wait without end. Nothing changes.
pub proof fn a_thread_waits_for_the_earliest_deadline<T>(
    thread: &mut TimerLoop<T>,
    now: u128,
    step: TimerStep<T>,
)
    requires
        old(thread).wf(),
        call_ensures(
            TimerLoop::<T>::run_illumos_timer_queue,
            (thread, TimerInput::Rested { now }),
            step,
        ),
    ensures
        final(thread)@ == old(thread)@,
        step matches TimerStep::Wait(wait) && (wait is None
            <==> old(thread)@.timers.waiting.len() == 0)
            && (forall|timer: ScheduledTimer<T>| #[trigger]
            old(thread)@.timers.waiting.count(timer) > 0 ==> wait is Some && (now + wait->0 <= now
                || now + wait->0 <= timer.deadline)) && (wait matches Some(left) ==> exists|
            timer: ScheduledTimer<T>,
        | #[trigger]
            old(thread)@.timers.waiting.count(timer) > 0 && (if timer.deadline < now {
                left == 0
            } else {
                now + left == timer.deadline
            })),
{
    if let TimerStep::Wait(wait) = step {
        wait_is_until_the_earliest(old(thread)@.timers, now, wait);
    }
}

/// Firing or resting goes by deadlines, numbers and counts.
proof fn firing_goes_by_deadlines<T>(
    before: TimerModel<T>,
    began: u128,
    step: TimerStep<T>,
    after: TimerModel<T>,
)
    requires
        fires_or_rests(before, began, step, after),
    ensures
        step is Fire || step is Rest,
        step matches TimerStep::Fire(timer) ==> before.waiting.count(timer) > 0 && timer.deadline
            <= began,
        step matches TimerStep::Fire(timer) ==> forall|other: ScheduledTimer<T>| #[trigger]
            before.waiting.count(other) > 0 ==> timer.deadline < other.deadline || (timer.deadline
                == other.deadline && timer.sequence <= other.sequence),
        step is Rest ==> forall|other: ScheduledTimer<T>| #[trigger]
            before.waiting.count(other) > 0 ==> began < other.deadline,
        forall|other: ScheduledTimer<T>| #[trigger]
            after.waiting.count(other) == before.waiting.count(other) - (if step
                == TimerStep::Fire(other) {
                1int
            } else {
                0
            }),
        after.sequence == before.sequence,
{
    match step {
        TimerStep::Fire(timer) => {
            assert(before.waiting.contains(timer));
            assert forall|other: ScheduledTimer<T>| #[trigger]
                before.waiting.count(other) > 0 implies timer.deadline < other.deadline || (
            timer.deadline == other.deadline && timer.sequence <= other.sequence) by {
                assert(before.waiting.contains(other));
            }
        },
        _ => {
            assert forall|other: ScheduledTimer<T>| #[trigger]
                before.waiting.count(other) > 0 implies began < other.deadline by {
                assert(before.waiting.contains(other));
            }
        },
    }
}

/// A thread that begins a pass, or goes on with one after it has fired, fires the earliest timer
/// that was due when the pass began, and at the same deadline the one that was requested first.
/// It takes out that one alone, and rests exactly if none is due.
pub proof fn a_pass_fires_the_earliest_due<T>(
    thread: &mut TimerLoop<T>,
    input: TimerInput<T>,
    step: TimerStep<T>,
)
    requires
        old(thread).wf(),
        input is Pass || input is Fired,
        call_ensures(TimerLoop::<T>::run_illumos_timer_queue, (thread, input), step),
    ensures
        step is Fire || step is Rest,
        input matches TimerInput::Pass { now } ==> final(thread)@.began == now,
        input is Fired ==> final(thread)@.began == old(thread)@.began,
        step matches TimerStep::Fire(timer) ==> old(thread)@.timers.waiting.count(timer) > 0
            && timer.deadline
            <= final(thread)@.began,
        step matches TimerStep::Fire(timer) ==> forall|other: ScheduledTimer<T>| #[trigger]
            old(thread)@.timers.waiting.count(other) > 0
                ==> timer.deadline < other.deadline || (timer.deadline
                == other.deadline && timer.sequence <= other.sequence),
        step is Rest ==> forall|other: ScheduledTimer<T>| #[trigger]
            old(thread)@.timers.waiting.count(other) > 0 ==> final(thread)@.began < other.deadline,
        forall|other: ScheduledTimer<T>| #[trigger]
            final(thread)@.timers.waiting.count(other)
                == old(thread)@.timers.waiting.count(other) - (if step
                == TimerStep::Fire(other) {
                1int
            } else {
                0
            }),
        final(thread)@.timers.sequence == old(thread)@.timers.sequence,
{
    firing_goes_by_deadlines(
        old(thread)@.timers,
        final(thread)@.began,
        step,
        final(thread)@.timers,
    );
}

/// Taking in a request adds exactly one timer: it is due as long after the request as was asked
/// for, runs what was asked for and has the next number. All other timers stay, and the thread
/// begins another pass.
pub proof fn a_request_adds_just_what_was_asked_for<T>(
    thread: &mut TimerLoop<T>,
    now: u128,
    request: TimerAfter<T>,
    step: TimerStep<T>,
)
    requires
        old(thread).wf(),
        now + request.duration <= u128::MAX,
        call_ensures(
            TimerLoop::<T>::run_illumos_timer_queue,
            (thread, TimerInput::Ended { now, event: TimerEvent::Requested(request) }),
            step,
        ),
    ensures
        step is Pass,
        final(thread)@.began == old(thread)@.began,
        forall|timer: ScheduledTimer<T>| #[trigger]
            final(thread)@.timers.waiting.count(timer)
                == old(thread)@.timers.waiting.count(timer) + (if timer.deadline
                == now + request.duration && timer.sequence == old(thread)@.timers.sequence
                    && timer.runnable
                == request.runnable {
                1int
            } else {
                0
            }),
        old(thread)@.timers.sequence < u64::MAX ==> final(thread)@.timers.sequence
            == old(thread)@.timers.sequence + 1,
        old(thread)@.timers.sequence == u64::MAX ==> final(thread)@.timers.sequence == 0,
{
}

/// A wait that ran out changes nothing and begins another pass; a lost channel changes nothing and
/// stops the thread, which nothing else does.
pub proof fn only_a_lost_channel_stops_a_thread<T>(
    thread: &mut TimerLoop<T>,
    input: TimerInput<T>,
    step: TimerStep<T>,
)
    requires
        old(thread).wf(),
        input matches TimerInput::Ended { now, event: TimerEvent::Requested(request) } ==> now
            + request.duration <= u128::MAX,
        call_ensures(TimerLoop::<T>::run_illumos_timer_queue, (thread, input), step),
    ensures
        step is Stop <==> (input matches TimerInput::Ended { event, .. } && event is Disconnected),
        step is Pass <==> (input matches TimerInput::Ended { event, .. } && !(
        event is Disconnected)),
        step is Wait <==> input is Rested,
        input matches TimerInput::Ended { event, .. } ==> event is Requested || final(thread)@
            == old(thread)@,
{
}

/// A thread can be told anything, but for a request whose deadline its clock cannot hold.
pub proof fn a_thread_can_be_told_anything<T>(thread: &mut TimerLoop<T>, input: TimerInput<T>)
    requires
        old(thread).wf(),
        input matches TimerInput::Ended { now, event: TimerEvent::Requested(request) } ==> now
            + request.duration <= u128::MAX,
    ensures
        call_requires(TimerLoop::<T>::run_illumos_timer_queue, (thread, input)),
{
}

/// A new thread and a new queue have nothing waiting, and their first request has the number 0.
pub proof fn nothing_waits_at_first<T>(thread: TimerLoop<T>, queue: TimerQueue<T>)
    requires
        call_ensures(TimerLoop::<T>::new, (), thread),
        call_ensures(TimerQueue::<T>::new, (), queue),
    ensures
        thread.wf(),
        thread@.timers.waiting.len() == 0,
        thread@.timers.sequence == 0,
        queue.wf(),
        queue@.waiting.len() == 0,
        queue@.sequence == 0,
{
}

/// A queue gives a timer exactly if one is due, gives the earliest one, and takes out that one
/// alone.
pub proof fn a_queue_gives_the_earliest_due<T>(
    queue: &mut TimerQueue<T>,
    now: u128,
    due: Option<ScheduledTimer<T>>,
)
    requires
        old(queue).wf(),
        call_ensures(TimerQueue::<T>::pop_due, (queue, now), due),
    ensures
        due matches Some(timer) ==> old(queue)@.waiting.count(timer) > 0 && timer.deadline
            <= now,
        due matches Some(timer) ==> forall|other: ScheduledTimer<T>| #[trigger]
            old(queue)@.waiting.count(other) > 0
                ==> timer.deadline < other.deadline || (timer.deadline
                == other.deadline && timer.sequence <= other.sequence),
        due is None ==> forall|other: ScheduledTimer<T>| #[trigger]
            old(queue)@.waiting.count(other) > 0 ==> now < other.deadline,
        forall|other: ScheduledTimer<T>| #[trigger]
            final(queue)@.waiting.count(other) == old(queue)@.waiting.count(other) - (if due
                == Some(other) {
                1int
            } else {
                0
            }),
        final(queue)@.sequence == old(queue)@.sequence,
{
    let step = match due {
        Some(timer) => TimerStep::Fire(timer),
        None => TimerStep::Rest,
    };
    firing_goes_by_deadlines(old(queue)@, now, step, final(queue)@);
}

/// A queue that takes in a request holds one timer more: the one that was asked for.
pub proof fn a_queue_takes_in_just_the_request<T>(
    queue: &mut TimerQueue<T>,
    now: u128,
    request: TimerAfter<T>,
)
    requires
        old(queue).wf(),
        now + request.duration <= u128::MAX,
        call_ensures(TimerQueue::<T>::schedule, (queue, now, request), ()),
    ensures
        forall|timer: ScheduledTimer<T>| #[trigger]
            final(queue)@.waiting.count(timer) == old(queue)@.waiting.count(timer)
                + (if timer.deadline
                == now + request.duration && timer.sequence == old(queue)@.sequence
                    && timer.runnable
                == request.runnable {
                1int
            } else {
                0
            }),
        old(queue)@.sequence < u64::MAX ==> final(queue)@.sequence == old(queue)@.sequence + 1,
        old(queue)@.sequence == u64::MAX ==> final(queue)@.sequence == 0,
{
}

/// How often `runnable` is what a timer in `order` runs.
proof fn runnables_are_counted<T>(order: Seq<ScheduledTimer<T>>, runnable: T)
    ensures
        order.map_values(|timer: ScheduledTimer<T>| timer.runnable).to_multiset().count(runnable)
            == order.to_multiset().filter(
            |timer: ScheduledTimer<T>| timer.runnable == runnable,
        ).len(),
    decreases order.len(),
{
    broadcast use vstd::seq_lib::group_to_multiset_ensures;

    let run = |timer: ScheduledTimer<T>| timer.runnable;
    let ours = |timer: ScheduledTimer<T>| timer.runnable == runnable;
    if order.len() == 0 {
        assert(order.to_multiset() =~= Multiset::empty());
        assert(order.to_multiset().filter(ours) =~= Multiset::empty());
        assert(order.map_values(run) =~= Seq::empty());
        assert(order.map_values(run).to_multiset() =~= Multiset::empty());
    } else {
        let rest = order.drop_last();
        let last = order.last();
        runnables_are_counted(rest, runnable);
        assert(order =~= rest.push(last));
        assert(order.map_values(run) =~= rest.map_values(run).push(last.runnable));
        if ours(last) {
            assert(order.to_multiset().filter(ours) =~= rest.to_multiset().filter(ours).insert(
                last,
            ));
        } else {
            assert(order.to_multiset().filter(ours) =~= rest.to_multiset().filter(ours));
        }
    }
}

/// A thread hands back what the timers that still wait would have run: as many as there are
/// timers, and each as often as a timer waits that would have run it.
pub proof fn a_thread_hands_back_all_that_waits<T>(
    thread: TimerLoop<T>,
    pending: Vec<T>,
    runnable: T,
)
    requires
        call_ensures(TimerLoop::<T>::into_pending, (thread,), pending),
    ensures
        pending@.len() == thread@.timers.waiting.len(),
        pending@.to_multiset().count(runnable) == thread@.timers.waiting.filter(
            |timer: ScheduledTimer<T>| timer.runnable == runnable,
        ).len(),
{
    let order = choose|order: Seq<ScheduledTimer<T>>| #[trigger]
        order.to_multiset() == thread@.timers.waiting && pending@ == order.map_values(
            |timer: ScheduledTimer<T>| timer.runnable,
        );
    vstd::seq_lib::to_multiset_len(order);
    runnables_are_counted(order, runnable);
}

/// A queue hands back what the timers that still wait would have run: as many as there are timers,
/// and each as often as a timer waits that would have run it.
pub proof fn a_queue_hands_back_all_that_waits<T>(
    queue: TimerQueue<T>,
    pending: Vec<T>,
    runnable: T,
)
    requires
        call_ensures(TimerQueue::<T>::into_pending, (queue,), pending),
    ensures
        pending@.len() == queue@.waiting.len(),
        pending@.to_multiset().count(runnable) == queue@.waiting.filter(
            |timer: ScheduledTimer<T>| timer.runnable == runnable,
        ).len(),
{
    let order = choose|order: Seq<ScheduledTimer<T>>| #[trigger]
        order.to_multiset() == queue@.waiting && pending@ == order.map_values(
            |timer: ScheduledTimer<T>| timer.runnable,
        );
    vstd::seq_lib::to_multiset_len(order);
    runnables_are_counted(order, runnable);
}

} // verus!
