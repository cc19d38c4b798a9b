//! A timer that waits for its deadline, and the order in which waiting timers fire.

use std::cmp::Ordering;
use vstd::std_specs::cmp::{PartialEqSpec, PartialOrdSpec};
use vstd::prelude::*;

verus! {

/// A request to fire `runnable` once `duration` nanoseconds have passed.
pub struct TimerAfter<T> {
    pub duration: u128,
    pub runnable: T,
}

/// A timer that waits for its deadline. Deadlines are nanoseconds on the clock that the caller
/// reads; `sequence` counts the requests in the order in which they came.
pub struct ScheduledTimer<T> {
    pub deadline: u128,
    pub sequence: u64,
    pub runnable: T,
}

impl<T> ScheduledTimer<T> {
    /// Whether this timer is owed to fire ahead of `other`: it is due earlier, or it is due at
    /// the same time and was requested earlier.
    pub open spec fn fires_before(&self, other: &Self) -> bool {
        self.deadline < other.deadline || (self.deadline == other.deadline && self.sequence
            < other.sequence)
    }

    /// How this timer is ranked against `other`: the one that fires first is the greater.
    pub open spec fn rank(&self, other: &Self) -> Ordering {
        if self.fires_before(other) {
            Ordering::Greater
        } else if other.fires_before(self) {
            Ordering::Less
        } else {
            Ordering::Equal
        }
    }

    /// Ranks this timer against `other`; the one that fires first is the greater.
    pub fn cmp(&self, other: &Self) -> (order: Ordering)
        ensures
            order == self.rank(other),
    {
        if other.deadline < self.deadline {
            Ordering::Less
        } else if self.deadline < other.deadline {
            Ordering::Greater
        } else if other.sequence < self.sequence {
            Ordering::Less
        } else if self.sequence < other.sequence {
            Ordering::Greater
        } else {
            Ordering::Equal
        }
    }
}

impl<T> PartialEq for ScheduledTimer<T> {
    fn eq(&self, other: &Self) -> (same: bool) {
        self.deadline == other.deadline && self.sequence == other.sequence
    }
}

impl<T> vstd::std_specs::cmp::PartialEqSpecImpl for ScheduledTimer<T> {
    open spec fn obeys_eq_spec() -> bool {
        true
    }

    open spec fn eq_spec(&self, other: &Self) -> bool {
        self.deadline == other.deadline && self.sequence == other.sequence
    }
}

impl<T> Eq for ScheduledTimer<T> {

}

impl<T> PartialOrd for ScheduledTimer<T> {
    fn partial_cmp(&self, other: &Self) -> (order: Option<Ordering>) {
        Some(self.cmp(other))
    }
}

impl<T> vstd::std_specs::cmp::PartialOrdSpecImpl for ScheduledTimer<T> {
    open spec fn obeys_partial_cmp_spec() -> bool {
        true
    }

    open spec fn partial_cmp_spec(&self, other: &Self) -> Option<Ordering> {
        Some(self.rank(other))
    }
}

/// The ranking is a total order on deadline and sequence: no timer fires before itself, of two
/// timers at most one fires before the other, and `fires_before` chains.
pub proof fn firing_order_is_strict<T>(
    a: ScheduledTimer<T>,
    b: ScheduledTimer<T>,
    c: ScheduledTimer<T>,
)
    ensures
        !a.fires_before(&a),
        a.fires_before(&b) ==> !b.fires_before(&a),
        a.fires_before(&b) && b.fires_before(&c) ==> a.fires_before(&c),
        a.fires_before(&b) || b.fires_before(&a) || (a.deadline == b.deadline && a.sequence
            == b.sequence),
{
}

/// Equality and ranking agree: two timers are equal exactly when neither outranks the other, and
/// ranking them the other way round gives the opposite answer.
pub proof fn ranking_agrees_with_equality<T>(a: ScheduledTimer<T>, b: ScheduledTimer<T>)
    ensures
        (a.rank(&b) == Ordering::Equal) == (a.deadline == b.deadline && a.sequence == b.sequence),
        (a.rank(&b) == Ordering::Less) == (b.rank(&a) == Ordering::Greater),
        (a.rank(&b) == Ordering::Greater) == (b.rank(&a) == Ordering::Less),
{
}

/// Of two timers the one with the earlier deadline is the greater, and at the same deadline the
/// one that was requested earlier.
pub proof fn ranking_goes_by_deadline_then_request<T>(
    a: ScheduledTimer<T>,
    b: ScheduledTimer<T>,
    order: Ordering,
)
    requires
        call_ensures(ScheduledTimer::<T>::cmp, (&a, &b), order),
    ensures
        a.deadline < b.deadline ==> order == Ordering::Greater,
        a.deadline > b.deadline ==> order == Ordering::Less,
        a.deadline == b.deadline && a.sequence < b.sequence ==> order == Ordering::Greater,
        a.deadline == b.deadline && a.sequence > b.sequence ==> order == Ordering::Less,
        a.deadline == b.deadline && a.sequence == b.sequence ==> order == Ordering::Equal,
{
}

/// Two timers are equal exactly if they have the same deadline and the same number, and they
/// compare as they rank.
pub proof fn comparing_goes_by_deadline_and_number<T>(a: ScheduledTimer<T>, b: ScheduledTimer<T>)
    ensures
        ScheduledTimer::<T>::obeys_eq_spec(),
        ScheduledTimer::<T>::obeys_partial_cmp_spec(),
        a.eq_spec(&b) <==> a.deadline == b.deadline && a.sequence == b.sequence,
        a.partial_cmp_spec(&b) == Some(Ordering::Equal) <==> a.deadline == b.deadline && a.sequence
            == b.sequence,
        a.partial_cmp_spec(&b) == Some(Ordering::Greater) <==> a.deadline < b.deadline || (
        a.deadline == b.deadline && a.sequence < b.sequence),
        a.partial_cmp_spec(&b) == Some(Ordering::Less) <==> a.deadline > b.deadline || (a.deadline
            == b.deadline && a.sequence > b.sequence),
{
}

} // verus!
