//! A binary heap of scheduled timers with the one that fires first at its root.

use crate::timer::ScheduledTimer;
use vstd::multiset::Multiset;
use vstd::prelude::*;

verus! {

/// Where the parent of the timer at `index` stands.
spec fn parent(index: int) -> int {
    (index - 1) / 2
}

/// The timer at `index` does not fire before its parent.
spec fn in_place<T>(timers: Seq<ScheduledTimer<T>>, index: int) -> bool {
    !timers[index].fires_before(&timers[parent(index)])
}

/// Every timer but the root is in place.
spec fn heap_ordered<T>(timers: Seq<ScheduledTimer<T>>) -> bool {
    forall|k: int| 1 <= k < timers.len() ==> in_place(timers, k)
}

/// Every timer is in place but perhaps the one at `hole` against its parent, and what stands
/// below `hole` would be in place under that parent.
spec fn ordered_but_above<T>(timers: Seq<ScheduledTimer<T>>, hole: int) -> bool {
    &&& forall|k: int| 1 <= k < timers.len() && k != hole ==> #[trigger] in_place(timers, k)
    &&& forall|k: int|
        1 <= k < timers.len() && #[trigger] parent(k) == hole && 1 <= hole
            ==> !timers[k].fires_before(&timers[parent(hole)])
}

/// Every timer is in place but perhaps those right below `hole`, and they would be in place
/// under the parent of `hole`.
spec fn ordered_but_below<T>(timers: Seq<ScheduledTimer<T>>, hole: int) -> bool {
    &&& forall|k: int|
        1 <= k < timers.len() && parent(k) != hole ==> #[trigger] in_place(timers, k)
    &&& forall|k: int|
        1 <= k < timers.len() && #[trigger] parent(k) == hole && 1 <= hole
            ==> !timers[k].fires_before(&timers[parent(hole)])
}

/// Nothing in an ordered heap fires before its root.
proof fn root_fires_first<T>(timers: Seq<ScheduledTimer<T>>, index: int)
    requires
        heap_ordered(timers),
        0 <= index < timers.len(),
    ensures
        !timers[index].fires_before(&timers[0]),
    decreases index,
{
    if index > 0 {
        root_fires_first(timers, parent(index));
        assert(in_place(timers, index));
    }
}

/// Replacing one element takes the old one out of the multiset and puts the new one in.
proof fn update_multiset<T>(items: Seq<T>, index: int, item: T)
    requires
        0 <= index < items.len(),
    ensures
        items.update(index, item).to_multiset() == items.to_multiset().remove(items[index]).insert(
            item,
        ),
{
    broadcast use vstd::seq_lib::group_to_multiset_ensures;

    assert(items.update(index, item) =~= items.remove(index).insert(index, item));
    vstd::seq_lib::to_multiset_insert(items.remove(index), index, item);
    vstd::seq_lib::to_multiset_remove(items, index);
}

/// Exchanges the elements at `low` and `high`.
fn exchange<T>(items: &mut Vec<T>, low: usize, high: usize)
    requires
        low < high < old(items)@.len(),
    ensures
        final(items)@ == old(items)@.update(low as int, old(items)@[high as int]).update(
            high as int,
            old(items)@[low as int],
        ),
        final(items)@.to_multiset() == old(items)@.to_multiset(),
{
    proof {
        let before = items@;
        update_multiset(before, low as int, before[high as int]);
        update_multiset(
            before.update(low as int, before[high as int]),
            high as int,
            before[low as int],
        );
        vstd::seq_lib::to_multiset_contains(before, before[low as int]);
        assert(before.update(low as int, before[high as int]).update(
            high as int,
            before[low as int],
        ).to_multiset() =~= before.to_multiset());
    }
    let (head, tail) = items.as_mut_slice().split_at_mut(high);
    std::mem::swap(&mut head[low], &mut tail[0]);
}

/// A binary heap of scheduled timers.
pub struct TimerHeap<T> {
    timers: Vec<ScheduledTimer<T>>,
}

impl<T> View for TimerHeap<T> {
    type V = Multiset<ScheduledTimer<T>>;

    /// The timers that wait in the heap.
    closed spec fn view(&self) -> Multiset<ScheduledTimer<T>> {
        self.timers@.to_multiset()
    }
}

/// `first` waits among `timers` and none of them fires before it.
pub open spec fn fires_first<T>(
    timers: Multiset<ScheduledTimer<T>>,
    first: ScheduledTimer<T>,
) -> bool {
    &&& timers.contains(first)
    &&& forall|other: ScheduledTimer<T>| #[trigger]
        timers.contains(other) ==> !other.fires_before(&first)
}

impl<T> TimerHeap<T> {
    /// No timer fires before the one it hangs below.
    pub closed spec fn wf(&self) -> bool {
        heap_ordered(self.timers@)
    }

    /// An empty heap.
    pub fn new() -> (heap: Self)
        ensures
            heap.wf(),
            heap@ == Multiset::<ScheduledTimer<T>>::empty(),
    {
        let heap = TimerHeap { timers: Vec::new() };
        proof {
            vstd::seq_lib::to_multiset_len(heap.timers@);
            assert(heap@ =~= Multiset::<ScheduledTimer<T>>::empty());
        }
        heap
    }

    /// The timer that fires first; nothing exactly when no timer waits.
    pub fn peek(&self) -> (first: Option<&ScheduledTimer<T>>)
        requires
            self.wf(),
        ensures
            match first {
                Some(timer) => fires_first(self@, *timer),
                None => self@ == Multiset::<ScheduledTimer<T>>::empty(),
            },
    {
        if self.timers.len() == 0 {
            proof {
                vstd::seq_lib::to_multiset_len(self.timers@);
                assert(self@ =~= Multiset::<ScheduledTimer<T>>::empty());
            }
            None
        } else {
            proof {
                Self::root_of(self.timers@);
            }
            Some(&self.timers[0])
        }
    }

    proof fn root_of(timers: Seq<ScheduledTimer<T>>)
        requires
            heap_ordered(timers),
            timers.len() > 0,
        ensures
            fires_first(timers.to_multiset(), timers[0]),
    {
        broadcast use vstd::seq_lib::group_to_multiset_ensures;

        assert forall|other: ScheduledTimer<T>| #[trigger]
            timers.to_multiset().contains(other) implies !other.fires_before(&timers[0]) by {
            assert(timers.contains(other));
            let index = choose|i: int| 0 <= i < timers.len() && timers[i] == other;
            root_fires_first(timers, index);
        }
        assert(timers.contains(timers[0]));
    }

    /// Adds `timer` to the timers that wait.
    pub fn push(&mut self, timer: ScheduledTimer<T>)
        requires
            old(self).wf(),
        ensures
            final(self).wf(),
            final(self)@ == old(self)@.insert(timer),
    {
        proof {
            vstd::seq_lib::to_multiset_build(self.timers@, timer);
        }
        self.timers.push(timer);
        let last: usize = self.timers.len() - 1;
        proof {
            assert forall|k: int| 1 <= k < self.timers@.len() && k != last implies #[trigger] in_place(
                self.timers@,
                k,
            ) by {
                assert(in_place(old(self).timers@, k));
            }
        }
        self.sift_up(last);
    }

    fn sift_up(&mut self, start: usize)
        requires
            start < old(self).timers@.len(),
            ordered_but_above(old(self).timers@, start as int),
        ensures
            final(self).wf(),
            final(self)@ == old(self)@,
    {
        let mut hole: usize = start;
        while hole > 0
            invariant
                hole < self.timers@.len(),
                ordered_but_above(self.timers@, hole as int),
                self@ == old(self)@,
            decreases hole,
        {
            let above: usize = (hole - 1) / 2;
            if self.timers[hole] <= self.timers[above] {
                proof {
                    assert(in_place(self.timers@, hole as int));
                }
                return ;
            }
            let ghost before = self.timers@;
            exchange(&mut self.timers, above, hole);
            proof {
                let after = self.timers@;
                assert forall|k: int| 1 <= k < after.len() && k != above implies #[trigger] in_place(
                    after,
                    k,
                ) by {
                    if k != hole {
                        assert(in_place(before, k));
                    }
                }
                assert forall|k: int|
                    1 <= k < after.len() && #[trigger] parent(k) == above && 1
                        <= above implies !after[k].fires_before(&after[parent(above as int)]) by {
                    assert(in_place(before, above as int));
                    if k != hole {
                        assert(in_place(before, k));
                    }
                }
            }
            hole = above;
        }
    }

    /// Takes out the timer that fires first; nothing exactly when no timer waits.
    pub fn pop(&mut self) -> (first: Option<ScheduledTimer<T>>)
        requires
            old(self).wf(),
        ensures
            final(self).wf(),
            match first {
                Some(timer) => fires_first(old(self)@, timer) && final(self)@ == old(
                    self,
                )@.remove(timer),
                None => old(self)@ == Multiset::<ScheduledTimer<T>>::empty() && final(self)@
                    == old(self)@,
            },
    {
        if self.timers.len() == 0 {
            proof {
                vstd::seq_lib::to_multiset_len(self.timers@);
                assert(self@ =~= Multiset::<ScheduledTimer<T>>::empty());
            }
            return None;
        }
        let ghost before = self.timers@;
        let first = self.timers.swap_remove(0);
        proof {
            Self::root_of(before);
            let moved = before.update(0, before.last());
            update_multiset(before, 0, before.last());
            vstd::seq_lib::to_multiset_remove(moved, moved.len() - 1);
            assert(moved.remove(moved.len() - 1) =~= moved.drop_last());
            vstd::seq_lib::to_multiset_contains(before, before[0]);
            assert(self.timers@.to_multiset() =~= before.to_multiset().remove(first));
            assert forall|k: int|
                1 <= k < self.timers@.len() && parent(k) != 0 implies #[trigger] in_place(
                self.timers@,
                k,
            ) by {
                assert(in_place(before, k));
            }
        }
        self.sift_down();
        Some(first)
    }

    fn sift_down(&mut self)
        requires
            ordered_but_below(old(self).timers@, 0),
        ensures
            final(self).wf(),
            final(self)@ == old(self)@,
    {
        let mut hole: usize = 0;
        let len: usize = self.timers.len();
        while len >= 2 && hole <= (len - 2) / 2
            invariant
                len == self.timers@.len(),
                0 <= hole,
                ordered_but_below(self.timers@, hole as int),
                self@ == old(self)@,
            decreases len - hole,
        {
            let left: usize = 2 * hole + 1;
            let right: usize = 2 * hole + 2;
            let below: usize = if right < len && self.timers[right] > self.timers[left] {
                right
            } else {
                left
            };
            if self.timers[below] <= self.timers[hole] {
                proof {
                    assert forall|k: int| 1 <= k < len implies in_place(self.timers@, k) by {
                        if parent(k) == hole {
                            assert(k == left || k == right);
                        }
                    }
                }
                return ;
            }
            let ghost before = self.timers@;
            exchange(&mut self.timers, hole, below);
            proof {
                let after = self.timers@;
                assert forall|k: int|
                    1 <= k < after.len() && parent(k) != below implies #[trigger] in_place(
                    after,
                    k,
                ) by {
                    if parent(k) == hole {
                        assert(k == left || k == right);
                    } else {
                        assert(in_place(before, k));
                        if k == hole {
                            assert(parent(below as int) == hole);
                        }
                    }
                }
                assert forall|k: int|
                    1 <= k < after.len() && #[trigger] parent(k) == below && 1
                        <= below implies !after[k].fires_before(&after[parent(below as int)]) by {
                    assert(in_place(before, k));
                    assert(parent(below as int) == hole);
                }
            }
            hole = below;
        }
        proof {
            assert forall|k: int| 1 <= k < len implies in_place(self.timers@, k) by {
                assert(parent(k) != hole);
            }
        }
    }

    /// The timers that still wait, each once, in no particular order.
    pub fn into_vec(self) -> (timers: Vec<ScheduledTimer<T>>)
        ensures
            timers@.to_multiset() == self@,
    {
        self.timers
    }
}

/// The timer that a heap gives first has the earliest deadline of all that wait in it, and of
/// those with that deadline the least number; there is one exactly if any waits.
pub proof fn the_earliest_comes_first<T>(heap: TimerHeap<T>, first: Option<&ScheduledTimer<T>>)
    requires
        heap.wf(),
        call_ensures(TimerHeap::<T>::peek, (&heap,), first),
    ensures
        first is Some <==> heap@.len() > 0,
        first matches Some(timer) ==> heap@.count(*timer) > 0 && forall|other: ScheduledTimer<T>|
            #[trigger] heap@.count(other) > 0 ==> timer.deadline < other.deadline || (
            timer.deadline == other.deadline && timer.sequence <= other.sequence),
{
    if let Some(timer) = first {
        assert(heap@.contains(*timer));
        assert forall|other: ScheduledTimer<T>| #[trigger] heap@.count(other) > 0 implies
            timer.deadline < other.deadline || (timer.deadline == other.deadline && timer.sequence
            <= other.sequence) by {
            assert(heap@.contains(other));
        }
        assert(heap@.len() > 0) by {
            if heap@.len() == 0 {
                assert(heap@.remove(*timer).len() == heap@.len() - 1);
            }
        }
    }
}

/// Taking a timer out of a heap takes out the earliest one and leaves all others, each as often
/// as before.
pub proof fn only_the_earliest_is_taken_out<T>(
    heap: &mut TimerHeap<T>,
    first: Option<ScheduledTimer<T>>,
)
    requires
        old(heap).wf(),
        call_ensures(TimerHeap::<T>::pop, (heap,), first),
    ensures
        first is Some <==> old(heap)@.len() > 0,
        forall|timer: ScheduledTimer<T>| #[trigger] final(heap)@.count(timer) == old(heap)@.count(
            timer,
        ) - (if first == Some(timer) {
            1int
        } else {
            0
        }),
        first matches Some(timer) ==> old(heap)@.count(timer) > 0 && forall|
            other: ScheduledTimer<T>,
        | #[trigger]
            old(heap)@.count(other) > 0 ==> timer.deadline < other.deadline || (timer.deadline
                == other.deadline && timer.sequence <= other.sequence),
{
    let before = old(heap)@;
    if let Some(timer) = first {
        assert(before.contains(timer));
        assert forall|other: ScheduledTimer<T>| #[trigger] before.count(other) > 0 implies
            timer.deadline < other.deadline || (timer.deadline == other.deadline && timer.sequence
            <= other.sequence) by {
            assert(before.contains(other));
        }
        if before.len() == 0 {
            assert(before.remove(timer).len() == before.len() - 1);
        }
    }
}

/// Putting a timer into a heap adds it once and leaves all others as they are.
pub proof fn only_what_is_pushed_is_added<T>(heap: &mut TimerHeap<T>, timer: ScheduledTimer<T>)
    requires
        old(heap).wf(),
        call_ensures(TimerHeap::<T>::push, (heap, timer), ()),
    ensures
        forall|other: ScheduledTimer<T>| #[trigger] final(heap)@.count(other) == old(heap)@.count(
            other,
        ) + (if other == timer {
            1int
        } else {
            0
        }),
{
}

/// What a heap hands back is what waits in it, each timer as often as it waits; a new heap has
/// nothing to hand back.
pub proof fn a_heap_hands_back_all<T>(
    heap: TimerHeap<T>,
    timers: Vec<ScheduledTimer<T>>,
    fresh: TimerHeap<T>,
)
    requires
        call_ensures(TimerHeap::<T>::into_vec, (heap,), timers),
        call_ensures(TimerHeap::<T>::new, (), fresh),
    ensures
        timers@.len() == heap@.len(),
        forall|timer: ScheduledTimer<T>|
            timers@.to_multiset().count(timer) == #[trigger] heap@.count(timer),
        fresh.wf(),
        fresh@.len() == 0,
        forall|timer: ScheduledTimer<T>| #[trigger] fresh@.count(timer) == 0,
{
    vstd::seq_lib::to_multiset_len(timers@);
}

} // verus!
