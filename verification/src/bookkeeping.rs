use crate::prio_queue::{
    is_first_min, law_pop_takes_earliest_highest,
    first_min_index, law_leave_order_is_permutation, law_leave_order_sorted,
    law_successive_pops_in_order, leave_order, PrioQueue,
};
use crate::types::PV;
use vstd::prelude::*;

verus! {

/// What a mutex knows of itself while its bookkeeping lock is held: whether it
/// is free, and who waits for it with which priority.  `W` is whatever wakes a
/// waiter.
#[derive(Debug)]
pub struct Bookkeeping<W> {
    heap: PrioQueue<W>,
    free: bool,
}

/// The abstract state: `free` means that no one holds the mutex and no one is
/// waiting to take it; `waiters` lists the waiting entries in arrival order.
pub ghost struct BookkeepingView<W> {
    pub free: bool,
    pub waiters: Seq<PV<usize, W>>,
}

/// The invariant of every reachable state: a free mutex has no waiters.
pub open spec fn bk_inv<W>(v: BookkeepingView<W>) -> bool {
    v.free ==> v.waiters.len() == 0
}

/// Taking the mutex if it is free: the new state, and whether it was taken.
pub open spec fn bk_try_acquire<W>(v: BookkeepingView<W>) -> (BookkeepingView<W>, bool) {
    if v.free {
        (BookkeepingView { free: false, waiters: v.waiters }, true)
    } else {
        (v, false)
    }
}

/// Putting a waiter in line behind the present ones.
pub open spec fn bk_enqueue<W>(v: BookkeepingView<W>, prio: usize, waker: W) -> BookkeepingView<W> {
    BookkeepingView { free: v.free, waiters: v.waiters.push(PV { p: prio, v: waker }) }
}

/// Releasing the mutex: the earliest waiter of the highest priority leaves
/// the line and is handed the mutex, which stays taken; with no waiter, the
/// mutex becomes free.
pub open spec fn bk_release<W>(v: BookkeepingView<W>) -> (BookkeepingView<W>, Option<
    PV<usize, W>,
>) {
    if v.waiters.len() == 0 {
        (BookkeepingView { free: true, waiters: v.waiters }, None)
    } else {
        let i = first_min_index(v.waiters);
        (BookkeepingView { free: false, waiters: v.waiters.remove(i) }, Some(v.waiters[i]))
    }
}

/// Putting a waiter in line and handing the next turn to the earliest waiter
/// of the highest priority, who may be the one just put in.
pub open spec fn bk_yield_to_best<W>(v: BookkeepingView<W>, prio: usize, waker: W) -> (
    BookkeepingView<W>,
    PV<usize, W>,
) {
    let s = v.waiters.push(PV { p: prio, v: waker });
    let i = first_min_index(s);
    (BookkeepingView { free: v.free, waiters: s.remove(i) }, s[i])
}

impl<W> View for Bookkeeping<W> {
    type V = BookkeepingView<W>;

    closed spec fn view(&self) -> BookkeepingView<W> {
        BookkeepingView { free: self.free, waiters: self.heap@ }
    }
}

impl<W> Bookkeeping<W> {
    /// A free mutex has no waiters.
    #[verifier::type_invariant]
    closed spec fn free_means_no_waiters(&self) -> bool {
        self.free ==> self.heap@.len() == 0
    }

    /// The state of a fresh mutex: free, with no one waiting.
    pub fn new() -> (b: Self)
        ensures
            b@.free,
            b@.waiters == Seq::<PV<usize, W>>::empty(),
            bk_inv(b@),
    {
        Bookkeeping { heap: PrioQueue::new(), free: true }
    }

    /// Whether the mutex is free.
    pub fn is_free(&self) -> (b: bool)
        ensures
            b == self@.free,
            bk_inv(self@),
    {
        proof { use_type_invariant(self); }
        self.free
    }

    /// The number of waiters.
    pub fn num_waiting(&self) -> (n: usize)
        ensures
            n == self@.waiters.len(),
    {
        self.heap.len()
    }

    /// Takes the mutex if it is free.  Returns whether it was taken; when it
    /// was not, nothing changes.  A mutex that has waiters is never free, so
    /// it is never taken here past them.
    pub fn try_acquire(&mut self) -> (taken: bool)
        ensures
            (final(self)@, taken) == bk_try_acquire(old(self)@),
            bk_inv(old(self)@),
            bk_inv(final(self)@),
            old(self)@.waiters.len() > 0 ==> !taken,
    {
        proof { use_type_invariant(&*self); }
        if self.free {
            self.free = false;
            true
        } else {
            false
        }
    }

    /// Puts a waiter with priority `prio` in line behind the present ones.
    /// Only a taken mutex has a line.
    pub fn enqueue(&mut self, prio: usize, waker: W)
        requires
            !old(self)@.free,
        ensures
            final(self)@ == bk_enqueue(old(self)@, prio, waker),
            bk_inv(final(self)@),
    {
        let mut heap = PrioQueue::new();
        std::mem::swap(&mut heap, &mut self.heap);
        heap.push(PV { p: prio, v: waker });
        self.heap = heap;
    }

    /// Releases the mutex.  When someone waits, the earliest waiter of the
    /// highest priority leaves the line and is returned: the mutex now belongs
    /// to it and stays taken.  When no one waits, the mutex becomes free.
    pub fn release(&mut self) -> (next: Option<PV<usize, W>>)
        ensures
            (final(self)@, next) == bk_release(old(self)@),
            bk_inv(final(self)@),
    {
        proof { use_type_invariant(&*self); }
        if self.heap.is_empty() {
            self.free = true;
            None
        } else {
            let mut heap = PrioQueue::new();
            std::mem::swap(&mut heap, &mut self.heap);
            let x = heap.pop();
            self.heap = heap;
            x
        }
    }

    /// Puts a waiter with priority `prio` in line, then takes the earliest
    /// waiter of the highest priority out of the line and returns it (which may
    /// be the one just put in).  The mutex stays taken.
    pub fn yield_to_best(&mut self, prio: usize, waker: W) -> (next: PV<usize, W>)
        requires
            !old(self)@.free,
        ensures
            (final(self)@, next) == bk_yield_to_best(old(self)@, prio, waker),
            bk_inv(final(self)@),
    {
        let mut heap = PrioQueue::new();
        std::mem::swap(&mut heap, &mut self.heap);
        heap.push(PV { p: prio, v: waker });
        let x = heap.pop();
        self.heap = heap;
        x.unwrap()
    }
}

/// Every step keeps the invariant that a free mutex has no waiters.
pub proof fn law_steps_keep_invariant<W>(v: BookkeepingView<W>, prio: usize, waker: W)
    requires
        bk_inv(v),
    ensures
        bk_inv(bk_try_acquire(v).0),
        bk_inv(bk_release(v).0),
        !v.free ==> bk_inv(bk_enqueue(v, prio, waker)),
        !v.free ==> bk_inv(bk_yield_to_best(v, prio, waker).0),
{
}

/// No barging: when someone waits and the holder releases, the mutex goes to
/// a waiter, and an attempt to take it right after fails.
pub proof fn law_release_hands_over_to_waiter<W>(v: BookkeepingView<W>)
    requires
        bk_inv(v),
        v.waiters.len() > 0,
    ensures
        bk_release(v).1 == Some(v.waiters[first_min_index(v.waiters)]),
        !bk_try_acquire(bk_release(v).0).1,
{
}

/// With no one waiting, a release frees the mutex, and the next attempt takes
/// it.
pub proof fn law_release_alone_frees<W>(v: BookkeepingView<W>)
    requires
        bk_inv(v),
        v.waiters.len() == 0,
    ensures
        bk_release(v).0.free,
        bk_release(v).1 is None,
        bk_try_acquire(bk_release(v).0).1,
{
}

/// Taking a free mutex and releasing it with no one waiting gives back the
/// free state.
pub proof fn law_take_then_release_is_free<W>(v: BookkeepingView<W>)
    requires
        bk_inv(v),
        v.free,
    ensures
        bk_try_acquire(v).1,
        bk_release(bk_try_acquire(v).0).0 == v,
        bk_release(bk_try_acquire(v).0).1 is None,
{
}

/// Handing the next turn on keeps the line as long as it was and the mutex
/// taken: one entry joins, one leaves, so exactly one thread holds the turn.
pub proof fn law_yield_keeps_line_length<W>(v: BookkeepingView<W>, prio: usize, waker: W)
    requires
        bk_inv(v),
        !v.free,
    ensures
        bk_yield_to_best(v, prio, waker).0.waiters.len() == v.waiters.len(),
        !bk_yield_to_best(v, prio, waker).0.free,
{
    let s = v.waiters.push(PV { p: prio, v: waker });
    crate::prio_queue::law_pop_takes_earliest_highest(s);
}

/// Waiters are woken in order of priority: of two releases in a row with no
/// arrival between them, the first hands the mutex to a waiter whose priority
/// is at least as high (a number at most as large) as the second's.
pub proof fn law_release_order<W>(v: BookkeepingView<W>)
    requires
        bk_inv(v),
        v.waiters.len() >= 2,
    ensures
        ({
            let (v1, first) = bk_release(v);
            let (_, second) = bk_release(v1);
            &&& first is Some
            &&& second is Some
            &&& first.unwrap().p <= second.unwrap().p
        }),
{
    law_successive_pops_in_order(v.waiters);
    crate::prio_queue::law_pop_takes_earliest_highest(v.waiters);
    let i = first_min_index(v.waiters);
    assert(v.waiters.remove(i).len() == v.waiters.len() - 1);
}

/// Putting a waiter in line adds exactly that waiter, with the priority it
/// gave, behind all present waiters, for a line of any length; nothing else
/// changes.
pub proof fn law_enqueue_adds_exactly_one<W>(v: BookkeepingView<W>, prio: usize, waker: W)
    ensures
        ({
            let w = bk_enqueue(v, prio, waker).waiters;
            &&& bk_enqueue(v, prio, waker).free == v.free
            &&& w.len() == v.waiters.len() + 1
            &&& w[v.waiters.len() as int] == PV { p: prio, v: waker }
            &&& w[v.waiters.len() as int].p == prio
            &&& forall|j: int| 0 <= j < v.waiters.len() ==> #[trigger] w[j] == v.waiters[j]
            &&& w.to_multiset() =~= v.waiters.to_multiset().insert(PV { p: prio, v: waker })
        }),
{
    broadcast use vstd::seq_lib::group_to_multiset_ensures;

}

/// Handing the turn on: the entry that gets it is one of smallest priority
/// among the waiters and the yielder, which joins with its own priority
/// `prio`, and the earliest such entry; the new line is exactly the waiters
/// and the yielder's own entry minus that one entry, in arrival order.
pub proof fn law_yield_hands_turn_to_best<W>(v: BookkeepingView<W>, prio: usize, waker: W)
    ensures
        ({
            let s = v.waiters.push(PV { p: prio, v: waker });
            let (v2, r) = bk_yield_to_best(v, prio, waker);
            exists|i: int|
                #![trigger s[i]]
                {
                    &&& is_first_min(s, i)
                    &&& r == s[i]
                    &&& v2.waiters == s.remove(i)
                    &&& v2.free == v.free
                    &&& r.p <= prio
                    &&& forall|j: int| 0 <= j < v.waiters.len() ==> r.p <= #[trigger] v.waiters[j].p
                }
        }),
{
    let s = v.waiters.push(PV { p: prio, v: waker });
    law_pop_takes_earliest_highest(s);
    let i = first_min_index(s);
    assert(s[s.len() - 1] == PV { p: prio, v: waker });
    assert forall|j: int| 0 <= j < v.waiters.len() implies s[i].p <= #[trigger] v.waiters[j].p by {
        assert(s[j] == v.waiters[j]);
    }
    assert(s[i] == s[i]);
}

/// The state after `k` releases in a row, with no arrival between them.
pub open spec fn after_releases<W>(v: BookkeepingView<W>, k: nat) -> BookkeepingView<W>
    decreases k,
{
    if k == 0 {
        v
    } else {
        after_releases(bk_release(v).0, (k - 1) as nat)
    }
}

/// The waiters of a taken mutex, released to one by one with no new arrival,
/// get the mutex in `leave_order`: the `k`-th release hands it to the `k`-th
/// entry of that order, the mutex stays taken until the line is empty, and
/// the release after that frees it.
pub proof fn law_releases_follow_leave_order<W>(v: BookkeepingView<W>, k: nat)
    requires
        bk_inv(v),
        !v.free,
        k <= v.waiters.len(),
    ensures
        after_releases(v, k).waiters.len() == v.waiters.len() - k,
        !after_releases(v, k).free,
        bk_inv(after_releases(v, k)),
        k < v.waiters.len() ==> bk_release(after_releases(v, k)).1 == Some(
            leave_order(v.waiters)[k as int],
        ),
        k == v.waiters.len() ==> bk_release(after_releases(v, k)).0.free,
        k == v.waiters.len() ==> bk_release(after_releases(v, k)).1 is None,
    decreases k,
{
    if k > 0 {
        crate::prio_queue::law_pop_takes_earliest_highest(v.waiters);
        let i = first_min_index(v.waiters);
        let v1 = bk_release(v).0;
        assert(v1.waiters == v.waiters.remove(i));
        law_releases_follow_leave_order(v1, (k - 1) as nat);
        assert(leave_order(v.waiters) == seq![v.waiters[i]] + leave_order(v1.waiters));
        law_leave_order_is_permutation(v1.waiters);
        if k < v.waiters.len() {
            assert(leave_order(v.waiters)[k as int] == leave_order(v1.waiters)[k - 1]);
        }
    } else {
        if v.waiters.len() > 0 {
            crate::prio_queue::law_pop_takes_earliest_highest(v.waiters);
            let i = first_min_index(v.waiters);
            assert(leave_order(v.waiters) == seq![v.waiters[i]] + leave_order(
                v.waiters.remove(i),
            ));
            assert(leave_order(v.waiters)[0] == v.waiters[i]);
        }
    }
}

/// All waiters of a taken mutex are handed the mutex in order of priority,
/// each exactly once: the order in which releases hand it over is a sorted
/// permutation of the waiters.
pub proof fn law_all_waiters_served_in_priority_order<W>(v: BookkeepingView<W>)
    requires
        bk_inv(v),
        !v.free,
    ensures
        leave_order(v.waiters).to_multiset() =~= v.waiters.to_multiset(),
        leave_order(v.waiters).len() == v.waiters.len(),
        forall|a: int, b: int|
            0 <= a <= b < v.waiters.len() ==> #[trigger] leave_order(v.waiters)[a].p
                <= #[trigger] leave_order(v.waiters)[b].p,
        forall|k: nat|
            k < v.waiters.len() ==> #[trigger] bk_release(after_releases(v, k)).1 == Some(
                leave_order(v.waiters)[k as int],
            ),
{
    law_leave_order_is_permutation(v.waiters);
    law_leave_order_sorted(v.waiters);
    assert forall|k: nat| k < v.waiters.len() implies #[trigger] bk_release(
        after_releases(v, k),
    ).1 == Some(leave_order(v.waiters)[k as int]) by {
        law_releases_follow_leave_order(v, k);
    }
}

} // verus!
