use crate::types::PV;
use vstd::prelude::*;

verus! {

/// The position of the entry that leaves first: the earliest of the entries
/// with the smallest priority value.
pub open spec fn first_min_index<V>(s: Seq<PV<usize, V>>) -> int
    decreases s.len(),
{
    if s.len() <= 1 {
        0
    } else {
        let k = first_min_index(s.drop_last());
        if s.last().p < s[k].p {
            s.len() - 1
        } else {
            k
        }
    }
}

/// `i` holds a smallest priority of `s`, and no earlier entry holds it.
pub open spec fn is_first_min<V>(s: Seq<PV<usize, V>>, i: int) -> bool {
    &&& 0 <= i < s.len()
    &&& forall|j: int| 0 <= j < s.len() ==> s[i].p <= #[trigger] s[j].p
    &&& forall|j: int| 0 <= j < i ==> s[i].p < #[trigger] s[j].p
}

/// `first_min_index` picks the earliest entry of smallest priority.
pub proof fn lemma_first_min_index<V>(s: Seq<PV<usize, V>>)
    requires
        s.len() > 0,
    ensures
        is_first_min(s, first_min_index(s)),
    decreases s.len(),
{
    if s.len() > 1 {
        let t = s.drop_last();
        lemma_first_min_index(t);
        assert forall|j: int| 0 <= j < t.len() implies t[j] == s[j] by {}
    }
}

/// The entry at a first-minimal position is unique: any position that is
/// first-minimal is the one `first_min_index` names.
pub proof fn lemma_first_min_unique<V>(s: Seq<PV<usize, V>>, i: int)
    requires
        is_first_min(s, i),
    ensures
        i == first_min_index(s),
{
    lemma_first_min_index(s);
    let k = first_min_index(s);
    if i < k {
        assert(s[k].p < s[i].p);
        assert(s[k].p <= s[i].p);
    } else if k < i {
        assert(s[i].p < s[k].p);
        assert(s[i].p <= s[k].p);
    }
}

/// The entry that leaves a non-empty queue has the highest priority of all
/// its entries (the smallest number), and every entry that arrived before it
/// has a strictly lower priority (a larger number): equal priorities leave in
/// arrival order.
pub proof fn law_pop_takes_earliest_highest<V>(s: Seq<PV<usize, V>>)
    requires
        s.len() > 0,
    ensures
        ({
            let i = first_min_index(s);
            &&& 0 <= i < s.len()
            &&& forall|j: int| 0 <= j < s.len() ==> s[i].p <= #[trigger] s[j].p
            &&& forall|j: int| 0 <= j < i ==> s[i].p < #[trigger] s[j].p
        }),
{
    lemma_first_min_index(s);
}

/// Waiters leave in order of priority: of two entries that leave one after
/// the other, with no arrival between them, the first has a priority at least
/// as high (a number at most as large) as the second.
pub proof fn law_successive_pops_in_order<V>(s: Seq<PV<usize, V>>)
    requires
        s.len() >= 2,
    ensures
        ({
            let i = first_min_index(s);
            let t = s.remove(i);
            s[i].p <= t[first_min_index(t)].p
        }),
{
    lemma_first_min_index(s);
    let i = first_min_index(s);
    let t = s.remove(i);
    lemma_first_min_index(t);
    let j = first_min_index(t);
    if j < i {
        assert(t[j] == s[j]);
    } else {
        assert(t[j] == s[j + 1]);
    }
}

/// An entry pushed onto an empty queue is the one that leaves it.
pub proof fn law_single_entry_leaves<V>(x: PV<usize, V>)
    ensures
        first_min_index(seq![x]) == 0,
{
}

/// An entry that arrives with a priority strictly higher (a number strictly
/// smaller) than every waiting entry is the next to leave.
pub proof fn law_strictly_best_arrival_leaves_next<V>(s: Seq<PV<usize, V>>, x: PV<usize, V>)
    requires
        forall|j: int| 0 <= j < s.len() ==> x.p < #[trigger] s[j].p,
    ensures
        first_min_index(s.push(x)) == s.len(),
{
    let t = s.push(x);
    assert forall|j: int| 0 <= j < t.len() implies t[s.len() as int].p <= #[trigger] t[j].p by {
        if j < s.len() {
            assert(t[j] == s[j]);
        }
    }
    assert forall|j: int| 0 <= j < s.len() implies t[s.len() as int].p < #[trigger] t[j].p by {
        assert(t[j] == s[j]);
    }
    lemma_first_min_unique(t, s.len() as int);
}

/// The order in which the entries of `s` leave when the queue is popped until
/// it is empty, with no arrival in between.
pub open spec fn leave_order<V>(s: Seq<PV<usize, V>>) -> Seq<PV<usize, V>>
    decreases s.len(),
{
    if s.len() == 0 {
        Seq::empty()
    } else {
        let i = first_min_index(s);
        proof {
            lemma_first_min_index(s);
        }
        seq![s[i]] + leave_order(s.remove(i))
    }
}

/// Every entry leaves exactly once: the leaving order is a permutation of the
/// entries.
pub proof fn law_leave_order_is_permutation<V>(s: Seq<PV<usize, V>>)
    ensures
        leave_order(s).len() == s.len(),
        leave_order(s).to_multiset() =~= s.to_multiset(),
    decreases s.len(),
{
    broadcast use vstd::seq_lib::group_to_multiset_ensures;
    broadcast use vstd::multiset::group_multiset_axioms;

    if s.len() == 0 {
        assert(leave_order(s) =~= s);
    } else {
        lemma_first_min_index(s);
        let i = first_min_index(s);
        let t = s.remove(i);
        law_leave_order_is_permutation(t);
        vstd::seq_lib::lemma_multiset_commutative(seq![s[i]], leave_order(t));
        assert(seq![s[i]] =~= Seq::<PV<usize, V>>::empty().push(s[i]));
        assert(s.to_multiset().count(s[i]) > 0) by {
            assert(s.contains(s[i]));
        }
    }
}

/// The leaving order is sorted by priority: no entry leaves before one of a
/// higher priority (a smaller number).
pub proof fn law_leave_order_sorted<V>(s: Seq<PV<usize, V>>)
    ensures
        forall|a: int, b: int|
            0 <= a <= b < leave_order(s).len() ==> #[trigger] leave_order(s)[a].p
                <= #[trigger] leave_order(s)[b].p,
    decreases s.len(),
{
    broadcast use vstd::seq_lib::group_to_multiset_ensures;

    if s.len() > 0 {
        lemma_first_min_index(s);
        let i = first_min_index(s);
        let t = s.remove(i);
        let lo = leave_order(s);
        let rest = leave_order(t);
        law_leave_order_sorted(t);
        law_leave_order_is_permutation(t);
        assert(lo == seq![s[i]] + rest);
        assert forall|k: int| 0 <= k < rest.len() implies s[i].p <= #[trigger] rest[k].p by {
            let e = rest[k];
            assert(rest.contains(e));
            assert(rest.to_multiset().count(e) > 0);
            assert(t.to_multiset().count(e) > 0);
            assert(t.contains(e));
            let j = choose|j: int| 0 <= j < t.len() && t[j] == e;
            if j < i {
                assert(t[j] == s[j]);
            } else {
                assert(t[j] == s[j + 1]);
            }
        }
        assert forall|a: int, b: int| 0 <= a <= b < lo.len() implies #[trigger] lo[a].p
            <= #[trigger] lo[b].p by {
            if a == 0 {
                if b > 0 {
                    assert(lo[b] == rest[b - 1]);
                }
            } else {
                assert(lo[a] == rest[a - 1]);
                assert(lo[b] == rest[b - 1]);
            }
        }
    }
}

/// A queue of waiters ordered by priority (0 is the highest).  Entries of
/// equal priority leave in the order in which they arrived.
#[derive(Debug)]
pub struct PrioQueue<V> {
    items: Vec<PV<usize, V>>,
}

impl<V> View for PrioQueue<V> {
    type V = Seq<PV<usize, V>>;

    /// The entries in the order in which they arrived.
    closed spec fn view(&self) -> Seq<PV<usize, V>> {
        self.items@
    }
}

impl<V> PrioQueue<V> {
    /// An empty queue.
    pub fn new() -> (q: Self)
        ensures
            q@ == Seq::<PV<usize, V>>::empty(),
    {
        PrioQueue { items: Vec::new() }
    }

    /// The number of waiting entries.
    pub fn len(&self) -> (n: usize)
        ensures
            n == self@.len(),
    {
        self.items.len()
    }

    /// Whether no entry waits.
    pub fn is_empty(&self) -> (b: bool)
        ensures
            b == (self@.len() == 0),
    {
        self.items.len() == 0
    }

    /// Adds an entry behind all the present ones.
    pub fn push(&mut self, item: PV<usize, V>)
        ensures
            final(self)@ == old(self)@.push(item),
    {
        self.items.push(item);
    }

    /// Removes and returns the earliest entry of the highest priority, or
    /// `None` when the queue is empty.
    pub fn pop(&mut self) -> (r: Option<PV<usize, V>>)
        ensures
            old(self)@.len() == 0 ==> r is None && final(self)@ == old(self)@,
            old(self)@.len() > 0 ==> {
                let i = first_min_index(old(self)@);
                &&& is_first_min(old(self)@, i)
                &&& r == Some(old(self)@[i])
                &&& final(self)@ == old(self)@.remove(i)
            },
    {
        let n = self.items.len();
        if n == 0 {
            return None;
        }
        let mut best: usize = 0;
        let mut i: usize = 1;
        while i < n
            invariant
                self.items@ == old(self)@,
                n == self.items.len(),
                1 <= i <= n,
                best < i,
                best == first_min_index(self.items@.take(i as int)),
            decreases n - i,
        {
            let ghost s = self.items@;
            assert(s.take(i as int + 1).drop_last() =~= s.take(i as int));
            proof {
                lemma_first_min_index(s.take(i as int));
            }
            if self.items[i].p < self.items[best].p {
                best = i;
            }
            i = i + 1;
        }
        assert(self.items@.take(n as int) =~= self.items@);
        proof {
            lemma_first_min_index(self.items@);
        }
        Some(self.items.remove(best))
    }
}

} // verus!
