use std::cmp::Ordering;
use crate::prio_queue::{first_min_index, PrioQueue};
use crate::types::PV;
use vstd::prelude::*;
use vstd::std_specs::cmp::PartialEqSpecImpl;
use vstd::std_specs::cmp::PartialOrdSpecImpl;

verus! {

/// Tags a term with a priority.  Comparisons look at the priority only, and
/// reversed: the smaller priority value is the greater item.
#[derive(Debug)]
pub struct WithPrio<T> {
    pub prio: usize,
    pub inner: T,
}

impl<T> PartialEq for WithPrio<T> {
    fn eq(&self, other: &WithPrio<T>) -> (r: bool) {
        other.prio == self.prio
    }
}

impl<T> PartialEqSpecImpl for WithPrio<T> {
    open spec fn obeys_eq_spec() -> bool {
        true
    }

    open spec fn eq_spec(&self, other: &WithPrio<T>) -> bool {
        other.prio == self.prio
    }
}

impl<T> Eq for WithPrio<T> {

}

impl<T> PartialOrd for WithPrio<T> {
    fn partial_cmp(&self, other: &WithPrio<T>) -> (r: Option<Ordering>) {
        other.prio.partial_cmp(&self.prio)
    }
}

impl<T> PartialOrdSpecImpl for WithPrio<T> {
    open spec fn obeys_partial_cmp_spec() -> bool {
        true
    }

    open spec fn partial_cmp_spec(&self, other: &WithPrio<T>) -> Option<Ordering> {
        if other.prio < self.prio {
            Some(Ordering::Less)
        } else if other.prio == self.prio {
            Some(Ordering::Equal)
        } else {
            Some(Ordering::Greater)
        }
    }
}

/// The queue entry of a tagged term: its priority and the term.
pub open spec fn as_entry<T>(x: WithPrio<T>) -> PV<usize, T> {
    PV { p: x.prio, v: x.inner }
}

/// The queue entries of tagged terms, in the same order.
pub open spec fn as_entries<T>(xs: Seq<WithPrio<T>>) -> Seq<PV<usize, T>> {
    xs.map_values(|x: WithPrio<T>| as_entry(x))
}

/// A tagged term enters the line with its own priority and term, one entry
/// per term, in order.
pub proof fn law_as_entries_keep_priorities<T>(xs: Seq<WithPrio<T>>)
    ensures
        as_entries(xs).len() == xs.len(),
        forall|k: int|
            0 <= k < xs.len() ==> (#[trigger] as_entries(xs)[k]).p == xs[k].prio
                && as_entries(xs)[k].v == xs[k].inner,
{
}

/// The term chosen for the mutex has a priority at least as high (a number at
/// most as small) as every waiting entry and every arrival; it is a waiting
/// entry's or an arrival's own term, and no earlier one has the same
/// priority.
pub proof fn law_next_in_line_picks_highest<T>(w: Seq<PV<usize, T>>, xs: Seq<WithPrio<T>>)
    requires
        w.len() + xs.len() > 0,
    ensures
        ({
            let s = w + as_entries(xs);
            let i = first_min_index(s);
            &&& 0 <= i < w.len() + xs.len()
            &&& forall|j: int| 0 <= j < w.len() ==> s[i].p <= #[trigger] w[j].p
            &&& forall|k: int| 0 <= k < xs.len() ==> s[i].p <= #[trigger] xs[k].prio
            &&& i < w.len() ==> s[i] == w[i]
            &&& i >= w.len() ==> s[i].p == xs[i - w.len()].prio && s[i].v == xs[i - w.len()].inner
            &&& forall|j: int| 0 <= j < w.len() && j < i ==> s[i].p < #[trigger] w[j].p
            &&& forall|k: int| 0 <= k < xs.len() && w.len() + k < i ==> s[i].p
                < #[trigger] xs[k].prio
        }),
{
    let s = w + as_entries(xs);
    law_as_entries_keep_priorities(xs);
    crate::prio_queue::law_pop_takes_earliest_highest(s);
    let i = first_min_index(s);
    assert forall|j: int| 0 <= j < w.len() implies s[i].p <= #[trigger] w[j].p by {
        assert(s[j] == w[j]);
    }
    assert forall|k: int| 0 <= k < xs.len() implies s[i].p <= #[trigger] xs[k].prio by {
        assert(s[w.len() + k] == as_entries(xs)[k]);
    }
    assert forall|j: int| 0 <= j < w.len() && j < i implies s[i].p < #[trigger] w[j].p by {
        assert(s[j] == w[j]);
    }
    assert forall|k: int| 0 <= k < xs.len() && w.len() + k < i implies s[i].p
        < #[trigger] xs[k].prio by {
        assert(s[w.len() + k] == as_entries(xs)[k]);
    }
    if i >= w.len() {
        assert(s[i] == as_entries(xs)[i - w.len()]);
    }
}

/// Chooses who takes a mutex that is being released: the terms that arrived
/// since the last choice join the line behind the waiting ones, in arrival
/// order; then the earliest of the highest priority leaves the line and is
/// returned.  `None` when no one waits.
pub fn next_in_line<T>(heap: &mut PrioQueue<T>, arrivals: Vec<WithPrio<T>>) -> (next: Option<T>)
    ensures
        ({
            let s = old(heap)@ + as_entries(arrivals@);
            &&& s.len() == 0 ==> next is None && final(heap)@ == s
            &&& s.len() > 0 ==> {
                let i = first_min_index(s);
                &&& next == Some(s[i].v)
                &&& final(heap)@ == s.remove(i)
            }
        }),
{
    let ghost start = heap@;
    let ghost all = arrivals@;
    let n = arrivals.len();
    let mut rest = arrivals;
    let mut k: usize = 0;
    while rest.len() > 0
        invariant
            k <= all.len(),
            all.len() == n,
            rest@ == all.skip(k as int),
            heap@ == start + as_entries(all.take(k as int)),
        decreases rest.len(),
    {
        let x = rest.remove(0);
        proof {
            assert(all.take(k as int + 1) =~= all.take(k as int).push(x));
            assert(as_entries(all.take(k as int + 1)) =~= as_entries(all.take(k as int)).push(
                as_entry(x),
            ));
            assert(rest@ =~= all.skip(k as int + 1));
        }
        heap.push(PV { p: x.prio, v: x.inner });
        k = k + 1;
    }
    proof {
        assert(all.take(k as int) =~= all);
    }
    match heap.pop() {
        Some(x) => Some(x.v),
        None => None,
    }
}

} // verus!
