use std::cmp::Ordering;
use vstd::prelude::*;
use vstd::std_specs::cmp::PartialEqSpec;
use vstd::std_specs::cmp::PartialEqSpecImpl;
use vstd::std_specs::cmp::PartialOrdSpec;
use vstd::std_specs::cmp::PartialOrdSpecImpl;

verus! {

/// A value `V` with a priority `P`.  Comparisons look at `P` only, and
/// reversed: the item with the smaller priority value is the greater one,
/// so that a max-first queue yields the highest priority (lowest number) first.
#[derive(Debug, Clone)]
pub struct PV<P, V> {
    pub p: P,
    pub v: V,
}

impl<P: PartialEq, V> PartialEq for PV<P, V> {
    fn eq(&self, other: &PV<P, V>) -> (r: bool) {
        other.p == self.p
    }
}

impl<P: PartialEq, V> PartialEqSpecImpl for PV<P, V> {
    open spec fn obeys_eq_spec() -> bool {
        P::obeys_eq_spec()
    }

    open spec fn eq_spec(&self, other: &PV<P, V>) -> bool {
        other.p.eq_spec(&self.p)
    }
}

impl<P: Eq, V> Eq for PV<P, V> {

}

impl<P: PartialOrd, V> PartialOrd for PV<P, V> {
    fn partial_cmp(&self, other: &PV<P, V>) -> (r: Option<Ordering>) {
        other.p.partial_cmp(&self.p)
    }
}

impl<P: PartialOrd, V> PartialOrdSpecImpl for PV<P, V> {
    open spec fn obeys_partial_cmp_spec() -> bool {
        P::obeys_partial_cmp_spec()
    }

    open spec fn partial_cmp_spec(&self, other: &PV<P, V>) -> Option<Ordering> {
        other.p.partial_cmp_spec(&self.p)
    }
}

/// Whether `T`'s `==` follows its `eq_spec`.
pub open spec fn eq_obeyed<T: PartialEq>() -> bool {
    T::obeys_eq_spec()
}

/// Whether `T`'s `partial_cmp` follows its `partial_cmp_spec`.
pub open spec fn order_obeyed<T: PartialOrd>() -> bool {
    T::obeys_partial_cmp_spec()
}

/// For every priority type, equality and order of two `PV`s look at their
/// priorities only, and the order is the priorities' order reversed; `PV`
/// follows the specs of `==` and `partial_cmp` exactly where `P` does.
pub proof fn law_pv_compares_priorities_reversed<P: PartialOrd, V>(a: PV<P, V>, b: PV<P, V>)
    ensures
        eq_obeyed::<PV<P, V>>() == eq_obeyed::<P>(),
        PartialEqSpec::eq_spec(&a, &b) == PartialEqSpec::eq_spec(&b.p, &a.p),
        order_obeyed::<PV<P, V>>() == order_obeyed::<P>(),
        PartialOrdSpec::partial_cmp_spec(&a, &b) == PartialOrdSpec::partial_cmp_spec(&b.p, &a.p),
{
}

/// With `usize` priorities: two `PV`s are equal exactly when their priorities
/// are, whatever their values, and the one with the smaller priority number
/// is the greater.
pub proof fn law_pv_usize_order<V>(a: PV<usize, V>, b: PV<usize, V>)
    ensures
        eq_obeyed::<PV<usize, V>>(),
        order_obeyed::<PV<usize, V>>(),
        PartialEqSpec::eq_spec(&a, &b) <==> a.p == b.p,
        a.p < b.p ==> PartialOrdSpec::partial_cmp_spec(&a, &b) == Some(Ordering::Greater),
        a.p == b.p ==> PartialOrdSpec::partial_cmp_spec(&a, &b) == Some(Ordering::Equal),
        a.p > b.p ==> PartialOrdSpec::partial_cmp_spec(&a, &b) == Some(Ordering::Less),
{
}

} // verus!
