use priomutex::prio_queue::PrioQueue;
use priomutex::types::PV;
use priomutex::with_prio::{next_in_line, WithPrio};

fn drain(q: &mut PrioQueue<&'static str>) -> Vec<(usize, &'static str)> {
    let mut out = Vec::new();
    while let Some(x) = q.pop() {
        out.push((x.p, x.v));
    }
    out
}

#[test]
fn pop_on_empty_is_none() {
    let mut q: PrioQueue<u8> = PrioQueue::new();
    assert!(q.is_empty());
    assert_eq!(q.len(), 0);
    assert!(q.pop().is_none());
}

#[test]
fn pops_in_priority_order_and_fifo_for_ties() {
    let mut q = PrioQueue::new();
    q.push(PV { p: 5, v: "a" });
    q.push(PV { p: 1, v: "b" });
    q.push(PV { p: 3, v: "c" });
    q.push(PV { p: 1, v: "d" });
    q.push(PV { p: 0, v: "e" });
    assert_eq!(q.len(), 5);
    assert_eq!(drain(&mut q), vec![(0, "e"), (1, "b"), (1, "d"), (3, "c"), (5, "a")]);
    assert!(q.is_empty());
}

#[test]
fn strictly_best_arrival_leaves_next() {
    let mut q = PrioQueue::new();
    q.push(PV { p: 7, v: "x" });
    q.push(PV { p: 4, v: "y" });
    q.push(PV { p: 3, v: "z" });
    let first = q.pop().unwrap();
    assert_eq!((first.p, first.v), (3, "z"));
    assert_eq!(drain(&mut q), vec![(4, "y"), (7, "x")]);
}

#[test]
fn single_entry_leaves() {
    let mut q = PrioQueue::new();
    q.push(PV { p: usize::MAX, v: "only" });
    let x = q.pop().unwrap();
    assert_eq!((x.p, x.v), (usize::MAX, "only"));
    assert!(q.pop().is_none());
}

#[test]
fn next_in_line_merges_arrivals() {
    let mut q = PrioQueue::new();
    q.push(PV { p: 4, v: "waiting" });
    let arrivals = vec![
        WithPrio { prio: 9, inner: "late" },
        WithPrio { prio: 2, inner: "urgent" },
        WithPrio { prio: 2, inner: "urgent-too" },
    ];
    assert_eq!(next_in_line(&mut q, arrivals), Some("urgent"));
    assert_eq!(next_in_line(&mut q, vec![]), Some("urgent-too"));
    assert_eq!(next_in_line(&mut q, vec![WithPrio { prio: 4, inner: "tie" }]), Some("waiting"));
    assert_eq!(next_in_line(&mut q, vec![]), Some("tie"));
    assert_eq!(next_in_line(&mut q, vec![]), Some("late"));
    assert_eq!(next_in_line(&mut q, vec![]), None);
}

#[test]
fn pv_compares_by_priority_reversed() {
    let a = PV { p: 1usize, v: "a" };
    let b = PV { p: 2usize, v: "b" };
    let c = PV { p: 1usize, v: "c" };
    assert!(a == c);
    assert!(a != b);
    assert!(a > b);
    assert!(b < a);
    assert_eq!(a.partial_cmp(&b), Some(std::cmp::Ordering::Greater));
    assert_eq!(a.partial_cmp(&c), Some(std::cmp::Ordering::Equal));
}

#[test]
fn with_prio_compares_by_priority_reversed() {
    let a = WithPrio { prio: 0, inner: 'x' };
    let b = WithPrio { prio: 10, inner: 'y' };
    let c = WithPrio { prio: 0, inner: 'z' };
    assert!(a == c);
    assert!(a > b);
    assert_eq!(b.partial_cmp(&a), Some(std::cmp::Ordering::Less));
}
