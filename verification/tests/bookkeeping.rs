use priomutex::bookkeeping::Bookkeeping;

#[test]
fn test_single_thread() {
    let mut bk: Bookkeeping<u32> = Bookkeeping::new();
    for _prio in 0..5usize {
        assert!(bk.try_acquire());
        assert!(bk.release().is_none());
        assert!(bk.is_free());
    }
}

#[test]
fn in_order_handover() {
    let mut bk = Bookkeeping::new();
    assert!(bk.try_acquire());
    let prios: [usize; 6] = [usize::MAX, 17, 3, 42, 0, 17];
    for (i, p) in prios.iter().enumerate() {
        assert!(!bk.try_acquire());
        bk.enqueue(*p, i);
    }
    assert_eq!(bk.num_waiting(), 6);
    let mut woken = Vec::new();
    while let Some(x) = bk.release() {
        assert!(!bk.is_free());
        woken.push((x.p, x.v));
    }
    assert_eq!(woken, vec![(0, 4), (3, 2), (17, 1), (17, 5), (42, 3), (usize::MAX, 0)]);
    assert!(bk.is_free());
}

#[test]
fn no_unfair_advantage() {
    let mut bk = Bookkeeping::new();
    assert!(bk.try_acquire());
    bk.enqueue(0, "waiter");
    let next = bk.release().unwrap();
    assert_eq!(next.v, "waiter");
    for _ in 0..100 {
        assert!(!bk.try_acquire(), "try_lock succeeded when there was a thread waiting!");
    }
    assert!(bk.release().is_none());
    assert!(bk.try_acquire());
}

#[test]
fn yield_to_best_picks_best_including_self() {
    let mut bk = Bookkeeping::new();
    assert!(bk.try_acquire());
    bk.enqueue(5, "five");
    bk.enqueue(2, "two");
    let x = bk.yield_to_best(3, "three");
    assert_eq!((x.p, x.v), (2, "two"));
    let y = bk.yield_to_best(1, "one");
    assert_eq!((y.p, y.v), (1, "one"));
    assert_eq!(bk.num_waiting(), 2);
    assert_eq!(bk.release().unwrap().v, "three");
    assert_eq!(bk.release().unwrap().v, "five");
    assert!(bk.release().is_none());
    assert!(bk.is_free());
}
