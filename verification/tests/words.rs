use priomutex::hashing::{hash_pw, hash_tid, IdHasher, ThreadIdExtractor};
use priomutex::lock_word::{
    attempt_lock_any, attempt_lock_keyed, finish_check, plan_lock_any, plan_lock_keyed,
    release_decision, release_word, release_word_lock, spin_release, spin_try_acquire, word_after_check, Attempt,
    Step, STATE_CHECKING, STATE_FREE, STATE_LOCKED,
};
use std::sync::atomic::{AtomicBool, AtomicUsize, Ordering};

#[test]
fn plans() {
    assert!(plan_lock_any(STATE_FREE) == Step::Swap { expected: 0, new: 1 });
    assert!(plan_lock_any(STATE_LOCKED) == Step::Refuse);
    assert!(plan_lock_any(STATE_CHECKING) == Step::Retry);
    assert!(plan_lock_any(77) == Step::Swap { expected: 77, new: 1 });
    assert!(plan_lock_keyed(STATE_FREE, 77) == Step::Swap { expected: 0, new: 1 });
    assert!(plan_lock_keyed(STATE_LOCKED, 77) == Step::Refuse);
    assert!(plan_lock_keyed(STATE_CHECKING, 77) == Step::Retry);
    assert!(plan_lock_keyed(77, 77) == Step::Swap { expected: 77, new: 2 });
    assert!(plan_lock_keyed(78, 77) == Step::Refuse);
    assert_eq!(word_after_check(77, true), STATE_LOCKED);
    assert_eq!(word_after_check(77, false), 77);
    assert_eq!(release_word(None), STATE_FREE);
    assert_eq!(release_word(Some(99)), 99);
}

#[test]
fn reservation_round_trip() {
    let state = AtomicUsize::new(STATE_FREE);
    assert!(matches!(attempt_lock_keyed(&state, 50), Attempt::Acquired { seen: 0 }));
    assert!(matches!(attempt_lock_any(&state), Attempt::Refused { seen: 1 }));
    let mut valid = true;
    assert_eq!(release_word_lock(&state, &mut valid, Some(50)), Some(STATE_LOCKED));
    assert!(!valid);
    // releasing again does nothing
    assert_eq!(release_word_lock(&state, &mut valid, None), None);
    assert_eq!(state.load(Ordering::SeqCst), 50);
    // the wrong key is refused
    assert!(matches!(attempt_lock_keyed(&state, 51), Attempt::Refused { seen: 50 }));
    // the right hash goes on to a check
    assert!(matches!(attempt_lock_keyed(&state, 50), Attempt::Checking { orig: 50 }));
    assert_eq!(state.load(Ordering::SeqCst), STATE_CHECKING);
    assert!(matches!(attempt_lock_any(&state), Attempt::Retry { seen: 2 }));
    // a failed check puts the reservation back
    assert_eq!(finish_check(&state, 50, false), STATE_CHECKING);
    assert_eq!(state.load(Ordering::SeqCst), 50);
    assert!(matches!(attempt_lock_keyed(&state, 50), Attempt::Checking { orig: 50 }));
    assert_eq!(finish_check(&state, 50, true), STATE_CHECKING);
    assert_eq!(state.load(Ordering::SeqCst), STATE_LOCKED);
}

#[test]
fn taking_a_reserved_lock_anyway() {
    let state = AtomicUsize::new(1234);
    assert!(matches!(attempt_lock_any(&state), Attempt::Acquired { seen: 1234 }));
    assert_eq!(state.load(Ordering::SeqCst), STATE_LOCKED);
}

#[test]
fn spin_flag() {
    let flag = AtomicBool::new(true);
    assert!(spin_try_acquire(&flag));
    assert!(!spin_try_acquire(&flag));
    let mut valid = true;
    assert!(spin_release(&flag, &mut valid));
    assert!(!spin_release(&flag, &mut valid));
    assert!(spin_try_acquire(&flag));
}

#[test]
fn password_words() {
    // FNV-1a of "" and "foo" are 0xcbf29ce484222325 and 0xdcb27518fed9d577.
    assert_eq!(hash_pw(b"") as u64, 0xcbf29ce484222325u64 + 2);
    assert_eq!(hash_pw(b"foo") as u64, 0xdcb27518fed9d577u64 + 2);
    assert!(hash_pw(b"bar") >= 2);
}

#[test]
fn thread_words() {
    assert_eq!(hash_tid(0), 3);
    assert_eq!(hash_tid(7), 10);
    assert_eq!(hash_tid(u64::MAX), usize::MAX);
}

#[test]
fn id_hasher() {
    let mut h = IdHasher::new();
    assert_eq!(h.finish(), 0);
    h.write_u64(42);
    assert_eq!(h.finish(), 42);
    let mut g = IdHasher::new();
    g.write(&[1, 2]);
    let step1 = (0u64 ^ 1).wrapping_mul(0x100000001b3);
    let step2 = (step1 ^ 2).wrapping_mul(0x100000001b3);
    assert_eq!(g.finish(), step2);
    let mut e = ThreadIdExtractor::new();
    e.write_u64(9);
    assert_eq!(e.0, 9);
}

#[test]
fn split_writes_fold_like_one() {
    let mut a = IdHasher::new();
    a.write(b"chongo ");
    a.write(b"was here");
    let mut b = IdHasher::new();
    b.write(b"chongo was here");
    assert_eq!(a.finish(), b.finish());
}

#[test]
fn distinct_thread_words() {
    assert_ne!(hash_tid(7), hash_tid(8));
    assert!(hash_tid(12345) > STATE_CHECKING);
}

#[test]
fn thread_words_at_the_top() {
    assert_eq!(hash_tid((usize::MAX - 3) as u64), usize::MAX);
    assert_eq!(hash_tid((usize::MAX - 4) as u64), usize::MAX - 1);
}

#[test]
fn held_lock_refuses_keyed_attempts() {
    let state = AtomicUsize::new(STATE_LOCKED);
    assert!(matches!(attempt_lock_keyed(&state, 77), Attempt::Refused { seen: 1 }));
    assert!(matches!(attempt_lock_any(&state), Attempt::Refused { seen: 1 }));
    assert_eq!(state.load(Ordering::SeqCst), STATE_LOCKED);
}

#[test]
fn password_words_are_above_checking() {
    for pw in [&b""[..], b"a", b"foo", b"foobar", b"\0"] {
        assert!(hash_pw(pw) > STATE_CHECKING);
    }
}

#[test]
fn second_release_leaves_the_lock_alone() {
    let mut valid = true;
    assert_eq!(release_decision(&mut valid, Some(40)), Some(40));
    assert!(!valid);
    assert_eq!(release_decision(&mut valid, None), None);
    assert_eq!(release_decision(&mut valid, Some(40)), None);
    let mut valid2 = true;
    assert_eq!(release_decision(&mut valid2, None), Some(STATE_FREE));

    // a guard released once does not free the lock that another holds later
    let state = AtomicUsize::new(STATE_LOCKED);
    let mut g1 = true;
    assert_eq!(release_word_lock(&state, &mut g1, None), Some(STATE_LOCKED));
    assert!(matches!(attempt_lock_any(&state), Attempt::Acquired { seen: 0 }));
    assert_eq!(release_word_lock(&state, &mut g1, None), None);
    assert_eq!(state.load(Ordering::SeqCst), STATE_LOCKED);

    let flag = AtomicBool::new(false);
    let mut s1 = true;
    assert!(spin_release(&flag, &mut s1));
    assert!(spin_try_acquire(&flag));
    assert!(!spin_release(&flag, &mut s1));
    assert!(!flag.load(Ordering::SeqCst));
}
