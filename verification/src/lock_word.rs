use std::sync::atomic::AtomicBool;
use std::sync::atomic::AtomicUsize;
use std::sync::atomic::Ordering;
use vstd::prelude::*;

verus! {

/// The state word of a free lock: anyone may take it.
pub const STATE_FREE: usize = 0;

/// The state word of a held lock.
pub const STATE_LOCKED: usize = 1;

/// The state word while some thread checks whether a reservation is its own.
pub const STATE_CHECKING: usize = 2;

/// What a state word means.  Any word above `STATE_CHECKING` is a
/// reservation: the lock is free for whoever holds the key that hashes to it.
pub enum WordState {
    Free,
    Locked,
    Checking,
    Reserved(usize),
}

/// The meaning of a state word.
pub open spec fn decode(w: usize) -> WordState {
    if w == STATE_FREE {
        WordState::Free
    } else if w == STATE_LOCKED {
        WordState::Locked
    } else if w == STATE_CHECKING {
        WordState::Checking
    } else {
        WordState::Reserved(w)
    }
}

/// What a locking attempt does after reading the state word.
#[derive(PartialEq, Eq, Structural)]
pub enum Step {
    /// Replace the word `expected` by `new`, if it still holds.
    Swap { expected: usize, new: usize },
    /// Give up: the lock cannot be had now.
    Refuse,
    /// Read the word again: another thread is about to change it.
    Retry,
}

/// The plan of an attempt that takes the lock whether or not it is reserved:
/// a free or a reserved lock is taken, a held one refused, and a word under
/// check read again.
pub open spec fn spec_plan_lock_any(seen: usize) -> Step {
    match decode(seen) {
        WordState::Free => Step::Swap { expected: seen, new: STATE_LOCKED },
        WordState::Locked => Step::Refuse,
        WordState::Checking => Step::Retry,
        WordState::Reserved(_) => Step::Swap { expected: seen, new: STATE_LOCKED },
    }
}

/// The plan of an attempt by the holder of a key that hashes to `key_hash`:
/// a free lock is taken, a held one refused, a word under check read again; a
/// reservation whose word differs from the hash is refused, and one whose word
/// equals it is put under check, so that the key itself can be compared.
pub open spec fn spec_plan_lock_keyed(seen: usize, key_hash: usize) -> Step {
    match decode(seen) {
        WordState::Free => Step::Swap { expected: seen, new: STATE_LOCKED },
        WordState::Locked => Step::Refuse,
        WordState::Checking => Step::Retry,
        WordState::Reserved(h) => if h == key_hash {
            Step::Swap { expected: seen, new: STATE_CHECKING }
        } else {
            Step::Refuse
        },
    }
}

/// Computes `spec_plan_lock_any`.
pub fn plan_lock_any(seen: usize) -> (s: Step)
    ensures
        s == spec_plan_lock_any(seen),
{
    if seen == STATE_LOCKED {
        Step::Refuse
    } else if seen == STATE_CHECKING {
        Step::Retry
    } else {
        Step::Swap { expected: seen, new: STATE_LOCKED }
    }
}

/// Computes `spec_plan_lock_keyed`.
pub fn plan_lock_keyed(seen: usize, key_hash: usize) -> (s: Step)
    ensures
        s == spec_plan_lock_keyed(seen, key_hash),
{
    if seen == STATE_FREE {
        Step::Swap { expected: seen, new: STATE_LOCKED }
    } else if seen == STATE_LOCKED {
        Step::Refuse
    } else if seen == STATE_CHECKING {
        Step::Retry
    } else if seen == key_hash {
        Step::Swap { expected: seen, new: STATE_CHECKING }
    } else {
        Step::Refuse
    }
}

/// The word left after a check of the reservation `orig`.
pub open spec fn checked_word(orig: usize, matched: bool) -> usize {
    if matched {
        STATE_LOCKED
    } else {
        orig
    }
}

/// The word left by a release that names the key hash `key_hash`, if any.
pub open spec fn released_word(key_hash: Option<usize>) -> usize {
    match key_hash {
        Some(h) => h,
        None => STATE_FREE,
    }
}

/// The word to leave after a check of the reservation `orig`: the lock is
/// taken when the key matched, else the reservation is put back as it was.
pub fn word_after_check(orig: usize, matched: bool) -> (w: usize)
    ensures
        w == checked_word(orig, matched),
{
    if matched {
        STATE_LOCKED
    } else {
        orig
    }
}

/// The word that releasing the lock leaves: free when no key is named, else
/// the reservation for the key's hash.
pub fn release_word(key_hash: Option<usize>) -> (w: usize)
    ensures
        w == released_word(key_hash),
{
    match key_hash {
        Some(h) => h,
        None => STATE_FREE,
    }
}

/// The outcome of one locking attempt on a state word.
pub enum Attempt {
    /// The lock was taken from the word `seen`.
    Acquired { seen: usize },
    /// The lock cannot be had: the word `seen` refuses it.
    Refused { seen: usize },
    /// The reservation `orig` is now under check by this thread; compare the
    /// key, then call `finish_check`.
    Checking { orig: usize },
    /// The word `seen` was under check, or another thread changed it before
    /// the swap; try again.
    Retry { seen: usize },
}

/// The word that an attempt read.
pub open spec fn attempt_word(a: Attempt) -> usize {
    match a {
        Attempt::Acquired { seen } => seen,
        Attempt::Refused { seen } => seen,
        Attempt::Checking { orig } => orig,
        Attempt::Retry { seen } => seen,
    }
}

/// What an attempt returns, given the plan step it followed from the word
/// `seen` and, where that step is a swap, whether the swap took place: a
/// refused word gives `Refused`, a word to read again gives `Retry`, and a swap
/// gives `Acquired` (to LOCKED) or `Checking` (to CHECKING) when it took place
/// and `Retry` when the word had changed.
pub open spec fn spec_attempt_outcome(step: Step, seen: usize, swapped: bool) -> Attempt {
    match step {
        Step::Swap { new, .. } => if !swapped {
            Attempt::Retry { seen }
        } else if new == STATE_LOCKED {
            Attempt::Acquired { seen }
        } else {
            Attempt::Checking { orig: seen }
        },
        Step::Refuse => Attempt::Refused { seen },
        Step::Retry => Attempt::Retry { seen },
    }
}

/// Computes `spec_attempt_outcome`.
pub fn attempt_outcome(step: Step, seen: usize, swapped: bool) -> (r: Attempt)
    ensures
        r == spec_attempt_outcome(step, seen, swapped),
{
    match step {
        Step::Swap { new, .. } => {
            if !swapped {
                Attempt::Retry { seen }
            } else if new == STATE_LOCKED {
                Attempt::Acquired { seen }
            } else {
                Attempt::Checking { orig: seen }
            }
        },
        Step::Refuse => Attempt::Refused { seen },
        Step::Retry => Attempt::Retry { seen },
    }
}

/// One attempt to take the lock whether or not it is reserved: reads the word
/// and follows `spec_plan_lock_any`, swapping the word where the plan says
/// so.  What the word holds, and whether the swap finds it unchanged, depends
/// on other threads; the result is `spec_attempt_outcome` of the word read,
/// for the one or the other swap outcome.  vstd's specifications of the std
/// atomics carry no value, and this crate keeps no tracked permissions, so no
/// clause binds the word read to the atomic or the word written to the plan;
/// the arguments of the swap are stated exactly by `plan_lock_any`.
pub fn attempt_lock_any(state: &AtomicUsize) -> (r: Attempt)
    ensures
        r == spec_attempt_outcome(spec_plan_lock_any(attempt_word(r)), attempt_word(r), true)
            || r == spec_attempt_outcome(
            spec_plan_lock_any(attempt_word(r)),
            attempt_word(r),
            false,
        ),
        r matches Attempt::Retry { seen } ==> !(spec_plan_lock_any(seen) is Refuse),
        !(r is Checking),
{
    let seen = state.load(Ordering::SeqCst);
    let step = plan_lock_any(seen);
    let swapped = match step {
        Step::Swap { expected, new } => {
            match state.compare_exchange(expected, new, Ordering::SeqCst, Ordering::SeqCst) {
                Ok(_) => true,
                Err(_) => false,
            }
        },
        _ => false,
    };
    attempt_outcome(step, seen, swapped)
}

/// One attempt by the holder of a key that hashes to `key_hash`: reads the
/// word and follows `spec_plan_lock_keyed`, swapping the word where the plan
/// says so.  What the word holds, and whether the swap finds it unchanged,
/// depends on other threads; the result is `spec_attempt_outcome` of the word
/// read, for the one or the other swap outcome.  vstd's specifications of the
/// std atomics carry no value, and this crate keeps no tracked permissions, so
/// no clause binds the word read to the atomic or the word written to the
/// plan; the arguments of the swap are stated exactly by `plan_lock_keyed`.
pub fn attempt_lock_keyed(state: &AtomicUsize, key_hash: usize) -> (r: Attempt)
    ensures
        r == spec_attempt_outcome(
            spec_plan_lock_keyed(attempt_word(r), key_hash),
            attempt_word(r),
            true,
        ) || r == spec_attempt_outcome(
            spec_plan_lock_keyed(attempt_word(r), key_hash),
            attempt_word(r),
            false,
        ),
        r matches Attempt::Retry { seen } ==> !(spec_plan_lock_keyed(seen, key_hash) is Refuse),
{
    let seen = state.load(Ordering::SeqCst);
    let step = plan_lock_keyed(seen, key_hash);
    let swapped = match step {
        Step::Swap { expected, new } => {
            match state.compare_exchange(expected, new, Ordering::SeqCst, Ordering::SeqCst) {
                Ok(_) => true,
                Err(_) => false,
            }
        },
        _ => false,
    };
    attempt_outcome(step, seen, swapped)
}

/// Ends a check of the reservation `orig`: writes `word_after_check(orig,
/// matched)` and returns the word it replaced, which is `STATE_CHECKING` when
/// the lock is used as intended.  vstd's specifications of the std atomics
/// carry no value, and this crate keeps no tracked permissions, so no clause
/// binds the word written or the word returned; the word to write is stated
/// exactly by `word_after_check`.
pub fn finish_check(state: &AtomicUsize, orig: usize, matched: bool) -> (prev: usize) {
    let w = word_after_check(orig, matched);
    state.swap(w, Ordering::SeqCst)
}

/// Releasing through a guard of validity `valid`: the validity after, and the
/// word to write, if any.  A valid guard becomes invalid and writes the
/// released word; an invalid guard writes nothing.
pub open spec fn spec_release_decision(valid: bool, key_hash: Option<usize>) -> (bool, Option<
    usize,
>) {
    if valid {
        (false, Some(released_word(key_hash)))
    } else {
        (false, None)
    }
}

/// Decides what releasing through a guard writes: a valid guard becomes
/// invalid and is told to write `released_word(key_hash)`; an invalid guard is
/// told to write nothing, so the lock it once held is left alone.
pub fn release_decision(valid: &mut bool, key_hash: Option<usize>) -> (write: Option<usize>)
    ensures
        (*final(valid), write) == spec_release_decision(*old(valid), key_hash),
{
    if *valid {
        *valid = false;
        Some(release_word(key_hash))
    } else {
        None
    }
}

/// Releases a lock held through a guard whose validity is `valid`: writes the
/// word that `release_decision` gives, if any, and returns the word it
/// replaced, which is `STATE_LOCKED` when the lock is used as intended.  A
/// guard that is already invalid writes nothing.  vstd's specifications of the
/// std atomics carry no value, so no clause here can bind the word written or
/// the word returned; the decision itself is stated exactly by
/// `release_decision`.
pub fn release_word_lock(state: &AtomicUsize, valid: &mut bool, key_hash: Option<usize>) -> (prev:
    Option<usize>)
    ensures
        !*final(valid),
        prev is Some <==> *old(valid),
{
    match release_decision(valid, key_hash) {
        Some(w) => Some(state.swap(w, Ordering::SeqCst)),
        None => None,
    }
}

/// Tries to take a spin lock whose flag says whether it is free: clears the
/// flag and reports whether it was set.  The flag is shared with other
/// threads, so nothing is promised of the answer.
pub fn spin_try_acquire(is_free: &AtomicBool) -> bool {
    is_free.swap(false, Ordering::SeqCst)
}

/// Releases a spin lock held through a guard whose validity is `valid`: a
/// valid guard becomes invalid and sets the flag; an invalid one changes
/// nothing.  Returns whether the flag was set.  The decision is
/// `release_decision`'s; vstd's specifications of the std atomics carry no
/// value, so no clause binds what the flag holds.
pub fn spin_release(is_free: &AtomicBool, valid: &mut bool) -> (released: bool)
    ensures
        !*final(valid),
        released == *old(valid),
{
    match release_decision(valid, None) {
        Some(_) => {
            is_free.store(true, Ordering::SeqCst);
            true
        },
        None => false,
    }
}

/// Releasing twice through one guard writes once: the second release finds
/// the guard invalid and writes nothing, whatever key it names.
pub proof fn law_second_release_writes_nothing(valid: bool, first: Option<usize>, second: Option<
    usize,
>)
    ensures
        spec_release_decision(spec_release_decision(valid, first).0, second) == (false, None::<
            usize,
        >),
        valid ==> spec_release_decision(valid, first).1 == Some(released_word(first)),
{
}

/// A lock released without a key is free: every attempt, keyed or not,
/// takes it.
pub proof fn law_unreserved_release_is_free_for_all(key_hash: usize)
    ensures
        decode(released_word(None)) == WordState::Free,
        spec_plan_lock_any(released_word(None)) == (Step::Swap {
            expected: STATE_FREE,
            new: STATE_LOCKED,
        }),
        spec_plan_lock_keyed(released_word(None), key_hash) == (Step::Swap {
            expected: STATE_FREE,
            new: STATE_LOCKED,
        }),
{
}

/// A lock released to a key whose hash `h` is above `STATE_CHECKING` is a
/// reservation for that hash: a keyed attempt goes on to compare the key only
/// when its hash is `h`, and is refused otherwise; an attempt that ignores
/// reservations takes the lock.
pub proof fn law_reservation_admits_only_its_hash(h: usize, other: usize)
    requires
        h > STATE_CHECKING,
        other != h,
    ensures
        decode(released_word(Some(h))) == WordState::Reserved(h),
        spec_plan_lock_keyed(released_word(Some(h)), h) == (Step::Swap {
            expected: h,
            new: STATE_CHECKING,
        }),
        spec_plan_lock_keyed(released_word(Some(h)), other) == Step::Refuse,
        spec_plan_lock_any(released_word(Some(h))) == (Step::Swap {
            expected: h,
            new: STATE_LOCKED,
        }),
{
}

/// A check ends with the lock taken when the key matched, and with the
/// reservation put back unchanged when it did not.
pub proof fn law_check_takes_or_restores(orig: usize)
    requires
        orig > STATE_CHECKING,
    ensures
        checked_word(orig, true) == STATE_LOCKED,
        checked_word(orig, false) == orig,
        decode(checked_word(orig, false)) == WordState::Reserved(orig),
{
}

/// A held lock refuses every attempt, and a word under check makes every
/// attempt read again.
pub proof fn law_held_refuses_checking_waits(key_hash: usize)
    ensures
        spec_plan_lock_any(STATE_LOCKED) == Step::Refuse,
        spec_plan_lock_keyed(STATE_LOCKED, key_hash) == Step::Refuse,
        spec_plan_lock_any(STATE_CHECKING) == Step::Retry,
        spec_plan_lock_keyed(STATE_CHECKING, key_hash) == Step::Retry,
{
}

/// An attempt only ever moves the word to LOCKED or to CHECKING, and only
/// from the word it read.
pub proof fn law_attempts_move_to_locked_or_checking(seen: usize, key_hash: usize)
    ensures
        spec_plan_lock_any(seen) matches Step::Swap { expected, new } ==> expected == seen && new
            == STATE_LOCKED,
        spec_plan_lock_keyed(seen, key_hash) matches Step::Swap { expected, new } ==> expected
            == seen && (new == STATE_LOCKED || new == STATE_CHECKING),
        spec_plan_lock_keyed(seen, key_hash) matches Step::Swap { new, .. } ==> (new
            == STATE_CHECKING <==> seen > STATE_CHECKING),
{
}

} // verus!
