use std::hash::Hasher;
use crate::lock_word::{
    decode, released_word, spec_plan_lock_any, spec_plan_lock_keyed, Step, WordState,
    STATE_CHECKING, STATE_LOCKED,
};
use vstd::prelude::*;

verus! {

/// The multiplier of the 64-bit Fowler–Noll–Vo hash.
pub const FNV_PRIME: u64 = 0x100000001b3;

/// The starting state of the 64-bit Fowler–Noll–Vo hash.
pub const FNV_OFFSET_BASIS: u64 = 0xcbf29ce484222325;

/// One step of the FNV-1a fold: xor the byte in, then multiply by the prime,
/// modulo 2^64.
pub open spec fn fnv_step(h: u64, b: u8) -> u64 {
    (((h ^ (b as u64)) as nat * FNV_PRIME as nat) % 0x1_0000_0000_0000_0000nat) as u64
}

/// The FNV-1a fold of `bytes`, starting from the state `h`.
pub open spec fn fnv_fold(h: u64, bytes: Seq<u8>) -> u64
    decreases bytes.len(),
{
    if bytes.len() == 0 {
        h
    } else {
        fnv_step(fnv_fold(h, bytes.drop_last()), bytes.last())
    }
}

/// Folding a concatenation is folding its parts one after the other: a hash
/// state fed in several writes equals one fed the whole stream at once.
pub proof fn lemma_fnv_fold_append(h: u64, a: Seq<u8>, b: Seq<u8>)
    ensures
        fnv_fold(h, a + b) == fnv_fold(fnv_fold(h, a), b),
    decreases b.len(),
{
    if b.len() == 0 {
        assert(a + b =~= a);
    } else {
        lemma_fnv_fold_append(h, a, b.drop_last());
        assert((a + b).drop_last() =~= a + b.drop_last());
        assert((a + b).last() == b.last());
    }
}

/// 64-bit FNV-1a of `bytes`, computed by the `fnv` crate: a fresh
/// `fnv::FnvHasher` (`Default::default`, state `0xcbf29ce484222325`) is fed
/// the bytes with `Hasher::write` and read with `Hasher::finish`.  The contract
/// claims that the result is the FNV-1a fold of the bytes from that state,
/// which is what the crate's `write` loop computes.
#[verifier::external_body]
fn fnv_hash(bytes: &[u8]) -> (h: u64)
    ensures
        h == fnv_fold(FNV_OFFSET_BASIS, bytes@),
{
    let mut hasher = fnv::FnvHasher::default();
    hasher.write(bytes);
    hasher.finish()
}

/// `x + k`, saturating at `usize::MAX`.
pub open spec fn saturating_plus(x: usize, k: usize) -> usize {
    if x + k > usize::MAX {
        usize::MAX
    } else {
        (x + k) as usize
    }
}

/// The state word of a password whose `Hash` impl feeds the bytes `fed`: its
/// FNV-1a hash, taken as a `usize`, plus 2, saturating; a hash of 0, which
/// would give the CHECKING word, gives the word just above it instead.
pub open spec fn pw_word(fed: Seq<u8>) -> usize {
    let x = fnv_fold(FNV_OFFSET_BASIS, fed) as usize;
    if x == 0 {
        (STATE_CHECKING + 1) as usize
    } else {
        saturating_plus(x, 2)
    }
}

/// The state word of a thread whose id hashes to `id_hash`.
pub open spec fn tid_word(id_hash: u64) -> usize {
    saturating_plus(id_hash as usize, 3)
}

/// Hashes a password, given the byte stream that its `Hash` impl feeds a
/// hasher, to a word greater than 2, so that it is never the FREE, LOCKED or
/// CHECKING state word.
pub fn hash_pw(fed: &[u8]) -> (w: usize)
    ensures
        w == pw_word(fed@),
        w > STATE_CHECKING,
{
    let h = fnv_hash(fed);
    let x = h as usize;
    if x == 0 {
        STATE_CHECKING + 1
    } else {
        x.saturating_add(2)
    }
}

/// The hasher that turns a thread id into a number: a `u64` written to it is
/// taken as it is; bytes are folded in with the FNV-1a step from state 0.
pub struct IdHasher {
    pub state: u64,
}

impl IdHasher {
    /// A hasher in state 0.
    pub fn new() -> (h: Self)
        ensures
            h.state == 0,
    {
        IdHasher { state: 0 }
    }

    /// Takes the `u64` as the state.
    pub fn write_u64(&mut self, x: u64)
        ensures
            final(self).state == x,
    {
        self.state = x;
    }

    /// Folds the bytes into the state.
    pub fn write(&mut self, xs: &[u8])
        ensures
            final(self).state == fnv_fold(old(self).state, xs@),
    {
        let ghost start = self.state;
        let n = xs.len();
        let mut i: usize = 0;
        while i < n
            invariant
                n == xs@.len(),
                i <= n,
                self.state == fnv_fold(start, xs@.take(i as int)),
            decreases n - i,
        {
            assert(xs@.take(i as int + 1).drop_last() =~= xs@.take(i as int));
            let b = xs[i];
            self.state = self.state ^ (b as u64);
            self.state = self.state.wrapping_mul(0x100000001b3);
            i = i + 1;
        }
        assert(xs@.take(n as int) =~= xs@);
    }

    /// The state.
    pub fn finish(&self) -> (h: u64)
        ensures
            h == self.state,
    {
        self.state
    }
}

/// Turns what a thread id hashes to under `IdHasher` into a RESERVED state
/// word: the hash plus 3, saturating, so that it is never FREE, LOCKED or
/// CHECKING.
pub fn hash_tid(id_hash: u64) -> (w: usize)
    ensures
        w == tid_word(id_hash),
        w >= 3,
{
    let x = id_hash as usize;
    x.saturating_add(3)
}

/// Holds the `u64` that a thread id writes when it is hashed.
pub struct ThreadIdExtractor(pub u64);

impl ThreadIdExtractor {
    /// An extractor holding 0.
    pub fn new() -> (e: Self)
        ensures
            e.0 == 0,
    {
        ThreadIdExtractor(0)
    }

    /// Keeps the written `u64`.
    pub fn write_u64(&mut self, i: u64)
        ensures
            final(self).0 == i,
    {
        self.0 = i;
    }
}

/// A thread's word is always a reservation for itself, never FREE, LOCKED
/// or CHECKING.
pub proof fn law_thread_word_is_reservation(id_hash: u64)
    ensures
        tid_word(id_hash) > STATE_CHECKING,
        decode(tid_word(id_hash)) == WordState::Reserved(tid_word(id_hash)),
{
}

/// Distinct thread hashes up to `usize::MAX - 3` give distinct words.
pub proof fn law_thread_words_distinct(a: u64, b: u64)
    requires
        a <= usize::MAX - 3,
        b <= usize::MAX - 3,
        a != b,
    ensures
        tid_word(a) != tid_word(b),
{
}

/// A password's word is greater than 2: never FREE, LOCKED nor CHECKING, but
/// always a reservation.
pub proof fn law_password_word_is_reservation(fed: Seq<u8>)
    ensures
        pw_word(fed) > STATE_CHECKING,
        decode(pw_word(fed)) == WordState::Reserved(pw_word(fed)),
{
}

/// A lock released under a password admits only attempts whose password has
/// the same word: such an attempt goes on to compare the password itself,
/// any other keyed attempt is refused, and an attempt that ignores passwords
/// takes the lock.
pub proof fn law_protected_release_admits_only_its_password(pw: Seq<u8>, attempt: Seq<u8>)
    ensures
        decode(released_word(Some(pw_word(pw)))) == WordState::Reserved(pw_word(pw)),
        spec_plan_lock_keyed(released_word(Some(pw_word(pw))), pw_word(pw)) == (Step::Swap {
            expected: pw_word(pw),
            new: STATE_CHECKING,
        }),
        pw_word(attempt) != pw_word(pw) ==> spec_plan_lock_keyed(
            released_word(Some(pw_word(pw))),
            pw_word(attempt),
        ) == Step::Refuse,
        spec_plan_lock_any(released_word(Some(pw_word(pw)))) == (Step::Swap {
            expected: pw_word(pw),
            new: STATE_LOCKED,
        }),
{
}

} // verus!
