//! Priority bookkeeping for a mutex whose waiting threads name a priority
//! (0 is the highest).  When the lock is released, the waiter that gave the
//! highest priority takes it.
//!
//! This crate holds the decisions that the lock makes; the blocking, the
//! parking and the shared cells live in the application around it.

pub mod internal;
pub mod types;
pub mod with_prio;
pub mod prio_queue;
pub mod bookkeeping;
pub mod hashing;
pub mod lock_word;
