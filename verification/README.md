# priomutex

A mutex whose waiting threads name a priority (0 is the highest): when the
lock is released, the waiter that gave the highest priority takes it.

- `src/` is the verified library: the wait queue (`prio_queue`), the
  bookkeeping state machine of the blocking mutexes (`bookkeeping`), the
  channel-fed choice of the next thread (`with_prio`), the state word of the
  spin-only mutexes (`lock_word`), and the hashing that turns thread ids and
  passwords into state words (`hashing`).  Each module states its laws as
  public proof functions.
- `app/` holds the mutexes themselves: the shared cells, the atomics' retry
  loops, parking and waking threads.
- `tests/` runs the library on concrete values.
