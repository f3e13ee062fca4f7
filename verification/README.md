# filock

Thread-safe, closure-based file locking over `flock(2)`, with its rules
verified by Verus.

A lock is held for exactly as long as one closure runs. Readers share a file,
a writer has it alone, and other processes are kept out by the kernel's
advisory lock.

## Layout

- `src/` is the verified library. It decides who gets a lock, who waits and
  for how long, in which order the kernel's lock and the lock in the process
  are taken and given back, and what the caller is told. It makes no system
  call: an operation is a state machine that takes what has happened and says
  what to do next.
- `src/laws/` states what holds of all of this together: the compatibility
  table, mutual exclusion under every interleaving, that no lock leaks, that a
  release undoes a grant, that files are independent of each other, that no
  wake-up is lost and every call returns, that a deadline covers the whole wait,
  and what tries, panics and a shutdown lead to.
- `app/` is the ordinary Rust around the library: the mutex, the condition
  variable, files, `flock(2)` and closures.
- `tests/` runs the library.

## Lock compatibility

| Held \ Requested  | Shared       | Exclusive      |
|-------------------|--------------|----------------|
| None              | Grant        | Grant          |
| Shared (other)    | Grant        | Block          |
| Shared (self)     | Grant        | No upgrade     |
| Exclusive (other) | Block        | Block          |
| Exclusive (self)  | No downgrade | No re-entrance |

A thread that reads a file inside a read of the same file holds two locks and
counts as one holder; the outer lock outlives the inner one.

## What is trusted

The contracts of a few outside items are believed, each with a comment that
says what is claimed: the constants of `libc` in `src/flock.rs`, and the
printing and the making of errors by the standard library in `src/error.rs`.
