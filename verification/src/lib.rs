//! # filock
//!
//! The rules of thread-safe, closure-based file locking over `flock(2)`.
//!
//! A lock is held for exactly as long as one closure runs. This library decides
//! who gets a lock, who waits and for how long, in which order the kernel's lock
//! and the lock in the process are taken and given back, and what the caller is
//! told in the end. The calls into the system are made by the code around it.
//!
//! # Lock compatibility
//!
//! | Held \\ Requested | Shared    | Exclusive     |
//! |-------------------|-----------|---------------|
//! | None              | Grant     | Grant         |
//! | Shared (other)    | Grant     | Block         |
//! | Shared (self)     | Grant     | No upgrade    |
//! | Exclusive (other) | Block     | Block         |
//! | Exclusive (self)  | No down   | No re-entrant |
//!
//! # Modules
//!
//! - [`store`]: the lock manager and its table of locks
//! - [`file_locks`] and [`lock_info`]: the locks on one file, and who holds them
//! - [`operation`]: one operation under a lock, step by step
//! - [`resolve`] and [`path`]: which file a path names
//! - [`holder`], [`time`], [`fd`], [`flock`]: threads, spans of time, and what
//!   is asked of the system
//! - [`error`]: lock types and errors
//! - [`laws`]: what holds of all of this together

pub mod error;
pub mod fd;
pub mod file_locks;
pub mod flock;
pub mod holder;
pub mod laws;
pub mod lock_info;
pub mod operation;
pub mod path;
pub mod resolve;
pub mod store;
pub mod time;

pub use error::{FileLockError, LockType};
pub use holder::{HolderId, HolderIds};
pub use operation::{Action, Event, Mode, Operation, Outcome, Wake};
pub use resolve::{Resolution, ResolveAction, ResolveEvent};
pub use store::FileStore;
pub use time::Duration;

use vstd::prelude::*;

verus! {

/// Version of this crate.
pub const VERSION: &'static str = "0.1.0-alpha.1";

} // verus!
