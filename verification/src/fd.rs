//! How the file of an operation is opened.
//!
//! Each operation opens its own file descriptor, so each has a lock of its own
//! from `flock(2)`.

use vstd::prelude::*;

verus! {

/// The mode of a file that is created to be locked: its owner may read and
/// write it, all others may read it.
pub const CREATE_MODE: u32 = 0o644u32;

/// How to open a file.
#[derive(Debug, Clone, Copy, PartialEq, Eq, Structural)]
pub struct OpenOptions {
    /// Open it for reading.
    pub read: bool,
    /// Open it for writing.
    pub write: bool,
    /// Create it with this mode if it does not exist.
    pub create: Option<u32>,
}

/// How to open a file to lock it: for reading and writing, and if `create`
/// says so also where it does not exist yet.
pub open spec fn lock_options(create: bool) -> OpenOptions {
    OpenOptions {
        read: true,
        write: true,
        create: if create {
            Some(CREATE_MODE)
        } else {
            None
        },
    }
}

/// How to open a file suitable for flock operations.
///
/// Opens with read and write access. If `create` is true, creates the file
/// with mode 0o644 if it does not exist.
pub fn open_for_lock(create: bool) -> (r: OpenOptions)
    ensures
        r == lock_options(create),
{
    OpenOptions {
        read: true,
        write: true,
        create: if create {
            Some(CREATE_MODE)
        } else {
            None
        },
    }
}

} // verus!
