//! The operations and error codes of `flock(2)`.

use crate::error::LockType;
use vstd::prelude::*;

verus! {

/// Reads `libc::LOCK_SH`, the operation that takes a shared lock. The constant
/// is 1 on every system for which the crate defines it.
#[verifier::external_body]
fn lock_sh() -> (r: i32)
    ensures
        r == 1,
{
    libc::LOCK_SH
}

/// Reads `libc::LOCK_EX`, the operation that takes an exclusive lock. The
/// constant is 2 on every system for which the crate defines it.
#[verifier::external_body]
fn lock_ex() -> (r: i32)
    ensures
        r == 2,
{
    libc::LOCK_EX
}

/// Reads `libc::LOCK_NB`, the flag that keeps the call from blocking. The
/// constant is 4 on every system for which the crate defines it.
#[verifier::external_body]
fn lock_nb() -> (r: i32)
    ensures
        r == 4,
{
    libc::LOCK_NB
}

/// The values that `libc::EWOULDBLOCK` and `libc::EAGAIN` have together on the
/// systems for which the crate defines the operations of `flock(2)`: 6 on
/// Emscripten, 11 on Linux and most others, 35 on the BSDs and on Apple's
/// systems, one large number each on the Hurd and on Haiku, and two codes that
/// differ on Redox alone.
pub open spec fn known_codes(would_block: i32, again: i32) -> bool {
    ||| would_block == again && (again == 6 || again == 11 || again == 35 || again == 1_073_741_859
        || again == -2_147_483_637)
    ||| would_block == 41 && again == 11
}

/// Reads `libc::EWOULDBLOCK` and `libc::EAGAIN`, in this order. The codes differ
/// between systems; which of the known ones they are here is left unsaid.
#[verifier::external_body]
fn system_codes() -> (r: (i32, i32))
    ensures
        known_codes(r.0, r.1),
{
    (libc::EWOULDBLOCK, libc::EAGAIN)
}

/// The operation that takes a lock of type `lock_type`: 1 for a shared and 2
/// for an exclusive one, and 4 more where the call must not block.
pub open spec fn operation(lock_type: LockType, blocking: bool) -> i32 {
    match (lock_type, blocking) {
        (LockType::Shared, true) => 1,
        (LockType::Exclusive, true) => 2,
        (LockType::Shared, false) => 5,
        (LockType::Exclusive, false) => 6,
    }
}

/// The operation to hand to `flock(2)` for a lock of type `lock_type`.
pub fn flock_operation(lock_type: LockType, blocking: bool) -> (r: i32)
    ensures
        r == operation(lock_type, blocking),
{
    let base: i32 = match lock_type {
        LockType::Shared => lock_sh(),
        LockType::Exclusive => lock_ex(),
    };
    if blocking {
        base
    } else {
        let flag: i32 = lock_nb();
        assert(1i32 | 4i32 == 5i32) by (bit_vector);
        assert(2i32 | 4i32 == 6i32) by (bit_vector);
        base | flag
    }
}

/// The codes by which the system says that a lock is taken.
#[derive(Debug, Clone, Copy, PartialEq, Eq, Structural)]
pub struct BusyCodes {
    pub would_block: i32,
    pub again: i32,
}

impl BusyCodes {
    /// Whether `code` says that a lock is taken.
    pub open spec fn says_busy(self, code: Option<i32>) -> bool {
        code == Some(self.would_block) || code == Some(self.again)
    }

    /// The codes of this system.
    pub fn of_system() -> (r: BusyCodes)
        ensures
            known_codes(r.would_block, r.again),
    {
        let (would_block, again): (i32, i32) = system_codes();
        BusyCodes { would_block, again }
    }

    /// Whether `code`, the system's code for a failed call, says that the lock
    /// is taken.
    pub fn busy(&self, code: Option<i32>) -> (r: bool)
        ensures
            r == self.says_busy(code),
    {
        match code {
            Some(c) => c == self.would_block || c == self.again,
            None => false,
        }
    }
}

} // verus!
