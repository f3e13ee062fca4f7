//! Who holds a lock.

use vstd::prelude::*;

verus! {

/// Opaque identifier of a thread.
///
/// Identifiers are counted up, one for each thread, so no two threads share
/// one and none is used again after its thread has ended.
#[derive(Debug, Clone, Copy, PartialEq, Eq, Hash)]
pub struct HolderId(u64);

/// The counter that identifiers are taken from.
#[derive(Debug)]
pub struct HolderIds {
    next: u64,
}

impl HolderIds {
    /// The number that the next thread gets.
    pub closed spec fn next(self) -> u64 {
        self.next
    }

    /// A counter that no thread has taken an identifier from.
    pub fn new() -> (r: HolderIds)
        ensures
            r.next() == 1,
    {
        HolderIds { next: 1 }
    }

    /// Whether no identifier is left.
    pub fn exhausted(&self) -> (r: bool)
        ensures
            r == (self.next() == u64::MAX),
    {
        self.next == u64::MAX
    }
}

impl HolderId {
    /// The number behind the identifier.
    pub closed spec fn id(self) -> u64 {
        self.0
    }

    /// The number behind the identifier.
    pub(crate) fn number(&self) -> (r: u64)
        ensures
            r == self.id(),
    {
        self.0
    }

    /// The identifier of the current thread, where `slot` is the thread's own
    /// place to keep it: empty until the thread first asks.
    pub fn current(ids: &mut HolderIds, slot: &mut Option<HolderId>) -> (r: HolderId)
        requires
            *old(slot) is None ==> old(ids).next() < u64::MAX,
        ensures
            *final(slot) == Some(r),
            *old(slot) matches Some(known) ==> r == known && *final(ids) == *old(ids),
            *old(slot) is None ==> r.id() == old(ids).next() && final(ids).next() == old(ids).next()
                + 1,
    {
        match *slot {
            Some(known) => known,
            None => {
                let fresh = HolderId(ids.next);
                ids.next = ids.next + 1;
                *slot = Some(fresh);
                fresh
            },
        }
    }
}

} // verus!
