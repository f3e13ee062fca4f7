//! The threads that hold a lock on one file.

use crate::error::LockType;
use crate::holder::HolderId;
use std::collections::HashMap;
use vstd::prelude::*;

verus! {

broadcast use vstd::std_specs::hash::group_hash_axioms;

/// Whether a lock of type `requested` can be held beside one of type `held`,
/// by the same thread or by another.
pub open spec fn compatible(held: LockType, requested: LockType) -> bool {
    held is Shared && requested is Shared
}

/// Whether a lock of type `requested` can be granted beside the locks of
/// `holders`.
pub open spec fn grantable(holders: Map<u64, LockType>, requested: LockType) -> bool {
    forall|h: u64| #[trigger] holders.contains_key(h) ==> compatible(holders[h], requested)
}

/// The effective lock type: exclusive if any holder has an exclusive lock,
/// shared otherwise, none without a holder.
pub open spec fn effective_type(holders: Map<u64, LockType>) -> Option<LockType> {
    if holders.dom().is_empty() {
        None
    } else if exists|h: u64| #[trigger] holders.contains_key(h) && holders[h] is Exclusive {
        Some(LockType::Exclusive)
    } else {
        Some(LockType::Shared)
    }
}

/// Per-file lock state.
#[derive(Debug)]
pub struct FileLockInfo {
    /// The lock type that each thread holds.
    holders: HashMap<u64, LockType>,
    /// The effective lock type.
    effective: Option<LockType>,
}

/// The lock type that each thread holds.
impl View for FileLockInfo {
    type V = Map<u64, LockType>;

    closed spec fn view(&self) -> Map<u64, LockType> {
        self.holders@
    }
}

impl FileLockInfo {
    /// The effective lock type that is on record.
    pub closed spec fn recorded(self) -> Option<LockType> {
        self.effective
    }

    /// There are finitely many holders, and the record of their effective lock
    /// type is right.
    pub open spec fn wf(self) -> bool {
        self@.dom().finite() && self.recorded() == effective_type(self@)
    }

    /// A file that no thread has locked.
    pub fn new() -> (r: FileLockInfo)
        ensures
            r.wf(),
            r@ == Map::<u64, LockType>::empty(),
    {
        let r = FileLockInfo { holders: HashMap::new(), effective: None };
        assert(r@.dom() =~= Set::empty());
        r
    }

    /// Whether a lock of type `requested` can be granted to `requester` now.
    ///
    /// A lock of the requester counts like one of any other thread: a second
    /// shared lock is granted, but no upgrade, no downgrade and no second
    /// exclusive lock.
    pub fn can_grant(&self, requested: LockType, _requester: HolderId) -> (r: bool)
        ensures
            r == grantable(self@, requested),
    {
        if self.holders.is_empty() {
            return true;
        }
        for entry in it: self.holders.iter()
            invariant
                self@ == self.holders@,
                forall|j: int|
                    0 <= j < it.index() ==> compatible(*(#[trigger] it.seq()[j]).1, requested),
        {
            let held: LockType = *entry.1;
            assert(self@.contains_key(*entry.0) && self@[*entry.0] == held);
            if !(held == LockType::Shared && requested == LockType::Shared) {
                return false;
            }
        }
        true
    }

    /// Put on record that `holder` has a lock of type `lock_type`.
    pub fn add_holder(&mut self, holder: HolderId, lock_type: LockType)
        requires
            old(self).wf(),
        ensures
            final(self).wf(),
            final(self)@ == old(self)@.insert(holder.id(), lock_type),
    {
        self.holders.insert(holder.number(), lock_type);
        self.effective = self.strongest();
    }

    /// Put on record that `holder` has no lock any more.
    pub fn remove_holder(&mut self, holder: &HolderId)
        requires
            old(self).wf(),
        ensures
            final(self).wf(),
            final(self)@ == old(self)@.remove(holder.id()),
    {
        let id: u64 = holder.number();
        self.holders.remove(&id);
        assert(self@ =~= old(self)@.remove(id));
        self.effective = self.strongest();
    }

    /// The effective lock type of the locks that are there.
    fn strongest(&self) -> (r: Option<LockType>)
        ensures
            r == effective_type(self@),
    {
        if self.holders.is_empty() {
            assert(self@.dom() =~= Set::empty());
            return None;
        }
        for entry in it: self.holders.iter()
            invariant
                self@ == self.holders@,
                forall|j: int| 0 <= j < it.index() ==> *(#[trigger] it.seq()[j]).1 is Shared,
        {
            if *entry.1 != LockType::Shared {
                assert(self@.contains_key(*entry.0));
                return Some(LockType::Exclusive);
            }
        }
        Some(LockType::Shared)
    }

    /// Whether `holder` has a lock.
    pub fn holds(&self, holder: &HolderId) -> (r: bool)
        ensures
            r == self@.contains_key(holder.id()),
    {
        let id: u64 = holder.number();
        self.holders.contains_key(&id)
    }

    /// Whether no thread holds a lock.
    pub fn is_empty(&self) -> (r: bool)
        ensures
            r == self@.dom().is_empty(),
    {
        self.holders.is_empty()
    }

    /// How many threads hold a lock.
    pub fn holder_count(&self) -> (r: usize)
        ensures
            r == self@.dom().len(),
    {
        self.holders.len()
    }

    /// The effective lock type.
    pub fn effective(&self) -> (r: Option<LockType>)
        requires
            self.wf(),
        ensures
            r == effective_type(self@),
    {
        self.effective
    }
}

} // verus!
