//! All the locks on one file, those of nested reads among them.
//!
//! A thread that reads a file inside a read of the same file has two locks on
//! it. It is one holder, and stays one until both are given back.

use crate::error::LockType;
use crate::holder::HolderId;
use crate::lock_info::{effective_type, grantable, FileLockInfo};
use vstd::multiset::Multiset;
use vstd::prelude::*;

verus! {

/// The locks on one file.
///
/// `holders` gives each thread that holds a lock the type of its lock.
/// `nested` holds a thread once for each shared lock that it holds beyond the
/// first.
#[verifier::ext_equal]
pub struct FileView {
    pub holders: Map<u64, LockType>,
    pub nested: Multiset<u64>,
}

impl FileView {
    /// No lock at all.
    pub open spec fn empty() -> FileView {
        FileView { holders: Map::empty(), nested: Multiset::empty() }
    }

    /// An exclusive lock stands alone, and only a thread with a shared lock
    /// holds more than one.
    pub open spec fn valid(self) -> bool {
        &&& self.holders.dom().finite()
        &&& forall|h: u64, other: u64|
            #![trigger self.holders[h], self.holders.contains_key(other)]
            self.holders.contains_key(h) && self.holders[h] is Exclusive
                && self.holders.contains_key(other) ==> other == h
        &&& forall|h: u64| #[trigger]
            self.nested.count(h) > 0 ==> self.holders.contains_key(h) && self.holders[h] is Shared
    }

    /// Whether a lock of type `requested` can be granted now.
    pub open spec fn can_grant(self, requested: LockType) -> bool {
        grantable(self.holders, requested)
    }

    /// The locks once `holder` has got one more, of type `lock_type`.
    pub open spec fn with_holder(self, holder: u64, lock_type: LockType) -> FileView {
        if self.holders.contains_key(holder) {
            FileView { holders: self.holders, nested: self.nested.insert(holder) }
        } else {
            FileView { holders: self.holders.insert(holder, lock_type), nested: self.nested }
        }
    }

    /// The locks once `holder` has given one back.
    pub open spec fn without_holder(self, holder: u64) -> FileView {
        if self.nested.count(holder) > 0 {
            FileView { holders: self.holders, nested: self.nested.remove(holder) }
        } else {
            FileView { holders: self.holders.remove(holder), nested: self.nested }
        }
    }

    /// The effective lock type.
    pub open spec fn effective(self) -> Option<LockType> {
        effective_type(self.holders)
    }
}

/// The locks on one file.
#[derive(Debug)]
pub struct FileLocks {
    info: FileLockInfo,
    /// One entry for each lock that a thread holds beyond its first.
    nested: Vec<u64>,
}

impl View for FileLocks {
    type V = FileView;

    closed spec fn view(&self) -> FileView {
        FileView { holders: self.info@, nested: self.nested@.to_multiset() }
    }
}

impl FileLocks {
    /// What holds of the record of the holders.
    pub closed spec fn recorded(self) -> bool {
        self.info.wf()
    }

    /// The locks go together, and the record of the holders is right.
    pub open spec fn wf(self) -> bool {
        self@.valid() && self.recorded()
    }

    /// A file that no thread has locked.
    pub fn new() -> (r: FileLocks)
        ensures
            r.wf(),
            r@ == FileView::empty(),
    {
        let r = FileLocks { info: FileLockInfo::new(), nested: Vec::new() };
        proof {
            vstd::seq_lib::to_multiset_len(r.nested@);
            assert(r@.nested =~= Multiset::empty());
        }
        r
    }

    /// Who holds a lock, and of which type.
    pub fn info(&self) -> (r: &FileLockInfo)
        requires
            self.wf(),
        ensures
            r.wf(),
            r@ == self@.holders,
    {
        &self.info
    }

    /// Give `holder` a lock of type `lock_type`.
    pub fn add(&mut self, holder: HolderId, lock_type: LockType)
        requires
            old(self).wf(),
            old(self)@.can_grant(lock_type),
        ensures
            final(self).wf(),
            final(self)@ == old(self)@.with_holder(holder.id(), lock_type),
    {
        let ghost before = self@;
        if self.info.holds(&holder) {
            let ghost nested = self.nested@;
            self.nested.push(holder.number());
            proof {
                vstd::seq_lib::to_multiset_build(nested, holder.id());
            }
        } else {
            self.info.add_holder(holder, lock_type);
        }
        assert(self@ =~= before.with_holder(holder.id(), lock_type));
        proof {
            lemma_with_holder(before, holder.id(), lock_type);
        }
    }

    /// Take one lock back from `holder`.
    pub fn remove(&mut self, holder: &HolderId)
        requires
            old(self).wf(),
        ensures
            final(self).wf(),
            final(self)@ == old(self)@.without_holder(holder.id()),
    {
        let id: u64 = holder.number();
        let ghost before = self@;
        let ghost nested = self.nested@;
        let mut i: usize = 0;
        while i < self.nested.len() && self.nested[i] != id
            invariant
                i <= self.nested@.len(),
                self.nested@ == nested,
                self.info == old(self).info,
                forall|j: int| 0 <= j < i ==> nested[j] != id,
            decreases self.nested@.len() - i,
        {
            i = i + 1;
        }
        proof {
            vstd::seq_lib::to_multiset_contains(nested, id);
        }
        if i < self.nested.len() {
            assert(nested.contains(id));
            self.nested.remove(i);
            proof {
                vstd::seq_lib::to_multiset_remove(nested, i as int);
            }
        } else {
            assert(!nested.contains(id));
            self.info.remove_holder(holder);
        }
        assert(self@ =~= before.without_holder(id));
        proof {
            lemma_without_holder(before, id);
        }
    }
}

/// A granted lock keeps the locks of a file valid.
pub proof fn lemma_with_holder(file: FileView, holder: u64, lock_type: LockType)
    requires
        file.valid(),
        file.can_grant(lock_type),
    ensures
        file.with_holder(holder, lock_type).valid(),
{
}

/// A lock that is given back leaves the locks of a file valid.
pub proof fn lemma_without_holder(file: FileView, holder: u64)
    requires
        file.valid(),
    ensures
        file.without_holder(holder).valid(),
{
}

} // verus!
