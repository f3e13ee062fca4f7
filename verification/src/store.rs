//! The lock manager: which thread holds which lock on which file.

use crate::error::LockType;
use crate::file_locks::{FileLocks, FileView};
use crate::flock::{known_codes, BusyCodes};
use crate::holder::HolderId;
use crate::operation::Wake;
use crate::path::{copy, path_key, same_path, PathKey};
use vstd::prelude::*;

verus! {

/// The state of a store.
///
/// `locks` has an entry for each file that a thread holds a lock on, and for
/// no other.
#[verifier::ext_equal]
pub struct StoreView {
    pub root: Seq<u8>,
    pub locks: Map<PathKey, FileView>,
    pub busy: BusyCodes,
    pub shutdown: bool,
}

impl StoreView {
    /// The locks of each file go together, and no file without a lock has an
    /// entry.
    pub open spec fn valid(self) -> bool {
        forall|key: PathKey| #[trigger]
            self.locks.contains_key(key) ==> self.locks[key].valid()
                && !self.locks[key].holders.dom().is_empty()
    }

    /// The locks on the file that `key` names.
    pub open spec fn file(self, key: PathKey) -> FileView {
        if self.locks.contains_key(key) {
            self.locks[key]
        } else {
            FileView::empty()
        }
    }

    /// The store once `holder` has got a lock on a file.
    pub open spec fn granted(self, key: PathKey, holder: u64, lock_type: LockType) -> StoreView {
        StoreView {
            locks: self.locks.insert(key, self.file(key).with_holder(holder, lock_type)),
            ..self
        }
    }

    /// The store once `holder` has given a lock on a file back.
    pub open spec fn released(self, key: PathKey, holder: u64) -> StoreView {
        let after = self.file(key).without_holder(holder);
        if !self.locks.contains_key(key) {
            self
        } else if after.holders.dom().is_empty() {
            StoreView { locks: self.locks.remove(key), ..self }
        } else {
            StoreView { locks: self.locks.insert(key, after), ..self }
        }
    }

    /// The store once it has begun to go away.
    pub open spec fn shut_down(self) -> StoreView {
        StoreView { shutdown: true, ..self }
    }

    /// Whether all waiting threads must be woken when `holder` gives a lock on
    /// the file back, and not just one: if a lock on the file was exclusive, or
    /// if none is left.
    pub open spec fn wakes_all(self, key: PathKey, holder: u64) -> bool {
        self.locks.contains_key(key) ==> self.locks[key].effective() == Some(LockType::Exclusive)
            || self.locks[key].without_holder(holder).holders.dom().is_empty()
    }
}

/// The locks on one file.
#[derive(Debug)]
struct LockEntry {
    path: Vec<u8>,
    locks: FileLocks,
}

/// The central lock manager for file access.
///
/// Files are named by their resolved paths.
#[derive(Debug)]
pub struct FileStore {
    root: Vec<u8>,
    locks: Vec<LockEntry>,
    busy: BusyCodes,
    shutdown: bool,
}

spec fn key_at(entries: Seq<LockEntry>, i: int) -> PathKey {
    path_key(entries[i].path@)
}

spec fn has_key(entries: Seq<LockEntry>, key: PathKey) -> bool {
    exists|i: int| 0 <= i < entries.len() && #[trigger] key_at(entries, i) == key
}

spec fn position(entries: Seq<LockEntry>, key: PathKey) -> int {
    choose|i: int| 0 <= i < entries.len() && #[trigger] key_at(entries, i) == key
}

spec fn table(entries: Seq<LockEntry>) -> Map<PathKey, FileView> {
    Map::new(
        |key: PathKey| has_key(entries, key),
        |key: PathKey| entries[position(entries, key)].locks@,
    )
}

/// No file has two entries, and each entry holds a lock.
spec fn entries_wf(entries: Seq<LockEntry>) -> bool {
    &&& forall|i: int, j: int|
        0 <= i < entries.len() && 0 <= j < entries.len() && #[trigger] key_at(entries, i)
            == #[trigger] key_at(entries, j) ==> i == j
    &&& forall|i: int|
        #![trigger entries[i]]
        0 <= i < entries.len() ==> entries[i].locks.wf()
            && !entries[i].locks@.holders.dom().is_empty()
}

proof fn lemma_table_at(entries: Seq<LockEntry>, i: int)
    requires
        entries_wf(entries),
        0 <= i < entries.len(),
    ensures
        table(entries).contains_key(key_at(entries, i)),
        table(entries)[key_at(entries, i)] == entries[i].locks@,
{
    let key = key_at(entries, i);
    assert(has_key(entries, key));
    let p = position(entries, key);
    assert(0 <= p < entries.len() && key_at(entries, p) == key);
}

proof fn lemma_table_valid(entries: Seq<LockEntry>)
    requires
        entries_wf(entries),
    ensures
        forall|key: PathKey| #[trigger]
            table(entries).contains_key(key) ==> table(entries)[key].valid() && !table(
                entries,
            )[key].holders.dom().is_empty(),
{
    assert forall|key: PathKey| #[trigger] table(entries).contains_key(key) implies table(
        entries,
    )[key].valid() && !table(entries)[key].holders.dom().is_empty() by {
        let i = position(entries, key);
        assert(0 <= i < entries.len() && key_at(entries, i) == key);
        assert(entries[i].locks.wf());
    }
}

/// A new entry for a file that has none is a new entry of the table.
proof fn lemma_table_push(entries: Seq<LockEntry>, entry: LockEntry)
    requires
        entries_wf(entries),
        entry.locks.wf(),
        !entry.locks@.holders.dom().is_empty(),
        !has_key(entries, path_key(entry.path@)),
    ensures
        entries_wf(entries.push(entry)),
        table(entries.push(entry)) == table(entries).insert(path_key(entry.path@), entry.locks@),
{
    let after = entries.push(entry);
    let key = path_key(entry.path@);
    assert forall|i: int, j: int|
        0 <= i < after.len() && 0 <= j < after.len() && #[trigger] key_at(after, i)
            == #[trigger] key_at(after, j) implies i == j by {
        if i < entries.len() {
            assert(key_at(entries, i) == key_at(after, i));
        }
        if j < entries.len() {
            assert(key_at(entries, j) == key_at(after, j));
        }
    }
    assert(entries_wf(after));
    lemma_table_at(after, entries.len() as int);
    assert forall|k: PathKey| table(after).contains_key(k) == #[trigger] table(entries).insert(
        key,
        entry.locks@,
    ).contains_key(k) by {
        if has_key(entries, k) {
            let i = position(entries, k);
            assert(key_at(after, i) == k);
        }
        if has_key(after, k) {
            let i = position(after, k);
            if i < entries.len() {
                assert(key_at(entries, i) == k);
            }
        }
    }
    assert forall|k: PathKey| #[trigger] table(after).contains_key(k) implies table(after)[k]
        == table(entries).insert(key, entry.locks@)[k] by {
        let i = position(after, k);
        if i < entries.len() {
            assert(key_at(entries, i) == k);
            lemma_table_at(entries, i);
        }
    }
    assert(table(after) =~= table(entries).insert(key, entry.locks@));
}

/// New locks in an entry are new locks in the table.
proof fn lemma_table_update(before: Seq<LockEntry>, after: Seq<LockEntry>, at: int)
    requires
        entries_wf(before),
        0 <= at < before.len(),
        after.len() == before.len(),
        after[at].path@ == before[at].path@,
        after[at].locks.wf(),
        !after[at].locks@.holders.dom().is_empty(),
        forall|i: int| 0 <= i < before.len() && i != at ==> after[i] == before[i],
    ensures
        entries_wf(after),
        table(after) == table(before).insert(key_at(before, at), after[at].locks@),
{
    assert forall|i: int| 0 <= i < before.len() implies #[trigger] key_at(after, i) == key_at(
        before,
        i,
    ) by {}
    assert(entries_wf(after));
    let key = key_at(before, at);
    assert forall|k: PathKey| table(after).contains_key(k) == #[trigger] table(before).insert(
        key,
        after[at].locks@,
    ).contains_key(k) by {
        if has_key(before, k) {
            let i = position(before, k);
            assert(key_at(after, i) == k);
        }
        if has_key(after, k) {
            let i = position(after, k);
            assert(key_at(before, i) == k);
        }
        assert(key_at(after, at) == key);
    }
    assert forall|k: PathKey| #[trigger] table(after).contains_key(k) implies table(after)[k]
        == table(before).insert(key, after[at].locks@)[k] by {
        let i = position(after, k);
        assert(key_at(before, i) == k);
        lemma_table_at(before, i);
    }
    assert(table(after) =~= table(before).insert(key, after[at].locks@));
}

/// An entry that goes takes its file out of the table.
proof fn lemma_table_remove(entries: Seq<LockEntry>, at: int)
    requires
        entries_wf(entries),
        0 <= at < entries.len(),
    ensures
        entries_wf(entries.remove(at)),
        table(entries.remove(at)) == table(entries).remove(key_at(entries, at)),
{
    let after = entries.remove(at);
    let key = key_at(entries, at);
    assert forall|i: int| 0 <= i < after.len() implies #[trigger] key_at(after, i) == key_at(
        entries,
        if i < at {
            i
        } else {
            i + 1
        },
    ) by {}
    assert forall|i: int|
        #![trigger after[i]]
        0 <= i < after.len() implies after[i].locks.wf()
        && !after[i].locks@.holders.dom().is_empty() by {
        let j = if i < at {
            i
        } else {
            i + 1
        };
        assert(after[i] == entries[j]);
    }
    assert(entries_wf(after));
    assert forall|k: PathKey| table(after).contains_key(k) == #[trigger] table(entries).remove(
        key,
    ).contains_key(k) by {
        if has_key(entries, k) && k != key {
            let i = position(entries, k);
            let j = if i < at {
                i
            } else {
                i - 1
            };
            assert(i != at);
            assert(key_at(after, j) == k);
        }
        if has_key(after, k) {
            let i = position(after, k);
            let j = if i < at {
                i
            } else {
                i + 1
            };
            assert(key_at(entries, j) == k);
        }
    }
    assert forall|k: PathKey| #[trigger] table(after).contains_key(k) implies table(after)[k]
        == table(entries).remove(key)[k] by {
        let i = position(after, k);
        let j = if i < at {
            i
        } else {
            i + 1
        };
        assert(key_at(entries, j) == k);
        lemma_table_at(entries, j);
    }
    assert(table(after) =~= table(entries).remove(key));
}

impl View for FileStore {
    type V = StoreView;

    closed spec fn view(&self) -> StoreView {
        StoreView {
            root: self.root@,
            locks: table(self.locks@),
            busy: self.busy,
            shutdown: self.shutdown,
        }
    }
}

impl FileStore {
    /// What holds of every store.
    pub closed spec fn wf(self) -> bool {
        entries_wf(self.locks@)
    }

    /// The state of every store is valid, so the laws hold of it.
    pub proof fn law_state_is_valid(self)
        requires
            self.wf(),
        ensures
            self@.valid(),
    {
        lemma_table_valid(self.locks@);
    }

    /// A store rooted at the directory `root`, which must be a canonical path.
    pub fn new(root: Vec<u8>) -> (r: FileStore)
        ensures
            r.wf(),
            r@.root == root@,
            r@.locks == Map::<PathKey, FileView>::empty(),
            !r@.shutdown,
            known_codes(r@.busy.would_block, r@.busy.again),
    {
        let r = FileStore {
            root,
            locks: Vec::new(),
            busy: BusyCodes::of_system(),
            shutdown: false,
        };
        assert(r@.locks =~= Map::<PathKey, FileView>::empty());
        r
    }

    /// The root directory of this store.
    pub fn root(&self) -> (r: &[u8])
        ensures
            r@ == self@.root,
    {
        self.root.as_slice()
    }

    /// Where the entry of a file stands.
    fn find(&self, path: &[u8]) -> (r: Option<usize>)
        requires
            self.wf(),
        ensures
            match r {
                Some(i) => 0 <= i < self.locks@.len() && key_at(self.locks@, i as int) == path_key(
                    path@,
                ),
                None => !has_key(self.locks@, path_key(path@)),
            },
    {
        let mut i: usize = 0;
        while i < self.locks.len()
            invariant
                i <= self.locks@.len(),
                forall|j: int|
                    0 <= j < i ==> #[trigger] key_at(self.locks@, j) != path_key(path@),
            decreases self.locks@.len() - i,
        {
            if same_path(self.locks[i].path.as_slice(), path) {
                return Some(i);
            }
            i = i + 1;
        }
        None
    }

    /// Whether a lock of type `lock_type` on a file can be granted to `holder`
    /// now.
    pub fn can_grant(&self, path: &[u8], lock_type: LockType, holder: HolderId) -> (r: bool)
        requires
            self.wf(),
        ensures
            r == self@.file(path_key(path@)).can_grant(lock_type),
    {
        match self.find(path) {
            Some(i) => {
                proof {
                    lemma_table_at(self.locks@, i as int);
                }
                self.locks[i].locks.info().can_grant(lock_type, holder)
            },
            None => true,
        }
    }

    /// Give `holder` a lock on a file.
    pub(crate) fn grant(&mut self, path: &[u8], holder: HolderId, lock_type: LockType)
        requires
            old(self).wf(),
            old(self)@.file(path_key(path@)).can_grant(lock_type),
        ensures
            final(self).wf(),
            final(self)@ == old(self)@.granted(path_key(path@), holder.id(), lock_type),
    {
        let ghost before = self.locks@;
        let ghost key = path_key(path@);
        match self.find(path) {
            Some(i) => {
                proof {
                    lemma_table_at(before, i as int);
                }
                self.locks[i].locks.add(holder, lock_type);
                proof {
                    let after = self.locks@;
                    assert(after[i as int].locks@.holders.contains_key(holder.id()));
                    lemma_table_update(before, after, i as int);
                }
            },
            None => {
                let mut locks = FileLocks::new();
                locks.add(holder, lock_type);
                assert(locks@.holders.contains_key(holder.id()));
                let entry = LockEntry { path: copy(path), locks };
                proof {
                    lemma_table_push(before, entry);
                }
                self.locks.push(entry);
            },
        }
        assert(self@ =~= old(self)@.granted(key, holder.id(), lock_type));
    }

    /// Take a lock on a file back from `holder`. The result says whether all
    /// waiting threads must be woken, and not just one.
    ///
    /// All are woken if the lock was exclusive, since several waiting readers
    /// may be able to go on, and if no lock on the file is left, since the one
    /// thread that is woken may wait for another file. Where others keep their
    /// shared locks nobody who waits is able to go on yet.
    pub fn release_lock(&mut self, path: &[u8], holder: HolderId) -> (notify_all: bool)
        requires
            old(self).wf(),
        ensures
            final(self).wf(),
            final(self)@ == old(self)@.released(path_key(path@), holder.id()),
            notify_all == old(self)@.wakes_all(path_key(path@), holder.id()),
    {
        let ghost before = self.locks@;
        let ghost key = path_key(path@);
        match self.find(path) {
            Some(i) => {
                proof {
                    lemma_table_at(before, i as int);
                }
                let was_exclusive: bool = self.locks[i].locks.info().effective() == Some(
                    LockType::Exclusive,
                );
                self.locks[i].locks.remove(&holder);
                let ghost middle = self.locks@;
                let is_free: bool = self.locks[i].locks.info().is_empty();
                if is_free {
                    self.locks.remove(i);
                    proof {
                        lemma_table_remove(before, i as int);
                        assert(self.locks@ =~= before.remove(i as int));
                    }
                } else {
                    proof {
                        lemma_table_update(before, middle, i as int);
                    }
                }
                assert(self@ =~= old(self)@.released(key, holder.id()));
                was_exclusive || is_free
            },
            None => true,
        }
    }

    /// Whether any thread holds a lock on a file.
    pub fn is_locked(&self, path: &[u8]) -> (r: bool)
        requires
            self.wf(),
        ensures
            r == !self@.file(path_key(path@)).holders.dom().is_empty(),
    {
        match self.find(path) {
            Some(i) => {
                proof {
                    lemma_table_at(self.locks@, i as int);
                }
                !self.locks[i].locks.info().is_empty()
            },
            None => {
                assert(FileView::empty().holders.dom() =~= Set::empty());
                false
            },
        }
    }

    /// How many threads hold a lock on a file.
    pub fn holder_count(&self, path: &[u8]) -> (r: usize)
        requires
            self.wf(),
        ensures
            r == self@.file(path_key(path@)).holders.dom().len(),
    {
        match self.find(path) {
            Some(i) => {
                proof {
                    lemma_table_at(self.locks@, i as int);
                }
                self.locks[i].locks.info().holder_count()
            },
            None => {
                assert(FileView::empty().holders.dom() =~= Set::empty());
                0
            },
        }
    }

    /// The codes by which the system says that a lock is taken.
    pub(crate) fn busy_codes(&self) -> (r: BusyCodes)
        ensures
            r == self@.busy,
    {
        self.busy
    }

    /// Whether the store is going away.
    pub fn is_shut_down(&self) -> (r: bool)
        ensures
            r == self@.shutdown,
    {
        self.shutdown
    }

    /// The store goes away. The result says which of the threads that wait for
    /// a lock must be woken: all of them, and they will give up.
    pub fn shut_down(&mut self) -> (wake: Wake)
        requires
            old(self).wf(),
        ensures
            final(self).wf(),
            final(self)@ == old(self)@.shut_down(),
            wake == Wake::All,
    {
        self.shutdown = true;
        Wake::All
    }
}

} // verus!
