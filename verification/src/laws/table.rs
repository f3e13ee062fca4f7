//! Laws of the lock table.

use crate::error::LockType;
use crate::file_locks::{lemma_with_holder, lemma_without_holder, FileView};
use crate::lock_info::{compatible, effective_type, grantable};
use crate::path::PathKey;
use crate::store::StoreView;
use vstd::prelude::*;

verus! {

/// The lock compatibility table. A file without a lock grants any request.
/// Beside a shared lock, of the requester or of another thread, an exclusive
/// one is not granted: there is no upgrade. Beside an exclusive lock nothing is
/// granted, whatever else the requester holds: there is no downgrade and no
/// second exclusive lock. Beside shared locks alone a shared lock is granted.
pub proof fn law_compatibility(holders: Map<u64, LockType>, requested: LockType, holder: u64)
    ensures
        holders.dom().is_empty() ==> grantable(holders, requested),
        holders.contains_key(holder) && requested is Exclusive ==> !grantable(holders, requested),
        holders.contains_key(holder) && holders[holder] is Exclusive ==> !grantable(
            holders,
            requested,
        ),
        effective_type(holders) == Some(LockType::Shared) && requested is Shared ==> grantable(
            holders,
            requested,
        ),
{
    if holders.dom().is_empty() {
        assert forall|h: u64| #[trigger] holders.contains_key(h) implies compatible(
            holders[h],
            requested,
        ) by {
            assert(holders.dom().contains(h));
        }
    }
}

/// A file is locked if and only if some thread is counted as a holder.
pub proof fn law_locked_iff_held(file: FileView)
    requires
        file.valid(),
    ensures
        !file.holders.dom().is_empty() <==> file.holders.dom().len() > 0,
{
    if file.holders.dom().len() == 0 {
        assert(file.holders.dom() =~= Set::empty());
    } else {
        assert(!(file.holders.dom() =~= Set::empty()));
    }
}

/// Granting and releasing keep a store valid.
pub proof fn law_store_stays_valid(
    store: StoreView,
    key: PathKey,
    holder: u64,
    lock_type: LockType,
)
    requires
        store.valid(),
    ensures
        store.file(key).can_grant(lock_type) ==> store.granted(key, holder, lock_type).valid(),
        store.released(key, holder).valid(),
{
    lemma_empty_file_valid();
    if store.file(key).can_grant(lock_type) {
        lemma_with_holder(store.file(key), holder, lock_type);
        let after = store.granted(key, holder, lock_type);
        assert(after.locks[key].holders.contains_key(holder));
        assert forall|k: PathKey| #[trigger] after.locks.contains_key(k) implies after.locks[k].valid()
            && !after.locks[k].holders.dom().is_empty() by {
            if k != key {
                assert(store.locks.contains_key(k));
            } else {
                assert(after.locks[k].holders.dom().contains(holder));
            }
        }
    }
    lemma_without_holder(store.file(key), holder);
    let after = store.released(key, holder);
    assert forall|k: PathKey| #[trigger] after.locks.contains_key(k) implies after.locks[k].valid()
        && !after.locks[k].holders.dom().is_empty() by {
        if k != key {
            assert(store.locks.contains_key(k));
        }
    }
}

/// A file without locks is a valid one.
pub proof fn lemma_empty_file_valid()
    ensures
        FileView::empty().valid(),
        FileView::empty().holders.dom().is_empty(),
{
    assert(FileView::empty().holders.dom() =~= Set::<u64>::empty());
}

/// Taking a holder off the record undoes putting it there: the holders and
/// their effective lock type are as before, whether the lock could have been
/// granted or not.
pub proof fn law_remove_undoes_add(
    holders: Map<u64, LockType>,
    holder: u64,
    lock_type: LockType,
)
    requires
        !holders.contains_key(holder),
    ensures
        holders.insert(holder, lock_type).remove(holder) == holders,
        effective_type(holders.insert(holder, lock_type).remove(holder)) == effective_type(holders),
{
    assert(holders.insert(holder, lock_type).remove(holder) =~= holders);
}

/// A release takes back exactly what a grant gave: the store is as before.
pub proof fn law_release_undoes_grant(
    store: StoreView,
    key: PathKey,
    holder: u64,
    lock_type: LockType,
)
    requires
        store.valid(),
        store.file(key).can_grant(lock_type),
    ensures
        store.granted(key, holder, lock_type).released(key, holder) == store,
{
    let file = store.file(key);
    lemma_empty_file_valid();
    assert(file.valid());
    let with = file.with_holder(holder, lock_type);
    let back = with.without_holder(holder);
    if file.holders.contains_key(holder) {
        assert(with.nested.count(holder) > 0);
        assert(back.nested =~= file.nested);
    } else {
        assert(file.nested.count(holder) == 0);
        law_remove_undoes_add(file.holders, holder, lock_type);
    }
    assert(back =~= file);
    let after = store.granted(key, holder, lock_type).released(key, holder);
    assert(after.locks =~= store.locks);
    assert(after =~= store);
}

/// A release takes one lock: a thread with one lock on the file holds none
/// afterwards, one with more stays a holder, and every other thread holds what
/// it held.
pub proof fn law_release_takes_one_lock(
    store: StoreView,
    key: PathKey,
    holder: u64,
    other: u64,
)
    requires
        store.valid(),
    ensures
        ({
            let before = store.file(key);
            let after = store.released(key, holder).file(key);
            &&& before.nested.count(holder) == 0 ==> after.holders == before.holders.remove(holder)
            &&& before.nested.count(holder) > 0 ==> after.holders == before.holders
                && after.nested.count(holder) == before.nested.count(holder) - 1
            &&& other != holder ==> after.nested.count(other) == before.nested.count(other)
        }),
{
    lemma_empty_file_valid();
    let before = store.file(key);
    let left = before.without_holder(holder);
    lemma_without_holder(before, holder);
    if left.holders.dom().is_empty() {
        assert(left.holders =~= Map::<u64, LockType>::empty());
        if left.nested.count(other) > 0 {
            assert(left.holders.dom().contains(other));
        }
        if left.nested.count(holder) > 0 {
            assert(left.holders.dom().contains(holder));
        }
        if before.nested.count(holder) > 0 {
            assert(left.holders.dom().contains(holder));
        }
    }
    if !store.locks.contains_key(key) {
        assert(before.holders.remove(holder) =~= before.holders);
    }
}

/// Files are independent: a lock that is granted or given back on one file
/// leaves the locks on every other file as they are.
pub proof fn law_files_are_independent(
    store: StoreView,
    key: PathKey,
    other: PathKey,
    holder: u64,
    lock_type: LockType,
)
    requires
        key != other,
    ensures
        store.granted(key, holder, lock_type).file(other) == store.file(other),
        store.released(key, holder).file(other) == store.file(other),
{
}

/// A release never takes a grant away: what could be granted before can still
/// be granted.
pub proof fn law_release_blocks_nothing(
    store: StoreView,
    key: PathKey,
    holder: u64,
    other: PathKey,
    requested: LockType,
)
    requires
        store.valid(),
        store.file(other).can_grant(requested),
    ensures
        store.released(key, holder).file(other).can_grant(requested),
{
    let before = store.file(other);
    let after = store.released(key, holder).file(other);
    assert forall|h: u64| #[trigger] after.holders.contains_key(h) implies compatible(
        after.holders[h],
        requested,
    ) by {
        assert(before.holders.contains_key(h));
    }
}

/// No wake-up is missed: where the release of a lock does not wake all threads,
/// no request on any file has become one that can be granted.
pub proof fn law_single_wake_misses_nobody(
    store: StoreView,
    key: PathKey,
    holder: u64,
    other: PathKey,
    requested: LockType,
)
    requires
        store.valid(),
        !store.wakes_all(key, holder),
    ensures
        store.released(key, holder).file(other).can_grant(requested) <==> store.file(
            other,
        ).can_grant(requested),
{
    if store.file(other).can_grant(requested) {
        law_release_blocks_nothing(store, key, holder, other, requested);
    }
    if other != key {
        law_files_are_independent(store, key, other, holder, requested);
    } else {
        let before = store.file(key);
        let after = before.without_holder(holder);
        assert(!(after.holders.dom() =~= Set::<u64>::empty()));
        let left = choose|h: u64| after.holders.dom().contains(h);
        assert(after.holders.contains_key(left) && before.holders.contains_key(left));
        if requested is Shared {
            assert forall|h: u64| #[trigger] before.holders.contains_key(h) implies compatible(
                before.holders[h],
                requested,
            ) by {
                if before.holders[h] is Exclusive {
                    assert(before.holders.dom().contains(h));
                    assert(before.effective() == Some(LockType::Exclusive));
                }
            }
        } else {
            assert(!compatible(after.holders[left], requested));
        }
    }
}

/// Once the last lock on a file is given back all waiting threads are woken,
/// and every request for the file can be granted, whatever is held on other
/// files.
pub proof fn law_last_release_frees_file(store: StoreView, key: PathKey, holder: u64)
    requires
        store.file(key).without_holder(holder).holders.dom().is_empty(),
    ensures
        store.wakes_all(key, holder),
        !store.released(key, holder).locks.contains_key(key),
        forall|requested: LockType| #[trigger]
            store.released(key, holder).file(key).can_grant(requested),
{
}

/// Once an exclusive lock is given back its file is free, so all waiting
/// threads are woken for it.
pub proof fn law_exclusive_release_frees_file(store: StoreView, key: PathKey, holder: u64)
    requires
        store.valid(),
        store.file(key).holders.contains_key(holder),
        store.file(key).holders[holder] is Exclusive,
    ensures
        store.wakes_all(key, holder),
        !store.released(key, holder).locks.contains_key(key),
        forall|requested: LockType| #[trigger]
            store.released(key, holder).file(key).can_grant(requested),
{
    let file = store.file(key);
    assert(file.nested.count(holder) == 0);
    let after = file.without_holder(holder);
    assert(after.holders.dom() =~= Set::<u64>::empty()) by {
        assert forall|h: u64| !after.holders.dom().contains(h) by {
            if after.holders.contains_key(h) {
                assert(file.holders.contains_key(h));
            }
        }
    }
}

/// Whether a request can be granted depends on what is held and on nothing
/// else: an exclusive one if nobody holds a lock, a shared one if nobody holds
/// an exclusive one.
pub proof fn law_grantable_iff_compatible(holders: Map<u64, LockType>, requested: LockType)
    ensures
        grantable(holders, requested) <==> forall|h: u64| #[trigger]
            holders.contains_key(h) ==> requested is Shared && holders[h] is Shared,
{
}

/// The effective lock type is exclusive if a holder has an exclusive lock,
/// shared if there are holders and none has, and none without a holder.
pub proof fn law_effective_type(holders: Map<u64, LockType>)
    ensures
        effective_type(holders) == Some(LockType::Exclusive) <==> exists|h: u64| #[trigger]
            holders.contains_key(h) && holders[h] is Exclusive,
        effective_type(holders) is None <==> forall|h: u64| !(#[trigger] holders.contains_key(h)),
{
    if forall|h: u64| !(#[trigger] holders.contains_key(h)) {
        assert(holders.dom() =~= Set::<u64>::empty());
    }
    if effective_type(holders) is None {
        assert forall|h: u64| !(#[trigger] holders.contains_key(h)) by {
            if holders.contains_key(h) {
                assert(holders.dom().contains(h));
            }
        }
    }
    if exists|h: u64| #[trigger] holders.contains_key(h) && holders[h] is Exclusive {
        let h = choose|h: u64| #[trigger] holders.contains_key(h) && holders[h] is Exclusive;
        assert(holders.dom().contains(h));
    }
}

/// The locks of one file, one by one: a request is granted by what the holders
/// hold; one more lock makes its thread a holder, or gives a holder one more;
/// one less takes a holder's further lock, or makes it a holder no more; and
/// what the other threads hold stays as it is.
pub proof fn law_locks_of_a_file(
    file: FileView,
    holder: u64,
    lock_type: LockType,
    other: u64,
)
    requires
        other != holder,
    ensures
        ({
            let more = file.with_holder(holder, lock_type);
            let less = file.without_holder(holder);
            let known = file.holders.contains_key(holder);
            let nested = file.nested.count(holder);
            &&& file.can_grant(lock_type) <==> forall|h: u64| #[trigger]
                file.holders.contains_key(h) ==> lock_type is Shared && file.holders[h] is Shared
            &&& more.holders.contains_key(holder)
            &&& !known ==> more.holders[holder] == lock_type && more.nested.count(holder) == nested
            &&& known ==> more.holders[holder] == file.holders[holder] && more.nested.count(holder)
                == nested + 1
            &&& nested > 0 ==> less.holders == file.holders && less.nested.count(holder) == nested
                - 1
            &&& nested == 0 ==> !less.holders.contains_key(holder) && less.nested.count(holder) == 0
            &&& more.holders.contains_key(other) <==> file.holders.contains_key(other)
            &&& less.holders.contains_key(other) <==> file.holders.contains_key(other)
            &&& file.holders.contains_key(other) ==> more.holders[other] == file.holders[other]
                && less.holders[other] == file.holders[other]
            &&& more.nested.count(other) == file.nested.count(other)
            &&& less.nested.count(other) == file.nested.count(other)
        }),
{
}

/// A store tells the locks of a file by the file's entry, and a file without an
/// entry has none.
pub proof fn law_file_is_its_entry(store: StoreView, key: PathKey)
    ensures
        store.locks.contains_key(key) ==> store.file(key) == store.locks[key],
        !store.locks.contains_key(key) ==> store.file(key).holders == Map::<u64, LockType>::empty(),
        !store.locks.contains_key(key) ==> forall|h: u64| #[trigger]
            store.file(key).nested.count(h) == 0,
{
}

/// A grant is put on record as it is: the thread is a holder with the lock's
/// type, one who was a holder has one lock more, all others hold what they
/// held, and no other file and nothing else of the store changes.
pub proof fn law_grant_is_recorded(
    store: StoreView,
    key: PathKey,
    holder: u64,
    lock_type: LockType,
)
    requires
        store.locks.contains_key(key) ==> grantable(store.locks[key].holders, lock_type),
    ensures
        ({
            let after = store.granted(key, holder, lock_type);
            let known = store.locks.contains_key(key) && store.locks[key].holders.contains_key(
                holder,
            );
            &&& after.root == store.root
            &&& after.busy == store.busy
            &&& after.shutdown == store.shutdown
            &&& after.locks.dom() == store.locks.dom().insert(key)
            &&& forall|k: PathKey| k != key ==> #[trigger] after.locks[k] == store.locks[k]
            &&& after.locks[key].holders == (if store.locks.contains_key(key) {
                store.locks[key].holders
            } else {
                Map::empty()
            }).insert(holder, lock_type)
            &&& forall|h: u64| #[trigger]
                after.locks[key].nested.count(h) == (if store.locks.contains_key(key) {
                    store.locks[key].nested.count(h)
                } else {
                    0
                }) + (if known && h == holder {
                    1nat
                } else {
                    0
                })
        }),
{
    let after = store.granted(key, holder, lock_type);
    let before = store.file(key);
    assert(after.locks.dom() =~= store.locks.dom().insert(key));
    if store.locks.contains_key(key) && before.holders.contains_key(holder) {
        law_grantable_iff_compatible(before.holders, lock_type);
        assert(after.locks[key].holders =~= before.holders.insert(holder, lock_type));
    }
}

/// A release is put on record as it is: a thread with one lock on the file is no
/// holder any more, and the file's entry goes with its last holder; a thread
/// with more has one less; no other file and nothing else of the store changes.
pub proof fn law_release_is_recorded(store: StoreView, key: PathKey, holder: u64)
    requires
        store.valid(),
    ensures
        ({
            let after = store.released(key, holder);
            let before = store.locks[key];
            &&& after.root == store.root
            &&& after.busy == store.busy
            &&& after.shutdown == store.shutdown
            &&& !store.locks.contains_key(key) ==> after.locks == store.locks
            &&& forall|k: PathKey|
                #![trigger after.locks.contains_key(k)]
                #![trigger store.locks.contains_key(k)]
                k != key ==> (after.locks.contains_key(k) <==> store.locks.contains_key(k))
                    && after.locks[k] == store.locks[k]
            &&& store.locks.contains_key(key) && before.nested.count(holder) > 0 ==> {
                &&& after.locks.contains_key(key)
                &&& after.locks[key].holders == before.holders
                &&& after.locks[key].nested.count(holder) == before.nested.count(holder) - 1
            }
            &&& store.locks.contains_key(key) && before.nested.count(holder) == 0 ==> {
                &&& after.locks.contains_key(key) <==> exists|h: u64|
                    h != holder && #[trigger] before.holders.contains_key(h)
                &&& after.locks.contains_key(key) ==> after.locks[key].holders
                    == before.holders.remove(holder)
            }
            &&& after.locks.contains_key(key) ==> forall|h: u64|
                h != holder ==> #[trigger] after.locks[key].nested.count(h) == before.nested.count(h)
        }),
{
    let after = store.released(key, holder);
    if store.locks.contains_key(key) {
        let before = store.locks[key];
        let left = before.without_holder(holder);
        if before.nested.count(holder) > 0 {
            assert(left.holders.dom().contains(holder));
        } else if exists|h: u64| h != holder && #[trigger] before.holders.contains_key(h) {
            let h = choose|h: u64| h != holder && #[trigger] before.holders.contains_key(h);
            assert(left.holders.dom().contains(h));
        } else {
            assert(left.holders.dom() =~= Set::<u64>::empty()) by {
                assert forall|h: u64| !left.holders.dom().contains(h) by {
                    if left.holders.dom().contains(h) {
                        assert(before.holders.contains_key(h));
                    }
                }
            }
        }
    }
}

/// All threads are woken by a release if and only if a lock on the file was
/// exclusive or no lock is left on it.
pub proof fn law_release_wakes_all_iff(store: StoreView, key: PathKey, holder: u64)
    requires
        store.valid(),
    ensures
        store.wakes_all(key, holder) <==> !store.released(key, holder).locks.contains_key(key) || (
        exists|h: u64| #[trigger]
            store.locks[key].holders.contains_key(h) && store.locks[key].holders[h] is Exclusive),
{
    if store.locks.contains_key(key) {
        law_effective_type(store.locks[key].holders);
    }
}

/// A store that goes away changes in nothing else.
pub proof fn law_shutdown_changes_nothing_else(store: StoreView)
    ensures
        store.shut_down().shutdown,
        store.shut_down().locks == store.locks,
        store.shut_down().root == store.root,
        store.shut_down().busy == store.busy,
{
}

} // verus!
