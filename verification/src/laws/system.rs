//! Laws of a store with all its operations.

use crate::error::LockType;
use crate::file_locks::{lemma_without_holder, FileView};
use crate::laws::table::{law_store_stays_valid, lemma_empty_file_valid};
use crate::lock_info::compatible;
use crate::operation::{Event, OperationView};
use crate::path::PathKey;
use crate::store::StoreView;
use vstd::prelude::*;

verus! {

/// A store with all its operations.
#[verifier::ext_equal]
pub struct System<R, P> {
    pub store: StoreView,
    pub operations: Seq<OperationView<R, P>>,
}

/// How many locks of type `lock_type` a thread holds on a file.
pub open spec fn locks_of(file: FileView, holder: u64, lock_type: LockType) -> nat {
    let first: nat = if file.holders.contains_key(holder) && file.holders[holder] == lock_type {
        1
    } else {
        0
    };
    if lock_type is Shared {
        first + file.nested.count(holder)
    } else {
        first
    }
}

/// Whether an operation has a lock of type `lock_type` on a file for a thread.
pub open spec fn has_lock<R, P>(
    operation: OperationView<R, P>,
    key: PathKey,
    holder: u64,
    lock_type: LockType,
) -> bool {
    operation.holds_lock() && operation.key() == key && operation.holder == holder
        && operation.lock_type == lock_type
}

/// How many of the operations have such a lock.
pub open spec fn locks_held<R, P>(
    operations: Seq<OperationView<R, P>>,
    key: PathKey,
    holder: u64,
    lock_type: LockType,
) -> nat
    decreases operations.len(),
{
    if operations.len() == 0 {
        0
    } else {
        locks_held(operations.drop_last(), key, holder, lock_type) + if has_lock(
            operations.last(),
            key,
            holder,
            lock_type,
        ) {
            1nat
        } else {
            0nat
        }
    }
}

impl<R, P> System<R, P> {
    /// The lock table says exactly which locks the operations have.
    pub open spec fn consistent(self) -> bool {
        &&& self.store.valid()
        &&& forall|key: PathKey, holder: u64, lock_type: LockType| #[trigger]
            locks_held(self.operations, key, holder, lock_type) == locks_of(
                self.store.file(key),
                holder,
                lock_type,
            )
    }

    /// The system once `event` has happened to its operation at `i`.
    pub open spec fn after(self, i: int, event: Event<R, P>) -> System<R, P> {
        let step = self.operations[i].step(self.store, event);
        System { store: step.store, operations: self.operations.update(i, step.operation) }
    }
}

proof fn lemma_locks_held_update<R, P>(
    operations: Seq<OperationView<R, P>>,
    i: int,
    operation: OperationView<R, P>,
    key: PathKey,
    holder: u64,
    lock_type: LockType,
)
    requires
        0 <= i < operations.len(),
    ensures
        locks_held(operations.update(i, operation), key, holder, lock_type) + (if has_lock(
            operations[i],
            key,
            holder,
            lock_type,
        ) {
            1int
        } else {
            0int
        }) == locks_held(operations, key, holder, lock_type) + (if has_lock(
            operation,
            key,
            holder,
            lock_type,
        ) {
            1int
        } else {
            0int
        }),
    decreases operations.len(),
{
    let updated = operations.update(i, operation);
    if i == operations.len() - 1 {
        assert(updated.drop_last() =~= operations.drop_last());
    } else {
        assert(updated.drop_last() =~= operations.drop_last().update(i, operation));
        lemma_locks_held_update(operations.drop_last(), i, operation, key, holder, lock_type);
    }
}

proof fn lemma_locks_held_at<R, P>(operations: Seq<OperationView<R, P>>, i: int)
    requires
        0 <= i < operations.len(),
        operations[i].holds_lock(),
    ensures
        locks_held(
            operations,
            operations[i].key(),
            operations[i].holder,
            operations[i].lock_type,
        ) >= 1,
    decreases operations.len(),
{
    if i < operations.len() - 1 {
        lemma_locks_held_at(operations.drop_last(), i);
    }
}

proof fn lemma_locks_held_twice<R, P>(operations: Seq<OperationView<R, P>>, i: int, j: int)
    requires
        0 <= i < j < operations.len(),
        operations[i].holds_lock(),
        has_lock(
            operations[j],
            operations[i].key(),
            operations[i].holder,
            operations[i].lock_type,
        ),
    ensures
        locks_held(
            operations,
            operations[i].key(),
            operations[i].holder,
            operations[i].lock_type,
        ) >= 2,
    decreases operations.len(),
{
    if j < operations.len() - 1 {
        lemma_locks_held_twice(operations.drop_last(), i, j);
    } else {
        lemma_locks_held_at(operations.drop_last(), i);
    }
}

proof fn lemma_locks_held_some<R, P>(
    operations: Seq<OperationView<R, P>>,
    key: PathKey,
    holder: u64,
    lock_type: LockType,
) -> (i: int)
    requires
        locks_held(operations, key, holder, lock_type) >= 1,
    ensures
        0 <= i < operations.len(),
        has_lock(operations[i], key, holder, lock_type),
    decreases operations.len(),
{
    if has_lock(operations.last(), key, holder, lock_type) {
        operations.len() - 1
    } else {
        lemma_locks_held_some(operations.drop_last(), key, holder, lock_type)
    }
}

proof fn lemma_grant_adds_one(
    store: StoreView,
    at: PathKey,
    by: u64,
    granted: LockType,
    key: PathKey,
    holder: u64,
    lock_type: LockType,
)
    requires
        store.valid(),
        store.file(at).can_grant(granted),
    ensures
        locks_of(store.granted(at, by, granted).file(key), holder, lock_type) == locks_of(
            store.file(key),
            holder,
            lock_type,
        ) + (if key == at && holder == by && lock_type == granted {
            1int
        } else {
            0int
        }),
{
    lemma_empty_file_valid();
    let before = store.file(key);
    assert(before.valid());
    if key == at && holder == by {
        if before.holders.contains_key(by) {
            assert(compatible(before.holders[by], granted));
        } else {
            assert(before.nested.count(by) == 0);
        }
    }
}

proof fn lemma_release_takes_one(
    store: StoreView,
    at: PathKey,
    by: u64,
    taken: LockType,
    key: PathKey,
    holder: u64,
    lock_type: LockType,
)
    requires
        store.valid(),
        locks_of(store.file(at), by, taken) >= 1,
    ensures
        locks_of(store.released(at, by).file(key), holder, lock_type) + (if key == at && holder
            == by && lock_type == taken {
            1int
        } else {
            0int
        }) == locks_of(store.file(key), holder, lock_type),
{
    lemma_empty_file_valid();
    let before = store.file(at);
    assert(before.valid());
    let after = before.without_holder(by);
    lemma_without_holder(before, by);
    assert(before.holders.contains_key(by));
    assert(store.locks.contains_key(at));
    if after.holders.dom().is_empty() {
        assert forall|h: u64| #[trigger] after.nested.count(h) == 0 by {
            if after.nested.count(h) > 0 {
                assert(after.holders.dom().contains(h));
            }
        }
        assert(!after.holders.dom().contains(holder));
    }
}

/// A store without locks is consistent with operations that have not begun.
pub proof fn law_new_system_is_consistent<R, P>(system: System<R, P>)
    requires
        system.store.locks == Map::<PathKey, FileView>::empty(),
        forall|i: int|
            0 <= i < system.operations.len() ==> !(#[trigger] system.operations[i]).holds_lock(),
    ensures
        system.consistent(),
{
    assert forall|key: PathKey, holder: u64, lock_type: LockType| #[trigger]
        locks_held(system.operations, key, holder, lock_type) == locks_of(
            system.store.file(key),
            holder,
            lock_type,
        ) by {
        if locks_held(system.operations, key, holder, lock_type) >= 1 {
            let i = lemma_locks_held_some(system.operations, key, holder, lock_type);
        }
    }
}

/// A further operation that has not begun keeps a system consistent.
pub proof fn law_request_keeps_consistency<R, P>(
    system: System<R, P>,
    operation: OperationView<R, P>,
)
    requires
        system.consistent(),
        !operation.holds_lock(),
    ensures
        (System { operations: system.operations.push(operation), ..system }).consistent(),
{
    let after = System { operations: system.operations.push(operation), ..system };
    assert forall|key: PathKey, holder: u64, lock_type: LockType| #[trigger]
        locks_held(after.operations, key, holder, lock_type) == locks_of(
            after.store.file(key),
            holder,
            lock_type,
        ) by {
        assert(after.operations.drop_last() =~= system.operations);
        assert(locks_held(system.operations, key, holder, lock_type) == locks_of(
            system.store.file(key),
            holder,
            lock_type,
        ));
    }
}

/// Every step of every operation keeps a system consistent: the lock table
/// says at all times exactly which locks the operations have.
pub proof fn law_step_keeps_consistency<R, P>(system: System<R, P>, i: int, event: Event<R, P>)
    requires
        system.consistent(),
        0 <= i < system.operations.len(),
        system.operations[i].expects(event),
    ensures
        system.after(i, event).consistent(),
{
    let op = system.operations[i];
    let store = system.store;
    let step = op.step(store, event);
    let after = system.after(i, event);
    law_store_stays_valid(store, op.key(), op.holder, op.lock_type);
    if op.holds_lock() {
        lemma_locks_held_at(system.operations, i);
        assert(locks_of(store.file(op.key()), op.holder, op.lock_type) >= 1) by {
            assert(locks_held(system.operations, op.key(), op.holder, op.lock_type) == locks_of(
                store.file(op.key()),
                op.holder,
                op.lock_type,
            ));
        }
    }
    assert forall|key: PathKey, holder: u64, lock_type: LockType| #[trigger]
        locks_held(after.operations, key, holder, lock_type) == locks_of(
            after.store.file(key),
            holder,
            lock_type,
        ) by {
        lemma_locks_held_update(
            system.operations,
            i,
            step.operation,
            key,
            holder,
            lock_type,
        );
        assert(locks_held(system.operations, key, holder, lock_type) == locks_of(
            store.file(key),
            holder,
            lock_type,
        ));
        if step.operation.holds_lock() && !op.holds_lock() {
            lemma_grant_adds_one(store, op.key(), op.holder, op.lock_type, key, holder, lock_type);
        }
        if op.holds_lock() && !step.operation.holds_lock() {
            lemma_release_takes_one(
                store,
                op.key(),
                op.holder,
                op.lock_type,
                key,
                holder,
                lock_type,
            );
        }
    }
}

/// A store that goes away stays consistent with its operations.
pub proof fn law_shutdown_keeps_consistency<R, P>(system: System<R, P>)
    requires
        system.consistent(),
    ensures
        (System {
            store: system.store.shut_down(),
            ..system
        }).consistent(),
{
    let after = System { store: system.store.shut_down(), ..system };
    assert forall|key: PathKey, holder: u64, lock_type: LockType| #[trigger]
        locks_held(after.operations, key, holder, lock_type) == locks_of(
            after.store.file(key),
            holder,
            lock_type,
        ) by {
        assert(after.store.file(key) == system.store.file(key));
        assert(locks_held(system.operations, key, holder, lock_type) == locks_of(
            system.store.file(key),
            holder,
            lock_type,
        ));
    }
}

/// A step of an operation changes neither what it is about nor who asks for it.
pub proof fn law_operations_keep_their_identity<R, P>(
    op: OperationView<R, P>,
    store: StoreView,
    event: Event<R, P>,
)
    ensures
        ({
            let after = op.step(store, event).operation;
            &&& after.path == op.path
            &&& after.holder == op.holder
            &&& after.lock_type == op.lock_type
            &&& after.mode == op.mode
        }),
{
}

/// The system once all that is in `trace` has happened, in order.
pub open spec fn run<R, P>(system: System<R, P>, trace: Seq<(int, Event<R, P>)>) -> System<R, P>
    decreases trace.len(),
{
    if trace.len() == 0 {
        system
    } else {
        run(system, trace.drop_last()).after(trace.last().0, trace.last().1)
    }
}

/// Whether all that is in `trace` can happen, in order.
pub open spec fn can_happen<R, P>(system: System<R, P>, trace: Seq<(int, Event<R, P>)>) -> bool
    decreases trace.len(),
{
    trace.len() > 0 ==> {
        let before = run(system, trace.drop_last());
        &&& can_happen(system, trace.drop_last())
        &&& 0 <= trace.last().0 < before.operations.len()
        &&& before.operations[trace.last().0].expects(trace.last().1)
    }
}

/// However the steps of the operations are interleaved, the system stays
/// consistent.
pub proof fn law_every_run_is_consistent<R, P>(
    system: System<R, P>,
    trace: Seq<(int, Event<R, P>)>,
)
    requires
        system.consistent(),
        can_happen(system, trace),
    ensures
        run(system, trace).consistent(),
        run(system, trace).operations.len() == system.operations.len(),
    decreases trace.len(),
{
    if trace.len() > 0 {
        law_every_run_is_consistent(system, trace.drop_last());
        law_step_keeps_consistency(
            run(system, trace.drop_last()),
            trace.last().0,
            trace.last().1,
        );
    }
}

/// Mutual exclusion: two operations that have their locks on one file at the
/// same time are both readers.
pub proof fn law_mutual_exclusion<R, P>(system: System<R, P>, i: int, j: int)
    requires
        system.consistent(),
        0 <= i < system.operations.len(),
        0 <= j < system.operations.len(),
        i != j,
        system.operations[i].holds_lock(),
        system.operations[j].holds_lock(),
        system.operations[i].key() == system.operations[j].key(),
    ensures
        system.operations[i].lock_type is Shared,
        system.operations[j].lock_type is Shared,
{
    let a = system.operations[i];
    let b = system.operations[j];
    let file = system.store.file(a.key());
    lemma_empty_file_valid();
    lemma_locks_held_at(system.operations, i);
    lemma_locks_held_at(system.operations, j);
    assert(locks_held(system.operations, a.key(), a.holder, a.lock_type) == locks_of(
        file,
        a.holder,
        a.lock_type,
    ));
    assert(locks_held(system.operations, b.key(), b.holder, b.lock_type) == locks_of(
        file,
        b.holder,
        b.lock_type,
    ));
    assert(file.holders.contains_key(a.holder));
    assert(file.holders.contains_key(b.holder));
    if a.lock_type is Exclusive || b.lock_type is Exclusive {
        assert(a.holder == b.holder);
        assert(a.lock_type == b.lock_type);
        if i < j {
            lemma_locks_held_twice(system.operations, i, j);
        } else {
            lemma_locks_held_twice(system.operations, j, i);
        }
    }
}

/// A lock is held for the whole time from its grant to its release: the store
/// lists every operation that has its lock, whatever other operations, of the
/// same thread or of others, do meanwhile.
pub proof fn law_lock_is_held_throughout<R, P>(system: System<R, P>, i: int)
    requires
        system.consistent(),
        0 <= i < system.operations.len(),
        system.operations[i].holds_lock(),
    ensures
        ({
            let op = system.operations[i];
            let file = system.store.file(op.key());
            file.holders.contains_key(op.holder) && file.holders[op.holder] == op.lock_type
        }),
{
    let op = system.operations[i];
    lemma_empty_file_valid();
    lemma_locks_held_at(system.operations, i);
    assert(locks_held(system.operations, op.key(), op.holder, op.lock_type) == locks_of(
        system.store.file(op.key()),
        op.holder,
        op.lock_type,
    ));
}

/// No lock leaks: a thread that the store lists as a holder has an operation
/// that is not over.
pub proof fn law_no_lock_leaks<R, P>(system: System<R, P>, key: PathKey, holder: u64) -> (i: int)
    requires
        system.consistent(),
        system.store.file(key).holders.contains_key(holder),
    ensures
        0 <= i < system.operations.len(),
        has_lock(
            system.operations[i],
            key,
            holder,
            system.store.file(key).holders[holder],
        ),
{
    let lock_type = system.store.file(key).holders[holder];
    assert(locks_held(system.operations, key, holder, lock_type) == locks_of(
        system.store.file(key),
        holder,
        lock_type,
    ));
    lemma_locks_held_some(system.operations, key, holder, lock_type)
}

/// Once all operations are over the store holds no lock.
pub proof fn law_quiet_system_is_unlocked<R, P>(system: System<R, P>)
    requires
        system.consistent(),
        forall|i: int|
            0 <= i < system.operations.len() ==> !(#[trigger] system.operations[i]).holds_lock(),
    ensures
        system.store.locks == Map::<PathKey, FileView>::empty(),
{
    assert forall|key: PathKey| !system.store.locks.contains_key(key) by {
        if system.store.locks.contains_key(key) {
            let holders = system.store.locks[key].holders;
            assert(!(holders.dom() =~= Set::<u64>::empty()));
            let holder = choose|h: u64| holders.dom().contains(h);
            let i = law_no_lock_leaks(system, key, holder);
        }
    }
    assert(system.store.locks =~= Map::<PathKey, FileView>::empty());
}

/// An operation whose request is not granted is blocked by another operation,
/// one that has a lock on the same file, and not by any that waits.
pub proof fn law_blocked_by_a_holder<R, P>(system: System<R, P>, i: int) -> (j: int)
    requires
        system.consistent(),
        0 <= i < system.operations.len(),
        !system.operations[i].holds_lock(),
        !system.store.file(system.operations[i].key()).can_grant(system.operations[i].lock_type),
    ensures
        0 <= j < system.operations.len(),
        j != i,
        system.operations[j].holds_lock(),
        system.operations[j].key() == system.operations[i].key(),
        !compatible(system.operations[j].lock_type, system.operations[i].lock_type),
{
    let op = system.operations[i];
    let file = system.store.file(op.key());
    let holder = choose|h: u64|
        #![trigger file.holders.contains_key(h)]
        file.holders.contains_key(h) && !compatible(file.holders[h], op.lock_type);
    law_no_lock_leaks(system, op.key(), holder)
}

} // verus!
