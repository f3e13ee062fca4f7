//! Laws of progress: who sleeps, who is woken, and that every operation ends.

use crate::error::{ErrorView, LockType};
use crate::laws::steps::{law_operation_goes_forward, law_woken_operation_gets_free_lock, progress};
use crate::laws::system::{
    law_blocked_by_a_holder, law_lock_is_held_throughout, law_quiet_system_is_unlocked,
    law_shutdown_keeps_consistency, law_step_keeps_consistency, System,
};
use crate::laws::table::{law_single_wake_misses_nobody, lemma_empty_file_valid};
use crate::lock_info::compatible;
use crate::operation::{Action, Event, OperationView, Outcome, Stage, Wake};
use crate::path::PathKey;
use crate::store::StoreView;
use vstd::prelude::*;

verus! {

/// A store with all its operations, the threads that run them, and which of
/// these sleep.
///
/// The thread of an operation sleeps from the step that tells it to wait until
/// a step of another operation wakes it.
#[verifier::ext_equal]
pub struct Machine<R, P> {
    pub system: System<R, P>,
    pub asleep: Seq<bool>,
}

/// A step of a machine: `event` happens to the operation at `index`. Where the
/// step wakes just one thread, it is that of the operation at `woken`.
pub struct Turn<R, P> {
    pub index: int,
    pub event: Event<R, P>,
    pub woken: int,
}

/// Whether an action wakes the thread of the operation at `k`, where `woken` is
/// the one that a single wake-up reaches.
pub open spec fn wakes<O, B>(action: Action<O, B>, woken: int, k: int) -> bool {
    match action {
        Action::Finish { wake: Some(Wake::All), .. } => true,
        Action::Finish { wake: Some(Wake::One), .. } => k == woken,
        _ => false,
    }
}

/// Whether an operation is neither over nor yet to begin.
pub open spec fn under_way<R, P>(op: OperationView<R, P>) -> bool {
    !(op.stage is Requesting) && !(op.stage is Finished)
}

impl<R, P> Machine<R, P> {
    /// How many operations there are.
    pub open spec fn size(self) -> nat {
        self.system.operations.len()
    }

    /// The operation at `i`.
    pub open spec fn op(self, i: int) -> OperationView<R, P> {
        self.system.operations[i]
    }

    /// Whether the request of the operation at `i` can be granted now.
    pub open spec fn grantable(self, i: int) -> bool {
        self.system.store.file(self.op(i).key()).can_grant(self.op(i).lock_type)
    }

    /// Nobody sleeps without need: the lock table says which locks the
    /// operations have, and only a thread sleeps whose operation waits for a
    /// lock that cannot be granted.
    pub open spec fn attentive(self) -> bool {
        &&& self.system.consistent()
        &&& self.asleep.len() == self.size()
        &&& forall|k: int|
            0 <= k < self.size() && #[trigger] self.asleep[k] ==> self.op(k).stage is Waiting
                && !self.grantable(k)
    }

    /// What the operation at `turn.index` is told to do.
    pub open spec fn action(self, turn: Turn<R, P>) -> Action<
        Outcome<R, P, ErrorView>,
        Seq<u8>,
    > {
        self.op(turn.index).step(self.system.store, turn.event).action
    }

    /// The machine after a turn.
    pub open spec fn after(self, turn: Turn<R, P>) -> Machine<R, P> {
        Machine {
            system: self.system.after(turn.index, turn.event),
            asleep: Seq::new(
                self.asleep.len(),
                |k: int|
                    if k == turn.index {
                        self.action(turn) is Wait
                    } else {
                        self.asleep[k] && !wakes(self.action(turn), turn.woken, k)
                    },
            ),
        }
    }

    /// The machine once the store has begun to go away, which wakes all.
    pub open spec fn shut_down(self) -> Machine<R, P> {
        Machine {
            system: System { store: self.system.store.shut_down(), ..self.system },
            asleep: Seq::new(self.asleep.len(), |k: int| false),
        }
    }

    /// Whether a turn can be taken: what happens to the operation can happen at
    /// its stage.
    pub open spec fn can_take(self, turn: Turn<R, P>) -> bool {
        0 <= turn.index < self.size() && self.op(turn.index).expects(turn.event)
    }

    /// Whether a turn moves the machine on where threads call the store one
    /// call after the other, not from inside a closure, and no other process
    /// has a lock on a file.
    ///
    /// An operation begins when no other of its thread is under way. The kernel
    /// never says that a lock is taken. A thread that sleeps is not disturbed
    /// for nothing: it is woken by another, or its time is up.
    pub open spec fn moves_on(self, turn: Turn<R, P>) -> bool {
        let op = self.op(turn.index);
        &&& self.can_take(turn)
        &&& op.stage is Requesting ==> forall|k: int|
            0 <= k < self.size() && under_way(#[trigger] self.op(k)) ==> self.op(k).holder
                != op.holder
        &&& turn.event matches Event::LockFailed { code, .. }
            ==> !self.system.store.busy.says_busy(code)
        &&& self.asleep[turn.index] ==> !(self.action(turn) is Wait)
    }

    /// Whether every operation is over.
    pub open spec fn all_over(self) -> bool {
        forall|k: int| 0 <= k < self.size() ==> (#[trigger] self.op(k)).stage is Finished
    }
}

/// A request that cannot be granted stays one when another lock is granted.
proof fn lemma_grant_unblocks_nothing(
    store: StoreView,
    key: PathKey,
    holder: u64,
    lock_type: LockType,
    other: PathKey,
    requested: LockType,
)
    requires
        store.valid(),
        store.file(key).can_grant(lock_type),
        !store.file(other).can_grant(requested),
    ensures
        !store.granted(key, holder, lock_type).file(other).can_grant(requested),
{
    let before = store.file(other);
    let after = store.granted(key, holder, lock_type).file(other);
    let h = choose|h: u64|
        #![trigger before.holders.contains_key(h)]
        before.holders.contains_key(h) && !compatible(before.holders[h], requested);
    assert(after.holders.contains_key(h));
    if key == other && h == holder {
        assert(compatible(before.holders[h], lock_type));
    }
    assert(!compatible(after.holders[h], requested));
}

/// Where the lock table says which locks the operations have and nobody sleeps,
/// nobody sleeps without need. So it is before the first operation begins.
pub proof fn law_new_machine_is_attentive<R, P>(machine: Machine<R, P>)
    requires
        machine.system.consistent(),
        machine.asleep.len() == machine.size(),
        forall|k: int| 0 <= k < machine.size() ==> !(#[trigger] machine.asleep[k]),
    ensures
        machine.attentive(),
{
}

/// No wake-up is lost: whatever happens to whichever operation, and whoever a
/// single wake-up reaches, nobody sleeps without need afterwards if nobody did
/// before.
pub proof fn law_no_wakeup_is_lost<R, P>(machine: Machine<R, P>, turn: Turn<R, P>)
    requires
        machine.attentive(),
        machine.can_take(turn),
    ensures
        machine.after(turn).attentive(),
{
    let i = turn.index;
    let op = machine.op(i);
    let store = machine.system.store;
    let step = op.step(store, turn.event);
    let after = machine.after(turn);
    law_step_keeps_consistency(machine.system, i, turn.event);
    assert forall|k: int| 0 <= k < after.size() && #[trigger] after.asleep[k] implies after.op(
        k,
    ).stage is Waiting && !after.grantable(k) by {
        if k != i {
            assert(machine.asleep[k]);
            assert(after.op(k) == machine.op(k));
            let other = machine.op(k);
            if step.store == store {
            } else if step.operation.holds_lock() {
                lemma_grant_unblocks_nothing(
                    store,
                    op.key(),
                    op.holder,
                    op.lock_type,
                    other.key(),
                    other.lock_type,
                );
            } else {
                law_single_wake_misses_nobody(
                    store,
                    op.key(),
                    op.holder,
                    other.key(),
                    other.lock_type,
                );
            }
        }
    }
}

/// Who waits for a lock that a step sets free is awake after it, and gets the
/// lock if it goes on next, whatever happens on other files, unless the store
/// goes away.
pub proof fn law_freed_lock_reaches_waiter<R, P>(
    machine: Machine<R, P>,
    turn: Turn<R, P>,
    waiter: int,
    timed_out: bool,
    now: u128,
)
    requires
        machine.attentive(),
        machine.can_take(turn),
        0 <= waiter < machine.size(),
        waiter != turn.index,
        machine.op(waiter).stage is Waiting,
        machine.after(turn).grantable(waiter),
        !machine.system.store.shutdown,
    ensures
        !machine.after(turn).asleep[waiter],
        machine.op(waiter).step(
            machine.after(turn).system.store,
            Event::Woken { timed_out, now },
        ) == machine.op(waiter).enter(machine.after(turn).system.store),
{
    law_no_wakeup_is_lost(machine, turn);
    let after = machine.after(turn);
    assert(after.op(waiter) == machine.op(waiter));
    law_woken_operation_gets_free_lock(machine.op(waiter), after.system.store, timed_out, now);
}

/// Which threads the end of an operation wakes: all of them, if its lock was
/// exclusive or the last on its file, and otherwise just one, or none if it has
/// had no lock; and where it does not wake all, no request has become one that
/// can be granted.
pub proof fn law_end_wakes_whom_it_must<R, P>(machine: Machine<R, P>, turn: Turn<R, P>)
    requires
        machine.attentive(),
        machine.can_take(turn),
        machine.action(turn) is Finish,
    ensures
        ({
            let op = machine.op(turn.index);
            let store = machine.system.store;
            let wake = machine.action(turn)->wake;
            &&& wake == Some(Wake::All) <==> op.holds_lock() && (op.lock_type is Exclusive
                || store.file(op.key()).without_holder(op.holder).holders.dom().is_empty())
            &&& wake is Some <==> op.holds_lock()
            &&& wake == Some(Wake::All) ==> forall|k: int|
                0 <= k < machine.size() ==> !(#[trigger] machine.after(turn).asleep[k])
            &&& wake != Some(Wake::All) ==> forall|key: PathKey, requested: LockType|
                #[trigger] machine.after(turn).system.store.file(key).can_grant(requested)
                    ==> store.file(key).can_grant(requested)
        }),
{
    let op = machine.op(turn.index);
    let store = machine.system.store;
    if op.holds_lock() {
        law_lock_is_held_throughout(machine.system, turn.index);
        let file = store.file(op.key());
        lemma_empty_file_valid();
        assert(file.valid());
        assert(file.holders.dom().contains(op.holder));
        if op.lock_type is Exclusive {
            assert(file.effective() == Some(LockType::Exclusive));
        } else if file.effective() == Some(LockType::Exclusive) {
            let h = choose|h: u64| #[trigger]
                file.holders.contains_key(h) && file.holders[h] is Exclusive;
            assert(file.holders.contains_key(op.holder));
        }
        if !store.wakes_all(op.key(), op.holder) {
            assert forall|key: PathKey, requested: LockType| #[trigger]
                machine.after(turn).system.store.file(key).can_grant(requested) implies store.file(
                key,
            ).can_grant(requested) by {
                law_single_wake_misses_nobody(store, op.key(), op.holder, key, requested);
            }
        }
    }
}

/// A store that goes away wakes everyone: nobody sleeps afterwards, and each
/// operation that waits gives up at its next step, with the error that says so.
pub proof fn law_shutdown_wakes_all<R, P>(
    machine: Machine<R, P>,
    waiter: int,
    timed_out: bool,
    now: u128,
)
    requires
        machine.attentive(),
        0 <= waiter < machine.size(),
    ensures
        machine.shut_down().attentive(),
        machine.shut_down().size() == machine.size(),
        machine.shut_down().op(waiter) == machine.op(waiter),
        !machine.shut_down().asleep[waiter],
        machine.op(waiter).stage is Waiting ==> machine.op(waiter).expects(
            Event::Woken { timed_out, now },
        ) && machine.op(waiter).step(
            machine.shut_down().system.store,
            Event::Woken { timed_out, now },
        ) == machine.op(waiter).give_up(
            machine.shut_down().system.store,
            machine.op(waiter).shut_out(),
        ),
{
    law_shutdown_keeps_consistency(machine.system);
}

/// Once the store goes away nobody falls asleep any more.
pub proof fn law_nobody_sleeps_after_shutdown<R, P>(machine: Machine<R, P>, turn: Turn<R, P>)
    requires
        machine.attentive(),
        machine.system.store.shutdown,
        machine.can_take(turn),
        forall|k: int| 0 <= k < machine.size() ==> !(#[trigger] machine.asleep[k]),
    ensures
        machine.after(turn).system.store.shutdown,
        forall|k: int|
            0 <= k < machine.after(turn).size() ==> !(#[trigger] machine.after(turn).asleep[k]),
{
    assert forall|k: int| 0 <= k < machine.size() implies !(#[trigger] machine.after(
        turn,
    ).asleep[k]) by {
        assert(!machine.asleep[k]);
    }
}

/// A thread that is disturbed for nothing sleeps on, and nothing has changed.
pub proof fn law_disturbance_changes_nothing<R, P>(machine: Machine<R, P>, turn: Turn<R, P>)
    requires
        machine.attentive(),
        machine.can_take(turn),
        machine.asleep[turn.index],
        machine.action(turn) is Wait,
    ensures
        machine.after(turn) == machine,
{
    let after = machine.after(turn);
    assert(after.system.operations =~= machine.system.operations);
    assert(after.asleep =~= machine.asleep);
}

/// Where no operation has a lock every request can be granted.
pub proof fn law_unlocked_store_grants_all<R, P>(machine: Machine<R, P>, i: int)
    requires
        machine.system.consistent(),
        forall|k: int| 0 <= k < machine.size() ==> !(#[trigger] machine.op(k)).holds_lock(),
    ensures
        machine.grantable(i),
{
    assert forall|k: int| 0 <= k < machine.system.operations.len() implies !(
    #[trigger] machine.system.operations[k]).holds_lock() by {
        assert(!machine.op(k).holds_lock());
    }
    law_quiet_system_is_unlocked(machine.system);
}

/// No deadlock: as long as an operation is not over, some operation can go on.
/// No set of operations waits on each other for ever.
pub proof fn law_no_deadlock<R, P>(machine: Machine<R, P>) -> (turn: Turn<R, P>)
    requires
        machine.attentive(),
        !machine.all_over(),
    ensures
        machine.moves_on(turn),
{
    let unfinished = choose|k: int|
        0 <= k < machine.size() && !((#[trigger] machine.op(k)).stage is Finished);
    let index = if exists|k: int| 0 <= k < machine.size() && under_way(#[trigger] machine.op(k)) {
        let k = choose|k: int| 0 <= k < machine.size() && under_way(#[trigger] machine.op(k));
        if machine.asleep[k] {
            law_blocked_by_a_holder(machine.system, k)
        } else {
            k
        }
    } else {
        unfinished
    };
    let op = machine.op(index);
    let event = match op.stage {
        Stage::Requesting => Event::Start { now: 0 },
        Stage::Waiting => Event::Woken { timed_out: false, now: 0 },
        Stage::Opening => Event::Opened,
        Stage::Locking => Event::Locked,
        Stage::Running => Event::Returned(Ok(arbitrary())),
        _ => Event::Closed,
    };
    Turn { index, event, woken: 0 }
}

/// How much can still happen to one of `size` operations: each of its stages
/// counts for more than the wake-ups that one step can give, and a wake-up
/// counts for one.
pub open spec fn effort<R, P>(op: OperationView<R, P>, asleep: bool, size: nat) -> nat {
    ((6 - progress(op)) * (size + 1) + if op.stage is Waiting && !asleep {
        1int
    } else {
        0int
    }) as nat
}

impl<R, P> Machine<R, P> {
    /// How much can still happen to the first `m` operations.
    pub open spec fn work_of_first(self, m: nat) -> nat
        decreases m,
    {
        if m == 0 {
            0
        } else {
            self.work_of_first((m - 1) as nat) + effort(
                self.op(m - 1),
                self.asleep[m - 1],
                self.size(),
            )
        }
    }

    /// How much can still happen.
    pub open spec fn work(self) -> nat {
        self.work_of_first(self.size())
    }
}

/// The machine after all of `turns`, in order.
pub open spec fn play<R, P>(machine: Machine<R, P>, turns: Seq<Turn<R, P>>) -> Machine<R, P>
    decreases turns.len(),
{
    if turns.len() == 0 {
        machine
    } else {
        play(machine, turns.drop_last()).after(turns.last())
    }
}

/// Whether each of `turns`, in order, moves the machine on.
pub open spec fn keeps_moving<R, P>(machine: Machine<R, P>, turns: Seq<Turn<R, P>>) -> bool
    decreases turns.len(),
{
    turns.len() > 0 ==> keeps_moving(machine, turns.drop_last()) && play(
        machine,
        turns.drop_last(),
    ).moves_on(turns.last())
}

proof fn lemma_effort_bound<R, P>(op: OperationView<R, P>, asleep: bool, size: nat)
    ensures
        effort(op, asleep, size) <= 6 * (size + 1),
{
    let left = 6 - progress(op);
    assert(left * (size + 1) + (6 - left) * (size + 1) == 6 * (size + 1)) by (nonlinear_arith);
    assert((6 - left) * (size + 1) >= 6 - left) by (nonlinear_arith)
        requires
            0 <= left <= 6,
    ;
    assert(left * (size + 1) >= 0) by (nonlinear_arith)
        requires
            0 <= left,
    ;
}

proof fn lemma_work_bound<R, P>(machine: Machine<R, P>, m: nat)
    ensures
        machine.work_of_first(m) <= m * (6 * (machine.size() + 1)),
    decreases m,
{
    if m > 0 {
        let n = machine.size();
        lemma_work_bound(machine, (m - 1) as nat);
        lemma_effort_bound(machine.op(m - 1), machine.asleep[m - 1], n);
        assert(m * (6 * (n + 1)) == (m - 1) * (6 * (n + 1)) + 6 * (n + 1)) by (nonlinear_arith);
    }
}

/// One operation loses more than the others can gain.
proof fn lemma_work_step<R, P>(before: Machine<R, P>, after: Machine<R, P>, i: int, m: nat)
    requires
        after.size() == before.size(),
        0 <= i < before.size(),
        m <= before.size(),
        effort(after.op(i), after.asleep[i], after.size()) + before.size() < effort(
            before.op(i),
            before.asleep[i],
            before.size(),
        ),
        forall|k: int|
            #![trigger after.op(k)]
            0 <= k < before.size() && k != i ==> effort(
                after.op(k),
                after.asleep[k],
                after.size(),
            ) <= effort(before.op(k), before.asleep[k], before.size()) + 1,
    ensures
        i < m ==> after.work_of_first(m) + before.size() < before.work_of_first(m) + m,
        i >= m ==> after.work_of_first(m) <= before.work_of_first(m) + m,
    decreases m,
{
    if m > 0 {
        lemma_work_step(before, after, i, (m - 1) as nat);
        let op = after.op(m - 1);
    }
}

/// A wake-up is used up, and nothing else changes.
proof fn lemma_work_wait<R, P>(before: Machine<R, P>, after: Machine<R, P>, i: int, m: nat)
    requires
        after.size() == before.size(),
        0 <= i < before.size(),
        m <= before.size(),
        effort(after.op(i), after.asleep[i], after.size()) < effort(
            before.op(i),
            before.asleep[i],
            before.size(),
        ),
        forall|k: int|
            #![trigger after.op(k)]
            0 <= k < before.size() && k != i ==> effort(
                after.op(k),
                after.asleep[k],
                after.size(),
            ) == effort(before.op(k), before.asleep[k], before.size()),
    ensures
        i < m ==> after.work_of_first(m) < before.work_of_first(m),
        i >= m ==> after.work_of_first(m) == before.work_of_first(m),
    decreases m,
{
    if m > 0 {
        lemma_work_wait(before, after, i, (m - 1) as nat);
        let op = after.op(m - 1);
    }
}

/// Each turn that moves the machine on leaves less that can still happen.
pub proof fn law_turn_leaves_less<R, P>(machine: Machine<R, P>, turn: Turn<R, P>)
    requires
        machine.attentive(),
        machine.moves_on(turn),
    ensures
        machine.after(turn).work() < machine.work(),
{
    let i = turn.index;
    let n = machine.size();
    let op = machine.op(i);
    let step = op.step(machine.system.store, turn.event);
    let after = machine.after(turn);
    law_operation_goes_forward(op, machine.system.store, turn.event);
    assert(after.op(i) == step.operation);
    assert forall|k: int| 0 <= k < n && k != i implies #[trigger] after.op(k) == machine.op(k) by {}
    if progress(op) < progress(step.operation) {
        let most = 6 - progress(op);
        let left = 6 - progress(step.operation);
        assert((left + 1) * (n + 1) <= most * (n + 1)) by (nonlinear_arith)
            requires
                left + 1 <= most,
        ;
        assert((left + 1) * (n + 1) == left * (n + 1) + n + 1) by (nonlinear_arith);
        assert(left * (n + 1) >= 0) by (nonlinear_arith)
            requires
                0 <= left,
        ;
        lemma_work_step(machine, after, i, n);
    } else {
        lemma_work_wait(machine, after, i, n);
    }
}

/// Every call returns, if threads call the store one call after the other, no
/// closure runs for ever or calls the store itself, and no other process has a
/// lock on a file. However the threads take turns, the operations take no more
/// turns than their number allows, and as long as one of them is not over there
/// is a turn to take. The same holds from a shutdown on, whenever it comes.
pub proof fn law_every_call_returns<R, P>(machine: Machine<R, P>, turns: Seq<Turn<R, P>>)
    requires
        machine.attentive(),
        keeps_moving(machine, turns),
    ensures
        play(machine, turns).attentive(),
        play(machine, turns).size() == machine.size(),
        turns.len() + play(machine, turns).work() <= machine.work(),
        turns.len() <= 6 * machine.size() * (machine.size() + 1),
        play(machine, turns).shut_down().attentive(),
        play(machine, turns).all_over() <==> forall|turn: Turn<R, P>|
            !(#[trigger] play(machine, turns).moves_on(turn)),
    decreases turns.len(),
{
    let last = play(machine, turns);
    if turns.len() > 0 {
        let before = play(machine, turns.drop_last());
        law_every_call_returns(machine, turns.drop_last());
        law_no_wakeup_is_lost(before, turns.last());
        law_turn_leaves_less(before, turns.last());
    }
    law_shutdown_keeps_consistency(last.system);
    let n = machine.size();
    lemma_work_bound(machine, n);
    assert(n * (6 * (n + 1)) == 6 * n * (n + 1)) by (nonlinear_arith);
    if !last.all_over() {
        let turn = law_no_deadlock(last);
        assert(last.moves_on(turn));
    }
    assert forall|turn: Turn<R, P>| last.all_over() implies !(#[trigger] last.moves_on(turn)) by {
        if last.moves_on(turn) {
            assert(last.op(turn.index).stage is Finished);
        }
    }
}

} // verus!
