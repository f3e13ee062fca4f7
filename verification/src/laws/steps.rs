//! Laws of one operation.

use crate::error::{ErrorView, LockType};
use crate::flock::operation;
use crate::laws::table::{law_files_are_independent, law_release_undoes_grant};
use crate::lock_info::compatible;
use crate::operation::{
    requested, Action, Event, Mode, OperationView, Outcome, Stage, StepView, RETRY_PAUSE,
};
use crate::path::{path_key, PathKey};
use crate::store::StoreView;
use vstd::prelude::*;

verus! {

/// An operation gets its lock when it first asks if and only if the lock can
/// be granted, whatever its mode and the time. So a timeout of zero gets a
/// lock that is free.
pub proof fn law_free_lock_is_granted<R, P>(
    op: OperationView<R, P>,
    store: StoreView,
    now: u128,
)
    ensures
        op.step(store, Event::Start { now }).operation.stage is Opening <==> store.file(
            op.key(),
        ).can_grant(op.lock_type),
{
}

/// A woken operation gets a lock that has become free, even if its time is up,
/// unless the store goes away.
pub proof fn law_woken_operation_gets_free_lock<R, P>(
    op: OperationView<R, P>,
    store: StoreView,
    timed_out: bool,
    now: u128,
)
    requires
        !store.shutdown,
        store.file(op.key()).can_grant(op.lock_type),
    ensures
        op.step(store, Event::Woken { timed_out, now }) == op.enter(store),
{
}

/// An operation that waits while its store goes away fails when it is woken,
/// and leaves the store as it is. So does one that waits for the kernel's lock
/// until a deadline, once it is told that the lock is still taken. No operation
/// begins to wait for its lock or asks again for the kernel's.
pub proof fn law_shutdown_ends_waiting<R, P>(
    op: OperationView<R, P>,
    store: StoreView,
    timed_out: bool,
    now: u128,
    error: std::io::Error,
    code: Option<i32>,
    event: Event<R, P>,
)
    requires
        store.shutdown,
    ensures
        op.step(store, Event::Woken { timed_out, now }) == op.give_up(store, op.shut_out()),
        op.mode is Deadline && store.busy.says_busy(code) ==> op.step(
            store,
            Event::LockFailed { error, code, now },
        ) == op.close(store, op.shut_out()),
        !(op.step(store, event).action is Wait),
        !(op.step(store, event).action is Retry),
{
}

/// What an operation can end with: only one that does not wait is ever
/// contended, only one with a deadline times out, with its own file, lock type
/// and timeout, and none finds a lock poisoned.
pub open spec fn proper_outcome<R, P>(
    op: OperationView<R, P>,
    outcome: Outcome<R, P, ErrorView>,
) -> bool {
    match outcome {
        Outcome::Contended => op.mode is NonBlocking,
        Outcome::Failed(ErrorView::Timeout { path, lock_type, timeout }) => {
            &&& op.mode is Deadline
            &&& timeout == op.mode->timeout
            &&& path == op.path
            &&& lock_type == op.lock_type
        },
        Outcome::Failed(ErrorView::Poisoned { .. }) => false,
        _ => true,
    }
}

/// Whether an operation ends because its time is up.
pub open spec fn is_timeout<R, P>(outcome: Outcome<R, P, ErrorView>) -> bool {
    outcome matches Outcome::Failed(ErrorView::Timeout { .. })
}

/// What holds of every operation: one that does not wait is never waiting, and
/// one that closes its file will end properly.
pub open spec fn proper<R, P>(op: OperationView<R, P>) -> bool {
    &&& op.mode is NonBlocking ==> !(op.stage is Waiting)
    &&& op.stage is Closing ==> proper_outcome(op, op.stage->Closing_0)
}

/// Every operation begins as a proper one.
pub proof fn law_requests_are_proper<R, P>(
    path: Seq<u8>,
    holder: u64,
    lock_type: LockType,
    mode: Mode,
)
    ensures
        proper(requested::<R, P>(path, holder, lock_type, mode)),
{
}

/// Every operation stays a proper one and ends with a proper outcome: a try
/// never waits, waiting operations are never contended, and a panic poisons
/// nothing.
pub proof fn law_operations_end_properly<R, P>(
    op: OperationView<R, P>,
    store: StoreView,
    event: Event<R, P>,
)
    requires
        proper(op),
        op.expects(event),
    ensures
        proper(op.step(store, event).operation),
        op.step(store, event).action is Finish ==> proper_outcome(
            op,
            op.step(store, event).action->outcome,
        ),
        op.mode is NonBlocking ==> !(op.step(store, event).action is Wait) && !(op.step(
            store,
            event,
        ).action is Retry),
{
}

/// A try is contended if and only if the lock cannot be granted, or the kernel
/// says that another process has it.
pub proof fn law_try_is_contended_iff_taken<R, P>(
    op: OperationView<R, P>,
    store: StoreView,
    now: u128,
    error: std::io::Error,
    code: Option<i32>,
)
    requires
        op.mode is NonBlocking,
    ensures
        op.step(store, Event::Start { now }) == op.give_up(store, Outcome::Contended)
            <==> !store.file(op.key()).can_grant(op.lock_type),
        op.step(store, Event::LockFailed { error, code, now }) == op.close(
            store,
            Outcome::Contended,
        ) <==> store.busy.says_busy(code),
{
}

/// Whether a step decides that the operation ends because its time is up,
/// before or after it has got its lock in the store.
pub open spec fn times_out<R, P>(op: OperationView<R, P>, step: StepView<R, P>) -> bool {
    match step.operation.stage {
        Stage::Closing(outcome) => is_timeout(outcome),
        Stage::Finished => !(op.stage is Closing) && is_timeout(step.action->outcome),
        _ => false,
    }
}

/// An operation times out only if it has a deadline and its store does not go
/// away, and only when its lock in the store cannot be granted or the kernel
/// says that its lock is taken, and the clock has reached the deadline or the
/// wait its limit.
pub proof fn law_timeout_comes_in_time<R, P>(
    op: OperationView<R, P>,
    store: StoreView,
    event: Event<R, P>,
)
    requires
        op.expects(event),
        times_out(op, op.step(store, event)),
    ensures
        op.mode is Deadline,
        !store.shutdown,
        match event {
            Event::Start { now } => !store.file(op.key()).can_grant(op.lock_type) && now
                >= op.mode->deadline,
            Event::Woken { timed_out, now } => !store.file(op.key()).can_grant(op.lock_type) && (
            timed_out || now >= op.mode->deadline),
            Event::LockFailed { code, now, .. } => store.busy.says_busy(code) && now
                >= op.mode->deadline,
            _ => false,
        },
{
}

/// What an operation that closes its file will end with is what it ends with.
pub proof fn law_closing_keeps_outcome<R, P>(
    op: OperationView<R, P>,
    store: StoreView,
    event: Event<R, P>,
)
    requires
        op.stage is Closing,
        op.expects(event),
    ensures
        op.step(store, event).action is Finish,
        op.step(store, event).action->outcome == op.stage->Closing_0,
{
}

/// The deadline covers the whole wait, for the lock in the store and for the
/// kernel's lock: from the deadline on an operation that cannot have its lock
/// waits no more and ends because its time is up, or because the store goes
/// away.
pub proof fn law_deadline_ends_every_wait<R, P>(
    op: OperationView<R, P>,
    store: StoreView,
    now: u128,
    timed_out: bool,
    error: std::io::Error,
    code: Option<i32>,
)
    requires
        op.mode is Deadline,
        now >= op.mode->deadline,
    ensures
        !store.file(op.key()).can_grant(op.lock_type) ==> op.step(store, Event::Start { now })
            == op.give_up(
            store,
            if store.shutdown {
                op.shut_out()
            } else {
                op.timed_out(op.mode->timeout)
            },
        ),
        !store.file(op.key()).can_grant(op.lock_type) ==> op.step(
            store,
            Event::Woken { timed_out, now },
        ) == op.give_up(
            store,
            if store.shutdown {
                op.shut_out()
            } else {
                op.timed_out(op.mode->timeout)
            },
        ),
        store.busy.says_busy(code) ==> op.step(store, Event::LockFailed { error, code, now })
            == op.close(
            store,
            if store.shutdown {
                op.shut_out()
            } else {
                op.timed_out(op.mode->timeout)
            },
        ),
{
}

/// An operation that must not wait for ever never lets the kernel block it:
/// every call of `flock(2)` for a try or for an operation with a deadline
/// carries the flag 4. Every other call does not.
pub proof fn law_timed_lock_never_blocks<R, P>(
    op: OperationView<R, P>,
    store: StoreView,
    event: Event<R, P>,
)
    requires
        op.expects(event),
    ensures
        match op.step(store, event).action {
            Action::Lock { op: code } => code == operation(op.lock_type, op.mode is Blocking) && (
            code & 4 == 4 <==> !(op.mode is Blocking)),
            Action::Retry { op: code, .. } => code == operation(op.lock_type, false) && code & 4
                == 4 && op.mode is Deadline,
            _ => true,
        },
{
    assert(1i32 & 4i32 == 0i32) by (bit_vector);
    assert(2i32 & 4i32 == 0i32) by (bit_vector);
    assert(5i32 & 4i32 == 4i32) by (bit_vector);
    assert(6i32 & 4i32 == 4i32) by (bit_vector);
}

/// A wait with a deadline ends at the deadline, not before and not after, and
/// a wait without one has no end of its own.
pub proof fn law_wait_ends_at_deadline<R, P>(
    op: OperationView<R, P>,
    store: StoreView,
    event: Event<R, P>,
)
    requires
        op.expects(event),
        op.step(store, event).action is Wait,
    ensures
        match (op.mode, event) {
            (Mode::Deadline { deadline, .. }, Event::Start { now }) => now < deadline && op.step(
                store,
                event,
            ).action->limit == Some((deadline - now) as u128),
            (Mode::Deadline { deadline, .. }, Event::Woken { now, .. }) => now < deadline
                && op.step(store, event).action->limit == Some((deadline - now) as u128),
            _ => op.step(store, event).action->limit == None::<u128>,
        },
        op.step(store, event).store == store,
        !op.step(store, event).operation.holds_lock(),
{
}

/// An operation asks again for the kernel's lock only if it has a deadline and
/// the lock is taken, and sleeps before for a while that ends no later than the
/// deadline. It keeps its lock in the store meanwhile.
pub proof fn law_retry_comes_in_time<R, P>(
    op: OperationView<R, P>,
    store: StoreView,
    event: Event<R, P>,
)
    requires
        op.expects(event),
        op.step(store, event).action is Retry,
    ensures
        op.mode is Deadline,
        event matches Event::LockFailed { code, now, .. } && store.busy.says_busy(code) && 0
            < op.step(store, event).action->pause <= op.mode->deadline - now,
        op.step(store, event).action->pause <= RETRY_PAUSE,
        op.step(store, event).store == store,
        op.step(store, event).operation == op,
{
}

/// The two steps that end an operation whose closure is done: the file is
/// closed, then the lock is given back.
pub open spec fn finish<R, P>(
    op: OperationView<R, P>,
    store: StoreView,
    event: Event<R, P>,
) -> StepView<R, P> {
    let closing = op.step(store, event);
    closing.operation.step(closing.store, Event::Closed)
}

/// What the closure returns reaches the caller as it is, and its error does as
/// an I/O error.
pub proof fn law_closure_result_reaches_caller<R, P>(
    op: OperationView<R, P>,
    store: StoreView,
    result: Result<R, std::io::Error>,
)
    ensures
        finish(op, store, Event::Returned(result)).action is Finish,
        finish(op, store, Event::Returned(result)).action->outcome == (match result {
            Ok(value) => Outcome::<R, P, ErrorView>::Returned(value),
            Err(error) => Outcome::Failed(ErrorView::Io(error)),
        }),
        finish(op, store, Event::Returned(result)).store == store.released(op.key(), op.holder),
{
}

/// A closure that panics gives its lock back just as one that returns does,
/// and its panic reaches the caller.
pub proof fn law_panic_releases_lock<R, P>(
    op: OperationView<R, P>,
    store: StoreView,
    payload: P,
    result: Result<R, std::io::Error>,
)
    ensures
        finish(op, store, Event::Panicked(payload)).store == finish(
            op,
            store,
            Event::Returned(result),
        ).store,
        finish(op, store, Event::Panicked(payload)).action is Finish,
        finish(op, store, Event::Panicked(payload)).action->outcome == Outcome::<
            R,
            P,
            ErrorView,
        >::Panicked(payload),
        finish(op, store, Event::Panicked(payload)).action->wake == finish(
            op,
            store,
            Event::Returned(result),
        ).action->wake,
{
}

/// The kernel's lock goes before the lock in the store: an operation gives its
/// lock back only once its file is closed or could not be opened. Every other
/// step leaves the locks as they are or adds the operation's own.
pub proof fn law_file_is_closed_before_release<R, P>(
    op: OperationView<R, P>,
    store: StoreView,
    event: Event<R, P>,
)
    requires
        op.expects(event),
        !(event is Closed),
        !(event is OpenFailed),
    ensures
        ({
            let after = op.step(store, event).store;
            after == store || after == store.granted(op.key(), op.holder, op.lock_type)
        }),
        op.holds_lock() ==> op.step(store, event).operation.holds_lock(),
{
}

/// The closure runs only once the operation has its lock in the store and the
/// kernel's lock.
pub proof fn law_closure_runs_under_both_locks<R, P>(
    op: OperationView<R, P>,
    store: StoreView,
    event: Event<R, P>,
)
    requires
        op.expects(event),
        op.step(store, event).action is Run,
    ensures
        event is Locked,
        op.stage is Locking,
        op.holds_lock(),
        op.step(store, event).operation.holds_lock(),
{
}

/// How far an operation has come, as a number.
pub open spec fn progress<R, P>(op: OperationView<R, P>) -> nat {
    match op.stage {
        Stage::Requesting => 0,
        Stage::Waiting => 1,
        Stage::Opening => 2,
        Stage::Locking => 3,
        Stage::Running => 4,
        Stage::Closing(_) => 5,
        Stage::Finished => 6,
    }
}

/// An operation never goes back, and stays where it is only to wait on or to
/// ask again for the kernel's lock. So its closure runs at most once.
pub proof fn law_operation_goes_forward<R, P>(
    op: OperationView<R, P>,
    store: StoreView,
    event: Event<R, P>,
)
    requires
        op.expects(event),
    ensures
        progress(op) < progress(op.step(store, event).operation) || (op.stage is Waiting && op.step(
            store,
            event,
        ).action is Wait) || (op.stage is Locking && op.step(store, event).action is Retry),
{
}

/// The file that is opened is the one whose lock the operation has just got:
/// its path is that of the operation, and under that path the store lists the
/// operation's thread with the operation's lock.
pub proof fn law_opened_file_is_the_locked_one<R, P>(
    op: OperationView<R, P>,
    store: StoreView,
    event: Event<R, P>,
)
    requires
        op.expects(event),
        op.step(store, event).action is Open,
    ensures
        op.step(store, event).action->path == op.path,
        ({
            let holders = op.step(store, event).store.file(
                path_key(op.step(store, event).action->path),
            ).holders;
            holders.contains_key(op.holder) && holders[op.holder] == op.lock_type
        }),
{
    let before = store.file(op.key());
    if before.holders.contains_key(op.holder) {
        assert(compatible(before.holders[op.holder], op.lock_type));
    }
}

/// Files are created for writers only.
pub proof fn law_only_writers_create_files<R, P>(
    op: OperationView<R, P>,
    store: StoreView,
    event: Event<R, P>,
)
    requires
        op.expects(event),
        op.step(store, event).action is Open,
    ensures
        op.step(store, event).action->options.create is Some <==> op.lock_type is Exclusive,
{
}

/// What an operation does depends on the locks of no file but its own.
pub proof fn law_operation_depends_on_its_file_alone<R, P>(
    op: OperationView<R, P>,
    store: StoreView,
    other: StoreView,
    event: Event<R, P>,
)
    requires
        op.expects(event),
        store.file(op.key()) == other.file(op.key()),
        store.locks.contains_key(op.key()) <==> other.locks.contains_key(op.key()),
        store.shutdown == other.shutdown,
        store.busy == other.busy,
    ensures
        op.step(store, event).action == op.step(other, event).action,
        op.step(store, event).operation == op.step(other, event).operation,
        op.step(store, event).store.file(op.key()) == op.step(other, event).store.file(op.key()),
{
}

/// A step of an operation leaves the locks of every other file, the root and
/// the shutdown of the store as they are.
pub proof fn law_operation_touches_its_file_alone<R, P>(
    op: OperationView<R, P>,
    store: StoreView,
    event: Event<R, P>,
    other: PathKey,
)
    requires
        op.expects(event),
        op.key() != other,
    ensures
        op.step(store, event).store.file(other) == store.file(other),
        op.step(store, event).store.root == store.root,
        op.step(store, event).store.shutdown == store.shutdown,
        op.step(store, event).store.busy == store.busy,
{
    law_files_are_independent(store, op.key(), other, op.holder, op.lock_type);
}

/// An operation whose lock is free and whose calls all succeed opens the file,
/// takes the kernel's lock, runs the closure, closes the file and hands the
/// closure's value to the caller, and the store is as it was before.
pub proof fn law_undisturbed_operation<R, P>(
    op: OperationView<R, P>,
    store: StoreView,
    now: u128,
    value: R,
)
    requires
        op.stage is Requesting,
        store.valid(),
        store.file(op.key()).can_grant(op.lock_type),
    ensures
        ({
            let granted = op.step(store, Event::Start { now });
            let opened = granted.operation.step(granted.store, Event::Opened);
            let locked = opened.operation.step(opened.store, Event::Locked);
            let done = finish(locked.operation, locked.store, Event::Returned(Ok(value)));
            &&& granted.action is Open
            &&& opened.action is Lock
            &&& locked.action is Run
            &&& done.action is Finish
            &&& done.action->outcome == Outcome::<R, P, ErrorView>::Returned(value)
            &&& done.store == store
        }),
{
    law_release_undoes_grant(store, op.key(), op.holder, op.lock_type);
}

} // verus!
