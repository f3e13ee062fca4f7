//! Laws of what a caller gets: each event of an operation, and what it must
//! lead to.
//!
//! The laws of this file say it in terms of the lock table's entries, the
//! operation's own fields, the clock and the system's codes.

use crate::error::{other_error_of, ErrorView, FileLockError, LockType};
use crate::fd::OpenOptions;
use crate::laws::table::{
    law_grant_is_recorded, law_grantable_iff_compatible, law_release_is_recorded,
    law_release_wakes_all_iff,
};
use crate::operation::{
    requested, Action, Event, Mode, OperationView, Outcome, Stage, StepView, Wake,
};
use crate::path::{path_key, PathKey};
use crate::store::StoreView;
use crate::time::Duration;
use vstd::prelude::*;

verus! {

/// Whether a lock of type `lock_type` on the file `path` is to be had: the file
/// has no holder, or the request and all that is held are shared.
pub open spec fn lock_is_free(store: StoreView, path: Seq<u8>, lock_type: LockType) -> bool {
    store.locks.contains_key(path_key(path)) ==> forall|h: u64| #[trigger]
        store.locks[path_key(path)].holders.contains_key(h) ==> lock_type is Shared
            && store.locks[path_key(path)].holders[h] is Shared
}

/// The error of kind `Other` that a store gives that goes away.
pub open spec fn dropped_error() -> ErrorView {
    ErrorView::Io(other_error_of("FileStore dropped while lock was pending"@))
}

/// The operation stays what it was, but for its stage.
pub open spec fn moved_to<R, P>(
    op: OperationView<R, P>,
    step: StepView<R, P>,
    stage: Stage<Outcome<R, P, ErrorView>>,
) -> bool {
    &&& step.operation.path == op.path
    &&& step.operation.holder == op.holder
    &&& step.operation.lock_type == op.lock_type
    &&& step.operation.mode == op.mode
    &&& step.operation.stage == stage
}

/// The operation is over with `outcome`, has no lock to give back, and leaves
/// the store as it is.
pub open spec fn ends_without_lock<R, P>(
    op: OperationView<R, P>,
    store: StoreView,
    step: StepView<R, P>,
    outcome: Outcome<R, P, ErrorView>,
) -> bool {
    &&& moved_to(op, step, Stage::Finished)
    &&& step.action == Action::<Outcome<R, P, ErrorView>, Seq<u8>>::Finish { outcome, wake: None }
    &&& step.store == store
}

/// The operation closes its file, will end with `outcome`, and leaves the store
/// as it is.
pub open spec fn closes_with<R, P>(
    op: OperationView<R, P>,
    store: StoreView,
    step: StepView<R, P>,
    outcome: Outcome<R, P, ErrorView>,
) -> bool {
    &&& moved_to(op, step, Stage::Closing(outcome))
    &&& step.action == Action::<Outcome<R, P, ErrorView>, Seq<u8>>::Close
    &&& step.store == store
}

/// The operation sleeps until it is woken or until `limit` nanoseconds are over,
/// and leaves the store as it is.
pub open spec fn sleeps<R, P>(
    op: OperationView<R, P>,
    store: StoreView,
    step: StepView<R, P>,
    limit: Option<u128>,
) -> bool {
    &&& moved_to(op, step, Stage::Waiting)
    &&& step.action == Action::<Outcome<R, P, ErrorView>, Seq<u8>>::Wait { limit }
    &&& step.store == store
}

/// An operation begins as it was asked for: with the caller's path, thread, lock
/// type and mode, and nothing done yet.
pub proof fn law_request_is_as_asked_for<R, P>(
    path: Seq<u8>,
    holder: u64,
    lock_type: LockType,
    mode: Mode,
)
    ensures
        requested::<R, P>(path, holder, lock_type, mode).path == path,
        requested::<R, P>(path, holder, lock_type, mode).holder == holder,
        requested::<R, P>(path, holder, lock_type, mode).lock_type == lock_type,
        requested::<R, P>(path, holder, lock_type, mode).mode == mode,
        requested::<R, P>(path, holder, lock_type, mode).stage == Stage::<
            Outcome<R, P, ErrorView>,
        >::Requesting,
        requested::<R, P>(path, holder, lock_type, mode).waits() <==> !(mode is NonBlocking),
{
}

/// A lock with a timeout that cannot be had at once makes its caller wait for
/// the whole timeout, and for no longer: the wait ends after `secs` times 10^9
/// plus `nanos` nanoseconds, and whoever wakes the caller from then on, it gets
/// a timeout that names its file, its lock type and the timeout as it was given.
pub proof fn law_timeout_is_kept<R, P>(
    path: Seq<u8>,
    holder: u64,
    lock_type: LockType,
    timeout: Duration,
    now: u128,
    later: u128,
    timed_out: bool,
    store: StoreView,
    then: StoreView,
)
    requires
        now + timeout.secs() * 1_000_000_000 + timeout.subsec_nanos() <= u128::MAX,
        !store.shutdown,
        !then.shutdown,
        !lock_is_free(store, path, lock_type),
        !lock_is_free(then, path, lock_type),
    ensures
        ({
            let span = timeout.secs() * 1_000_000_000 + timeout.subsec_nanos();
            let op = requested::<R, P>(
                path,
                holder,
                lock_type,
                Mode::Deadline { timeout, deadline: (now + timeout.total_nanos()) as u128 },
            );
            let asked = op.step(store, Event::Start { now });
            let end = Outcome::<R, P, ErrorView>::Failed(
                ErrorView::Timeout { path, lock_type, timeout },
            );
            let woken = asked.operation.step(then, Event::Woken { timed_out, now: later });
            &&& span > 0 ==> sleeps(op, store, asked, Some(span as u128))
            &&& span == 0 ==> ends_without_lock(op, store, asked, end)
            &&& span > 0 && (timed_out || later >= now + span) ==> ends_without_lock(
                op,
                then,
                woken,
                end,
            )
            &&& span > 0 && !timed_out && now <= later < now + span ==> sleeps(
                op,
                then,
                woken,
                Some((now + span - later) as u128),
            )
        }),
{
    lemma_free_iff_granted(
        requested::<R, P>(path, holder, lock_type, Mode::Blocking),
        store,
    );
    lemma_free_iff_granted(
        requested::<R, P>(path, holder, lock_type, Mode::Blocking),
        then,
    );
}

/// A lock is free for an operation if and only if its request can be granted.
proof fn lemma_free_iff_granted<R, P>(op: OperationView<R, P>, store: StoreView)
    ensures
        lock_is_free(store, op.path, op.lock_type) <==> store.file(op.key()).can_grant(
            op.lock_type,
        ),
        op.key() == path_key(op.path),
{
    let key = path_key(op.path);
    if store.locks.contains_key(key) {
        law_grantable_iff_compatible(store.locks[key].holders, op.lock_type);
        let holders = store.locks[key].holders;
        if lock_is_free(store, op.path, op.lock_type) {
            assert forall|h: u64| #[trigger] holders.contains_key(h) implies op.lock_type is Shared
                && holders[h] is Shared by {
                assert(store.locks[path_key(op.path)].holders.contains_key(h));
            }
        }
    }
}

/// Who asks for a lock that is free gets it, at the first asking and, unless the
/// store goes away, when woken, whatever the mode and the clock: the store lists
/// it as a holder, and its own file is opened for reading and writing, and
/// created with mode 0o644 (420) if need be for a writer alone.
pub proof fn law_free_lock_is_taken<R, P>(
    op: OperationView<R, P>,
    store: StoreView,
    event: Event<R, P>,
)
    requires
        lock_is_free(store, op.path, op.lock_type),
        event is Start || event is Woken,
        event is Woken ==> !store.shutdown,
    ensures
        ({
            let step = op.step(store, event);
            let key = path_key(op.path);
            &&& moved_to(op, step, Stage::Opening)
            &&& step.action == Action::<Outcome<R, P, ErrorView>, Seq<u8>>::Open {
                path: op.path,
                options: OpenOptions {
                    read: true,
                    write: true,
                    create: if op.lock_type is Exclusive {
                        Some(420u32)
                    } else {
                        None
                    },
                },
            }
            &&& step.store.root == store.root
            &&& step.store.busy == store.busy
            &&& step.store.shutdown == store.shutdown
            &&& step.store.locks.contains_key(key)
            &&& step.store.locks[key].holders.contains_key(op.holder)
            &&& step.store.locks[key].holders[op.holder] == op.lock_type
        }),
{
    lemma_free_iff_granted(op, store);
    law_grant_is_recorded(store, path_key(op.path), op.holder, op.lock_type);
}

/// Who asks to wait for a lock that is taken waits for it: without a deadline
/// for as long as it takes, whatever the clock shows; with one until then, and
/// not at all from then on. Who does not want to wait is told that the lock is
/// taken. A store that goes away lets nobody wait.
pub proof fn law_taken_lock_is_waited_for<R, P>(
    op: OperationView<R, P>,
    store: StoreView,
    now: u128,
)
    requires
        !lock_is_free(store, op.path, op.lock_type),
    ensures
        ({
            let step = op.step(store, Event::Start { now });
            match op.mode {
                Mode::NonBlocking => ends_without_lock(op, store, step, Outcome::Contended),
                Mode::Blocking => if store.shutdown {
                    ends_without_lock(op, store, step, Outcome::Failed(dropped_error()))
                } else {
                    sleeps(op, store, step, None)
                },
                Mode::Deadline { timeout, deadline } => if store.shutdown {
                    ends_without_lock(op, store, step, Outcome::Failed(dropped_error()))
                } else if now < deadline {
                    sleeps(op, store, step, Some((deadline - now) as u128))
                } else {
                    ends_without_lock(
                        op,
                        store,
                        step,
                        Outcome::Failed(
                            ErrorView::Timeout {
                                path: op.path,
                                lock_type: op.lock_type,
                                timeout,
                            },
                        ),
                    )
                },
            }
        }),
{
    lemma_free_iff_granted(op, store);
}

/// Who is woken while the lock is still taken sleeps on, without a deadline for
/// as long as it takes, whatever the clock shows and whatever woke it; with one
/// until then, unless the wait has reached its limit.
pub proof fn law_woken_for_nothing_sleeps_on<R, P>(
    op: OperationView<R, P>,
    store: StoreView,
    timed_out: bool,
    now: u128,
)
    requires
        !store.shutdown,
        !lock_is_free(store, op.path, op.lock_type),
    ensures
        ({
            let step = op.step(store, Event::Woken { timed_out, now });
            &&& op.mode is Blocking ==> sleeps(op, store, step, None)
            &&& op.mode matches Mode::Deadline { timeout, deadline } ==> if !timed_out && now
                < deadline {
                sleeps(op, store, step, Some((deadline - now) as u128))
            } else {
                ends_without_lock(
                    op,
                    store,
                    step,
                    Outcome::Failed(
                        ErrorView::Timeout { path: op.path, lock_type: op.lock_type, timeout },
                    ),
                )
            }
        }),
{
    lemma_free_iff_granted(op, store);
}

/// Who is woken in a store that goes away is told so, whatever it waits for.
pub proof fn law_woken_in_dropped_store_is_told<R, P>(
    op: OperationView<R, P>,
    store: StoreView,
    timed_out: bool,
    now: u128,
)
    requires
        store.shutdown,
    ensures
        ends_without_lock(
            op,
            store,
            op.step(store, Event::Woken { timed_out, now }),
            Outcome::Failed(dropped_error()),
        ),
{
}

/// Waiting without a deadline knows no clock, and nor does not waiting: what
/// happens at one time happens at any other.
pub proof fn law_clock_matters_to_deadlines_only<R, P>(
    op: OperationView<R, P>,
    store: StoreView,
    now: u128,
    later: u128,
    timed_out: bool,
    error: std::io::Error,
    code: Option<i32>,
)
    requires
        !(op.mode is Deadline),
    ensures
        op.step(store, Event::Start { now }) == op.step(store, Event::Start { now: later }),
        op.step(store, Event::Woken { timed_out, now }) == op.step(
            store,
            Event::Woken { timed_out: !timed_out, now: later },
        ),
        op.step(store, Event::LockFailed { error, code, now }) == op.step(
            store,
            Event::LockFailed { error, code, now: later },
        ),
{
}

/// Only the time that is left matters to a deadline: if the clock and the
/// deadline are both moved on, the operation is told the same.
pub proof fn law_only_time_left_matters<R, P>(
    op: OperationView<R, P>,
    store: StoreView,
    timeout: Duration,
    deadline: u128,
    now: u128,
    shift: u128,
    timed_out: bool,
    error: std::io::Error,
    code: Option<i32>,
)
    requires
        op.mode == (Mode::Deadline { timeout, deadline }),
        deadline + shift <= u128::MAX,
        now + shift <= u128::MAX,
    ensures
        ({
            let moved = OperationView {
                mode: Mode::Deadline { timeout, deadline: (deadline + shift) as u128 },
                ..op
            };
            let then = (now + shift) as u128;
            &&& op.step(store, Event::Start { now }).action == moved.step(
                store,
                Event::Start { now: then },
            ).action
            &&& op.step(store, Event::Woken { timed_out, now }).action == moved.step(
                store,
                Event::Woken { timed_out, now: then },
            ).action
            &&& op.step(store, Event::LockFailed { error, code, now }).action == moved.step(
                store,
                Event::LockFailed { error, code, now: then },
            ).action
        }),
{
}

/// Once its file is open an operation asks the kernel for a lock of its own
/// type: 1 stands for a shared and 2 for an exclusive one, and 4 is added for
/// all that must not block in the kernel.
pub proof fn law_open_file_is_locked<R, P>(op: OperationView<R, P>, store: StoreView)
    ensures
        ({
            let step = op.step(store, Event::Opened);
            let kind: i32 = if op.lock_type is Shared {
                1
            } else {
                2
            };
            let flag: i32 = if op.mode is Blocking {
                0
            } else {
                4
            };
            &&& moved_to(op, step, Stage::Locking)
            &&& step.action == Action::<Outcome<R, P, ErrorView>, Seq<u8>>::Lock {
                op: (kind + flag) as i32,
            }
            &&& step.store == store
        }),
{
}

/// The operation is over with `outcome` and has given one lock back: the store
/// is as it was but for the locks on its file, and threads are woken, all of
/// them where a lock on the file was exclusive or none is left.
pub open spec fn ends_with_lock<R, P>(
    op: OperationView<R, P>,
    store: StoreView,
    step: StepView<R, P>,
    outcome: Outcome<R, P, ErrorView>,
) -> bool {
    let key = path_key(op.path);
    &&& moved_to(op, step, Stage::Finished)
    &&& step.action == Action::<Outcome<R, P, ErrorView>, Seq<u8>>::Finish {
        outcome,
        wake: Some(
            if (exists|h: u64| #[trigger]
                store.locks[key].holders.contains_key(h) && store.locks[key].holders[h] is Exclusive)
                || !step.store.locks.contains_key(key) {
                Wake::All
            } else {
                Wake::One
            },
        ),
    }
    &&& step.store.root == store.root
    &&& step.store.busy == store.busy
    &&& step.store.shutdown == store.shutdown
    &&& forall|k: PathKey|
        #![trigger step.store.locks.contains_key(k)]
        #![trigger store.locks.contains_key(k)]
        k != key ==> (step.store.locks.contains_key(k) <==> store.locks.contains_key(k))
            && step.store.locks[k] == store.locks[k]
    &&& store.locks[key].nested.count(op.holder) == 0 ==> {
        if store.locks[key].holders.dom() =~= set![op.holder] {
            !step.store.locks.contains_key(key)
        } else {
            step.store.locks.contains_key(key) && step.store.locks[key].holders
                == store.locks[key].holders.remove(op.holder)
        }
    }
    &&& store.locks[key].nested.count(op.holder) > 0 ==> step.store.locks.contains_key(key)
        && step.store.locks[key].holders == store.locks[key].holders
        && step.store.locks[key].nested.count(op.holder) == store.locks[key].nested.count(op.holder)
        - 1
}

proof fn lemma_ends_with_lock<R, P>(
    op: OperationView<R, P>,
    store: StoreView,
    step: StepView<R, P>,
    outcome: Outcome<R, P, ErrorView>,
)
    requires
        store.valid(),
        store.locks.contains_key(path_key(op.path)),
        store.locks[path_key(op.path)].holders.contains_key(op.holder),
        step == op.leave(store, outcome),
    ensures
        ends_with_lock(op, store, step, outcome),
{
    let key = path_key(op.path);
    law_release_is_recorded(store, key, op.holder);
    law_release_wakes_all_iff(store, key, op.holder);
    let holders = store.locks[key].holders;
    if holders.dom() =~= set![op.holder] {
        assert forall|h: u64| #[trigger] holders.contains_key(h) implies h == op.holder by {
            assert(holders.dom().contains(h));
        }
    } else if store.locks[key].nested.count(op.holder) == 0 && forall|h: u64| #[trigger]
        holders.contains_key(h) ==> h == op.holder {
        assert(holders.dom() =~= set![op.holder]);
    }
}

/// A file that cannot be opened is the caller's error, whatever the mode, and
/// the lock on it is given back.
pub proof fn law_open_failure_is_the_callers_error<R, P>(
    op: OperationView<R, P>,
    store: StoreView,
    error: std::io::Error,
)
    requires
        store.valid(),
        store.locks.contains_key(path_key(op.path)),
        store.locks[path_key(op.path)].holders.contains_key(op.holder),
    ensures
        ends_with_lock(
            op,
            store,
            op.step(store, Event::OpenFailed(error)),
            Outcome::Failed(ErrorView::Io(error)),
        ),
{
    lemma_ends_with_lock(
        op,
        store,
        op.step(store, Event::OpenFailed(error)),
        Outcome::Failed(ErrorView::Io(error)),
    );
}

/// An operation whose file is closed ends with what it was to end with, and
/// gives its lock back.
pub proof fn law_closed_operation_ends<R, P>(
    op: OperationView<R, P>,
    store: StoreView,
    outcome: Outcome<R, P, ErrorView>,
)
    requires
        op.stage == Stage::Closing(outcome),
        store.valid(),
        store.locks.contains_key(path_key(op.path)),
        store.locks[path_key(op.path)].holders.contains_key(op.holder),
    ensures
        ends_with_lock(op, store, op.step(store, Event::Closed), outcome),
{
    lemma_ends_with_lock(op, store, op.step(store, Event::Closed), outcome);
}

/// With both locks the closure runs.
pub proof fn law_locked_file_runs_the_closure<R, P>(op: OperationView<R, P>, store: StoreView)
    ensures
        moved_to(op, op.step(store, Event::Locked), Stage::Running),
        op.step(store, Event::Locked).action == Action::<Outcome<R, P, ErrorView>, Seq<u8>>::Run,
        op.step(store, Event::Locked).store == store,
{
}

/// A failure of the kernel's lock is the caller's error, unless it says that the
/// lock is taken to one who does not wait for ever: a try is then contended, and
/// an operation with a deadline is told that the store goes away, or times out,
/// or sleeps for the time that is left, but no longer than 10^6 nanoseconds, and
/// asks again.
pub proof fn law_kernel_refusal<R, P>(
    op: OperationView<R, P>,
    store: StoreView,
    error: std::io::Error,
    code: Option<i32>,
    now: u128,
)
    ensures
        ({
            let step = op.step(store, Event::LockFailed { error, code, now });
            let busy = code is Some && (code->0 == store.busy.would_block || code->0
                == store.busy.again);
            match op.mode {
                Mode::NonBlocking if busy => closes_with(op, store, step, Outcome::Contended),
                Mode::Deadline { timeout, deadline } if busy => if store.shutdown {
                    closes_with(op, store, step, Outcome::Failed(dropped_error()))
                } else if now >= deadline {
                    closes_with(
                        op,
                        store,
                        step,
                        Outcome::Failed(
                            ErrorView::Timeout {
                                path: op.path,
                                lock_type: op.lock_type,
                                timeout,
                            },
                        ),
                    )
                } else {
                    let left = deadline - now;
                    &&& moved_to(op, step, Stage::Locking)
                    &&& step.action == Action::<Outcome<R, P, ErrorView>, Seq<u8>>::Retry {
                        op: if op.lock_type is Shared {
                            5
                        } else {
                            6
                        },
                        pause: if left <= 1_000_000 {
                            left as u128
                        } else {
                            1_000_000
                        },
                    }
                    &&& step.store == store
                },
                _ => closes_with(op, store, step, Outcome::Failed(ErrorView::Io(error))),
            }
        }),
{
}

/// What the closure returns or panics with is what the operation will end with,
/// once its file is closed.
pub proof fn law_closure_decides_the_end<R, P>(
    op: OperationView<R, P>,
    store: StoreView,
    value: R,
    error: std::io::Error,
    payload: P,
)
    ensures
        closes_with(
            op,
            store,
            op.step(store, Event::Returned(Ok(value))),
            Outcome::Returned(value),
        ),
        closes_with(
            op,
            store,
            op.step(store, Event::Returned(Err(error))),
            Outcome::Failed(ErrorView::Io(error)),
        ),
        closes_with(
            op,
            store,
            op.step(store, Event::Panicked(payload)),
            Outcome::Panicked(payload),
        ),
{
}

/// Whether a step decides that the operation ends with `outcome`.
pub open spec fn decides<R, P>(
    op: OperationView<R, P>,
    step: StepView<R, P>,
    outcome: Outcome<R, P, ErrorView>,
) -> bool {
    &&& !(op.stage is Closing)
    &&& step.operation.stage == Stage::Closing(outcome) || (step.action matches Action::Finish {
        outcome: end,
        ..
    } && end == outcome)
}

/// An operation is contended only if it does not wait, and only if the lock is
/// not to be had in the store or the kernel says that it is taken.
pub proof fn law_contended_means_taken<R, P>(
    op: OperationView<R, P>,
    store: StoreView,
    event: Event<R, P>,
)
    requires
        op.expects(event),
        !(op.mode is NonBlocking && op.stage is Waiting),
        decides(op, op.step(store, event), Outcome::Contended),
    ensures
        op.mode is NonBlocking,
        (event is Start && !lock_is_free(store, op.path, op.lock_type)) || (event matches
            Event::LockFailed { code, .. } && (code == Some(store.busy.would_block) || code == Some(
            store.busy.again,
        ))),
{
    lemma_free_iff_granted(op, store);
}

/// An operation ends in an I/O error only if its own open, lock or closure ended
/// in that very error, or if the store goes away.
pub proof fn law_errors_come_from_somewhere<R, P>(
    op: OperationView<R, P>,
    store: StoreView,
    event: Event<R, P>,
    error: std::io::Error,
)
    requires
        op.expects(event),
        decides(op, op.step(store, event), Outcome::Failed(ErrorView::Io(error))),
    ensures
        (store.shutdown && ErrorView::Io(error) == dropped_error()) || event
            == Event::<R, P>::OpenFailed(error) || event == Event::<R, P>::Returned(Err(error)) || (
        event matches Event::LockFailed { error: cause, .. } && cause == error),
{
}

/// Which events can happen: an operation that has not begun can begin, one that
/// waits can be woken, and the results of a call can come while it is made.
pub proof fn law_events_come_in_order<R, P>(
    op: OperationView<R, P>,
    now: u128,
    timed_out: bool,
    error: std::io::Error,
    code: Option<i32>,
    result: Result<R, std::io::Error>,
    payload: P,
)
    ensures
        op.expects(Event::Start { now }) <==> op.stage is Requesting,
        op.expects(Event::Woken { timed_out, now }) <==> op.stage is Waiting,
        op.expects(Event::Opened) <==> op.stage is Opening,
        op.expects(Event::OpenFailed(error)) <==> op.stage is Opening,
        op.expects(Event::Locked) <==> op.stage is Locking,
        op.expects(Event::LockFailed { error, code, now }) <==> op.stage is Locking,
        op.expects(Event::Returned(result)) <==> op.stage is Running,
        op.expects(Event::Panicked(payload)) <==> op.stage is Running,
        op.expects(Event::Closed) <==> op.stage is Closing,
        op.waits() <==> !(op.mode is NonBlocking),
{
}

/// What an operation is told to do reaches the caller as it is, but for paths,
/// which are taken as the bytes they hold.
pub proof fn law_actions_are_shown_as_they_are<R, P>(
    action: Action<Outcome<R, P, FileLockError>, Vec<u8>>,
)
    ensures
        match action {
            Action::Wait { limit } => action@ is Wait && action@->limit == limit,
            Action::Open { path, options } => action@ is Open && action@->path == path@
                && action@->options == options,
            Action::Lock { op } => action@ is Lock && action@->Lock_op == op,
            Action::Retry { op, pause } => action@ is Retry && action@->Retry_op == op
                && action@->pause == pause,
            Action::Run => action@ is Run,
            Action::Close => action@ is Close,
            Action::Finish { outcome, wake } => action@ is Finish && action@->outcome == outcome@
                && action@->wake == wake,
        },
{
}

/// So does what an operation ends with.
pub proof fn law_outcomes_are_shown_as_they_are<R, P>(
    outcome: Outcome<R, P, FileLockError>,
)
    ensures
        match outcome {
            Outcome::Returned(value) => outcome@ is Returned && outcome@->Returned_0 == value,
            Outcome::Failed(error) => outcome@ is Failed && outcome@->Failed_0 == error@,
            Outcome::Contended => outcome@ is Contended,
            Outcome::Panicked(payload) => outcome@ is Panicked && outcome@->Panicked_0 == payload,
        },
{
}

} // verus!
