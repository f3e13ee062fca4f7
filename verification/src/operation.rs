//! One operation under a lock, from the request to the release.
//!
//! An operation waits for its lock, opens the file, takes the kernel's lock,
//! runs the caller's closure, closes the file and gives its lock back. Between
//! these it needs the outside world. [`FileStore::acquire_and_execute`] and
//! [`FileStore::try_acquire_and_execute`] take what has happened, an [`Event`],
//! and say what to do next, an [`Action`].
//!
//! `R` is what the closure returns and `P` what it panics with.

use crate::error::{
    io_error_from_lock_error, other_error, other_error_of, ErrorView, FileLockError, LockType,
};
use crate::fd::{lock_options, open_for_lock, OpenOptions};
use crate::flock::{flock_operation, operation};
use crate::holder::HolderId;
use crate::path::{copy, path_key, PathKey};
use crate::store::{FileStore, StoreView};
use crate::time::Duration;
use vstd::prelude::*;

verus! {

/// How long an operation waits for its lock: the lock in the store and the
/// kernel's lock together.
#[derive(Debug, Clone, Copy, PartialEq, Eq)]
pub enum Mode {
    /// Until the lock is free.
    Blocking,
    /// Not at all.
    NonBlocking,
    /// Until the clock, in nanoseconds, shows `deadline`: `timeout` after the
    /// request.
    Deadline { timeout: Duration, deadline: u128 },
}

/// How an operation ends, with `E` the type of its errors.
#[derive(Debug)]
pub enum Outcome<R, P, E> {
    /// The closure ran and returned this value.
    Returned(R),
    /// The lock could not be taken, or the closure returned an error.
    Failed(E),
    /// The lock is taken, and the operation does not wait.
    Contended,
    /// The closure panicked.
    Panicked(P),
}

/// How far an operation has come, with `O` the type of its outcome.
#[derive(Debug)]
pub enum Stage<O> {
    /// It has not asked for its lock yet.
    Requesting,
    /// It waits for its lock.
    Waiting,
    /// It has its lock, and the file is being opened.
    Opening,
    /// The kernel's lock is being taken.
    Locking,
    /// The closure runs.
    Running,
    /// The file is being closed; the operation will end like this.
    Closing(O),
    /// It is over.
    Finished,
}

/// What has happened to an operation. Times are readings of one clock, in
/// nanoseconds.
#[derive(Debug)]
pub enum Event<R, P> {
    /// The operation begins.
    Start { now: u128 },
    /// The wait is over, because its limit was reached or for any other reason.
    Woken { timed_out: bool, now: u128 },
    /// The file is open.
    Opened,
    /// The file could not be opened.
    OpenFailed(std::io::Error),
    /// The kernel's lock is taken.
    Locked,
    /// The kernel's lock could not be taken; `code` is the system's code for it.
    LockFailed { error: std::io::Error, code: Option<i32>, now: u128 },
    /// The closure has returned.
    Returned(Result<R, std::io::Error>),
    /// The closure has panicked.
    Panicked(P),
    /// The file is closed.
    Closed,
}

/// Which of the threads that wait for a lock of the store to wake, whatever
/// file they wait for.
#[derive(Debug, Clone, Copy, PartialEq, Eq, Structural)]
pub enum Wake {
    /// One of them.
    One,
    /// All of them.
    All,
}

/// What to do next, with `O` the type of an operation's outcome and `B` that of
/// a path.
#[derive(Debug)]
pub enum Action<O, B> {
    /// Wait until woken, for at most `limit` nanoseconds.
    Wait { limit: Option<u128> },
    /// Open this file like this.
    Open { path: B, options: OpenOptions },
    /// Call `flock(2)` with this operation.
    Lock { op: i32 },
    /// Sleep for `pause` nanoseconds, then call `flock(2)` once more with this
    /// operation.
    Retry { op: i32, pause: u128 },
    /// Run the closure.
    Run,
    /// Close the file, which gives the kernel's lock back.
    Close,
    /// Wake waiting threads, and hand the outcome to the caller.
    Finish { outcome: O, wake: Option<Wake> },
}

/// How long an operation with a deadline sleeps, in nanoseconds, before it
/// asks again for a kernel's lock that is taken.
pub const RETRY_PAUSE: u128 = 1_000_000u128;

/// An operation under a lock.
#[derive(Debug)]
pub struct Operation<R, P> {
    path: Vec<u8>,
    holder: HolderId,
    lock_type: LockType,
    mode: Mode,
    stage: Stage<Outcome<R, P, FileLockError>>,
}

/// The state of an operation.
#[verifier::ext_equal]
pub struct OperationView<R, P> {
    pub path: Seq<u8>,
    pub holder: u64,
    pub lock_type: LockType,
    pub mode: Mode,
    pub stage: Stage<Outcome<R, P, ErrorView>>,
}

/// The state of a store and of one of its operations after a step, and what
/// to do next.
#[verifier::ext_equal]
pub struct StepView<R, P> {
    pub store: StoreView,
    pub operation: OperationView<R, P>,
    pub action: Action<Outcome<R, P, ErrorView>, Seq<u8>>,
}

impl<R, P> View for Outcome<R, P, FileLockError> {
    type V = Outcome<R, P, ErrorView>;

    open spec fn view(&self) -> Outcome<R, P, ErrorView> {
        match *self {
            Outcome::Returned(value) => Outcome::Returned(value),
            Outcome::Failed(error) => Outcome::Failed(error@),
            Outcome::Contended => Outcome::Contended,
            Outcome::Panicked(payload) => Outcome::Panicked(payload),
        }
    }
}

impl<R, P> View for Stage<Outcome<R, P, FileLockError>> {
    type V = Stage<Outcome<R, P, ErrorView>>;

    open spec fn view(&self) -> Stage<Outcome<R, P, ErrorView>> {
        match *self {
            Stage::Requesting => Stage::Requesting,
            Stage::Waiting => Stage::Waiting,
            Stage::Opening => Stage::Opening,
            Stage::Locking => Stage::Locking,
            Stage::Running => Stage::Running,
            Stage::Closing(outcome) => Stage::Closing(outcome@),
            Stage::Finished => Stage::Finished,
        }
    }
}

impl<R, P> View for Action<Outcome<R, P, FileLockError>, Vec<u8>> {
    type V = Action<Outcome<R, P, ErrorView>, Seq<u8>>;

    open spec fn view(&self) -> Action<Outcome<R, P, ErrorView>, Seq<u8>> {
        match *self {
            Action::Wait { limit } => Action::Wait { limit },
            Action::Open { path, options } => Action::Open { path: path@, options },
            Action::Lock { op } => Action::Lock { op },
            Action::Retry { op, pause } => Action::Retry { op, pause },
            Action::Run => Action::Run,
            Action::Close => Action::Close,
            Action::Finish { outcome, wake } => Action::Finish { outcome: outcome@, wake },
        }
    }
}

impl<R, P> View for Operation<R, P> {
    type V = OperationView<R, P>;

    closed spec fn view(&self) -> OperationView<R, P> {
        OperationView {
            path: self.path@,
            holder: self.holder.id(),
            lock_type: self.lock_type,
            mode: self.mode,
            stage: self.stage@,
        }
    }
}

/// What a thread is told that waits for a lock while its store goes away.
pub open spec fn shutdown_text() -> Seq<char> {
    "FileStore dropped while lock was pending"@
}

/// How long to sleep before the next call where `remaining` nanoseconds are
/// left.
pub open spec fn pause_within(remaining: u128) -> u128 {
    if remaining < RETRY_PAUSE {
        remaining
    } else {
        RETRY_PAUSE
    }
}

/// An operation that has not begun.
pub open spec fn requested<R, P>(
    path: Seq<u8>,
    holder: u64,
    lock_type: LockType,
    mode: Mode,
) -> OperationView<R, P> {
    OperationView { path, holder, lock_type, mode, stage: Stage::Requesting }
}

impl<R, P> OperationView<R, P> {
    /// The file that the operation is about.
    pub open spec fn key(self) -> PathKey {
        path_key(self.path)
    }

    /// Whether the operation has its lock.
    pub open spec fn holds_lock(self) -> bool {
        self.stage is Opening || self.stage is Locking || self.stage is Running
            || self.stage is Closing
    }

    /// Whether the operation waits for its lock, forever or for a while, if the
    /// lock is taken.
    pub open spec fn waits(self) -> bool {
        !(self.mode is NonBlocking)
    }

    /// Whether `event` can happen at this stage.
    pub open spec fn expects(self, event: Event<R, P>) -> bool {
        match self.stage {
            Stage::Requesting => event is Start,
            Stage::Waiting => event is Woken,
            Stage::Opening => event is Opened || event is OpenFailed,
            Stage::Locking => event is Locked || event is LockFailed,
            Stage::Running => event is Returned || event is Panicked,
            Stage::Closing(_) => event is Closed,
            Stage::Finished => false,
        }
    }

    /// The step to another stage that leaves the store as it is.
    pub open spec fn go(
        self,
        store: StoreView,
        stage: Stage<Outcome<R, P, ErrorView>>,
        action: Action<Outcome<R, P, ErrorView>, Seq<u8>>,
    ) -> StepView<R, P> {
        StepView { store, operation: OperationView { stage, ..self }, action }
    }

    /// The operation gets its lock. The file is created for a writer.
    pub open spec fn enter(self, store: StoreView) -> StepView<R, P> {
        self.go(
            store.granted(self.key(), self.holder, self.lock_type),
            Stage::Opening,
            Action::Open {
                path: self.path,
                options: lock_options(self.lock_type is Exclusive),
            },
        )
    }

    /// The operation ends without having had its lock.
    pub open spec fn give_up(
        self,
        store: StoreView,
        outcome: Outcome<R, P, ErrorView>,
    ) -> StepView<R, P> {
        self.go(store, Stage::Finished, Action::Finish { outcome, wake: None })
    }

    /// The operation ends and gives its lock back.
    pub open spec fn leave(
        self,
        store: StoreView,
        outcome: Outcome<R, P, ErrorView>,
    ) -> StepView<R, P> {
        self.go(
            store.released(self.key(), self.holder),
            Stage::Finished,
            Action::Finish {
                outcome,
                wake: Some(
                    if store.wakes_all(self.key(), self.holder) {
                        Wake::All
                    } else {
                        Wake::One
                    },
                ),
            },
        )
    }

    /// The file is closed before the lock is given back.
    pub open spec fn close(
        self,
        store: StoreView,
        outcome: Outcome<R, P, ErrorView>,
    ) -> StepView<R, P> {
        self.go(store, Stage::Closing(outcome), Action::Close)
    }

    /// The error of an operation whose time is up.
    pub open spec fn timed_out(self, timeout: Duration) -> Outcome<R, P, ErrorView> {
        Outcome::Failed(
            ErrorView::Timeout { path: self.path, lock_type: self.lock_type, timeout },
        )
    }

    /// The error of an operation whose store goes away.
    pub open spec fn shut_out(self) -> Outcome<R, P, ErrorView> {
        Outcome::Failed(ErrorView::Io(other_error_of(shutdown_text())))
    }

    /// The operation asks for its lock.
    pub open spec fn ask(self, store: StoreView, now: u128) -> StepView<R, P> {
        if store.file(self.key()).can_grant(self.lock_type) {
            self.enter(store)
        } else if self.mode is NonBlocking {
            self.give_up(store, Outcome::Contended)
        } else if store.shutdown {
            self.give_up(store, self.shut_out())
        } else {
            match self.mode {
                Mode::Deadline { timeout, deadline } => if now >= deadline {
                    self.give_up(store, self.timed_out(timeout))
                } else {
                    self.go(
                        store,
                        Stage::Waiting,
                        Action::Wait { limit: Some((deadline - now) as u128) },
                    )
                },
                _ => self.go(store, Stage::Waiting, Action::Wait { limit: None }),
            }
        }
    }

    /// The operation has been woken. It asks again, for the last time if its
    /// time is up, but not of a store that goes away.
    pub open spec fn ask_again(self, store: StoreView, timed_out: bool, now: u128) -> StepView<
        R,
        P,
    > {
        if store.shutdown {
            self.give_up(store, self.shut_out())
        } else {
            match self.mode {
                Mode::Deadline { timeout, deadline } if timed_out => if store.file(
                    self.key(),
                ).can_grant(self.lock_type) {
                    self.enter(store)
                } else {
                    self.give_up(store, self.timed_out(timeout))
                },
                _ => self.ask(store, now),
            }
        }
    }

    /// The kernel's lock could not be taken. A try takes no for an answer if
    /// the lock is taken. An operation with a deadline then asks again as long
    /// as it has time, but not for a store that goes away. Any other failure is
    /// an error.
    pub open spec fn refused(
        self,
        store: StoreView,
        error: std::io::Error,
        code: Option<i32>,
        now: u128,
    ) -> StepView<R, P> {
        match self.mode {
            Mode::NonBlocking if store.busy.says_busy(code) => self.close(
                store,
                Outcome::Contended,
            ),
            Mode::Deadline { timeout, deadline } if store.busy.says_busy(
                code,
            ) => if store.shutdown {
                self.close(store, self.shut_out())
            } else if now >= deadline {
                self.close(store, self.timed_out(timeout))
            } else {
                self.go(
                    store,
                    Stage::Locking,
                    Action::Retry {
                        op: operation(self.lock_type, false),
                        pause: pause_within((deadline - now) as u128),
                    },
                )
            },
            _ => self.close(store, Outcome::Failed(ErrorView::Io(error))),
        }
    }

    /// The step that `event` leads to.
    pub open spec fn step(self, store: StoreView, event: Event<R, P>) -> StepView<R, P> {
        match event {
            Event::Start { now } => self.ask(store, now),
            Event::Woken { timed_out, now } => self.ask_again(store, timed_out, now),
            Event::Opened => self.go(
                store,
                Stage::Locking,
                Action::Lock { op: operation(self.lock_type, self.mode is Blocking) },
            ),
            Event::OpenFailed(error) => self.leave(store, Outcome::Failed(ErrorView::Io(error))),
            Event::Locked => self.go(store, Stage::Running, Action::Run),
            Event::LockFailed { error, code, now } => self.refused(store, error, code, now),
            Event::Returned(Ok(value)) => self.close(store, Outcome::Returned(value)),
            Event::Returned(Err(error)) => self.close(
                store,
                Outcome::Failed(ErrorView::Io(error)),
            ),
            Event::Panicked(payload) => self.close(store, Outcome::Panicked(payload)),
            Event::Closed => self.leave(store, self.stage->Closing_0),
        }
    }
}

impl<R, P> Operation<R, P> {
    /// An operation that has not begun.
    fn request(path: Vec<u8>, holder: HolderId, lock_type: LockType, mode: Mode) -> (r: Self)
        ensures
            r@ == requested::<R, P>(path@, holder.id(), lock_type, mode),
    {
        Operation { path, holder, lock_type, mode, stage: Stage::Requesting }
    }

    /// The operation at another stage.
    fn at(self, stage: Stage<Outcome<R, P, FileLockError>>) -> (r: Self)
        ensures
            r@ == (OperationView { stage: stage@, ..self@ }),
    {
        Operation { stage, ..self }
    }

    /// Whether the operation waits for its lock, forever or for a while, if the
    /// lock is taken.
    pub fn waits(&self) -> (r: bool)
        ensures
            r == self@.waits(),
    {
        match self.mode {
            Mode::NonBlocking => false,
            _ => true,
        }
    }

    /// Whether `event` can happen at this stage.
    pub fn expects(&self, event: &Event<R, P>) -> (r: bool)
        ensures
            r == self@.expects(*event),
    {
        match (&self.stage, event) {
            (Stage::Requesting, Event::Start { .. }) => true,
            (Stage::Waiting, Event::Woken { .. }) => true,
            (Stage::Opening, Event::Opened) => true,
            (Stage::Opening, Event::OpenFailed(_)) => true,
            (Stage::Locking, Event::Locked) => true,
            (Stage::Locking, Event::LockFailed { .. }) => true,
            (Stage::Running, Event::Returned(_)) => true,
            (Stage::Running, Event::Panicked(_)) => true,
            (Stage::Closing(_), Event::Closed) => true,
            _ => false,
        }
    }
}

impl FileStore {
    /// A shared (read) operation on a file, which waits for its lock.
    ///
    /// Multiple threads can hold shared locks simultaneously.
    /// Blocks if any thread holds an exclusive lock.
    pub fn with_read<R, P>(&self, path: Vec<u8>, holder: HolderId) -> (r: Operation<R, P>)
        ensures
            r@ == requested::<R, P>(path@, holder.id(), LockType::Shared, Mode::Blocking),
            r@.path == path@,
            r@.holder == holder.id(),
            r@.lock_type == LockType::Shared,
            r@.mode == Mode::Blocking,
            r@.stage is Requesting,
    {
        Operation::request(path, holder, LockType::Shared, Mode::Blocking)
    }

    /// An exclusive (write) operation on a file, which waits for its lock.
    ///
    /// Only one thread can hold an exclusive lock. All other requests
    /// (shared or exclusive) are blocked.
    pub fn with_write<R, P>(&self, path: Vec<u8>, holder: HolderId) -> (r: Operation<R, P>)
        ensures
            r@ == requested::<R, P>(path@, holder.id(), LockType::Exclusive, Mode::Blocking),
            r@.path == path@,
            r@.holder == holder.id(),
            r@.lock_type == LockType::Exclusive,
            r@.mode == Mode::Blocking,
            r@.stage is Requesting,
    {
        Operation::request(path, holder, LockType::Exclusive, Mode::Blocking)
    }

    /// A shared (read) operation on a file, which does not wait for its lock.
    pub fn try_with_read<R, P>(&self, path: Vec<u8>, holder: HolderId) -> (r: Operation<R, P>)
        ensures
            r@ == requested::<R, P>(path@, holder.id(), LockType::Shared, Mode::NonBlocking),
            r@.path == path@,
            r@.holder == holder.id(),
            r@.lock_type == LockType::Shared,
            r@.mode == Mode::NonBlocking,
            r@.stage is Requesting,
    {
        Operation::request(path, holder, LockType::Shared, Mode::NonBlocking)
    }

    /// An exclusive (write) operation on a file, which does not wait for its
    /// lock.
    pub fn try_with_write<R, P>(&self, path: Vec<u8>, holder: HolderId) -> (r: Operation<R, P>)
        ensures
            r@ == requested::<R, P>(path@, holder.id(), LockType::Exclusive, Mode::NonBlocking),
            r@.path == path@,
            r@.holder == holder.id(),
            r@.lock_type == LockType::Exclusive,
            r@.mode == Mode::NonBlocking,
            r@.stage is Requesting,
    {
        Operation::request(path, holder, LockType::Exclusive, Mode::NonBlocking)
    }

    /// A shared (read) operation on a file, which waits for its lock until
    /// `timeout` after `now`.
    pub fn with_read_timeout<R, P>(
        &self,
        path: Vec<u8>,
        timeout: Duration,
        holder: HolderId,
        now: u128,
    ) -> (r: Operation<R, P>)
        requires
            now + timeout.total_nanos() <= u128::MAX,
        ensures
            r@ == requested::<R, P>(
                path@,
                holder.id(),
                LockType::Shared,
                Mode::Deadline { timeout, deadline: (now + timeout.total_nanos()) as u128 },
            ),
            r@.path == path@,
            r@.holder == holder.id(),
            r@.lock_type == LockType::Shared,
            r@.mode == (Mode::Deadline {
                timeout,
                deadline: (now + timeout.secs() * 1_000_000_000 + timeout.subsec_nanos()) as u128,
            }),
            r@.stage is Requesting,
    {
        let deadline: u128 = now + timeout.as_nanos();
        Operation::request(path, holder, LockType::Shared, Mode::Deadline { timeout, deadline })
    }

    /// An exclusive (write) operation on a file, which waits for its lock until
    /// `timeout` after `now`.
    pub fn with_write_timeout<R, P>(
        &self,
        path: Vec<u8>,
        timeout: Duration,
        holder: HolderId,
        now: u128,
    ) -> (r: Operation<R, P>)
        requires
            now + timeout.total_nanos() <= u128::MAX,
        ensures
            r@ == requested::<R, P>(
                path@,
                holder.id(),
                LockType::Exclusive,
                Mode::Deadline { timeout, deadline: (now + timeout.total_nanos()) as u128 },
            ),
            r@.path == path@,
            r@.holder == holder.id(),
            r@.lock_type == LockType::Exclusive,
            r@.mode == (Mode::Deadline {
                timeout,
                deadline: (now + timeout.secs() * 1_000_000_000 + timeout.subsec_nanos()) as u128,
            }),
            r@.stage is Requesting,
    {
        let deadline: u128 = now + timeout.as_nanos();
        Operation::request(path, holder, LockType::Exclusive, Mode::Deadline { timeout, deadline })
    }

    /// A read-modify-write operation on a file.
    ///
    /// Identical to [`FileStore::with_write`], provided for semantic clarity.
    pub fn modify<R, P>(&self, path: Vec<u8>, holder: HolderId) -> (r: Operation<R, P>)
        ensures
            r@ == requested::<R, P>(path@, holder.id(), LockType::Exclusive, Mode::Blocking),
            r@.path == path@,
            r@.holder == holder.id(),
            r@.lock_type == LockType::Exclusive,
            r@.mode == Mode::Blocking,
            r@.stage is Requesting,
    {
        self.with_write(path, holder)
    }

    /// Go on with an operation that waits for its lock, forever or for a while.
    pub fn acquire_and_execute<R, P>(
        &mut self,
        op: Operation<R, P>,
        event: Event<R, P>,
    ) -> (r: (Operation<R, P>, Action<Outcome<R, P, FileLockError>, Vec<u8>>))
        requires
            old(self).wf(),
            op@.expects(event),
            op@.waits(),
        ensures
            final(self).wf(),
            (StepView { store: final(self)@, operation: r.0@, action: r.1@ }) == op@.step(
                old(self)@,
                event,
            ),
    {
        match event {
            Event::Start { now } => self.ask(op, now),
            Event::Woken { timed_out, now } => {
                if self.is_shut_down() {
                    return give_up(op, shutdown_outcome());
                }
                match op.mode {
                    Mode::Deadline { timeout, .. } => if timed_out {
                        // One last look now that the lock table is at hand.
                        if self.can_grant(op.path.as_slice(), op.lock_type, op.holder) {
                            self.enter(op)
                        } else {
                            let outcome = timeout_outcome(&op, timeout);
                            give_up(op, outcome)
                        }
                    } else {
                        self.ask(op, now)
                    },
                    _ => self.ask(op, now),
                }
            },
            Event::LockFailed { error, code, now } => {
                match op.mode {
                    Mode::Deadline { timeout, deadline } => if self.busy_codes().busy(code) {
                        if self.is_shut_down() {
                            close(op, shutdown_outcome())
                        } else if now >= deadline {
                            let outcome = timeout_outcome(&op, timeout);
                            close(op, outcome)
                        } else {
                            retry(op, deadline - now)
                        }
                    } else {
                        close(op, Outcome::Failed(FileLockError::Io(error)))
                    },
                    _ => close(op, Outcome::Failed(FileLockError::Io(error))),
                }
            },
            other => self.execute(op, other),
        }
    }

    /// Go on with an operation that does not wait for its lock.
    ///
    /// The lock is granted in the same step in which it is found to be free.
    pub fn try_acquire_and_execute<R, P>(
        &mut self,
        op: Operation<R, P>,
        event: Event<R, P>,
    ) -> (r: (Operation<R, P>, Action<Outcome<R, P, FileLockError>, Vec<u8>>))
        requires
            old(self).wf(),
            op@.expects(event),
            !op@.waits(),
            !(event is Woken),
        ensures
            final(self).wf(),
            (StepView { store: final(self)@, operation: r.0@, action: r.1@ }) == op@.step(
                old(self)@,
                event,
            ),
    {
        match event {
            Event::Start { .. } => {
                if self.can_grant(op.path.as_slice(), op.lock_type, op.holder) {
                    self.enter(op)
                } else {
                    give_up(op, Outcome::Contended)
                }
            },
            Event::LockFailed { error, code, .. } => {
                let outcome = if self.busy_codes().busy(code) {
                    Outcome::Contended
                } else {
                    Outcome::Failed(FileLockError::Io(error))
                };
                close(op, outcome)
            },
            other => self.execute(op, other),
        }
    }

    /// A waiting operation asks for its lock.
    fn ask<R, P>(&mut self, op: Operation<R, P>, now: u128) -> (r: (
        Operation<R, P>,
        Action<Outcome<R, P, FileLockError>, Vec<u8>>,
    ))
        requires
            old(self).wf(),
            !(op@.mode is NonBlocking),
        ensures
            final(self).wf(),
            (StepView { store: final(self)@, operation: r.0@, action: r.1@ }) == op@.ask(
                old(self)@,
                now,
            ),
    {
        if self.can_grant(op.path.as_slice(), op.lock_type, op.holder) {
            return self.enter(op);
        }
        if self.is_shut_down() {
            return give_up(op, shutdown_outcome());
        }
        match op.mode {
            Mode::Deadline { timeout, deadline } => if now >= deadline {
                let outcome = timeout_outcome(&op, timeout);
                give_up(op, outcome)
            } else {
                let remaining: u128 = deadline - now;
                (op.at(Stage::Waiting), Action::Wait { limit: Some(remaining) })
            },
            _ => (op.at(Stage::Waiting), Action::Wait { limit: None }),
        }
    }

    /// An operation gets its lock.
    fn enter<R, P>(&mut self, op: Operation<R, P>) -> (r: (
        Operation<R, P>,
        Action<Outcome<R, P, FileLockError>, Vec<u8>>,
    ))
        requires
            old(self).wf(),
            old(self)@.file(op@.key()).can_grant(op@.lock_type),
        ensures
            final(self).wf(),
            (StepView { store: final(self)@, operation: r.0@, action: r.1@ }) == op@.enter(
                old(self)@,
            ),
    {
        self.grant(op.path.as_slice(), op.holder, op.lock_type);
        let create: bool = op.lock_type == LockType::Exclusive;
        let path = copy(op.path.as_slice());
        (op.at(Stage::Opening), Action::Open { path, options: open_for_lock(create) })
    }

    /// An operation that has its lock goes on.
    fn execute<R, P>(&mut self, op: Operation<R, P>, event: Event<R, P>) -> (r: (
        Operation<R, P>,
        Action<Outcome<R, P, FileLockError>, Vec<u8>>,
    ))
        requires
            old(self).wf(),
            op@.expects(event),
            op@.holds_lock(),
            !(event is LockFailed),
        ensures
            final(self).wf(),
            (StepView { store: final(self)@, operation: r.0@, action: r.1@ }) == op@.step(
                old(self)@,
                event,
            ),
    {
        match event {
            Event::Opened => {
                let blocking: bool = match op.mode {
                    Mode::Blocking => true,
                    _ => false,
                };
                let code: i32 = flock_operation(op.lock_type, blocking);
                (op.at(Stage::Locking), Action::Lock { op: code })
            },
            Event::OpenFailed(error) => self.leave(op, Outcome::Failed(FileLockError::Io(error))),
            Event::Locked => (op.at(Stage::Running), Action::Run),
            Event::Returned(Ok(value)) => close(op, Outcome::Returned(value)),
            Event::Returned(Err(error)) => close(op, Outcome::Failed(FileLockError::Io(error))),
            Event::Panicked(payload) => close(op, Outcome::Panicked(payload)),
            _ => {
                let Operation { path, holder, lock_type, mode, stage } = op;
                match stage {
                    Stage::Closing(outcome) => {
                        let rest = Operation { path, holder, lock_type, mode, stage: Stage::Finished };
                        self.leave(rest, outcome)
                    },
                    _ => unreached(),
                }
            },
        }
    }

    /// An operation ends and gives its lock back.
    fn leave<R, P>(&mut self, op: Operation<R, P>, outcome: Outcome<R, P, FileLockError>) -> (r: (
        Operation<R, P>,
        Action<Outcome<R, P, FileLockError>, Vec<u8>>,
    ))
        requires
            old(self).wf(),
        ensures
            final(self).wf(),
            (StepView { store: final(self)@, operation: r.0@, action: r.1@ }) == op@.leave(
                old(self)@,
                outcome@,
            ),
    {
        let notify_all: bool = self.release_lock(op.path.as_slice(), op.holder);
        let wake: Wake = if notify_all {
            Wake::All
        } else {
            Wake::One
        };
        (op.at(Stage::Finished), Action::Finish { outcome, wake: Some(wake) })
    }
}

/// An operation ends without having had its lock.
fn give_up<R, P>(op: Operation<R, P>, outcome: Outcome<R, P, FileLockError>) -> (r: (
    Operation<R, P>,
    Action<Outcome<R, P, FileLockError>, Vec<u8>>,
))
    ensures
        forall|store: StoreView|
            (StepView { store, operation: r.0@, action: r.1@ }) == #[trigger] op@.give_up(
                store,
                outcome@,
            ),
{
    (op.at(Stage::Finished), Action::Finish { outcome, wake: None })
}

/// The error of an operation whose time is up.
fn timeout_outcome<R, P>(op: &Operation<R, P>, timeout: Duration) -> (r: Outcome<
    R,
    P,
    FileLockError,
>)
    ensures
        r@ == op@.timed_out(timeout),
{
    let path = copy(op.path.as_slice());
    Outcome::Failed(FileLockError::Timeout { path, lock_type: op.lock_type, timeout })
}

/// The error of an operation whose store goes away.
fn shutdown_outcome<R, P>() -> (r: Outcome<R, P, FileLockError>)
    ensures
        forall|op: OperationView<R, P>| r@ == #[trigger] op.shut_out(),
{
    let error = other_error("FileStore dropped while lock was pending".to_owned());
    Outcome::Failed(FileLockError::Io(error))
}

/// An operation sleeps and asks again for the kernel's lock, where `remaining`
/// nanoseconds are left until its deadline.
fn retry<R, P>(op: Operation<R, P>, remaining: u128) -> (r: (
    Operation<R, P>,
    Action<Outcome<R, P, FileLockError>, Vec<u8>>,
))
    ensures
        forall|store: StoreView|
            (StepView { store, operation: r.0@, action: r.1@ }) == #[trigger] op@.go(
                store,
                Stage::Locking,
                Action::Retry {
                    op: operation(op@.lock_type, false),
                    pause: pause_within(remaining),
                },
            ),
{
    let code: i32 = flock_operation(op.lock_type, false);
    let pause: u128 = if remaining < RETRY_PAUSE {
        remaining
    } else {
        RETRY_PAUSE
    };
    (op.at(Stage::Locking), Action::Retry { op: code, pause })
}

/// An operation closes its file before it ends.
fn close<R, P>(op: Operation<R, P>, outcome: Outcome<R, P, FileLockError>) -> (r: (
    Operation<R, P>,
    Action<Outcome<R, P, FileLockError>, Vec<u8>>,
))
    ensures
        forall|store: StoreView|
            (StepView { store, operation: r.0@, action: r.1@ }) == #[trigger] op@.close(
                store,
                outcome@,
            ),
{
    (op.at(Stage::Closing(outcome)), Action::Close)
}

impl<R, P> Outcome<R, P, FileLockError> {
    /// What an operation that waits without a timeout hands to its caller. The
    /// outer error is a panic to resume.
    pub fn blocking_result(self) -> (r: Result<Result<R, std::io::Error>, P>)
        requires
            !(self is Contended),
        ensures
            r == (match self@ {
                Outcome::Panicked(payload) => Err(payload),
                Outcome::Returned(value) => Ok(Ok(value)),
                Outcome::Failed(error) => Ok(Err(error.as_io_error())),
                Outcome::Contended => arbitrary(),
            }),
    {
        match self {
            Outcome::Returned(value) => Ok(Ok(value)),
            Outcome::Failed(error) => Ok(Err(io_error_from_lock_error(error))),
            Outcome::Panicked(payload) => Err(payload),
            Outcome::Contended => unreached(),
        }
    }

    /// What an operation that waits with a timeout hands to its caller. The
    /// outer error is a panic to resume.
    pub fn timed_result(self) -> (r: Result<Result<R, FileLockError>, P>)
        requires
            !(self is Contended),
        ensures
            r == (match self {
                Outcome::Panicked(payload) => Err(payload),
                Outcome::Returned(value) => Ok(Ok(value)),
                Outcome::Failed(error) => Ok(Err(error)),
                Outcome::Contended => arbitrary(),
            }),
    {
        match self {
            Outcome::Returned(value) => Ok(Ok(value)),
            Outcome::Failed(error) => Ok(Err(error)),
            Outcome::Panicked(payload) => Err(payload),
            Outcome::Contended => unreached(),
        }
    }

    /// What an operation that does not wait hands to its caller: `None` if the
    /// lock is taken. The outer error is a panic to resume.
    pub fn try_result(self) -> (r: Result<Result<Option<R>, std::io::Error>, P>)
        ensures
            r == (match self@ {
                Outcome::Panicked(payload) => Err(payload),
                Outcome::Returned(value) => Ok(Ok(Some(value))),
                Outcome::Failed(error) => Ok(Err(error.as_io_error())),
                Outcome::Contended => Ok(Ok(None)),
            }),
    {
        match self {
            Outcome::Returned(value) => Ok(Ok(Some(value))),
            Outcome::Failed(error) => Ok(Err(io_error_from_lock_error(error))),
            Outcome::Contended => Ok(Ok(None)),
            Outcome::Panicked(payload) => Err(payload),
        }
    }
}

} // verus!
