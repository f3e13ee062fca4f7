//! Operations on a store, with the calls into the system played by a small
//! world of files in memory and threads that take turns.

use filock::path::join;
use filock::{
    Action, Duration, Event, FileLockError, FileStore, HolderId, HolderIds, LockType, Operation,
    Outcome, Wake,
};
use std::collections::BTreeMap;
use std::io;

type Op<R> = Operation<R, String>;
type End<R> = Outcome<R, String, FileLockError>;
type Act<R> = Action<End<R>, Vec<u8>>;

/// A store, the files that exist, and the threads' counter.
struct World {
    store: FileStore,
    files: BTreeMap<Vec<u8>, Vec<u8>>,
    ids: HolderIds,
    now: u128,
}

impl World {
    fn new() -> World {
        World {
            store: FileStore::new(b"/data".to_vec()),
            files: BTreeMap::new(),
            ids: HolderIds::new(),
            now: 1_000,
        }
    }

    /// A new thread.
    fn thread(&mut self) -> HolderId {
        let mut slot = None;
        HolderId::current(&mut self.ids, &mut slot)
    }

    /// A file of the store.
    fn file(&self, name: &str) -> Vec<u8> {
        join(self.store.root(), name.as_bytes())
    }

    fn is_locked(&self, name: &str) -> bool {
        self.store.is_locked(&self.file(name))
    }

    fn holder_count(&self, name: &str) -> usize {
        self.store.holder_count(&self.file(name))
    }

    fn step<R>(&mut self, op: Op<R>, event: Event<R, String>) -> (Op<R>, Act<R>) {
        assert!(op.expects(&event));
        self.store.acquire_and_execute(op, event)
    }

    fn try_step<R>(&mut self, op: Op<R>, event: Event<R, String>) -> (Op<R>, Act<R>) {
        assert!(op.expects(&event));
        self.store.try_acquire_and_execute(op, event)
    }

    /// Begin an operation that waits for its lock.
    fn start<R>(&mut self, op: Op<R>) -> (Op<R>, Act<R>) {
        let now = self.now;
        self.step(op, Event::Start { now })
    }

    /// Begin an operation that does not wait for its lock.
    fn try_start<R>(&mut self, op: Op<R>) -> (Op<R>, Act<R>) {
        let now = self.now;
        self.try_step(op, Event::Start { now })
    }

    /// Wake a waiting operation.
    fn wake<R>(&mut self, op: Op<R>, timed_out: bool) -> (Op<R>, Act<R>) {
        let now = self.now;
        self.step(op, Event::Woken { timed_out, now })
    }

    /// Take an operation that has just got its lock up to its closure.
    fn enter<R>(&mut self, name: &str, op: Op<R>, action: Act<R>) -> Op<R> {
        let path = self.file(name);
        match action {
            Action::Open { path: opened, options } => {
                assert_eq!(opened, path);
                assert!(options.read && options.write);
                if options.create == Some(0o644) {
                    self.files.entry(path).or_default();
                } else {
                    assert_eq!(options.create, None);
                    assert!(self.files.contains_key(&path));
                }
            }
            _ => panic!("expected Open"),
        }
        let (op, action) = self.step(op, Event::Opened);
        assert!(matches!(action, Action::Lock { .. }));
        let (op, action) = self.step(op, Event::Locked);
        assert!(matches!(action, Action::Run));
        op
    }

    /// Take an operation from the end of its closure to its own end.
    fn leave<R>(&mut self, op: Op<R>, event: Event<R, String>) -> (End<R>, Option<Wake>) {
        let (op, action) = self.step(op, event);
        assert!(matches!(action, Action::Close));
        let (_, action) = self.step(op, Event::Closed);
        finished(action)
    }

    /// Start an operation and hold its lock.
    fn hold(&mut self, name: &str, op: Op<()>) -> Op<()> {
        let (op, action) = self.start(op);
        self.enter(name, op, action)
    }

    /// End an operation that holds its lock.
    fn release(&mut self, op: Op<()>) -> Option<Wake> {
        let (outcome, wake) = self.leave(op, Event::Returned(Ok(())));
        assert!(matches!(outcome, Outcome::Returned(())));
        wake
    }

    /// Run an operation whose lock is free.
    fn run<R>(
        &mut self,
        name: &str,
        op: Op<R>,
        f: impl FnOnce(&mut Vec<u8>) -> io::Result<R>,
    ) -> End<R> {
        let (op, action) = self.start(op);
        let op = self.enter(name, op, action);
        let path = self.file(name);
        let result = f(self.files.get_mut(&path).unwrap());
        self.leave(op, Event::Returned(result)).0
    }

    /// Write a whole file.
    fn write(&mut self, name: &str, bytes: &[u8]) {
        let thread = self.thread();
        let op = self.store.with_write(self.file(name), thread);
        self.run(name, op, |file| {
            file.clear();
            file.extend_from_slice(bytes);
            Ok(())
        })
        .blocking_result()
        .unwrap()
        .unwrap();
    }

    /// Read a whole file.
    fn read(&mut self, name: &str) -> Vec<u8> {
        let thread = self.thread();
        let op = self.store.with_read(self.file(name), thread);
        self.run(name, op, |file| Ok(file.clone())).blocking_result().unwrap().unwrap()
    }
}

fn finished<R>(action: Act<R>) -> (End<R>, Option<Wake>) {
    match action {
        Action::Finish { outcome, wake } => (outcome, wake),
        _ => panic!("expected Finish"),
    }
}

fn millis(n: u32) -> Duration {
    Duration::new(0, n * 1_000_000)
}

// ---------------------------------------------------------------------------
// Reading and writing
// ---------------------------------------------------------------------------

#[test]
fn write_and_read_basic() {
    let mut world = World::new();
    world.write("test.txt", b"hello world");
    assert_eq!(world.read("test.txt"), b"hello world");
}

#[test]
fn modify_works_like_with_write() {
    let mut world = World::new();
    let thread = world.thread();
    let op = world.store.modify(world.file("data.txt"), thread);
    let outcome = world.run("data.txt", op, |file| {
        file.extend_from_slice(b"modified\n");
        Ok(())
    });
    assert!(outcome.blocking_result().unwrap().is_ok());
    assert_eq!(world.read("data.txt"), b"modified\n");
}

#[test]
fn modify_is_alias_for_write() {
    let mut world = World::new();
    let thread = world.thread();
    let op = world.store.modify(world.file("alias.txt"), thread);
    world
        .run("alias.txt", op, |file| {
            file.extend_from_slice(b"via modify\n");
            Ok(())
        })
        .blocking_result()
        .unwrap()
        .unwrap();
    assert_eq!(world.read("alias.txt"), b"via modify\n");
}

#[test]
fn file_created_on_first_write() {
    let mut world = World::new();
    let path = world.file("new_file.txt");
    assert!(!world.files.contains_key(&path));
    world.write("new_file.txt", b"created\n");
    assert!(world.files.contains_key(&path));
    assert_eq!(world.files[&path], b"created\n");
}

#[test]
fn large_file_operations() {
    let mut world = World::new();
    let data = "x".repeat(1024 * 1024);
    world.write("large.txt", data.as_bytes());
    let content = world.read("large.txt");
    assert_eq!(content.len(), 1024 * 1024);
    assert_eq!(content, data.as_bytes());
}

// ---------------------------------------------------------------------------
// Readers and writers
// ---------------------------------------------------------------------------

#[test]
fn concurrent_readers_allowed() {
    let mut world = World::new();
    world.write("shared.txt", b"shared data");
    let mut held = vec![];
    for _ in 0..10 {
        let thread = world.thread();
        let op = world.store.with_read(world.file("shared.txt"), thread);
        held.push(world.hold("shared.txt", op));
    }
    assert_eq!(world.holder_count("shared.txt"), 10);
    assert_eq!(world.read("shared.txt"), b"shared data");
    // While others keep their locks just one thread is woken; the last wakes all.
    for (i, op) in held.into_iter().enumerate() {
        let expected = if i < 9 { Wake::One } else { Wake::All };
        assert_eq!(world.release(op), Some(expected));
    }
    assert_eq!(world.holder_count("shared.txt"), 0);
}

#[test]
fn many_concurrent_readers() {
    let mut world = World::new();
    world.write("readme.txt", b"constant content for readers");
    let mut held = vec![];
    for _ in 0..20 {
        let thread = world.thread();
        let op = world.store.with_read(world.file("readme.txt"), thread);
        held.push(world.hold("readme.txt", op));
        assert_eq!(world.read("readme.txt"), b"constant content for readers");
    }
    assert_eq!(world.holder_count("readme.txt"), 20);
    for op in held {
        world.release(op);
    }
    assert!(!world.is_locked("readme.txt"));
}

#[test]
fn exclusive_writer_blocks_readers() {
    let mut world = World::new();
    world.write("contested.txt", b"original\n");
    let reader = world.thread();
    let op = world.store.with_read(world.file("contested.txt"), reader);
    let reading = world.hold("contested.txt", op);

    // The writer waits for the reader.
    let writer = world.thread();
    let op = world.store.with_write::<(), String>(world.file("contested.txt"), writer);
    let (writing, action) = world.start(op);
    assert!(matches!(action, Action::Wait { limit: None }));
    let (writing, action) = world.wake(writing, false);
    assert!(matches!(action, Action::Wait { limit: None }));

    // The last reader wakes all threads, and the writer goes on.
    assert_eq!(world.release(reading), Some(Wake::All));
    let (writing, action) = world.wake(writing, false);
    let writing = world.enter("contested.txt", writing, action);

    // Now a reader waits for the writer.
    let op = world.store.with_read::<(), String>(world.file("contested.txt"), reader);
    let (waiting, action) = world.start(op);
    assert!(matches!(action, Action::Wait { limit: None }));
    assert_eq!(world.release(writing), Some(Wake::All));
    let (waiting, action) = world.wake(waiting, false);
    let reading = world.enter("contested.txt", waiting, action);
    world.release(reading);
}

#[test]
fn writer_excludes_readers_until_release() {
    let mut world = World::new();
    world.write("block.txt", b"original\n");
    let writer = world.thread();
    let op = world.store.with_write(world.file("block.txt"), writer);
    let writing = world.hold("block.txt", op);

    let mut waiting = vec![];
    for _ in 0..5 {
        let reader = world.thread();
        let op = world.store.with_read::<(), String>(world.file("block.txt"), reader);
        let (op, action) = world.start(op);
        assert!(matches!(action, Action::Wait { limit: None }));
        waiting.push(op);
    }
    assert_eq!(world.holder_count("block.txt"), 1);

    assert_eq!(world.release(writing), Some(Wake::All));
    let mut passed = 0;
    let mut reading = vec![];
    for op in waiting {
        let (op, action) = world.wake(op, false);
        reading.push(world.enter("block.txt", op, action));
        passed += 1;
    }
    assert_eq!(passed, 5);
    assert_eq!(world.holder_count("block.txt"), 5);
    for op in reading {
        world.release(op);
    }
}

#[test]
fn writer_excludes_other_writers() {
    let mut world = World::new();
    let mut counter = 0;
    for _ in 0..20 {
        // Five writers come at once: one goes on, the others wait their turn.
        let mut queue = vec![];
        for _ in 0..5 {
            let thread = world.thread();
            let op = world.store.with_write::<(), String>(world.file("counter.txt"), thread);
            queue.push(world.start(op));
        }
        let mut waiting = vec![];
        let mut running = vec![];
        for (op, action) in queue {
            match action {
                Action::Wait { .. } => waiting.push(op),
                action => running.push(world.enter("counter.txt", op, action)),
            }
        }
        assert_eq!(running.len(), 1);
        while let Some(op) = running.pop() {
            let val = counter;
            assert_eq!(world.holder_count("counter.txt"), 1);
            counter = val + 1;
            assert_eq!(world.release(op), Some(Wake::All));
            let mut still = vec![];
            for op in waiting {
                match world.wake(op, false) {
                    (op, Action::Wait { .. }) => still.push(op),
                    (op, action) => running.push(world.enter("counter.txt", op, action)),
                }
            }
            waiting = still;
            assert!(running.len() <= 1);
        }
        assert!(waiting.is_empty());
    }
    assert_eq!(counter, 100);
}

#[test]
fn concurrent_writers_no_data_corruption() {
    let mut world = World::new();
    world.write("data.txt", b"0\n");
    let num_writers = 8;
    let writes_per_thread = 50;
    let mut threads = vec![];
    for _ in 0..num_writers {
        threads.push(world.thread());
    }
    for _ in 0..writes_per_thread {
        for thread in &threads {
            let op = world.store.with_write(world.file("data.txt"), *thread);
            world
                .run("data.txt", op, |file| {
                    let val: u64 = String::from_utf8_lossy(file).trim().parse().unwrap_or(0);
                    *file = format!("{}\n", val + 1).into_bytes();
                    Ok(())
                })
                .blocking_result()
                .unwrap()
                .unwrap();
        }
    }
    let content = world.read("data.txt");
    let final_val: u64 = String::from_utf8_lossy(&content).trim().parse().unwrap();
    assert_eq!(final_val, (num_writers * writes_per_thread) as u64);
}

#[test]
fn reentrant_shared_lock_succeeds() {
    let mut world = World::new();
    world.write("re.txt", b"");
    let thread = world.thread();
    let op = world.store.with_read(world.file("re.txt"), thread);
    let outer = world.hold("re.txt", op);

    // The same thread reads again inside its first read.
    let op = world.store.with_read(world.file("re.txt"), thread);
    let inner = world.hold("re.txt", op);
    assert_eq!(world.holder_count("re.txt"), 1);
    assert_eq!(world.release(inner), Some(Wake::One));

    // The outer lock is still there and still keeps writers out.
    assert!(world.is_locked("re.txt"));
    assert_eq!(world.holder_count("re.txt"), 1);
    let writer = world.thread();
    let op = world.store.try_with_write::<(), String>(world.file("re.txt"), writer);
    let (_, action) = world.try_start(op);
    assert!(matches!(finished(action), (Outcome::Contended, None)));

    assert_eq!(world.release(outer), Some(Wake::All));
    assert!(!world.is_locked("re.txt"));
}

#[test]
fn no_upgrade_and_no_downgrade() {
    let mut world = World::new();
    let thread = world.thread();
    world.write("up.txt", b"");

    let op = world.store.with_read(world.file("up.txt"), thread);
    let reading = world.hold("up.txt", op);
    let op = world.store.try_with_write::<(), String>(world.file("up.txt"), thread);
    let (_, action) = world.try_start(op);
    assert!(matches!(finished(action), (Outcome::Contended, None)));
    world.release(reading);

    let op = world.store.with_write(world.file("up.txt"), thread);
    let writing = world.hold("up.txt", op);
    let op = world.store.try_with_read::<(), String>(world.file("up.txt"), thread);
    let (_, action) = world.try_start(op);
    assert!(matches!(finished(action), (Outcome::Contended, None)));
    let op = world.store.try_with_write::<(), String>(world.file("up.txt"), thread);
    let (_, action) = world.try_start(op);
    assert!(matches!(finished(action), (Outcome::Contended, None)));
    world.release(writing);
}

// ---------------------------------------------------------------------------
// Tries
// ---------------------------------------------------------------------------

#[test]
fn try_with_write_returns_none_when_contended() {
    let mut world = World::new();
    world.write("try.txt", b"data\n");
    let writer = world.thread();
    let op = world.store.with_write(world.file("try.txt"), writer);
    let writing = world.hold("try.txt", op);

    let thread = world.thread();
    let op = world.store.try_with_write::<(), String>(world.file("try.txt"), thread);
    let (_, action) = world.try_start(op);
    let result = finished(action).0.try_result().unwrap().unwrap();
    assert!(result.is_none());
    world.release(writing);
}

#[test]
fn try_with_read_returns_some_when_shared_held() {
    let mut world = World::new();
    world.write("tryread.txt", b"data\n");
    let reader = world.thread();
    let op = world.store.with_read(world.file("tryread.txt"), reader);
    let reading = world.hold("tryread.txt", op);

    let thread = world.thread();
    let op = world.store.try_with_read(world.file("tryread.txt"), thread);
    let (op, action) = world.try_start(op);
    assert!(matches!(action, Action::Open { .. }));
    let (op, action) = world.try_step(op, Event::Opened);
    assert!(matches!(action, Action::Lock { op: 5 }));
    let (op, action) = world.try_step(op, Event::Locked);
    assert!(matches!(action, Action::Run));
    let (op, action) = world.try_step(op, Event::Returned(Ok(42)));
    assert!(matches!(action, Action::Close));
    let (_, action) = world.try_step(op, Event::Closed);
    let (outcome, wake) = finished(action);
    assert_eq!(outcome.try_result().unwrap().unwrap(), Some(42));
    assert_eq!(wake, Some(Wake::One));
    world.release(reading);
}

#[test]
fn try_write_returns_none_under_contention() {
    let mut world = World::new();
    let writer = world.thread();
    let op = world.store.with_write(world.file("try_contention.txt"), writer);
    let writing = world.hold("try_contention.txt", op);
    let thread = world.thread();

    let op = world.store.try_with_write::<(), String>(world.file("try_contention.txt"), thread);
    let (_, action) = world.try_start(op);
    let result = finished(action).0.try_result().unwrap().unwrap();
    assert!(result.is_none(), "try_with_write should return None when write-locked");

    let op = world.store.try_with_read::<(), String>(world.file("try_contention.txt"), thread);
    let (_, action) = world.try_start(op);
    let result = finished(action).0.try_result().unwrap().unwrap();
    assert!(result.is_none(), "try_with_read should return None when write-locked");
    world.release(writing);
}

#[test]
fn try_read_succeeds_under_shared_contention() {
    let mut world = World::new();
    world.write("try_shared.txt", b"shared data\n");
    let reader = world.thread();
    let op = world.store.with_read(world.file("try_shared.txt"), reader);
    let reading = world.hold("try_shared.txt", op);

    let thread = world.thread();
    let op = world.store.try_with_read(world.file("try_shared.txt"), thread);
    let (op, _) = world.try_start(op);
    let (op, _) = world.try_step(op, Event::Opened);
    let (op, _) = world.try_step(op, Event::Locked);
    assert_eq!(world.holder_count("try_shared.txt"), 2);
    let (op, _) = world.try_step(op, Event::Returned(Ok(42)));
    let (_, action) = world.try_step(op, Event::Closed);
    assert_eq!(finished(action).0.try_result().unwrap().unwrap(), Some(42));
    world.release(reading);
}

/// Another process has the lock: the kernel says so, and a try returns `None`.
#[test]
fn try_returns_none_when_kernel_says_busy() {
    for code in [libc::EWOULDBLOCK, libc::EAGAIN] {
        let mut world = World::new();
        let thread = world.thread();
        let op = world.store.try_with_write::<(), String>(world.file("k.txt"), thread);
        let (op, _) = world.try_start(op);
        let (op, action) = world.try_step(op, Event::Opened);
        assert!(matches!(action, Action::Lock { op } if op == (libc::LOCK_EX | libc::LOCK_NB)));
        assert!(world.is_locked("k.txt"));
        let error = io::Error::from_raw_os_error(code);
        let (op, action) = world.try_step(op, Event::LockFailed { error, code: Some(code), now: 0 });
        assert!(matches!(action, Action::Close));
        // The file is closed before the lock in the store goes.
        assert!(world.is_locked("k.txt"));
        let (_, action) = world.try_step(op, Event::Closed);
        assert!(!world.is_locked("k.txt"));
        let (outcome, wake) = finished(action);
        assert_eq!(wake, Some(Wake::All));
        assert!(outcome.try_result().unwrap().unwrap().is_none());
    }
}

/// Tries do not wait, all other operations do.
#[test]
fn tries_do_not_wait() {
    let mut world = World::new();
    let thread = world.thread();
    let path = world.file("a.txt");
    let store = &world.store;
    assert!(!store.try_with_read::<(), String>(path.clone(), thread).waits());
    assert!(!store.try_with_write::<(), String>(path.clone(), thread).waits());
    assert!(store.with_read::<(), String>(path.clone(), thread).waits());
    assert!(store.with_write::<(), String>(path.clone(), thread).waits());
    assert!(store.modify::<(), String>(path.clone(), thread).waits());
    assert!(store.with_read_timeout::<(), String>(path.clone(), millis(1), thread, 0).waits());
    assert!(store.with_write_timeout::<(), String>(path, millis(1), thread, 0).waits());
}

/// Any other failure of the kernel's lock is the caller's error.
#[test]
fn kernel_failure_is_an_error() {
    let mut world = World::new();
    let thread = world.thread();
    let op = world.store.try_with_read::<(), String>(world.file("k.txt"), thread);
    let (op, _) = world.try_start(op);
    let (op, _) = world.try_step(op, Event::Opened);
    let error = io::Error::from_raw_os_error(libc::ENOLCK);
    let code = Some(libc::ENOLCK);
    let (op, _) = world.try_step(op, Event::LockFailed { error, code, now: 0 });
    let (_, action) = world.try_step(op, Event::Closed);
    let error = finished(action).0.try_result().unwrap().unwrap_err();
    assert_eq!(error.raw_os_error(), Some(libc::ENOLCK));

    // An operation that waits does not take even this code for contention.
    let op = world.store.with_read::<(), String>(world.file("k.txt"), thread);
    let (op, _) = world.start(op);
    let (op, action) = world.step(op, Event::Opened);
    assert!(matches!(action, Action::Lock { op } if op == libc::LOCK_SH));
    let error = io::Error::from_raw_os_error(libc::EAGAIN);
    let code = Some(libc::EAGAIN);
    let (op, _) = world.step(op, Event::LockFailed { error, code, now: 0 });
    let (_, action) = world.step(op, Event::Closed);
    let error = finished(action).0.blocking_result().unwrap().unwrap_err();
    assert_eq!(error.raw_os_error(), Some(libc::EAGAIN));
    assert!(!world.is_locked("k.txt"));
}

/// A reader of a file that does not exist gets the error, and no lock is left.
#[test]
fn open_failure_releases_lock() {
    let mut world = World::new();
    let thread = world.thread();
    let op = world.store.with_read::<(), String>(world.file("none.txt"), thread);
    let (op, action) = world.start(op);
    assert!(matches!(action, Action::Open { options, .. } if options.create.is_none()));
    assert!(world.is_locked("none.txt"));
    let error = io::Error::from(io::ErrorKind::NotFound);
    let (_, action) = world.step(op, Event::OpenFailed(error));
    let (outcome, wake) = finished(action);
    assert_eq!(wake, Some(Wake::All));
    let error = outcome.blocking_result().unwrap().unwrap_err();
    assert_eq!(error.kind(), io::ErrorKind::NotFound);
    assert!(!world.is_locked("none.txt"));
}

// ---------------------------------------------------------------------------
// Timeouts
// ---------------------------------------------------------------------------

#[test]
fn with_write_timeout_expires() {
    let mut world = World::new();
    world.write("timeout.txt", b"data\n");
    let writer = world.thread();
    let op = world.store.with_write(world.file("timeout.txt"), writer);
    let writing = world.hold("timeout.txt", op);

    let thread = world.thread();
    let path = world.file("timeout.txt");
    let now = world.now;
    let op = world.store.with_write_timeout::<(), String>(path, millis(50), thread, now);
    let (op, action) = world.start(op);
    assert!(matches!(action, Action::Wait { limit: Some(50_000_000) }));
    world.now += 50_000_000;
    let (_, action) = world.wake(op, true);
    let (outcome, wake) = finished(action);
    assert_eq!(wake, None);
    let result = outcome.timed_result().unwrap();
    assert!(result.is_err());
    match result.unwrap_err() {
        FileLockError::Timeout { path, lock_type, timeout } => {
            assert_eq!(path, world.file("timeout.txt"));
            assert_eq!(lock_type, LockType::Exclusive);
            assert_eq!(timeout, millis(50));
        }
        other => panic!("expected Timeout, got {:?}", other),
    }
    assert_eq!(world.holder_count("timeout.txt"), 1);
    world.release(writing);
}

#[test]
fn timeout_fires_when_lock_held() {
    let mut world = World::new();
    let writer = world.thread();
    let op = world.store.with_write(world.file("timeout_test.txt"), writer);
    let writing = world.hold("timeout_test.txt", op);

    let thread = world.thread();
    let path = world.file("timeout_test.txt");
    let start = world.now;
    let op = world.store.with_write_timeout::<(), String>(path, millis(50), thread, start);
    let (op, action) = world.start(op);
    assert!(matches!(action, Action::Wait { limit: Some(50_000_000) }));

    // Woken early, it waits for what is left of its time.
    world.now += 20_000_000;
    let (op, action) = world.wake(op, false);
    assert!(matches!(action, Action::Wait { limit: Some(30_000_000) }));

    // Woken late, it gives up even if nobody says that its wait timed out.
    world.now += 30_000_000;
    let (_, action) = world.wake(op, false);
    match finished(action).0.timed_result().unwrap().unwrap_err() {
        FileLockError::Timeout { .. } => {}
        other => panic!("expected Timeout, got {:?}", other),
    }
    assert!(world.now - start < 150_000_000, "timeout took too long");
    world.release(writing);
}

#[test]
fn timeout_succeeds_immediately_when_available() {
    let mut world = World::new();
    let thread = world.thread();
    let path = world.file("timeout_avail.txt");
    let now = world.now;
    let op = world.store.with_write_timeout(path, millis(100), thread, now);
    let result = world
        .run("timeout_avail.txt", op, |file| {
            file.extend_from_slice(b"immediate\n");
            Ok(())
        })
        .timed_result()
        .unwrap();
    assert!(result.is_ok());
    assert_eq!(world.read("timeout_avail.txt"), b"immediate\n");
}

#[test]
fn zero_timeout_acquires_immediately() {
    let mut world = World::new();
    let thread = world.thread();
    let path = world.file("zero_timeout.txt");
    let now = world.now;
    let op = world.store.with_write_timeout(path, millis(0), thread, now);
    let result = world
        .run("zero_timeout.txt", op, |file| {
            file.extend_from_slice(b"zero\n");
            Ok(())
        })
        .timed_result()
        .unwrap();
    assert!(result.is_ok());
}

#[test]
fn zero_timeout_fails_at_once_when_taken() {
    let mut world = World::new();
    let writer = world.thread();
    let op = world.store.with_write(world.file("z.txt"), writer);
    let writing = world.hold("z.txt", op);
    let thread = world.thread();
    let now = world.now;
    let op = world.store.with_read_timeout::<(), String>(
        world.file("z.txt"),
        millis(0),
        thread,
        now,
    );
    let (_, action) = world.start(op);
    let error = finished(action).0.timed_result().unwrap().unwrap_err();
    assert!(matches!(error, FileLockError::Timeout { lock_type: LockType::Shared, .. }));
    world.release(writing);
}

/// Take an operation with a deadline up to the kernel's lock, which it asks for
/// without letting the kernel block it.
fn ask_kernel(world: &mut World, op: Op<()>, flag: i32) -> Op<()> {
    let (op, action) = world.start(op);
    assert!(matches!(action, Action::Open { .. }));
    let (op, action) = world.step(op, Event::Opened);
    assert!(matches!(action, Action::Lock { op } if op == (flag | libc::LOCK_NB)));
    op
}

/// The kernel says that its lock is taken.
fn kernel_busy(world: &mut World, op: Op<()>, code: i32) -> (Op<()>, Act<()>) {
    let now = world.now;
    let error = io::Error::from_raw_os_error(code);
    world.step(op, Event::LockFailed { error, code: Some(code), now })
}

/// Another store, or another process, has the file: the deadline covers the
/// wait for the kernel's lock too.
#[test]
fn timeout_covers_the_kernel_lock() {
    for code in [libc::EWOULDBLOCK, libc::EAGAIN] {
        let mut world = World::new();
        let thread = world.thread();
        let path = world.file("a.txt");
        let now = world.now;
        let op = world.store.with_write_timeout::<(), String>(path, millis(10), thread, now);
        let op = ask_kernel(&mut world, op, libc::LOCK_EX);

        // It sleeps a little and asks again, with its lock in the store kept.
        let flags = libc::LOCK_EX | libc::LOCK_NB;
        let (op, action) = kernel_busy(&mut world, op, code);
        assert!(matches!(action, Action::Retry { op, pause: 1_000_000 } if op == flags));
        assert!(world.is_locked("a.txt"));

        // It sleeps no longer than it has time.
        world.now += 9_700_000;
        let (op, action) = kernel_busy(&mut world, op, code);
        assert!(matches!(action, Action::Retry { op, pause: 300_000 } if op == flags));

        // Its time is up.
        world.now += 300_000;
        let (op, action) = kernel_busy(&mut world, op, code);
        assert!(matches!(action, Action::Close));
        assert!(world.is_locked("a.txt"));
        let (_, action) = world.step(op, Event::Closed);
        let (outcome, wake) = finished(action);
        assert_eq!(wake, Some(Wake::All));
        assert!(!world.is_locked("a.txt"));
        match outcome.timed_result().unwrap().unwrap_err() {
            FileLockError::Timeout { path, lock_type, timeout } => {
                assert_eq!(path, world.file("a.txt"));
                assert_eq!(lock_type, LockType::Exclusive);
                assert_eq!(timeout, millis(10));
            }
            other => panic!("expected Timeout, got {:?}", other),
        }
    }
}

/// The kernel's lock becomes free before the deadline.
#[test]
fn kernel_lock_freed_in_time_is_taken() {
    let mut world = World::new();
    world.write("a.txt", b"");
    let thread = world.thread();
    let path = world.file("a.txt");
    let now = world.now;
    let op = world.store.with_read_timeout::<(), String>(path, millis(10), thread, now);
    let op = ask_kernel(&mut world, op, libc::LOCK_SH);
    let (op, action) = kernel_busy(&mut world, op, libc::EWOULDBLOCK);
    let flags = libc::LOCK_SH | libc::LOCK_NB;
    assert!(matches!(action, Action::Retry { op, .. } if op == flags));
    let (op, action) = world.step(op, Event::Locked);
    assert!(matches!(action, Action::Run));
    world.release(op);
}

/// A timeout of zero asks the kernel once.
#[test]
fn zero_timeout_asks_the_kernel_once() {
    let mut world = World::new();
    let thread = world.thread();
    let path = world.file("a.txt");
    let now = world.now;
    let op = world.store.with_write_timeout::<(), String>(path, millis(0), thread, now);
    let op = ask_kernel(&mut world, op, libc::LOCK_EX);
    let (op, action) = kernel_busy(&mut world, op, libc::EWOULDBLOCK);
    assert!(matches!(action, Action::Close));
    let (_, action) = world.step(op, Event::Closed);
    let error = finished(action).0.timed_result().unwrap().unwrap_err();
    assert!(matches!(error, FileLockError::Timeout { .. }));
}

/// With time left, any other failure of the kernel's lock is still an error,
/// and so is a store that goes away.
#[test]
fn other_failures_end_a_timed_lock_at_once() {
    let mut world = World::new();
    let thread = world.thread();
    let path = world.file("a.txt");
    let now = world.now;
    let op = world.store.with_write_timeout::<(), String>(path, millis(10), thread, now);
    let op = ask_kernel(&mut world, op, libc::LOCK_EX);
    let (op, action) = kernel_busy(&mut world, op, libc::ENOLCK);
    assert!(matches!(action, Action::Close));
    let (_, action) = world.step(op, Event::Closed);
    match finished(action).0.timed_result().unwrap().unwrap_err() {
        FileLockError::Io(error) => assert_eq!(error.raw_os_error(), Some(libc::ENOLCK)),
        other => panic!("expected Io error, got {:?}", other),
    }

    let path = world.file("a.txt");
    let op = world.store.with_write_timeout::<(), String>(path, millis(10), thread, now);
    let op = ask_kernel(&mut world, op, libc::LOCK_EX);
    world.store.shut_down();
    let (op, _) = kernel_busy(&mut world, op, libc::EWOULDBLOCK);
    let (_, action) = world.step(op, Event::Closed);
    let error = finished(action).0.timed_result().unwrap().unwrap_err();
    assert_eq!(error.to_string(), "I/O error: FileStore dropped while lock was pending");
}

/// A store that goes away is what a timed lock ends with even if its time is up.
#[test]
fn shutdown_comes_before_the_deadline() {
    let mut world = World::new();
    let thread = world.thread();
    let path = world.file("a.txt");
    let now = world.now;
    let op = world.store.with_write_timeout::<(), String>(path, millis(10), thread, now);
    let op = ask_kernel(&mut world, op, libc::LOCK_EX);
    world.store.shut_down();
    world.now += 10_000_000;
    let (op, action) = kernel_busy(&mut world, op, libc::EWOULDBLOCK);
    assert!(matches!(action, Action::Close));
    let (_, action) = world.step(op, Event::Closed);
    let error = finished(action).0.timed_result().unwrap().unwrap_err();
    assert_eq!(error.to_string(), "I/O error: FileStore dropped while lock was pending");
}

/// A lock that becomes free just as the time is up is taken.
#[test]
fn lock_freed_at_the_deadline_is_granted() {
    let mut world = World::new();
    let writer = world.thread();
    let op = world.store.with_write(world.file("d.txt"), writer);
    let writing = world.hold("d.txt", op);
    let thread = world.thread();
    let path = world.file("d.txt");
    let now = world.now;
    let op = world.store.with_read_timeout::<(), String>(path, millis(5), thread, now);
    let (op, _) = world.start(op);
    world.release(writing);
    world.now += 5_000_000;
    let (op, action) = world.wake(op, true);
    let reading = world.enter("d.txt", op, action);
    world.release(reading);
}

// ---------------------------------------------------------------------------
// Introspection and independence
// ---------------------------------------------------------------------------

#[test]
fn holder_count_tracks_correctly() {
    let mut world = World::new();
    world.write("x.txt", b"test");
    assert_eq!(world.holder_count("x.txt"), 0);
    assert!(!world.is_locked("x.txt"));

    let reader = world.thread();
    let op = world.store.with_read(world.file("x.txt"), reader);
    let reading = world.hold("x.txt", op);
    assert_eq!(world.holder_count("x.txt"), 1);
    assert!(world.is_locked("x.txt"));
    world.release(reading);

    assert_eq!(world.holder_count("x.txt"), 0);
    assert!(!world.is_locked("x.txt"));
}

#[test]
fn introspection_tracks_state() {
    let mut world = World::new();
    assert!(!world.is_locked("introspect.txt"));
    assert_eq!(world.holder_count("introspect.txt"), 0);
    let writer = world.thread();
    let op = world.store.with_write(world.file("introspect.txt"), writer);
    let writing = world.hold("introspect.txt", op);
    assert!(world.is_locked("introspect.txt"));
    assert_eq!(world.holder_count("introspect.txt"), 1);
    world.release(writing);
    assert!(!world.is_locked("introspect.txt"));
    assert_eq!(world.holder_count("introspect.txt"), 0);
}

#[test]
fn independent_files_independent_locks() {
    let mut world = World::new();
    let writer = world.thread();
    let op = world.store.with_write(world.file("a.txt"), writer);
    let writing = world.hold("a.txt", op);

    let thread = world.thread();
    let op = world.store.with_write(world.file("b.txt"), thread);
    let result = world.run("b.txt", op, |file| {
        file.extend_from_slice(b"independent\n");
        Ok(())
    });
    assert!(result.blocking_result().unwrap().is_ok());

    let op = world.store.try_with_write::<(), String>(world.file("a.txt"), thread);
    let (_, action) = world.try_start(op);
    assert!(finished(action).0.try_result().unwrap().unwrap().is_none());
    world.release(writing);
}

#[test]
fn multiple_files_independent() {
    let mut world = World::new();
    for j in 0..50 {
        let mut held = vec![];
        for i in 0..5 {
            let name = format!("file_{}.txt", i);
            let thread = world.thread();
            let op = world.store.with_write(world.file(&name), thread);
            held.push(world.hold(&name, op));
            assert_eq!(world.holder_count(&name), 1, "write {}-{}", i, j);
        }
        for op in held {
            world.release(op);
        }
    }
}

#[test]
fn canonical_path_prevents_duplicate_locks() {
    let mut world = World::new();
    world.write("canonical.txt", b"test\n");
    // The relative and the absolute spelling are one file with one lock.
    assert_eq!(world.file("canonical.txt"), world.file("/data/canonical.txt"));
    assert_eq!(world.read("/data/canonical.txt"), b"test\n");
    let writer = world.thread();
    let op = world.store.with_write(world.file("canonical.txt"), writer);
    let writing = world.hold("canonical.txt", op);
    assert!(world.is_locked("/data/canonical.txt"));
    assert!(world.is_locked("/data//./canonical.txt/"));
    assert!(!world.is_locked("/data/other.txt"));
    world.release(writing);
}

#[test]
fn store_send_sync() {
    fn assert_send_sync<T: Send + Sync>() {}
    assert_send_sync::<FileStore>();
}

// ---------------------------------------------------------------------------
// Errors, panics and shutdown
// ---------------------------------------------------------------------------

#[test]
fn closure_error_propagates() {
    let mut world = World::new();
    let thread = world.thread();
    let op = world.store.with_write::<(), String>(world.file("err.txt"), thread);
    let result = world
        .run("err.txt", op, |_file| {
            Err(io::Error::new(io::ErrorKind::InvalidData, "intentional error"))
        })
        .blocking_result()
        .unwrap();
    assert!(result.is_err());
    let err = result.unwrap_err();
    assert_eq!(err.kind(), io::ErrorKind::InvalidData);
    assert_eq!(err.to_string(), "intentional error");

    // The store is still usable after the error.
    let op = world.store.with_write(world.file("err.txt"), thread);
    let result = world.run("err.txt", op, |file| {
        file.extend_from_slice(b"recovered\n");
        Ok(())
    });
    assert!(result.blocking_result().unwrap().is_ok());
}

#[test]
fn closure_error_propagates_with_timeout() {
    let mut world = World::new();
    let thread = world.thread();
    let path = world.file("err_timeout.txt");
    let now = world.now;
    let op =
        world.store.with_write_timeout::<(), String>(path, Duration::new(5, 0), thread, now);
    let result = world
        .run("err_timeout.txt", op, |_file| {
            Err(io::Error::new(io::ErrorKind::Other, "closure error"))
        })
        .timed_result()
        .unwrap();
    assert!(result.is_err());
    match result.unwrap_err() {
        FileLockError::Io(e) => assert_eq!(e.kind(), io::ErrorKind::Other),
        other => panic!("expected Io error, got {:?}", other),
    }
}

#[test]
fn panic_in_closure_does_not_poison_store() {
    let mut world = World::new();
    let thread = world.thread();
    let op = world.store.with_write(world.file("panic.txt"), thread);
    let op = world.hold("panic.txt", op);
    let (outcome, wake) = world.leave(op, Event::Panicked("intentional panic".to_string()));
    assert_eq!(wake, Some(Wake::All));
    let result = outcome.blocking_result();
    assert_eq!(result.unwrap_err(), "intentional panic");

    // The store is still usable.
    let op = world.store.with_write(world.file("panic.txt"), thread);
    let result = world.run("panic.txt", op, |file| {
        file.extend_from_slice(b"recovered\n");
        Ok(())
    });
    assert!(result.blocking_result().unwrap().is_ok());
    assert_eq!(world.read("panic.txt"), b"recovered\n");
}

#[test]
fn drop_store_while_waiters() {
    let mut world = World::new();
    let holder = world.thread();
    let op = world.store.with_write(world.file("drop_test.txt"), holder);
    let holding = world.hold("drop_test.txt", op);
    let waiter = world.thread();
    let op = world.store.with_write::<(), String>(world.file("drop_test.txt"), waiter);
    let (waiting, action) = world.start(op);
    assert!(matches!(action, Action::Wait { limit: None }));

    assert!(!world.store.is_shut_down());
    assert_eq!(world.store.shut_down(), Wake::All);
    assert!(world.store.is_shut_down());

    // The waiting thread is told, and the holder still ends as usual.
    let (_, action) = world.wake(waiting, false);
    let (outcome, wake) = finished(action);
    assert_eq!(wake, None);
    let error = outcome.blocking_result().unwrap().unwrap_err();
    assert_eq!(error.kind(), io::ErrorKind::Other);
    assert_eq!(error.to_string(), "FileStore dropped while lock was pending");
    world.release(holding);
    assert!(!world.is_locked("drop_test.txt"));
}

/// A store that goes away refuses to let a thread wait, but not a lock that is
/// free.
#[test]
fn shut_down_store_refuses_waits_only() {
    let mut world = World::new();
    let holder = world.thread();
    let op = world.store.with_write(world.file("a.txt"), holder);
    let holding = world.hold("a.txt", op);
    world.store.shut_down();
    let thread = world.thread();
    let op = world.store.with_read::<(), String>(world.file("a.txt"), thread);
    let (_, action) = world.start(op);
    let error = finished(action).0.blocking_result().unwrap().unwrap_err();
    assert_eq!(error.to_string(), "FileStore dropped while lock was pending");
    world.write("b.txt", b"free");
    assert_eq!(world.read("b.txt"), b"free");
    world.release(holding);
}

// ---------------------------------------------------------------------------
// Load
// ---------------------------------------------------------------------------

#[test]
fn stress_many_threads_many_files() {
    let mut world = World::new();
    for t in 0..16 {
        let thread = world.thread();
        for f in 0..5 {
            let name = format!("stress_t{}_f{}.txt", t, f);
            for op_nr in 0..20 {
                let op = world.store.with_write(world.file(&name), thread);
                world
                    .run(&name, op, |file| {
                        file.extend_from_slice(format!("t{}-f{}-op{}\n", t, f, op_nr).as_bytes());
                        Ok(())
                    })
                    .blocking_result()
                    .unwrap()
                    .unwrap();
            }
            let content = String::from_utf8(world.read(&name)).unwrap();
            assert!(content.contains(&format!("t{}-f{}-op{}", t, f, 19)));
        }
    }
}

#[test]
fn stress_rapid_lock_churn() {
    let mut world = World::new();
    world.write("churn.txt", b"0\n");
    let num_threads = 10;
    let ops = 100;
    for _ in 0..ops {
        for _ in 0..num_threads {
            let thread = world.thread();
            let op = world.store.with_write(world.file("churn.txt"), thread);
            world
                .run("churn.txt", op, |file| {
                    let val: u64 = String::from_utf8_lossy(file).trim().parse().unwrap_or(0);
                    *file = format!("{}\n", val + 1).into_bytes();
                    Ok(())
                })
                .blocking_result()
                .unwrap()
                .unwrap();
        }
    }
    let content = String::from_utf8(world.read("churn.txt")).unwrap();
    let final_val: u64 = content.trim().parse().unwrap();
    assert_eq!(final_val, (num_threads * ops) as u64);
}

#[test]
fn stress_mixed_read_write_workload() {
    let mut world = World::new();
    for i in 0..10 {
        world.write(&format!("mixed_{}.txt", i), format!("initial_{}\n", i).as_bytes());
    }
    let num_threads = 12;
    let mut threads = vec![];
    for _ in 0..num_threads {
        threads.push(world.thread());
    }
    for op_nr in 0..50 {
        for t in 0..num_threads {
            let name = format!("mixed_{}.txt", (t + op_nr) % 10);
            if t % 3 == 0 {
                let op = world.store.with_write(world.file(&name), threads[t]);
                world
                    .run(&name, op, |file| {
                        *file = format!("t{}_op{}\n", t, op_nr).into_bytes();
                        Ok(())
                    })
                    .blocking_result()
                    .unwrap()
                    .unwrap();
            } else {
                let op = world.store.with_read(world.file(&name), threads[t]);
                world
                    .run(&name, op, |file| {
                        assert!(!file.is_empty());
                        Ok(())
                    })
                    .blocking_result()
                    .unwrap()
                    .unwrap();
            }
        }
    }
}

#[test]
fn concurrent_different_files() {
    let mut world = World::new();
    world.write("reader.txt", b"initial\n");
    let writer = world.thread();
    let reader = world.thread();
    for i in 0..50 {
        // The reader comes and goes while the writer has the other file.
        let op = world.store.with_write(world.file("writer.txt"), writer);
        let writing = world.hold("writer.txt", op);
        let op = world.store.with_read(world.file("reader.txt"), reader);
        let reading = world.hold("reader.txt", op);
        assert_eq!(world.holder_count("writer.txt"), 1, "write_{}", i);
        assert_eq!(world.release(reading), Some(Wake::All));
        assert_eq!(world.release(writing), Some(Wake::All));
    }
}

// ---------------------------------------------------------------------------
// Grants and releases together
// ---------------------------------------------------------------------------

/// A release takes back exactly what a grant gave.
#[test]
fn release_undoes_grant() {
    let mut world = World::new();
    world.write("g.txt", b"");
    let first = world.thread();
    let second = world.thread();
    let op = world.store.with_read(world.file("g.txt"), first);
    let reading = world.hold("g.txt", op);
    for thread in [first, second] {
        let before = world.holder_count("g.txt");
        let op = world.store.with_read(world.file("g.txt"), thread);
        let more = world.hold("g.txt", op);
        world.release(more);
        assert_eq!(world.holder_count("g.txt"), before);
    }
    world.release(reading);
    assert!(!world.is_locked("g.txt"));
}

/// Two writers wait for a reader: whichever comes first goes on, and wakes all
/// when it is done.
#[test]
fn either_waiting_writer_can_go_first() {
    for chosen in 0..2 {
        let mut world = World::new();
        world.write("w.txt", b"");
        let reader = world.thread();
        let op = world.store.with_read(world.file("w.txt"), reader);
        let reading = world.hold("w.txt", op);
        let mut waiting = vec![];
        for _ in 0..2 {
            let thread = world.thread();
            let op = world.store.with_write::<(), String>(world.file("w.txt"), thread);
            let (op, action) = world.start(op);
            assert!(matches!(action, Action::Wait { limit: None }));
            waiting.push(op);
        }
        assert_eq!(world.release(reading), Some(Wake::All));
        let op = waiting.remove(chosen);
        let (op, action) = world.wake(op, false);
        let writing = world.enter("w.txt", op, action);
        assert_eq!(world.release(writing), Some(Wake::All));
        let (op, action) = world.wake(waiting.remove(0), false);
        let writing = world.enter("w.txt", op, action);
        world.release(writing);
        assert!(!world.is_locked("w.txt"));
    }
}

/// The last reader of a file wakes its writer, though a writer of another file
/// waits too.
#[test]
fn waiting_on_one_file_does_not_hold_up_another() {
    let mut world = World::new();
    world.write("p.txt", b"");
    let mut held = vec![];
    for _ in 0..2 {
        let reader = world.thread();
        let op = world.store.with_read(world.file("p.txt"), reader);
        held.push(world.hold("p.txt", op));
    }
    let owner = world.thread();
    let op = world.store.with_write(world.file("q.txt"), owner);
    let owning = world.hold("q.txt", op);

    let first = world.thread();
    let op = world.store.with_write::<(), String>(world.file("q.txt"), first);
    let (on_q, action) = world.start(op);
    assert!(matches!(action, Action::Wait { limit: None }));
    let second = world.thread();
    let op = world.store.with_write::<(), String>(world.file("p.txt"), second);
    let (on_p, action) = world.start(op);
    assert!(matches!(action, Action::Wait { limit: None }));

    // One reader is left: nobody can go on, and one wake-up is enough.
    assert_eq!(world.release(held.pop().unwrap()), Some(Wake::One));
    let (on_p, action) = world.wake(on_p, false);
    assert!(matches!(action, Action::Wait { limit: None }));

    // The last reader wakes both, and the writer of its file goes on.
    assert_eq!(world.release(held.pop().unwrap()), Some(Wake::All));
    let (on_q, action) = world.wake(on_q, false);
    assert!(matches!(action, Action::Wait { limit: None }));
    let (on_p, action) = world.wake(on_p, false);
    let writing = world.enter("p.txt", on_p, action);
    world.release(writing);

    assert_eq!(world.release(owning), Some(Wake::All));
    let (on_q, action) = world.wake(on_q, false);
    let writing = world.enter("q.txt", on_q, action);
    world.release(writing);
}

/// Threads that sleep until they are woken, on several files: every operation
/// ends, within the number of turns that their number allows.
#[test]
fn every_operation_ends() {
    for seed in 0u64..200 {
        let mut world = World::new();
        let names = ["a.txt", "b.txt", "c.txt"];
        for name in names {
            world.write(name, b"");
        }
        let size = 12usize;
        let mut random = seed;
        let mut ready: Vec<(&str, Op<()>)> = vec![];
        for k in 0..size {
            random = random.wrapping_mul(6364136223846793005).wrapping_add(k as u64 + 1);
            let pick = (random >> 33) as usize;
            let name = names[pick % 3];
            let thread = world.thread();
            let op = if (pick / 3) % 2 == 0 {
                world.store.with_write(world.file(name), thread)
            } else {
                world.store.with_read(world.file(name), thread)
            };
            ready.push((name, op));
        }
        let mut begun = vec![];
        let mut asleep: Vec<(&str, Op<()>)> = vec![];
        let mut inside: Vec<(&str, Op<()>)> = vec![];
        let mut turns = 0;
        while !ready.is_empty() || !begun.is_empty() || !inside.is_empty() {
            turns += 1;
            random = random.wrapping_mul(6364136223846793005).wrapping_add(turns as u64);
            let pick = (random >> 33) as usize;
            let choice = pick % (ready.len() + begun.len() + inside.len());
            if choice < ready.len() + begun.len() {
                let (name, (op, action)) = if choice < ready.len() {
                    let (name, op) = ready.swap_remove(choice);
                    (name, world.start(op))
                } else {
                    let (name, op) = begun.swap_remove(choice - ready.len());
                    (name, world.wake(op, false))
                };
                match action {
                    Action::Wait { .. } => asleep.push((name, op)),
                    action => inside.push((name, world.enter(name, op, action))),
                }
            } else {
                let (_, op) = inside.swap_remove(choice - ready.len() - begun.len());
                match world.release(op) {
                    Some(Wake::All) => begun.append(&mut asleep),
                    Some(Wake::One) if !asleep.is_empty() => {
                        begun.push(asleep.swap_remove(pick % asleep.len()));
                    }
                    _ => {}
                }
            }
        }
        assert!(asleep.is_empty());
        assert!(turns <= 6 * size * (size + 1));
        for name in names {
            assert!(!world.is_locked(name));
        }
    }
}

/// Many interleavings of readers and writers on one file: those inside at the
/// same time are all readers, or one writer alone, and nothing is left behind.
#[test]
fn interleavings_exclude_writers() {
    for seed in 0u64..200 {
        let mut world = World::new();
        world.write("i.txt", b"");
        let mut waiting: Vec<(bool, Op<()>)> = vec![];
        let mut inside: Vec<(bool, Op<()>)> = vec![];
        let mut random = seed;
        for turn in 0u64..60 {
            random = random.wrapping_mul(6364136223846793005).wrapping_add(turn + 1);
            let pick = (random >> 33) as usize;
            if pick % 3 == 0 {
                let writer = pick % 2 == 0;
                let thread = world.thread();
                let op = if writer {
                    world.store.with_write(world.file("i.txt"), thread)
                } else {
                    world.store.with_read(world.file("i.txt"), thread)
                };
                match world.start(op) {
                    (op, Action::Wait { .. }) => waiting.push((writer, op)),
                    (op, action) => inside.push((writer, world.enter("i.txt", op, action))),
                }
            } else if pick % 3 == 1 && !inside.is_empty() {
                let (_, op) = inside.swap_remove(pick % inside.len());
                world.release(op);
            } else if !waiting.is_empty() {
                let (writer, op) = waiting.swap_remove(pick % waiting.len());
                match world.wake(op, false) {
                    (op, Action::Wait { .. }) => waiting.push((writer, op)),
                    (op, action) => inside.push((writer, world.enter("i.txt", op, action))),
                }
            }
            let writers = inside.iter().filter(|(writer, _)| *writer).count();
            assert!(writers == 0 || inside.len() == 1);
            assert_eq!(world.holder_count("i.txt"), inside.len());
        }
        while let Some((_, op)) = inside.pop() {
            world.release(op);
        }
        assert!(!world.is_locked("i.txt"));
    }
}
