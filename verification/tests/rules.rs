//! The parts of the library one by one.

use filock::error::{io_error_from_lock_error, io_message, poisoned_message, timeout_message};
use filock::fd::open_for_lock;
use filock::file_locks::FileLocks;
use filock::flock::{flock_operation, BusyCodes};
use filock::lock_info::FileLockInfo;
use filock::path::{join, parent, same_path};
use filock::{
    Duration, FileLockError, FileStore, HolderId, HolderIds, LockType, ResolveAction, ResolveEvent,
};
use std::io;

fn thread(ids: &mut HolderIds) -> HolderId {
    let mut slot = None;
    HolderId::current(ids, &mut slot)
}

// ---------------------------------------------------------------------------
// Errors
// ---------------------------------------------------------------------------

#[test]
fn lock_types_have_names() {
    assert_eq!(LockType::Shared.to_string(), "shared");
    assert_eq!(LockType::Exclusive.to_string(), "exclusive");
}

#[test]
fn timeout_says_what_was_asked_for() {
    let error = FileLockError::Timeout {
        path: b"/data/x.txt".to_vec(),
        lock_type: LockType::Exclusive,
        timeout: Duration::new(0, 50_000_000),
    };
    let expected = "failed to acquire exclusive lock on '/data/x.txt' within 50ms";
    assert_eq!(error.to_string(), expected);
    assert!(error.source().is_none());
    let error = io_error_from_lock_error(error);
    assert_eq!(error.kind(), io::ErrorKind::Other);
    assert_eq!(error.to_string(), expected);
}

#[test]
fn timeout_prints_seconds_and_odd_bytes() {
    let error = FileLockError::Timeout {
        path: b"/d\xffx".to_vec(),
        lock_type: LockType::Shared,
        timeout: Duration::new(1, 500_000_000),
    };
    let expected = "failed to acquire shared lock on '/d\u{fffd}x' within 1.5s";
    assert_eq!(error.to_string(), expected);
}

#[test]
fn poisoned_lock_says_so() {
    let error = FileLockError::Poisoned { path: "/d/\u{e4}".as_bytes().to_vec() };
    let expected = "lock on '/d/\u{e4}' was poisoned by a panicking thread";
    assert_eq!(error.to_string(), expected);
    assert!(error.source().is_none());
    assert_eq!(io_error_from_lock_error(error).to_string(), expected);
}

#[test]
fn io_error_is_carried_through() {
    let error = FileLockError::from(io::Error::new(io::ErrorKind::NotFound, "gone"));
    assert!(matches!(&error, FileLockError::Io(e) if e.kind() == io::ErrorKind::NotFound));
    assert_eq!(error.to_string(), "I/O error: gone");
    assert_eq!(error.source().unwrap().to_string(), "gone");
    let error = io_error_from_lock_error(error);
    assert_eq!(error.kind(), io::ErrorKind::NotFound);
    assert_eq!(error.to_string(), "gone");
}

/// An error that was made of a message says the message.
#[test]
fn made_errors_print_their_message() {
    let poisoned = FileLockError::Poisoned { path: b"/d/x".to_vec() };
    let error = FileLockError::from(io_error_from_lock_error(poisoned));
    let expected = "I/O error: lock on '/d/x' was poisoned by a panicking thread";
    assert_eq!(error.to_string(), expected);
}

/// An error that cannot print itself leaves what it has printed so far.
#[test]
fn errors_that_cannot_print_do_no_harm() {
    #[derive(Debug)]
    struct Mute;
    impl std::fmt::Display for Mute {
        fn fmt(&self, f: &mut std::fmt::Formatter<'_>) -> std::fmt::Result {
            f.write_str("so far")?;
            Err(std::fmt::Error)
        }
    }
    impl std::error::Error for Mute {}
    let error = FileLockError::from(io::Error::other(Mute));
    assert_eq!(error.to_string(), "I/O error: so far");
}

#[test]
fn messages_are_put_together() {
    assert_eq!(
        timeout_message(LockType::Shared, "p", "1s"),
        "failed to acquire shared lock on 'p' within 1s"
    );
    assert_eq!(poisoned_message("p"), "lock on 'p' was poisoned by a panicking thread");
    assert_eq!(io_message("e"), "I/O error: e");
}

// ---------------------------------------------------------------------------
// What is asked of the system
// ---------------------------------------------------------------------------

#[test]
fn flock_operations_are_those_of_the_system() {
    assert_eq!(flock_operation(LockType::Shared, true), libc::LOCK_SH);
    assert_eq!(flock_operation(LockType::Exclusive, true), libc::LOCK_EX);
    assert_eq!(flock_operation(LockType::Shared, false), libc::LOCK_SH | libc::LOCK_NB);
    assert_eq!(flock_operation(LockType::Exclusive, false), libc::LOCK_EX | libc::LOCK_NB);
}

#[test]
fn busy_codes_are_those_of_the_system() {
    let codes = BusyCodes::of_system();
    assert!(codes.busy(Some(libc::EWOULDBLOCK)));
    assert!(codes.busy(Some(libc::EAGAIN)));
    assert!(!codes.busy(Some(libc::EINTR)));
    assert!(!codes.busy(Some(0)));
    assert!(!codes.busy(None));
}

#[test]
fn files_are_opened_for_reading_and_writing() {
    let existing = open_for_lock(false);
    assert!(existing.read && existing.write);
    assert_eq!(existing.create, None);
    let created = open_for_lock(true);
    assert!(created.read && created.write);
    assert_eq!(created.create, Some(0o644));
}

#[test]
fn durations_count_nanoseconds() {
    let span = Duration::new(2, 7);
    assert_eq!(span.as_secs(), 2);
    assert_eq!(span.subsec(), 7);
    assert_eq!(span.as_nanos(), 2_000_000_007);
    assert_eq!(Duration::new(u64::MAX, 999_999_999).as_nanos(), 18446744073709551615999999999);
    assert_eq!(Duration::from_nanos(2_000_000_007), Some(span));
    let longest = Duration::new(u64::MAX, 999_999_999);
    assert_eq!(Duration::from_nanos(18446744073709551615999999999), Some(longest));
    assert_eq!(Duration::from_nanos(18446744073709551616000000000), None);
}

// ---------------------------------------------------------------------------
// Threads
// ---------------------------------------------------------------------------

#[test]
fn threads_keep_their_identifiers() {
    let mut ids = HolderIds::new();
    let mut first = None;
    let mut second = None;
    let a = HolderId::current(&mut ids, &mut first);
    let b = HolderId::current(&mut ids, &mut second);
    assert_ne!(a, b);
    assert_eq!(HolderId::current(&mut ids, &mut first), a);
    assert_eq!(HolderId::current(&mut ids, &mut second), b);
    let c = thread(&mut ids);
    assert!(c != a && c != b);
    assert!(!ids.exhausted());
}

// ---------------------------------------------------------------------------
// The locks on one file
// ---------------------------------------------------------------------------

#[test]
fn compatibility_table() {
    let mut ids = HolderIds::new();
    let me = thread(&mut ids);
    let other = thread(&mut ids);

    let mut info = FileLockInfo::new();
    assert!(info.is_empty());
    assert_eq!(info.effective(), None);
    assert!(info.can_grant(LockType::Shared, me));
    assert!(info.can_grant(LockType::Exclusive, me));

    info.add_holder(other, LockType::Shared);
    assert_eq!(info.effective(), Some(LockType::Shared));
    assert!(info.can_grant(LockType::Shared, me));
    assert!(!info.can_grant(LockType::Exclusive, me));
    assert!(info.can_grant(LockType::Shared, other));
    assert!(!info.can_grant(LockType::Exclusive, other));

    info.remove_holder(&other);
    assert!(info.is_empty());
    info.add_holder(other, LockType::Exclusive);
    assert_eq!(info.effective(), Some(LockType::Exclusive));
    for who in [me, other] {
        assert!(!info.can_grant(LockType::Shared, who));
        assert!(!info.can_grant(LockType::Exclusive, who));
    }
    info.remove_holder(&other);
    assert_eq!(info.effective(), None);
}

#[test]
fn one_thread_is_one_holder_on_record() {
    let mut ids = HolderIds::new();
    let a = thread(&mut ids);
    let b = thread(&mut ids);
    let mut info = FileLockInfo::new();
    info.add_holder(a, LockType::Shared);
    info.add_holder(a, LockType::Shared);
    info.add_holder(b, LockType::Shared);
    assert_eq!(info.holder_count(), 2);
    assert!(info.holds(&a) && info.holds(&b));
    info.remove_holder(&a);
    assert!(!info.holds(&a) && info.holds(&b));
    assert_eq!(info.holder_count(), 1);
    info.remove_holder(&a);
    assert_eq!(info.holder_count(), 1);
    assert_eq!(info.effective(), Some(LockType::Shared));
    info.remove_holder(&b);
    assert!(info.is_empty());
}

/// Locks that no table would grant are still put on record as they come.
#[test]
fn locks_are_recorded_as_they_come() {
    let mut ids = HolderIds::new();
    let a = thread(&mut ids);
    let b = thread(&mut ids);

    // The lock of another thread counts, whatever the requester holds.
    let mut info = FileLockInfo::new();
    info.add_holder(a, LockType::Shared);
    info.add_holder(b, LockType::Exclusive);
    assert_eq!(info.effective(), Some(LockType::Exclusive));
    for who in [a, b] {
        assert!(!info.can_grant(LockType::Shared, who));
        assert!(!info.can_grant(LockType::Exclusive, who));
    }
    info.remove_holder(&b);
    assert_eq!(info.effective(), Some(LockType::Shared));
    assert_eq!(info.holder_count(), 1);

    // A thread that comes again with a weaker lock has the weaker lock.
    let mut info = FileLockInfo::new();
    info.add_holder(a, LockType::Exclusive);
    info.add_holder(a, LockType::Shared);
    assert_eq!(info.effective(), Some(LockType::Shared));
    assert_eq!(info.holder_count(), 1);
    assert!(info.can_grant(LockType::Shared, b));
}

/// Taking a lock back undoes adding it, for either type.
#[test]
fn remove_undoes_add() {
    let mut ids = HolderIds::new();
    let a = thread(&mut ids);
    let b = thread(&mut ids);
    for held in [LockType::Shared, LockType::Exclusive] {
        for added in [LockType::Shared, LockType::Exclusive] {
            let mut info = FileLockInfo::new();
            info.add_holder(a, held);
            info.add_holder(b, added);
            assert_eq!(info.holder_count(), 2);
            info.remove_holder(&b);
            assert_eq!(info.holder_count(), 1);
            assert_eq!(info.effective(), Some(held));
        }
    }
}

/// A thread with two locks on a file is one holder until it has given both back.
#[test]
fn nested_locks_are_given_back_one_by_one() {
    let mut ids = HolderIds::new();
    let a = thread(&mut ids);
    let b = thread(&mut ids);
    let mut locks = FileLocks::new();
    locks.add(a, LockType::Shared);
    locks.add(a, LockType::Shared);
    locks.add(b, LockType::Shared);
    assert_eq!(locks.info().holder_count(), 2);
    locks.remove(&a);
    assert_eq!(locks.info().holder_count(), 2);
    locks.remove(&b);
    assert_eq!(locks.info().holder_count(), 1);
    assert!(locks.info().holds(&a));
    locks.remove(&a);
    assert!(locks.info().is_empty());
}

#[test]
fn release_of_an_unlocked_file_wakes_all() {
    let mut ids = HolderIds::new();
    let me = thread(&mut ids);
    let mut store = FileStore::new(b"/data".to_vec());
    assert!(store.release_lock(b"/data/x", me));
    assert!(!store.is_locked(b"/data/x"));
    assert!(store.can_grant(b"/data/x", LockType::Exclusive, me));
}

// ---------------------------------------------------------------------------
// Paths
// ---------------------------------------------------------------------------

#[test]
fn spellings_of_one_path() {
    assert!(same_path(b"/a/b", b"/a/b"));
    assert!(same_path(b"/a//b", b"/a/b"));
    assert!(same_path(b"/a/b/", b"/a/b"));
    assert!(same_path(b"/a/./b", b"/a/b/."));
    assert!(same_path(b"///", b"/"));
    assert!(same_path(b"", b""));
    assert!(same_path(b"a/.", b"a"));
    assert!(!same_path(b"/a/b", b"a/b"));
    assert!(!same_path(b"/a/b", b"/a/c"));
    assert!(!same_path(b"/a/b", b"/a"));
    assert!(!same_path(b"/a/bc", b"/a/b"));
    assert!(!same_path(b"./a", b"a"));
    assert!(!same_path(b"/a/../b", b"/b"));
    assert!(!same_path(b"", b"/"));
}

#[test]
fn paths_compare_as_in_the_standard_library() {
    let all: [&str; 24] = [
        "", "/", "//", ".", "./", "/.", "a", "./a", "a/", "/a", "/a/.", "a/b", "a//b", "a/./b",
        "../a", "/a/..", "..", "///a//", "././a", "./.", "/./a", ".a", "a.", "/..//b/.",
    ];
    for a in all {
        for b in all {
            let expected = std::path::Path::new(a) == std::path::Path::new(b);
            assert_eq!(same_path(a.as_bytes(), b.as_bytes()), expected, "{:?} {:?}", a, b);
            let joined = std::path::Path::new(a).join(b);
            let expected = joined.to_str().unwrap().as_bytes();
            assert_eq!(join(a.as_bytes(), b.as_bytes()), expected, "{:?} {:?}", a, b);
            let expected = joined.parent().map(|p| p.to_str().unwrap().as_bytes().to_vec());
            assert_eq!(parent(&join(a.as_bytes(), b.as_bytes())), expected, "{:?} {:?}", a, b);
        }
    }
}

#[test]
fn joining_paths() {
    assert_eq!(join(b"/data", b"x.txt"), b"/data/x.txt");
    assert_eq!(join(b"/", b"x.txt"), b"/x.txt");
    assert_eq!(join(b"/data", b"/etc/x"), b"/etc/x");
    assert_eq!(join(b"/data", b""), b"/data/");
    assert_eq!(join(b"", b"x"), b"x");
    let once = join(b"/data", b"sub/x");
    assert_eq!(join(b"/data", &once), once);
}

#[test]
fn parents_of_paths() {
    assert_eq!(parent(b"/data/sub/x"), Some(b"/data/sub".to_vec()));
    assert_eq!(parent(b"/data//x/"), Some(b"/data".to_vec()));
    assert_eq!(parent(b"/x"), Some(b"/".to_vec()));
    assert_eq!(parent(b"x"), Some(b"".to_vec()));
    assert_eq!(parent(b"/"), None);
    assert_eq!(parent(b""), None);
}

#[test]
fn new_file_is_known_by_its_joined_path() {
    let store = FileStore::new(b"/data".to_vec());
    assert_eq!(store.root(), b"/data");
    let (resolution, action) = store.resolve_path(b"sub/dir/file.txt");
    assert!(matches!(action, ResolveAction::CreateDirs(d) if d == b"/data/sub/dir"));
    let (resolution, action) = resolution.step(ResolveEvent::Created(Ok(())));
    assert!(matches!(action, ResolveAction::CheckExists(p) if p == b"/data/sub/dir/file.txt"));
    let (_, action) = resolution.step(ResolveEvent::Exists(false));
    assert!(matches!(action, ResolveAction::Done(Ok(p)) if p == b"/data/sub/dir/file.txt"));
}

/// Before a file is written its parent directories are created.
#[test]
fn subdirectory_auto_created() {
    let store = FileStore::new(b"/tmp/store".to_vec());
    let (_, action) = store.resolve_path(b"sub/dir/file.txt");
    assert!(matches!(action, ResolveAction::CreateDirs(d) if d == b"/tmp/store/sub/dir"));
}

#[test]
fn existing_file_is_known_by_its_canonical_path() {
    let store = FileStore::new(b"/data".to_vec());
    let (resolution, _) = store.resolve_path(b"link");
    let (resolution, _) = resolution.step(ResolveEvent::Created(Ok(())));
    let (resolution, action) = resolution.step(ResolveEvent::Exists(true));
    assert!(matches!(action, ResolveAction::Canonicalize(p) if p == b"/data/link"));
    let (_, action) = resolution.step(ResolveEvent::Canonical(Ok(b"/real/file".to_vec())));
    assert!(matches!(action, ResolveAction::Done(Ok(p)) if p == b"/real/file"));
}

#[test]
fn resolutions_expect_the_result_of_their_call() {
    let store = FileStore::new(b"/data".to_vec());
    let (resolution, _) = store.resolve_path(b"x");
    assert!(resolution.expects(&ResolveEvent::Created(Ok(()))));
    assert!(!resolution.expects(&ResolveEvent::Exists(true)));
    let (resolution, _) = resolution.step(ResolveEvent::Created(Ok(())));
    assert!(resolution.expects(&ResolveEvent::Exists(true)));
    assert!(!resolution.expects(&ResolveEvent::Canonical(Ok(b"/x".to_vec()))));
    let (resolution, _) = resolution.step(ResolveEvent::Exists(true));
    assert!(resolution.expects(&ResolveEvent::Canonical(Ok(b"/x".to_vec()))));
    let (resolution, _) = resolution.step(ResolveEvent::Canonical(Ok(b"/x".to_vec())));
    assert!(!resolution.expects(&ResolveEvent::Created(Ok(()))));
    assert!(!resolution.expects(&ResolveEvent::Exists(false)));
}

#[test]
fn failed_calls_end_a_resolution() {
    let store = FileStore::new(b"/data".to_vec());
    let (resolution, _) = store.resolve_path(b"x");
    let denied = io::Error::from(io::ErrorKind::PermissionDenied);
    let (_, action) = resolution.step(ResolveEvent::Created(Err(denied)));
    assert!(matches!(
        action,
        ResolveAction::Done(Err(e)) if e.kind() == io::ErrorKind::PermissionDenied
    ));

    // The file system's root has no parent to create.
    let (resolution, action) = store.resolve_path(b"/");
    assert!(matches!(action, ResolveAction::CheckExists(p) if p == b"/"));
    let (resolution, _) = resolution.step(ResolveEvent::Exists(true));
    let gone = io::Error::from(io::ErrorKind::NotFound);
    let (_, action) = resolution.step(ResolveEvent::Canonical(Err(gone)));
    assert!(matches!(
        action,
        ResolveAction::Done(Err(e)) if e.kind() == io::ErrorKind::NotFound
    ));
}

#[test]
fn version_is_that_of_the_package() {
    assert_eq!(filock::VERSION, "0.1.0-alpha.1");
}
