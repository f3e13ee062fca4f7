//! Laws of what is said to callers and to the system: messages, errors, the
//! numbers of `flock(2)`, how files are opened, and spans of time.

use crate::error::{
    duration_text, io_text, lossy_text, other_error_of, poisoned_text, timeout_text, ErrorView,
    FileLockError, LockType,
};
use crate::fd::lock_options;
use crate::flock::{known_codes, operation, BusyCodes};
use crate::operation::{pause_within, shutdown_text};
use crate::time::{Duration, NANOS_PER_SEC};
use vstd::prelude::*;
use vstd::std_specs::convert::FromSpec;

verus! {

/// The names of the two lock types.
pub proof fn law_lock_types_have_names()
    ensures
        LockType::Shared.text() == "shared"@,
        LockType::Exclusive.text() == "exclusive"@,
{
}

/// The message of a timeout names the lock type, the path and the timeout, each
/// as it is, for every path and every timeout.
pub proof fn law_timeout_message(path: Seq<char>, timeout: Seq<char>)
    ensures
        timeout_text(LockType::Shared, path, timeout) == "failed to acquire shared lock on '"@
            + path + "' within "@ + timeout,
        timeout_text(LockType::Exclusive, path, timeout) == "failed to acquire exclusive lock on '"@
            + path + "' within "@ + timeout,
{
    reveal_strlit("failed to acquire ");
    reveal_strlit("shared");
    reveal_strlit("exclusive");
    reveal_strlit(" lock on '");
    reveal_strlit("failed to acquire shared lock on '");
    reveal_strlit("failed to acquire exclusive lock on '");
    assert("failed to acquire "@ + "shared"@ + " lock on '"@
        =~= "failed to acquire shared lock on '"@);
    assert("failed to acquire "@ + "exclusive"@ + " lock on '"@
        =~= "failed to acquire exclusive lock on '"@);
}

/// The messages of a poisoned lock and of a failed call hold the path and the
/// error's own text as they are.
pub proof fn law_other_messages(path: Seq<char>, error: Seq<char>)
    ensures
        poisoned_text(path) == "lock on '"@ + path + "' was poisoned by a panicking thread"@,
        io_text(error) == "I/O error: "@ + error,
{
}

/// Two timeouts that differ only in their path have one message only if the
/// texts of the paths are equal.
pub proof fn law_timeout_message_tells_paths_apart(
    lock_type: LockType,
    path: Seq<char>,
    other: Seq<char>,
    timeout: Seq<char>,
)
    requires
        timeout_text(lock_type, path, timeout) == timeout_text(lock_type, other, timeout),
    ensures
        path == other,
{
    law_timeout_message(path, timeout);
    law_timeout_message(other, timeout);
    let head = if lock_type is Shared {
        "failed to acquire shared lock on '"@
    } else {
        "failed to acquire exclusive lock on '"@
    };
    let tail = "' within "@ + timeout;
    let left = timeout_text(lock_type, path, timeout);
    let right = timeout_text(lock_type, other, timeout);
    assert(left =~= head + path + tail);
    assert(right =~= head + other + tail);
    assert(left.len() == head.len() + path.len() + tail.len());
    assert(right.len() == head.len() + other.len() + tail.len());
    assert forall|i: int| 0 <= i < path.len() implies path[i] == other[i] by {
        assert(left[head.len() + i] == path[i]);
        assert(right[head.len() + i] == other[i]);
    }
    assert(path =~= other);
}

/// What an error says: a timeout and a poisoned lock their message, with the
/// error's own path, lock type and timeout, and an I/O error the text of its
/// cause.
pub proof fn law_errors_say_what_they_hold(
    path: Seq<u8>,
    lock_type: LockType,
    timeout: Duration,
    cause: std::io::Error,
    io: Seq<char>,
    shown: Seq<char>,
)
    ensures
        (ErrorView::Timeout { path, lock_type, timeout }).text(io) == timeout_text(
            lock_type,
            lossy_text(path),
            duration_text(timeout.secs(), timeout.subsec_nanos()),
        ),
        (ErrorView::Timeout { path, lock_type, timeout }).text_with(shown, io) == timeout_text(
            lock_type,
            shown,
            duration_text(timeout.secs(), timeout.subsec_nanos()),
        ),
        (ErrorView::Poisoned { path }).text(io) == poisoned_text(lossy_text(path)),
        (ErrorView::Poisoned { path }).text_with(shown, io) == poisoned_text(shown),
        ErrorView::Io(cause).text(io) == io_text(io),
        (ErrorView::Timeout { path, lock_type, timeout }).path() == path,
        (ErrorView::Poisoned { path }).path() == path,
{
}

/// Where callers expect an I/O error, an I/O error is handed on as it is, and
/// any other becomes an error of kind `Other` that says the same.
pub proof fn law_errors_keep_their_cause(error: ErrorView, cause: std::io::Error)
    ensures
        ErrorView::Io(cause).as_io_error() == cause,
        !(error is Io) ==> error.as_io_error() == other_error_of(error.text(Seq::empty())),
{
}

/// An error is shown with all that it holds.
pub proof fn law_errors_are_shown_as_they_are(error: FileLockError)
    ensures
        match error {
            FileLockError::Timeout { path, lock_type, timeout } => error@ == (ErrorView::Timeout {
                path: path@,
                lock_type,
                timeout,
            }),
            FileLockError::Io(cause) => error@ == ErrorView::Io(cause),
            FileLockError::Poisoned { path } => error@ == (ErrorView::Poisoned { path: path@ }),
        },
{
}

/// An I/O error becomes an error of a lock as it is.
pub proof fn law_io_errors_are_taken_as_they_are(cause: std::io::Error)
    ensures
        <FileLockError as FromSpec<std::io::Error>>::obeys_from_spec(),
        <FileLockError as FromSpec<std::io::Error>>::from_spec(cause) == FileLockError::Io(cause),
{
}

/// What a store says that goes away.
pub proof fn law_dropped_store_says_so()
    ensures
        shutdown_text() == "FileStore dropped while lock was pending"@,
{
}

/// The two lowest bits of an operation of `flock(2)` say which lock it takes,
/// the third that it must not block, and there is nothing else in it.
pub proof fn law_flock_numbers(lock_type: LockType, blocking: bool)
    ensures
        operation(lock_type, blocking) & 3 == (if lock_type is Shared {
            1i32
        } else {
            2i32
        }),
        operation(lock_type, blocking) & 4 == (if blocking {
            0i32
        } else {
            4i32
        }),
        0 < operation(lock_type, blocking) < 8,
{
    assert(1i32 & 3i32 == 1i32 && 2i32 & 3i32 == 2i32) by (bit_vector);
    assert(5i32 & 3i32 == 1i32 && 6i32 & 3i32 == 2i32) by (bit_vector);
    assert(1i32 & 4i32 == 0i32 && 2i32 & 4i32 == 0i32) by (bit_vector);
    assert(5i32 & 4i32 == 4i32 && 6i32 & 4i32 == 4i32) by (bit_vector);
}

/// A failed call says that the lock is taken if and only if it has a code and
/// the code is one of the two.
pub proof fn law_busy_codes(codes: BusyCodes, code: i32)
    ensures
        !codes.says_busy(None),
        codes.says_busy(Some(code)) <==> code == codes.would_block || code == codes.again,
{
}

/// No system uses 0 for a lock that is taken, and where the two codes differ
/// they are 41 and 11.
pub proof fn law_known_codes(would_block: i32, again: i32)
    requires
        known_codes(would_block, again),
    ensures
        would_block != 0,
        again != 0,
        would_block != again ==> would_block == 41 && again == 11,
{
}

/// A file is opened for reading and writing, and created with mode 0o644 (420)
/// if and only if that is asked for.
pub proof fn law_files_are_opened_for_reading_and_writing(create: bool)
    ensures
        lock_options(create).read,
        lock_options(create).write,
        lock_options(create).create == (if create {
            Some(420u32)
        } else {
            None
        }),
{
}

/// A second has 10^9 nanoseconds, and a span is as long as its whole seconds and
/// its nanoseconds together.
pub proof fn law_spans_count_nanoseconds(span: Duration)
    ensures
        NANOS_PER_SEC == 1_000_000_000,
        span.total_nanos() == span.secs() * 1_000_000_000 + span.subsec_nanos(),
{
}

/// The sleep before the next call of `flock(2)` is no longer than the time that
/// is left nor than 10^6 nanoseconds, and no shorter than both.
pub proof fn law_pause_fits(remaining: u128)
    ensures
        pause_within(remaining) <= remaining,
        pause_within(remaining) <= 1_000_000,
        pause_within(remaining) == remaining || pause_within(remaining) == 1_000_000,
{
}

} // verus!
