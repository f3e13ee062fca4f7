//! Lock types and the errors of lock operations.

use crate::time::{Duration, NANOS_PER_SEC};
use std::fmt::Write;
use vstd::prelude::*;

verus! {

/// The error of a system call, as the standard library has it. Its contents
/// are out of sight here: an operation carries it through unchanged.
#[verifier::external_type_specification]
#[verifier::external_body]
pub struct ExIoError(std::io::Error);

/// The type of lock being requested.
#[derive(Debug, Clone, Copy, PartialEq, Eq, Hash, Structural)]
pub enum LockType {
    /// Shared lock: multiple readers allowed simultaneously.
    Shared,
    /// Exclusive lock: only one holder, blocks all others.
    Exclusive,
}

/// Errors that can occur when acquiring or holding a file lock.
#[derive(Debug)]
pub enum FileLockError {
    /// The lock could not be acquired within the specified timeout.
    Timeout {
        /// The path of the file.
        path: Vec<u8>,
        /// The type of lock that was requested.
        lock_type: LockType,
        /// The timeout duration that was exceeded.
        timeout: Duration,
    },
    /// An underlying I/O error occurred.
    Io(std::io::Error),
    /// The lock was poisoned because the previous holder panicked while
    /// the lock was held.
    Poisoned {
        /// The path of the file.
        path: Vec<u8>,
    },
}

/// A [`FileLockError`] with its path as a sequence of bytes.
pub enum ErrorView {
    Timeout { path: Seq<u8>, lock_type: LockType, timeout: Duration },
    Io(std::io::Error),
    Poisoned { path: Seq<u8> },
}

/// The text that stands for `bytes`, with a replacement character for each
/// stretch that is not UTF-8.
pub uninterp spec fn lossy_text(bytes: Seq<u8>) -> Seq<char>;

/// How the standard library prints a span of time for debugging.
pub uninterp spec fn duration_text(secs: u64, nanos: u32) -> Seq<char>;

/// The error of kind `Other` whose payload is `message`.
pub uninterp spec fn other_error_of(message: Seq<char>) -> std::io::Error;

/// Calls `String::from_utf8_lossy`. The text depends on the bytes alone, and
/// bytes that are UTF-8 come back as the characters they encode.
#[verifier::external_body]
fn path_text(path: &Vec<u8>) -> (r: String)
    ensures
        r@ == lossy_text(path@),
        vstd::utf8::valid_utf8(path@) ==> r@ == vstd::utf8::decode_utf8(path@),
{
    String::from_utf8_lossy(path).into_owned()
}

/// Prints a `std::time::Duration` with its `Debug` implementation. The text
/// depends on the seconds and nanoseconds alone.
#[verifier::external_body]
fn debug_duration(secs: u64, nanos: u32) -> (r: String)
    requires
        nanos < NANOS_PER_SEC,
    ensures
        r@ == duration_text(secs, nanos),
{
    format!("{:?}", std::time::Duration::new(secs, nanos))
}

/// Prints a `std::io::Error` with its `Display` implementation. An error that
/// was made of a message prints that message. Nothing is claimed of any other:
/// the text of an error of the system comes from the system, and an error whose
/// own `Display` gives up leaves what it has printed so far.
#[verifier::external_body]
fn io_error_text(error: &std::io::Error) -> (r: String)
    ensures
        forall|message: Seq<char>|
            *error == #[trigger] other_error_of(message) ==> r@ == message,
{
    let mut text = String::new();
    let _ = write!(text, "{}", error);
    text
}

/// Calls `std::io::Error::other`. The error depends on the message alone.
#[verifier::external_body]
pub(crate) fn other_error(message: String) -> (r: std::io::Error)
    ensures
        r == other_error_of(message@),
{
    std::io::Error::other(message)
}

impl LockType {
    /// The name of the lock type.
    pub open spec fn text(self) -> Seq<char> {
        match self {
            LockType::Shared => "shared"@,
            LockType::Exclusive => "exclusive"@,
        }
    }

    /// The name of the lock type.
    pub fn to_string(&self) -> (r: String)
        ensures
            r@ == self.text(),
    {
        match self {
            LockType::Shared => "shared".to_owned(),
            LockType::Exclusive => "exclusive".to_owned(),
        }
    }
}

/// What a timeout on a lock of type `lock_type` says, where `path` and
/// `timeout` are the texts of the path and of the timeout.
pub open spec fn timeout_text(lock_type: LockType, path: Seq<char>, timeout: Seq<char>) -> Seq<
    char,
> {
    "failed to acquire "@ + lock_type.text() + " lock on '"@ + path + "' within "@ + timeout
}

/// What a poisoned lock says, where `path` is the text of the path.
pub open spec fn poisoned_text(path: Seq<char>) -> Seq<char> {
    "lock on '"@ + path + "' was poisoned by a panicking thread"@
}

/// What a failed system call says, where `error` is the text of its error.
pub open spec fn io_text(error: Seq<char>) -> Seq<char> {
    "I/O error: "@ + error
}

/// The message of a timeout.
pub fn timeout_message(lock_type: LockType, path: &str, timeout: &str) -> (r: String)
    ensures
        r@ == timeout_text(lock_type, path@, timeout@),
{
    let mut out = "failed to acquire ".to_owned();
    out.append(lock_type.to_string().as_str());
    out.append(" lock on '");
    out.append(path);
    out.append("' within ");
    out.append(timeout);
    out
}

/// The message of a poisoned lock.
pub fn poisoned_message(path: &str) -> (r: String)
    ensures
        r@ == poisoned_text(path@),
{
    let mut out = "lock on '".to_owned();
    out.append(path);
    out.append("' was poisoned by a panicking thread");
    out
}

/// The message of a failed system call.
pub fn io_message(error: &str) -> (r: String)
    ensures
        r@ == io_text(error@),
{
    let mut out = "I/O error: ".to_owned();
    out.append(error);
    out
}

impl View for FileLockError {
    type V = ErrorView;

    open spec fn view(&self) -> ErrorView {
        match *self {
            FileLockError::Timeout { path, lock_type, timeout } => ErrorView::Timeout {
                path: path@,
                lock_type,
                timeout,
            },
            FileLockError::Io(error) => ErrorView::Io(error),
            FileLockError::Poisoned { path } => ErrorView::Poisoned { path: path@ },
        }
    }
}

impl ErrorView {
    /// The path of the file that the error is about. An I/O error has none.
    pub open spec fn path(self) -> Seq<u8> {
        match self {
            ErrorView::Timeout { path, .. } => path,
            ErrorView::Io(_) => Seq::empty(),
            ErrorView::Poisoned { path } => path,
        }
    }

    /// The message of an error, where `path` is the text of its path. `io` is
    /// the text of the system's error, which only an I/O error shows.
    pub open spec fn text_with(self, path: Seq<char>, io: Seq<char>) -> Seq<char> {
        match self {
            ErrorView::Timeout { lock_type, timeout, .. } => timeout_text(
                lock_type,
                path,
                duration_text(timeout.secs(), timeout.subsec_nanos()),
            ),
            ErrorView::Io(_) => io_text(io),
            ErrorView::Poisoned { .. } => poisoned_text(path),
        }
    }

    /// The message of an error. `io` is the text of the system's error.
    pub open spec fn text(self, io: Seq<char>) -> Seq<char> {
        self.text_with(lossy_text(self.path()), io)
    }

    /// The I/O error that stands for this error where callers expect one: an
    /// I/O error stands for itself, any other for its message.
    pub open spec fn as_io_error(self) -> std::io::Error {
        match self {
            ErrorView::Io(error) => error,
            _ => other_error_of(self.text(Seq::empty())),
        }
    }
}

impl FileLockError {
    /// The message of the error. A path that is UTF-8 stands in it as it is.
    pub fn to_string(&self) -> (r: String)
        ensures
            exists|io: Seq<char>| r@ == #[trigger] self@.text(io),
            !(self is Io) ==> r@ == self@.text(Seq::empty()),
            !(self is Io) && vstd::utf8::valid_utf8(self@.path()) ==> r@ == self@.text_with(
                vstd::utf8::decode_utf8(self@.path()),
                Seq::empty(),
            ),
            forall|message: Seq<char>|
                self@ == ErrorView::Io(#[trigger] other_error_of(message)) ==> r@ == io_text(
                    message,
                ),
    {
        match self {
            FileLockError::Timeout { path, lock_type, timeout } => {
                let path_text = path_text(path);
                let timeout_text = debug_duration(timeout.as_secs(), timeout.subsec());
                let r = timeout_message(*lock_type, path_text.as_str(), timeout_text.as_str());
                assert(r@ == self@.text(Seq::empty()));
                r
            },
            FileLockError::Io(error) => {
                let text = io_error_text(error);
                let r = io_message(text.as_str());
                assert(r@ == self@.text(text@));
                r
            },
            FileLockError::Poisoned { path } => {
                let path_text = path_text(path);
                let r = poisoned_message(path_text.as_str());
                assert(r@ == self@.text(Seq::empty()));
                r
            },
        }
    }

    /// The error that caused this one: the system's error, for an I/O error.
    pub fn source(&self) -> (r: Option<&std::io::Error>)
        ensures
            r == (match self {
                FileLockError::Io(error) => Some(error),
                _ => None,
            }),
    {
        match self {
            FileLockError::Io(error) => Some(error),
            _ => None,
        }
    }
}

impl From<std::io::Error> for FileLockError {
    fn from(e: std::io::Error) -> (r: Self) {
        FileLockError::Io(e)
    }
}

impl vstd::std_specs::convert::FromSpecImpl<std::io::Error> for FileLockError {
    open spec fn obeys_from_spec() -> bool {
        true
    }

    open spec fn from_spec(e: std::io::Error) -> Self {
        FileLockError::Io(e)
    }
}

/// The I/O error that stands for `e`: the system's error where `e` holds one,
/// else an error of kind `Other` with the message of `e`.
pub fn io_error_from_lock_error(e: FileLockError) -> (r: std::io::Error)
    ensures
        r == e@.as_io_error(),
        !(e is Io) && vstd::utf8::valid_utf8(e@.path()) ==> r == other_error_of(
            e@.text_with(vstd::utf8::decode_utf8(e@.path()), Seq::empty()),
        ),
{
    match e {
        FileLockError::Io(io_err) => io_err,
        other => other_error(other.to_string()),
    }
}

} // verus!
