//! From the path that a caller names to the path that the lock table uses.
//!
//! Resolving a path takes several system calls. [`FileStore::resolve_path`]
//! and [`Resolution::step`] say which call comes next; the caller makes it and
//! hands its result to the next step.

use crate::path::{copy, join, joined, parent, parent_of};
use crate::store::FileStore;
use vstd::prelude::*;

verus! {

/// The call that a resolution waits for.
#[derive(Debug, Clone, Copy, PartialEq, Eq, Structural)]
pub enum ResolveStage {
    /// The directories above the file are being created.
    Parents,
    /// Whether the file exists is being looked up.
    Existence,
    /// The canonical path of the file is being looked up.
    Canonical,
    /// The resolution is over.
    Finished,
}

/// What a call has given.
#[derive(Debug)]
pub enum ResolveEvent<B> {
    /// The directories were created, or could not be.
    Created(Result<(), std::io::Error>),
    /// Whether the file exists.
    Exists(bool),
    /// The canonical path, or why there is none.
    Canonical(Result<B, std::io::Error>),
}

/// The call to make next.
#[derive(Debug)]
pub enum ResolveAction<B> {
    /// Create this directory and all directories above it.
    CreateDirs(B),
    /// Look up whether this file exists.
    CheckExists(B),
    /// Look up the canonical path of this file.
    Canonicalize(B),
    /// Nothing: the path is resolved, or a call has failed.
    Done(Result<B, std::io::Error>),
}

/// A path that is being resolved.
#[derive(Debug)]
pub struct Resolution {
    absolute: Vec<u8>,
    stage: ResolveStage,
}

/// The state of a resolution.
#[verifier::ext_equal]
pub struct ResolutionView {
    pub absolute: Seq<u8>,
    pub stage: ResolveStage,
}

/// The state of a resolution after a step, and the call to make next.
#[verifier::ext_equal]
pub struct ResolveStep {
    pub resolution: ResolutionView,
    pub action: ResolveAction<Seq<u8>>,
}

impl View for Resolution {
    type V = ResolutionView;

    closed spec fn view(&self) -> ResolutionView {
        ResolutionView { absolute: self.absolute@, stage: self.stage }
    }
}

impl View for ResolveEvent<Vec<u8>> {
    type V = ResolveEvent<Seq<u8>>;

    open spec fn view(&self) -> ResolveEvent<Seq<u8>> {
        match *self {
            ResolveEvent::Created(result) => ResolveEvent::Created(result),
            ResolveEvent::Exists(exists) => ResolveEvent::Exists(exists),
            ResolveEvent::Canonical(Ok(path)) => ResolveEvent::Canonical(Ok(path@)),
            ResolveEvent::Canonical(Err(error)) => ResolveEvent::Canonical(Err(error)),
        }
    }
}

impl View for ResolveAction<Vec<u8>> {
    type V = ResolveAction<Seq<u8>>;

    open spec fn view(&self) -> ResolveAction<Seq<u8>> {
        match *self {
            ResolveAction::CreateDirs(path) => ResolveAction::CreateDirs(path@),
            ResolveAction::CheckExists(path) => ResolveAction::CheckExists(path@),
            ResolveAction::Canonicalize(path) => ResolveAction::Canonicalize(path@),
            ResolveAction::Done(Ok(path)) => ResolveAction::Done(Ok(path@)),
            ResolveAction::Done(Err(error)) => ResolveAction::Done(Err(error)),
        }
    }
}

/// The first step for `path` in a store rooted at `root`: the directory that
/// holds the file is created first, unless there is none.
pub open spec fn resolve_start(root: Seq<u8>, path: Seq<u8>) -> ResolveStep {
    let absolute = joined(root, path);
    match parent_of(absolute) {
        Some(dir) => ResolveStep {
            resolution: ResolutionView { absolute, stage: ResolveStage::Parents },
            action: ResolveAction::CreateDirs(dir),
        },
        None => ResolveStep {
            resolution: ResolutionView { absolute, stage: ResolveStage::Existence },
            action: ResolveAction::CheckExists(absolute),
        },
    }
}

impl ResolutionView {
    /// Whether `event` is the result of the call that the resolution waits for.
    pub open spec fn expects(self, event: ResolveEvent<Seq<u8>>) -> bool {
        match self.stage {
            ResolveStage::Parents => event is Created,
            ResolveStage::Existence => event is Exists,
            ResolveStage::Canonical => event is Canonical,
            ResolveStage::Finished => false,
        }
    }

    /// The step at another stage.
    pub open spec fn go(self, stage: ResolveStage, action: ResolveAction<Seq<u8>>) -> ResolveStep {
        ResolveStep { resolution: ResolutionView { stage, ..self }, action }
    }

    /// The step that `event` leads to: a file that exists is known by its
    /// canonical path, any other by the path as it was joined.
    pub open spec fn step(self, event: ResolveEvent<Seq<u8>>) -> ResolveStep {
        match event {
            ResolveEvent::Created(Ok(_)) => self.go(
                ResolveStage::Existence,
                ResolveAction::CheckExists(self.absolute),
            ),
            ResolveEvent::Created(Err(error)) => self.go(
                ResolveStage::Finished,
                ResolveAction::Done(Err(error)),
            ),
            ResolveEvent::Exists(true) => self.go(
                ResolveStage::Canonical,
                ResolveAction::Canonicalize(self.absolute),
            ),
            ResolveEvent::Exists(false) => self.go(
                ResolveStage::Finished,
                ResolveAction::Done(Ok(self.absolute)),
            ),
            ResolveEvent::Canonical(result) => self.go(
                ResolveStage::Finished,
                ResolveAction::Done(result),
            ),
        }
    }
}

impl FileStore {
    /// Begin to resolve `path` to an absolute path under the store's root.
    pub fn resolve_path(&self, path: &[u8]) -> (r: (Resolution, ResolveAction<Vec<u8>>))
        ensures
            (ResolveStep { resolution: r.0@, action: r.1@ }) == resolve_start(self@.root, path@),
    {
        let absolute = join(self.root(), path);
        match parent(absolute.as_slice()) {
            Some(dir) => (
                Resolution { absolute, stage: ResolveStage::Parents },
                ResolveAction::CreateDirs(dir),
            ),
            None => {
                let file = copy(absolute.as_slice());
                (
                    Resolution { absolute, stage: ResolveStage::Existence },
                    ResolveAction::CheckExists(file),
                )
            },
        }
    }
}

impl Resolution {
    /// Whether `event` is the result of the call that the resolution waits for.
    pub fn expects(&self, event: &ResolveEvent<Vec<u8>>) -> (r: bool)
        ensures
            r == self@.expects(event@),
    {
        match (self.stage, event) {
            (ResolveStage::Parents, ResolveEvent::Created(_)) => true,
            (ResolveStage::Existence, ResolveEvent::Exists(_)) => true,
            (ResolveStage::Canonical, ResolveEvent::Canonical(_)) => true,
            _ => false,
        }
    }

    /// Go on with the result of the last call.
    pub fn step(self, event: ResolveEvent<Vec<u8>>) -> (r: (Resolution, ResolveAction<Vec<u8>>))
        requires
            self@.expects(event@),
        ensures
            (ResolveStep { resolution: r.0@, action: r.1@ }) == self@.step(event@),
    {
        let file = copy(self.absolute.as_slice());
        let (stage, action) = match event {
            ResolveEvent::Created(Ok(_)) => (
                ResolveStage::Existence,
                ResolveAction::CheckExists(file),
            ),
            ResolveEvent::Created(Err(error)) => (
                ResolveStage::Finished,
                ResolveAction::Done(Err(error)),
            ),
            ResolveEvent::Exists(exists) => if exists {
                (ResolveStage::Canonical, ResolveAction::Canonicalize(file))
            } else {
                (ResolveStage::Finished, ResolveAction::Done(Ok(file)))
            },
            ResolveEvent::Canonical(result) => (
                ResolveStage::Finished,
                ResolveAction::Done(result),
            ),
        };
        (Resolution { absolute: self.absolute, stage }, action)
    }
}

} // verus!
