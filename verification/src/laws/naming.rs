//! Laws of what threads and files are known by.

use crate::path::{
    is_absolute, joined, lemma_name_end, lemma_name_end_at, lemma_spans_inside, name_end, names,
    parent_of, path_key, spans_from, SEPARATOR,
};
use crate::resolve::{
    resolve_start, ResolutionView, ResolveAction, ResolveEvent, ResolveStage,
};
use vstd::prelude::*;

verus! {

/// Identifiers are unique: if those that threads have so far differ from each
/// other and lie below the counter, the next one differs from all of them, and
/// the same holds of them all with the counter moved on.
pub proof fn law_holder_ids_are_unique(ids: Seq<u64>, next: u64)
    requires
        next < u64::MAX,
        ids.no_duplicates(),
        forall|i: int| 0 <= i < ids.len() ==> #[trigger] ids[i] < next,
    ensures
        !ids.contains(next),
        ids.push(next).no_duplicates(),
        forall|i: int| 0 <= i < ids.push(next).len() ==> #[trigger] ids.push(next)[i] < next + 1,
{
}

/// A path that has been joined to an absolute root stands for itself: joining
/// it again changes nothing, so the relative and the absolute spelling of a
/// file meet.
pub proof fn law_joining_twice_changes_nothing(root: Seq<u8>, path: Seq<u8>)
    requires
        is_absolute(root),
    ensures
        is_absolute(joined(root, path)),
        joined(root, joined(root, path)) == joined(root, path),
{
}

/// A separator at the end of a path changes nothing.
pub proof fn law_trailing_separator_changes_nothing(path: Seq<u8>)
    requires
        path.len() > 0,
    ensures
        path_key(path.push(SEPARATOR)) == path_key(path),
{
    lemma_spans_trailing_separator(path, 0);
    lemma_spans_inside(path, 0);
    let longer = path.push(SEPARATOR);
    assert(names(longer) =~= names(path)) by {
        assert forall|i: int| 0 <= i < names(path).len() implies names(longer)[i] == #[trigger] names(
            path,
        )[i] by {
            let span = spans_from(path, 0)[i];
            assert(longer.subrange(span.0, span.1) =~= path.subrange(span.0, span.1));
        }
    }
}

proof fn lemma_spans_trailing_separator(path: Seq<u8>, start: int)
    requires
        0 <= start,
    ensures
        spans_from(path.push(SEPARATOR), start) == spans_from(path, start),
    decreases path.len() + 1 - start,
{
    let longer = path.push(SEPARATOR);
    if start < path.len() {
        lemma_name_end(path, start);
        lemma_name_end_at(longer, start, name_end(path, start));
        lemma_spans_trailing_separator(path, name_end(path, start) + 1);
    } else if start == path.len() {
        lemma_name_end_at(longer, start, start);
        assert(spans_from(longer, start + 1) =~= Seq::empty());
        assert(spans_from(longer, start) =~= Seq::empty());
    }
}

/// The last action of a resolution, given the results of the calls that it
/// asks for.
pub open spec fn resolved(
    root: Seq<u8>,
    path: Seq<u8>,
    created: Result<(), std::io::Error>,
    exists: bool,
    canonical: Result<Seq<u8>, std::io::Error>,
) -> ResolveAction<Seq<u8>> {
    let start = resolve_start(root, path);
    let checked = if start.action is CreateDirs {
        start.resolution.step(ResolveEvent::Created(created))
    } else {
        start
    };
    let found = if checked.action is CheckExists {
        checked.resolution.step(ResolveEvent::Exists(exists))
    } else {
        checked
    };
    if found.action is Canonicalize {
        found.resolution.step(ResolveEvent::Canonical(canonical)).action
    } else {
        found.action
    }
}

/// A file that exists is known by its canonical path, so all its spellings
/// share one lock; any other is known by its path under the root. A call that
/// fails ends the resolution with its error.
pub proof fn law_resolution(
    root: Seq<u8>,
    path: Seq<u8>,
    created: Result<(), std::io::Error>,
    exists: bool,
    canonical: Result<Seq<u8>, std::io::Error>,
)
    ensures
        resolved(root, path, created, exists, canonical) == (if parent_of(joined(root, path)) is Some
            && created is Err {
            ResolveAction::Done(Err(created->Err_0))
        } else if exists {
            ResolveAction::Done(canonical)
        } else {
            ResolveAction::Done(Ok(joined(root, path)))
        }),
{
}

/// Resolving a path begins with the directory that the file is to lie in: it is
/// created first, unless the path has no name and so no directory.
pub proof fn law_resolution_begins_with_the_directory(root: Seq<u8>, path: Seq<u8>)
    ensures
        ({
            let start = resolve_start(root, path);
            &&& start.resolution.absolute == joined(root, path)
            &&& parent_of(joined(root, path)) is Some ==> start.resolution.stage
                == ResolveStage::Parents && start.action == ResolveAction::CreateDirs(
                parent_of(joined(root, path))->0,
            )
            &&& parent_of(joined(root, path)) is None ==> start.resolution.stage
                == ResolveStage::Existence && start.action == ResolveAction::CheckExists(
                joined(root, path),
            )
        }),
{
}

/// Each result of a call leads to the next call about the same file, or to the
/// end: with the error of the call that failed, with the canonical path of a
/// file that exists, or with the path as it is.
pub proof fn law_resolution_goes_on_with_the_file(
    resolution: ResolutionView,
    error: std::io::Error,
    canonical: Result<Seq<u8>, std::io::Error>,
)
    ensures
        resolution.step(ResolveEvent::Created(Ok(()))).action == ResolveAction::CheckExists(
            resolution.absolute,
        ),
        resolution.step(ResolveEvent::Created(Ok(()))).resolution.stage == ResolveStage::Existence,
        resolution.step(ResolveEvent::Created(Err(error))).action == ResolveAction::<Seq<u8>>::Done(
            Err(error),
        ),
        resolution.step(ResolveEvent::Exists(true)).action == ResolveAction::Canonicalize(
            resolution.absolute,
        ),
        resolution.step(ResolveEvent::Exists(true)).resolution.stage == ResolveStage::Canonical,
        resolution.step(ResolveEvent::Exists(false)).action == ResolveAction::Done(
            Ok::<Seq<u8>, std::io::Error>(resolution.absolute),
        ),
        resolution.step(ResolveEvent::Canonical(canonical)).action == ResolveAction::Done(
            canonical,
        ),
        forall|event: ResolveEvent<Seq<u8>>| #[trigger]
            resolution.step(event).resolution.absolute == resolution.absolute,
        forall|event: ResolveEvent<Seq<u8>>|
            (#[trigger] resolution.step(event)).action is Done <==> resolution.step(
                event,
            ).resolution.stage == ResolveStage::Finished,
{
}

/// The result of a call can come while the call is made, and only then.
pub proof fn law_results_come_in_order(
    resolution: ResolutionView,
    created: Result<(), std::io::Error>,
    exists: bool,
    canonical: Result<Seq<u8>, std::io::Error>,
)
    ensures
        resolution.expects(ResolveEvent::Created(created)) <==> resolution.stage
            == ResolveStage::Parents,
        resolution.expects(ResolveEvent::Exists(exists)) <==> resolution.stage
            == ResolveStage::Existence,
        resolution.expects(ResolveEvent::Canonical(canonical)) <==> resolution.stage
            == ResolveStage::Canonical,
{
}

/// Calls and their results are shown as they are, but for paths, which are taken
/// as the bytes they hold.
pub proof fn law_calls_are_shown_as_they_are(
    action: ResolveAction<Vec<u8>>,
    event: ResolveEvent<Vec<u8>>,
)
    ensures
        match action {
            ResolveAction::CreateDirs(path) => action@ == ResolveAction::CreateDirs(path@),
            ResolveAction::CheckExists(path) => action@ == ResolveAction::CheckExists(path@),
            ResolveAction::Canonicalize(path) => action@ == ResolveAction::Canonicalize(path@),
            ResolveAction::Done(Ok(path)) => action@ == ResolveAction::Done(
                Ok::<Seq<u8>, std::io::Error>(path@),
            ),
            ResolveAction::Done(Err(error)) => action@ == ResolveAction::Done(
                Err::<Seq<u8>, std::io::Error>(error),
            ),
        },
        match event {
            ResolveEvent::Created(result) => event@ == ResolveEvent::<Seq<u8>>::Created(result),
            ResolveEvent::Exists(exists) => event@ == ResolveEvent::<Seq<u8>>::Exists(exists),
            ResolveEvent::Canonical(Ok(path)) => event@ == ResolveEvent::Canonical(
                Ok::<Seq<u8>, std::io::Error>(path@),
            ),
            ResolveEvent::Canonical(Err(error)) => event@ == ResolveEvent::Canonical(
                Err::<Seq<u8>, std::io::Error>(error),
            ),
        },
{
}

/// A relative path that names a file which does not exist yet is resolved to
/// the root, one separator and the path, byte for byte, and the directory that
/// is created for it is the parent of that.
pub proof fn law_new_file_keeps_its_name(root: Seq<u8>, path: Seq<u8>)
    requires
        root.len() > 0,
        root[root.len() - 1] != 47u8,
        path.len() == 0 || path[0] != 47u8,
    ensures
        resolved(root, path, Ok(()), false, Ok(Seq::empty())) == ResolveAction::Done(
            Ok::<Seq<u8>, std::io::Error>(root + seq![47u8] + path),
        ),
        resolve_start(root, path).action == ResolveAction::CreateDirs(
            parent_of(root + seq![47u8] + path)->0,
        ) || parent_of(root + seq![47u8] + path) is None,
{
    assert(joined(root, path) =~= root + seq![47u8] + path);
}

} // verus!
