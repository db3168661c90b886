//! What deleting leaves in a directory. A directory is modelled by its
//! entries: a map from their names to whatever they are.

use vstd::prelude::*;

#[allow(unused_imports)]
use crate::directory::{cleanup_next, clear_next, is_kept, remove_next};
use crate::directory::{
    CleanupEvent, CleanupStep, ClearEvent, ClearStep, EntryKind, RemoveEvent, RemoveStep,
};
use crate::error::BackupError;
#[allow(unused_imports)]
use crate::naming::names_staging;

verus! {

/// A path is deleted together with what lies below it only if it is a
/// directory itself: a symbolic link to a directory goes alone.
pub proof fn links_are_not_followed(event: RemoveEvent)
    ensures
        remove_next(event) is RemoveTree <==> event == RemoveEvent::Inspected(
            Ok(EntryKind::Directory),
        ),
{
}

/// Whether the event is an answer to the step.
pub open spec fn cleanup_answers(step: CleanupStep, event: CleanupEvent) -> bool {
    match step {
        CleanupStep::List => event is Listed,
        CleanupStep::ReadEntry => event is EntryRead,
        CleanupStep::Remove(_) => event is Removed,
        CleanupStep::Done(_) => false,
    }
}

/// Whether the event at `i` answers the step that follows from the one before.
pub open spec fn cleanup_follows(run: Seq<CleanupEvent>, i: int) -> bool {
    cleanup_answers(cleanup_next(run[i - 1]), run[i])
}

/// Whether the events are those of deleting stale staging directories once.
pub open spec fn is_cleanup(run: Seq<CleanupEvent>) -> bool {
    &&& run.len() > 0
    &&& run[0] is Start
    &&& forall|i: int| 0 < i < run.len() ==> #[trigger] cleanup_follows(run, i)
}

/// Whether the event at `i`, or one before it, reads an entry of this name.
pub open spec fn cleanup_read(run: Seq<CleanupEvent>, i: int, name: Seq<char>) -> bool
    decreases i,
{
    if i <= 0 {
        false
    } else {
        ||| cleanup_read(run, i - 1, name)
        ||| run[i] matches CleanupEvent::EntryRead(Ok(Some(read))) && read@ == name
    }
}

/// The entries of the data directory after the event at `i`: each that was to
/// be deleted, and whose deletion succeeded, is gone.
pub open spec fn cleaned<T>(run: Seq<CleanupEvent>, i: int, data: Map<Seq<char>, T>) -> Map<
    Seq<char>,
    T,
>
    decreases i,
{
    if i <= 0 {
        data
    } else {
        let before = cleaned(run, i - 1, data);
        match (cleanup_next(run[i - 1]), run[i]) {
            (CleanupStep::Remove(name), CleanupEvent::Removed(Ok(_))) => before.remove(name@),
            _ => before,
        }
    }
}

proof fn cleanup_so_far<T>(run: Seq<CleanupEvent>, i: int, data: Map<Seq<char>, T>)
    requires
        is_cleanup(run),
        0 <= i < run.len(),
    ensures
        cleaned(run, i, data).submap_of(data),
        forall|name: Seq<char>| #[trigger]
            data.contains_key(name) && !names_staging(name) ==> cleaned(
                run,
                i,
                data,
            ).contains_key(name),
        match cleanup_next(run[i]) {
            CleanupStep::Done(Err(_)) => true,
            CleanupStep::Remove(pending) => forall|name: Seq<char>|
                names_staging(name) && #[trigger] cleanup_read(run, i, name) ==> !cleaned(
                    run,
                    i,
                    data,
                ).contains_key(name) || name == pending@,
            _ => forall|name: Seq<char>|
                names_staging(name) && #[trigger] cleanup_read(run, i, name) ==> !cleaned(
                    run,
                    i,
                    data,
                ).contains_key(name),
        },
    decreases i,
{
    if i > 0 {
        cleanup_so_far(run, i - 1, data);
        assert(cleanup_follows(run, i));
        assert forall|name: Seq<char>|
            names_staging(name) && #[trigger] cleanup_read(run, i, name) implies cleanup_read(
            run,
            i - 1,
            name,
        ) || (run[i] matches CleanupEvent::EntryRead(Ok(Some(read))) && read@ == name) by {}
        cleanup_removes_only_staging(run, i - 1);
    }
}

proof fn cleanup_removes_only_staging(run: Seq<CleanupEvent>, i: int)
    requires
        is_cleanup(run),
        0 <= i < run.len(),
    ensures
        cleanup_next(run[i]) matches CleanupStep::Remove(name) ==> names_staging(name@),
{
}

/// A cleanup that succeeds leaves of the data directory exactly the entries
/// whose names do not begin with `.zhuque_restore_`, if the listing showed every
/// entry.
pub proof fn cleanup_leaves_no_staging<T>(run: Seq<CleanupEvent>, data: Map<Seq<char>, T>)
    requires
        is_cleanup(run),
        cleanup_next(run.last()) matches CleanupStep::Done(result) && result is Ok,
        forall|name: Seq<char>| #[trigger]
            data.contains_key(name) ==> cleanup_read(run, run.len() - 1, name),
    ensures
        cleaned(run, run.len() - 1, data) == data.filter_keys(
            |name: Seq<char>| !".zhuque_restore_"@.is_prefix_of(name),
        ),
{
    cleanup_so_far(run, run.len() - 1, data);
    let left = cleaned(run, run.len() - 1, data);
    let wanted = data.filter_keys(|name: Seq<char>| !".zhuque_restore_"@.is_prefix_of(name));
    assert forall|name: Seq<char>| left.contains_key(name) <==> wanted.contains_key(name) by {
        if data.contains_key(name) && names_staging(name) {
            assert(cleanup_read(run, run.len() - 1, name));
        }
    }
    assert(left =~= wanted);
}

/// Whether the event is an answer to the step.
pub open spec fn clear_answers(step: ClearStep, event: ClearEvent) -> bool {
    match (step, event) {
        (
            ClearStep::CreateDirectory { keep },
            ClearEvent::DirectoryCreated { keep: back, .. },
        ) => keep == back,
        (ClearStep::List { keep }, ClearEvent::Listed { keep: back, .. }) => keep == back,
        (ClearStep::ReadEntry { keep }, ClearEvent::EntryRead { keep: back, .. }) => keep == back,
        (ClearStep::Remove { keep, .. }, ClearEvent::Removed { keep: back, .. }) => keep == back,
        _ => false,
    }
}

/// Whether the event at `i` answers the step that follows from the one before.
pub open spec fn clear_follows(run: Seq<ClearEvent>, i: int) -> bool {
    clear_answers(clear_next(run[i - 1]), run[i])
}

/// Whether the events are those of emptying a directory once, but for the
/// entry to keep.
pub open spec fn is_clearing(run: Seq<ClearEvent>, keep: Option<String>) -> bool {
    &&& run.len() > 0
    &&& run[0] == ClearEvent::Start { keep }
    &&& forall|i: int| 0 < i < run.len() ==> #[trigger] clear_follows(run, i)
}

/// Whether the event at `i`, or one before it, reads an entry of this name.
pub open spec fn clear_read(run: Seq<ClearEvent>, i: int, name: Seq<char>) -> bool
    decreases i,
{
    if i <= 0 {
        false
    } else {
        ||| clear_read(run, i - 1, name)
        ||| run[i] matches ClearEvent::EntryRead { result: Ok(Some(read)), .. } && read@ == name
    }
}

/// The entries of the directory after the event at `i`.
pub open spec fn cleared<T>(run: Seq<ClearEvent>, i: int, data: Map<Seq<char>, T>) -> Map<
    Seq<char>,
    T,
>
    decreases i,
{
    if i <= 0 {
        data
    } else {
        let before = cleared(run, i - 1, data);
        match (clear_next(run[i - 1]), run[i]) {
            (ClearStep::Remove { name, .. }, ClearEvent::Removed { result: Ok(_), .. }) =>
                before.remove(name@),
            _ => before,
        }
    }
}

/// Whether the step keeps the entry to keep, and deletes another if any.
spec fn kept_by(step: ClearStep, keep: Option<String>) -> bool {
    match step {
        ClearStep::CreateDirectory { keep: kept } => kept == keep,
        ClearStep::List { keep: kept } => kept == keep,
        ClearStep::ReadEntry { keep: kept } => kept == keep,
        ClearStep::Remove { keep: kept, name } => kept == keep && !is_kept(keep, name@),
        ClearStep::Done { .. } => true,
    }
}

proof fn clearing_so_far<T>(
    run: Seq<ClearEvent>,
    i: int,
    keep: Option<String>,
    data: Map<Seq<char>, T>,
)
    requires
        is_clearing(run, keep),
        0 <= i < run.len(),
    ensures
        kept_by(clear_next(run[i]), keep),
        cleared(run, i, data).submap_of(data),
        forall|name: Seq<char>| #[trigger]
            data.contains_key(name) && is_kept(keep, name) ==> cleared(run, i, data).contains_key(
                name,
            ),
        match clear_next(run[i]) {
            ClearStep::Done { result: Err(_) } => true,
            ClearStep::Remove { name: pending, .. } => forall|name: Seq<char>|
                !is_kept(keep, name) && #[trigger] clear_read(run, i, name) ==> !cleared(
                    run,
                    i,
                    data,
                ).contains_key(name) || name == pending@,
            _ => forall|name: Seq<char>|
                !is_kept(keep, name) && #[trigger] clear_read(run, i, name) ==> !cleared(
                    run,
                    i,
                    data,
                ).contains_key(name),
        },
    decreases i,
{
    if i > 0 {
        clearing_so_far(run, i - 1, keep, data);
        assert(clear_follows(run, i));
        assert forall|name: Seq<char>|
            !is_kept(keep, name) && #[trigger] clear_read(run, i, name) implies clear_read(
            run,
            i - 1,
            name,
        ) || (run[i] matches ClearEvent::EntryRead { result: Ok(Some(read)), .. } && read@
            == name) by {}
    }
}

/// Emptying a directory, where it succeeds, leaves exactly the entry whose name
/// is character for character the one to keep, if the listing showed every
/// entry.
pub proof fn clearing_leaves_only_the_kept<T>(
    run: Seq<ClearEvent>,
    keep: Option<String>,
    data: Map<Seq<char>, T>,
)
    requires
        is_clearing(run, keep),
        clear_next(run.last()) matches ClearStep::Done { result } && result is Ok,
        forall|name: Seq<char>| #[trigger]
            data.contains_key(name) ==> clear_read(run, run.len() - 1, name),
    ensures
        cleared(run, run.len() - 1, data) == data.filter_keys(
            |name: Seq<char>| keep matches Some(kept) && kept@ == name,
        ),
{
    clearing_so_far(run, run.len() - 1, keep, data);
    let left = cleared(run, run.len() - 1, data);
    let wanted = data.filter_keys(|name: Seq<char>| keep matches Some(kept) && kept@ == name);
    assert forall|name: Seq<char>| left.contains_key(name) <==> wanted.contains_key(name) by {
        if data.contains_key(name) && !is_kept(keep, name) {
            assert(clear_read(run, run.len() - 1, name));
        }
    }
    assert(left =~= wanted);
}

/// A path is looked at first; a directory goes with all it holds, and anything
/// else alone.
pub proof fn paths_go_as_what_they_are(event: RemoveEvent)
    ensures
        remove_next(event) is Inspect <==> event is Start,
        remove_next(event) is RemoveTree <==> (event matches RemoveEvent::Inspected(Ok(kind))
            && kind is Directory),
        remove_next(event) is RemoveFile <==> (event matches RemoveEvent::Inspected(Ok(kind))
            && !(kind is Directory)),
{
}

/// What is told of a deletion is what came of it, or why the path could not be
/// looked at.
pub proof fn deletion_tells_what_came_of_it(event: RemoveEvent, result: Result<(), BackupError>)
    ensures
        remove_next(event) == RemoveStep::Done(result) <==> event == RemoveEvent::Removed(result)
            || (event matches RemoveEvent::Inspected(Err(error)) && result == Err::<
            (),
            BackupError,
        >(error)),
{
}

/// An entry is deleted as stale exactly if it was read and its name begins with
/// `.zhuque_restore_`; after any other entry the next one is read.
pub proof fn only_staging_is_stale(event: CleanupEvent, name: String)
    ensures
        cleanup_next(event) == CleanupStep::Remove(name) <==> event == CleanupEvent::EntryRead(
            Ok(Some(name)),
        ) && ".zhuque_restore_"@.is_prefix_of(name@),
        event == CleanupEvent::EntryRead(Ok(Some(name))) && !".zhuque_restore_"@.is_prefix_of(name@)
            ==> cleanup_next(event) is ReadEntry,
        (event matches CleanupEvent::Listed(result) && result is Ok) || (event matches
            CleanupEvent::Removed(result) && result is Ok) ==> cleanup_next(event) is ReadEntry,
        event is Start <==> cleanup_next(event) is List,
{
}

/// A cleanup succeeds exactly when the listing comes to its end, or where there
/// is no data directory.
pub proof fn cleanup_succeeds_at_the_end(event: CleanupEvent)
    ensures
        (cleanup_next(event) matches CleanupStep::Done(result) && result is Ok) <==> (event matches
            CleanupEvent::EntryRead(Ok(None))) || (event matches CleanupEvent::Listed(Err(error))
            && (error matches BackupError::System(kind, _) && kind is NotFound)),
{
}

/// A cleanup fails exactly when something it asked for fails, and with that very
/// error. That there is no data directory is no failure.
pub proof fn cleanup_fails_with_what_failed(event: CleanupEvent, error: BackupError)
    ensures
        cleanup_next(event) == CleanupStep::Done(Err(error)) <==> event == CleanupEvent::EntryRead(
            Err(error),
        ) || event == CleanupEvent::Removed(Err(error)) || (event == CleanupEvent::Listed(
            Err(error),
        ) && !(error matches BackupError::System(kind, _) && kind is NotFound)),
{
}

/// Where nothing fails, emptying a directory creates it, lists it, and deletes
/// each entry that is read, unless its name is the one to keep. The name to keep
/// stays the same.
pub proof fn only_the_kept_is_spared(event: ClearEvent, keep: Option<String>, name: String)
    ensures
        clear_next(event) == (ClearStep::CreateDirectory { keep }) <==> event == (
        ClearEvent::Start { keep }),
        clear_next(event) == (ClearStep::List { keep }) <==> (event matches
            ClearEvent::DirectoryCreated { keep: kept, result } && kept == keep && result is Ok),
        clear_next(event) == (ClearStep::Remove { keep, name }) <==> event == (
        ClearEvent::EntryRead { keep, result: Ok(Some(name)) }) && !(keep matches Some(kept)
            && kept@ == name@),
        clear_next(event) == (ClearStep::ReadEntry { keep }) <==> {
            ||| event matches ClearEvent::Listed { keep: kept, result } && kept == keep && result
                is Ok
            ||| event matches ClearEvent::Removed { keep: kept, result } && kept == keep && result
                is Ok
            ||| event matches ClearEvent::EntryRead { keep: kept, result: Ok(Some(read)) } && kept
                == keep && (keep matches Some(spared) && spared@ == read@)
        },
{
}

/// Emptying a directory succeeds exactly when the listing comes to its end, and
/// fails exactly when something it asked for fails, with that very error.
pub proof fn clearing_ends_at_the_end_or_a_failure(event: ClearEvent, error: BackupError)
    ensures
        (clear_next(event) matches ClearStep::Done { result } && result is Ok) <==> (event matches
            ClearEvent::EntryRead { result: Ok(None), .. }),
        clear_next(event) == (ClearStep::Done { result: Err(error) }) <==> {
            ||| event matches ClearEvent::DirectoryCreated { result: Err(told), .. } && told
                == error
            ||| event matches ClearEvent::Listed { result: Err(told), .. } && told == error
            ||| event matches ClearEvent::EntryRead { result: Err(told), .. } && told == error
            ||| event matches ClearEvent::Removed { result: Err(told), .. } && told == error
        },
{
}

} // verus!
