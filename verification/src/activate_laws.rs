//! What putting a backup in place leaves in the data directory. A directory is
//! modelled by its entries: a map from their names to whatever they are.

use vstd::prelude::*;

#[allow(unused_imports)]
use crate::activate::{activate_next, restore_file_next};
use crate::activate::{ActivateEvent, ActivateStep, RestoreFileEvent, RestoreFileStep};
use crate::error::BackupError;
use crate::prepare::{PrepareEvent, PrepareStep};
#[allow(unused_imports)]
use crate::prepare::prepare_next;
use crate::prepare_laws::Contents;
#[allow(unused_imports)]
use crate::prepare_laws::{
    is_preparation, preparation_hindered, same_contents_are_accepted_again, shows,
};

verus! {

/// Whether the event is an answer to the step.
pub open spec fn activate_answers(step: ActivateStep, event: ActivateEvent) -> bool {
    match (step, event) {
        (ActivateStep::Clear { staging }, ActivateEvent::Cleared { staging: back, .. }) => staging
            == back,
        (
            ActivateStep::ListStaged { staging },
            ActivateEvent::StagedListed { staging: back, .. },
        ) => staging == back,
        (
            ActivateStep::ReadEntry { staging },
            ActivateEvent::EntryRead { staging: back, .. },
        ) => staging == back,
        (ActivateStep::Move { staging, .. }, ActivateEvent::Moved { staging: back, .. }) => staging
            == back,
        (ActivateStep::RemoveStaging { .. }, ActivateEvent::StagingRemoved { .. }) => true,
        _ => false,
    }
}

/// Whether the event at `i` answers the step that follows from the one before.
pub open spec fn activate_follows(run: Seq<ActivateEvent>, i: int) -> bool {
    activate_answers(activate_next(run[i - 1]), run[i])
}

/// Whether the events are those of putting the backup in the staging directory
/// of this name in place once.
pub open spec fn is_activation(run: Seq<ActivateEvent>, staging: String) -> bool {
    &&& run.len() > 0
    &&& run[0] == ActivateEvent::Start { staging }
    &&& forall|i: int| 0 < i < run.len() ==> #[trigger] activate_follows(run, i)
}

/// Whether the event at `i`, or one before it, reads an entry of this name in
/// the backup.
pub open spec fn staged_read(run: Seq<ActivateEvent>, i: int, name: Seq<char>) -> bool
    decreases i,
{
    if i <= 0 {
        false
    } else {
        ||| staged_read(run, i - 1, name)
        ||| run[i] matches ActivateEvent::EntryRead { result: Ok(Some(read)), .. } && read@ == name
    }
}

/// The entries of the data directory after the event at `i`, given those at the
/// start and those of the backup. Clearing leaves the staging directory alone;
/// moving puts an entry of the backup in place of what had its name.
pub open spec fn activated<T>(
    run: Seq<ActivateEvent>,
    i: int,
    data: Map<Seq<char>, T>,
    staged: Map<Seq<char>, T>,
) -> Map<Seq<char>, T>
    decreases i,
{
    if i <= 0 {
        data
    } else {
        let before = activated(run, i - 1, data, staged);
        match (activate_next(run[i - 1]), run[i]) {
            (ActivateStep::Clear { staging }, ActivateEvent::Cleared { result: Ok(_), .. }) =>
                before.filter_keys(|name: Seq<char>| name == staging@),
            (ActivateStep::Move { name, .. }, ActivateEvent::Moved { result: Ok(_), .. }) =>
                before.insert(name@, staged[name@]),
            (
                ActivateStep::RemoveStaging { staging },
                ActivateEvent::StagingRemoved { result: Ok(_) },
            ) => before.remove(staging@),
            _ => before,
        }
    }
}

/// Whether the step carries this staging directory.
spec fn stages(step: ActivateStep, staging: String) -> bool {
    match step {
        ActivateStep::Clear { staging: name } => name == staging,
        ActivateStep::ListStaged { staging: name } => name == staging,
        ActivateStep::ReadEntry { staging: name } => name == staging,
        ActivateStep::Move { staging: name, .. } => name == staging,
        ActivateStep::RemoveStaging { staging: name } => name == staging,
        ActivateStep::Done { .. } => true,
    }
}

/// Whether beside the staging directory the data directory holds what was read
/// of the backup up to the event at `last`, and nothing else.
spec fn holds_what_was_read<T>(
    run: Seq<ActivateEvent>,
    last: int,
    staging: Seq<char>,
    now: Map<Seq<char>, T>,
    staged: Map<Seq<char>, T>,
) -> bool {
    forall|name: Seq<char>|
        name != staging ==> (#[trigger] now.contains_key(name) <==> staged_read(run, last, name))
            && (now.contains_key(name) ==> now[name] == staged[name])
}

proof fn activation_so_far<T>(
    run: Seq<ActivateEvent>,
    i: int,
    staging: String,
    data: Map<Seq<char>, T>,
    staged: Map<Seq<char>, T>,
)
    requires
        is_activation(run, staging),
        0 <= i < run.len(),
    ensures
        stages(activate_next(run[i]), staging),
        ({
            let now = activated(run, i, data, staged);
            match activate_next(run[i]) {
                ActivateStep::Clear { .. } => i == 0,
                ActivateStep::Move { name, .. } => i > 0 && holds_what_was_read(
                    run,
                    i - 1,
                    staging@,
                    now,
                    staged,
                ) && (run[i] matches ActivateEvent::EntryRead { result: Ok(Some(read)), .. }
                    && read == name),
                ActivateStep::Done { result: Err(_) } => true,
                ActivateStep::Done { result: Ok(_) } => holds_what_was_read(
                    run,
                    i,
                    staging@,
                    now,
                    staged,
                ) && !now.contains_key(staging@),
                _ => holds_what_was_read(run, i, staging@, now, staged),
            }
        }),
    decreases i,
{
    if i > 0 {
        activation_so_far(run, i - 1, staging, data, staged);
        assert(activate_follows(run, i));
        let before = activated(run, i - 1, data, staged);
        let now = activated(run, i, data, staged);
        let last = if run[i] is EntryRead {
            i - 1
        } else {
            i
        };
        assert forall|name: Seq<char>| name != staging@ && !(activate_next(run[i]) matches
            ActivateStep::Done { result: Err(_) }) implies (#[trigger] now.contains_key(name)
            <==> staged_read(run, last, name)) && (now.contains_key(name) ==> now[name]
            == staged[name]) by {
            reveal_with_fuel(staged_read, 3);
        }
    }
}

/// A backup that is put in place leaves the data directory with exactly the
/// contents of the backup: nothing of the former data, and no staging
/// directory. The listing has to show every entry of the backup and no other,
/// and no entry of the backup may bear the name of the staging directory.
pub proof fn activation_replaces_contents<T>(
    run: Seq<ActivateEvent>,
    staging: String,
    data: Map<Seq<char>, T>,
    staged: Map<Seq<char>, T>,
)
    requires
        is_activation(run, staging),
        activate_next(run.last()) matches ActivateStep::Done { result } && result is Ok,
        forall|name: Seq<char>| #[trigger]
            staged.contains_key(name) <==> staged_read(run, run.len() - 1, name),
        !staged.contains_key(staging@),
    ensures
        activated(run, run.len() - 1, data, staged) == staged,
{
    activation_so_far(run, run.len() - 1, staging, data, staged);
    let now = activated(run, run.len() - 1, data, staged);
    assert forall|name: Seq<char>| now.contains_key(name) <==> staged.contains_key(name) by {
        if name != staging@ {
            assert(now.contains_key(name) <==> staged_read(run, run.len() - 1, name));
        }
    }
    assert(now =~= staged);
}

/// Nothing is put in place that was not prepared: the staging directory that is
/// used is the one that the preparation gave.
pub proof fn only_prepared_backups_are_activated(event: RestoreFileEvent)
    ensures
        restore_file_next(event) matches RestoreFileStep::Activate { staging } ==> event == (
        RestoreFileEvent::Prepared { result: Ok(staging) }),
{
}

/// Whether the event tells of a failure.
pub open spec fn activation_failed(event: ActivateEvent) -> bool {
    match event {
        ActivateEvent::Start { .. } => false,
        ActivateEvent::Cleared { result, .. } => result is Err,
        ActivateEvent::StagedListed { result, .. } => result is Err,
        ActivateEvent::EntryRead { result, .. } => result is Err,
        ActivateEvent::Moved { result, .. } => result is Err,
        ActivateEvent::StagingRemoved { result } => result is Err,
    }
}

/// Whether the listing showed exactly these entries of the backup, and none of
/// them bears the name of the staging directory.
pub open spec fn lists_staged<T>(
    run: Seq<ActivateEvent>,
    staging: String,
    staged: Map<Seq<char>, T>,
) -> bool {
    &&& forall|name: Seq<char>| #[trigger]
        staged.contains_key(name) <==> staged_read(run, run.len() - 1, name)
    &&& !staged.contains_key(staging@)
}

/// How a preparation ended.
pub open spec fn preparation_result(run: Seq<PrepareEvent>) -> Result<String, BackupError> {
    prepare_next(run.last())->Done_result
}

/// How putting a backup in place ended.
pub open spec fn activation_result(run: Seq<ActivateEvent>) -> Result<(), BackupError> {
    activate_next(run.last())->Done_result
}

/// A backup file that was restored once is restored again, whatever the data
/// has become in between: if it unpacks to the same contents and nothing else
/// fails, the second restore succeeds, and leaves the data directory as the
/// first did. As in each of the two, no entry of the backup may bear the name
/// of the staging directory.
pub proof fn restoring_twice_leaves_the_same<T>(
    first_preparation: Seq<PrepareEvent>,
    first_activation: Seq<ActivateEvent>,
    first_staging: String,
    first_data: Map<Seq<char>, T>,
    second_preparation: Seq<PrepareEvent>,
    second_activation: Seq<ActivateEvent>,
    second_staging: String,
    second_data: Map<Seq<char>, T>,
    contents: Contents,
    staged: Map<Seq<char>, T>,
)
    requires
        is_preparation(first_preparation, first_staging),
        shows(first_preparation, contents),
        prepare_next(first_preparation.last()) matches PrepareStep::Done { result } && result is Ok,
        is_activation(first_activation, first_staging),
        activate_next(first_activation.last()) matches ActivateStep::Done { result } && result
            is Ok,
        lists_staged(first_activation, first_staging, staged),
        is_preparation(second_preparation, second_staging),
        shows(second_preparation, contents),
        prepare_next(second_preparation.last()) is Done,
        forall|j: int|
            0 <= j < second_preparation.len() ==> !preparation_hindered(
                #[trigger] second_preparation[j],
            ),
        is_activation(second_activation, second_staging),
        activate_next(second_activation.last()) is Done,
        forall|j: int|
            0 <= j < second_activation.len() ==> !activation_failed(#[trigger] second_activation[j]),
        lists_staged(second_activation, second_staging, staged),
    ensures
        restore_file_next(
            RestoreFileEvent::Prepared { result: preparation_result(second_preparation) },
        ) == (RestoreFileStep::Activate { staging: second_staging }),
        restore_file_next(
            RestoreFileEvent::Activated { result: activation_result(second_activation) },
        ) matches RestoreFileStep::Done { result } && result is Ok,
        activated(second_activation, second_activation.len() - 1, second_data, staged)
            == activated(first_activation, first_activation.len() - 1, first_data, staged),
{
    same_contents_are_accepted_again(
        first_preparation,
        first_staging,
        second_preparation,
        second_staging,
        contents,
    );
    assert(!activation_failed(second_activation[second_activation.len() - 1]));
    activation_replaces_contents(first_activation, first_staging, first_data, staged);
    activation_replaces_contents(second_activation, second_staging, second_data, staged);
}

/// Where nothing fails, the data directory is emptied but for the staging
/// directory, the backup is listed, each entry that is read is moved under its
/// own name, and at the end the staging directory is deleted. It is the same
/// staging directory on the way.
pub proof fn each_entry_of_the_backup_is_moved(event: ActivateEvent, staging: String, name: String)
    ensures
        activate_next(event) == (ActivateStep::Clear { staging }) <==> event == (
        ActivateEvent::Start { staging }),
        activate_next(event) == (ActivateStep::ListStaged { staging }) <==> (event matches
            ActivateEvent::Cleared { staging: back, result } && back == staging && result is Ok),
        activate_next(event) == (ActivateStep::ReadEntry { staging }) <==> {
            ||| event matches ActivateEvent::StagedListed { staging: back, result } && back
                == staging && result is Ok
            ||| event matches ActivateEvent::Moved { staging: back, result } && back == staging
                && result is Ok
        },
        activate_next(event) == (ActivateStep::Move { staging, name }) <==> event == (
        ActivateEvent::EntryRead { staging, result: Ok(Some(name)) }),
        activate_next(event) == (ActivateStep::RemoveStaging { staging }) <==> (event matches
            ActivateEvent::EntryRead { staging: back, result: Ok(None) } && back == staging),
{
}

/// Putting a backup in place tells what came of deleting the staging directory,
/// and fails before that exactly when something it asked for fails, with that
/// very error.
pub proof fn activation_tells_what_came_of_it(
    event: ActivateEvent,
    result: Result<(), BackupError>,
)
    ensures
        activate_next(event) == (ActivateStep::Done { result }) <==> {
            ||| event == (ActivateEvent::StagingRemoved { result })
            ||| result matches Err(error) && {
                ||| event matches ActivateEvent::Cleared { result: Err(told), .. } && told == error
                ||| event matches ActivateEvent::StagedListed { result: Err(told), .. } && told
                    == error
                ||| event matches ActivateEvent::EntryRead { result: Err(told), .. } && told
                    == error
                ||| event matches ActivateEvent::Moved { result: Err(told), .. } && told == error
            }
        },
{
}

/// A backup file is restored by preparing it and putting in place what the
/// preparation gave; it tells what came of that, or why there is nothing to put
/// in place.
pub proof fn restored_files_tell_what_came_of_them(
    event: RestoreFileEvent,
    staging: String,
    result: Result<(), BackupError>,
)
    ensures
        restore_file_next(event) is Prepare <==> event is Start,
        restore_file_next(event) == (RestoreFileStep::Activate { staging }) <==> event == (
        RestoreFileEvent::Prepared { result: Ok(staging) }),
        restore_file_next(event) == (RestoreFileStep::Done { result }) <==> {
            ||| event == (RestoreFileEvent::Activated { result })
            ||| event matches RestoreFileEvent::Prepared { result: Err(told) } && result == Err::<
                (),
                BackupError,
            >(told)
        },
{
}

} // verus!
