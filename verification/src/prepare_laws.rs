//! What holds of every preparation of a backup.

use vstd::prelude::*;

#[allow(unused_imports)]
use crate::archive::{archived, fits, fitting_is_a_bound_on_count_and_size, total_size};
use crate::archive::{MAX_BACKUP_ENTRIES, MAX_UNPACKED_BACKUP_BYTES};
#[allow(unused_imports)]
use crate::archive_laws::{sizes_add_up, sum_of_sizes};
use crate::directory::{CleanupEvent, CleanupStep, EntryKind};
#[allow(unused_imports)]
use crate::directory::cleanup_next;
#[allow(unused_imports)]
use crate::directory_laws::{cleaned, cleanup_leaves_no_staging, cleanup_read, is_cleanup};
use crate::error::BackupError;
#[allow(unused_imports)]
use crate::naming::{names_staging, staging_name};
#[allow(unused_imports)]
use crate::naming_laws::different_requests_use_different_names;
use crate::prepare::{PrepareEvent, PrepareStep, UnpackEvent, UnpackStep};
#[allow(unused_imports)]
use crate::prepare::{prepare_next, unpack_follows};
#[allow(unused_imports)]
use crate::walk::{inflated, positions_fit};

verus! {

/// What is unpacked is what was read, and it can be read to its end, holds no
/// more entries than a backup may, and expands to no more bytes.
pub proof fn unpacked_archives_are_bounded(event: UnpackEvent, bytes: Vec<u8>)
    requires
        unpack_follows(event, UnpackStep::Unpack(bytes)),
    ensures
        event == UnpackEvent::ArchiveRead(Ok(bytes)),
        forall|i: int| 0 <= i < archived(bytes@).len() ==> (#[trigger] archived(bytes@)[i]) is Ok,
        archived(bytes@).len() <= MAX_BACKUP_ENTRIES,
        total_size(archived(bytes@), archived(bytes@).len() as int) <= MAX_UNPACKED_BACKUP_BYTES,
{
    fitting_is_a_bound_on_count_and_size(
        archived(bytes@),
        MAX_UNPACKED_BACKUP_BYTES,
        MAX_BACKUP_ENTRIES,
    );
}

/// Whether the event is an answer to the step.
pub open spec fn prepare_answers(step: PrepareStep, event: PrepareEvent) -> bool {
    match (step, event) {
        (PrepareStep::CleanUp { staging }, PrepareEvent::CleanedUp { staging: back, .. }) => staging
            == back,
        (
            PrepareStep::CreateDataDirectory { staging },
            PrepareEvent::DataDirectoryCreated { staging: back, .. },
        ) => staging == back,
        (
            PrepareStep::CreateStaging { staging },
            PrepareEvent::StagingCreated { staging: back, .. },
        ) => staging == back,
        (PrepareStep::Unpack { staging }, PrepareEvent::Unpacked { staging: back, .. }) => staging
            == back,
        (
            PrepareStep::InspectData { staging },
            PrepareEvent::DataInspected { staging: back, .. },
        ) => staging == back,
        (
            PrepareStep::InspectDatabase { staging, data },
            PrepareEvent::DatabaseInspected { staging: back, data: back_data, .. },
        ) => staging == back && data == back_data,
        (
            PrepareStep::ValidateDatabase { staging },
            PrepareEvent::DatabaseValidated { staging: back, .. },
        ) => staging == back,
        (
            PrepareStep::ListStaging { staging },
            PrepareEvent::StagingListed { staging: back, .. },
        ) => staging == back,
        (PrepareStep::ReadEntry { staging }, PrepareEvent::EntryRead { staging: back, .. }) =>
            staging == back,
        (PrepareStep::Discard { error, .. }, PrepareEvent::Discarded { error: back, .. }) => error
            == back,
        _ => false,
    }
}

/// Whether the event at `i` answers the step that follows from the one before.
pub open spec fn prepare_follows(run: Seq<PrepareEvent>, i: int) -> bool {
    prepare_answers(prepare_next(run[i - 1]), run[i])
}

/// Whether the events are those of one preparation in this staging directory.
pub open spec fn is_preparation(run: Seq<PrepareEvent>, staging: String) -> bool {
    &&& run.len() > 0
    &&& run[0] == PrepareEvent::Start { staging }
    &&& forall|i: int| 0 < i < run.len() ==> #[trigger] prepare_follows(run, i)
}

/// The archive was unpacked.
pub open spec fn archive_unpacked(event: PrepareEvent) -> bool {
    event matches PrepareEvent::Unpacked { result, .. } && result is Ok
}

/// What was unpacked has a data directory, and that a database file.
pub open spec fn layout_found(event: PrepareEvent) -> bool {
    event matches PrepareEvent::DatabaseInspected { data, found: Some(database), .. } && data
        is Directory && database is File
}

/// The data directory was looked at without following a link, and is one.
pub open spec fn data_found(event: PrepareEvent) -> bool {
    event matches PrepareEvent::DataInspected { found: Some(data), .. } && data is Directory
}

/// The database passed its check.
pub open spec fn database_accepted(event: PrepareEvent) -> bool {
    event matches PrepareEvent::DatabaseValidated { result, .. } && result is Ok
}

/// Whether the staging directory exists while this step is done.
spec fn has_staging(step: PrepareStep) -> bool {
    ||| step is Unpack
    ||| step is InspectData
    ||| step is InspectDatabase
    ||| step is ValidateDatabase
    ||| step is ListStaging
    ||| step is ReadEntry
    ||| step is Discard
}

/// Whether the step carries this staging directory.
spec fn stages(step: PrepareStep, staging: String) -> bool {
    match step {
        PrepareStep::CleanUp { staging: name } => name == staging,
        PrepareStep::CreateDataDirectory { staging: name } => name == staging,
        PrepareStep::CreateStaging { staging: name } => name == staging,
        PrepareStep::Unpack { staging: name } => name == staging,
        PrepareStep::InspectData { staging: name } => name == staging,
        PrepareStep::InspectDatabase { staging: name, .. } => name == staging,
        PrepareStep::ValidateDatabase { staging: name } => name == staging,
        PrepareStep::ListStaging { staging: name } => name == staging,
        PrepareStep::ReadEntry { staging: name } => name == staging,
        PrepareStep::Discard { staging: name, .. } => name == staging,
        PrepareStep::Done { result } => result matches Ok(name) ==> name == staging,
    }
}

/// How far a preparation has got: nothing found, unpacked, data directory
/// looked at, layout found, database accepted.
spec fn stage(step: PrepareStep) -> int {
    match step {
        PrepareStep::InspectData { .. } => 1,
        PrepareStep::InspectDatabase { .. } => 2,
        PrepareStep::ValidateDatabase { .. } => 3,
        PrepareStep::ListStaging { .. } | PrepareStep::ReadEntry { .. } => 4,
        PrepareStep::Done { result } => if result is Ok {
            4
        } else {
            0
        },
        _ => 0,
    }
}

proof fn one_step_of_preparation(before: PrepareStep, event: PrepareEvent)
    requires
        prepare_answers(before, event),
    ensures
        ({
            let after = prepare_next(event);
            &&& stage(after) >= 1 ==> stage(before) >= 1 || archive_unpacked(event)
            &&& stage(after) >= 2 ==> stage(before) >= 2 || event is DataInspected
            &&& stage(after) >= 3 ==> stage(before) >= 3 || layout_found(event)
            &&& stage(after) >= 4 ==> stage(before) >= 4 || database_accepted(event)
        }),
{
}

proof fn preparation_so_far(run: Seq<PrepareEvent>, i: int, staging: String)
    requires
        is_preparation(run, staging),
        0 <= i < run.len(),
    ensures
        stages(prepare_next(run[i]), staging),
        ({
            let step = prepare_next(run[i]);
            &&& stage(step) >= 1 ==> exists|j: int|
                0 <= j <= i && #[trigger] archive_unpacked(run[j])
            &&& stage(step) == 2 ==> (step matches PrepareStep::InspectDatabase { data, .. } && (
            data is Directory ==> exists|j: int| 0 <= j <= i && #[trigger] data_found(run[j])))
            &&& stage(step) >= 3 ==> exists|j: int| 0 <= j <= i && #[trigger] data_found(run[j])
            &&& stage(step) >= 3 ==> exists|j: int| 0 <= j <= i && #[trigger] layout_found(run[j])
            &&& stage(step) >= 4 ==> exists|j: int|
                0 <= j <= i && #[trigger] database_accepted(run[j])
            &&& stage(step) >= 1 || step is Unpack ==> forall|j: int|
                0 <= j <= i ==> ((#[trigger] run[j]) matches PrepareEvent::EntryRead { result, .. }
                    ==> (result matches Ok(Some(name)) ==> name@ == "data"@))
            &&& step is CleanUp || step is CreateDataDirectory || step is CreateStaging ==> forall|
                j: int,
            |
                0 <= j <= i ==> !((#[trigger] run[j]) is EntryRead)
        }),
    decreases i,
{
    if i > 0 {
        preparation_so_far(run, i - 1, staging);
        assert(prepare_follows(run, i));
        let before = prepare_next(run[i - 1]);
        one_step_of_preparation(before, run[i]);
        if prepare_next(run[i]) matches PrepareStep::InspectDatabase { data, .. } && data
            is Directory {
            assert(data_found(run[i]));
        }
    }
}

/// A prepared backup was unpacked, holds a data directory with a database file
/// that passed its check, neither of them a link, and beside the data
/// directory nothing was found.
pub proof fn prepared_backup_is_complete(run: Seq<PrepareEvent>, staging: String)
    requires
        is_preparation(run, staging),
        prepare_next(run.last()) matches PrepareStep::Done { result } && result is Ok,
    ensures
        prepare_next(run.last()) == (PrepareStep::Done { result: Ok(staging) }),
        exists|j: int| 0 <= j < run.len() && #[trigger] archive_unpacked(run[j]),
        exists|j: int| 0 <= j < run.len() && #[trigger] data_found(run[j]),
        exists|j: int| 0 <= j < run.len() && #[trigger] layout_found(run[j]),
        exists|j: int| 0 <= j < run.len() && #[trigger] database_accepted(run[j]),
        forall|j: int|
            0 <= j < run.len() ==> ((#[trigger] run[j]) matches PrepareEvent::EntryRead {
                result,
                ..
            } ==> (result matches Ok(Some(name)) ==> name@ == "data"@)),
{
    preparation_so_far(run, run.len() - 1, staging);
}

/// Whether the staging directory was created up to the event at `last`.
pub open spec fn staging_was_created(run: Seq<PrepareEvent>, last: int) -> bool {
    exists|j: int|
        0 <= j <= last && ((#[trigger] run[j]) matches PrepareEvent::StagingCreated { result, .. }
            && result is Ok)
}

proof fn staging_is_accounted_for(run: Seq<PrepareEvent>, i: int, staging: String)
    requires
        is_preparation(run, staging),
        0 <= i < run.len(),
    ensures
        staging_was_created(run, i) <==> has_staging(prepare_next(run[i])) || run[i] is Discarded
            || (prepare_next(run[i]) matches PrepareStep::Done { result } && result is Ok),
    decreases i,
{
    if i > 0 {
        staging_is_accounted_for(run, i - 1, staging);
        assert(prepare_follows(run, i));
        if staging_was_created(run, i - 1) {
            let j = choose|j: int|
                0 <= j <= i - 1 && ((#[trigger] run[j]) matches PrepareEvent::StagingCreated {
                    result,
                    ..
                } && result is Ok);
            assert(run[j] is StagingCreated);
        }
    }
}

/// A preparation that fails after it created the staging directory has it
/// deleted before it ends, and ends with the error for which it was deleted.
pub proof fn failed_preparation_is_discarded(run: Seq<PrepareEvent>, staging: String)
    requires
        is_preparation(run, staging),
        prepare_next(run.last()) matches PrepareStep::Done { result } && result is Err,
        staging_was_created(run, run.len() - 1),
    ensures
        run.len() > 1,
        prepare_next(run.last()) matches PrepareStep::Done { result: Err(error) } && prepare_next(
            run[run.len() - 2],
        ) == (PrepareStep::Discard { staging, error }),
{
    let last = run.len() - 1;
    staging_is_accounted_for(run, last, staging);
    assert(prepare_follows(run, last));
    preparation_so_far(run, last - 1, staging);
}

/// What a backup shows when it is unpacked: what its data directory and its
/// database are, what the check of the database says, and the names at its top
/// level.
pub struct Contents {
    pub data: Option<EntryKind>,
    pub database: Option<EntryKind>,
    pub checked: Result<(), BackupError>,
    pub top_level: Set<Seq<char>>,
}

/// Whether an entry of this name was read at the top level.
pub open spec fn top_level_read(run: Seq<PrepareEvent>, name: Seq<char>) -> bool {
    exists|i: int| #[trigger] reads_name(run, i, name)
}

/// Whether the event at `i` reads an entry of this name.
pub open spec fn reads_name(run: Seq<PrepareEvent>, i: int, name: Seq<char>) -> bool {
    &&& 0 <= i < run.len()
    &&& run[i] matches PrepareEvent::EntryRead { result: Ok(Some(read)), .. } && read@ == name
}

/// Whether the event at `i` tells of these contents what is so. A listing that
/// comes to its end has shown every name.
pub open spec fn tells_of(run: Seq<PrepareEvent>, i: int, contents: Contents) -> bool {
    match run[i] {
        PrepareEvent::DataInspected { found, .. } => found == contents.data,
        PrepareEvent::DatabaseInspected { found, .. } => found == contents.database,
        PrepareEvent::DatabaseValidated { result, .. } => result == contents.checked,
        PrepareEvent::EntryRead { result: Ok(Some(name)), .. } => contents.top_level.contains(
            name@,
        ),
        PrepareEvent::EntryRead { result: Ok(None), .. } => forall|name: Seq<char>| #[trigger]
            contents.top_level.contains(name) ==> top_level_read(run, name),
        _ => true,
    }
}

/// Whether the preparation met these contents.
pub open spec fn shows(run: Seq<PrepareEvent>, contents: Contents) -> bool {
    forall|i: int| 0 <= i < run.len() ==> #[trigger] tells_of(run, i, contents)
}

/// Whether the event tells of a failure that has nothing to do with what the
/// backup holds.
pub open spec fn preparation_hindered(event: PrepareEvent) -> bool {
    match event {
        PrepareEvent::CleanedUp { result, .. } => result is Err,
        PrepareEvent::DataDirectoryCreated { result, .. } => result is Err,
        PrepareEvent::StagingCreated { result, .. } => result is Err,
        PrepareEvent::Unpacked { result, .. } => result is Err,
        PrepareEvent::StagingListed { result, .. } => result is Err,
        PrepareEvent::EntryRead { result, .. } => result is Err,
        _ => false,
    }
}

/// Whether the contents are those of a backup.
spec fn is_backup(contents: Contents) -> bool {
    &&& contents.data matches Some(data) && data is Directory
    &&& contents.database matches Some(database) && database is File
    &&& contents.checked is Ok
    &&& forall|name: Seq<char>| #[trigger] contents.top_level.contains(name) ==> name == "data"@
}

proof fn accepted_contents_are_a_backup(
    run: Seq<PrepareEvent>,
    staging: String,
    contents: Contents,
)
    requires
        is_preparation(run, staging),
        shows(run, contents),
        prepare_next(run.last()) matches PrepareStep::Done { result } && result is Ok,
    ensures
        is_backup(contents),
{
    prepared_backup_is_complete(run, staging);
    let found = choose|j: int| 0 <= j < run.len() && #[trigger] data_found(run[j]);
    assert(tells_of(run, found, contents));
    let laid_out = choose|j: int| 0 <= j < run.len() && #[trigger] layout_found(run[j]);
    assert(tells_of(run, laid_out, contents));
    let accepted = choose|j: int| 0 <= j < run.len() && #[trigger] database_accepted(run[j]);
    assert(tells_of(run, accepted, contents));
    assert(tells_of(run, run.len() - 1, contents));
    assert forall|name: Seq<char>| #[trigger] contents.top_level.contains(name) implies name
        == "data"@ by {
        assert(top_level_read(run, name));
        let i = choose|i: int| #[trigger] reads_name(run, i, name);
        assert(run[i] is EntryRead);
    }
}

proof fn backups_are_not_discarded(
    run: Seq<PrepareEvent>,
    i: int,
    staging: String,
    contents: Contents,
)
    requires
        is_preparation(run, staging),
        shows(run, contents),
        is_backup(contents),
        forall|j: int| 0 <= j < run.len() ==> !preparation_hindered(#[trigger] run[j]),
        0 <= i < run.len(),
    ensures
        !(prepare_next(run[i]) is Discard),
        prepare_next(run[i]) matches PrepareStep::Done { result } ==> result is Ok,
        prepare_next(run[i]) matches PrepareStep::InspectDatabase { data, .. } ==> data
            is Directory,
    decreases i,
{
    assert(tells_of(run, i, contents));
    assert(!preparation_hindered(run[i]));
    if i > 0 {
        backups_are_not_discarded(run, i - 1, staging, contents);
        assert(prepare_follows(run, i));
    }
}

/// Whether a backup is accepted depends on what it holds alone: one that was
/// accepted is accepted again, if nothing else fails.
pub proof fn same_contents_are_accepted_again(
    first: Seq<PrepareEvent>,
    first_staging: String,
    second: Seq<PrepareEvent>,
    second_staging: String,
    contents: Contents,
)
    requires
        is_preparation(first, first_staging),
        shows(first, contents),
        prepare_next(first.last()) matches PrepareStep::Done { result } && result is Ok,
        is_preparation(second, second_staging),
        shows(second, contents),
        prepare_next(second.last()) is Done,
        forall|j: int| 0 <= j < second.len() ==> !preparation_hindered(#[trigger] second[j]),
    ensures
        prepare_next(second.last()) == (PrepareStep::Done { result: Ok(second_staging) }),
{
    accepted_contents_are_a_backup(first, first_staging, contents);
    backups_are_not_discarded(second, second.len() - 1, second_staging, contents);
    prepared_backup_is_complete(second, second_staging);
}

/// Whether the events are those of deleting all that is stale in a data
/// directory with these entries: it succeeded, and the listing showed every
/// entry.
pub open spec fn cleans_up<T>(run: Seq<CleanupEvent>, data: Map<Seq<char>, T>) -> bool {
    &&& is_cleanup(run)
    &&& cleanup_next(run.last()) matches CleanupStep::Done(result) && result is Ok
    &&& forall|name: Seq<char>| #[trigger]
        data.contains_key(name) ==> cleanup_read(run, run.len() - 1, name)
}

/// The entries of the data directory after the event at `i` of a preparation
/// that cleans up by this run and makes this of the staging directory.
pub open spec fn prepared_data<T>(
    run: Seq<PrepareEvent>,
    i: int,
    cleanup: Seq<CleanupEvent>,
    data: Map<Seq<char>, T>,
    made: T,
) -> Map<Seq<char>, T>
    decreases i,
{
    if i <= 0 {
        data
    } else {
        let before = prepared_data(run, i - 1, cleanup, data, made);
        match (prepare_next(run[i - 1]), run[i]) {
            (_, PrepareEvent::CleanedUp { result: Ok(_), .. }) => cleaned(
                cleanup,
                cleanup.len() - 1,
                before,
            ),
            (
                PrepareStep::CreateStaging { staging },
                PrepareEvent::StagingCreated { result: Ok(_), .. },
            ) => before.insert(staging@, made),
            (
                PrepareStep::Discard { staging, .. },
                PrepareEvent::Discarded { result: Ok(_), .. },
            ) => before.remove(staging@),
            _ => before,
        }
    }
}

/// What the data directory holds of these entries when they are cleaned up.
pub open spec fn without_staging<T>(data: Map<Seq<char>, T>) -> Map<Seq<char>, T> {
    data.filter_keys(|name: Seq<char>| !names_staging(name))
}

proof fn prepared_data_so_far<T>(
    run: Seq<PrepareEvent>,
    i: int,
    staging: String,
    cleanup: Seq<CleanupEvent>,
    data: Map<Seq<char>, T>,
    made: T,
)
    requires
        is_preparation(run, staging),
        cleans_up(cleanup, data),
        0 <= i < run.len(),
    ensures
        ({
            let step = prepare_next(run[i]);
            let now = prepared_data(run, i, cleanup, data, made);
            match step {
                PrepareStep::CleanUp { .. } => now == data,
                PrepareStep::CreateDataDirectory { .. } | PrepareStep::CreateStaging { .. } => now
                    == without_staging(data),
                PrepareStep::Done { result: Err(_) } => true,
                _ => now == without_staging(data).insert(staging@, made),
            }
        }),
    decreases i,
{
    if i > 0 {
        prepared_data_so_far(run, i - 1, staging, cleanup, data, made);
        preparation_so_far(run, i - 1, staging);
        assert(prepare_follows(run, i));
        cleanup_leaves_no_staging(cleanup, data);
    }
}

/// A preparation that succeeds leaves of the staging directories that were
/// there none, and its own beside all else that was there.
pub proof fn preparation_leaves_one_staging<T>(
    run: Seq<PrepareEvent>,
    staging: String,
    cleanup: Seq<CleanupEvent>,
    data: Map<Seq<char>, T>,
    made: T,
)
    requires
        is_preparation(run, staging),
        cleans_up(cleanup, data),
        prepare_next(run.last()) matches PrepareStep::Done { result } && result is Ok,
    ensures
        prepared_data(run, run.len() - 1, cleanup, data, made) == without_staging(data).insert(
            staging@,
            made,
        ),
{
    prepared_data_so_far(run, run.len() - 1, staging, cleanup, data, made);
}

/// At most one prepared backup is alive: of two preparations with different
/// identifiers that succeed one after the other, whatever else happens to the
/// data in between, the staging directory of the first is there after the
/// first, and after the second it is gone and that of the second is the only
/// one.
pub proof fn only_the_last_preparation_is_alive<T>(
    first: Seq<PrepareEvent>,
    first_staging: String,
    first_id: u128,
    first_cleanup: Seq<CleanupEvent>,
    first_data: Map<Seq<char>, T>,
    first_made: T,
    second: Seq<PrepareEvent>,
    second_staging: String,
    second_id: u128,
    second_cleanup: Seq<CleanupEvent>,
    second_data: Map<Seq<char>, T>,
    second_made: T,
)
    requires
        is_preparation(first, first_staging),
        first_staging@ == staging_name(first_id),
        cleans_up(first_cleanup, first_data),
        prepare_next(first.last()) matches PrepareStep::Done { result } && result is Ok,
        is_preparation(second, second_staging),
        second_staging@ == staging_name(second_id),
        cleans_up(second_cleanup, second_data),
        prepare_next(second.last()) matches PrepareStep::Done { result } && result is Ok,
        first_id != second_id,
    ensures
        first_staging@ != second_staging@,
        prepared_data(first, first.len() - 1, first_cleanup, first_data, first_made).contains_key(
            first_staging@,
        ),
        ({
            let after = prepared_data(
                second,
                second.len() - 1,
                second_cleanup,
                second_data,
                second_made,
            );
            &&& !after.contains_key(first_staging@)
            &&& forall|name: Seq<char>|
                names_staging(name) ==> (#[trigger] after.contains_key(name) <==> name
                    == second_staging@)
        }),
{
    preparation_leaves_one_staging(first, first_staging, first_cleanup, first_data, first_made);
    preparation_leaves_one_staging(
        second,
        second_staging,
        second_cleanup,
        second_data,
        second_made,
    );
    different_requests_use_different_names(first_id, second_id, Seq::empty());
}

/// Where nothing fails, a preparation cleans up, creates the data directory and
/// in it the staging directory, unpacks into that, and looks at the data
/// directory and at the database of what was unpacked. It is the same staging
/// directory on the way.
pub proof fn backups_are_unpacked_and_looked_at(
    event: PrepareEvent,
    staging: String,
    data: EntryKind,
)
    ensures
        prepare_next(event) == (PrepareStep::CleanUp { staging }) <==> event == (
        PrepareEvent::Start { staging }),
        prepare_next(event) == (PrepareStep::CreateDataDirectory { staging }) <==> (event matches
            PrepareEvent::CleanedUp { staging: back, result } && back == staging && result is Ok),
        prepare_next(event) == (PrepareStep::CreateStaging { staging }) <==> (event matches
            PrepareEvent::DataDirectoryCreated { staging: back, result } && back == staging
            && result is Ok),
        prepare_next(event) == (PrepareStep::Unpack { staging }) <==> (event matches
            PrepareEvent::StagingCreated { staging: back, result } && back == staging && result
            is Ok),
        prepare_next(event) == (PrepareStep::InspectData { staging }) <==> (event matches
            PrepareEvent::Unpacked { staging: back, result } && back == staging && result is Ok),
        prepare_next(event) == (PrepareStep::InspectDatabase { staging, data }) <==> (event matches
            PrepareEvent::DataInspected { staging: back, found: Some(kind) } && back == staging
            && kind == data),
{
}

/// The database is checked exactly where the data is a directory and the
/// database in it a file; the staging directory is listed exactly after a
/// database that passed; reading goes on past an entry exactly if it is named
/// `data`; and the backup is accepted exactly at the end of the listing, under
/// the name of its staging directory.
pub proof fn backups_are_accepted_for_what_they_hold(event: PrepareEvent, staging: String)
    ensures
        prepare_next(event) == (PrepareStep::ValidateDatabase { staging }) <==> (event matches
            PrepareEvent::DatabaseInspected { staging: back, data, found: Some(database) } && back
            == staging && data is Directory && database is File),
        prepare_next(event) == (PrepareStep::ListStaging { staging }) <==> (event matches
            PrepareEvent::DatabaseValidated { staging: back, result } && back == staging && result
            is Ok),
        prepare_next(event) == (PrepareStep::ReadEntry { staging }) <==> {
            ||| event matches PrepareEvent::StagingListed { staging: back, result } && back
                == staging && result is Ok
            ||| event matches PrepareEvent::EntryRead { staging: back, result: Ok(Some(name)) }
                && back == staging && name@ == seq!['d', 'a', 't', 'a']
        },
        prepare_next(event) == (PrepareStep::Done { result: Ok(staging) }) <==> (event matches
            PrepareEvent::EntryRead { staging: back, result: Ok(None) } && back == staging),
{
    reveal_strlit("data");
    assert("data"@ =~= seq!['d', 'a', 't', 'a']);
}

/// What was unpacked is discarded exactly for what was found wrong with it: no
/// data directory, no database, one of them of the wrong kind, something beside
/// the data directory, a database that did not pass, or what failed, with that
/// very error.
pub proof fn backups_are_discarded_for_what_was_found(
    event: PrepareEvent,
    staging: String,
    error: BackupError,
)
    ensures
        prepare_next(event) == (PrepareStep::Discard { staging, error }) <==> {
            ||| event matches PrepareEvent::DataInspected { staging: back, found: None } && back
                == staging && error is MissingDataDirectory
            ||| event matches PrepareEvent::DatabaseInspected { staging: back, found: None, .. }
                && back == staging && error is MissingDatabase
            ||| event matches PrepareEvent::DatabaseInspected {
                staging: back,
                data,
                found: Some(database),
            } && back == staging && !(data is Directory && database is File) && error
                is InvalidLayout
            ||| event matches PrepareEvent::EntryRead { staging: back, result: Ok(Some(name)) }
                && back == staging && name@ != seq!['d', 'a', 't', 'a'] && error is StrayEntries
            ||| event matches PrepareEvent::Unpacked { staging: back, result: Err(told) } && back
                == staging && told == error
            ||| event matches PrepareEvent::DatabaseValidated { staging: back, result: Err(told) }
                && back == staging && told == error
            ||| event matches PrepareEvent::StagingListed { staging: back, result: Err(told) }
                && back == staging && told == error
            ||| event matches PrepareEvent::EntryRead { staging: back, result: Err(told) } && back
                == staging && told == error
        },
{
    reveal_strlit("data");
    assert("data"@ =~= seq!['d', 'a', 't', 'a']);
}

/// A preparation fails exactly after what was unpacked was discarded, with the
/// error for which it was, or when something failed before there was a staging
/// directory, with that very error.
pub proof fn preparation_fails_with_what_failed(event: PrepareEvent, error: BackupError)
    ensures
        prepare_next(event) == (PrepareStep::Done { result: Err(error) }) <==> {
            ||| event matches PrepareEvent::Discarded { error: cause, .. } && cause == error
            ||| event matches PrepareEvent::CleanedUp { result: Err(told), .. } && told == error
            ||| event matches PrepareEvent::DataDirectoryCreated { result: Err(told), .. } && told
                == error
            ||| event matches PrepareEvent::StagingCreated { result: Err(told), .. } && told
                == error
        },
{
}

/// A backup is accepted whenever it is one: if what was unpacked has a data
/// directory with a database file that passes its check, and holds nothing
/// beside, a preparation in which nothing fails accepts it.
pub proof fn backups_are_accepted(run: Seq<PrepareEvent>, staging: String, contents: Contents)
    requires
        is_preparation(run, staging),
        shows(run, contents),
        contents.data matches Some(data) && data is Directory,
        contents.database matches Some(database) && database is File,
        contents.checked is Ok,
        forall|name: Seq<char>| #[trigger]
            contents.top_level.contains(name) ==> name == seq!['d', 'a', 't', 'a'],
        forall|j: int| 0 <= j < run.len() ==> !preparation_hindered(#[trigger] run[j]),
        prepare_next(run.last()) is Done,
    ensures
        prepare_next(run.last()) == (PrepareStep::Done { result: Ok(staging) }),
{
    reveal_strlit("data");
    assert("data"@ =~= seq!['d', 'a', 't', 'a']);
    backups_are_not_discarded(run, run.len() - 1, staging, contents);
    prepared_backup_is_complete(run, staging);
}

/// An archive is opened, then read, and what was read is unpacked exactly if no
/// position in it leaves 64 bits, every entry can be read, there are at most
/// 100000 of them, and their sizes together are at most two gibibytes.
pub proof fn archives_are_unpacked_within_the_limits(
    event: UnpackEvent,
    step: UnpackStep,
    bytes: Vec<u8>,
)
    requires
        unpack_follows(event, step),
    ensures
        step is OpenArchive <==> event is Start,
        step is ReadArchive <==> (event matches UnpackEvent::ArchiveOpened(result) && result is Ok),
        step == UnpackStep::Unpack(bytes) <==> {
            &&& event == UnpackEvent::ArchiveRead(Ok(bytes))
            &&& positions_fit(inflated(bytes@))
            &&& forall|i: int|
                0 <= i < archived(bytes@).len() ==> (#[trigger] archived(bytes@)[i]) is Ok
            &&& archived(bytes@).len() <= 100_000
            &&& sum_of_sizes(archived(bytes@)) <= 2_147_483_648
        },
{
    if let UnpackEvent::ArchiveRead(Ok(read)) = event {
        fitting_is_a_bound_on_count_and_size(
            archived(read@),
            MAX_UNPACKED_BACKUP_BYTES,
            MAX_BACKUP_ENTRIES,
        );
        sizes_add_up(archived(read@), archived(read@).len() as int);
        assert(archived(read@).take(archived(read@).len() as int) =~= archived(read@));
    }
}

/// Unpacking tells what came of it. It fails before that exactly for a file that
/// cannot be opened, with that very error, for one that cannot be read, in the
/// words in which that was told, or for an archive that is not within the
/// limits.
pub proof fn unpacking_tells_what_came_of_it(
    event: UnpackEvent,
    step: UnpackStep,
    result: Result<(), BackupError>,
)
    requires
        unpack_follows(event, step),
    ensures
        event == UnpackEvent::Unpacked(result) ==> step == UnpackStep::Done(result),
        event == UnpackEvent::ArchiveOpened(result) && result is Err ==> step == UnpackStep::Done(
            result,
        ),
        event matches UnpackEvent::ArchiveRead(Err(text)) ==> step == UnpackStep::Done(
            Err(BackupError::UnreadableArchive(text)),
        ),
        step is Done ==> {
            ||| event is Unpacked
            ||| event matches UnpackEvent::ArchiveOpened(opened) && opened is Err
            ||| event matches UnpackEvent::ArchiveRead(Err(_))
            ||| event matches UnpackEvent::ArchiveRead(Ok(bytes)) && !{
                &&& positions_fit(inflated(bytes@))
                &&& forall|i: int|
                    0 <= i < archived(bytes@).len() ==> (#[trigger] archived(bytes@)[i]) is Ok
                &&& archived(bytes@).len() <= 100_000
                &&& sum_of_sizes(archived(bytes@)) <= 2_147_483_648
            }
        },
{
    if let UnpackEvent::ArchiveRead(Ok(read)) = event {
        archives_are_unpacked_within_the_limits(event, step, read);
    }
}

} // verus!
