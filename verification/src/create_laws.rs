//! What holds of every backup that is made.

use vstd::prelude::*;

use crate::create::{
    BackupFileEvent, BackupFileStep, CreateEvent, CreateOutcome, CreateStep, LockedFileEvent,
    LockedFileStep, WriteEvent, WriteStep, ARCHIVE_ROOT,
};
use crate::error::BackupError;
#[allow(unused_imports)]
use crate::create::{backup_file_next, create_next, locked_file_next, write_next};

verus! {

/// Whether the event is an answer to the step.
pub open spec fn write_answers(step: WriteStep, event: WriteEvent) -> bool {
    match step {
        WriteStep::CreateFile => event is FileCreated,
        WriteStep::CheckData => event is DataChecked,
        WriteStep::AppendData => event is DataAppended,
        WriteStep::FinishArchive => event is ArchiveFinished,
        WriteStep::FinishCompression => event is CompressionFinished,
        WriteStep::Done(_) => false,
    }
}

/// Whether the event at `i` answers the step that follows from the one before.
pub open spec fn write_follows(run: Seq<WriteEvent>, i: int) -> bool {
    write_answers(write_next(run[i - 1]), run[i])
}

/// Whether the events are those of writing one archive.
pub open spec fn is_writing(run: Seq<WriteEvent>) -> bool {
    &&& run.len() > 0
    &&& run[0] is Start
    &&& forall|i: int| 0 < i < run.len() ==> #[trigger] write_follows(run, i)
}

/// An archive that was written without a failure holds the data directory if
/// there is one, and is complete: both its own end and that of the compressed
/// stream were written.
pub proof fn written_archive_is_complete(run: Seq<WriteEvent>)
    requires
        is_writing(run),
        write_next(run.last()) matches WriteStep::Done(result) && result is Ok,
    ensures
        ({
            let end = run.len() as int;
            &&& end == 5 || end == 6
            &&& run[1] matches WriteEvent::FileCreated(result) && result is Ok
            &&& run[2] == WriteEvent::DataChecked(end == 6)
            &&& end == 6 ==> (run[3] matches WriteEvent::DataAppended(result) && result is Ok)
            &&& run[end - 2] matches WriteEvent::ArchiveFinished(result) && result is Ok
            &&& run[end - 1] matches WriteEvent::CompressionFinished(result) && result is Ok
        }),
{
    assert(run.len() > 1 ==> write_follows(run, 1));
    assert(run.len() > 2 ==> write_follows(run, 2));
    assert(run.len() > 3 ==> write_follows(run, 3));
    assert(run.len() > 4 ==> write_follows(run, 4));
    assert(run.len() > 5 ==> write_follows(run, 5));
    assert(run.len() > 6 ==> write_follows(run, 6));
}

/// A backup is written only after stale staging directories were deleted, so
/// none goes into it.
pub proof fn backups_hold_no_stale_staging(event: BackupFileEvent)
    ensures
        backup_file_next(event) is Write <==> (event matches BackupFileEvent::CleanedUp(result)
            && result is Ok),
{
}

/// Whether the event is an answer to the step.
pub open spec fn create_answers(step: CreateStep, event: CreateEvent) -> bool {
    match (step, event) {
        (
            CreateStep::CreateArchive { filename },
            CreateEvent::ArchiveCreated { filename: back, .. },
        ) => filename == back,
        (
            CreateStep::ReadArchive { filename },
            CreateEvent::ArchiveRead { filename: back, .. },
        ) => filename == back,
        (
            CreateStep::RemoveArchive { filename, bytes },
            CreateEvent::ArchiveRemoved { filename: back, bytes: back_bytes, .. },
        ) => filename == back && bytes == back_bytes,
        _ => false,
    }
}

/// Whether the event at `i` answers the step that follows from the one before.
pub open spec fn create_follows(run: Seq<CreateEvent>, i: int) -> bool {
    create_answers(create_next(run[i - 1]), run[i])
}

/// Whether the events are those of one request for a backup.
pub open spec fn is_creation(run: Seq<CreateEvent>, filename: String) -> bool {
    &&& run.len() > 0
    &&& run[0] == CreateEvent::Start { filename }
    &&& forall|i: int| 0 < i < run.len() ==> #[trigger] create_follows(run, i)
}

/// A request for a backup is answered with the backup exactly if the file was
/// made and read: with the very bytes that were read, under the name that the
/// request started with, and after the file was deleted. Otherwise it is
/// answered with a failure.
pub proof fn download_is_the_backup(run: Seq<CreateEvent>, filename: String)
    requires
        is_creation(run, filename),
        create_next(run.last()) is Reply,
    ensures
        match create_next(run.last())->Reply_outcome {
            CreateOutcome::Download { filename: offered, bytes } => {
                &&& run.len() == 4
                &&& offered == filename
                &&& run[1] matches CreateEvent::ArchiveCreated { result, .. } && result is Ok
                &&& run[2] == (CreateEvent::ArchiveRead { filename, result: Ok(bytes) })
                &&& create_next(run[2]) is RemoveArchive
            },
            CreateOutcome::Failed => {
                ||| run.len() == 2 && (run[1] matches CreateEvent::ArchiveCreated { result, .. }
                    && result is Err)
                ||| run.len() == 3 && (run[2] matches CreateEvent::ArchiveRead { result, .. }
                    && result is Err)
            },
        },
{
    assert(run.len() > 1 ==> create_follows(run, 1));
    assert(run.len() > 2 ==> create_follows(run, 2));
    assert(run.len() > 3 ==> create_follows(run, 3));
    assert(run.len() > 4 ==> create_follows(run, 4));
}

/// Whether the event is an answer to the step.
pub open spec fn locked_file_answers(step: LockedFileStep, event: LockedFileEvent) -> bool {
    match (step, event) {
        (LockedFileStep::Lock, LockedFileEvent::Locked) => true,
        (LockedFileStep::Create, LockedFileEvent::Created { .. }) => true,
        (
            LockedFileStep::Release { result },
            LockedFileEvent::Released { result: back },
        ) => result == back,
        _ => false,
    }
}

/// Whether the event at `i` answers the step that follows from the one before.
pub open spec fn locked_file_follows(run: Seq<LockedFileEvent>, i: int) -> bool {
    locked_file_answers(locked_file_next(run[i - 1]), run[i])
}

/// Whether the events are those of making one backup file.
pub open spec fn is_locked_file(run: Seq<LockedFileEvent>) -> bool {
    &&& run.len() > 0
    &&& run[0] is Start
    &&& forall|i: int| 0 < i < run.len() ==> #[trigger] locked_file_follows(run, i)
}

/// A backup file is made while the lock on backup operations is held: it was
/// taken and has not been let go of.
pub proof fn backups_are_made_under_lock(run: Seq<LockedFileEvent>, i: int)
    requires
        is_locked_file(run),
        0 <= i < run.len(),
        locked_file_next(run[i]) is Create,
    ensures
        exists|j: int| 0 <= j <= i && ((#[trigger] run[j]) is Locked),
        forall|k: int| 0 <= k <= i ==> !((#[trigger] run[k]) is Released),
{
    assert(run[i] is Locked);
    assert(run.len() > 1 ==> locked_file_follows(run, 1));
    assert(run.len() > 2 ==> locked_file_follows(run, 2));
    assert(run.len() > 3 ==> locked_file_follows(run, 3));
    assert(run.len() > 4 ==> locked_file_follows(run, 4));
}

/// Once a backup file has been made, or could not be, the lock is let go of,
/// and what came of it is told.
pub proof fn locks_are_released(run: Seq<LockedFileEvent>)
    requires
        is_locked_file(run),
        locked_file_next(run.last()) is Done,
    ensures
        run.len() == 4,
        run[1] is Locked,
        run[3] is Released,
        locked_file_next(run.last()) matches LockedFileStep::Done { result } && run[2] == (
        LockedFileEvent::Created { result }),
{
    assert(run.len() > 1 ==> locked_file_follows(run, 1));
    assert(run.len() > 2 ==> locked_file_follows(run, 2));
    assert(run.len() > 3 ==> locked_file_follows(run, 3));
    assert(run.len() > 4 ==> locked_file_follows(run, 4));
}

/// Where nothing fails, the file is created, the data directory goes into the
/// archive exactly if it exists, and both ends are written.
pub proof fn existing_data_goes_into_the_archive(event: WriteEvent)
    ensures
        write_next(event) is CreateFile <==> event is Start,
        write_next(event) is CheckData <==> (event matches WriteEvent::FileCreated(result) && result
            is Ok),
        write_next(event) is AppendData <==> (event matches WriteEvent::DataChecked(found) && found),
        write_next(event) is FinishArchive <==> {
            ||| event matches WriteEvent::DataChecked(found) && !found
            ||| event matches WriteEvent::DataAppended(result) && result is Ok
        },
        write_next(event) is FinishCompression <==> (event matches WriteEvent::ArchiveFinished(
            result,
        ) && result is Ok),
        (write_next(event) matches WriteStep::Done(result) && result is Ok) <==> (event matches
            WriteEvent::CompressionFinished(result) && result is Ok),
{
}

/// Writing an archive fails exactly when something it asked for fails, with that
/// very error.
pub proof fn writing_fails_with_what_failed(event: WriteEvent, error: BackupError)
    ensures
        write_next(event) == WriteStep::Done(Err(error)) <==> {
            ||| event == WriteEvent::FileCreated(Err(error))
            ||| event == WriteEvent::DataAppended(Err(error))
            ||| event == WriteEvent::ArchiveFinished(Err(error))
            ||| event == WriteEvent::CompressionFinished(Err(error))
        },
{
}

/// In an archive, the data lies in a directory of this name.
pub proof fn archived_data_lies_in_data()
    ensures
        ARCHIVE_ROOT@ == "data"@,
{
}

/// A backup file is made by cleaning up and then writing the archive; what came
/// of writing is told, and a cleanup that fails ends it with that very error.
pub proof fn backup_files_tell_what_came_of_them(
    event: BackupFileEvent,
    result: Result<(), BackupError>,
)
    ensures
        backup_file_next(event) is CleanUp <==> event is Start,
        backup_file_next(event) is Write <==> (event matches BackupFileEvent::CleanedUp(cleaned)
            && cleaned is Ok),
        backup_file_next(event) == BackupFileStep::Done(result) <==> event
            == BackupFileEvent::Written(result) || (event == BackupFileEvent::CleanedUp(result)
            && result is Err),
{
}

/// A request for a backup makes the file, reads it, deletes it, and offers what
/// was read under the name of the file, whether or not it could be deleted. The
/// name and the bytes stay the same on the way.
pub proof fn backups_are_made_read_deleted_and_offered(
    event: CreateEvent,
    filename: String,
    bytes: Vec<u8>,
)
    ensures
        create_next(event) == (CreateStep::CreateArchive { filename }) <==> event == (
        CreateEvent::Start { filename }),
        create_next(event) == (CreateStep::ReadArchive { filename }) <==> (event matches
            CreateEvent::ArchiveCreated { filename: made, result } && made == filename && result
            is Ok),
        create_next(event) == (CreateStep::RemoveArchive { filename, bytes }) <==> event == (
        CreateEvent::ArchiveRead { filename, result: Ok(bytes) }),
        create_next(event) == (CreateStep::Reply {
            outcome: CreateOutcome::Download { filename, bytes },
        }) <==> (event matches CreateEvent::ArchiveRemoved { filename: gone, bytes: read, .. }
            && gone == filename && read == bytes),
{
}

/// A request for a backup is answered with a failure exactly where the file
/// could not be made or could not be read.
pub proof fn requests_fail_without_a_file(event: CreateEvent)
    ensures
        (create_next(event) matches CreateStep::Reply { outcome } && outcome is Failed) <==> {
            ||| event matches CreateEvent::ArchiveCreated { result, .. } && result is Err
            ||| event matches CreateEvent::ArchiveRead { result, .. } && result is Err
        },
{
}

/// Where other backup operations may run, the lock is taken first, the file is
/// made once it is held, and what came of that is told after it was let go of.
pub proof fn locked_files_tell_what_came_of_them(
    event: LockedFileEvent,
    result: Result<(), BackupError>,
)
    ensures
        locked_file_next(event) is Lock <==> event is Start,
        locked_file_next(event) is Create <==> event is Locked,
        locked_file_next(event) == (LockedFileStep::Release { result }) <==> event == (
        LockedFileEvent::Created { result }),
        locked_file_next(event) == (LockedFileStep::Done { result }) <==> event == (
        LockedFileEvent::Released { result }),
{
}

} // verus!
