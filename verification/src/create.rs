//! Creating a backup and offering it for download.

use vstd::prelude::*;

use crate::error::BackupError;
use crate::naming::content_disposition;
#[allow(unused_imports)]
use crate::naming::attachment;

verus! {

/// The directory in an archive that holds the data.
pub const ARCHIVE_ROOT: &'static str = "data";

/// What writing an archive wants done next.
#[derive(Debug, PartialEq, Eq)]
pub enum WriteStep {
    /// Create the archive file.
    CreateFile,
    /// Find out whether the data directory exists.
    CheckData,
    /// Add the data directory and all it holds.
    AppendData,
    /// Write the end of the archive.
    FinishArchive,
    /// Write the end of the compressed stream.
    FinishCompression,
    Done(Result<(), BackupError>),
}

/// What writing an archive is told.
#[derive(Debug, PartialEq, Eq)]
pub enum WriteEvent {
    Start,
    FileCreated(Result<(), BackupError>),
    DataChecked(bool),
    DataAppended(Result<(), BackupError>),
    ArchiveFinished(Result<(), BackupError>),
    CompressionFinished(Result<(), BackupError>),
}

/// The step that follows an event: a data directory that does not exist gives
/// an empty archive, and the first failure ends it.
pub open spec fn write_next(event: WriteEvent) -> WriteStep {
    match event {
        WriteEvent::Start => WriteStep::CreateFile,
        WriteEvent::FileCreated(Ok(_)) => WriteStep::CheckData,
        WriteEvent::DataChecked(exists) => if exists {
            WriteStep::AppendData
        } else {
            WriteStep::FinishArchive
        },
        WriteEvent::DataAppended(Ok(_)) => WriteStep::FinishArchive,
        WriteEvent::ArchiveFinished(Ok(_)) => WriteStep::FinishCompression,
        WriteEvent::CompressionFinished(result) => WriteStep::Done(result),
        WriteEvent::FileCreated(Err(error))
        | WriteEvent::DataAppended(Err(error))
        | WriteEvent::ArchiveFinished(Err(error)) => WriteStep::Done(Err(error)),
    }
}

/// Decides what comes next in writing an archive.
pub fn write_backup_archive(event: WriteEvent) -> (step: WriteStep)
    ensures
        step == write_next(event),
{
    match event {
        WriteEvent::Start => WriteStep::CreateFile,
        WriteEvent::FileCreated(Ok(())) => WriteStep::CheckData,
        WriteEvent::FileCreated(Err(error)) => WriteStep::Done(Err(error)),
        WriteEvent::DataChecked(true) => WriteStep::AppendData,
        WriteEvent::DataChecked(false) => WriteStep::FinishArchive,
        WriteEvent::DataAppended(Ok(())) => WriteStep::FinishArchive,
        WriteEvent::DataAppended(Err(error)) => WriteStep::Done(Err(error)),
        WriteEvent::ArchiveFinished(Ok(())) => WriteStep::FinishCompression,
        WriteEvent::ArchiveFinished(Err(error)) => WriteStep::Done(Err(error)),
        WriteEvent::CompressionFinished(result) => WriteStep::Done(result),
    }
}

/// What making a backup file wants done next.
#[derive(Debug, PartialEq, Eq)]
pub enum BackupFileStep {
    /// Delete stale staging directories, so that none goes into the backup.
    CleanUp,
    /// Write the archive.
    Write,
    Done(Result<(), BackupError>),
}

/// What making a backup file is told.
#[derive(Debug, PartialEq, Eq)]
pub enum BackupFileEvent {
    Start,
    CleanedUp(Result<(), BackupError>),
    Written(Result<(), BackupError>),
}

/// The step that follows an event.
pub open spec fn backup_file_next(event: BackupFileEvent) -> BackupFileStep {
    match event {
        BackupFileEvent::Start => BackupFileStep::CleanUp,
        BackupFileEvent::CleanedUp(Ok(_)) => BackupFileStep::Write,
        BackupFileEvent::CleanedUp(Err(error)) => BackupFileStep::Done(Err(error)),
        BackupFileEvent::Written(result) => BackupFileStep::Done(result),
    }
}

/// Decides what comes next in making a backup file, once others are kept from
/// it.
pub fn create_backup_file_unlocked(event: BackupFileEvent) -> (step: BackupFileStep)
    ensures
        step == backup_file_next(event),
{
    match event {
        BackupFileEvent::Start => BackupFileStep::CleanUp,
        BackupFileEvent::CleanedUp(Ok(())) => BackupFileStep::Write,
        BackupFileEvent::CleanedUp(Err(error)) => BackupFileStep::Done(Err(error)),
        BackupFileEvent::Written(result) => BackupFileStep::Done(result),
    }
}

/// What making a backup file wants done next, where other backup operations may
/// run.
#[derive(Debug, PartialEq, Eq)]
pub enum LockedFileStep {
    /// Wait for other backup operations to end, and keep others from beginning.
    Lock,
    /// Make the backup file.
    Create,
    /// Let other backup operations go on.
    Release { result: Result<(), BackupError> },
    Done { result: Result<(), BackupError> },
}

/// What making a backup file is told, where other backup operations may run.
#[derive(Debug, PartialEq, Eq)]
pub enum LockedFileEvent {
    Start,
    Locked,
    Created { result: Result<(), BackupError> },
    Released { result: Result<(), BackupError> },
}

/// The step that follows an event: the lock is let go of whether or not there
/// is a file.
pub open spec fn locked_file_next(event: LockedFileEvent) -> LockedFileStep {
    match event {
        LockedFileEvent::Start => LockedFileStep::Lock,
        LockedFileEvent::Locked => LockedFileStep::Create,
        LockedFileEvent::Created { result } => LockedFileStep::Release { result },
        LockedFileEvent::Released { result } => LockedFileStep::Done { result },
    }
}

/// Decides what comes next in making a backup file while no other backup
/// operation runs.
pub fn create_backup_file(event: LockedFileEvent) -> (step: LockedFileStep)
    ensures
        step == locked_file_next(event),
{
    match event {
        LockedFileEvent::Start => LockedFileStep::Lock,
        LockedFileEvent::Locked => LockedFileStep::Create,
        LockedFileEvent::Created { result } => LockedFileStep::Release { result },
        LockedFileEvent::Released { result } => LockedFileStep::Done { result },
    }
}

/// How a request for a backup ends.
#[derive(Debug, PartialEq, Eq)]
pub enum CreateOutcome {
    /// There is no backup.
    Failed,
    /// The bytes of the backup, and the name to offer them under.
    Download { filename: String, bytes: Vec<u8> },
}

/// What a request for a backup wants done next.
#[derive(Debug, PartialEq, Eq)]
pub enum CreateStep {
    /// Make the backup file of this name beside the data directory.
    CreateArchive { filename: String },
    /// Read the backup file.
    ReadArchive { filename: String },
    /// Delete the backup file.
    RemoveArchive { filename: String, bytes: Vec<u8> },
    /// Answer the request.
    Reply { outcome: CreateOutcome },
}

/// What a request for a backup is told.
#[derive(Debug, PartialEq, Eq)]
#[allow(inconsistent_fields)]
pub enum CreateEvent {
    Start { filename: String },
    ArchiveCreated { filename: String, result: Result<(), BackupError> },
    ArchiveRead { filename: String, result: Result<Vec<u8>, BackupError> },
    ArchiveRemoved { filename: String, bytes: Vec<u8>, result: Result<(), BackupError> },
}

/// The step that follows an event. The file is deleted once its bytes are
/// read, and a failure to delete it is no failure of the request.
pub open spec fn create_next(event: CreateEvent) -> CreateStep {
    match event {
        CreateEvent::Start { filename } => CreateStep::CreateArchive { filename },
        CreateEvent::ArchiveCreated { filename, result: Ok(_) } => CreateStep::ReadArchive {
            filename,
        },
        CreateEvent::ArchiveRead { filename, result: Ok(bytes) } => CreateStep::RemoveArchive {
            filename,
            bytes,
        },
        CreateEvent::ArchiveRemoved { filename, bytes, .. } => CreateStep::Reply {
            outcome: CreateOutcome::Download { filename, bytes },
        },
        CreateEvent::ArchiveCreated { result: Err(_), .. }
        | CreateEvent::ArchiveRead { result: Err(_), .. } => CreateStep::Reply {
            outcome: CreateOutcome::Failed,
        },
    }
}

/// Decides what comes next in a request for a backup.
pub fn create_backup(event: CreateEvent) -> (step: CreateStep)
    ensures
        step == create_next(event),
{
    match event {
        CreateEvent::Start { filename } => CreateStep::CreateArchive { filename },
        CreateEvent::ArchiveCreated { filename, result } => match result {
            Ok(()) => CreateStep::ReadArchive { filename },
            Err(_) => CreateStep::Reply { outcome: CreateOutcome::Failed },
        },
        CreateEvent::ArchiveRead { filename, result } => match result {
            Ok(bytes) => CreateStep::RemoveArchive { filename, bytes },
            Err(_) => CreateStep::Reply { outcome: CreateOutcome::Failed },
        },
        CreateEvent::ArchiveRemoved { filename, bytes, .. } => CreateStep::Reply {
            outcome: CreateOutcome::Download { filename, bytes },
        },
    }
}

/// A response that carries a backup.
#[derive(Debug, PartialEq, Eq)]
pub struct Download {
    pub status: u16,
    pub content_type: String,
    pub content_disposition: String,
    pub body: Vec<u8>,
}

impl CreateOutcome {
    /// The response to this outcome, or the status that tells of a failure.
    pub fn reply(self) -> (res: Result<Download, u16>)
        ensures
            match self {
                CreateOutcome::Failed => res == Err::<Download, u16>(500),
                CreateOutcome::Download { filename, bytes } => res matches Ok(download) && {
                    &&& download.status == 200
                    &&& download.content_type@ == "application/gzip"@
                    &&& download.content_disposition@ == attachment(filename@)
                    &&& download.body == bytes
                },
            },
    {
        match self {
            CreateOutcome::Failed => Err(500),
            CreateOutcome::Download { filename, bytes } => Ok(
                Download {
                    status: 200,
                    content_type: "application/gzip".to_owned(),
                    content_disposition: content_disposition(filename.as_str()),
                    body: bytes,
                },
            ),
        }
    }
}

} // verus!
