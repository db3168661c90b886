//! Unpacking an archive beside the data and checking that it is a backup.

use vstd::prelude::*;

use crate::archive::{
    validate_archive_limits, MAX_BACKUP_ENTRIES, MAX_UNPACKED_BACKUP_BYTES,
};
#[allow(unused_imports)]
use crate::archive::{archived, fits, refuses_at};
use crate::directory::EntryKind;
use crate::error::BackupError;
#[allow(unused_imports)]
use crate::walk::{inflated, positions_fit};

verus! {

/// What unpacking an archive wants done next.
#[derive(Debug, PartialEq, Eq)]
pub enum UnpackStep {
    /// Open the archive file.
    OpenArchive,
    /// Read the file that was opened.
    ReadArchive,
    /// Unpack these bytes of an archive into the staging directory.
    Unpack(Vec<u8>),
    Done(Result<(), BackupError>),
}

/// What unpacking an archive is told.
#[derive(Debug, PartialEq, Eq)]
pub enum UnpackEvent {
    Start,
    ArchiveOpened(Result<(), BackupError>),
    /// The bytes of the file, or in words why they cannot be read.
    ArchiveRead(Result<Vec<u8>, String>),
    Unpacked(Result<(), BackupError>),
}

/// Whether the archive stays within the limits of a backup, and its positions
/// within 64 bits.
pub open spec fn fits_backup(bytes: Seq<u8>) -> bool {
    positions_fit(inflated(bytes)) && fits(
        archived(bytes),
        MAX_UNPACKED_BACKUP_BYTES,
        MAX_BACKUP_ENTRIES,
    )
}

/// Whether the step follows the event: a file that opens but cannot be read is
/// no readable archive, and what was read is unpacked if it stays within the
/// limits, and else refused for the first entry that does not.
pub open spec fn unpack_follows(event: UnpackEvent, step: UnpackStep) -> bool {
    match event {
        UnpackEvent::Start => step is OpenArchive,
        UnpackEvent::ArchiveOpened(Ok(_)) => step is ReadArchive,
        UnpackEvent::ArchiveOpened(Err(error)) => step == UnpackStep::Done(Err(error)),
        UnpackEvent::ArchiveRead(Err(text)) => step == UnpackStep::Done(
            Err(BackupError::UnreadableArchive(text)),
        ),
        UnpackEvent::ArchiveRead(Ok(bytes)) => if fits_backup(bytes@) {
            step == UnpackStep::Unpack(bytes)
        } else {
            step matches UnpackStep::Done(Err(error)) && exists|i: int| #[trigger]
                refuses_at(error, bytes@, i, MAX_UNPACKED_BACKUP_BYTES, MAX_BACKUP_ENTRIES)
        },
        UnpackEvent::Unpacked(result) => step == UnpackStep::Done(result),
    }
}

/// Decides what comes next in unpacking an archive.
pub fn unpack_backup_archive(event: UnpackEvent) -> (step: UnpackStep)
    ensures
        unpack_follows(event, step),
{
    match event {
        UnpackEvent::Start => UnpackStep::OpenArchive,
        UnpackEvent::ArchiveOpened(Ok(())) => UnpackStep::ReadArchive,
        UnpackEvent::ArchiveOpened(Err(error)) => UnpackStep::Done(Err(error)),
        UnpackEvent::ArchiveRead(Ok(bytes)) => {
            match validate_archive_limits(
                bytes.as_slice(),
                MAX_UNPACKED_BACKUP_BYTES,
                MAX_BACKUP_ENTRIES,
            ) {
                Ok(()) => UnpackStep::Unpack(bytes),
                Err(error) => UnpackStep::Done(Err(error)),
            }
        },
        UnpackEvent::ArchiveRead(Err(text)) =>
            UnpackStep::Done(Err(BackupError::UnreadableArchive(text))),
        UnpackEvent::Unpacked(result) => UnpackStep::Done(result),
    }
}

/// What preparing a backup wants done next. Each step carries the name of the
/// staging directory.
#[derive(Debug, PartialEq, Eq)]
pub enum PrepareStep {
    /// Delete stale staging directories.
    CleanUp { staging: String },
    /// Create the data directory and its parents where they are missing.
    CreateDataDirectory { staging: String },
    /// Create the staging directory, which must not exist, in the data directory.
    CreateStaging { staging: String },
    /// Unpack the archive into the staging directory.
    Unpack { staging: String },
    /// Find out what the data directory in the staging directory is.
    InspectData { staging: String },
    /// Find out what the database in the unpacked data directory is.
    InspectDatabase { staging: String, data: EntryKind },
    /// Check that database.
    ValidateDatabase { staging: String },
    /// Begin to list the staging directory.
    ListStaging { staging: String },
    /// Read the next entry of the listing.
    ReadEntry { staging: String },
    /// Delete the staging directory and all it holds.
    Discard { staging: String, error: BackupError },
    /// The name of the staging directory, or why there is none.
    Done { result: Result<String, BackupError> },
}

/// What preparing a backup is told.
#[derive(Debug, PartialEq, Eq)]
#[allow(inconsistent_fields)]
pub enum PrepareEvent {
    Start { staging: String },
    CleanedUp { staging: String, result: Result<(), BackupError> },
    DataDirectoryCreated { staging: String, result: Result<(), BackupError> },
    StagingCreated { staging: String, result: Result<(), BackupError> },
    Unpacked { staging: String, result: Result<(), BackupError> },
    /// What was found, if anything.
    DataInspected { staging: String, found: Option<EntryKind> },
    DatabaseInspected { staging: String, data: EntryKind, found: Option<EntryKind> },
    DatabaseValidated { staging: String, result: Result<(), BackupError> },
    StagingListed { staging: String, result: Result<(), BackupError> },
    EntryRead { staging: String, result: Result<Option<String>, BackupError> },
    Discarded { error: BackupError, result: Result<(), BackupError> },
}

/// The step that follows an event. Before the staging directory exists, a
/// failure ends the preparation; afterwards it first deletes that directory.
pub open spec fn prepare_next(event: PrepareEvent) -> PrepareStep {
    match event {
        PrepareEvent::Start { staging } => PrepareStep::CleanUp { staging },
        PrepareEvent::CleanedUp { staging, result: Ok(_) } => PrepareStep::CreateDataDirectory {
            staging,
        },
        PrepareEvent::DataDirectoryCreated { staging, result: Ok(_) } =>
            PrepareStep::CreateStaging { staging },
        PrepareEvent::StagingCreated { staging, result: Ok(_) } => PrepareStep::Unpack { staging },
        PrepareEvent::CleanedUp { result: Err(error), .. }
        | PrepareEvent::DataDirectoryCreated { result: Err(error), .. }
        | PrepareEvent::StagingCreated { result: Err(error), .. } => PrepareStep::Done {
            result: Err(error),
        },
        PrepareEvent::Unpacked { staging, result: Ok(_) } => PrepareStep::InspectData { staging },
        PrepareEvent::DataInspected { staging, found: Some(data) } =>
            PrepareStep::InspectDatabase { staging, data },
        PrepareEvent::DataInspected { staging, found: None } => PrepareStep::Discard {
            staging,
            error: BackupError::MissingDataDirectory,
        },
        PrepareEvent::DatabaseInspected { staging, data, found: Some(database) } => if data
            is Directory && database is File {
            PrepareStep::ValidateDatabase { staging }
        } else {
            PrepareStep::Discard { staging, error: BackupError::InvalidLayout }
        },
        PrepareEvent::DatabaseInspected { staging, data, found: None } => PrepareStep::Discard {
            staging,
            error: BackupError::MissingDatabase,
        },
        PrepareEvent::DatabaseValidated { staging, result: Ok(_) } => PrepareStep::ListStaging {
            staging,
        },
        PrepareEvent::StagingListed { staging, result: Ok(_) } => PrepareStep::ReadEntry {
            staging,
        },
        PrepareEvent::EntryRead { staging, result: Ok(Some(name)) } => if name@ == "data"@ {
            PrepareStep::ReadEntry { staging }
        } else {
            PrepareStep::Discard { staging, error: BackupError::StrayEntries }
        },
        PrepareEvent::EntryRead { staging, result: Ok(None) } => PrepareStep::Done {
            result: Ok(staging),
        },
        PrepareEvent::Unpacked { staging, result: Err(error) }
        | PrepareEvent::DatabaseValidated { staging, result: Err(error) }
        | PrepareEvent::StagingListed { staging, result: Err(error) }
        | PrepareEvent::EntryRead { staging, result: Err(error) } => PrepareStep::Discard {
            staging,
            error,
        },
        PrepareEvent::Discarded { error, .. } => PrepareStep::Done { result: Err(error) },
    }
}

/// Decides what comes next in preparing a backup.
pub fn prepare_backup_file(event: PrepareEvent) -> (step: PrepareStep)
    ensures
        step == prepare_next(event),
{
    match event {
        PrepareEvent::Start { staging } => PrepareStep::CleanUp { staging },
        PrepareEvent::CleanedUp { staging, result } => match result {
            Ok(()) => PrepareStep::CreateDataDirectory { staging },
            Err(error) => PrepareStep::Done { result: Err(error) },
        },
        PrepareEvent::DataDirectoryCreated { staging, result } => match result {
            Ok(()) => PrepareStep::CreateStaging { staging },
            Err(error) => PrepareStep::Done { result: Err(error) },
        },
        PrepareEvent::StagingCreated { staging, result } => match result {
            Ok(()) => PrepareStep::Unpack { staging },
            Err(error) => PrepareStep::Done { result: Err(error) },
        },
        PrepareEvent::Unpacked { staging, result } => match result {
            Ok(()) => PrepareStep::InspectData { staging },
            Err(error) => PrepareStep::Discard { staging, error },
        },
        PrepareEvent::DataInspected { staging, found } => match found {
            Some(data) => PrepareStep::InspectDatabase { staging, data },
            None => PrepareStep::Discard { staging, error: BackupError::MissingDataDirectory },
        },
        PrepareEvent::DatabaseInspected { staging, data, found } => match found {
            Some(database) => {
                if data == EntryKind::Directory && database == EntryKind::File {
                    PrepareStep::ValidateDatabase { staging }
                } else {
                    PrepareStep::Discard { staging, error: BackupError::InvalidLayout }
                }
            },
            None => PrepareStep::Discard { staging, error: BackupError::MissingDatabase },
        },
        PrepareEvent::DatabaseValidated { staging, result } => match result {
            Ok(()) => PrepareStep::ListStaging { staging },
            Err(error) => PrepareStep::Discard { staging, error },
        },
        PrepareEvent::StagingListed { staging, result } => match result {
            Ok(()) => PrepareStep::ReadEntry { staging },
            Err(error) => PrepareStep::Discard { staging, error },
        },
        PrepareEvent::EntryRead { staging, result } => match result {
            Ok(Some(name)) => {
                if name == "data".to_owned() {
                    PrepareStep::ReadEntry { staging }
                } else {
                    PrepareStep::Discard { staging, error: BackupError::StrayEntries }
                }
            },
            Ok(None) => PrepareStep::Done { result: Ok(staging) },
            Err(error) => PrepareStep::Discard { staging, error },
        },
        PrepareEvent::Discarded { error, .. } => PrepareStep::Done { result: Err(error) },
    }
}

} // verus!
