//! Putting a prepared backup in place of the data.

use vstd::prelude::*;

use crate::error::BackupError;

verus! {

/// What putting a prepared backup in place wants done next. Each step carries
/// the name of the staging directory.
#[derive(Debug, PartialEq, Eq)]
pub enum ActivateStep {
    /// Delete all in the data directory but the staging directory.
    Clear { staging: String },
    /// Begin to list the unpacked data directory.
    ListStaged { staging: String },
    /// Read the next entry of the listing.
    ReadEntry { staging: String },
    /// Move the entry of this name, which was read last, into the data
    /// directory under the same name.
    Move { staging: String, name: String },
    /// Delete the staging directory and all it holds.
    RemoveStaging { staging: String },
    Done { result: Result<(), BackupError> },
}

/// What putting a prepared backup in place is told.
#[derive(Debug, PartialEq, Eq)]
#[allow(inconsistent_fields)]
pub enum ActivateEvent {
    Start { staging: String },
    Cleared { staging: String, result: Result<(), BackupError> },
    StagedListed { staging: String, result: Result<(), BackupError> },
    EntryRead { staging: String, result: Result<Option<String>, BackupError> },
    Moved { staging: String, result: Result<(), BackupError> },
    StagingRemoved { result: Result<(), BackupError> },
}

/// The step that follows an event: the data directory is emptied, everything
/// in the backup is moved into it, and the first failure ends it.
pub open spec fn activate_next(event: ActivateEvent) -> ActivateStep {
    match event {
        ActivateEvent::Start { staging } => ActivateStep::Clear { staging },
        ActivateEvent::Cleared { staging, result: Ok(_) } => ActivateStep::ListStaged { staging },
        ActivateEvent::StagedListed { staging, result: Ok(_) }
        | ActivateEvent::Moved { staging, result: Ok(_) } => ActivateStep::ReadEntry { staging },
        ActivateEvent::EntryRead { staging, result: Ok(Some(name)) } => ActivateStep::Move {
            staging,
            name,
        },
        ActivateEvent::EntryRead { staging, result: Ok(None) } => ActivateStep::RemoveStaging {
            staging,
        },
        ActivateEvent::StagingRemoved { result } => ActivateStep::Done { result },
        ActivateEvent::Cleared { result: Err(error), .. }
        | ActivateEvent::StagedListed { result: Err(error), .. }
        | ActivateEvent::EntryRead { result: Err(error), .. }
        | ActivateEvent::Moved { result: Err(error), .. } => ActivateStep::Done {
            result: Err(error),
        },
    }
}

/// Decides what comes next in putting a prepared backup in place.
pub fn activate_prepared_backup(event: ActivateEvent) -> (step: ActivateStep)
    ensures
        step == activate_next(event),
{
    match event {
        ActivateEvent::Start { staging } => ActivateStep::Clear { staging },
        ActivateEvent::Cleared { staging, result } => match result {
            Ok(()) => ActivateStep::ListStaged { staging },
            Err(error) => ActivateStep::Done { result: Err(error) },
        },
        ActivateEvent::StagedListed { staging, result } => match result {
            Ok(()) => ActivateStep::ReadEntry { staging },
            Err(error) => ActivateStep::Done { result: Err(error) },
        },
        ActivateEvent::EntryRead { staging, result } => match result {
            Ok(Some(name)) => ActivateStep::Move { staging, name },
            Ok(None) => ActivateStep::RemoveStaging { staging },
            Err(error) => ActivateStep::Done { result: Err(error) },
        },
        ActivateEvent::Moved { staging, result } => match result {
            Ok(()) => ActivateStep::ReadEntry { staging },
            Err(error) => ActivateStep::Done { result: Err(error) },
        },
        ActivateEvent::StagingRemoved { result } => ActivateStep::Done { result },
    }
}

/// What restoring a backup file wants done next.
#[derive(Debug, PartialEq, Eq)]
pub enum RestoreFileStep {
    /// Unpack the file into a staging directory and check it.
    Prepare,
    /// Put the contents of the staging directory in place of the data.
    Activate { staging: String },
    Done { result: Result<(), BackupError> },
}

/// What restoring a backup file is told.
#[derive(Debug, PartialEq, Eq)]
#[allow(inconsistent_fields)]
pub enum RestoreFileEvent {
    Start,
    Prepared { result: Result<String, BackupError> },
    Activated { result: Result<(), BackupError> },
}

/// The step that follows an event: only a prepared backup is put in place.
pub open spec fn restore_file_next(event: RestoreFileEvent) -> RestoreFileStep {
    match event {
        RestoreFileEvent::Start => RestoreFileStep::Prepare,
        RestoreFileEvent::Prepared { result: Ok(staging) } => RestoreFileStep::Activate { staging },
        RestoreFileEvent::Prepared { result: Err(error) } => RestoreFileStep::Done {
            result: Err(error),
        },
        RestoreFileEvent::Activated { result } => RestoreFileStep::Done { result },
    }
}

/// Decides what comes next in restoring a backup file.
pub fn restore_backup_file(event: RestoreFileEvent) -> (step: RestoreFileStep)
    ensures
        step == restore_file_next(event),
{
    match event {
        RestoreFileEvent::Start => RestoreFileStep::Prepare,
        RestoreFileEvent::Prepared { result } => match result {
            Ok(staging) => RestoreFileStep::Activate { staging },
            Err(error) => RestoreFileStep::Done { result: Err(error) },
        },
        RestoreFileEvent::Activated { result } => RestoreFileStep::Done { result },
    }
}

} // verus!
