//! Deleting what is in the way in a data directory.

use vstd::prelude::*;

use crate::error::{BackupError, ErrorKind};
use crate::naming::is_restore_staging;
#[allow(unused_imports)]
use crate::naming::names_staging;

verus! {

/// What a path stands for, without following a symbolic link.
#[derive(Clone, Copy, Debug, PartialEq, Eq, Structural)]
pub enum EntryKind {
    Directory,
    File,
    Symlink,
    Other,
}

/// What deleting a path wants done next.
#[derive(Debug, PartialEq, Eq)]
pub enum RemoveStep {
    /// Find out what the path stands for.
    Inspect,
    /// Delete the directory and all it holds.
    RemoveTree,
    /// Delete the path itself.
    RemoveFile,
    Done(Result<(), BackupError>),
}

/// What deleting a path is told.
#[derive(Debug, PartialEq, Eq)]
pub enum RemoveEvent {
    Start,
    Inspected(Result<EntryKind, BackupError>),
    Removed(Result<(), BackupError>),
}

/// The step that follows an event: only a directory is deleted with all it
/// holds; a link to one is not followed.
pub open spec fn remove_next(event: RemoveEvent) -> RemoveStep {
    match event {
        RemoveEvent::Start => RemoveStep::Inspect,
        RemoveEvent::Inspected(Err(error)) => RemoveStep::Done(Err(error)),
        RemoveEvent::Inspected(Ok(kind)) => if kind is Directory {
            RemoveStep::RemoveTree
        } else {
            RemoveStep::RemoveFile
        },
        RemoveEvent::Removed(result) => RemoveStep::Done(result),
    }
}

/// Decides what comes next in deleting a path.
pub fn remove_path(event: RemoveEvent) -> (step: RemoveStep)
    ensures
        step == remove_next(event),
{
    match event {
        RemoveEvent::Start => RemoveStep::Inspect,
        RemoveEvent::Inspected(Ok(EntryKind::Directory)) => RemoveStep::RemoveTree,
        RemoveEvent::Inspected(Ok(_)) => RemoveStep::RemoveFile,
        RemoveEvent::Inspected(Err(error)) => RemoveStep::Done(Err(error)),
        RemoveEvent::Removed(result) => RemoveStep::Done(result),
    }
}

/// What deleting stale staging directories wants done next.
#[derive(Debug, PartialEq, Eq)]
pub enum CleanupStep {
    /// Begin to list the data directory.
    List,
    /// Read the next entry of the listing.
    ReadEntry,
    /// Delete the entry of this name, which was read last.
    Remove(String),
    Done(Result<(), BackupError>),
}

/// What deleting stale staging directories is told.
#[derive(Debug, PartialEq, Eq)]
pub enum CleanupEvent {
    Start,
    Listed(Result<(), BackupError>),
    EntryRead(Result<Option<String>, BackupError>),
    Removed(Result<(), BackupError>),
}

/// The step that follows an event: a data directory that does not exist holds
/// nothing stale, and of one that does every staging directory is deleted.
pub open spec fn cleanup_next(event: CleanupEvent) -> CleanupStep {
    match event {
        CleanupEvent::Start => CleanupStep::List,
        CleanupEvent::Listed(Ok(_)) | CleanupEvent::Removed(Ok(_)) => CleanupStep::ReadEntry,
        CleanupEvent::Listed(Err(error)) => if error.spec_kind() is NotFound {
            CleanupStep::Done(Ok(()))
        } else {
            CleanupStep::Done(Err(error))
        },
        CleanupEvent::EntryRead(Ok(Some(name))) => if names_staging(name@) {
            CleanupStep::Remove(name)
        } else {
            CleanupStep::ReadEntry
        },
        CleanupEvent::EntryRead(Ok(None)) => CleanupStep::Done(Ok(())),
        CleanupEvent::EntryRead(Err(error)) | CleanupEvent::Removed(Err(error)) =>
            CleanupStep::Done(Err(error)),
    }
}

/// Decides what comes next in deleting stale staging directories.
pub fn cleanup_restore_staging(event: CleanupEvent) -> (step: CleanupStep)
    ensures
        step == cleanup_next(event),
{
    match event {
        CleanupEvent::Start => CleanupStep::List,
        CleanupEvent::Listed(Ok(())) => CleanupStep::ReadEntry,
        CleanupEvent::Listed(Err(error)) => match error.kind() {
            ErrorKind::NotFound => CleanupStep::Done(Ok(())),
            _ => CleanupStep::Done(Err(error)),
        },
        CleanupEvent::EntryRead(Ok(Some(name))) => {
            if is_restore_staging(name.as_str()) {
                CleanupStep::Remove(name)
            } else {
                CleanupStep::ReadEntry
            }
        },
        CleanupEvent::EntryRead(Ok(None)) => CleanupStep::Done(Ok(())),
        CleanupEvent::EntryRead(Err(error)) => CleanupStep::Done(Err(error)),
        CleanupEvent::Removed(Ok(())) => CleanupStep::ReadEntry,
        CleanupEvent::Removed(Err(error)) => CleanupStep::Done(Err(error)),
    }
}

/// What emptying a directory wants done next. Each step carries the name of
/// the one entry that stays, if there is one.
#[derive(Debug, PartialEq, Eq)]
pub enum ClearStep {
    /// Create the directory and its parents where they are missing.
    CreateDirectory { keep: Option<String> },
    /// Begin to list the directory.
    List { keep: Option<String> },
    /// Read the next entry of the listing.
    ReadEntry { keep: Option<String> },
    /// Delete the entry of this name, which was read last.
    Remove { keep: Option<String>, name: String },
    Done { result: Result<(), BackupError> },
}

/// What emptying a directory is told.
#[derive(Debug, PartialEq, Eq)]
#[allow(inconsistent_fields)]
pub enum ClearEvent {
    Start { keep: Option<String> },
    DirectoryCreated { keep: Option<String>, result: Result<(), BackupError> },
    Listed { keep: Option<String>, result: Result<(), BackupError> },
    EntryRead { keep: Option<String>, result: Result<Option<String>, BackupError> },
    Removed { keep: Option<String>, result: Result<(), BackupError> },
}

/// Whether the entry of this name stays.
pub open spec fn is_kept(keep: Option<String>, name: Seq<char>) -> bool {
    keep matches Some(kept) && kept@ == name
}

/// The step that follows an event: every entry but the kept one is deleted,
/// and the first failure ends it.
pub open spec fn clear_next(event: ClearEvent) -> ClearStep {
    match event {
        ClearEvent::Start { keep } => ClearStep::CreateDirectory { keep },
        ClearEvent::DirectoryCreated { keep, result: Ok(_) } => ClearStep::List { keep },
        ClearEvent::Listed { keep, result: Ok(_) } => ClearStep::ReadEntry { keep },
        ClearEvent::EntryRead { keep, result: Ok(Some(name)) } => if is_kept(keep, name@) {
            ClearStep::ReadEntry { keep }
        } else {
            ClearStep::Remove { keep, name }
        },
        ClearEvent::EntryRead { keep, result: Ok(None) } => ClearStep::Done { result: Ok(()) },
        ClearEvent::Removed { keep, result: Ok(_) } => ClearStep::ReadEntry { keep },
        ClearEvent::DirectoryCreated { result: Err(error), .. }
        | ClearEvent::Listed { result: Err(error), .. }
        | ClearEvent::EntryRead { result: Err(error), .. }
        | ClearEvent::Removed { result: Err(error), .. } => ClearStep::Done { result: Err(error) },
    }
}

/// Decides what comes next in emptying a directory.
pub fn clear_directory_contents_except(event: ClearEvent) -> (step: ClearStep)
    ensures
        step == clear_next(event),
{
    match event {
        ClearEvent::Start { keep } => ClearStep::CreateDirectory { keep },
        ClearEvent::DirectoryCreated { keep, result } => match result {
            Ok(()) => ClearStep::List { keep },
            Err(error) => ClearStep::Done { result: Err(error) },
        },
        ClearEvent::Listed { keep, result } => match result {
            Ok(()) => ClearStep::ReadEntry { keep },
            Err(error) => ClearStep::Done { result: Err(error) },
        },
        ClearEvent::EntryRead { keep, result } => match result {
            Ok(Some(name)) => {
                let stays: bool = match &keep {
                    Some(kept) => *kept == name,
                    None => false,
                };
                if stays {
                    ClearStep::ReadEntry { keep }
                } else {
                    ClearStep::Remove { keep, name }
                }
            },
            Ok(None) => ClearStep::Done { result: Ok(()) },
            Err(error) => ClearStep::Done { result: Err(error) },
        },
        ClearEvent::Removed { keep, result } => match result {
            Ok(()) => ClearStep::ReadEntry { keep },
            Err(error) => ClearStep::Done { result: Err(error) },
        },
    }
}

} // verus!
