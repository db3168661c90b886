//! The permissions of restored data.

use vstd::prelude::*;

use crate::directory::EntryKind;
use crate::error::BackupError;

verus! {

/// The mode of a restored directory.
pub const DIRECTORY_MODE: u32 = 0o755;

/// The mode of a restored file.
pub const FILE_MODE: u32 = 0o644;

/// What setting the permissions in one directory wants done next.
#[derive(Debug, PartialEq, Eq)]
pub enum PermissionsStep {
    /// Begin to list the directory.
    List,
    /// Read the next entry of the listing.
    ReadEntry,
    /// Find out what the entry that was read last is.
    Inspect,
    /// Set the mode of the entry that was read last.
    SetMode { kind: EntryKind, mode: u32 },
    /// Set the permissions in the directory that was read last.
    Descend,
    Done(Result<(), BackupError>),
}

/// What setting the permissions in one directory is told.
#[derive(Debug, PartialEq, Eq)]
pub enum PermissionsEvent {
    Start,
    Listed(Result<(), BackupError>),
    /// Whether there is another entry.
    EntryRead(Result<bool, BackupError>),
    Inspected(Result<EntryKind, BackupError>),
    ModeSet { kind: EntryKind, result: Result<(), BackupError> },
    Descended(Result<(), BackupError>),
}

/// The mode for an entry. A symbolic link has none of its own.
pub open spec fn mode_for(kind: EntryKind) -> Option<u32> {
    match kind {
        EntryKind::Directory => Some(DIRECTORY_MODE),
        EntryKind::Symlink => None,
        _ => Some(FILE_MODE),
    }
}

/// The step that follows an event: each entry that is no symbolic link gets
/// its mode, a directory before what it holds; the first failure ends it.
pub open spec fn permissions_next(event: PermissionsEvent) -> PermissionsStep {
    match event {
        PermissionsEvent::Start => PermissionsStep::List,
        PermissionsEvent::Listed(Ok(_)) => PermissionsStep::ReadEntry,
        PermissionsEvent::EntryRead(Ok(more)) => if more {
            PermissionsStep::Inspect
        } else {
            PermissionsStep::Done(Ok(()))
        },
        PermissionsEvent::Inspected(Ok(kind)) => match mode_for(kind) {
            Some(mode) => PermissionsStep::SetMode { kind, mode },
            None => PermissionsStep::ReadEntry,
        },
        PermissionsEvent::ModeSet { kind, result: Ok(_) } => if kind is Directory {
            PermissionsStep::Descend
        } else {
            PermissionsStep::ReadEntry
        },
        PermissionsEvent::Descended(Ok(_)) => PermissionsStep::ReadEntry,
        PermissionsEvent::Listed(Err(error))
        | PermissionsEvent::EntryRead(Err(error))
        | PermissionsEvent::Inspected(Err(error))
        | PermissionsEvent::ModeSet { result: Err(error), .. }
        | PermissionsEvent::Descended(Err(error)) => PermissionsStep::Done(Err(error)),
    }
}

/// Decides what comes next in setting the permissions in one directory.
pub fn fix_permissions(event: PermissionsEvent) -> (step: PermissionsStep)
    ensures
        step == permissions_next(event),
{
    match event {
        PermissionsEvent::Start => PermissionsStep::List,
        PermissionsEvent::Listed(Ok(())) => PermissionsStep::ReadEntry,
        PermissionsEvent::Listed(Err(error)) => PermissionsStep::Done(Err(error)),
        PermissionsEvent::EntryRead(Ok(true)) => PermissionsStep::Inspect,
        PermissionsEvent::EntryRead(Ok(false)) => PermissionsStep::Done(Ok(())),
        PermissionsEvent::EntryRead(Err(error)) => PermissionsStep::Done(Err(error)),
        PermissionsEvent::Inspected(Ok(kind)) => match kind {
            EntryKind::Directory => PermissionsStep::SetMode { kind, mode: DIRECTORY_MODE },
            EntryKind::Symlink => PermissionsStep::ReadEntry,
            _ => PermissionsStep::SetMode { kind, mode: FILE_MODE },
        },
        PermissionsEvent::Inspected(Err(error)) => PermissionsStep::Done(Err(error)),
        PermissionsEvent::ModeSet { kind, result } => match result {
            Ok(()) => match kind {
                EntryKind::Directory => PermissionsStep::Descend,
                _ => PermissionsStep::ReadEntry,
            },
            Err(error) => PermissionsStep::Done(Err(error)),
        },
        PermissionsEvent::Descended(Ok(())) => PermissionsStep::ReadEntry,
        PermissionsEvent::Descended(Err(error)) => PermissionsStep::Done(Err(error)),
    }
}

} // verus!
