//! Restoring an uploaded backup.

use vstd::prelude::*;

use crate::error::BackupError;
use crate::reply::RestoreOutcome;

verus! {

/// What a running restore has to remember.
#[derive(Debug, PartialEq, Eq)]
pub struct Session {
    /// The path of the recovery point, as it is told to the requester.
    pub recovery: String,
    /// The address of the database in the data directory.
    pub database: String,
    /// Whether an uploaded file has been saved.
    pub file_received: bool,
    /// The last one-time code in the request.
    pub totp_code: Option<String>,
}

/// One part of a request. It need not have a name.
#[derive(Debug, PartialEq, Eq)]
pub struct Field {
    pub name: Option<String>,
}

/// What a restore wants done next.
#[derive(Debug, PartialEq, Eq)]
pub enum RestoreStep {
    /// Read the next part of the request.
    ReadField { session: Session },
    /// Create the file for the upload, empty.
    CreateUpload { session: Session },
    /// Read the next piece of the present part.
    ReadChunk { session: Session },
    /// Append a piece to the upload.
    WriteChunk { session: Session, chunk: Vec<u8> },
    /// Complete and close the upload.
    FlushUpload { session: Session },
    /// Read the present part as text.
    ReadCode { session: Session },
    /// Find out whether a one-time code is needed.
    CheckTotp { session: Session },
    /// Check a one-time code.
    VerifyCode { session: Session, code: String },
    /// Wait for other backup operations to end, and take hold of the
    /// connections to the database.
    LockDatabase { session: Session },
    /// Write the log of the database back into it.
    Checkpoint { session: Session },
    /// Save the present data as the recovery point.
    CreateRecoveryPoint { session: Session },
    /// Unpack the upload into a staging directory and check it.
    PrepareUpload { session: Session },
    /// Close the connections to the database.
    ClosePool { session: Session, staging: String },
    /// Put the contents of the staging directory in place of the data.
    Activate { session: Session, staging: String },
    /// Give the data its usual permissions.
    FixPermissions { session: Session },
    /// Open the database.
    OpenDatabase { session: Session },
    /// Put the recovery point in place of the data.
    RestoreRecoveryPoint { session: Session, error: BackupError },
    /// Give the data its usual permissions, after going back.
    FixRollbackPermissions { session: Session, error: BackupError },
    /// Open the database, after going back.
    OpenRollbackDatabase { session: Session, error: BackupError },
    /// Delete the uploaded file.
    RemoveUpload { outcome: RestoreOutcome },
    /// Delete the recovery point.
    RemoveRecoveryPoint { outcome: RestoreOutcome },
    /// Hand out connections to the database that was opened last.
    InstallPool { outcome: RestoreOutcome },
    /// Let go of the connections to the database.
    ReleasePool { outcome: RestoreOutcome },
    /// Let other backup operations go on.
    ReleaseOperations { outcome: RestoreOutcome },
    /// Read the tasks anew.
    ReloadTasks { outcome: RestoreOutcome },
    /// Read the subscriptions anew.
    ReloadSubscriptions { outcome: RestoreOutcome },
    /// Read the backup schedule anew.
    ReloadBackupJob { outcome: RestoreOutcome },
    /// Answer the request.
    Reply { outcome: RestoreOutcome },
}

/// What a restore is told: that it begins, or what came of its last step.
#[derive(Debug, PartialEq, Eq)]
#[allow(inconsistent_fields)]
pub enum RestoreEvent {
    Start { recovery: String, database: String },
    FieldRead { session: Session, result: Result<Option<Field>, ()> },
    UploadCreated { session: Session, result: Result<(), BackupError> },
    ChunkRead { session: Session, result: Result<Option<Vec<u8>>, ()> },
    ChunkWritten { session: Session, result: Result<(), BackupError> },
    UploadFlushed { session: Session, result: Result<(), BackupError> },
    CodeRead { session: Session, result: Result<String, ()> },
    TotpChecked { session: Session, result: Result<bool, ()> },
    CodeVerified { session: Session, result: Result<bool, ()> },
    DatabaseLocked { session: Session },
    /// The count of busy connections, or why there is none.
    Checkpointed { session: Session, result: Result<i64, String> },
    RecoveryPointCreated { session: Session, result: Result<(), BackupError> },
    /// The name of the staging directory, or why there is none.
    UploadPrepared { session: Session, result: Result<String, BackupError> },
    PoolClosed { session: Session, staging: String },
    Activated { session: Session, result: Result<(), BackupError> },
    PermissionsFixed { session: Session, result: Result<(), BackupError> },
    DatabaseOpened { session: Session, result: Result<(), BackupError> },
    RecoveryPointRestored {
        session: Session,
        error: BackupError,
        result: Result<(), BackupError>,
    },
    RollbackPermissionsFixed {
        session: Session,
        error: BackupError,
        result: Result<(), BackupError>,
    },
    RollbackDatabaseOpened {
        session: Session,
        error: BackupError,
        result: Result<(), BackupError>,
    },
    UploadRemoved { outcome: RestoreOutcome, result: Result<(), BackupError> },
    RecoveryPointRemoved { outcome: RestoreOutcome, result: Result<(), BackupError> },
    PoolInstalled { outcome: RestoreOutcome },
    PoolReleased { outcome: RestoreOutcome },
    OperationsReleased { outcome: RestoreOutcome },
    TasksReloaded { outcome: RestoreOutcome, result: Result<(), String> },
    SubscriptionsReloaded { outcome: RestoreOutcome, result: Result<(), String> },
    BackupJobReloaded { outcome: RestoreOutcome, result: Result<(), String> },
}

/// What a part of the request is for.
pub open spec fn carries(field: Field, name: Seq<char>) -> bool {
    field.name matches Some(given) && given@ == name
}

/// The step after a part of the request was asked for: a file is saved, a
/// one-time code is read, any other part is passed over. At the end of the
/// request there has to be a file.
pub open spec fn after_field(session: Session, result: Result<Option<Field>, ()>) -> RestoreStep {
    match result {
        Err(_) => RestoreStep::RemoveUpload { outcome: RestoreOutcome::UploadInterrupted },
        Ok(Some(field)) => if carries(field, "file"@) {
            RestoreStep::CreateUpload { session }
        } else if carries(field, "totp_code"@) {
            RestoreStep::ReadCode { session }
        } else {
            RestoreStep::ReadField { session }
        },
        Ok(None) => if session.file_received {
            RestoreStep::CheckTotp { session }
        } else {
            RestoreStep::Reply { outcome: RestoreOutcome::NoUpload }
        },
    }
}

/// The step after it was asked whether a one-time code is needed.
pub open spec fn after_totp(session: Session, result: Result<bool, ()>) -> RestoreStep {
    match (result, session.totp_code) {
        (Err(_), _) => RestoreStep::RemoveUpload { outcome: RestoreOutcome::TotpUnavailable },
        (Ok(false), _) => RestoreStep::LockDatabase { session },
        (Ok(true), Some(code)) => RestoreStep::VerifyCode { session, code },
        (Ok(true), None) => RestoreStep::RemoveUpload { outcome: RestoreOutcome::CodeRequired },
    }
}

/// The step after the database that replaces the data was asked to open, or
/// the replacement failed before that: the restore succeeds, or the recovery
/// point is put back.
pub open spec fn after_replacement(session: Session, result: Result<(), BackupError>) -> RestoreStep {
    match result {
        Ok(_) => RestoreStep::InstallPool { outcome: RestoreOutcome::Restored },
        Err(error) => RestoreStep::RestoreRecoveryPoint { session, error },
    }
}

/// The step after going back ended.
pub open spec fn after_rollback(
    session: Session,
    error: BackupError,
    result: Result<(), BackupError>,
) -> RestoreStep {
    RestoreStep::RemoveUpload {
        outcome: match result {
            Ok(_) => RestoreOutcome::RolledBack { error, recovery: session.recovery },
            Err(rollback_error) => RestoreOutcome::RollbackFailed {
                error,
                rollback_error,
                recovery: session.recovery,
            },
        },
    }
}

/// Whether the recovery point is deleted before the answer: it is no longer
/// needed, or was never complete.
pub open spec fn drops_recovery_point(outcome: RestoreOutcome) -> bool {
    outcome is Restored || outcome is RecoveryPointFailed || outcome is BackupRefused
}

/// The step that follows an event.
pub open spec fn restore_next(event: RestoreEvent) -> RestoreStep {
    match event {
        RestoreEvent::Start { recovery, database } => RestoreStep::ReadField {
            session: Session { recovery, database, file_received: false, totp_code: None },
        },
        RestoreEvent::FieldRead { session, result } => after_field(session, result),
        RestoreEvent::UploadCreated { session, result } => match result {
            Ok(_) => RestoreStep::ReadChunk { session },
            Err(error) => RestoreStep::Reply { outcome: RestoreOutcome::UploadNotCreated(error) },
        },
        RestoreEvent::ChunkRead { session, result } => match result {
            Ok(Some(chunk)) => RestoreStep::WriteChunk { session, chunk },
            Ok(None) => RestoreStep::FlushUpload { session },
            Err(_) => RestoreStep::RemoveUpload { outcome: RestoreOutcome::UploadIncomplete },
        },
        RestoreEvent::ChunkWritten { session, result } => match result {
            Ok(_) => RestoreStep::ReadChunk { session },
            Err(error) => RestoreStep::RemoveUpload {
                outcome: RestoreOutcome::UploadNotSaved(error),
            },
        },
        RestoreEvent::UploadFlushed { session, result } => match result {
            Ok(_) => RestoreStep::ReadField { session: Session { file_received: true, ..session } },
            Err(error) => RestoreStep::RemoveUpload {
                outcome: RestoreOutcome::UploadNotSaved(error),
            },
        },
        RestoreEvent::CodeRead { session, result } => match result {
            Ok(code) => RestoreStep::ReadField {
                session: Session { totp_code: Some(code), ..session },
            },
            Err(_) => RestoreStep::RemoveUpload { outcome: RestoreOutcome::CodeUnreadable },
        },
        RestoreEvent::TotpChecked { session, result } => after_totp(session, result),
        RestoreEvent::CodeVerified { session, result } => match result {
            Ok(true) => RestoreStep::LockDatabase { session },
            Ok(false) => RestoreStep::RemoveUpload { outcome: RestoreOutcome::WrongCode },
            Err(_) => RestoreStep::RemoveUpload { outcome: RestoreOutcome::CodeNotChecked },
        },
        RestoreEvent::DatabaseLocked { session } => RestoreStep::Checkpoint { session },
        RestoreEvent::Checkpointed { session, result } => match result {
            Ok(busy) => if busy == 0 {
                RestoreStep::CreateRecoveryPoint { session }
            } else {
                RestoreStep::RemoveUpload { outcome: RestoreOutcome::DatabaseBusy }
            },
            Err(text) => RestoreStep::RemoveUpload {
                outcome: RestoreOutcome::CheckpointFailed(text),
            },
        },
        RestoreEvent::RecoveryPointCreated { session, result } => match result {
            Ok(_) => RestoreStep::PrepareUpload { session },
            Err(error) => RestoreStep::RemoveUpload {
                outcome: RestoreOutcome::RecoveryPointFailed(error),
            },
        },
        RestoreEvent::UploadPrepared { session, result } => match result {
            Ok(staging) => RestoreStep::ClosePool { session, staging },
            Err(error) => RestoreStep::RemoveUpload {
                outcome: RestoreOutcome::BackupRefused(error),
            },
        },
        RestoreEvent::PoolClosed { session, staging } => RestoreStep::Activate { session, staging },
        RestoreEvent::Activated { session, result } => match result {
            Ok(_) => RestoreStep::FixPermissions { session },
            Err(_) => after_replacement(session, result),
        },
        RestoreEvent::PermissionsFixed { session, .. } => RestoreStep::OpenDatabase { session },
        RestoreEvent::DatabaseOpened { session, result } => after_replacement(session, result),
        RestoreEvent::RecoveryPointRestored { session, error, result } => match result {
            Ok(_) => RestoreStep::FixRollbackPermissions { session, error },
            Err(_) => after_rollback(session, error, result),
        },
        RestoreEvent::RollbackPermissionsFixed { session, error, .. } =>
            RestoreStep::OpenRollbackDatabase { session, error },
        RestoreEvent::RollbackDatabaseOpened { session, error, result } =>
            after_rollback(session, error, result),
        RestoreEvent::UploadRemoved { outcome, .. } => if drops_recovery_point(outcome) {
            RestoreStep::RemoveRecoveryPoint { outcome }
        } else if outcome is RolledBack {
            RestoreStep::InstallPool { outcome }
        } else {
            RestoreStep::Reply { outcome }
        },
        RestoreEvent::RecoveryPointRemoved { outcome, .. } => if outcome is Restored {
            RestoreStep::ReleaseOperations { outcome }
        } else {
            RestoreStep::Reply { outcome }
        },
        RestoreEvent::PoolInstalled { outcome } => if outcome is Restored {
            RestoreStep::ReleasePool { outcome }
        } else {
            RestoreStep::Reply { outcome }
        },
        RestoreEvent::PoolReleased { outcome } => RestoreStep::RemoveUpload { outcome },
        RestoreEvent::OperationsReleased { outcome } => RestoreStep::ReloadTasks { outcome },
        RestoreEvent::TasksReloaded { outcome, .. } => RestoreStep::ReloadSubscriptions { outcome },
        RestoreEvent::SubscriptionsReloaded { outcome, .. } =>
            RestoreStep::ReloadBackupJob { outcome },
        RestoreEvent::BackupJobReloaded { outcome, .. } => RestoreStep::Reply { outcome },
    }
}

fn is_named(field: &Field, name: &str) -> (res: bool)
    ensures
        res == carries(*field, name@),
{
    match &field.name {
        Some(given) => *given == name.to_owned(),
        None => false,
    }
}

/// Decides what comes next in a restore.
pub fn restore_backup(event: RestoreEvent) -> (step: RestoreStep)
    ensures
        step == restore_next(event),
{
    match event {
        RestoreEvent::Start { recovery, database } => RestoreStep::ReadField {
            session: Session { recovery, database, file_received: false, totp_code: None },
        },
        RestoreEvent::FieldRead { session, result } => match result {
            Err(_) => RestoreStep::RemoveUpload { outcome: RestoreOutcome::UploadInterrupted },
            Ok(None) => {
                if session.file_received {
                    RestoreStep::CheckTotp { session }
                } else {
                    RestoreStep::Reply { outcome: RestoreOutcome::NoUpload }
                }
            },
            Ok(Some(field)) => {
                if is_named(&field, "file") {
                    RestoreStep::CreateUpload { session }
                } else if is_named(&field, "totp_code") {
                    RestoreStep::ReadCode { session }
                } else {
                    RestoreStep::ReadField { session }
                }
            },
        },
        RestoreEvent::UploadCreated { session, result } => match result {
            Ok(()) => RestoreStep::ReadChunk { session },
            Err(error) => RestoreStep::Reply { outcome: RestoreOutcome::UploadNotCreated(error) },
        },
        RestoreEvent::ChunkRead { session, result } => match result {
            Ok(Some(chunk)) => RestoreStep::WriteChunk { session, chunk },
            Ok(None) => RestoreStep::FlushUpload { session },
            Err(_) => RestoreStep::RemoveUpload { outcome: RestoreOutcome::UploadIncomplete },
        },
        RestoreEvent::ChunkWritten { session, result } => match result {
            Ok(()) => RestoreStep::ReadChunk { session },
            Err(error) => RestoreStep::RemoveUpload {
                outcome: RestoreOutcome::UploadNotSaved(error),
            },
        },
        RestoreEvent::UploadFlushed { session, result } => match result {
            Ok(()) => RestoreStep::ReadField {
                session: Session { file_received: true, ..session },
            },
            Err(error) => RestoreStep::RemoveUpload {
                outcome: RestoreOutcome::UploadNotSaved(error),
            },
        },
        RestoreEvent::CodeRead { session, result } => match result {
            Ok(code) => RestoreStep::ReadField {
                session: Session { totp_code: Some(code), ..session },
            },
            Err(_) => RestoreStep::RemoveUpload { outcome: RestoreOutcome::CodeUnreadable },
        },
        RestoreEvent::TotpChecked { session, result } => {
            let needed: bool = match result {
                Ok(needed) => needed,
                Err(_) => {
                    return RestoreStep::RemoveUpload { outcome: RestoreOutcome::TotpUnavailable };
                },
            };
            if !needed {
                return RestoreStep::LockDatabase { session };
            }
            let given: Option<String> = match &session.totp_code {
                Some(code) => Some(code.clone()),
                None => None,
            };
            match given {
                Some(code) => RestoreStep::VerifyCode { session, code },
                None => RestoreStep::RemoveUpload { outcome: RestoreOutcome::CodeRequired },
            }
        },
        RestoreEvent::CodeVerified { session, result } => match result {
            Ok(true) => RestoreStep::LockDatabase { session },
            Ok(false) => RestoreStep::RemoveUpload { outcome: RestoreOutcome::WrongCode },
            Err(_) => RestoreStep::RemoveUpload { outcome: RestoreOutcome::CodeNotChecked },
        },
        RestoreEvent::DatabaseLocked { session } => RestoreStep::Checkpoint { session },
        RestoreEvent::Checkpointed { session, result } => match result {
            Ok(busy) => {
                if busy == 0 {
                    RestoreStep::CreateRecoveryPoint { session }
                } else {
                    RestoreStep::RemoveUpload { outcome: RestoreOutcome::DatabaseBusy }
                }
            },
            Err(text) => RestoreStep::RemoveUpload {
                outcome: RestoreOutcome::CheckpointFailed(text),
            },
        },
        RestoreEvent::RecoveryPointCreated { session, result } => match result {
            Ok(()) => RestoreStep::PrepareUpload { session },
            Err(error) => RestoreStep::RemoveUpload {
                outcome: RestoreOutcome::RecoveryPointFailed(error),
            },
        },
        RestoreEvent::UploadPrepared { session, result } => match result {
            Ok(staging) => RestoreStep::ClosePool { session, staging },
            Err(error) => RestoreStep::RemoveUpload {
                outcome: RestoreOutcome::BackupRefused(error),
            },
        },
        RestoreEvent::PoolClosed { session, staging } => RestoreStep::Activate { session, staging },
        RestoreEvent::Activated { session, result } => match result {
            Ok(()) => RestoreStep::FixPermissions { session },
            Err(error) => RestoreStep::RestoreRecoveryPoint { session, error },
        },
        RestoreEvent::PermissionsFixed { session, .. } => RestoreStep::OpenDatabase { session },
        RestoreEvent::DatabaseOpened { session, result } => match result {
            Ok(()) => RestoreStep::InstallPool { outcome: RestoreOutcome::Restored },
            Err(error) => RestoreStep::RestoreRecoveryPoint { session, error },
        },
        RestoreEvent::RecoveryPointRestored { session, error, result } => match result {
            Ok(()) => RestoreStep::FixRollbackPermissions { session, error },
            Err(rollback_error) => {
                let recovery: String = session.recovery;
                RestoreStep::RemoveUpload {
                    outcome: RestoreOutcome::RollbackFailed { error, rollback_error, recovery },
                }
            },
        },
        RestoreEvent::RollbackPermissionsFixed { session, error, .. } =>
            RestoreStep::OpenRollbackDatabase { session, error },
        RestoreEvent::RollbackDatabaseOpened { session, error, result } => {
            let recovery: String = session.recovery;
            match result {
                Ok(()) => RestoreStep::RemoveUpload {
                    outcome: RestoreOutcome::RolledBack { error, recovery },
                },
                Err(rollback_error) => RestoreStep::RemoveUpload {
                    outcome: RestoreOutcome::RollbackFailed { error, rollback_error, recovery },
                },
            }
        },
        RestoreEvent::UploadRemoved { outcome, .. } => match &outcome {
            RestoreOutcome::Restored
            | RestoreOutcome::RecoveryPointFailed(_)
            | RestoreOutcome::BackupRefused(_) => RestoreStep::RemoveRecoveryPoint { outcome },
            RestoreOutcome::RolledBack { .. } => RestoreStep::InstallPool { outcome },
            _ => RestoreStep::Reply { outcome },
        },
        RestoreEvent::RecoveryPointRemoved { outcome, .. } => match &outcome {
            RestoreOutcome::Restored => RestoreStep::ReleaseOperations { outcome },
            _ => RestoreStep::Reply { outcome },
        },
        RestoreEvent::PoolInstalled { outcome } => match &outcome {
            RestoreOutcome::Restored => RestoreStep::ReleasePool { outcome },
            _ => RestoreStep::Reply { outcome },
        },
        RestoreEvent::PoolReleased { outcome } => RestoreStep::RemoveUpload { outcome },
        RestoreEvent::OperationsReleased { outcome } => RestoreStep::ReloadTasks { outcome },
        RestoreEvent::TasksReloaded { outcome, .. } => RestoreStep::ReloadSubscriptions { outcome },
        RestoreEvent::SubscriptionsReloaded { outcome, .. } =>
            RestoreStep::ReloadBackupJob { outcome },
        RestoreEvent::BackupJobReloaded { outcome, .. } => RestoreStep::Reply { outcome },
    }
}

} // verus!
