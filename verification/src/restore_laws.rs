//! What holds of every restore, from its start to its answer.

use vstd::prelude::*;

use crate::reply::RestoreOutcome;
use crate::restore::{RestoreEvent, RestoreStep, Session};
#[allow(unused_imports)]
use crate::restore::{carries, drops_recovery_point, restore_next};

verus! {

/// Whether the event is an answer to the step, and not to another one.
pub open spec fn restore_answers(step: RestoreStep, event: RestoreEvent) -> bool {
    match (step, event) {
        (
            RestoreStep::ReadField { session },
            RestoreEvent::FieldRead { session: back, .. },
        ) => session == back,
        (
            RestoreStep::CreateUpload { session },
            RestoreEvent::UploadCreated { session: back, .. },
        ) => session == back,
        (
            RestoreStep::ReadChunk { session },
            RestoreEvent::ChunkRead { session: back, .. },
        ) => session == back,
        (
            RestoreStep::WriteChunk { session, .. },
            RestoreEvent::ChunkWritten { session: back, .. },
        ) => session == back,
        (
            RestoreStep::FlushUpload { session },
            RestoreEvent::UploadFlushed { session: back, .. },
        ) => session == back,
        (RestoreStep::ReadCode { session }, RestoreEvent::CodeRead { session: back, .. }) => session
            == back,
        (
            RestoreStep::CheckTotp { session },
            RestoreEvent::TotpChecked { session: back, .. },
        ) => session == back,
        (
            RestoreStep::VerifyCode { session, .. },
            RestoreEvent::CodeVerified { session: back, .. },
        ) => session == back,
        (
            RestoreStep::LockDatabase { session },
            RestoreEvent::DatabaseLocked { session: back },
        ) => session == back,
        (
            RestoreStep::Checkpoint { session },
            RestoreEvent::Checkpointed { session: back, .. },
        ) => session == back,
        (
            RestoreStep::CreateRecoveryPoint { session },
            RestoreEvent::RecoveryPointCreated { session: back, .. },
        ) => session == back,
        (
            RestoreStep::PrepareUpload { session },
            RestoreEvent::UploadPrepared { session: back, .. },
        ) => session == back,
        (
            RestoreStep::ClosePool { session, staging },
            RestoreEvent::PoolClosed { session: back, staging: back_staging },
        ) => session == back && staging == back_staging,
        (
            RestoreStep::Activate { session, .. },
            RestoreEvent::Activated { session: back, .. },
        ) => session == back,
        (
            RestoreStep::FixPermissions { session },
            RestoreEvent::PermissionsFixed { session: back, .. },
        ) => session == back,
        (
            RestoreStep::OpenDatabase { session },
            RestoreEvent::DatabaseOpened { session: back, .. },
        ) => session == back,
        (
            RestoreStep::RestoreRecoveryPoint { session, error },
            RestoreEvent::RecoveryPointRestored { session: back, error: back_error, .. },
        ) => session == back && error == back_error,
        (
            RestoreStep::FixRollbackPermissions { session, error },
            RestoreEvent::RollbackPermissionsFixed { session: back, error: back_error, .. },
        ) => session == back && error == back_error,
        (
            RestoreStep::OpenRollbackDatabase { session, error },
            RestoreEvent::RollbackDatabaseOpened { session: back, error: back_error, .. },
        ) => session == back && error == back_error,
        (
            RestoreStep::RemoveUpload { outcome },
            RestoreEvent::UploadRemoved { outcome: back, .. },
        ) => outcome == back,
        (
            RestoreStep::RemoveRecoveryPoint { outcome },
            RestoreEvent::RecoveryPointRemoved { outcome: back, .. },
        ) => outcome == back,
        (
            RestoreStep::InstallPool { outcome },
            RestoreEvent::PoolInstalled { outcome: back },
        ) => outcome == back,
        (
            RestoreStep::ReleasePool { outcome },
            RestoreEvent::PoolReleased { outcome: back },
        ) => outcome == back,
        (
            RestoreStep::ReleaseOperations { outcome },
            RestoreEvent::OperationsReleased { outcome: back },
        ) => outcome == back,
        (
            RestoreStep::ReloadTasks { outcome },
            RestoreEvent::TasksReloaded { outcome: back, .. },
        ) => outcome == back,
        (
            RestoreStep::ReloadSubscriptions { outcome },
            RestoreEvent::SubscriptionsReloaded { outcome: back, .. },
        ) => outcome == back,
        (
            RestoreStep::ReloadBackupJob { outcome },
            RestoreEvent::BackupJobReloaded { outcome: back, .. },
        ) => outcome == back,
        _ => false,
    }
}

/// Whether the event at `i` answers the step that follows from the one before.
pub open spec fn restore_follows(run: Seq<RestoreEvent>, i: int) -> bool {
    restore_answers(restore_next(run[i - 1]), run[i])
}

/// Whether the events are those of one restore: the first starts it, and each
/// other answers the step that follows from the event before it.
pub open spec fn is_restore(run: Seq<RestoreEvent>) -> bool {
    &&& run.len() > 0
    &&& run[0] is Start
    &&& forall|i: int| 0 < i < run.len() ==> #[trigger] restore_follows(run, i)
}

/// An uploaded file was saved in full.
pub open spec fn upload_saved(event: RestoreEvent) -> bool {
    event matches RestoreEvent::UploadFlushed { result, .. } && result is Ok
}

/// No one-time code is needed, or the one that was given is right.
pub open spec fn code_cleared(event: RestoreEvent) -> bool {
    ||| event matches RestoreEvent::TotpChecked { result, .. } && result == Ok::<bool, ()>(false)
    ||| event matches RestoreEvent::CodeVerified { result, .. } && result == Ok::<bool, ()>(true)
}

/// The log of the database is written back, and no connection was busy.
pub open spec fn database_rested(event: RestoreEvent) -> bool {
    event matches RestoreEvent::Checkpointed { result, .. } && result == Ok::<i64, String>(0)
}

/// The present data is saved as the recovery point.
pub open spec fn data_saved(event: RestoreEvent) -> bool {
    event matches RestoreEvent::RecoveryPointCreated { result, .. } && result is Ok
}

/// The upload was unpacked and found to be a backup.
pub open spec fn backup_accepted(event: RestoreEvent) -> bool {
    event matches RestoreEvent::UploadPrepared { result, .. } && result is Ok
}

/// Whether the step changes the data or its database connections.
pub open spec fn changes_data(step: RestoreStep) -> bool {
    ||| step is ClosePool
    ||| step is Activate
    ||| step is FixPermissions
    ||| step is OpenDatabase
    ||| step is RestoreRecoveryPoint
    ||| step is FixRollbackPermissions
    ||| step is OpenRollbackDatabase
    ||| step is InstallPool
}

/// Whether the outcome is that of a restore that got to the data.
pub open spec fn got_to_data(outcome: RestoreOutcome) -> bool {
    outcome is Restored || outcome is RolledBack || outcome is RollbackFailed
}

/// The session that a step carries.
pub open spec fn session_of(step: RestoreStep) -> Option<Session> {
    match step {
        RestoreStep::ReadField { session } => Some(session),
        RestoreStep::CreateUpload { session } => Some(session),
        RestoreStep::ReadChunk { session } => Some(session),
        RestoreStep::WriteChunk { session, .. } => Some(session),
        RestoreStep::FlushUpload { session } => Some(session),
        RestoreStep::ReadCode { session } => Some(session),
        RestoreStep::CheckTotp { session } => Some(session),
        RestoreStep::VerifyCode { session, .. } => Some(session),
        RestoreStep::LockDatabase { session } => Some(session),
        RestoreStep::Checkpoint { session } => Some(session),
        RestoreStep::CreateRecoveryPoint { session } => Some(session),
        RestoreStep::PrepareUpload { session } => Some(session),
        RestoreStep::ClosePool { session, .. } => Some(session),
        RestoreStep::Activate { session, .. } => Some(session),
        RestoreStep::FixPermissions { session } => Some(session),
        RestoreStep::OpenDatabase { session } => Some(session),
        RestoreStep::RestoreRecoveryPoint { session, .. } => Some(session),
        RestoreStep::FixRollbackPermissions { session, .. } => Some(session),
        RestoreStep::OpenRollbackDatabase { session, .. } => Some(session),
        _ => None,
    }
}

/// The outcome that a step carries.
pub open spec fn outcome_of(step: RestoreStep) -> Option<RestoreOutcome> {
    match step {
        RestoreStep::RemoveUpload { outcome } => Some(outcome),
        RestoreStep::RemoveRecoveryPoint { outcome } => Some(outcome),
        RestoreStep::InstallPool { outcome } => Some(outcome),
        RestoreStep::ReleasePool { outcome } => Some(outcome),
        RestoreStep::ReleaseOperations { outcome } => Some(outcome),
        RestoreStep::ReloadTasks { outcome } => Some(outcome),
        RestoreStep::ReloadSubscriptions { outcome } => Some(outcome),
        RestoreStep::ReloadBackupJob { outcome } => Some(outcome),
        RestoreStep::Reply { outcome } => Some(outcome),
        _ => None,
    }
}

/// How far a restore has got: nothing checked, upload saved, code cleared,
/// database at rest, data saved, backup accepted.
pub open spec fn stage(step: RestoreStep) -> int {
    match step {
        RestoreStep::CheckTotp { .. } | RestoreStep::VerifyCode { .. } => 1,
        RestoreStep::LockDatabase { .. } | RestoreStep::Checkpoint { .. } => 2,
        RestoreStep::CreateRecoveryPoint { .. } => 3,
        RestoreStep::PrepareUpload { .. } => 4,
        RestoreStep::ClosePool { .. }
        | RestoreStep::Activate { .. }
        | RestoreStep::FixPermissions { .. }
        | RestoreStep::OpenDatabase { .. }
        | RestoreStep::RestoreRecoveryPoint { .. }
        | RestoreStep::FixRollbackPermissions { .. }
        | RestoreStep::OpenRollbackDatabase { .. } => 5,
        _ => match outcome_of(step) {
            Some(outcome) => if got_to_data(outcome) {
                5
            } else {
                0
            },
            None => 0,
        },
    }
}

/// Some event up to the one at `last` is a saved upload.
pub open spec fn had_upload(run: Seq<RestoreEvent>, last: int) -> bool {
    exists|j: int| 0 <= j <= last && #[trigger] upload_saved(run[j])
}

/// Some event up to the one at `last` clears the request of the one-time code.
pub open spec fn had_clearance(run: Seq<RestoreEvent>, last: int) -> bool {
    exists|j: int| 0 <= j <= last && #[trigger] code_cleared(run[j])
}

/// Some event up to the one at `last` says that the database is at rest.
pub open spec fn had_rest(run: Seq<RestoreEvent>, last: int) -> bool {
    exists|j: int| 0 <= j <= last && #[trigger] database_rested(run[j])
}

/// Some event up to the one at `last` says that the data is saved.
pub open spec fn had_recovery_point(run: Seq<RestoreEvent>, last: int) -> bool {
    exists|j: int| 0 <= j <= last && #[trigger] data_saved(run[j])
}

/// Some event up to the one at `last` says that the upload is a backup.
pub open spec fn had_backup(run: Seq<RestoreEvent>, last: int) -> bool {
    exists|j: int| 0 <= j <= last && #[trigger] backup_accepted(run[j])
}

pub(crate) proof fn one_step_of_progress(before: RestoreStep, event: RestoreEvent)
    requires
        restore_answers(before, event),
    ensures
        ({
            let after = restore_next(event);
            &&& stage(after) >= 1 ==> stage(before) >= 1 || (session_of(before) matches Some(s)
                && s.file_received)
            &&& (session_of(after) matches Some(s) && s.file_received) ==> upload_saved(event) || (
            session_of(before) matches Some(s) && s.file_received)
            &&& stage(after) >= 2 ==> stage(before) >= 2 || code_cleared(event)
            &&& stage(after) >= 3 ==> stage(before) >= 3 || database_rested(event)
            &&& stage(after) >= 4 ==> stage(before) >= 4 || data_saved(event)
            &&& stage(after) >= 5 ==> stage(before) >= 5 || backup_accepted(event)
            &&& stage(before) >= 5 ==> stage(after) >= 5
            &&& outcome_of(before) is Some ==> outcome_of(after) == outcome_of(before)
        }),
{
}

proof fn progress(run: Seq<RestoreEvent>, i: int)
    requires
        is_restore(run),
        0 <= i < run.len(),
    ensures
        ({
            let step = restore_next(run[i]);
            &&& stage(step) >= 1 || (session_of(step) matches Some(s) && s.file_received)
                ==> had_upload(run, i)
            &&& stage(step) >= 2 ==> had_clearance(run, i)
            &&& stage(step) >= 3 ==> had_rest(run, i)
            &&& stage(step) >= 4 ==> had_recovery_point(run, i)
            &&& stage(step) >= 5 ==> had_backup(run, i)
        }),
    decreases i,
{
    if i > 0 {
        progress(run, i - 1);
        let before = restore_next(run[i - 1]);
        assert(restore_follows(run, i));
        one_step_of_progress(before, run[i]);
        if had_upload(run, i - 1) {
            let j = choose|j: int| 0 <= j <= i - 1 && #[trigger] upload_saved(run[j]);
            assert(upload_saved(run[j]));
        }
    }
}

/// A restore closes the database, changes the data or goes back to the
/// recovery point only after an upload was saved, the one-time code was
/// cleared, the database was at rest, the present data was saved, and the
/// upload was found to be a backup.
pub proof fn data_is_guarded(run: Seq<RestoreEvent>, i: int)
    requires
        is_restore(run),
        0 <= i < run.len(),
        changes_data(restore_next(run[i])),
    ensures
        had_upload(run, i),
        had_clearance(run, i),
        had_rest(run, i),
        had_recovery_point(run, i),
        had_backup(run, i),
{
    only_decided_outcomes_install(run, i);
    progress(run, i);
}

proof fn only_decided_outcomes_install(run: Seq<RestoreEvent>, i: int)
    requires
        is_restore(run),
        0 <= i < run.len(),
    ensures
        restore_next(run[i]) matches RestoreStep::InstallPool { outcome } ==> outcome is Restored
            || outcome is RolledBack,
{
    if i > 0 {
        assert(restore_follows(run, i));
    }
}

proof fn stays_at_data(run: Seq<RestoreEvent>, j: int, i: int)
    requires
        is_restore(run),
        0 <= j <= i < run.len(),
        stage(restore_next(run[j])) >= 5,
    ensures
        stage(restore_next(run[i])) >= 5,
    decreases i,
{
    if j < i {
        stays_at_data(run, j, i - 1);
        assert(restore_follows(run, i));
        one_step_of_progress(restore_next(run[i - 1]), run[i]);
    }
}

/// A restore that is refused, whatever the reason, has not changed the data
/// nor closed its database.
pub proof fn refusal_leaves_data_alone(run: Seq<RestoreEvent>, i: int, j: int)
    requires
        is_restore(run),
        0 <= j <= i < run.len(),
        restore_next(run[i]) matches RestoreStep::Reply { outcome } && !got_to_data(outcome),
    ensures
        !changes_data(restore_next(run[j])),
{
    if changes_data(restore_next(run[j])) {
        only_decided_outcomes_install(run, j);
        stays_at_data(run, j, i);
    }
}

pub(crate) proof fn outcome_stands(run: Seq<RestoreEvent>, j: int, i: int)
    requires
        is_restore(run),
        0 <= j <= i < run.len(),
        outcome_of(restore_next(run[j])) is Some,
    ensures
        outcome_of(restore_next(run[i])) == outcome_of(restore_next(run[j])),
    decreases i,
{
    if j < i {
        outcome_stands(run, j, i - 1);
        assert(restore_follows(run, i));
        one_step_of_progress(restore_next(run[i - 1]), run[i]);
    }
}

/// Where a step of one sort can only come about from such a step or from one
/// of another sort, one of the other sort came before it.
proof fn came_from(
    run: Seq<RestoreEvent>,
    i: int,
    late: spec_fn(RestoreStep) -> bool,
    early: spec_fn(RestoreStep) -> bool,
)
    requires
        is_restore(run),
        0 <= i < run.len(),
        late(restore_next(run[i])),
        !late(restore_next(run[0])),
        forall|before: RestoreStep, event: RestoreEvent| #[trigger]
            restore_answers(before, event) && late(restore_next(event)) ==> late(before) || early(
                before,
            ),
    ensures
        exists|j: int| 0 <= j < i && early(restore_next(#[trigger] run[j])),
    decreases i,
{
    assert(restore_follows(run, i));
    if !early(restore_next(run[i - 1])) {
        came_from(run, i - 1, late, early);
        let j = choose|j: int| 0 <= j < i - 1 && early(restore_next(#[trigger] run[j]));
        assert(early(restore_next(run[j])));
    }
}

/// Whether a step before this one deletes the upload.
spec fn upload_is_gone(step: RestoreStep) -> bool {
    match step {
        RestoreStep::RemoveRecoveryPoint { .. }
        | RestoreStep::ReleaseOperations { .. }
        | RestoreStep::ReloadTasks { .. }
        | RestoreStep::ReloadSubscriptions { .. }
        | RestoreStep::ReloadBackupJob { .. } => true,
        RestoreStep::InstallPool { outcome } => !(outcome is Restored),
        RestoreStep::Reply { outcome } => !(outcome is NoUpload || outcome is UploadNotCreated),
        _ => false,
    }
}

/// Before a restore is answered, the uploaded file is deleted. Exempt are the
/// outcomes that there was no file, and that it could not be created.
pub proof fn upload_is_removed(run: Seq<RestoreEvent>, i: int)
    requires
        is_restore(run),
        0 <= i < run.len(),
        restore_next(run[i]) matches RestoreStep::Reply { outcome } && !(outcome is NoUpload
            || outcome is UploadNotCreated),
    ensures
        exists|j: int| 0 <= j < i && (restore_next(#[trigger] run[j]) is RemoveUpload),
{
    let late = |step: RestoreStep| upload_is_gone(step);
    let early = |step: RestoreStep| step is RemoveUpload;
    came_from(run, i, late, early);
    let j = choose|j: int| 0 <= j < i && early(restore_next(#[trigger] run[j]));
    assert(restore_next(run[j]) is RemoveUpload);
}

/// Whether a step before this one deletes the recovery point.
spec fn recovery_point_is_gone(step: RestoreStep) -> bool {
    match step {
        RestoreStep::ReleaseOperations { .. }
        | RestoreStep::ReloadTasks { .. }
        | RestoreStep::ReloadSubscriptions { .. }
        | RestoreStep::ReloadBackupJob { .. } => true,
        RestoreStep::InstallPool { outcome } => drops_recovery_point(outcome) && !(
        outcome is Restored),
        RestoreStep::Reply { outcome } => drops_recovery_point(outcome),
        _ => false,
    }
}

/// Before a restore is answered, the recovery point is deleted if and only if
/// the backup is in place, or the data was not touched after the recovery
/// point was begun. A restore that had to go back keeps it.
pub proof fn recovery_point_is_kept_while_needed(run: Seq<RestoreEvent>, i: int)
    requires
        is_restore(run),
        0 <= i < run.len(),
        restore_next(run[i]) is Reply,
    ensures
        restore_next(run[i]) matches RestoreStep::Reply { outcome } && ((outcome is Restored
            || outcome is RecoveryPointFailed || outcome is BackupRefused) <==> exists|j: int|
            0 <= j < i && (restore_next(#[trigger] run[j]) is RemoveRecoveryPoint)),
{
    let outcome = restore_next(run[i])->Reply_outcome;
    if drops_recovery_point(outcome) {
        let late = |step: RestoreStep| recovery_point_is_gone(step);
        let early = |step: RestoreStep| step is RemoveRecoveryPoint;
        came_from(run, i, late, early);
        let j = choose|j: int| 0 <= j < i && early(restore_next(#[trigger] run[j]));
        assert(restore_next(run[j]) is RemoveRecoveryPoint);
    }
    if exists|j: int| 0 <= j < i && (restore_next(#[trigger] run[j]) is RemoveRecoveryPoint) {
        let j = choose|j: int|
            0 <= j < i && (restore_next(#[trigger] run[j]) is RemoveRecoveryPoint);
        assert(restore_follows(run, j));
        outcome_stands(run, j, i);
    }
}

/// The database is closed in exactly those restores that got to the data, and
/// connections to a new one are handed out in exactly those of them that
/// succeeded or went back. After a failed way back the database stays closed.
pub proof fn database_is_reopened_unless_rollback_fails(run: Seq<RestoreEvent>, i: int)
    requires
        is_restore(run),
        0 <= i < run.len(),
        restore_next(run[i]) is Reply,
    ensures
        restore_next(run[i]) matches RestoreStep::Reply { outcome } && {
            &&& got_to_data(outcome) <==> exists|j: int|
                0 <= j < i && (restore_next(#[trigger] run[j]) is ClosePool)
            &&& (outcome is Restored || outcome is RolledBack) <==> exists|j: int|
                0 <= j < i && (restore_next(#[trigger] run[j]) is InstallPool)
        },
{
    let outcome = restore_next(run[i])->Reply_outcome;
    if got_to_data(outcome) {
        progress(run, i);
        let j = choose|j: int| 0 <= j <= i && #[trigger] backup_accepted(run[j]);
        assert(restore_next(run[j]) is ClosePool);
    }
    if exists|j: int| 0 <= j < i && (restore_next(#[trigger] run[j]) is ClosePool) {
        let j = choose|j: int| 0 <= j < i && (restore_next(#[trigger] run[j]) is ClosePool);
        stays_at_data(run, j, i);
    }
    if outcome is Restored || outcome is RolledBack {
        let late = |step: RestoreStep|
            match step {
                RestoreStep::InstallPool { .. } => false,
                RestoreStep::RemoveUpload { outcome } => outcome is Restored,
                RestoreStep::ReleasePool { outcome } => outcome is Restored,
                _ => outcome_of(step) matches Some(outcome) && (outcome is Restored
                    || outcome is RolledBack),
            };
        let early = |step: RestoreStep| step is InstallPool;
        came_from(run, i, late, early);
        let j = choose|j: int| 0 <= j < i && early(restore_next(#[trigger] run[j]));
        assert(restore_next(run[j]) is InstallPool);
    }
    if exists|j: int| 0 <= j < i && (restore_next(#[trigger] run[j]) is InstallPool) {
        let j = choose|j: int| 0 <= j < i && (restore_next(#[trigger] run[j]) is InstallPool);
        only_decided_outcomes_install(run, j);
        outcome_stands(run, j, i);
    }
}

pub(crate) proof fn start_is_remembered(run: Seq<RestoreEvent>, i: int)
    requires
        is_restore(run),
        0 <= i < run.len(),
    ensures
        session_of(restore_next(run[i])) matches Some(session) ==> Some(session.database) == (
        match run[0] {
            RestoreEvent::Start { database, .. } => Some(database),
            _ => None,
        }),
        session_of(restore_next(run[i])) matches Some(session) ==> Some(session.recovery) == (
        match run[0] {
            RestoreEvent::Start { recovery, .. } => Some(recovery),
            _ => None,
        }),
        outcome_of(restore_next(run[i])) matches Some(outcome) ==> (
        outcome.kept_recovery() matches Some(path) ==> Some(path) == (match run[0] {
            RestoreEvent::Start { recovery, .. } => Some(recovery),
            _ => None,
        })),
    decreases i,
{
    if i > 0 {
        start_is_remembered(run, i - 1);
        assert(restore_follows(run, i));
    }
}

/// A restore that failed after it got to the data tells where the recovery
/// point is: the path that it was started with.
pub proof fn failed_restore_names_recovery_point(run: Seq<RestoreEvent>, i: int)
    requires
        is_restore(run),
        0 <= i < run.len(),
        restore_next(run[i]) matches RestoreStep::Reply { outcome } && (outcome is RolledBack
            || outcome is RollbackFailed),
    ensures
        restore_next(run[i]) matches RestoreStep::Reply { outcome } && run[0] matches
            RestoreEvent::Start { recovery, .. } && outcome.kept_recovery() == Some(recovery),
{
    start_is_remembered(run, i);
}

/// An upper bound on the steps that follow once the request has been read.
pub open spec fn steps_left(step: RestoreStep) -> nat {
    match step {
        RestoreStep::CheckTotp { .. } => 22,
        RestoreStep::VerifyCode { .. } => 21,
        RestoreStep::LockDatabase { .. } => 20,
        RestoreStep::Checkpoint { .. } => 19,
        RestoreStep::CreateRecoveryPoint { .. } => 18,
        RestoreStep::PrepareUpload { .. } => 17,
        RestoreStep::ClosePool { .. } => 16,
        RestoreStep::Activate { .. } => 15,
        RestoreStep::FixPermissions { .. } => 14,
        RestoreStep::OpenDatabase { .. } => 13,
        RestoreStep::RestoreRecoveryPoint { .. } => 12,
        RestoreStep::FixRollbackPermissions { .. } => 11,
        RestoreStep::OpenRollbackDatabase { .. } => 10,
        RestoreStep::InstallPool { outcome } => if outcome is Restored {
            9
        } else {
            1
        },
        RestoreStep::ReleasePool { .. } => 8,
        RestoreStep::RemoveUpload { .. } => 7,
        RestoreStep::RemoveRecoveryPoint { .. } => 6,
        RestoreStep::ReleaseOperations { .. } => 4,
        RestoreStep::ReloadTasks { .. } => 3,
        RestoreStep::ReloadSubscriptions { .. } => 2,
        RestoreStep::ReloadBackupJob { .. } => 1,
        _ => 0,
    }
}

/// Whether the step reads the request.
pub open spec fn reads_request(step: RestoreStep) -> bool {
    ||| step is ReadField
    ||| step is CreateUpload
    ||| step is ReadChunk
    ||| step is WriteChunk
    ||| step is FlushUpload
    ||| step is ReadCode
}

/// Once the request has been read, a restore comes to an end: with each answer
/// fewer steps are left, it never goes back to reading, and nothing follows
/// the reply.
pub proof fn restore_ends(run: Seq<RestoreEvent>, i: int)
    requires
        is_restore(run),
        0 < i < run.len(),
        !reads_request(restore_next(run[i - 1])),
    ensures
        !(restore_next(run[i - 1]) is Reply),
        !reads_request(restore_next(run[i])),
        steps_left(restore_next(run[i])) < steps_left(restore_next(run[i - 1])),
{
    assert(restore_follows(run, i));
    if restore_next(run[i - 1]) is ReleasePool || restore_next(run[i - 1]) is RemoveUpload
        || restore_next(run[i - 1]) is InstallPool {
        ending_steps_fit_outcome(run, i - 1);
    }
}

proof fn ending_steps_fit_outcome(run: Seq<RestoreEvent>, i: int)
    requires
        is_restore(run),
        0 <= i < run.len(),
    ensures
        restore_next(run[i]) matches RestoreStep::ReleasePool { outcome } ==> outcome is Restored,
{
    if i > 0 {
        assert(restore_follows(run, i));
    }
}

/// A one-time code was read from the request.
pub open spec fn code_was_read(event: RestoreEvent, code: String) -> bool {
    event matches RestoreEvent::CodeRead { result, .. } && result == Ok::<String, ()>(code)
}

/// The code that a session holds.
pub open spec fn code_of(step: RestoreStep) -> Option<String> {
    match session_of(step) {
        Some(session) => session.totp_code,
        None => None,
    }
}

proof fn code_changes_only_when_read(before: RestoreStep, event: RestoreEvent)
    requires
        restore_answers(before, event),
        session_of(restore_next(event)) is Some,
    ensures
        session_of(before) is Some,
        event is CodeRead ==> (code_of(restore_next(event)) matches Some(code) && code_was_read(
            event,
            code,
        )),
        !(event is CodeRead) ==> code_of(restore_next(event)) == code_of(before),
{
}

/// Whether the code was read up to the event at `last`, and none after it.
pub open spec fn is_last_code(run: Seq<RestoreEvent>, last: int, code: Option<String>) -> bool {
    match code {
        Some(code) => exists|j: int| #[trigger] is_last_read(run, last, j, code),
        None => forall|k: int| 0 <= k <= last ==> !(#[trigger] run[k] is CodeRead),
    }
}

/// Whether the event at `j` is the last up to `last` that reads a code, and
/// reads this one.
pub open spec fn is_last_read(run: Seq<RestoreEvent>, last: int, j: int, code: String) -> bool {
    &&& 0 <= j <= last
    &&& code_was_read(run[j], code)
    &&& forall|k: int| j < k <= last ==> !(#[trigger] run[k] is CodeRead)
}

pub(crate) proof fn session_holds_last_code(run: Seq<RestoreEvent>, i: int)
    requires
        is_restore(run),
        0 <= i < run.len(),
        session_of(restore_next(run[i])) is Some,
    ensures
        is_last_code(run, i, code_of(restore_next(run[i]))),
    decreases i,
{
    if i > 0 {
        let before = restore_next(run[i - 1]);
        assert(restore_follows(run, i));
        code_changes_only_when_read(before, run[i]);
        session_holds_last_code(run, i - 1);
        let code = code_of(restore_next(run[i]));
        if run[i] is CodeRead {
            assert(is_last_read(run, i, i, code->Some_0));
        } else if code is Some {
            let j = choose|j: int| #[trigger] is_last_read(run, i - 1, j, code->Some_0);
            assert(is_last_read(run, i, j, code->Some_0));
        }
    } else {
        assert(code_of(restore_next(run[0])) is None);
        assert(run[0] is Start);
    }
}

/// The code that is checked is the last one that the request holds.
pub proof fn last_code_is_checked(run: Seq<RestoreEvent>, i: int)
    requires
        is_restore(run),
        0 <= i < run.len(),
        restore_next(run[i]) is VerifyCode,
    ensures
        restore_next(run[i]) matches RestoreStep::VerifyCode { code, .. } && exists|j: int|
            #[trigger] is_last_read(run, i, j, code),
{
    let code = restore_next(run[i])->VerifyCode_code;
    assert(run[i] is TotpChecked);
    assert(code_of(restore_next(run[i])) == Some(code));
    session_holds_last_code(run, i);
}

/// Tasks, subscriptions and the backup schedule are read anew only after the
/// restore has let go of the database and of other backup operations.
pub proof fn reloads_follow_releases(run: Seq<RestoreEvent>, i: int)
    requires
        is_restore(run),
        0 <= i < run.len(),
        restore_next(run[i]) is ReloadTasks || restore_next(run[i]) is ReloadSubscriptions
            || restore_next(run[i]) is ReloadBackupJob,
    ensures
        exists|j: int| 0 <= j < i && (restore_next(#[trigger] run[j]) is ReleasePool),
        exists|j: int| 0 <= j < i && (restore_next(#[trigger] run[j]) is ReleaseOperations),
{
    let reload = |step: RestoreStep|
        step is ReloadTasks || step is ReloadSubscriptions || step is ReloadBackupJob;
    let operations = |step: RestoreStep| step is ReleaseOperations;
    came_from(run, i, reload, operations);
    let k = choose|k: int| 0 <= k < i && operations(restore_next(#[trigger] run[k]));
    assert(restore_next(run[k]) is ReleaseOperations);
    let released = |step: RestoreStep|
        match step {
            RestoreStep::ReleaseOperations { .. }
            | RestoreStep::ReloadTasks { .. }
            | RestoreStep::ReloadSubscriptions { .. }
            | RestoreStep::ReloadBackupJob { .. } => true,
            RestoreStep::RemoveUpload { outcome } => outcome is Restored,
            RestoreStep::RemoveRecoveryPoint { outcome } => outcome is Restored,
            _ => false,
        };
    let pool = |step: RestoreStep| step is ReleasePool;
    came_from(run, i, released, pool);
    let j = choose|j: int| 0 <= j < i && pool(restore_next(#[trigger] run[j]));
    assert(restore_next(run[j]) is ReleasePool);
}

/// What the last file part of the request held, as far as it was read by the
/// event at `i`.
pub open spec fn received(run: Seq<RestoreEvent>, i: int) -> Seq<u8>
    decreases i,
{
    if i <= 0 {
        Seq::empty()
    } else {
        match run[i] {
            RestoreEvent::FieldRead { result: Ok(Some(field)), .. } => if carries(field, "file"@) {
                Seq::empty()
            } else {
                received(run, i - 1)
            },
            RestoreEvent::ChunkRead { result: Ok(Some(chunk)), .. } => received(run, i - 1)
                + chunk@,
            _ => received(run, i - 1),
        }
    }
}

/// What the uploaded file holds at the event at `i`: creating it leaves it
/// empty, and each piece that is written is appended.
pub open spec fn uploaded(run: Seq<RestoreEvent>, i: int) -> Seq<u8>
    decreases i,
{
    if i <= 0 {
        Seq::empty()
    } else {
        match (restore_next(run[i - 1]), run[i]) {
            (_, RestoreEvent::UploadCreated { result: Ok(_), .. }) => Seq::empty(),
            (
                RestoreStep::WriteChunk { chunk, .. },
                RestoreEvent::ChunkWritten { result: Ok(_), .. },
            ) => uploaded(run, i - 1) + chunk@,
            _ => uploaded(run, i - 1),
        }
    }
}

/// While a restore goes on, the uploaded file keeps up with what was received.
pub(crate) proof fn upload_keeps_up(run: Seq<RestoreEvent>, i: int)
    requires
        is_restore(run),
        0 <= i < run.len(),
        session_of(restore_next(run[i])) is Some,
    ensures
        match restore_next(run[i]) {
            RestoreStep::CreateUpload { .. } => received(run, i) == Seq::<u8>::empty(),
            RestoreStep::WriteChunk { chunk, .. } => received(run, i) == uploaded(run, i) + chunk@,
            _ => received(run, i) == uploaded(run, i),
        },
    decreases i,
{
    if i > 0 {
        assert(restore_follows(run, i));
        code_changes_only_when_read(restore_next(run[i - 1]), run[i]);
        upload_keeps_up(run, i - 1);
    }
}

/// The uploaded file that is unpacked holds byte for byte what the last file
/// part of the request held.
pub proof fn upload_is_saved_unchanged(run: Seq<RestoreEvent>, i: int)
    requires
        is_restore(run),
        0 <= i < run.len(),
        restore_next(run[i]) is PrepareUpload,
    ensures
        uploaded(run, i) == received(run, i),
{
    upload_keeps_up(run, i);
}

/// The staging directory that is put in place of the data is the one that the
/// preparation of the upload gave.
pub proof fn prepared_upload_is_activated(run: Seq<RestoreEvent>, i: int)
    requires
        is_restore(run),
        0 <= i < run.len(),
        restore_next(run[i]) is Activate,
    ensures
        i > 0,
        run[i - 1] matches RestoreEvent::UploadPrepared { result: Ok(prepared), .. } && (
        restore_next(run[i]) matches RestoreStep::Activate { staging, .. } && staging == prepared),
{
    assert(restore_follows(run, i));
}

/// The database that is opened after the data was replaced, or after going
/// back, is the one at the address that the restore was started with.
pub proof fn database_of_the_data_is_opened(run: Seq<RestoreEvent>, i: int)
    requires
        is_restore(run),
        0 <= i < run.len(),
    ensures
        restore_next(run[i]) matches RestoreStep::OpenDatabase { session } ==> (run[0] matches
            RestoreEvent::Start { database, .. } && session.database == database),
        restore_next(run[i]) matches RestoreStep::OpenRollbackDatabase { session, .. } ==> (run[0]
            matches RestoreEvent::Start { database, .. } && session.database == database),
{
    start_is_remembered(run, i);
}

/// Whether nothing has been let go of when this step is done.
spec fn holds_on(step: RestoreStep) -> bool {
    ||| session_of(step) is Some
    ||| step is InstallPool
    ||| step matches RestoreStep::RemoveUpload { outcome } && (outcome is RolledBack
        || outcome is RollbackFailed)
}

proof fn nothing_is_released_early(run: Seq<RestoreEvent>, i: int)
    requires
        is_restore(run),
        0 <= i < run.len(),
        holds_on(restore_next(run[i])),
    ensures
        forall|k: int|
            0 <= k <= i ==> !((#[trigger] run[k]) is PoolReleased || run[k] is OperationsReleased),
    decreases i,
{
    if i > 0 {
        assert(restore_follows(run, i));
        only_decided_outcomes_install(run, i);
        ending_steps_fit_outcome(run, i - 1);
        nothing_is_released_early(run, i - 1);
    }
}

/// While a restore saves the data, prepares the upload, changes the data or
/// goes back, it holds the lock on backup operations and the connections to
/// the database: it has taken hold of them and let go of neither.
pub proof fn data_changes_under_lock(run: Seq<RestoreEvent>, i: int)
    requires
        is_restore(run),
        0 <= i < run.len(),
        changes_data(restore_next(run[i])) || restore_next(run[i]) is Checkpoint || restore_next(
            run[i],
        ) is CreateRecoveryPoint || restore_next(run[i]) is PrepareUpload,
    ensures
        exists|j: int| 0 <= j <= i && ((#[trigger] run[j]) is DatabaseLocked),
        forall|k: int|
            0 <= k <= i ==> !((#[trigger] run[k]) is PoolReleased || run[k] is OperationsReleased),
{
    nothing_is_released_early(run, i);
    only_decided_outcomes_install(run, i);
    progress(run, i);
    if restore_next(run[i]) is Checkpoint {
        assert(run[i] is DatabaseLocked);
    } else {
        let j = if restore_next(run[i]) is CreateRecoveryPoint {
            i
        } else {
            choose|j: int| 0 <= j <= i && #[trigger] database_rested(run[j])
        };
        assert(restore_follows(run, j));
        assert(restore_next(run[j - 1]) is Checkpoint);
        assert(run[j - 1] is DatabaseLocked);
    }
}

/// What the data is after the event at `i`: `old` before it is touched, `new`
/// once the upload is in its place, `old` again once the recovery point is
/// back, and `torn` after a failure to put either in place.
pub open spec fn data_after<T>(run: Seq<RestoreEvent>, i: int, old_data: T, new_data: T, torn: T) -> T
    decreases i,
{
    if i <= 0 {
        old_data
    } else {
        match run[i] {
            RestoreEvent::Activated { result, .. } => if result is Ok {
                new_data
            } else {
                torn
            },
            RestoreEvent::RecoveryPointRestored { result, .. } => if result is Ok {
                old_data
            } else {
                torn
            },
            _ => data_after(run, i - 1, old_data, new_data, torn),
        }
    }
}

/// What the data is while a step is done.
pub(crate) proof fn data_fits_step<T>(run: Seq<RestoreEvent>, i: int, old_data: T, new_data: T, torn: T)
    requires
        is_restore(run),
        0 <= i < run.len(),
    ensures
        ({
            let step = restore_next(run[i]);
            let data = data_after(run, i, old_data, new_data, torn);
            match step {
                RestoreStep::RestoreRecoveryPoint { .. } => true,
                RestoreStep::FixPermissions { .. } | RestoreStep::OpenDatabase { .. } => data
                    == new_data,
                _ => match outcome_of(step) {
                    Some(outcome) => {
                        &&& outcome is Restored ==> data == new_data
                        &&& outcome is RolledBack || !got_to_data(outcome) ==> data == old_data
                    },
                    None => data == old_data,
                },
            }
        }),
    decreases i,
{
    if i > 0 {
        data_fits_step(run, i - 1, old_data, new_data, torn);
        assert(restore_follows(run, i));
    }
}

/// The answer tells the truth about the data: a restored backup is in place, a
/// restore that went back left the data as it was saved, and a refused one left
/// it as it was.
pub proof fn outcome_tells_what_the_data_is<T>(
    run: Seq<RestoreEvent>,
    i: int,
    old_data: T,
    new_data: T,
    torn: T,
)
    requires
        is_restore(run),
        0 <= i < run.len(),
        restore_next(run[i]) is Reply,
    ensures
        restore_next(run[i]) matches RestoreStep::Reply { outcome } && {
            let data = data_after(run, i, old_data, new_data, torn);
            &&& outcome is Restored ==> data == new_data
            &&& outcome is RolledBack || !got_to_data(outcome) ==> data == old_data
        },
{
    data_fits_step(run, i, old_data, new_data, torn);
}

/// Only a restored backup is answered with the status of success.
pub proof fn success_status_means_restored(outcome: RestoreOutcome)
    ensures
        outcome.spec_status() == 200 <==> outcome is Restored,
        outcome.kept_recovery() is Some <==> outcome is RolledBack || outcome is RollbackFailed,
{
}

} // verus!
