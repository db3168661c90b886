//! Why a restore ends as it does, and what it does on the way.

use vstd::prelude::*;

use crate::error::BackupError;
use crate::reply::RestoreOutcome;
#[allow(unused_imports)]
use crate::restore::restore_next;
use crate::restore::{RestoreEvent, RestoreStep, Session};
#[allow(unused_imports)]
use crate::restore_laws::{
    code_of, is_last_code, is_last_read, is_restore, one_step_of_progress, outcome_of, outcome_stands,
    restore_answers, restore_follows, session_holds_last_code, session_of, start_is_remembered,
};

verus! {

/// Whether the data could not be replaced, for this reason: the backup could not
/// be put in place, or its database could not be opened.
pub open spec fn replacement_failed(event: RestoreEvent, error: BackupError) -> bool {
    ||| event matches RestoreEvent::Activated { result, .. } && result == Err::<(), BackupError>(
        error,
    )
    ||| event matches RestoreEvent::DatabaseOpened { result, .. } && result == Err::<
        (),
        BackupError,
    >(error)
}

/// Whether going back failed, for this reason: the recovery point could not be
/// put in place, or its database could not be opened.
pub open spec fn rollback_failed(event: RestoreEvent, error: BackupError) -> bool {
    ||| event matches RestoreEvent::RecoveryPointRestored { result, .. } && result == Err::<
        (),
        BackupError,
    >(error)
    ||| event matches RestoreEvent::RollbackDatabaseOpened { result, .. } && result == Err::<
        (),
        BackupError,
    >(error)
}

/// Whether the data could not be replaced, for this reason, up to the event at
/// `last`.
pub open spec fn had_failed_replacement(
    run: Seq<RestoreEvent>,
    last: int,
    error: BackupError,
) -> bool {
    exists|k: int| 0 <= k <= last && #[trigger] replacement_failed(run[k], error)
}

/// Whether a file was saved in full up to the event at `last`.
pub open spec fn had_saved_file(run: Seq<RestoreEvent>, last: int) -> bool {
    exists|k: int|
        0 <= k <= last && ((#[trigger] run[k]) matches RestoreEvent::UploadFlushed { result, .. }
            && result is Ok)
}

/// Whether a one-time code was read up to the event at `last`.
pub open spec fn had_code(run: Seq<RestoreEvent>, last: int) -> bool {
    exists|k: int|
        0 <= k <= last && ((#[trigger] run[k]) matches RestoreEvent::CodeRead { result, .. }
            && result is Ok)
}

/// Whether the backup was put in place up to the event at `last`.
pub open spec fn had_activation(run: Seq<RestoreEvent>, last: int) -> bool {
    exists|k: int|
        0 <= k <= last && ((#[trigger] run[k]) matches RestoreEvent::Activated { result, .. }
            && result is Ok)
}

/// The path of the recovery point that the restore was started with.
pub open spec fn recovery_of(run: Seq<RestoreEvent>) -> Option<String> {
    match run[0] {
        RestoreEvent::Start { recovery, .. } => Some(recovery),
        _ => None,
    }
}

/// Whether the event at `j` reports what this outcome stands for.
pub open spec fn caused(run: Seq<RestoreEvent>, j: int, outcome: RestoreOutcome) -> bool {
    let event = run[j];
    match outcome {
        RestoreOutcome::UploadInterrupted => event matches RestoreEvent::FieldRead { result, .. }
            && result is Err,
        RestoreOutcome::UploadNotCreated(error) => event matches RestoreEvent::UploadCreated {
            result,
            ..
        } && result == Err::<(), BackupError>(error),
        RestoreOutcome::UploadIncomplete => event matches RestoreEvent::ChunkRead { result, .. }
            && result is Err,
        RestoreOutcome::UploadNotSaved(error) => {
            ||| event matches RestoreEvent::ChunkWritten { result, .. } && result == Err::<
                (),
                BackupError,
            >(error)
            ||| event matches RestoreEvent::UploadFlushed { result, .. } && result == Err::<
                (),
                BackupError,
            >(error)
        },
        RestoreOutcome::CodeUnreadable => event matches RestoreEvent::CodeRead { result, .. }
            && result is Err,
        RestoreOutcome::NoUpload => (event matches RestoreEvent::FieldRead { result: Ok(None), .. })
            && !had_saved_file(run, j),
        RestoreOutcome::TotpUnavailable => event matches RestoreEvent::TotpChecked { result, .. }
            && result is Err,
        RestoreOutcome::CodeRequired => (event matches RestoreEvent::TotpChecked { result, .. }
            && result == Ok::<bool, ()>(true)) && !had_code(run, j),
        RestoreOutcome::WrongCode => event matches RestoreEvent::CodeVerified { result, .. }
            && result == Ok::<bool, ()>(false),
        RestoreOutcome::CodeNotChecked => event matches RestoreEvent::CodeVerified { result, .. }
            && result is Err,
        RestoreOutcome::DatabaseBusy => event matches RestoreEvent::Checkpointed {
            result: Ok(busy),
            ..
        } && busy != 0,
        RestoreOutcome::CheckpointFailed(text) => event matches RestoreEvent::Checkpointed {
            result,
            ..
        } && result == Err::<i64, String>(text),
        RestoreOutcome::RecoveryPointFailed(error) => event matches
            RestoreEvent::RecoveryPointCreated { result, .. } && result == Err::<(), BackupError>(
            error,
        ),
        RestoreOutcome::BackupRefused(error) => event matches RestoreEvent::UploadPrepared {
            result,
            ..
        } && result == Err::<String, BackupError>(error),
        RestoreOutcome::RolledBack { error, recovery } => {
            &&& event matches RestoreEvent::RollbackDatabaseOpened { result, .. } && result is Ok
            &&& had_failed_replacement(run, j, error)
            &&& recovery_of(run) == Some(recovery)
        },
        RestoreOutcome::RollbackFailed { error, rollback_error, recovery } => {
            &&& rollback_failed(event, rollback_error)
            &&& had_failed_replacement(run, j, error)
            &&& recovery_of(run) == Some(recovery)
        },
        RestoreOutcome::Restored => (event matches RestoreEvent::DatabaseOpened { result, .. }
            && result is Ok) && had_activation(run, j),
    }
}

/// The failure to replace the data that a step carries.
spec fn carried_error(step: RestoreStep) -> Option<BackupError> {
    match step {
        RestoreStep::RestoreRecoveryPoint { error, .. } => Some(error),
        RestoreStep::FixRollbackPermissions { error, .. } => Some(error),
        RestoreStep::OpenRollbackDatabase { error, .. } => Some(error),
        _ => match outcome_of(step) {
            Some(RestoreOutcome::RolledBack { error, .. }) => Some(error),
            Some(RestoreOutcome::RollbackFailed { error, .. }) => Some(error),
            _ => None,
        },
    }
}

proof fn one_step_of_error(before: RestoreStep, event: RestoreEvent)
    requires
        restore_answers(before, event),
    ensures
        carried_error(restore_next(event)) matches Some(error) ==> carried_error(before) == Some(
            error,
        ) || replacement_failed(event, error),
        carried_error(before) is Some ==> carried_error(restore_next(event)) == carried_error(
            before,
        ),
        restore_next(event) is FixPermissions || restore_next(event) is OpenDatabase ==> before
            is FixPermissions || (event matches RestoreEvent::Activated { result, .. } && result
            is Ok),
        forall|error: BackupError| #[trigger]
            replacement_failed(event, error) ==> carried_error(restore_next(event)) == Some(error),
{
}

proof fn errors_were_reported(run: Seq<RestoreEvent>, i: int)
    requires
        is_restore(run),
        0 <= i < run.len(),
    ensures
        carried_error(restore_next(run[i])) matches Some(error) ==> had_failed_replacement(
            run,
            i,
            error,
        ),
        restore_next(run[i]) is FixPermissions || restore_next(run[i]) is OpenDatabase
            ==> had_activation(run, i),
    decreases i,
{
    if i > 0 {
        errors_were_reported(run, i - 1);
        assert(restore_follows(run, i));
        one_step_of_error(restore_next(run[i - 1]), run[i]);
        if let Some(error) = carried_error(restore_next(run[i])) {
            if had_failed_replacement(run, i - 1, error) {
                let k = choose|k: int|
                    0 <= k <= i - 1 && #[trigger] replacement_failed(run[k], error);
                assert(replacement_failed(run[k], error));
            }
        }
        if had_activation(run, i - 1) {
            let k = choose|k: int|
                0 <= k <= i - 1 && ((#[trigger] run[k]) matches RestoreEvent::Activated {
                    result,
                    ..
                } && result is Ok);
            assert(run[k] is Activated);
        }
        if run[i] is Activated {
            assert(run[i] is Activated);
        }
    }
}

proof fn errors_stand(run: Seq<RestoreEvent>, k: int, i: int, error: BackupError)
    requires
        is_restore(run),
        0 <= k <= i < run.len(),
        replacement_failed(run[k], error),
    ensures
        carried_error(restore_next(run[i])) == Some(error),
    decreases i,
{
    if i > 0 {
        assert(restore_follows(run, i));
        one_step_of_error(restore_next(run[i - 1]), run[i]);
        if k < i {
            errors_stand(run, k, i - 1, error);
        }
    }
}

proof fn one_step_of_saving(before: RestoreStep, event: RestoreEvent)
    requires
        restore_answers(before, event),
        session_of(restore_next(event)) is Some,
    ensures
        session_of(before) is Some,
        session_of(restore_next(event))->Some_0.file_received == (
        session_of(before)->Some_0.file_received || (event matches RestoreEvent::UploadFlushed {
            result,
            ..
        } && result is Ok)),
{
}

proof fn saved_files_are_remembered(run: Seq<RestoreEvent>, i: int)
    requires
        is_restore(run),
        0 <= i < run.len(),
        session_of(restore_next(run[i])) is Some,
    ensures
        session_of(restore_next(run[i]))->Some_0.file_received == had_saved_file(run, i),
    decreases i,
{
    if i > 0 {
        assert(restore_follows(run, i));
        one_step_of_saving(restore_next(run[i - 1]), run[i]);
        saved_files_are_remembered(run, i - 1);
        if had_saved_file(run, i - 1) {
            let k = choose|k: int|
                0 <= k <= i - 1 && ((#[trigger] run[k]) matches RestoreEvent::UploadFlushed {
                    result,
                    ..
                } && result is Ok);
            assert(run[k] is UploadFlushed);
        }
        if had_saved_file(run, i) && !had_saved_file(run, i - 1) {
            let k = choose|k: int|
                0 <= k <= i && ((#[trigger] run[k]) matches RestoreEvent::UploadFlushed {
                    result,
                    ..
                } && result is Ok);
            assert(k == i);
        }
        assert(run[i] is UploadFlushed ==> run[i] is UploadFlushed);
    } else {
        assert(!had_saved_file(run, 0)) by {
            assert(run[0] is Start);
        }
    }
}

proof fn codes_are_remembered(run: Seq<RestoreEvent>, i: int)
    requires
        is_restore(run),
        0 <= i < run.len(),
        session_of(restore_next(run[i])) is Some,
    ensures
        session_of(restore_next(run[i]))->Some_0.totp_code is Some <==> had_code(run, i),
{
    session_holds_last_code(run, i);
    let step = restore_next(run[i]);
    if had_code(run, i) {
        let k = choose|k: int|
            0 <= k <= i && ((#[trigger] run[k]) matches RestoreEvent::CodeRead { result, .. }
                && result is Ok);
        assert(run[k] is CodeRead);
    }
    if let Some(code) = code_of(step) {
        let j = choose|j: int| #[trigger] is_last_read(run, i, j, code);
        assert(run[j] is CodeRead);
    }
}

/// What an event alone says of the outcome that it brings about.
spec fn brought_about(before: RestoreStep, event: RestoreEvent, outcome: RestoreOutcome) -> bool {
    match outcome {
        RestoreOutcome::NoUpload => (event matches RestoreEvent::FieldRead { result: Ok(None), .. })
            && (session_of(before) matches Some(session) && !session.file_received),
        RestoreOutcome::CodeRequired => (event matches RestoreEvent::TotpChecked { result, .. }
            && result == Ok::<bool, ()>(true)) && (session_of(before) matches Some(session)
            && session.totp_code is None),
        RestoreOutcome::RolledBack { error, recovery } => {
            &&& event matches RestoreEvent::RollbackDatabaseOpened { result, .. } && result is Ok
            &&& carried_error(before) == Some(error)
            &&& session_of(before) matches Some(session) && session.recovery == recovery
        },
        RestoreOutcome::RollbackFailed { error, rollback_error, recovery } => {
            &&& rollback_failed(event, rollback_error)
            &&& carried_error(before) == Some(error)
            &&& session_of(before) matches Some(session) && session.recovery == recovery
        },
        RestoreOutcome::Restored => (event matches RestoreEvent::DatabaseOpened { result, .. }
            && result is Ok) && before is OpenDatabase,
        _ => caused(seq![event], 0, outcome),
    }
}

proof fn one_step_of_outcome(before: RestoreStep, event: RestoreEvent, outcome: RestoreOutcome)
    requires
        restore_answers(before, event),
        outcome_of(before) is None,
    ensures
        outcome_of(restore_next(event)) == Some(outcome) <==> brought_about(before, event, outcome),
{
}

proof fn outcomes_are_brought_about(run: Seq<RestoreEvent>, i: int, outcome: RestoreOutcome)
    requires
        is_restore(run),
        0 < i < run.len(),
        outcome_of(restore_next(run[i - 1])) is None,
    ensures
        outcome_of(restore_next(run[i])) == Some(outcome) <==> caused(run, i, outcome),
{
    let before = restore_next(run[i - 1]);
    let event = run[i];
    assert(restore_follows(run, i));
    one_step_of_outcome(before, event, outcome);
    errors_were_reported(run, i - 1);
    start_is_remembered(run, i - 1);
    assert(session_of(before) is Some);
    saved_files_are_remembered(run, i - 1);
    codes_are_remembered(run, i - 1);
    assert(seq![event][0] == event);
    match outcome {
        RestoreOutcome::NoUpload => {
            if event is FieldRead {
                if had_saved_file(run, i) {
                    let k = choose|k: int|
                        0 <= k <= i && ((#[trigger] run[k]) matches RestoreEvent::UploadFlushed {
                            result,
                            ..
                        } && result is Ok);
                    assert(k <= i - 1);
                }
                if had_saved_file(run, i - 1) {
                    let k = choose|k: int|
                        0 <= k <= i - 1 && ((#[trigger] run[k]) matches
                            RestoreEvent::UploadFlushed { result, .. } && result is Ok);
                    assert(run[k] is UploadFlushed);
                }
            }
        },
        RestoreOutcome::CodeRequired => {
            if event is TotpChecked {
                if had_code(run, i) {
                    let k = choose|k: int|
                        0 <= k <= i && ((#[trigger] run[k]) matches RestoreEvent::CodeRead {
                            result,
                            ..
                        } && result is Ok);
                    assert(k <= i - 1);
                }
                if had_code(run, i - 1) {
                    let k = choose|k: int|
                        0 <= k <= i - 1 && ((#[trigger] run[k]) matches RestoreEvent::CodeRead {
                            result,
                            ..
                        } && result is Ok);
                    assert(run[k] is CodeRead);
                }
            }
        },
        RestoreOutcome::RolledBack { error, .. }
        | RestoreOutcome::RollbackFailed { error, .. } => {
            if had_failed_replacement(run, i, error) && !replacement_failed(event, error) {
                let k = choose|k: int| 0 <= k <= i && #[trigger] replacement_failed(run[k], error);
                errors_stand(run, k, i - 1, error);
            }
            if had_failed_replacement(run, i - 1, error) {
                let k = choose|k: int|
                    0 <= k <= i - 1 && #[trigger] replacement_failed(run[k], error);
                assert(replacement_failed(run[k], error));
            }
        },
        RestoreOutcome::Restored => {
            if had_activation(run, i - 1) {
                let k = choose|k: int|
                    0 <= k <= i - 1 && ((#[trigger] run[k]) matches RestoreEvent::Activated {
                        result,
                        ..
                    } && result is Ok);
                assert(run[k] is Activated);
            }
        },
        _ => {},
    }
}

proof fn outcomes_were_caused(run: Seq<RestoreEvent>, i: int, outcome: RestoreOutcome)
    requires
        is_restore(run),
        0 <= i < run.len(),
        outcome_of(restore_next(run[i])) == Some(outcome),
    ensures
        exists|j: int| 0 <= j <= i && #[trigger] caused(run, j, outcome),
    decreases i,
{
    assert(i > 0);
    assert(restore_follows(run, i));
    one_step_of_progress(restore_next(run[i - 1]), run[i]);
    if outcome_of(restore_next(run[i - 1])) is Some {
        outcomes_were_caused(run, i - 1, outcome);
        let j = choose|j: int| 0 <= j <= i - 1 && #[trigger] caused(run, j, outcome);
        assert(caused(run, j, outcome));
    } else {
        outcomes_are_brought_about(run, i, outcome);
        assert(caused(run, i, outcome));
    }
}

/// A restore is answered with an outcome only if what the outcome stands for was
/// reported: no request is refused, no backup called incomplete and no way back
/// called failed without an event that says so, and a backup is called restored
/// only after it was put in place and its database was opened. The errors that
/// are told are the very ones that were reported.
pub proof fn outcomes_have_their_cause(run: Seq<RestoreEvent>, i: int, outcome: RestoreOutcome)
    requires
        is_restore(run),
        0 <= i < run.len(),
        restore_next(run[i]) == (RestoreStep::Reply { outcome }),
    ensures
        exists|j: int| 0 <= j <= i && #[trigger] caused(run, j, outcome),
{
    outcomes_were_caused(run, i, outcome);
}

/// Whatever is reported that an outcome stands for, it is the outcome that the
/// restore is answered with.
pub proof fn causes_have_their_outcome(
    run: Seq<RestoreEvent>,
    j: int,
    i: int,
    reported: RestoreOutcome,
    outcome: RestoreOutcome,
)
    requires
        is_restore(run),
        0 <= j <= i < run.len(),
        caused(run, j, reported),
        restore_next(run[i]) == (RestoreStep::Reply { outcome }),
    ensures
        outcome == reported,
{
    assert(j > 0) by {
        assert(run[0] is Start);
    }
    assert(restore_follows(run, j));
    assert(outcome_of(restore_next(run[j - 1])) is None);
    outcomes_are_brought_about(run, j, reported);
    outcome_stands(run, j, i);
}

/// Whether the event reports something that keeps a restore from going on: a
/// failure of anything but setting permissions and cleaning up at the end, a
/// wrong code, or a database in use.
pub open spec fn hinders(event: RestoreEvent) -> bool {
    match event {
        RestoreEvent::FieldRead { result, .. } => result is Err,
        RestoreEvent::UploadCreated { result, .. } => result is Err,
        RestoreEvent::ChunkRead { result, .. } => result is Err,
        RestoreEvent::ChunkWritten { result, .. } => result is Err,
        RestoreEvent::UploadFlushed { result, .. } => result is Err,
        RestoreEvent::CodeRead { result, .. } => result is Err,
        RestoreEvent::TotpChecked { result, .. } => result is Err,
        RestoreEvent::CodeVerified { result, .. } => result != Ok::<bool, ()>(true),
        RestoreEvent::Checkpointed { result, .. } => result != Ok::<i64, String>(0),
        RestoreEvent::RecoveryPointCreated { result, .. } => result is Err,
        RestoreEvent::UploadPrepared { result, .. } => result is Err,
        RestoreEvent::Activated { result, .. } => result is Err,
        RestoreEvent::DatabaseOpened { result, .. } => result is Err,
        _ => false,
    }
}

/// A request that holds a file, and a code where one is needed, is restored
/// unless something is reported that keeps it from that.
pub proof fn unhindered_requests_are_restored(run: Seq<RestoreEvent>)
    requires
        is_restore(run),
        restore_next(run.last()) is Reply,
        forall|k: int| 0 <= k < run.len() ==> !hinders(#[trigger] run[k]),
        had_saved_file(run, run.len() - 1),
        had_code(run, run.len() - 1) || forall|k: int|
            0 <= k < run.len() ==> ((#[trigger] run[k]) matches RestoreEvent::TotpChecked {
                result,
                ..
            } ==> result == Ok::<bool, ()>(false)),
    ensures
        restore_next(run.last()) == (RestoreStep::Reply { outcome: RestoreOutcome::Restored }),
{
    let last = run.len() - 1;
    let outcome = restore_next(run[last])->Reply_outcome;
    outcomes_were_caused(run, last, outcome);
    let j = choose|j: int| 0 <= j <= last && #[trigger] caused(run, j, outcome);
    assert(!hinders(run[j]));
    match outcome {
        RestoreOutcome::NoUpload => {
            assert(j > 0);
            assert(restore_follows(run, j));
            assert(outcome_of(restore_next(run[j - 1])) is None);
            outcomes_are_brought_about(run, j, outcome);
            assert(restore_next(run[j]) is Reply);
            if j < last {
                assert(restore_follows(run, j + 1));
            }
        },
        RestoreOutcome::CodeRequired => {
            assert(j > 0);
            assert(restore_follows(run, j));
            assert(outcome_of(restore_next(run[j - 1])) is None);
            outcomes_are_brought_about(run, j, outcome);
            if had_code(run, last) {
                let k = choose|k: int|
                    0 <= k <= last && ((#[trigger] run[k]) matches RestoreEvent::CodeRead {
                        result,
                        ..
                    } && result is Ok);
                assert(run[k] is CodeRead);
                assert(j < k);
                outcome_stands(run, j, k - 1);
                assert(restore_follows(run, k));
            }
        },
        RestoreOutcome::RolledBack { error, .. }
        | RestoreOutcome::RollbackFailed { error, .. } => {
            let k = choose|k: int| 0 <= k <= j && #[trigger] replacement_failed(run[k], error);
            assert(!hinders(run[k]));
        },
        _ => {},
    }
}

/// Going back is tried after every failure to replace the data, with the failure
/// that was reported, and after no other event.
pub proof fn every_failed_replacement_is_rolled_back(
    event: RestoreEvent,
    session: Session,
    error: BackupError,
)
    ensures
        restore_next(event) == (RestoreStep::RestoreRecoveryPoint { session, error }) <==> {
            ||| event == (RestoreEvent::Activated { session, result: Err(error) })
            ||| event == (RestoreEvent::DatabaseOpened { session, result: Err(error) })
        },
        restore_next(event) == (RestoreStep::FixRollbackPermissions { session, error }) <==> (event
            matches RestoreEvent::RecoveryPointRestored { session: back, error: kept, result }
            && back == session && kept == error && result is Ok),
        restore_next(event) == (RestoreStep::OpenRollbackDatabase { session, error }) <==> (event
            matches RestoreEvent::RollbackPermissionsFixed { session: back, error: kept, .. }
            && back == session && kept == error),
{
}

/// A way back is called failed only after it was tried and failed, for the
/// reason that was reported.
pub proof fn failed_rollbacks_were_tried(
    run: Seq<RestoreEvent>,
    i: int,
    error: BackupError,
    rollback_error: BackupError,
    recovery: String,
)
    requires
        is_restore(run),
        0 <= i < run.len(),
        restore_next(run[i]) == (RestoreStep::Reply {
            outcome: RestoreOutcome::RollbackFailed { error, rollback_error, recovery },
        }),
    ensures
        exists|j: int| 0 <= j <= i && #[trigger] rollback_failed(run[j], rollback_error),
        exists|k: int| 0 <= k <= i && #[trigger] replacement_failed(run[k], error),
{
    let outcome = RestoreOutcome::RollbackFailed { error, rollback_error, recovery };
    outcomes_were_caused(run, i, outcome);
    let j = choose|j: int| 0 <= j <= i && #[trigger] caused(run, j, outcome);
    assert(rollback_failed(run[j], rollback_error));
    let k = choose|k: int| 0 <= k <= j && #[trigger] replacement_failed(run[k], error);
    assert(replacement_failed(run[k], error));
}

/// Every piece of a file that is read is written as it came, whatever its
/// length; the file is completed exactly at its end, and the next piece is read
/// exactly after the file was created or a piece was written.
pub proof fn every_piece_is_written(event: RestoreEvent, session: Session, chunk: Vec<u8>)
    ensures
        restore_next(event) == (RestoreStep::WriteChunk { session, chunk }) <==> event == (
        RestoreEvent::ChunkRead { session, result: Ok(Some(chunk)) }),
        restore_next(event) == (RestoreStep::FlushUpload { session }) <==> (event matches
            RestoreEvent::ChunkRead { session: back, result: Ok(None) } && back == session),
        restore_next(event) == (RestoreStep::ReadChunk { session }) <==> {
            ||| event matches RestoreEvent::UploadCreated { session: back, result } && back
                == session && result is Ok
            ||| event matches RestoreEvent::ChunkWritten { session: back, result } && back
                == session && result is Ok
        },
{
}

/// Whether the part of a request has this name.
pub open spec fn has_name(name: Option<String>, wanted: Seq<char>) -> bool {
    name matches Some(given) && given@ == wanted
}

/// A part is saved exactly if its name is `file`, and read as a code exactly if
/// its name is `totp_code`; any other is passed over. A restore begins with
/// nothing but the path and the address that it is given, and remembers that a
/// file was saved and the code that was read, and nothing else.
pub proof fn parts_are_taken_by_their_names(event: RestoreEvent, session: Session)
    ensures
        restore_next(event) == (RestoreStep::CreateUpload { session }) <==> (event matches
            RestoreEvent::FieldRead { session: back, result: Ok(Some(field)) } && back == session
            && (field.name matches Some(name) && name@ == seq!['f', 'i', 'l', 'e'])),
        restore_next(event) == (RestoreStep::ReadCode { session }) <==> (event matches
            RestoreEvent::FieldRead { session: back, result: Ok(Some(field)) } && back == session
            && (field.name matches Some(name) && name@ == seq![
            't',
            'o',
            't',
            'p',
            '_',
            'c',
            'o',
            'd',
            'e',
        ])),
        restore_next(event) == (RestoreStep::ReadField { session }) <==> {
            ||| event matches RestoreEvent::Start { recovery, database } && session == (Session {
                recovery,
                database,
                file_received: false,
                totp_code: None,
            })
            ||| event matches RestoreEvent::FieldRead { session: back, result: Ok(Some(field)) }
                && back == session && !has_name(field.name, seq!['f', 'i', 'l', 'e']) && !has_name(
                field.name,
                seq!['t', 'o', 't', 'p', '_', 'c', 'o', 'd', 'e'],
            )
            ||| event matches RestoreEvent::UploadFlushed { session: back, result } && result is Ok
                && session == (Session { file_received: true, ..back })
            ||| event matches RestoreEvent::CodeRead { session: back, result: Ok(code) } && session
                == (Session { totp_code: Some(code), ..back })
        },
{
    reveal_strlit("file");
    reveal_strlit("totp_code");
    assert("file"@ =~= seq!['f', 'i', 'l', 'e']);
    assert("totp_code"@ =~= seq!['t', 'o', 't', 'p', '_', 'c', 'o', 'd', 'e']);
}

/// At the end of a request with a file it is asked whether a code is needed; if
/// so, the code that was read is checked, and the database is locked exactly if
/// none is needed or the code is right.
pub proof fn needed_codes_are_checked(event: RestoreEvent, session: Session, code: String)
    ensures
        restore_next(event) == (RestoreStep::CheckTotp { session }) <==> (event matches
            RestoreEvent::FieldRead { session: back, result: Ok(None) } && back == session
            && session.file_received),
        restore_next(event) == (RestoreStep::VerifyCode { session, code }) <==> event == (
        RestoreEvent::TotpChecked { session, result: Ok(true) }) && session.totp_code == Some(code),
        restore_next(event) == (RestoreStep::LockDatabase { session }) <==> {
            ||| event == (RestoreEvent::TotpChecked { session, result: Ok(false) })
            ||| event == (RestoreEvent::CodeVerified { session, result: Ok(true) })
        },
{
}

/// Under the lock the log is written back; where no connection was busy the data
/// is saved; where that succeeded the upload is prepared; where that succeeded
/// the database is closed and what was prepared is put in place; where that
/// succeeded permissions are set, and whatever came of that, the database is
/// opened.
pub proof fn data_is_replaced_in_order(event: RestoreEvent, session: Session, staging: String)
    ensures
        restore_next(event) == (RestoreStep::Checkpoint { session }) <==> event == (
        RestoreEvent::DatabaseLocked { session }),
        restore_next(event) == (RestoreStep::CreateRecoveryPoint { session }) <==> event == (
        RestoreEvent::Checkpointed { session, result: Ok(0) }),
        restore_next(event) == (RestoreStep::PrepareUpload { session }) <==> (event matches
            RestoreEvent::RecoveryPointCreated { session: back, result } && back == session
            && result is Ok),
        restore_next(event) == (RestoreStep::ClosePool { session, staging }) <==> event == (
        RestoreEvent::UploadPrepared { session, result: Ok(staging) }),
        restore_next(event) == (RestoreStep::Activate { session, staging }) <==> event == (
        RestoreEvent::PoolClosed { session, staging }),
        restore_next(event) == (RestoreStep::FixPermissions { session }) <==> (event matches
            RestoreEvent::Activated { session: back, result } && back == session && result is Ok),
        restore_next(event) == (RestoreStep::OpenDatabase { session }) <==> (event matches
            RestoreEvent::PermissionsFixed { session: back, .. } && back == session),
{
}

/// The upload is deleted exactly once an outcome stands: with what was reported
/// as it was reported, or after a restored backup was let go of. Where there is
/// no file, or it could not be created, there is nothing to delete.
pub proof fn uploads_are_deleted_once_an_outcome_stands(
    event: RestoreEvent,
    outcome: RestoreOutcome,
)
    ensures
        restore_next(event) == (RestoreStep::RemoveUpload { outcome }) <==> match outcome {
            RestoreOutcome::NoUpload | RestoreOutcome::UploadNotCreated(_) => event == (
            RestoreEvent::PoolReleased { outcome }),
            RestoreOutcome::CodeRequired => event == (RestoreEvent::PoolReleased { outcome }) || (
            event matches RestoreEvent::TotpChecked { session, result } && result == Ok::<bool, ()>(
                true,
            ) && session.totp_code is None),
            RestoreOutcome::RolledBack { error, recovery } => event == (RestoreEvent::PoolReleased {
                outcome,
            }) || (event matches RestoreEvent::RollbackDatabaseOpened {
                session,
                error: kept,
                result,
            } && kept == error && session.recovery == recovery && result is Ok),
            RestoreOutcome::RollbackFailed { error, rollback_error, recovery } => {
                ||| event == (RestoreEvent::PoolReleased { outcome })
                ||| event matches RestoreEvent::RecoveryPointRestored {
                    session,
                    error: kept,
                    result: Err(told),
                } && kept == error && session.recovery == recovery && told == rollback_error
                ||| event matches RestoreEvent::RollbackDatabaseOpened {
                    session,
                    error: kept,
                    result: Err(told),
                } && kept == error && session.recovery == recovery && told == rollback_error
            },
            RestoreOutcome::Restored => event == (RestoreEvent::PoolReleased { outcome }),
            _ => event == (RestoreEvent::PoolReleased { outcome }) || caused(
                seq![event],
                0,
                outcome,
            ),
        },
{
    assert(seq![event][0] == event);
}

/// Once an outcome stands, the upload is deleted; then the recovery point if the
/// backup is in place, could not be saved, or was refused; connections are
/// handed out after a restored backup was opened and after going back; and of a
/// restored backup the connections and the lock are let go of, and tasks,
/// subscriptions and the schedule are read anew, whatever came of each.
pub proof fn ends_are_tied_up(event: RestoreEvent, outcome: RestoreOutcome)
    ensures
        restore_next(event) == (RestoreStep::RemoveRecoveryPoint { outcome }) <==> (event matches
            RestoreEvent::UploadRemoved { outcome: back, .. } && back == outcome) && (
        outcome is Restored || outcome is RecoveryPointFailed || outcome is BackupRefused),
        restore_next(event) == (RestoreStep::InstallPool { outcome }) <==> {
            ||| (event matches RestoreEvent::DatabaseOpened { result, .. } && result is Ok)
                && outcome is Restored
            ||| (event matches RestoreEvent::UploadRemoved { outcome: back, .. } && back == outcome)
                && outcome is RolledBack
        },
        restore_next(event) == (RestoreStep::ReleasePool { outcome }) <==> event == (
        RestoreEvent::PoolInstalled { outcome }) && outcome is Restored,
        restore_next(event) == (RestoreStep::ReleaseOperations { outcome }) <==> (event matches
            RestoreEvent::RecoveryPointRemoved { outcome: back, .. } && back == outcome)
            && outcome is Restored,
        restore_next(event) == (RestoreStep::ReloadTasks { outcome }) <==> event == (
        RestoreEvent::OperationsReleased { outcome }),
        restore_next(event) == (RestoreStep::ReloadSubscriptions { outcome }) <==> (event matches
            RestoreEvent::TasksReloaded { outcome: back, .. } && back == outcome),
        restore_next(event) == (RestoreStep::ReloadBackupJob { outcome }) <==> (event matches
            RestoreEvent::SubscriptionsReloaded { outcome: back, .. } && back == outcome),
{
}

/// A request is answered at once where there is no file or it could not be
/// created, and else exactly when its outcome has been tied up.
pub proof fn replies_come_last(event: RestoreEvent, outcome: RestoreOutcome)
    ensures
        restore_next(event) == (RestoreStep::Reply { outcome }) <==> {
            ||| (event matches RestoreEvent::FieldRead { session, result: Ok(None) }
                && !session.file_received) && outcome is NoUpload
            ||| event matches RestoreEvent::UploadCreated { result: Err(error), .. } && outcome
                == RestoreOutcome::UploadNotCreated(error)
            ||| (event matches RestoreEvent::UploadRemoved { outcome: back, .. } && back == outcome)
                && !(outcome is Restored || outcome is RecoveryPointFailed
                || outcome is BackupRefused || outcome is RolledBack)
            ||| (event matches RestoreEvent::RecoveryPointRemoved { outcome: back, .. } && back
                == outcome) && !(outcome is Restored)
            ||| event == (RestoreEvent::PoolInstalled { outcome }) && !(outcome is Restored)
            ||| event matches RestoreEvent::BackupJobReloaded { outcome: back, .. } && back
                == outcome
        },
{
}

/// A restored backup is answered after exactly these steps from the lock on, in
/// this order.
pub proof fn restored_backups_took_every_step(run: Seq<RestoreEvent>, i: int)
    requires
        is_restore(run),
        0 <= i < run.len(),
        restore_next(run[i]) == (RestoreStep::Reply { outcome: RestoreOutcome::Restored }),
    ensures
        i >= 16,
        restore_next(run[i - 16]) is LockDatabase,
        restore_next(run[i - 15]) is Checkpoint,
        restore_next(run[i - 14]) is CreateRecoveryPoint,
        restore_next(run[i - 13]) is PrepareUpload,
        restore_next(run[i - 12]) is ClosePool,
        restore_next(run[i - 11]) is Activate,
        restore_next(run[i - 10]) is FixPermissions,
        restore_next(run[i - 9]) is OpenDatabase,
        restore_next(run[i - 8]) is InstallPool,
        restore_next(run[i - 7]) is ReleasePool,
        restore_next(run[i - 6]) is RemoveUpload,
        restore_next(run[i - 5]) is RemoveRecoveryPoint,
        restore_next(run[i - 4]) is ReleaseOperations,
        restore_next(run[i - 3]) is ReloadTasks,
        restore_next(run[i - 2]) is ReloadSubscriptions,
        restore_next(run[i - 1]) is ReloadBackupJob,
{
    assert(restore_follows(run, i));
    assert(restore_follows(run, i - 1));
    assert(restore_follows(run, i - 2));
    assert(restore_follows(run, i - 3));
    assert(restore_follows(run, i - 4));
    assert(restore_follows(run, i - 5));
    assert(restore_follows(run, i - 6));
    assert(restore_follows(run, i - 7));
    assert(restore_follows(run, i - 8));
    assert(restore_follows(run, i - 9));
    assert(restore_follows(run, i - 10));
    assert(restore_follows(run, i - 11));
    assert(restore_follows(run, i - 12));
    assert(restore_follows(run, i - 13));
    assert(restore_follows(run, i - 14));
    assert(restore_follows(run, i - 15));
}

/// A restore that went back is answered after exactly these steps from the
/// failure on, in this order.
pub proof fn rollbacks_took_every_step(
    run: Seq<RestoreEvent>,
    i: int,
    error: BackupError,
    recovery: String,
)
    requires
        is_restore(run),
        0 <= i < run.len(),
        restore_next(run[i]) == (RestoreStep::Reply {
            outcome: RestoreOutcome::RolledBack { error, recovery },
        }),
    ensures
        i >= 5,
        restore_next(run[i - 5]) is RestoreRecoveryPoint,
        restore_next(run[i - 4]) is FixRollbackPermissions,
        restore_next(run[i - 3]) is OpenRollbackDatabase,
        restore_next(run[i - 2]) is RemoveUpload,
        restore_next(run[i - 1]) is InstallPool,
        replacement_failed(run[i - 5], error),
{
    assert(restore_follows(run, i));
    assert(restore_follows(run, i - 1));
    assert(restore_follows(run, i - 2));
    assert(restore_follows(run, i - 3));
    assert(restore_follows(run, i - 4));
}

} // verus!
