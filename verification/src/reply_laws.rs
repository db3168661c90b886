//! What is told of failures and outcomes.

use vstd::prelude::*;

use crate::error::BackupError;
use crate::reply::RestoreOutcome;
#[allow(unused_imports)]
use crate::text::{contents, joined};

verus! {

/// Everything that faults the backup itself is invalid data, and a failure of
/// the system keeps the kind that it was reported with.
pub proof fn faults_of_backups_are_invalid_data(error: BackupError)
    ensures
        error matches BackupError::System(kind, _) ==> error.spec_kind() == kind,
        !(error is System) ==> error.spec_kind() is InvalidData,
{
}

/// What was told in words is told on unchanged, and the rows of an integrity
/// check are told in order, with commas between them.
pub proof fn reasons_are_told_on(error: BackupError)
    ensures
        error matches BackupError::UnreadableArchive(text) ==> error.words() == text@,
        error matches BackupError::UnreadableDatabase(text) ==> error.words() == text@,
        error matches BackupError::System(_, text) ==> error.words() == text@,
        error matches BackupError::QuickCheckFailed(rows) ==> {
            &&& "SQLite quick_check failed: "@.is_prefix_of(error.words())
            &&& error.words().skip("SQLite quick_check failed: "@.len() as int) == joined(
                contents(rows@),
                ", "@,
            )
        },
{
    if let BackupError::QuickCheckFailed(rows) = error {
        let head = "SQLite quick_check failed: "@;
        assert(error.words().take(head.len() as int) =~= head);
        assert(error.words().skip(head.len() as int) =~= joined(contents(rows@), ", "@));
    }
}

/// The status tells whose fault it is: that the backup is in place, that the
/// database is in use, that the request is at fault, or that the service is. A
/// refused backup is a fault of the request unless the system failed with
/// something else than invalid data.
pub proof fn statuses_tell_whose_fault_it_is(outcome: RestoreOutcome)
    ensures
        outcome.spec_status() == 200 <==> outcome is Restored,
        outcome.spec_status() == 409 <==> outcome is DatabaseBusy,
        outcome.spec_status() == 400 <==> {
            ||| outcome is UploadInterrupted
            ||| outcome is UploadIncomplete
            ||| outcome is CodeUnreadable
            ||| outcome is NoUpload
            ||| outcome is CodeRequired
            ||| outcome is WrongCode
            ||| outcome matches RestoreOutcome::BackupRefused(error) && !(error matches
                BackupError::System(kind, _) && !(kind is InvalidData))
        },
        outcome.spec_status() == 500 <==> {
            ||| outcome is UploadNotCreated
            ||| outcome is UploadNotSaved
            ||| outcome is TotpUnavailable
            ||| outcome is CodeNotChecked
            ||| outcome is CheckpointFailed
            ||| outcome is RecoveryPointFailed
            ||| outcome is RolledBack
            ||| outcome is RollbackFailed
            ||| outcome matches RestoreOutcome::BackupRefused(error) && (error matches
                BackupError::System(kind, _) && !(kind is InvalidData))
        },
{
}

/// What went wrong is told in full: the words of an outcome that has a reason
/// hold the words of the reason, between words that depend on the kind of
/// outcome alone.
pub proof fn outcomes_tell_their_reasons(outcome: RestoreOutcome)
    ensures
        match outcome {
            RestoreOutcome::UploadNotCreated(error) | RestoreOutcome::UploadNotSaved(error) =>
                outcome.words() == "保存上传文件失败: "@ + error.words(),
            RestoreOutcome::CheckpointFailed(text) => outcome.words() == "创建恢复点失败: "@ + text@
                + "，未修改现有数据"@,
            RestoreOutcome::RecoveryPointFailed(error) => outcome.words()
                == "创建当前数据回滚备份失败: "@ + error.words() + "，未修改现有数据"@,
            RestoreOutcome::BackupRefused(error) => outcome.words() == "备份文件校验失败: "@
                + error.words(),
            RestoreOutcome::RolledBack { error, .. } => outcome.words() == "备份恢复失败: "@
                + error.words() + "。当前数据已自动回滚。"@,
            RestoreOutcome::RollbackFailed { error, rollback_error, .. } => outcome.words()
                == "备份恢复失败: "@ + error.words() + "；自动回滚失败: "@
                + rollback_error.words()
                + "。数据库访问已停止，请使用恢复点修复数据后重启服务"@,
            _ => true,
        },
{
}

/// The path of the recovery point is told exactly after a restore that had to go
/// back, and it is the path that the outcome carries.
pub proof fn recovery_is_told_after_going_back(outcome: RestoreOutcome, path: String)
    ensures
        outcome.kept_recovery() == Some(path) <==> {
            ||| outcome matches RestoreOutcome::RolledBack { recovery, .. } && recovery == path
            ||| outcome matches RestoreOutcome::RollbackFailed { recovery, .. } && recovery == path
        },
        outcome.kept_recovery() is None <==> !(outcome is RolledBack || outcome is RollbackFailed),
{
}

} // verus!
