use zhuque_backup::error::{BackupError, ErrorKind};
use zhuque_backup::reply::{Reply, RestoreOutcome};

fn failed(kind: ErrorKind) -> BackupError {
    BackupError::System(kind, "disk full".to_string())
}

fn refusal(status: u16, message: &str) -> Reply {
    Reply {
        status,
        success: false,
        message: message.to_string(),
        requires_totp: None,
        current_backup: None,
    }
}

#[test]
fn every_outcome_has_its_reply() {
    let other = || failed(ErrorKind::Other);
    for (outcome, status, message) in [
        (
            RestoreOutcome::UploadInterrupted,
            400,
            "上传中断或请求格式错误，请重新选择备份文件后重试",
        ),
        (
            RestoreOutcome::UploadNotCreated(other()),
            500,
            "保存上传文件失败: disk full",
        ),
        (RestoreOutcome::UploadIncomplete, 400, "备份文件上传不完整，请重试"),
        (
            RestoreOutcome::UploadNotSaved(other()),
            500,
            "保存上传文件失败: disk full",
        ),
        (RestoreOutcome::CodeUnreadable, 400, "TOTP验证码请求格式错误"),
        (
            RestoreOutcome::NoUpload,
            400,
            "未接收到备份文件，请选择一个有效的 .tar.gz 文件",
        ),
        (RestoreOutcome::TotpUnavailable, 500, "读取TOTP配置失败，恢复已取消"),
        (RestoreOutcome::WrongCode, 400, "TOTP验证码错误"),
        (RestoreOutcome::CodeNotChecked, 500, "TOTP验证失败"),
        (RestoreOutcome::DatabaseBusy, 409, "数据库正在使用中，请稍后重试"),
        (
            RestoreOutcome::CheckpointFailed("locked".to_string()),
            500,
            "创建恢复点失败: locked，未修改现有数据",
        ),
        (
            RestoreOutcome::RecoveryPointFailed(other()),
            500,
            "创建当前数据回滚备份失败: disk full，未修改现有数据",
        ),
        (
            RestoreOutcome::BackupRefused(BackupError::MissingDatabase),
            400,
            "备份文件校验失败: backup archive does not contain data/app.db",
        ),
        (
            RestoreOutcome::BackupRefused(failed(ErrorKind::InvalidData)),
            400,
            "备份文件校验失败: disk full",
        ),
        (
            RestoreOutcome::BackupRefused(failed(ErrorKind::NotFound)),
            500,
            "备份文件校验失败: disk full",
        ),
    ] {
        assert_eq!(outcome.status(), status);
        assert_eq!(outcome.message(), message);
        assert_eq!(outcome.reply(), refusal(status, message));
    }
}

#[test]
fn a_missing_code_is_asked_for() {
    assert_eq!(
        RestoreOutcome::CodeRequired.reply(),
        Reply {
            requires_totp: Some(true),
            ..refusal(400, "需要提供TOTP验证码")
        }
    );
}

#[test]
fn failed_restores_tell_where_the_data_is() {
    let recovery = || "/srv/saved.tar.gz".to_string();
    let rolled_back = RestoreOutcome::RolledBack {
        error: failed(ErrorKind::Other),
        recovery: recovery(),
    };
    assert_eq!(
        rolled_back.reply(),
        Reply {
            current_backup: Some(recovery()),
            ..refusal(500, "备份恢复失败: disk full。当前数据已自动回滚。")
        }
    );
    let stuck = RestoreOutcome::RollbackFailed {
        error: failed(ErrorKind::Other),
        rollback_error: BackupError::InvalidLayout,
        recovery: recovery(),
    };
    assert_eq!(
        stuck.reply(),
        Reply {
            current_backup: Some(recovery()),
            ..refusal(
                500,
                "备份恢复失败: disk full；自动回滚失败: backup archive has an invalid data \
                 layout。数据库访问已停止，请使用恢复点修复数据后重启服务"
            )
        }
    );
}

#[test]
fn success_is_told() {
    assert_eq!(
        RestoreOutcome::Restored.reply(),
        Reply {
            status: 200,
            success: true,
            message: "备份恢复成功，数据库已重新初始化。".to_string(),
            requires_totp: None,
            current_backup: None,
        }
    );
}
