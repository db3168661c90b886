//! How a restore can end, and what the requester is told.

use vstd::prelude::*;

use crate::error::{BackupError, ErrorKind};

verus! {

/// The ways in which a request to restore a backup ends.
#[derive(Debug, PartialEq, Eq)]
pub enum RestoreOutcome {
    /// A part of the request could not be read.
    UploadInterrupted,
    /// The file for the upload could not be created.
    UploadNotCreated(BackupError),
    /// The uploaded file broke off.
    UploadIncomplete,
    /// The uploaded file could not be written.
    UploadNotSaved(BackupError),
    /// The one-time code in the request could not be read.
    CodeUnreadable,
    /// The request holds no file.
    NoUpload,
    /// It is not known whether a one-time code is needed.
    TotpUnavailable,
    /// A one-time code is needed, and the request holds none.
    CodeRequired,
    /// The one-time code is wrong.
    WrongCode,
    /// The one-time code could not be checked.
    CodeNotChecked,
    /// The database is in use.
    DatabaseBusy,
    /// The database could not be brought to rest; the text says why.
    CheckpointFailed(String),
    /// The present data could not be saved.
    RecoveryPointFailed(BackupError),
    /// The uploaded file is no backup that can be restored.
    BackupRefused(BackupError),
    /// The restore failed, and the present data is back.
    RolledBack { error: BackupError, recovery: String },
    /// The restore failed, and so did bringing the present data back.
    RollbackFailed { error: BackupError, rollback_error: BackupError, recovery: String },
    /// The backup is in place.
    Restored,
}

/// An answer to a request to restore a backup.
#[derive(Debug, PartialEq, Eq)]
pub struct Reply {
    /// The status of the response.
    pub status: u16,
    /// Whether the backup is in place.
    pub success: bool,
    /// What happened, for people to read.
    pub message: String,
    /// Present, and true, where a one-time code is asked for.
    pub requires_totp: Option<bool>,
    /// Where the saved data is, for an outcome that keeps it.
    pub current_backup: Option<String>,
}

impl RestoreOutcome {
    /// The status of the response to this outcome.
    pub open spec fn spec_status(self) -> u16 {
        match self {
            RestoreOutcome::Restored => 200,
            RestoreOutcome::UploadInterrupted
            | RestoreOutcome::UploadIncomplete
            | RestoreOutcome::CodeUnreadable
            | RestoreOutcome::NoUpload
            | RestoreOutcome::CodeRequired
            | RestoreOutcome::WrongCode => 400,
            RestoreOutcome::DatabaseBusy => 409,
            RestoreOutcome::BackupRefused(error) => if error.spec_kind() is InvalidData {
                400
            } else {
                500
            },
            _ => 500,
        }
    }

    /// The words of the response to this outcome.
    pub open spec fn words(self) -> Seq<char> {
        match self {
            RestoreOutcome::UploadInterrupted =>
                "上传中断或请求格式错误，请重新选择备份文件后重试"@,
            RestoreOutcome::UploadNotCreated(error) => "保存上传文件失败: "@ + error.words(),
            RestoreOutcome::UploadIncomplete => "备份文件上传不完整，请重试"@,
            RestoreOutcome::UploadNotSaved(error) => "保存上传文件失败: "@ + error.words(),
            RestoreOutcome::CodeUnreadable => "TOTP验证码请求格式错误"@,
            RestoreOutcome::NoUpload =>
                "未接收到备份文件，请选择一个有效的 .tar.gz 文件"@,
            RestoreOutcome::TotpUnavailable => "读取TOTP配置失败，恢复已取消"@,
            RestoreOutcome::CodeRequired => "需要提供TOTP验证码"@,
            RestoreOutcome::WrongCode => "TOTP验证码错误"@,
            RestoreOutcome::CodeNotChecked => "TOTP验证失败"@,
            RestoreOutcome::DatabaseBusy => "数据库正在使用中，请稍后重试"@,
            RestoreOutcome::CheckpointFailed(text) =>
                "创建恢复点失败: "@ + text@ + "，未修改现有数据"@,
            RestoreOutcome::RecoveryPointFailed(error) =>
                "创建当前数据回滚备份失败: "@ + error.words() + "，未修改现有数据"@,
            RestoreOutcome::BackupRefused(error) => "备份文件校验失败: "@ + error.words(),
            RestoreOutcome::RolledBack { error, .. } =>
                "备份恢复失败: "@ + error.words() + "。当前数据已自动回滚。"@,
            RestoreOutcome::RollbackFailed { error, rollback_error, .. } =>
                "备份恢复失败: "@ + error.words() + "；自动回滚失败: "@ + rollback_error.words()
                + "。数据库访问已停止，请使用恢复点修复数据后重启服务"@,
            RestoreOutcome::Restored => "备份恢复成功，数据库已重新初始化。"@,
        }
    }

    /// Where the outcome says that the saved data is.
    pub open spec fn kept_recovery(self) -> Option<String> {
        match self {
            RestoreOutcome::RolledBack { recovery, .. } => Some(recovery),
            RestoreOutcome::RollbackFailed { recovery, .. } => Some(recovery),
            _ => None,
        }
    }

    /// The status of the response to this outcome.
    pub fn status(&self) -> (res: u16)
        ensures
            res == self.spec_status(),
    {
        match self {
            RestoreOutcome::Restored => 200,
            RestoreOutcome::UploadInterrupted
            | RestoreOutcome::UploadIncomplete
            | RestoreOutcome::CodeUnreadable
            | RestoreOutcome::NoUpload
            | RestoreOutcome::CodeRequired
            | RestoreOutcome::WrongCode => 400,
            RestoreOutcome::DatabaseBusy => 409,
            RestoreOutcome::BackupRefused(error) => match error.kind() {
                ErrorKind::InvalidData => 400,
                _ => 500,
            },
            _ => 500,
        }
    }

    /// The words of the response to this outcome.
    pub fn message(&self) -> (res: String)
        ensures
            res@ == self.words(),
    {
        match self {
            RestoreOutcome::UploadInterrupted =>
                "上传中断或请求格式错误，请重新选择备份文件后重试".to_owned(),
            RestoreOutcome::UploadNotCreated(error) => {
                let told: String = error.message();
                "保存上传文件失败: ".to_owned().concat(told.as_str())
            },
            RestoreOutcome::UploadIncomplete => "备份文件上传不完整，请重试".to_owned(),
            RestoreOutcome::UploadNotSaved(error) => {
                let told: String = error.message();
                "保存上传文件失败: ".to_owned().concat(told.as_str())
            },
            RestoreOutcome::CodeUnreadable => "TOTP验证码请求格式错误".to_owned(),
            RestoreOutcome::NoUpload =>
                "未接收到备份文件，请选择一个有效的 .tar.gz 文件".to_owned(),
            RestoreOutcome::TotpUnavailable => "读取TOTP配置失败，恢复已取消".to_owned(),
            RestoreOutcome::CodeRequired => "需要提供TOTP验证码".to_owned(),
            RestoreOutcome::WrongCode => "TOTP验证码错误".to_owned(),
            RestoreOutcome::CodeNotChecked => "TOTP验证失败".to_owned(),
            RestoreOutcome::DatabaseBusy => "数据库正在使用中，请稍后重试".to_owned(),
            RestoreOutcome::CheckpointFailed(text) =>
                "创建恢复点失败: ".to_owned().concat(text.as_str()).concat(
                    "，未修改现有数据",
                ),
            RestoreOutcome::RecoveryPointFailed(error) => {
                let told: String = error.message();
                "创建当前数据回滚备份失败: ".to_owned().concat(told.as_str()).concat(
                    "，未修改现有数据",
                )
            },
            RestoreOutcome::BackupRefused(error) => {
                let told: String = error.message();
                "备份文件校验失败: ".to_owned().concat(told.as_str())
            },
            RestoreOutcome::RolledBack { error, .. } => {
                let told: String = error.message();
                "备份恢复失败: ".to_owned().concat(told.as_str()).concat(
                    "。当前数据已自动回滚。",
                )
            },
            RestoreOutcome::RollbackFailed { error, rollback_error, .. } => {
                let told: String = error.message();
                let then_told: String = rollback_error.message();
                "备份恢复失败: ".to_owned().concat(told.as_str()).concat(
                    "；自动回滚失败: ",
                ).concat(then_told.as_str()).concat(
                    "。数据库访问已停止，请使用恢复点修复数据后重启服务",
                )
            },
            RestoreOutcome::Restored => "备份恢复成功，数据库已重新初始化。".to_owned(),
        }
    }

    /// The response to this outcome.
    pub fn reply(self) -> (res: Reply)
        ensures
            res.status == self.spec_status(),
            res.success == (self is Restored),
            res.message@ == self.words(),
            res.requires_totp == if self is CodeRequired {
                Some(true)
            } else {
                None
            },
            res.current_backup == self.kept_recovery(),
    {
        let status: u16 = self.status();
        let message: String = self.message();
        let success: bool = matches!(self, RestoreOutcome::Restored);
        let requires_totp: Option<bool> = match &self {
            RestoreOutcome::CodeRequired => Some(true),
            _ => None,
        };
        let current_backup: Option<String> = match self {
            RestoreOutcome::RolledBack { recovery, .. } => Some(recovery),
            RestoreOutcome::RollbackFailed { recovery, .. } => Some(recovery),
            _ => None,
        };
        Reply { status, success, message, requires_totp, current_backup }
    }
}

} // verus!
