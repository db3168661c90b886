//! Whole requests to restore a backup, in a world that is made up.

use zhuque_backup::error::{BackupError, ErrorKind};
use zhuque_backup::reply::RestoreOutcome;
use zhuque_backup::restore::{restore_backup, Field, RestoreEvent, RestoreStep};

fn failed() -> BackupError {
    BackupError::System(ErrorKind::Other, "disk full".to_string())
}

/// A part of a request.
#[derive(Clone)]
enum Part {
    File(Vec<Vec<u8>>),
    TornFile,
    Code(&'static str),
    TornCode,
    Other(Option<&'static str>),
    Torn,
}

/// What answers a restore, and what came of it.
struct World {
    parts: Vec<Part>,
    present: Option<Part>,
    totp: Result<bool, ()>,
    right_code: &'static str,
    code_check_fails: bool,
    busy: Result<i64, String>,
    /// The actions that fail.
    failing: Vec<&'static str>,
    refusal: Option<BackupError>,
    /// All that was done, in order.
    log: Vec<&'static str>,
    upload: Option<Vec<u8>>,
    prepared_upload: Option<Vec<u8>>,
    recovery: bool,
    checked_code: Option<String>,
    data: &'static str,
    pool_open: bool,
}

fn world(parts: Vec<Part>) -> World {
    World {
        parts,
        present: None,
        totp: Ok(false),
        right_code: "123456",
        code_check_fails: false,
        busy: Ok(0),
        failing: vec![],
        refusal: None,
        log: vec![],
        upload: None,
        prepared_upload: None,
        recovery: false,
        checked_code: None,
        data: "old",
        pool_open: true,
    }
}

fn a_file() -> Part {
    Part::File(vec![vec![1, 2], vec![], vec![3]])
}

impl World {
    fn act(&mut self, action: &'static str) -> Result<(), BackupError> {
        self.log.push(action);
        if self.failing.contains(&action) {
            Err(failed())
        } else {
            Ok(())
        }
    }

    fn did(&self, action: &str) -> bool {
        self.log.iter().any(|done| *done == action)
    }

    fn run(&mut self) -> RestoreOutcome {
        let mut event = RestoreEvent::Start {
            recovery: "/srv/saved.tar.gz".to_string(),
            database: "sqlite:///srv/data/app.db".to_string(),
        };
        let mut chunks: Vec<Vec<u8>> = vec![];
        loop {
            event = match restore_backup(event) {
                RestoreStep::ReadField { session } => {
                    let result = if self.parts.is_empty() {
                        self.present = None;
                        Ok(None)
                    } else {
                        let part = self.parts.remove(0);
                        self.present = Some(part.clone());
                        match part {
                            Part::File(pieces) => {
                                chunks = pieces;
                                Ok(Some(Field { name: Some("file".to_string()) }))
                            }
                            Part::TornFile => Ok(Some(Field { name: Some("file".to_string()) })),
                            Part::Code(_) | Part::TornCode => {
                                Ok(Some(Field { name: Some("totp_code".to_string()) }))
                            }
                            Part::Other(name) => Ok(Some(Field { name: name.map(str::to_string) })),
                            Part::Torn => Err(()),
                        }
                    };
                    RestoreEvent::FieldRead { session, result }
                }
                RestoreStep::CreateUpload { session } => {
                    let result = self.act("create upload");
                    if result.is_ok() {
                        self.upload = Some(vec![]);
                    }
                    RestoreEvent::UploadCreated { session, result }
                }
                RestoreStep::ReadChunk { session } => {
                    let result = if matches!(self.present, Some(Part::TornFile)) {
                        Err(())
                    } else if chunks.is_empty() {
                        Ok(None)
                    } else {
                        Ok(Some(chunks.remove(0)))
                    };
                    RestoreEvent::ChunkRead { session, result }
                }
                RestoreStep::WriteChunk { session, chunk } => {
                    let result = self.act("write chunk");
                    self.upload.as_mut().unwrap().extend(chunk);
                    RestoreEvent::ChunkWritten { session, result }
                }
                RestoreStep::FlushUpload { session } => {
                    RestoreEvent::UploadFlushed { session, result: self.act("flush upload") }
                }
                RestoreStep::ReadCode { session } => {
                    let result = match &self.present {
                        Some(Part::Code(code)) => Ok(code.to_string()),
                        _ => Err(()),
                    };
                    RestoreEvent::CodeRead { session, result }
                }
                RestoreStep::CheckTotp { session } => {
                    RestoreEvent::TotpChecked { session, result: self.totp }
                }
                RestoreStep::VerifyCode { session, code } => {
                    let right = code == self.right_code;
                    self.checked_code = Some(code);
                    let result = if self.code_check_fails { Err(()) } else { Ok(right) };
                    RestoreEvent::CodeVerified { session, result }
                }
                RestoreStep::LockDatabase { session } => {
                    self.log.push("lock");
                    RestoreEvent::DatabaseLocked { session }
                }
                RestoreStep::Checkpoint { session } => {
                    RestoreEvent::Checkpointed { session, result: self.busy.clone() }
                }
                RestoreStep::CreateRecoveryPoint { session } => {
                    self.recovery = true;
                    let result = self.act("create recovery point");
                    RestoreEvent::RecoveryPointCreated { session, result }
                }
                RestoreStep::PrepareUpload { session } => {
                    self.log.push("prepare");
                    self.prepared_upload = self.upload.clone();
                    let result = match self.refusal.take() {
                        Some(error) => Err(error),
                        None => Ok("staging".to_string()),
                    };
                    RestoreEvent::UploadPrepared { session, result }
                }
                RestoreStep::ClosePool { session, staging } => {
                    self.pool_open = false;
                    self.log.push("close pool");
                    RestoreEvent::PoolClosed { session, staging }
                }
                RestoreStep::Activate { session, staging } => {
                    assert_eq!(staging, "staging");
                    self.data = "half";
                    let result = self.act("activate");
                    if result.is_ok() {
                        self.data = "new";
                    }
                    RestoreEvent::Activated { session, result }
                }
                RestoreStep::FixPermissions { session } => {
                    RestoreEvent::PermissionsFixed { session, result: self.act("fix permissions") }
                }
                RestoreStep::OpenDatabase { session } => {
                    assert_eq!(session.database, "sqlite:///srv/data/app.db");
                    RestoreEvent::DatabaseOpened { session, result: self.act("open database") }
                }
                RestoreStep::RestoreRecoveryPoint { session, error } => {
                    assert!(self.recovery);
                    let result = self.act("go back");
                    if result.is_ok() {
                        self.data = "old";
                    }
                    RestoreEvent::RecoveryPointRestored { session, error, result }
                }
                RestoreStep::FixRollbackPermissions { session, error } => {
                    let result = self.act("fix permissions again");
                    RestoreEvent::RollbackPermissionsFixed { session, error, result }
                }
                RestoreStep::OpenRollbackDatabase { session, error } => {
                    let result = self.act("open database again");
                    RestoreEvent::RollbackDatabaseOpened { session, error, result }
                }
                RestoreStep::RemoveUpload { outcome } => {
                    self.upload = None;
                    RestoreEvent::UploadRemoved { outcome, result: self.act("remove upload") }
                }
                RestoreStep::RemoveRecoveryPoint { outcome } => {
                    self.recovery = false;
                    let result = self.act("remove recovery point");
                    RestoreEvent::RecoveryPointRemoved { outcome, result }
                }
                RestoreStep::InstallPool { outcome } => {
                    self.pool_open = true;
                    self.log.push("install pool");
                    RestoreEvent::PoolInstalled { outcome }
                }
                RestoreStep::ReleasePool { outcome } => {
                    self.log.push("release pool");
                    RestoreEvent::PoolReleased { outcome }
                }
                RestoreStep::ReleaseOperations { outcome } => {
                    self.log.push("release operations");
                    RestoreEvent::OperationsReleased { outcome }
                }
                RestoreStep::ReloadTasks { outcome } => {
                    self.log.push("reload tasks");
                    RestoreEvent::TasksReloaded { outcome, result: Err("late".to_string()) }
                }
                RestoreStep::ReloadSubscriptions { outcome } => {
                    self.log.push("reload subscriptions");
                    RestoreEvent::SubscriptionsReloaded { outcome, result: Err("late".to_string()) }
                }
                RestoreStep::ReloadBackupJob { outcome } => {
                    self.log.push("reload backup job");
                    RestoreEvent::BackupJobReloaded { outcome, result: Err("late".to_string()) }
                }
                RestoreStep::Reply { outcome } => return outcome,
            };
        }
    }
}

#[test]
fn backups_are_restored() {
    let mut w = world(vec![Part::Other(None), a_file(), Part::Other(Some("note"))]);
    assert_eq!(w.run(), RestoreOutcome::Restored);
    assert_eq!(
        w.log,
        [
            "create upload",
            "write chunk",
            "write chunk",
            "write chunk",
            "flush upload",
            "lock",
            "create recovery point",
            "prepare",
            "close pool",
            "activate",
            "fix permissions",
            "open database",
            "install pool",
            "release pool",
            "remove upload",
            "remove recovery point",
            "release operations",
            "reload tasks",
            "reload subscriptions",
            "reload backup job",
        ]
    );
    assert_eq!(w.data, "new");
    assert!(w.pool_open);
    assert!(!w.recovery);
    assert_eq!(w.upload, None);
}

#[test]
fn uploads_are_saved_as_they_come() {
    let mut w = world(vec![a_file()]);
    assert_eq!(w.run(), RestoreOutcome::Restored);
    assert_eq!(w.prepared_upload, Some(vec![1, 2, 3]));

    // The file that comes last takes the place of the first.
    let mut w = world(vec![a_file(), Part::File(vec![vec![9], vec![8, 7]])]);
    assert_eq!(w.run(), RestoreOutcome::Restored);
    assert_eq!(w.prepared_upload, Some(vec![9, 8, 7]));

    let mut w = world(vec![Part::File(vec![])]);
    assert_eq!(w.run(), RestoreOutcome::Restored);
    assert_eq!(w.prepared_upload, Some(vec![]));
}

/// Runs a request that is refused before the data is touched.
fn refused(mut w: World) -> (RestoreOutcome, World) {
    let outcome = w.run();
    assert_eq!(w.data, "old");
    assert!(w.pool_open);
    assert!(!w.did("close pool"));
    assert!(!w.did("activate"));
    assert_eq!(w.upload, None);
    assert!(!w.recovery);
    (outcome, w)
}

#[test]
fn broken_requests_are_refused() {
    assert_eq!(refused(world(vec![])).0, RestoreOutcome::NoUpload);
    assert_eq!(refused(world(vec![Part::Code("123456")])).0, RestoreOutcome::NoUpload);
    assert_eq!(refused(world(vec![Part::Other(Some("File"))])).0, RestoreOutcome::NoUpload);
    let (outcome, w) = refused(world(vec![a_file(), Part::Torn]));
    assert_eq!(outcome, RestoreOutcome::UploadInterrupted);
    assert!(w.did("remove upload"));
    assert_eq!(refused(world(vec![Part::TornFile])).0, RestoreOutcome::UploadIncomplete);
    assert_eq!(
        refused(world(vec![a_file(), Part::TornCode])).0,
        RestoreOutcome::CodeUnreadable
    );
}

#[test]
fn uploads_that_cannot_be_saved_are_refused() {
    let (outcome, w) = refused(World {
        failing: vec!["create upload"],
        ..world(vec![a_file()])
    });
    assert_eq!(outcome, RestoreOutcome::UploadNotCreated(failed()));
    assert_eq!(w.log, ["create upload"]);
    for action in ["write chunk", "flush upload"] {
        let (outcome, w) = refused(World { failing: vec![action], ..world(vec![a_file()]) });
        assert_eq!(outcome, RestoreOutcome::UploadNotSaved(failed()));
        assert!(w.did("remove upload"));
    }
}

#[test]
fn codes_are_asked_for_and_checked() {
    let guarded = |parts| World { totp: Ok(true), ..world(parts) };
    assert_eq!(refused(guarded(vec![a_file()])).0, RestoreOutcome::CodeRequired);
    let (outcome, w) = refused(guarded(vec![Part::Code("000000"), a_file()]));
    assert_eq!(outcome, RestoreOutcome::WrongCode);
    assert_eq!(w.checked_code, Some("000000".to_string()));
    let (outcome, _) = refused(World {
        code_check_fails: true,
        ..guarded(vec![a_file(), Part::Code("123456")])
    });
    assert_eq!(outcome, RestoreOutcome::CodeNotChecked);
    let (outcome, _) = refused(World { totp: Err(()), ..world(vec![a_file()]) });
    assert_eq!(outcome, RestoreOutcome::TotpUnavailable);

    // The last code counts.
    let mut w = guarded(vec![Part::Code("000000"), a_file(), Part::Code("123456")]);
    assert_eq!(w.run(), RestoreOutcome::Restored);
    assert_eq!(w.checked_code, Some("123456".to_string()));
    let (outcome, _) = refused(guarded(vec![Part::Code("123456"), a_file(), Part::Code("0")]));
    assert_eq!(outcome, RestoreOutcome::WrongCode);

    // Where none is needed, none is checked.
    let mut w = world(vec![a_file(), Part::Code("000000")]);
    assert_eq!(w.run(), RestoreOutcome::Restored);
    assert_eq!(w.checked_code, None);
}

#[test]
fn databases_in_use_are_not_replaced() {
    for busy in [1, -1, i64::MAX] {
        let (outcome, w) = refused(World { busy: Ok(busy), ..world(vec![a_file()]) });
        assert_eq!(outcome, RestoreOutcome::DatabaseBusy);
        assert!(!w.did("create recovery point"));
    }
    let (outcome, _) = refused(World {
        busy: Err("locked".to_string()),
        ..world(vec![a_file()])
    });
    assert_eq!(outcome, RestoreOutcome::CheckpointFailed("locked".to_string()));
}

#[test]
fn data_is_saved_before_it_is_replaced() {
    let (outcome, w) = refused(World {
        failing: vec!["create recovery point"],
        ..world(vec![a_file()])
    });
    assert_eq!(outcome, RestoreOutcome::RecoveryPointFailed(failed()));
    assert!(!w.did("prepare"));
    assert!(w.did("remove recovery point"));
}

#[test]
fn bad_backups_are_refused() {
    let (outcome, w) = refused(World {
        refusal: Some(BackupError::MissingDatabase),
        ..world(vec![a_file()])
    });
    assert_eq!(outcome, RestoreOutcome::BackupRefused(BackupError::MissingDatabase));
    assert!(w.did("remove upload"));
    assert!(w.did("remove recovery point"));
    assert_eq!(outcome.status(), 400);
}

#[test]
fn failed_restores_are_rolled_back() {
    for action in ["activate", "open database"] {
        let mut w = World { failing: vec![action], ..world(vec![a_file()]) };
        assert_eq!(
            w.run(),
            RestoreOutcome::RolledBack {
                error: failed(),
                recovery: "/srv/saved.tar.gz".to_string()
            }
        );
        assert_eq!(w.data, "old");
        assert!(w.pool_open);
        assert!(w.recovery);
        assert_eq!(w.upload, None);
        assert!(!w.did("reload tasks"));
    }
}

#[test]
fn failed_rollbacks_keep_the_database_closed() {
    for action in ["go back", "open database again"] {
        let mut w = World { failing: vec!["activate", action], ..world(vec![a_file()]) };
        assert_eq!(
            w.run(),
            RestoreOutcome::RollbackFailed {
                error: failed(),
                rollback_error: failed(),
                recovery: "/srv/saved.tar.gz".to_string()
            }
        );
        assert!(!w.pool_open);
        assert!(w.recovery);
        assert_eq!(w.upload, None);
    }
}

#[test]
fn small_failures_do_not_stop_a_restore() {
    let mut w = World {
        failing: vec!["fix permissions", "remove upload", "remove recovery point"],
        ..world(vec![a_file()])
    };
    assert_eq!(w.run(), RestoreOutcome::Restored);
    let mut w = World {
        failing: vec!["open database", "fix permissions again"],
        ..world(vec![a_file()])
    };
    assert!(matches!(w.run(), RestoreOutcome::RolledBack { .. }));
}

#[test]
fn unknown_and_replaced_parts_make_no_difference() {
    let end = |parts| {
        let mut w = World { totp: Ok(true), ..world(parts) };
        let outcome = w.run();
        (outcome, w.prepared_upload, w.checked_code, w.data)
    };
    let last_file = Part::File(vec![vec![9]]);
    let plain = end(vec![last_file.clone(), Part::Code("123456")]);
    assert_eq!(plain.0, RestoreOutcome::Restored);
    assert_eq!(plain.1, Some(vec![9]));
    assert_eq!(end(vec![Part::Code("123456"), last_file.clone()]), plain);
    assert_eq!(
        end(vec![
            Part::Other(None),
            Part::Code("0"),
            a_file(),
            Part::Other(Some("note")),
            Part::Code("123456"),
            last_file,
            Part::Other(Some("totp")),
        ]),
        plain
    );
}

#[test]
fn codes_make_no_difference_where_none_is_needed() {
    let end = |parts| {
        let mut w = world(parts);
        let outcome = w.run();
        assert_eq!(w.checked_code, None);
        (outcome, w.prepared_upload, w.data, w.log)
    };
    let without = end(vec![a_file()]);
    assert_eq!(without.0, RestoreOutcome::Restored);
    assert_eq!(end(vec![a_file(), Part::Code("000000")]), without);
    assert_eq!(end(vec![Part::Code("123456"), a_file()]), without);
}
