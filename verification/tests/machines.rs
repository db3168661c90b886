//! The machines that work on directories and databases, on answers that are
//! made up.

use zhuque_backup::activate::{
    activate_prepared_backup, restore_backup_file, ActivateEvent, ActivateStep, RestoreFileEvent,
    RestoreFileStep,
};
use zhuque_backup::create::{
    create_backup, create_backup_file, create_backup_file_unlocked, write_backup_archive,
    BackupFileEvent, BackupFileStep, CreateEvent, CreateOutcome, CreateStep, Download,
    LockedFileEvent, LockedFileStep, WriteEvent, WriteStep,
};
use zhuque_backup::database::{validate_database, DatabaseEvent, DatabaseStep};
use zhuque_backup::directory::{
    cleanup_restore_staging, clear_directory_contents_except, remove_path, CleanupEvent,
    CleanupStep, ClearEvent, ClearStep, EntryKind, RemoveEvent, RemoveStep,
};
use zhuque_backup::error::{BackupError, ErrorKind};
use zhuque_backup::permissions::{fix_permissions, PermissionsEvent, PermissionsStep};
use zhuque_backup::prepare::{prepare_backup_file, PrepareEvent, PrepareStep};

fn failed() -> BackupError {
    BackupError::System(ErrorKind::Other, "disk full".to_string())
}

fn missing() -> BackupError {
    BackupError::System(ErrorKind::NotFound, "no such file".to_string())
}

fn text(s: &str) -> String {
    s.to_string()
}

#[test]
fn only_directories_are_deleted_with_what_they_hold() {
    assert_eq!(remove_path(RemoveEvent::Start), RemoveStep::Inspect);
    assert_eq!(
        remove_path(RemoveEvent::Inspected(Ok(EntryKind::Directory))),
        RemoveStep::RemoveTree
    );
    for kind in [EntryKind::File, EntryKind::Symlink, EntryKind::Other] {
        assert_eq!(remove_path(RemoveEvent::Inspected(Ok(kind))), RemoveStep::RemoveFile);
    }
    assert_eq!(
        remove_path(RemoveEvent::Inspected(Err(missing()))),
        RemoveStep::Done(Err(missing()))
    );
    assert_eq!(remove_path(RemoveEvent::Removed(Ok(()))), RemoveStep::Done(Ok(())));
    assert_eq!(
        remove_path(RemoveEvent::Removed(Err(failed()))),
        RemoveStep::Done(Err(failed()))
    );
}

/// Cleans up a directory with the given entries; gives what is left of them.
fn cleaned(mut entries: Vec<&str>) -> Vec<&str> {
    let mut unread = entries.clone();
    unread.reverse();
    let mut event = CleanupEvent::Start;
    loop {
        event = match cleanup_restore_staging(event) {
            CleanupStep::List => CleanupEvent::Listed(Ok(())),
            CleanupStep::ReadEntry => CleanupEvent::EntryRead(Ok(unread.pop().map(text))),
            CleanupStep::Remove(name) => {
                entries.retain(|entry| *entry != name);
                CleanupEvent::Removed(Ok(()))
            }
            CleanupStep::Done(result) => {
                assert_eq!(result, Ok(()));
                return entries;
            }
        };
    }
}

#[test]
fn cleaning_up_deletes_every_staging() {
    assert_eq!(
        cleaned(vec![".zhuque_restore_a", "app.db", ".zhuque_restore_", "scripts"]),
        ["app.db", "scripts"]
    );
    assert!(cleaned(vec![]).is_empty());
}

#[test]
fn nothing_is_stale_where_there_is_no_data() {
    assert_eq!(
        cleanup_restore_staging(CleanupEvent::Listed(Err(missing()))),
        CleanupStep::Done(Ok(()))
    );
    for error in [failed(), BackupError::System(ErrorKind::InvalidData, text("odd"))] {
        let told = error.message();
        let kind = error.kind();
        assert_eq!(
            cleanup_restore_staging(CleanupEvent::Listed(Err(error))),
            CleanupStep::Done(Err(BackupError::System(kind, told)))
        );
    }
    assert_eq!(
        cleanup_restore_staging(CleanupEvent::EntryRead(Err(missing()))),
        CleanupStep::Done(Err(missing()))
    );
    assert_eq!(
        cleanup_restore_staging(CleanupEvent::Removed(Err(failed()))),
        CleanupStep::Done(Err(failed()))
    );
}

/// Empties a directory with the given entries; gives what is left of them.
fn cleared<'a>(mut entries: Vec<&'a str>, keep: Option<&str>) -> Vec<&'a str> {
    let mut unread = entries.clone();
    unread.reverse();
    let mut event = ClearEvent::Start { keep: keep.map(text) };
    loop {
        event = match clear_directory_contents_except(event) {
            ClearStep::CreateDirectory { keep } => {
                ClearEvent::DirectoryCreated { keep, result: Ok(()) }
            }
            ClearStep::List { keep } => ClearEvent::Listed { keep, result: Ok(()) },
            ClearStep::ReadEntry { keep } => {
                ClearEvent::EntryRead { keep, result: Ok(unread.pop().map(text)) }
            }
            ClearStep::Remove { keep, name } => {
                entries.retain(|entry| *entry != name);
                ClearEvent::Removed { keep, result: Ok(()) }
            }
            ClearStep::Done { result } => {
                assert_eq!(result, Ok(()));
                return entries;
            }
        };
    }
}

#[test]
fn clearing_leaves_what_is_kept() {
    assert_eq!(cleared(vec!["a", "b", "c"], Some("b")), ["b"]);
    assert!(cleared(vec!["a", "b", "c"], None).is_empty());
    assert!(cleared(vec!["a", "b"], Some("z")).is_empty());
}

#[test]
fn clearing_stops_at_a_failure() {
    let done = || ClearStep::Done { result: Err(failed()) };
    for event in [
        ClearEvent::DirectoryCreated { keep: None, result: Err(failed()) },
        ClearEvent::Listed { keep: None, result: Err(failed()) },
        ClearEvent::EntryRead { keep: None, result: Err(failed()) },
        ClearEvent::Removed { keep: None, result: Err(failed()) },
    ] {
        assert_eq!(clear_directory_contents_except(event), done());
    }
}

/// An entry with its mode and what it holds.
#[derive(Clone, Debug, PartialEq)]
struct Node {
    kind: EntryKind,
    mode: u32,
    inside: Vec<Node>,
}

fn node(kind: EntryKind, mode: u32, inside: Vec<Node>) -> Node {
    Node { kind, mode, inside }
}

/// Sets the permissions of entries and of all below them.
fn fix(nodes: &mut Vec<Node>) {
    let mut next = 0;
    let mut event = PermissionsEvent::Start;
    loop {
        event = match fix_permissions(event) {
            PermissionsStep::List => PermissionsEvent::Listed(Ok(())),
            PermissionsStep::ReadEntry => {
                next += 1;
                PermissionsEvent::EntryRead(Ok(next <= nodes.len()))
            }
            PermissionsStep::Inspect => PermissionsEvent::Inspected(Ok(nodes[next - 1].kind)),
            PermissionsStep::SetMode { kind, mode } => {
                nodes[next - 1].mode = mode;
                PermissionsEvent::ModeSet { kind, result: Ok(()) }
            }
            PermissionsStep::Descend => {
                fix(&mut nodes[next - 1].inside);
                PermissionsEvent::Descended(Ok(()))
            }
            PermissionsStep::Done(result) => {
                assert_eq!(result, Ok(()));
                return;
            }
        };
    }
}

#[test]
fn entries_get_the_mode_of_their_kind() {
    let tree = |directory, file, other| {
        vec![
            node(EntryKind::File, file, vec![]),
            node(EntryKind::Symlink, 0o777, vec![]),
            node(
                EntryKind::Directory,
                directory,
                vec![
                    node(EntryKind::Directory, directory, vec![]),
                    node(EntryKind::File, file, vec![]),
                ],
            ),
            node(EntryKind::Other, other, vec![]),
        ]
    };
    let mut nodes = tree(0o700, 0o600, 0o777);
    fix(&mut nodes);
    assert_eq!(nodes, tree(0o755, 0o644, 0o644));
    // A second time nothing changes.
    let before = nodes.clone();
    fix(&mut nodes);
    assert_eq!(nodes, before);
}

#[test]
fn permissions_stop_at_a_failure() {
    for event in [
        PermissionsEvent::Listed(Err(failed())),
        PermissionsEvent::EntryRead(Err(failed())),
        PermissionsEvent::Inspected(Err(failed())),
        PermissionsEvent::ModeSet { kind: EntryKind::File, result: Err(failed()) },
        PermissionsEvent::ModeSet { kind: EntryKind::Directory, result: Err(failed()) },
        PermissionsEvent::Descended(Err(failed())),
    ] {
        assert_eq!(fix_permissions(event), PermissionsStep::Done(Err(failed())));
    }
}

#[test]
fn databases_have_to_be_sound() {
    assert_eq!(validate_database(DatabaseEvent::Start), DatabaseStep::Connect);
    assert_eq!(validate_database(DatabaseEvent::Connected(Ok(()))), DatabaseStep::QuickCheck);
    assert_eq!(
        validate_database(DatabaseEvent::Checked(Ok(vec![text("ok")]))),
        DatabaseStep::CountTasks
    );
    for rows in [
        vec![],
        vec![text("ok"), text("ok")],
        vec![text("OK")],
        vec![text("wrong # of entries in index")],
    ] {
        assert_eq!(
            validate_database(DatabaseEvent::Checked(Ok(rows.clone()))),
            DatabaseStep::Done(Err(BackupError::QuickCheckFailed(rows)))
        );
    }
    assert_eq!(validate_database(DatabaseEvent::Counted(Ok(1))), DatabaseStep::Close);
    for tables in [0, 2, -1] {
        assert_eq!(
            validate_database(DatabaseEvent::Counted(Ok(tables))),
            DatabaseStep::Done(Err(BackupError::MissingTasksTable))
        );
    }
    assert_eq!(validate_database(DatabaseEvent::Closed(Ok(()))), DatabaseStep::Done(Ok(())));
    for event in [
        DatabaseEvent::Connected(Err(text("locked"))),
        DatabaseEvent::Checked(Err(text("locked"))),
        DatabaseEvent::Counted(Err(text("locked"))),
        DatabaseEvent::Closed(Err(text("locked"))),
    ] {
        assert_eq!(
            validate_database(event),
            DatabaseStep::Done(Err(BackupError::UnreadableDatabase(text("locked"))))
        );
    }
}

#[test]
fn missing_data_gives_an_empty_archive() {
    assert_eq!(write_backup_archive(WriteEvent::Start), WriteStep::CreateFile);
    assert_eq!(write_backup_archive(WriteEvent::FileCreated(Ok(()))), WriteStep::CheckData);
    assert_eq!(write_backup_archive(WriteEvent::DataChecked(true)), WriteStep::AppendData);
    assert_eq!(write_backup_archive(WriteEvent::DataChecked(false)), WriteStep::FinishArchive);
    assert_eq!(write_backup_archive(WriteEvent::DataAppended(Ok(()))), WriteStep::FinishArchive);
    assert_eq!(
        write_backup_archive(WriteEvent::ArchiveFinished(Ok(()))),
        WriteStep::FinishCompression
    );
    assert_eq!(
        write_backup_archive(WriteEvent::CompressionFinished(Ok(()))),
        WriteStep::Done(Ok(()))
    );
    for event in [
        WriteEvent::FileCreated(Err(failed())),
        WriteEvent::DataAppended(Err(failed())),
        WriteEvent::ArchiveFinished(Err(failed())),
        WriteEvent::CompressionFinished(Err(failed())),
    ] {
        assert_eq!(write_backup_archive(event), WriteStep::Done(Err(failed())));
    }
}

#[test]
fn backups_are_written_after_cleaning_up() {
    assert_eq!(
        create_backup_file_unlocked(BackupFileEvent::Start),
        BackupFileStep::CleanUp
    );
    assert_eq!(
        create_backup_file_unlocked(BackupFileEvent::CleanedUp(Ok(()))),
        BackupFileStep::Write
    );
    assert_eq!(
        create_backup_file_unlocked(BackupFileEvent::CleanedUp(Err(failed()))),
        BackupFileStep::Done(Err(failed()))
    );
    assert_eq!(
        create_backup_file_unlocked(BackupFileEvent::Written(Ok(()))),
        BackupFileStep::Done(Ok(()))
    );
    assert_eq!(
        create_backup_file_unlocked(BackupFileEvent::Written(Err(failed()))),
        BackupFileStep::Done(Err(failed()))
    );
}

#[test]
fn downloads_carry_the_backup() {
    let name = || text("zhuque_backup_20240131_235959.tar.gz");
    for removed in [Ok(()), Err(failed())] {
        let step = create_backup(CreateEvent::Start { filename: name() });
        assert_eq!(step, CreateStep::CreateArchive { filename: name() });
        let step = create_backup(CreateEvent::ArchiveCreated { filename: name(), result: Ok(()) });
        assert_eq!(step, CreateStep::ReadArchive { filename: name() });
        let step =
            create_backup(CreateEvent::ArchiveRead { filename: name(), result: Ok(vec![1, 2]) });
        assert_eq!(step, CreateStep::RemoveArchive { filename: name(), bytes: vec![1, 2] });
        let step = create_backup(CreateEvent::ArchiveRemoved {
            filename: name(),
            bytes: vec![1, 2],
            result: removed,
        });
        let outcome = CreateOutcome::Download { filename: name(), bytes: vec![1, 2] };
        assert_eq!(step, CreateStep::Reply { outcome });
    }
    let outcome = CreateOutcome::Download { filename: name(), bytes: vec![1, 2] };
    assert_eq!(
        outcome.reply(),
        Ok(Download {
            status: 200,
            content_type: text("application/gzip"),
            content_disposition: text(
                "attachment; filename=\"zhuque_backup_20240131_235959.tar.gz\""
            ),
            body: vec![1, 2],
        })
    );
}

#[test]
fn failed_backups_are_server_errors() {
    for event in [
        CreateEvent::ArchiveCreated { filename: text("f"), result: Err(failed()) },
        CreateEvent::ArchiveRead { filename: text("f"), result: Err(failed()) },
    ] {
        assert_eq!(
            create_backup(event),
            CreateStep::Reply { outcome: CreateOutcome::Failed }
        );
    }
    assert_eq!(CreateOutcome::Failed.reply(), Err(500));
}

/// What is in an archive, and how preparing it goes.
struct Upload {
    data: Option<EntryKind>,
    database: Option<EntryKind>,
    checked: Result<(), BackupError>,
    top_level: Vec<&'static str>,
}

fn good_upload() -> Upload {
    Upload {
        data: Some(EntryKind::Directory),
        database: Some(EntryKind::File),
        checked: Ok(()),
        top_level: vec!["data"],
    }
}

/// Prepares an upload; also tells whether the staging directory is left.
fn prepared(mut upload: Upload) -> (Result<String, BackupError>, bool) {
    let mut staged = false;
    let mut event = PrepareEvent::Start { staging: text("s") };
    loop {
        event = match prepare_backup_file(event) {
            PrepareStep::CleanUp { staging } => PrepareEvent::CleanedUp { staging, result: Ok(()) },
            PrepareStep::CreateDataDirectory { staging } => {
                PrepareEvent::DataDirectoryCreated { staging, result: Ok(()) }
            }
            PrepareStep::CreateStaging { staging } => {
                staged = true;
                PrepareEvent::StagingCreated { staging, result: Ok(()) }
            }
            PrepareStep::Unpack { staging } => PrepareEvent::Unpacked { staging, result: Ok(()) },
            PrepareStep::InspectData { staging } => {
                PrepareEvent::DataInspected { staging, found: upload.data }
            }
            PrepareStep::InspectDatabase { staging, data } => {
                PrepareEvent::DatabaseInspected { staging, data, found: upload.database }
            }
            PrepareStep::ValidateDatabase { staging } => {
                let result = std::mem::replace(&mut upload.checked, Ok(()));
                PrepareEvent::DatabaseValidated { staging, result }
            }
            PrepareStep::ListStaging { staging } => {
                PrepareEvent::StagingListed { staging, result: Ok(()) }
            }
            PrepareStep::ReadEntry { staging } => {
                PrepareEvent::EntryRead { staging, result: Ok(upload.top_level.pop().map(text)) }
            }
            PrepareStep::Discard { staging, error } => {
                assert_eq!(staging, "s");
                staged = false;
                PrepareEvent::Discarded { error, result: Err(failed()) }
            }
            PrepareStep::Done { result } => return (result, staged),
        };
    }
}

#[test]
fn complete_backups_are_prepared() {
    assert_eq!(prepared(good_upload()), (Ok(text("s")), true));
}

#[test]
fn incomplete_backups_are_discarded() {
    let upload = Upload { data: None, ..good_upload() };
    assert_eq!(prepared(upload), (Err(BackupError::MissingDataDirectory), false));
    let upload = Upload { database: None, ..good_upload() };
    assert_eq!(prepared(upload), (Err(BackupError::MissingDatabase), false));
    // The database is looked for even where the data is no directory.
    let upload = Upload { data: Some(EntryKind::File), database: None, ..good_upload() };
    assert_eq!(prepared(upload), (Err(BackupError::MissingDatabase), false));
    for data in [EntryKind::File, EntryKind::Symlink, EntryKind::Other] {
        let upload = Upload { data: Some(data), ..good_upload() };
        assert_eq!(prepared(upload), (Err(BackupError::InvalidLayout), false));
    }
    for database in [EntryKind::Directory, EntryKind::Symlink, EntryKind::Other] {
        let upload = Upload { database: Some(database), ..good_upload() };
        assert_eq!(prepared(upload), (Err(BackupError::InvalidLayout), false));
    }
    let upload = Upload { checked: Err(BackupError::MissingTasksTable), ..good_upload() };
    assert_eq!(prepared(upload), (Err(BackupError::MissingTasksTable), false));
    for stray in ["etc", "Data", "data2", ""] {
        let upload = Upload { top_level: vec!["data", stray], ..good_upload() };
        assert_eq!(prepared(upload), (Err(BackupError::StrayEntries), false));
    }
}

#[test]
fn early_failures_leave_nothing_to_discard() {
    let s = || text("s");
    for event in [
        PrepareEvent::CleanedUp { staging: s(), result: Err(failed()) },
        PrepareEvent::DataDirectoryCreated { staging: s(), result: Err(failed()) },
        PrepareEvent::StagingCreated { staging: s(), result: Err(failed()) },
    ] {
        assert_eq!(prepare_backup_file(event), PrepareStep::Done { result: Err(failed()) });
    }
    for event in [
        PrepareEvent::Unpacked { staging: s(), result: Err(failed()) },
        PrepareEvent::StagingListed { staging: s(), result: Err(failed()) },
        PrepareEvent::EntryRead { staging: s(), result: Err(failed()) },
    ] {
        assert_eq!(
            prepare_backup_file(event),
            PrepareStep::Discard { staging: s(), error: failed() }
        );
    }
}

#[test]
fn activating_replaces_the_contents() {
    let mut data = vec![text("old"), text("s"), text("app.db")];
    let mut unread = vec![text("scripts"), text("app.db")];
    let mut event = ActivateEvent::Start { staging: text("s") };
    loop {
        event = match activate_prepared_backup(event) {
            ActivateStep::Clear { staging } => {
                data.retain(|name| *name == staging);
                ActivateEvent::Cleared { staging, result: Ok(()) }
            }
            ActivateStep::ListStaged { staging } => {
                ActivateEvent::StagedListed { staging, result: Ok(()) }
            }
            ActivateStep::ReadEntry { staging } => {
                ActivateEvent::EntryRead { staging, result: Ok(unread.pop()) }
            }
            ActivateStep::Move { staging, name } => {
                data.push(name);
                ActivateEvent::Moved { staging, result: Ok(()) }
            }
            ActivateStep::RemoveStaging { staging } => {
                data.retain(|name| *name != staging);
                ActivateEvent::StagingRemoved { result: Ok(()) }
            }
            ActivateStep::Done { result } => {
                assert_eq!(result, Ok(()));
                break;
            }
        };
    }
    assert_eq!(data, ["app.db", "scripts"]);
}

#[test]
fn activating_stops_at_a_failure() {
    let s = || text("s");
    for event in [
        ActivateEvent::Cleared { staging: s(), result: Err(failed()) },
        ActivateEvent::StagedListed { staging: s(), result: Err(failed()) },
        ActivateEvent::EntryRead { staging: s(), result: Err(failed()) },
        ActivateEvent::Moved { staging: s(), result: Err(failed()) },
        ActivateEvent::StagingRemoved { result: Err(failed()) },
    ] {
        assert_eq!(
            activate_prepared_backup(event),
            ActivateStep::Done { result: Err(failed()) }
        );
    }
}

#[test]
fn only_prepared_backups_are_put_in_place() {
    assert_eq!(restore_backup_file(RestoreFileEvent::Start), RestoreFileStep::Prepare);
    assert_eq!(
        restore_backup_file(RestoreFileEvent::Prepared { result: Ok(text("s")) }),
        RestoreFileStep::Activate { staging: text("s") }
    );
    assert_eq!(
        restore_backup_file(RestoreFileEvent::Prepared { result: Err(BackupError::StrayEntries) }),
        RestoreFileStep::Done { result: Err(BackupError::StrayEntries) }
    );
    assert_eq!(
        restore_backup_file(RestoreFileEvent::Activated { result: Err(failed()) }),
        RestoreFileStep::Done { result: Err(failed()) }
    );
    assert_eq!(
        restore_backup_file(RestoreFileEvent::Activated { result: Ok(()) }),
        RestoreFileStep::Done { result: Ok(()) }
    );
}

#[test]
fn backup_files_are_made_under_the_lock() {
    for outcome in [true, false] {
        let result = || if outcome { Ok(()) } else { Err(failed()) };
        let mut held = false;
        let mut event = LockedFileEvent::Start;
        loop {
            event = match create_backup_file(event) {
                LockedFileStep::Lock => {
                    held = true;
                    LockedFileEvent::Locked
                }
                LockedFileStep::Create => {
                    assert!(held);
                    LockedFileEvent::Created { result: result() }
                }
                LockedFileStep::Release { result } => {
                    held = false;
                    LockedFileEvent::Released { result }
                }
                LockedFileStep::Done { result: told } => {
                    assert_eq!(told, result());
                    break;
                }
            };
        }
        assert!(!held);
    }
}
