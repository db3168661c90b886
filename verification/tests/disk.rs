//! Whole backups and restores on a real directory with a real database.

use std::path::{Path, PathBuf};

use flate2::read::GzDecoder;
use flate2::write::GzEncoder;
use flate2::Compression;
use sqlx::sqlite::SqliteConnectOptions;
use sqlx::{Connection, SqliteConnection};
use tokio::fs;
use tokio::io::AsyncReadExt;

use zhuque_backup::activate::{
    activate_prepared_backup, restore_backup_file, ActivateEvent, ActivateStep, RestoreFileEvent,
    RestoreFileStep,
};
use zhuque_backup::archive::{validate_archive_limits, MAX_BACKUP_ENTRIES};
use zhuque_backup::create::{
    create_backup_file_unlocked, write_backup_archive, BackupFileEvent, BackupFileStep, WriteEvent,
    WriteStep, ARCHIVE_ROOT,
};
use zhuque_backup::database::{
    validate_database, DatabaseEvent, DatabaseStep, QUICK_CHECK_QUERY, TASKS_TABLE_QUERY,
};
use zhuque_backup::directory::{
    cleanup_restore_staging, clear_directory_contents_except, remove_path, CleanupEvent,
    CleanupStep, ClearEvent, ClearStep, EntryKind, RemoveEvent, RemoveStep,
};
use zhuque_backup::error::{BackupError, ErrorKind};
use zhuque_backup::naming::{new_request_id, staging_dirname, RESTORE_STAGING_PREFIX};
use zhuque_backup::prepare::{
    prepare_backup_file, unpack_backup_archive, PrepareEvent, PrepareStep, UnpackEvent, UnpackStep,
};

fn told(error: std::io::Error) -> BackupError {
    let kind = match error.kind() {
        std::io::ErrorKind::NotFound => ErrorKind::NotFound,
        std::io::ErrorKind::InvalidData => ErrorKind::InvalidData,
        _ => ErrorKind::Other,
    };
    BackupError::System(kind, error.to_string())
}

async fn inspect(path: &Path) -> Result<EntryKind, BackupError> {
    let file_type = fs::symlink_metadata(path).await.map_err(told)?.file_type();
    Ok(if file_type.is_dir() {
        EntryKind::Directory
    } else if file_type.is_file() {
        EntryKind::File
    } else if file_type.is_symlink() {
        EntryKind::Symlink
    } else {
        EntryKind::Other
    })
}

#[derive(Default)]
struct Listing {
    entries: Option<fs::ReadDir>,
    last: PathBuf,
}

impl Listing {
    async fn open(&mut self, dir: &Path) -> Result<(), BackupError> {
        self.entries = Some(fs::read_dir(dir).await.map_err(told)?);
        Ok(())
    }

    async fn next(&mut self) -> Result<Option<String>, BackupError> {
        let entries = self.entries.as_mut().unwrap();
        Ok(entries.next_entry().await.map_err(told)?.map(|entry| {
            self.last = entry.path();
            entry.file_name().to_string_lossy().into_owned()
        }))
    }
}

async fn remove(path: &Path) -> Result<(), BackupError> {
    let mut event = RemoveEvent::Start;
    loop {
        event = match remove_path(event) {
            RemoveStep::Inspect => RemoveEvent::Inspected(inspect(path).await),
            RemoveStep::RemoveTree => {
                RemoveEvent::Removed(fs::remove_dir_all(path).await.map_err(told))
            }
            RemoveStep::RemoveFile => {
                RemoveEvent::Removed(fs::remove_file(path).await.map_err(told))
            }
            RemoveStep::Done(result) => return result,
        };
    }
}

async fn clean_up(data_dir: &Path) -> Result<(), BackupError> {
    let mut listing = Listing::default();
    let mut event = CleanupEvent::Start;
    loop {
        event = match cleanup_restore_staging(event) {
            CleanupStep::List => CleanupEvent::Listed(listing.open(data_dir).await),
            CleanupStep::ReadEntry => CleanupEvent::EntryRead(listing.next().await),
            CleanupStep::Remove(name) => {
                assert!(listing.last.ends_with(name));
                CleanupEvent::Removed(remove(&listing.last).await)
            }
            CleanupStep::Done(result) => return result,
        };
    }
}

async fn clear(dir: &Path, keep: Option<String>) -> Result<(), BackupError> {
    let mut listing = Listing::default();
    let mut event = ClearEvent::Start { keep };
    loop {
        event = match clear_directory_contents_except(event) {
            ClearStep::CreateDirectory { keep } => ClearEvent::DirectoryCreated {
                keep,
                result: fs::create_dir_all(dir).await.map_err(told),
            },
            ClearStep::List { keep } => ClearEvent::Listed { keep, result: listing.open(dir).await },
            ClearStep::ReadEntry { keep } => {
                ClearEvent::EntryRead { keep, result: listing.next().await }
            }
            ClearStep::Remove { keep, name } => {
                ClearEvent::Removed { keep, result: remove(&dir.join(name)).await }
            }
            ClearStep::Done { result } => return result,
        };
    }
}

async fn write_archive(data_dir: &Path, backup_path: &Path) -> Result<(), BackupError> {
    let mut builder = None;
    let mut event = WriteEvent::Start;
    loop {
        event = match write_backup_archive(event) {
            WriteStep::CreateFile => {
                builder = Some(tar::Builder::new(GzEncoder::new(
                    Vec::new(),
                    Compression::default(),
                )));
                WriteEvent::FileCreated(fs::write(backup_path, b"").await.map_err(told))
            }
            WriteStep::CheckData => WriteEvent::DataChecked(data_dir.exists()),
            WriteStep::AppendData => WriteEvent::DataAppended(
                builder.as_mut().unwrap().append_dir_all(ARCHIVE_ROOT, data_dir).map_err(told),
            ),
            WriteStep::FinishArchive => {
                WriteEvent::ArchiveFinished(builder.as_mut().unwrap().finish().map_err(told))
            }
            WriteStep::FinishCompression => {
                let bytes = builder.take().unwrap().into_inner().unwrap().finish().unwrap();
                WriteEvent::CompressionFinished(fs::write(backup_path, bytes).await.map_err(told))
            }
            WriteStep::Done(result) => return result,
        };
    }
}

async fn create_file(data_dir: &Path, backup_path: &Path) -> Result<(), BackupError> {
    let mut event = BackupFileEvent::Start;
    loop {
        event = match create_backup_file_unlocked(event) {
            BackupFileStep::CleanUp => BackupFileEvent::CleanedUp(clean_up(data_dir).await),
            BackupFileStep::Write => {
                BackupFileEvent::Written(write_archive(data_dir, backup_path).await)
            }
            BackupFileStep::Done(result) => return result,
        };
    }
}

async fn unpack(backup_path: &Path, destination: &Path) -> Result<(), BackupError> {
    let mut file = None;
    let mut event = UnpackEvent::Start;
    loop {
        event = match unpack_backup_archive(event) {
            UnpackStep::OpenArchive => UnpackEvent::ArchiveOpened(
                fs::File::open(backup_path)
                    .await
                    .map(|opened| {
                        file = Some(opened);
                    })
                    .map_err(told),
            ),
            UnpackStep::ReadArchive => {
                let mut bytes = Vec::new();
                UnpackEvent::ArchiveRead(
                    match file.as_mut().unwrap().read_to_end(&mut bytes).await {
                        Ok(_) => Ok(bytes),
                        Err(error) => Err(error.to_string()),
                    },
                )
            }
            UnpackStep::Unpack(bytes) => UnpackEvent::Unpacked(
                tar::Archive::new(GzDecoder::new(bytes.as_slice()))
                    .unpack(destination)
                    .map_err(told),
            ),
            UnpackStep::Done(result) => return result,
        };
    }
}

async fn check_database(path: &Path) -> Result<(), BackupError> {
    let mut connection = None;
    let mut event = DatabaseEvent::Start;
    loop {
        event = match validate_database(event) {
            DatabaseStep::Connect => {
                let options = SqliteConnectOptions::new().filename(path);
                let opened = SqliteConnection::connect_with(&options).await;
                DatabaseEvent::Connected(
                    opened
                        .map(|opened| {
                            connection = Some(opened);
                        })
                        .map_err(|error| error.to_string()),
                )
            }
            DatabaseStep::QuickCheck => DatabaseEvent::Checked(
                sqlx::query_scalar::<_, String>(QUICK_CHECK_QUERY)
                    .fetch_all(connection.as_mut().unwrap())
                    .await
                    .map_err(|error| error.to_string()),
            ),
            DatabaseStep::CountTasks => DatabaseEvent::Counted(
                sqlx::query_scalar::<_, i64>(TASKS_TABLE_QUERY)
                    .fetch_one(connection.as_mut().unwrap())
                    .await
                    .map_err(|error| error.to_string()),
            ),
            DatabaseStep::Close => DatabaseEvent::Closed(
                connection.take().unwrap().close().await.map_err(|error| error.to_string()),
            ),
            DatabaseStep::Done(result) => return result,
        };
    }
}

async fn prepare(backup_path: &Path, data_dir: &Path) -> Result<String, BackupError> {
    let mut listing = Listing::default();
    let mut event = PrepareEvent::Start { staging: staging_dirname(new_request_id()) };
    loop {
        event = match prepare_backup_file(event) {
            PrepareStep::CleanUp { staging } => {
                PrepareEvent::CleanedUp { staging, result: clean_up(data_dir).await }
            }
            PrepareStep::CreateDataDirectory { staging } => PrepareEvent::DataDirectoryCreated {
                staging,
                result: fs::create_dir_all(data_dir).await.map_err(told),
            },
            PrepareStep::CreateStaging { staging } => {
                let result = fs::create_dir(data_dir.join(&staging)).await.map_err(told);
                PrepareEvent::StagingCreated { staging, result }
            }
            PrepareStep::Unpack { staging } => {
                let result = unpack(backup_path, &data_dir.join(&staging)).await;
                PrepareEvent::Unpacked { staging, result }
            }
            PrepareStep::InspectData { staging } => {
                let found = inspect(&data_dir.join(&staging).join("data")).await.ok();
                PrepareEvent::DataInspected { staging, found }
            }
            PrepareStep::InspectDatabase { staging, data } => {
                let found = inspect(&data_dir.join(&staging).join("data/app.db")).await.ok();
                PrepareEvent::DatabaseInspected { staging, data, found }
            }
            PrepareStep::ValidateDatabase { staging } => {
                let result = check_database(&data_dir.join(&staging).join("data/app.db")).await;
                PrepareEvent::DatabaseValidated { staging, result }
            }
            PrepareStep::ListStaging { staging } => {
                let result = listing.open(&data_dir.join(&staging)).await;
                PrepareEvent::StagingListed { staging, result }
            }
            PrepareStep::ReadEntry { staging } => {
                PrepareEvent::EntryRead { staging, result: listing.next().await }
            }
            PrepareStep::Discard { staging, error } => {
                let result = fs::remove_dir_all(data_dir.join(&staging)).await.map_err(told);
                PrepareEvent::Discarded { error, result }
            }
            PrepareStep::Done { result } => return result,
        };
    }
}

async fn activate(data_dir: &Path, staging: String) -> Result<(), BackupError> {
    let mut listing = Listing::default();
    let mut event = ActivateEvent::Start { staging };
    loop {
        event = match activate_prepared_backup(event) {
            ActivateStep::Clear { staging } => {
                let result = clear(data_dir, Some(staging.clone())).await;
                ActivateEvent::Cleared { staging, result }
            }
            ActivateStep::ListStaged { staging } => {
                let result = listing.open(&data_dir.join(&staging).join("data")).await;
                ActivateEvent::StagedListed { staging, result }
            }
            ActivateStep::ReadEntry { staging } => {
                ActivateEvent::EntryRead { staging, result: listing.next().await }
            }
            ActivateStep::Move { staging, name } => {
                let result = fs::rename(&listing.last, data_dir.join(name)).await.map_err(told);
                ActivateEvent::Moved { staging, result }
            }
            ActivateStep::RemoveStaging { staging } => {
                let result = fs::remove_dir_all(data_dir.join(staging)).await.map_err(told);
                ActivateEvent::StagingRemoved { result }
            }
            ActivateStep::Done { result } => return result,
        };
    }
}

async fn restore_file(backup_path: &Path, data_dir: &Path) -> Result<(), BackupError> {
    let mut event = RestoreFileEvent::Start;
    loop {
        event = match restore_backup_file(event) {
            RestoreFileStep::Prepare => {
                RestoreFileEvent::Prepared { result: prepare(backup_path, data_dir).await }
            }
            RestoreFileStep::Activate { staging } => {
                RestoreFileEvent::Activated { result: activate(data_dir, staging).await }
            }
            RestoreFileStep::Done { result } => return result,
        };
    }
}

async fn names_in(dir: &Path) -> Vec<String> {
    let mut listing = Listing::default();
    listing.open(dir).await.unwrap();
    let mut names = Vec::new();
    while let Some(name) = listing.next().await.unwrap() {
        names.push(name);
    }
    names.sort();
    names
}

/// Where the open files of this process are by now.
async fn open_paths() -> Vec<PathBuf> {
    let mut paths = Vec::new();
    let mut entries = fs::read_dir("/proc/self/fd").await.unwrap();
    while let Some(entry) = entries.next_entry().await.unwrap() {
        if let Ok(path) = fs::read_link(entry.path()).await {
            paths.push(path);
        }
    }
    paths
}

async fn make_database(path: &Path, statement: &str) {
    let options = SqliteConnectOptions::new().filename(path).create_if_missing(true);
    let mut connection = SqliteConnection::connect_with(&options).await.unwrap();
    sqlx::query(statement).execute(&mut connection).await.unwrap();
    connection.close().await.unwrap();
}

async fn new_root() -> PathBuf {
    let root = PathBuf::from(format!("/tmp/zhuque-restore-test-{}", uuid::Uuid::new_v4()));
    fs::create_dir_all(&root).await.unwrap();
    fs::canonicalize(&root).await.unwrap()
}

#[test]
fn restore_replaces_contents_without_replacing_data_directory() {
    tokio::runtime::Runtime::new().unwrap().block_on(async {
        let root = new_root().await;
        let source = root.join("source");
        let data_dir = root.join("mounted-data");
        let archive = root.join("backup.tar.gz");

        fs::create_dir_all(source.join("scripts")).await.unwrap();
        let options =
            SqliteConnectOptions::new().filename(source.join("app.db")).create_if_missing(true);
        let mut connection = SqliteConnection::connect_with(&options).await.unwrap();
        sqlx::query("CREATE TABLE tasks (id INTEGER PRIMARY KEY)")
            .execute(&mut connection)
            .await
            .unwrap();
        sqlx::query("INSERT INTO tasks (id) VALUES (42)")
            .execute(&mut connection)
            .await
            .unwrap();
        connection.close().await.unwrap();
        fs::write(source.join("scripts/task.py"), b"print('ok')").await.unwrap();
        fs::create_dir_all(&data_dir).await.unwrap();
        fs::write(data_dir.join("old.txt"), b"old").await.unwrap();

        let stale_staging = data_dir.join(format!("{}stale", RESTORE_STAGING_PREFIX));
        fs::create_dir_all(&stale_staging).await.unwrap();
        fs::write(stale_staging.join("leftover"), b"stale").await.unwrap();
        create_file(&data_dir, &root.join("current.tar.gz")).await.unwrap();
        assert!(!stale_staging.exists());

        let invalid_archive = root.join("invalid.tar.gz");
        fs::write(&invalid_archive, b"not a backup").await.unwrap();
        assert!(restore_file(&invalid_archive, &data_dir).await.is_err());
        assert_eq!(fs::read(data_dir.join("old.txt")).await.unwrap(), b"old");
        assert_eq!(names_in(&data_dir).await.len(), 1);

        // A directory that is replaced is no longer at its path.
        let held = fs::File::open(&data_dir).await.unwrap();

        write_archive(&source, &archive).await.unwrap();
        let bytes = fs::read(&archive).await.unwrap();
        assert_eq!(
            validate_archive_limits(&bytes, 1, MAX_BACKUP_ENTRIES).unwrap_err().kind(),
            ErrorKind::InvalidData
        );
        restore_file(&archive, &data_dir).await.unwrap();

        assert!(data_dir.is_dir());
        assert!(!data_dir.join("old.txt").exists());
        check_database(&data_dir.join("app.db")).await.unwrap();
        assert!(data_dir.join("scripts/task.py").is_file());
        assert!(open_paths().await.contains(&data_dir));
        drop(held);
        assert!(!open_paths().await.contains(&data_dir));

        assert_eq!(names_in(&data_dir).await, ["app.db", "scripts"]);
        assert_eq!(fs::read(data_dir.join("scripts/task.py")).await.unwrap(), b"print('ok')");

        fs::remove_dir_all(root).await.unwrap();
    });
}

#[test]
fn what_is_saved_comes_back() {
    tokio::runtime::Runtime::new().unwrap().block_on(async {
        let root = new_root().await;
        let data_dir = root.join("data");
        let saved = root.join("saved.tar.gz");
        fs::create_dir_all(data_dir.join("a/b")).await.unwrap();
        fs::write(data_dir.join("a/b/c"), b"deep").await.unwrap();
        make_database(&data_dir.join("app.db"), "CREATE TABLE tasks (id INTEGER)").await;
        let database = fs::read(data_dir.join("app.db")).await.unwrap();

        create_file(&data_dir, &saved).await.unwrap();
        fs::remove_dir_all(data_dir.join("a")).await.unwrap();
        fs::write(data_dir.join("app.db"), b"broken").await.unwrap();
        fs::write(data_dir.join("later"), b"new").await.unwrap();
        restore_file(&saved, &data_dir).await.unwrap();

        assert_eq!(names_in(&data_dir).await, ["a", "app.db"]);
        assert_eq!(fs::read(data_dir.join("a/b/c")).await.unwrap(), b"deep");
        assert_eq!(fs::read(data_dir.join("app.db")).await.unwrap(), database);
        fs::remove_dir_all(root).await.unwrap();
    });
}

#[test]
fn refused_backups_leave_the_data_alone() {
    tokio::runtime::Runtime::new().unwrap().block_on(async {
        let root = new_root().await;
        let data_dir = root.join("data");
        let bad = root.join("bad.tar.gz");
        fs::create_dir_all(&data_dir).await.unwrap();
        fs::write(data_dir.join("old.txt"), b"old").await.unwrap();

        // No data directory at all.
        write_archive(&root.join("nowhere"), &bad).await.unwrap();
        let refused = restore_file(&bad, &data_dir).await.unwrap_err();
        assert_eq!(refused, BackupError::MissingDataDirectory);
        assert_eq!(names_in(&data_dir).await, ["old.txt"]);

        // A data directory without a database.
        let source = root.join("source");
        fs::create_dir_all(&source).await.unwrap();
        write_archive(&source, &bad).await.unwrap();
        let refused = restore_file(&bad, &data_dir).await.unwrap_err();
        assert_eq!(refused, BackupError::MissingDatabase);
        assert_eq!(names_in(&data_dir).await, ["old.txt"]);

        // A directory where the database should be.
        fs::create_dir_all(source.join("app.db")).await.unwrap();
        write_archive(&source, &bad).await.unwrap();
        let refused = restore_file(&bad, &data_dir).await.unwrap_err();
        assert_eq!(refused, BackupError::InvalidLayout);
        assert_eq!(names_in(&data_dir).await, ["old.txt"]);
        fs::remove_dir_all(source.join("app.db")).await.unwrap();

        // A database that has no table of tasks.
        make_database(&source.join("app.db"), "CREATE TABLE other (id INTEGER)").await;
        write_archive(&source, &bad).await.unwrap();
        let refused = restore_file(&bad, &data_dir).await.unwrap_err();
        assert_eq!(refused, BackupError::MissingTasksTable);
        assert_eq!(names_in(&data_dir).await, ["old.txt"]);

        // Something that is no database.
        fs::write(source.join("app.db"), b"this is certainly not a database file").await.unwrap();
        write_archive(&source, &bad).await.unwrap();
        let refused = restore_file(&bad, &data_dir).await.unwrap_err();
        assert!(matches!(refused, BackupError::UnreadableDatabase(_)));
        assert_eq!(refused.kind(), ErrorKind::InvalidData);
        assert_eq!(names_in(&data_dir).await, ["old.txt"]);

        assert_eq!(fs::read(data_dir.join("old.txt")).await.unwrap(), b"old");
        fs::remove_dir_all(root).await.unwrap();
    });
}

#[test]
fn files_that_open_but_cannot_be_read_are_no_backups() {
    tokio::runtime::Runtime::new().unwrap().block_on(async {
        let root = new_root().await;
        let data_dir = root.join("data");
        let refused = restore_file(&root, &data_dir).await.unwrap_err();
        assert!(matches!(refused, BackupError::UnreadableArchive(_)));
        assert_eq!(refused.kind(), ErrorKind::InvalidData);

        let refused = restore_file(&root.join("nowhere"), &data_dir).await.unwrap_err();
        assert!(matches!(refused, BackupError::System(ErrorKind::NotFound, _)));
        assert!(names_in(&data_dir).await.is_empty());
        fs::remove_dir_all(root).await.unwrap();
    });
}

#[test]
fn a_second_restore_leaves_the_same() {
    tokio::runtime::Runtime::new().unwrap().block_on(async {
        let root = new_root().await;
        let data_dir = root.join("data");
        let saved = root.join("saved.tar.gz");
        fs::create_dir_all(data_dir.join("a")).await.unwrap();
        fs::write(data_dir.join("a/b"), b"kept").await.unwrap();
        make_database(&data_dir.join("app.db"), "CREATE TABLE tasks (id INTEGER)").await;
        create_file(&data_dir, &saved).await.unwrap();

        restore_file(&saved, &data_dir).await.unwrap();
        let database = fs::read(data_dir.join("app.db")).await.unwrap();
        fs::remove_file(data_dir.join("app.db")).await.unwrap();
        fs::write(data_dir.join("a/b"), b"changed").await.unwrap();
        fs::write(data_dir.join("new"), b"new").await.unwrap();
        restore_file(&saved, &data_dir).await.unwrap();

        assert_eq!(names_in(&data_dir).await, ["a", "app.db"]);
        assert_eq!(names_in(&data_dir.join("a")).await, ["b"]);
        assert_eq!(fs::read(data_dir.join("a/b")).await.unwrap(), b"kept");
        assert_eq!(fs::read(data_dir.join("app.db")).await.unwrap(), database);
        fs::remove_dir_all(root).await.unwrap();
    });
}

#[test]
fn only_the_last_prepared_backup_is_there() {
    tokio::runtime::Runtime::new().unwrap().block_on(async {
        let root = new_root().await;
        let data_dir = root.join("data");
        let saved = root.join("saved.tar.gz");
        fs::create_dir_all(&data_dir).await.unwrap();
        make_database(&data_dir.join("app.db"), "CREATE TABLE tasks (id INTEGER)").await;
        create_file(&data_dir, &saved).await.unwrap();

        let first = prepare(&saved, &data_dir).await.unwrap();
        assert_eq!(names_in(&data_dir).await, [first.as_str(), "app.db"]);
        let second = prepare(&saved, &data_dir).await.unwrap();
        assert_ne!(first, second);
        assert_eq!(names_in(&data_dir).await, [second.as_str(), "app.db"]);
        fs::remove_dir_all(root).await.unwrap();
    });
}

#[test]
fn data_that_looks_like_headers_comes_back() {
    tokio::runtime::Runtime::new().unwrap().block_on(async {
        let root = new_root().await;
        let data_dir = root.join("data");
        let saved = root.join("saved.tar.gz");
        fs::create_dir_all(&data_dir).await.unwrap();
        make_database(&data_dir.join("app.db"), "CREATE TABLE tasks (id INTEGER)").await;
        let mut odd = vec![0_u8; 512];
        odd[124] = 0x80;
        odd[128] = 0x80;
        odd[156] = b'S';
        odd[257..265].copy_from_slice(b"ustar  \0");
        odd[482] = 1;
        fs::write(data_dir.join("odd"), &odd).await.unwrap();

        create_file(&data_dir, &saved).await.unwrap();
        fs::remove_file(data_dir.join("odd")).await.unwrap();
        restore_file(&saved, &data_dir).await.unwrap();
        assert_eq!(fs::read(data_dir.join("odd")).await.unwrap(), odd);
        fs::remove_dir_all(root).await.unwrap();
    });
}
