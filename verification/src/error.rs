//! What can go wrong, and how it is told.

use vstd::prelude::*;

use crate::text::join;
#[allow(unused_imports)]
use crate::text::{contents, joined};

verus! {

/// The kinds of failure that decisions depend on.
#[derive(Clone, Copy, Debug, PartialEq, Eq, Structural)]
pub enum ErrorKind {
    /// A path does not exist.
    NotFound,
    /// The data at hand is not a usable backup.
    InvalidData,
    /// Anything else.
    Other,
}

/// A failure while a backup is created, checked or restored.
#[derive(Debug, PartialEq, Eq)]
pub enum BackupError {
    /// The archive holds more entries than allowed.
    TooManyEntries,
    /// The sizes of the entries do not fit in 64 bits.
    TooLarge,
    /// The entries together are larger than allowed.
    ExpandsBeyondLimit,
    /// The archive cannot be read; the text says why.
    UnreadableArchive(String),
    /// The archive has no data directory at its top level.
    MissingDataDirectory,
    /// The data directory of the archive has no database.
    MissingDatabase,
    /// The data directory or the database is of the wrong kind.
    InvalidLayout,
    /// The archive holds something beside the data directory.
    StrayEntries,
    /// The database cannot be opened or queried; the text says why.
    UnreadableDatabase(String),
    /// The integrity check reported these problems.
    QuickCheckFailed(Vec<String>),
    /// The database has no table of tasks.
    MissingTasksTable,
    /// An operation of the system failed.
    System(ErrorKind, String),
}

impl BackupError {
    /// The kind of the failure: everything that faults the backup itself is
    /// invalid data, and a failure of the system keeps its own kind.
    pub open spec fn spec_kind(self) -> ErrorKind {
        match self {
            BackupError::System(kind, _) => kind,
            _ => ErrorKind::InvalidData,
        }
    }

    /// The words in which the failure is told.
    pub open spec fn words(self) -> Seq<char> {
        match self {
            BackupError::TooManyEntries => "backup has too many entries"@,
            BackupError::TooLarge => "backup is too large"@,
            BackupError::ExpandsBeyondLimit => "backup expands beyond the allowed size"@,
            BackupError::UnreadableArchive(text) => text@,
            BackupError::MissingDataDirectory =>
                "backup archive does not contain a data directory"@,
            BackupError::MissingDatabase => "backup archive does not contain data/app.db"@,
            BackupError::InvalidLayout => "backup archive has an invalid data layout"@,
            BackupError::StrayEntries =>
                "backup archive contains files outside the data directory"@,
            BackupError::UnreadableDatabase(text) => text@,
            BackupError::QuickCheckFailed(rows) =>
                "SQLite quick_check failed: "@ + joined(contents(rows@), ", "@),
            BackupError::MissingTasksTable =>
                "backup database does not contain the tasks table"@,
            BackupError::System(_, text) => text@,
        }
    }

    /// The kind of the failure.
    pub fn kind(&self) -> (res: ErrorKind)
        ensures
            res == self.spec_kind(),
    {
        match self {
            BackupError::System(kind, _) => *kind,
            _ => ErrorKind::InvalidData,
        }
    }

    /// The failure in words.
    pub fn message(&self) -> (res: String)
        ensures
            res@ == self.words(),
    {
        match self {
            BackupError::TooManyEntries => "backup has too many entries".to_owned(),
            BackupError::TooLarge => "backup is too large".to_owned(),
            BackupError::ExpandsBeyondLimit =>
                "backup expands beyond the allowed size".to_owned(),
            BackupError::UnreadableArchive(text) => text.clone(),
            BackupError::MissingDataDirectory =>
                "backup archive does not contain a data directory".to_owned(),
            BackupError::MissingDatabase =>
                "backup archive does not contain data/app.db".to_owned(),
            BackupError::InvalidLayout =>
                "backup archive has an invalid data layout".to_owned(),
            BackupError::StrayEntries =>
                "backup archive contains files outside the data directory".to_owned(),
            BackupError::UnreadableDatabase(text) => text.clone(),
            BackupError::QuickCheckFailed(rows) => {
                let problems: String = join(rows, ", ");
                "SQLite quick_check failed: ".to_owned().concat(problems.as_str())
            },
            BackupError::MissingTasksTable =>
                "backup database does not contain the tasks table".to_owned(),
            BackupError::System(_, text) => text.clone(),
        }
    }
}

} // verus!
