use zhuque_backup::error::{BackupError, ErrorKind};
use zhuque_backup::text::{has_prefix, join};

#[test]
fn faults_of_a_backup_are_invalid_data() {
    for (error, words) in [
        (BackupError::TooManyEntries, "backup has too many entries"),
        (BackupError::TooLarge, "backup is too large"),
        (BackupError::ExpandsBeyondLimit, "backup expands beyond the allowed size"),
        (BackupError::UnreadableArchive("torn".to_string()), "torn"),
        (
            BackupError::MissingDataDirectory,
            "backup archive does not contain a data directory",
        ),
        (BackupError::MissingDatabase, "backup archive does not contain data/app.db"),
        (BackupError::InvalidLayout, "backup archive has an invalid data layout"),
        (
            BackupError::StrayEntries,
            "backup archive contains files outside the data directory",
        ),
        (BackupError::UnreadableDatabase("locked".to_string()), "locked"),
        (
            BackupError::QuickCheckFailed(vec!["row 1".to_string(), "row 2".to_string()]),
            "SQLite quick_check failed: row 1, row 2",
        ),
        (BackupError::QuickCheckFailed(vec![]), "SQLite quick_check failed: "),
        (
            BackupError::MissingTasksTable,
            "backup database does not contain the tasks table",
        ),
    ] {
        assert_eq!(error.kind(), ErrorKind::InvalidData);
        assert_eq!(error.message(), words);
    }
}

#[test]
fn failures_of_the_system_keep_their_kind() {
    for kind in [ErrorKind::NotFound, ErrorKind::InvalidData, ErrorKind::Other] {
        let error = BackupError::System(kind, "no such file".to_string());
        assert_eq!(error.kind(), kind);
        assert_eq!(error.message(), "no such file");
    }
}

#[test]
fn separators_stand_between_parts() {
    let parts: Vec<String> = vec!["a".to_string(), String::new(), "bc".to_string()];
    assert_eq!(join(&parts, ", "), "a, , bc");
    assert_eq!(join(&vec!["a".to_string()], ", "), "a");
    assert_eq!(join(&vec![], ", "), "");
    assert_eq!(join(&parts, ""), "abc");
}

#[test]
fn prefixes_are_compared_by_characters() {
    assert!(has_prefix("数据库", "数据"));
    assert!(has_prefix("abc", ""));
    assert!(has_prefix("", ""));
    assert!(!has_prefix("数", "数据"));
    assert!(!has_prefix("abc", "b"));
}
