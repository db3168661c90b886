use zhuque_backup::naming::{
    backup_filename, content_disposition, data_directory, database_url, is_restore_staging,
    new_request_id, recovery_filename, staging_dirname, timestamp, uploaded_filename,
    RESTORE_STAGING_PREFIX,
};

const ID: u128 = 0x0123_4567_89ab_4def_8123_4567_89ab_cdef;

#[test]
fn database_lies_in_the_data_directory() {
    assert_eq!(database_url("/srv/data"), "sqlite:///srv/data/app.db");
    assert_eq!(database_url("./data"), "sqlite://./data/app.db");
    assert_eq!(database_url(""), "sqlite:///app.db");
}

#[test]
fn data_directory_has_a_default() {
    assert_eq!(data_directory(None), "./data");
    assert_eq!(data_directory(Some("/srv/data".to_string())), "/srv/data");
    assert_eq!(data_directory(Some(String::new())), "");
}

#[test]
fn timestamps_are_dates_and_times() {
    let now = timestamp();
    assert_eq!(now.len(), 15);
    assert_eq!(now.as_bytes()[8], b'_');
    assert!(now.bytes().enumerate().all(|(i, c)| i == 8 || c.is_ascii_digit()));
    assert!(&now[0..4] >= "2024");
    assert!(("01"..="12").contains(&&now[4..6]));
    assert!(("01"..="31").contains(&&now[6..8]));
    assert!(("00"..="23").contains(&&now[9..11]));
    assert!(("00"..="59").contains(&&now[11..13]));
    assert!(("00"..="60").contains(&&now[13..15]));
}

#[test]
fn request_ids_are_random() {
    let first = new_request_id();
    let second = new_request_id();
    assert_ne!(first, second);
    assert_eq!((first >> 76) & 0xf, 4);
    assert_eq!((first >> 62) & 0x3, 2);
    assert_ne!(staging_dirname(first), staging_dirname(second));
    assert_ne!(uploaded_filename(first), uploaded_filename(second));
    assert_ne!(recovery_filename("t", first), recovery_filename("t", second));
}

#[test]
fn backup_names_hold_the_time() {
    let name = backup_filename("20240131_235959");
    assert_eq!(name, "zhuque_backup_20240131_235959.tar.gz");
    assert_eq!(
        content_disposition(&name),
        "attachment; filename=\"zhuque_backup_20240131_235959.tar.gz\""
    );
}

#[test]
fn restore_names_hold_the_id() {
    assert_eq!(
        uploaded_filename(ID),
        ".zhuque_uploaded_01234567-89ab-4def-8123-456789abcdef.tar.gz"
    );
    assert_eq!(
        recovery_filename("20240131_235959", ID),
        "zhuque_before_restore_20240131_235959_0123456789ab4def8123456789abcdef.tar.gz"
    );
    assert_eq!(
        staging_dirname(ID),
        ".zhuque_restore_01234567-89ab-4def-8123-456789abcdef"
    );
    assert_eq!(
        staging_dirname(0),
        ".zhuque_restore_00000000-0000-0000-0000-000000000000"
    );
}

#[test]
fn stagings_are_known_by_their_prefix() {
    assert!(is_restore_staging(&staging_dirname(ID)));
    assert!(is_restore_staging(".zhuque_restore_stale"));
    assert!(is_restore_staging(RESTORE_STAGING_PREFIX));
    assert!(!is_restore_staging(".zhuque_restore"));
    assert!(!is_restore_staging("x.zhuque_restore_"));
    assert!(!is_restore_staging("app.db"));
    assert!(!is_restore_staging(""));
}
