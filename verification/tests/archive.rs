use std::io::Write;

use flate2::write::GzEncoder;
use flate2::Compression;

use zhuque_backup::archive::{
    validate_archive_limits, Tally, MAX_BACKUP_ENTRIES, MAX_UNPACKED_BACKUP_BYTES,
    POSITIONS_TOO_LARGE,
};
use zhuque_backup::error::{BackupError, ErrorKind};
use zhuque_backup::header::{parse_decimal, pax_size, place, place_header, Placing};
use zhuque_backup::prepare::{unpack_backup_archive, UnpackEvent, UnpackStep};
use zhuque_backup::walk::{Member, Walk};

fn compressed(bytes: &[u8]) -> Vec<u8> {
    let mut encoder = GzEncoder::new(Vec::new(), Compression::default());
    encoder.write_all(bytes).unwrap();
    encoder.finish().unwrap()
}

fn plain_archive(sizes: &[usize]) -> Vec<u8> {
    let mut builder = tar::Builder::new(Vec::new());
    for (i, size) in sizes.iter().enumerate() {
        let content = vec![7_u8; *size];
        let mut header = tar::Header::new_gnu();
        header.set_size(*size as u64);
        header.set_mode(0o644);
        header.set_cksum();
        builder.append_data(&mut header, format!("data/{}", i), content.as_slice()).unwrap();
    }
    builder.into_inner().unwrap()
}

fn archive(sizes: &[usize]) -> Vec<u8> {
    compressed(&plain_archive(sizes))
}

#[test]
fn limits_are_what_they_are() {
    assert_eq!(MAX_UNPACKED_BACKUP_BYTES, 2_147_483_648);
    assert_eq!(MAX_BACKUP_ENTRIES, 100_000);
}

#[test]
fn archives_within_the_limits_pass() {
    assert_eq!(validate_archive_limits(&archive(&[]), 0, 0), Ok(()));
    assert_eq!(validate_archive_limits(&archive(&[5, 0, 700]), 705, 3), Ok(()));
    assert_eq!(
        validate_archive_limits(
            &archive(&[5, 0, 700]),
            MAX_UNPACKED_BACKUP_BYTES,
            MAX_BACKUP_ENTRIES
        ),
        Ok(())
    );
}

#[test]
fn archives_beyond_the_limits_are_refused() {
    let bytes = archive(&[5, 0, 700]);
    assert_eq!(
        validate_archive_limits(&bytes, 704, 3),
        Err(BackupError::ExpandsBeyondLimit)
    );
    assert_eq!(
        validate_archive_limits(&bytes, 705, 2),
        Err(BackupError::TooManyEntries)
    );
    assert_eq!(
        validate_archive_limits(&bytes, 704, 2),
        Err(BackupError::TooManyEntries)
    );
    assert_eq!(
        validate_archive_limits(&bytes, 4, 0),
        Err(BackupError::TooManyEntries)
    );
    assert_eq!(
        validate_archive_limits(&bytes, 4, 1),
        Err(BackupError::ExpandsBeyondLimit)
    );
}

#[test]
fn what_is_no_archive_is_refused() {
    for bytes in [
        b"not a backup".to_vec(),
        compressed(&[1_u8; 600]),
        plain_archive(&[5]),
    ] {
        let refused = validate_archive_limits(&bytes, u64::MAX, usize::MAX).unwrap_err();
        assert!(matches!(refused, BackupError::UnreadableArchive(_)));
        assert_eq!(refused.kind(), ErrorKind::InvalidData);
        assert!(!refused.message().is_empty());
    }
}

#[test]
fn archives_that_break_off_are_refused() {
    let whole = plain_archive(&[5, 900]);
    let cut = compressed(&whole[..1200]);
    let refused = validate_archive_limits(&cut, u64::MAX, usize::MAX).unwrap_err();
    assert!(matches!(refused, BackupError::UnreadableArchive(_)));
}

#[test]
fn unreadable_entries_are_told_in_the_words_of_the_reader() {
    let bytes = compressed(&[1_u8; 600]);
    let mut reader = tar::Archive::new(flate2::read::GzDecoder::new(bytes.as_slice()));
    let words = reader.entries().unwrap().next().unwrap().err().unwrap().to_string();
    assert_eq!(
        validate_archive_limits(&bytes, 0, 0),
        Err(BackupError::UnreadableArchive(words))
    );
}

#[test]
fn larger_limits_let_more_through() {
    let bytes = archive(&[100, 100]);
    for max_bytes in [0, 100, 199, 200, 300] {
        for max_entries in [0, 1, 2, 3] {
            assert_eq!(
                validate_archive_limits(&bytes, max_bytes, max_entries).is_ok(),
                max_bytes >= 200 && max_entries >= 2
            );
        }
    }
}

#[test]
fn tallies_count_entries_and_bytes() {
    let mut tally = Tally::new();
    assert_eq!(tally, Tally { entries: 0, bytes: 0 });
    assert_eq!(tally.count(Ok(30), 100, 2), Ok(()));
    assert_eq!(tally, Tally { entries: 1, bytes: 30 });
    assert_eq!(tally.count(Ok(71), 100, 2), Err(BackupError::ExpandsBeyondLimit));
    assert_eq!(tally, Tally { entries: 1, bytes: 30 });
    assert_eq!(tally.count(Ok(70), 100, 2), Ok(()));
    assert_eq!(tally, Tally { entries: 2, bytes: 100 });
    assert_eq!(tally.count(Ok(0), 100, 2), Err(BackupError::TooManyEntries));
    assert_eq!(
        tally.count(Err("torn".to_string()), 100, 2),
        Err(BackupError::UnreadableArchive("torn".to_string()))
    );
    assert_eq!(tally, Tally { entries: 2, bytes: 100 });
}

#[test]
fn tallies_do_not_overflow() {
    let mut tally = Tally { entries: 1, bytes: u64::MAX - 1 };
    assert_eq!(tally.count(Ok(2), u64::MAX, 9), Err(BackupError::TooLarge));
    assert_eq!(tally.count(Ok(1), u64::MAX, 9), Ok(()));
    assert_eq!(tally, Tally { entries: 2, bytes: u64::MAX });
    let mut full = Tally { entries: usize::MAX, bytes: 0 };
    assert_eq!(
        full.count(Ok(0), u64::MAX, usize::MAX),
        Err(BackupError::TooManyEntries)
    );
}

#[test]
fn only_what_fits_is_unpacked() {
    assert_eq!(unpack_backup_archive(UnpackEvent::Start), UnpackStep::OpenArchive);
    assert_eq!(
        unpack_backup_archive(UnpackEvent::ArchiveOpened(Ok(()))),
        UnpackStep::ReadArchive
    );
    let bytes = archive(&[5]);
    assert_eq!(
        unpack_backup_archive(UnpackEvent::ArchiveRead(Ok(bytes.clone()))),
        UnpackStep::Unpack(bytes)
    );
    let step = unpack_backup_archive(UnpackEvent::ArchiveRead(Ok(b"not a backup".to_vec())));
    assert!(matches!(step, UnpackStep::Done(Err(BackupError::UnreadableArchive(_)))));

    // The size in the header is what counts, so no large archive is needed.
    let mut builder = tar::Builder::new(Vec::new());
    let mut header = tar::Header::new_gnu();
    header.set_path("data/huge").unwrap();
    header.set_size(MAX_UNPACKED_BACKUP_BYTES + 1);
    header.set_cksum();
    builder.append(&header, [].as_slice()).unwrap();
    let huge = compressed(&builder.into_inner().unwrap());
    assert_eq!(
        unpack_backup_archive(UnpackEvent::ArchiveRead(Ok(huge))),
        UnpackStep::Done(Err(BackupError::ExpandsBeyondLimit))
    );

    let failed = || BackupError::System(ErrorKind::Other, "disk full".to_string());
    assert_eq!(
        unpack_backup_archive(UnpackEvent::ArchiveOpened(Err(failed()))),
        UnpackStep::Done(Err(failed()))
    );
    assert_eq!(
        unpack_backup_archive(UnpackEvent::ArchiveRead(Err("is a directory".to_string()))),
        UnpackStep::Done(Err(BackupError::UnreadableArchive("is a directory".to_string())))
    );
    assert_eq!(
        unpack_backup_archive(UnpackEvent::Unpacked(Err(failed()))),
        UnpackStep::Done(Err(failed()))
    );
    assert_eq!(
        unpack_backup_archive(UnpackEvent::Unpacked(Ok(()))),
        UnpackStep::Done(Ok(()))
    );
}

/// The header of a sparse file that holds one block of this size, and a record
/// that continues it, without further blocks.
fn continued_sparse(size: u64) -> Vec<u8> {
    let mut header = tar::Header::new_gnu();
    header.set_path("data/sparse").unwrap();
    header.set_entry_type(tar::EntryType::GNUSparse);
    header.set_size(size);
    let gnu = header.as_gnu_mut().unwrap();
    gnu.set_real_size(size);
    gnu.set_is_extended(true);
    gnu.sparse[0].set_offset(0);
    gnu.sparse[0].set_length(size);
    header.set_cksum();
    let mut bytes = header.as_bytes().to_vec();
    bytes.extend([0_u8; 512]);
    bytes
}

fn pax(key: &str, value: &str) -> Vec<u8> {
    let mut builder = tar::Builder::new(Vec::new());
    builder.append_pax_extensions([(key, value.as_bytes())]).unwrap();
    let mut bytes = builder.into_inner().unwrap();
    bytes.truncate(1024);
    bytes
}

/// An archive of files with these names and contents, without its end.
fn files(contents: &[(&str, &[u8])]) -> Vec<u8> {
    let mut builder = tar::Builder::new(Vec::new());
    for (name, content) in contents {
        let mut header = tar::Header::new_gnu();
        header.set_size(content.len() as u64);
        header.set_mode(0o644);
        header.set_cksum();
        builder.append_data(&mut header, name, *content).unwrap();
    }
    let mut bytes = builder.into_inner().unwrap();
    bytes.truncate(bytes.len() - 1024);
    bytes
}

const END: [u8; 1024] = [0; 1024];

fn refused_for_positions() -> Result<(), BackupError> {
    Err(BackupError::UnreadableArchive(POSITIONS_TOO_LARGE.to_string()))
}

#[test]
fn positions_beyond_64_bits_are_refused() {
    let overflowing = u64::MAX - 1023;
    let bytes = compressed(&continued_sparse(overflowing));
    assert_eq!(Walk::new(&bytes).next_member(), Member::Overflows);
    assert_eq!(
        validate_archive_limits(&bytes, u64::MAX, usize::MAX),
        refused_for_positions()
    );
    assert_eq!(validate_archive_limits(&bytes, 0, 0), refused_for_positions());

    // The size may also be told by a pax header.
    let mut stream = pax("size", "+18446744073709549568");
    stream.extend(continued_sparse(1024));
    assert_eq!(
        validate_archive_limits(&compressed(&stream), u64::MAX, usize::MAX),
        refused_for_positions()
    );

    // The map may go on for long before the sum leaves 64 bits.
    let mut stream = continued_sparse(u64::MAX - 2047);
    stream[512 + 504] = 1;
    stream.extend([0_u8; 512]);
    assert_eq!(
        Walk::new(&compressed(&stream)).next_member(),
        Member::Next { at: u64::MAX - 511 }
    );
    stream[1024 + 504] = 1;
    assert_eq!(Walk::new(&compressed(&stream)).next_member(), Member::Overflows);
}

#[test]
fn limits_come_before_what_lies_behind_them() {
    let mut stream = files(&[("data/a", &[7; 700])]);
    stream.extend(continued_sparse(u64::MAX - 1023 - 1536));
    let bytes = compressed(&stream);
    assert_eq!(
        validate_archive_limits(&bytes, 699, 9),
        Err(BackupError::ExpandsBeyondLimit)
    );
    assert_eq!(
        validate_archive_limits(&bytes, 700, 0),
        Err(BackupError::TooManyEntries)
    );
    assert_eq!(validate_archive_limits(&bytes, 700, 1), refused_for_positions());
    assert_eq!(
        validate_archive_limits(&bytes, u64::MAX, usize::MAX),
        refused_for_positions()
    );
}

#[test]
fn huge_sizes_that_fit_are_left_to_the_limits() {
    let bytes = compressed(&continued_sparse(1 << 63));
    assert_eq!(
        validate_archive_limits(&bytes, MAX_UNPACKED_BACKUP_BYTES, 9),
        Err(BackupError::ExpandsBeyondLimit)
    );
    let unreadable = |bytes: &[u8]| {
        let refused = validate_archive_limits(bytes, u64::MAX, usize::MAX);
        assert_ne!(refused, refused_for_positions());
        assert!(matches!(refused, Err(BackupError::UnreadableArchive(_))));
    };
    unreadable(&bytes);
    unreadable(&compressed(&continued_sparse(u64::MAX)));
}

#[test]
fn contents_are_not_taken_for_headers() {
    let mut content = vec![0_u8; 512];
    content[124] = 0x80;
    content[128] = 0x80;
    content[156] = b'S';
    content[257..265].copy_from_slice(b"ustar  \0");
    content[482] = 1;
    let mut stream = files(&[("data/odd", &content)]);
    stream.extend(END);
    assert_eq!(validate_archive_limits(&compressed(&stream), 512, 1), Ok(()));

    // Nor is a whole archive in a file.
    let inner = continued_sparse(u64::MAX - 1023);
    let mut stream = files(&[("data/inner.tar", &inner), ("data/b", b"b")]);
    stream.extend(END);
    assert_eq!(validate_archive_limits(&compressed(&stream), 1025, 2), Ok(()));
}

#[test]
fn sparse_files_of_ordinary_size_are_listed() {
    let mut sparse = continued_sparse(1024);
    sparse.extend([7_u8; 1024]);
    let mut stream = sparse.clone();
    stream.extend(END);
    let bytes = compressed(&stream);
    assert_eq!(validate_archive_limits(&bytes, 1024, 1), Ok(()));
    assert_eq!(
        validate_archive_limits(&bytes, 1023, 1),
        Err(BackupError::ExpandsBeyondLimit)
    );
    // What a file before it says of sizes is nothing to it.
    let mut stream = files(&[("data/a", b"size=99999999999999999999")]);
    stream.extend(&sparse);
    stream.extend(files(&[("data/b", b"b")]));
    stream.extend(END);
    assert_eq!(validate_archive_limits(&compressed(&stream), 1050, 3), Ok(()));
    // A size that a pax header tells counts.
    let mut stream = pax("size", "1024");
    stream.extend(&sparse);
    stream.extend(END);
    assert_eq!(validate_archive_limits(&compressed(&stream), 1024, 1), Ok(()));
}

#[test]
fn walks_and_listings_agree() {
    let long = format!("data/{}", "n".repeat(300));
    let mut stream = files(&[("data/a", &[1; 5]), (&long, &[2; 1500]), ("data/c", b"")]);
    stream.extend(pax("size", "600"));
    stream.extend(files(&[("data/d", &[3; 513])]));
    stream.extend(continued_sparse(512));
    stream.extend([4_u8; 512]);
    stream.extend(files(&[("data/e", &[5; 512])]));
    stream.extend(END);
    let bytes = compressed(&stream);

    let mut reader = tar::Archive::new(flate2::read::GzDecoder::new(bytes.as_slice()));
    let mut count = 0;
    let mut walk = Walk::new(&bytes);
    let mut due = 0;
    for entry in reader.entries().unwrap() {
        let entry = entry.unwrap();
        assert!(due <= entry.raw_header_position());
        match walk.next_member() {
            Member::Next { at } => {
                assert!(entry.raw_file_position() <= at);
                due = at;
            }
            other => panic!("{:?}", other),
        }
        count += 1;
    }
    assert_eq!(count, 6);
    assert_eq!(due, stream.len() as u64 - 1024);
    assert_eq!(walk.next_member(), Member::Ends);
    assert_eq!(validate_archive_limits(&bytes, 5 + 1500 + 600 + 512 + 512, 6), Ok(()));
}

#[test]
fn headers_put_what_follows_them() {
    let file = files(&[("data/a", &[1; 513])])[..512].to_vec();
    assert_eq!(place_header(&file, 1024, None), Placing::Entry { next: 1024 + 512 + 1024 });
    assert_eq!(place_header(&file, 0, Some(512)), Placing::Entry { next: 1024 });
    assert_eq!(place(&file, None, 0, None), Placing::Unreadable);
    assert_eq!(place(&file, Some(u64::MAX), 0, None), Placing::Unreadable);
    assert_eq!(
        place(&file, Some(u64::MAX - 1023), 0, None),
        Placing::Entry { next: u64::MAX - 511 }
    );
    assert_eq!(place_header(&vec![0; 512], 0, None), Placing::End);

    let pax_header = pax("size", "1")[..512].to_vec();
    assert_eq!(
        place_header(&pax_header, 0, Some(9999)),
        Placing::Prelude { size: 9, next: 1024 }
    );
    let mut unnamed = pax_header.clone();
    unnamed[257] = 0;
    assert_eq!(place_header(&unnamed, 0, Some(9999)), Placing::Entry { next: 1024 });

    let sparse = continued_sparse(1024)[..512].to_vec();
    assert_eq!(place_header(&sparse, 0, None), Placing::Continued { next: 1536 });
    for (place_of, byte) in [(156, b'0'), (262, 0), (482, 0)] {
        let mut other = sparse.clone();
        other[place_of] = byte;
        assert_eq!(place_header(&other, 0, None), Placing::Entry { next: 1536 });
    }
}

#[test]
fn told_sizes_are_decimal() {
    for (text, value) in [
        ("0", Some(0)),
        ("+7", Some(7)),
        ("000000000000000000000000012", Some(12)),
        ("18446744073709551615", Some(u64::MAX)),
        ("18446744073709551616", None),
        ("99999999999999999999999x", None),
        ("", None),
        ("+", None),
        ("++1", None),
        ("-1", None),
        (" 1", None),
        ("1 ", None),
    ] {
        assert_eq!(parse_decimal(text.as_bytes()), value);
        assert_eq!(text.parse::<u64>().ok(), value);
    }
}

#[test]
fn sizes_are_told_by_pax_headers() {
    assert_eq!(pax_size(b"10 size=1\n"), Some(1));
    assert_eq!(pax_size(b"10 path=1\n10 size=2\n10 size=3\n"), Some(2));
    assert_eq!(pax_size(b"10 size=x\n10 size=3\n"), None);
    assert_eq!(pax_size(b"11 size=1\n"), None);
    assert_eq!(pax_size(b"8 path=1\n10 size=2\n"), None);
    assert_eq!(pax_size(b"11 sizes=2\n"), None);
    assert_eq!(pax_size(b"10 path=1\n\n10 size=2\n"), None);
    assert_eq!(pax_size(b""), None);
}

#[test]
fn what_follows_the_end_of_an_archive_does_not_matter() {
    let mut bytes = archive(&[5]);
    let whole = bytes.len();
    bytes[whole - 6] ^= 1;
    assert_eq!(validate_archive_limits(&bytes, 5, 1), Ok(()));
    bytes.truncate(whole - 8);
    assert_eq!(validate_archive_limits(&bytes, 5, 1), Ok(()));
}
