//! Limits on what an uploaded archive may expand to.

use vstd::prelude::*;

use crate::error::BackupError;
#[allow(unused_imports)]
use crate::walk::{
    due_at, inflated, member, nothing_is_due_after_the_end, overflows_at, positions_fit, untouched,
};
use crate::walk::{open_decoder, Member, Walk};

verus! {

/// How many bytes the entries of a backup may hold together.
pub const MAX_UNPACKED_BACKUP_BYTES: u64 = 2 * 1024 * 1024 * 1024;

/// How many entries a backup may hold.
pub const MAX_BACKUP_ENTRIES: usize = 100_000;

/// A gzip-compressed tar archive, opened for reading.
#[verifier::external_body]
pub struct OpenArchive<'a> {
    archive: tar::Archive<flate2::read::GzDecoder<&'a [u8]>>,
}

/// The entries of an archive that are still to be read.
#[verifier::external_body]
pub struct EntryList<'a, 'b> {
    entries: tar::Entries<'a, flate2::read::GzDecoder<&'b [u8]>>,
}

/// What reading the entries of these bytes gives, one after the other: the
/// size of an entry, or the reason why no further entry can be read.
pub uninterp spec fn archived(bytes: Seq<u8>) -> Seq<Result<u64, Seq<char>>>;

/// The compressed bytes of an open archive.
pub uninterp spec fn opened(archive: OpenArchive<'_>) -> Seq<u8>;

/// How far into an archive its reader is: zero while nothing has been asked of
/// the archive.
pub uninterp spec fn position(archive: OpenArchive<'_>) -> nat;

/// The compressed bytes of the archive that the list belongs to.
pub uninterp spec fn listed(entries: EntryList<'_, '_>) -> Seq<u8>;

/// Where the list goes on: the position of the next header in what the archive
/// expands to.
pub uninterp spec fn next_at(entries: EntryList<'_, '_>) -> u64;

/// What reading the rest of the entries gives.
pub uninterp spec fn remaining(entries: EntryList<'_, '_>) -> Seq<Result<u64, Seq<char>>>;

/// An entry as the contracts speak of it.
pub open spec fn entry_view(entry: Result<u64, String>) -> Result<u64, Seq<char>> {
    match entry {
        Ok(size) => Ok(size),
        Err(text) => Err(text@),
    }
}

/// `tar::Archive::new`: opens what comes out of a decoder, of which nothing has
/// been asked, as an archive, at its beginning.
#[verifier::external_body]
fn open_archive(decoder: flate2::read::GzDecoder<&[u8]>) -> (res: OpenArchive<'_>)
    requires
        untouched(decoder) is Some,
    ensures
        Some(opened(res)) == untouched(decoder),
        position(res) == 0,
{
    OpenArchive { archive: tar::Archive::new(decoder) }
}

/// `tar::Archive::entries`: at its beginning, an archive gives the list of all
/// its entries, which depends on its bytes alone; the first header lies at the
/// beginning. From any other position nothing is claimed.
#[verifier::external_body]
fn list_entries<'a, 'b>(archive: &'a mut OpenArchive<'b>) -> (res: Result<
    EntryList<'a, 'b>,
    String,
>)
    ensures
        position(*old(archive)) == 0 ==> (res matches Ok(entries) && {
            &&& listed(entries) == opened(*old(archive))
            &&& next_at(entries) == 0
            &&& remaining(entries) == archived(opened(*old(archive)))
        }),
{
    match archive.archive.entries() {
        Ok(entries) => Ok(EntryList { entries }),
        Err(error) => Err(error.to_string()),
    }
}

/// `tar::Entries::next` and `tar::Entry::size`: takes the next entry off the
/// list and gives its size, or the text of the error where it cannot be read.
/// An entry that is given stands where its header was due, and the next one is
/// due behind it; headers are read record by record, so all that the reader has
/// of them comes out of a decoder that is asked for records, too. At the end of
/// the list there is none, and none stands there.
/// The call may panic where the position behind the entry leaves 64 bits, so
/// that it does not is asked for.
#[verifier::external_body]
fn next_entry(entries: &mut EntryList<'_, '_>) -> (res: Option<Result<u64, String>>)
    requires
        !(member(inflated(listed(*old(entries))), next_at(*old(entries)) as int) is Overflows),
    ensures
        listed(*final(entries)) == listed(*old(entries)),
        match res {
            Some(entry) => {
                &&& remaining(*old(entries)).len() > 0
                &&& entry_view(entry) == remaining(*old(entries))[0]
                &&& remaining(*final(entries)) == remaining(*old(entries)).drop_first()
                &&& entry is Ok ==> (Member::Next { at: next_at(*final(entries)) }) == member(
                    inflated(listed(*old(entries))),
                    next_at(*old(entries)) as int,
                )
            },
            None => {
                &&& remaining(*old(entries)).len() == 0
                &&& remaining(*final(entries)).len() == 0
                &&& member(inflated(listed(*old(entries))), next_at(*old(entries)) as int) is Ends
            },
        },
{
    match entries.entries.next() {
        Some(Ok(entry)) => Some(Ok(entry.size())),
        Some(Err(error)) => Some(Err(error.to_string())),
        None => None,
    }
}

/// The sizes of the first `count` entries together.
pub open spec fn total_size(listing: Seq<Result<u64, Seq<char>>>, count: int) -> nat
    decreases count,
{
    if count <= 0 {
        0
    } else {
        total_size(listing, count - 1) + match listing[count - 1] {
            Ok(size) => size as nat,
            Err(_) => 0,
        }
    }
}

/// Whether the entry at `index` can be read, and the entries up to it stay
/// within both limits.
pub open spec fn within_limits(
    listing: Seq<Result<u64, Seq<char>>>,
    index: int,
    max_bytes: u64,
    max_entries: usize,
) -> bool {
    &&& listing[index] is Ok
    &&& index + 1 <= max_entries
    &&& total_size(listing, index + 1) <= max_bytes
}

/// Whether every entry can be read and all of them stay within both limits.
pub open spec fn fits(
    listing: Seq<Result<u64, Seq<char>>>,
    max_bytes: u64,
    max_entries: usize,
) -> bool {
    forall|i: int|
        0 <= i < listing.len() ==> #[trigger] within_limits(listing, i, max_bytes, max_entries)
}

/// Whether the entry at `index` is the first that is not within the limits.
pub open spec fn first_offender(
    listing: Seq<Result<u64, Seq<char>>>,
    index: int,
    max_bytes: u64,
    max_entries: usize,
) -> bool {
    &&& 0 <= index < listing.len()
    &&& !within_limits(listing, index, max_bytes, max_entries)
    &&& forall|i: int|
        0 <= i < index ==> #[trigger] within_limits(listing, i, max_bytes, max_entries)
}

/// Whether `error` is the reason for which the entry at `index` is refused: it
/// cannot be read, there are too many entries, or they are too large.
pub open spec fn refuses(
    error: BackupError,
    listing: Seq<Result<u64, Seq<char>>>,
    index: int,
    max_entries: usize,
) -> bool {
    match listing[index] {
        Err(text) => error matches BackupError::UnreadableArchive(told) && told@ == text,
        Ok(_) => if index + 1 > max_entries {
            error is TooManyEntries
        } else if total_size(listing, index + 1) > u64::MAX {
            error is TooLarge
        } else {
            error is ExpandsBeyondLimit
        },
    }
}

/// How much of an archive has been seen.
#[derive(Clone, Copy, Debug, PartialEq, Eq, Structural)]
pub struct Tally {
    pub entries: usize,
    pub bytes: u64,
}

impl Tally {
    /// Nothing seen yet.
    pub fn new() -> (res: Tally)
        ensures
            res == (Tally { entries: 0, bytes: 0 }),
    {
        Tally { entries: 0, bytes: 0 }
    }

    /// Counts one more entry, or refuses it: because it cannot be read,
    /// because there are too many entries by now, or because they are too
    /// large together. A refused entry is not counted.
    pub fn count(
        &mut self,
        entry: Result<u64, String>,
        max_bytes: u64,
        max_entries: usize,
    ) -> (res: Result<(), BackupError>)
        ensures
            match entry {
                Err(text) => res == Err::<(), BackupError>(BackupError::UnreadableArchive(text)),
                Ok(size) => if old(self).entries + 1 > max_entries {
                    res == Err::<(), BackupError>(BackupError::TooManyEntries)
                } else if old(self).bytes + size > u64::MAX {
                    res == Err::<(), BackupError>(BackupError::TooLarge)
                } else if old(self).bytes + size > max_bytes {
                    res == Err::<(), BackupError>(BackupError::ExpandsBeyondLimit)
                } else {
                    res is Ok && final(self).entries == old(self).entries + 1 && final(self).bytes
                        == old(self).bytes + size
                },
            },
            res is Err ==> *final(self) == *old(self),
    {
        let size: u64 = match entry {
            Ok(size) => size,
            Err(text) => {
                return Err(BackupError::UnreadableArchive(text));
            },
        };
        let entries: usize = match self.entries.checked_add(1) {
            Some(entries) => entries,
            None => {
                return Err(BackupError::TooManyEntries);
            },
        };
        if entries > max_entries {
            return Err(BackupError::TooManyEntries);
        }
        let bytes: u64 = match self.bytes.checked_add(size) {
            Some(bytes) => bytes,
            None => {
                return Err(BackupError::TooLarge);
            },
        };
        if bytes > max_bytes {
            return Err(BackupError::ExpandsBeyondLimit);
        }
        self.entries = entries;
        self.bytes = bytes;
        Ok(())
    }
}

/// How an archive is refused whose positions do not fit.
pub const POSITIONS_TOO_LARGE: &'static str = "positions in the archive do not fit in 64 bits";

/// Whether the archive is read without fault up to the entry with this index:
/// all entries before it are within the limits, and no position behind them
/// leaves 64 bits.
pub open spec fn reads_up_to(
    bytes: Seq<u8>,
    index: int,
    max_bytes: u64,
    max_entries: usize,
) -> bool {
    &&& 0 <= index <= archived(bytes).len()
    &&& forall|i: int|
        0 <= i < index ==> #[trigger] within_limits(archived(bytes), i, max_bytes, max_entries)
    &&& forall|i: nat| i < index ==> !#[trigger] overflows_at(inflated(bytes), i)
}

/// Whether `error` is the reason for which these bytes are refused at the entry
/// with this index, the first that cannot stay: the position behind it leaves
/// 64 bits, or it is not within the limits.
pub open spec fn refuses_at(
    error: BackupError,
    bytes: Seq<u8>,
    index: int,
    max_bytes: u64,
    max_entries: usize,
) -> bool {
    &&& reads_up_to(bytes, index, max_bytes, max_entries)
    &&& if overflows_at(inflated(bytes), index as nat) {
        error matches BackupError::UnreadableArchive(told) && told@ == POSITIONS_TOO_LARGE@
    } else {
        &&& first_offender(archived(bytes), index, max_bytes, max_entries)
        &&& refuses(error, archived(bytes), index, max_entries)
    }
}

/// Checks that a compressed archive can be read to its end, holds at most
/// `max_entries` entries, and expands to at most `max_bytes` bytes. Nothing is
/// expanded behind the headers of the first entry that breaks a limit.
pub fn validate_archive_limits(archive: &[u8], max_bytes: u64, max_entries: usize) -> (res: Result<
    (),
    BackupError,
>)
    ensures
        res is Ok <==> positions_fit(inflated(archive@)) && fits(
            archived(archive@),
            max_bytes,
            max_entries,
        ),
        res matches Err(error) ==> exists|i: int| #[trigger]
            refuses_at(error, archive@, i, max_bytes, max_entries),
{
    let ghost listing = archived(archive@);
    let ghost stream = inflated(archive@);
    let mut walk: Walk<'_> = Walk::new(archive);
    let mut open: OpenArchive<'_> = open_archive(open_decoder(archive));
    let mut entries: EntryList<'_, '_> = match list_entries(&mut open) {
        Ok(entries) => entries,
        Err(text) => {
            return Err(BackupError::UnreadableArchive(text));
        },
    };
    let mut tally: Tally = Tally::new();
    loop
        invariant
            listing == archived(archive@),
            stream == inflated(archive@),
            listed(entries) == archive@,
            walk.wf(),
            walk.stream() == stream,
            walk.at() == next_at(entries),
            due_at(stream, tally.entries as nat) == Some(walk.at()),
            reads_up_to(archive@, tally.entries as int, max_bytes, max_entries),
            remaining(entries) == listing.skip(tally.entries as int),
            tally.bytes == total_size(listing, tally.entries as int),
        decreases listing.len() - tally.entries,
    {
        let ghost seen = tally.entries as int;
        let ghost here = walk.at() as int;
        match walk.next_member() {
            Member::Overflows => {
                let error: BackupError = BackupError::UnreadableArchive(
                    POSITIONS_TOO_LARGE.to_owned(),
                );
                assert(overflows_at(stream, seen as nat));
                assert(refuses_at(error, archive@, seen, max_bytes, max_entries));
                return Err(error);
            },
            _ => {},
        }
        assert(!overflows_at(stream, seen as nat));
        let entry: Result<u64, String> = match next_entry(&mut entries) {
            Some(entry) => entry,
            None => {
                assert(fits(listing, max_bytes, max_entries));
                assert forall|index: nat| !#[trigger] overflows_at(stream, index) by {
                    if index > seen {
                        nothing_is_due_after_the_end(stream, seen as nat, index);
                    }
                }
                return Ok(());
            },
        };
        assert(entry_view(entry) == listing[seen]);
        match tally.count(entry, max_bytes, max_entries) {
            Ok(()) => {
                assert(within_limits(listing, seen, max_bytes, max_entries));
                assert(listing.skip(seen).drop_first() == listing.skip(seen + 1));
                assert(due_at(stream, (seen + 1) as nat) == Some(next_at(entries)));
            },
            Err(error) => {
                assert(first_offender(listing, seen, max_bytes, max_entries));
                assert(refuses(error, listing, seen, max_entries));
                assert(refuses_at(error, archive@, seen, max_bytes, max_entries));
                return Err(error);
            },
        }
    }
}

/// A larger limit refuses nothing that a smaller one lets through.
pub proof fn larger_limits_refuse_less(
    listing: Seq<Result<u64, Seq<char>>>,
    bytes: u64,
    entries: usize,
    more_bytes: u64,
    more_entries: usize,
)
    requires
        bytes <= more_bytes,
        entries <= more_entries,
        fits(listing, bytes, entries),
    ensures
        fits(listing, more_bytes, more_entries),
{
    assert forall|i: int| 0 <= i < listing.len() implies #[trigger] within_limits(
        listing,
        i,
        more_bytes,
        more_entries,
    ) by {
        assert(within_limits(listing, i, bytes, entries));
    }
}

/// A listing fits exactly if all its entries can be read, they are not too
/// many, and their sizes together are not too large.
pub proof fn fitting_is_a_bound_on_count_and_size(
    listing: Seq<Result<u64, Seq<char>>>,
    max_bytes: u64,
    max_entries: usize,
)
    ensures
        fits(listing, max_bytes, max_entries) <==> {
            &&& forall|i: int| 0 <= i < listing.len() ==> (#[trigger] listing[i]) is Ok
            &&& listing.len() <= max_entries
            &&& total_size(listing, listing.len() as int) <= max_bytes
        },
{
    if fits(listing, max_bytes, max_entries) {
        assert forall|i: int| 0 <= i < listing.len() implies (#[trigger] listing[i]) is Ok by {
            assert(within_limits(listing, i, max_bytes, max_entries));
        }
        if listing.len() > 0 {
            assert(within_limits(listing, listing.len() - 1, max_bytes, max_entries));
        }
    } else {
        let i = choose|i: int|
            0 <= i < listing.len() && !#[trigger] within_limits(listing, i, max_bytes, max_entries);
        total_size_grows(listing, i + 1, listing.len() as int);
    }
}

proof fn total_size_grows(listing: Seq<Result<u64, Seq<char>>>, fewer: int, more: int)
    requires
        0 <= fewer <= more,
    ensures
        total_size(listing, fewer) <= total_size(listing, more),
    decreases more,
{
    if fewer < more {
        total_size_grows(listing, fewer, more - 1);
    }
}

} // verus!
