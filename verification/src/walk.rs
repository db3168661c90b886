//! Walking over the headers of an expanded archive.
//!
//! The reader of an archive adds up where the next header lies. It checks all
//! of these additions but one: that of a record which continues the map of a
//! sparse file. A walk finds out, one entry ahead of the reader, whether that
//! sum stays within 64 bits.

use vstd::prelude::*;

#[allow(unused_imports)]
use crate::header::{declared_size, pax_records, placing, rounded, told_size};
use crate::header::{pax_size, place_header, Placing, RECORD};

verus! {

/// A reader of gzip-compressed bytes.
#[verifier::external_type_specification]
#[verifier::external_body]
#[verifier::reject_recursive_types(R)]
pub struct ExGzDecoder<R>(flate2::read::GzDecoder<R>);

/// What these bytes expand to: all that comes out of a decoder until it ends or
/// fails, if no piece that is asked for goes beyond the end of a record.
pub uninterp spec fn inflated(bytes: Seq<u8>) -> Seq<u8>;

/// The bytes that a decoder was made for, while nothing has been asked of it.
pub uninterp spec fn untouched(decoder: flate2::read::GzDecoder<&[u8]>) -> Option<Seq<u8>>;

/// What is still to come out of a decoder.
pub uninterp spec fn unread(decoder: flate2::read::GzDecoder<&[u8]>) -> Seq<u8>;

/// How many bytes have come out of a decoder.
pub uninterp spec fn given(decoder: flate2::read::GzDecoder<&[u8]>) -> nat;

/// `flate2::read::GzDecoder::new`: makes a decoder for the bytes, of which
/// nothing has been asked. What comes out of it depends on the bytes alone.
#[verifier::external_body]
pub(crate) fn open_decoder(bytes: &[u8]) -> (res: flate2::read::GzDecoder<&[u8]>)
    ensures
        untouched(res) == Some(bytes@),
        unread(res) == inflated(bytes@),
        given(res) == 0,
{
    flate2::read::GzDecoder::new(bytes)
}

/// `flate2::read::GzDecoder` by its `Read::read`: gives the next bytes, up to
/// the end of a record, and none exactly if none is left. A decoder that fails
/// gives nothing from then on, so a failure counts as the end.
#[verifier::external_body]
fn read_piece(decoder: &mut flate2::read::GzDecoder<&[u8]>, limit: usize) -> (piece: Vec<u8>)
    requires
        limit == RECORD - given(*old(decoder)) % RECORD as nat,
    ensures
        piece@.len() <= limit,
        piece@.len() <= unread(*old(decoder)).len(),
        piece@.len() == 0 <==> unread(*old(decoder)).len() == 0,
        piece@ == unread(*old(decoder)).take(piece@.len() as int),
        unread(*final(decoder)) == unread(*old(decoder)).skip(piece@.len() as int),
        given(*final(decoder)) == given(*old(decoder)) + piece@.len(),
{
    let mut piece = vec![0; limit];
    let count = match std::io::Read::read(decoder, piece.as_mut_slice()) {
        Ok(count) => count,
        Err(_) => 0,
    };
    piece.truncate(count);
    piece
}

/// The smaller of two numbers.
pub open spec fn least(a: int, b: int) -> int {
    if a <= b {
        a
    } else {
        b
    }
}

/// How many records continue the map of a sparse file whose header ends at
/// `at`: one, and as long as the last of them says so, one more.
pub open spec fn continuations(stream: Seq<u8>, at: int) -> nat
    decreases stream.len() - at,
{
    if at + 512 <= stream.len() && stream[at + 504] == 1 {
        1 + continuations(stream, at + 512)
    } else {
        1
    }
}

/// What stands at a place where a header is due.
#[derive(Debug, PartialEq, Eq)]
pub enum Member {
    /// No entry: the archive ends here or cannot be read on.
    Ends,
    /// A sparse file after which the next position leaves 64 bits.
    Overflows,
    /// An entry, after which the next header is due at `at`.
    Next { at: u64 },
}

/// What stands at `at`, where a pax header before it may have told a size.
/// Headers that only prepare for the next one belong to the same entry.
pub open spec fn member_told(stream: Seq<u8>, at: int, told: Option<u64>) -> Member
    decreases
            if at <= stream.len() {
                stream.len() - at
            } else {
                0
            },
{
    if at + 512 > stream.len() {
        Member::Ends
    } else {
        let record = stream.subrange(at, at + 512);
        match placing(record, declared_size(record), at, told) {
            Placing::End | Placing::Unreadable => Member::Ends,
            Placing::Prelude { size, next } => if next <= at {
                Member::Ends
            } else if record[156] == 0x78 {
                member_told(
                    stream,
                    next as int,
                    told_size(
                        pax_records(
                            stream.subrange(
                                at + 512,
                                least(at + 512 + size, stream.len() as int),
                            ),
                        ),
                    ),
                )
            } else {
                member_told(stream, next as int, told)
            },
            Placing::Continued { next } => {
                let end = next + 512 * continuations(stream, at + 512);
                if end > u64::MAX {
                    Member::Overflows
                } else {
                    Member::Next { at: end as u64 }
                }
            },
            Placing::Entry { next } => Member::Next { at: next },
        }
    }
}

/// What stands at a place where the header of an entry is due.
pub open spec fn member(stream: Seq<u8>, at: int) -> Member {
    member_told(stream, at, None)
}

/// Where the header of the entry with this index is due, if there is one.
pub open spec fn due_at(stream: Seq<u8>, index: nat) -> Option<u64>
    decreases index,
{
    if index == 0 {
        Some(0)
    } else {
        match due_at(stream, (index - 1) as nat) {
            Some(at) => match member(stream, at as int) {
                Member::Next { at } => Some(at),
                _ => None,
            },
            None => None,
        }
    }
}

/// Whether the position after the entry with this index leaves 64 bits.
pub open spec fn overflows_at(stream: Seq<u8>, index: nat) -> bool {
    due_at(stream, index) matches Some(at) && member(stream, at as int) is Overflows
}

/// Whether the positions of all entries of the expanded archive fit in 64 bits.
pub open spec fn positions_fit(stream: Seq<u8>) -> bool {
    forall|index: nat| !#[trigger] overflows_at(stream, index)
}

/// Where a walk ends, no entry is due further on.
pub proof fn nothing_is_due_after_the_end(stream: Seq<u8>, index: nat, later: nat)
    requires
        due_at(stream, index) matches Some(at) && !(member(stream, at as int) is Next),
        index < later,
    ensures
        due_at(stream, later) is None,
    decreases later,
{
    if index + 1 < later {
        nothing_is_due_after_the_end(stream, index, (later - 1) as nat);
    }
}

/// The bytes that come out of a decoder, record by record.
struct Feed<'a> {
    decoder: flate2::read::GzDecoder<&'a [u8]>,
    /// How many bytes have come.
    read: u64,
    /// All that comes out.
    stream: Ghost<Seq<u8>>,
}

impl<'a> Feed<'a> {
    spec fn wf(self) -> bool {
        &&& self.read <= self.stream@.len()
        &&& unread(self.decoder) == self.stream@.skip(self.read as int)
        &&& given(self.decoder) == self.read
        &&& self.read % 512 == 0 || self.read == self.stream@.len()
    }

    /// Gives what is left of the present record.
    fn next_record(&mut self) -> (record: Vec<u8>)
        requires
            old(self).wf(),
            old(self).read <= u64::MAX - 512,
        ensures
            final(self).wf(),
            final(self).stream == old(self).stream,
            final(self).read == least(
                512 * (old(self).read as int / 512) + 512,
                old(self).stream@.len() as int,
            ),
            record@ == old(self).stream@.subrange(old(self).read as int, final(self).read as int),
    {
        let ghost stream = self.stream@;
        let ghost start = self.read as int;
        let ghost end = 512 * (start / 512) + 512;
        let mut record: Vec<u8> = Vec::new();
        assert(record@ =~= stream.subrange(start, start));
        loop
            invariant
                self.stream == old(self).stream,
                stream == old(self).stream@,
                start == old(self).read,
                start <= self.read <= end <= u64::MAX,
                end == 512 * (start / 512) + 512,
                start <= u64::MAX - 512,
                self.read < end,
                self.read <= stream.len(),
                unread(self.decoder) == stream.skip(self.read as int),
                given(self.decoder) == self.read,
                record@ == stream.subrange(start, self.read as int),
            decreases stream.len() - self.read,
        {
            let limit: usize = RECORD - (self.read % 512) as usize;
            assert(self.read + limit == end);
            let mut piece: Vec<u8> = read_piece(&mut self.decoder, limit);
            if piece.len() == 0 {
                assert(self.read == stream.len());
                assert(stream.skip(self.read as int).skip(0) =~= stream.skip(self.read as int));
                return record;
            }
            let ghost before = self.read as int;
            self.read = self.read + piece.len() as u64;
            proof {
                assert(stream.skip(before).take(piece@.len() as int) =~= stream.subrange(
                    before,
                    self.read as int,
                ));
                assert(stream.skip(before).skip(piece@.len() as int) =~= stream.skip(
                    self.read as int,
                ));
                assert(stream.subrange(start, before) + stream.subrange(before, self.read as int)
                    =~= stream.subrange(start, self.read as int));
            }
            record.append(&mut piece);
            if self.read % 512 == 0 {
                return record;
            }
        }
    }

    /// Passes over all before `at`.
    fn skip_to(&mut self, at: u64)
        requires
            old(self).wf(),
            old(self).read <= at,
            at % 512 == 0,
        ensures
            final(self).wf(),
            final(self).stream == old(self).stream,
            final(self).read == least(at as int, old(self).stream@.len() as int),
    {
        while self.read < at
            invariant
                self.wf(),
                self.stream == old(self).stream,
                self.read <= at,
                at % 512 == 0,
            ensures
                self.wf(),
                self.stream == old(self).stream,
                self.read == least(at as int, old(self).stream@.len() as int),
            decreases self.stream@.len() - self.read,
        {
            let ghost before = self.read as int;
            let record: Vec<u8> = self.next_record();
            if record.len() == 0 {
                assert(self.read == self.stream@.len());
                break;
            }
        }
    }

    /// Gives the next `size` bytes, or as many as there are, and passes over the
    /// rest of their last record.
    fn body(&mut self, size: u64) -> (res: Vec<u8>)
        requires
            old(self).wf(),
            old(self).read % 512 == 0,
            old(self).read + rounded(size as int) <= u64::MAX,
        ensures
            final(self).wf(),
            final(self).stream == old(self).stream,
            final(self).read <= old(self).read + rounded(size as int),
            res@ == old(self).stream@.subrange(
                old(self).read as int,
                least(old(self).read + size, old(self).stream@.len() as int),
            ),
    {
        let ghost stream = self.stream@;
        let ghost start = self.read as int;
        let mut res: Vec<u8> = Vec::new();
        assert(res@ =~= stream.subrange(start, start));
        let from: u64 = self.read;
        while self.read - from < size
            invariant_except_break
                self.read % 512 == 0,
            invariant
                self.wf(),
                self.stream == old(self).stream,
                stream == self.stream@,
                start == from,
                start % 512 == 0,
                start + rounded(size as int) <= u64::MAX,
                start <= self.read <= start + rounded(size as int),
                res@ == stream.subrange(start, self.read as int),
            ensures
                self.wf(),
                self.stream == old(self).stream,
                start <= self.read <= start + rounded(size as int),
                self.read - start >= size || self.read == stream.len(),
                res@ == stream.subrange(start, self.read as int),
            decreases stream.len() - self.read,
        {
            let ghost before = self.read as int;
            let mut record: Vec<u8> = self.next_record();
            let short: bool = record.len() < RECORD;
            assert(stream.subrange(start, before) + stream.subrange(before, self.read as int)
                =~= stream.subrange(start, self.read as int));
            res.append(&mut record);
            if short {
                break;
            }
        }
        if res.len() as u64 > size {
            res.truncate(size as usize);
            assert(res@ =~= stream.subrange(start, start + size));
        }
        res
    }
}

/// How far the headers of an archive have been walked over.
pub struct Walk<'a> {
    feed: Feed<'a>,
    /// Where the next header is due.
    at: u64,
}

impl<'a> Walk<'a> {
    /// The expanded archive.
    pub closed spec fn stream(self) -> Seq<u8> {
        self.feed.stream@
    }

    /// Where the next header is due.
    pub closed spec fn at(self) -> u64 {
        self.at
    }

    /// Whether nothing beyond the next header has been read.
    pub closed spec fn wf(self) -> bool {
        &&& self.feed.wf()
        &&& self.feed.read <= self.at
        &&& self.at % 512 == 0
    }

    /// Begins a walk over a compressed archive.
    pub fn new(archive: &'a [u8]) -> (res: Walk<'a>)
        ensures
            res.wf(),
            res.stream() == inflated(archive@),
            res.at() == 0,
    {
        let decoder: flate2::read::GzDecoder<&'a [u8]> = open_decoder(archive);
        let ghost stream = inflated(archive@);
        assert(stream.skip(0) =~= stream);
        Walk { feed: Feed { decoder, read: 0, stream: Ghost(stream) }, at: 0 }
    }

    /// Finds what stands where the next header is due, and goes on behind it if
    /// it is an entry. Nothing behind the headers of the entry is read.
    pub fn next_member(&mut self) -> (res: Member)
        requires
            old(self).wf(),
        ensures
            final(self).stream() == old(self).stream(),
            res == member(old(self).stream(), old(self).at() as int),
            res matches Member::Next { at } ==> final(self).wf() && final(self).at() == at,
    {
        let ghost stream = self.feed.stream@;
        let mut at: u64 = self.at;
        let mut told: Option<u64> = None;
        loop
            invariant
                self.feed.wf(),
                self.feed.stream@ == stream,
                self.feed.read <= at,
                at % 512 == 0,
                stream == old(self).stream(),
                member_told(stream, at as int, told) == member(stream, old(self).at() as int),
            decreases u64::MAX - at,
        {
            self.feed.skip_to(at);
            if at > u64::MAX - 512 {
                return Member::Ends;
            }
            let record: Vec<u8> = self.feed.next_record();
            if record.len() < RECORD {
                return Member::Ends;
            }
            assert(record@ =~= stream.subrange(at as int, at + 512));
            match place_header(&record, at, told) {
                Placing::End | Placing::Unreadable => {
                    return Member::Ends;
                },
                Placing::Prelude { size, next } => {
                    if record[156] == 0x78 {
                        let body: Vec<u8> = self.feed.body(size);
                        told = pax_size(body.as_slice());
                    }
                    at = next;
                },
                Placing::Continued { next } => {
                    return self.pass_continuations(at, next);
                },
                Placing::Entry { next } => {
                    self.at = next;
                    return Member::Next { at: next };
                },
            }
        }
    }

    /// Passes over the records that continue the map of the sparse file whose
    /// header is at `at`, and puts the next header as far beyond `next`.
    fn pass_continuations(&mut self, at: u64, next: u64) -> (res: Member)
        requires
            old(self).feed.wf(),
            at + 512 <= next,
            at % 512 == 0,
            next % 512 == 0,
            old(self).feed.read == at + 512,
        ensures
            final(self).stream() == old(self).stream(),
            ({
                let end = next + 512 * continuations(old(self).stream(), at + 512);
                if end > u64::MAX {
                    res is Overflows
                } else {
                    res == (Member::Next { at: end as u64 }) && final(self).wf()
                        && final(self).at() == end
                }
            }),
    {
        let ghost stream = self.feed.stream@;
        let ghost end = next + 512 * continuations(stream, at + 512);
        let mut sum: u64 = next;
        loop
            invariant
                self.feed.wf(),
                self.feed.stream@ == stream,
                stream == old(self).stream(),
                self.feed.read % 512 == 0,
                self.feed.read <= sum,
                sum % 512 == 0,
                end == next + 512 * continuations(stream, at + 512),
                sum + 512 * continuations(stream, self.feed.read as int) == end,
            decreases u64::MAX - sum,
        {
            if sum > u64::MAX - 512 {
                return Member::Overflows;
            }
            let ghost here = self.feed.read as int;
            let record: Vec<u8> = self.feed.next_record();
            sum = sum + 512;
            if record.len() < RECORD || record[504] != 1 {
                assert(continuations(stream, here) == 1);
                self.at = sum;
                return Member::Next { at: sum };
            }
            assert(record@[504] == stream[here + 504]);
        }
    }
}

} // verus!
