//! What holds of a walk over the headers of an archive.

use vstd::prelude::*;

#[allow(unused_imports)]
use crate::header::{
    declared_size, is_blank, is_gnu, is_ustar, pax_records, placing, told_size,
};
use crate::header::Placing;
#[allow(unused_imports)]
use crate::header_laws::effective_size;
use crate::walk::Member;
#[allow(unused_imports)]
use crate::walk::{
    continuations, due_at, least, member, member_told, overflows_at, positions_fit,
};

verus! {

/// Whether the size is told by something in the stream that reads as a pax
/// header.
pub open spec fn is_told_somewhere(stream: Seq<u8>, size: u64) -> bool {
    exists|from: int, to: int|
        0 <= from <= to <= stream.len() && told_size(
            pax_records(#[trigger] stream.subrange(from, to)),
        ) == Some(size)
}

/// Whether the record at `at` is the header of a sparse file in the format of
/// GNU whose map goes on in `count` records, each but the last with the mark
/// that another follows.
pub open spec fn maps_on(stream: Seq<u8>, at: int, count: int) -> bool {
    &&& 0 <= at
    &&& at + 512 * count <= stream.len()
    &&& stream[at + 156] == 0x53
    &&& stream.subrange(at + 257, at + 265) == seq![0x75u8, 0x73, 0x74, 0x61, 0x72, 0x20, 0x20, 0]
    &&& stream[at + 482] == 1
    &&& 1 <= count
    &&& forall|k: int| 1 <= k < count ==> #[trigger] stream[at + 512 * k + 504] == 1
}

/// Whether the position behind a sparse file of this size at `at`, whose map
/// goes on in `count` records, leaves 64 bits, and the size is the one that its
/// header declares or one that is told.
pub open spec fn leaves_64_bits(stream: Seq<u8>, at: int, count: int, size: u64) -> bool {
    &&& maps_on(stream, at, count)
    &&& declared_size(stream.subrange(at, at + 512)) == Some(size) || is_told_somewhere(
        stream,
        size,
    )
    &&& at + 512 + 512 * ((size + 511) / 512) + 512 * count > u64::MAX
}

proof fn continuations_carry_marks(stream: Seq<u8>, at: int)
    requires
        0 <= at <= stream.len(),
    ensures
        continuations(stream, at) >= 1,
        at + 512 * (continuations(stream, at) - 1) <= stream.len(),
        forall|k: int|
            0 <= k < continuations(stream, at) - 1 ==> #[trigger] stream[at + 512 * k + 504] == 1,
    decreases stream.len() - at,
{
    if at + 512 <= stream.len() && stream[at + 504] == 1 {
        continuations_carry_marks(stream, at + 512);
        assert forall|k: int| 0 <= k < continuations(stream, at) - 1 implies #[trigger] stream[at
            + 512 * k + 504] == 1 by {
            if k > 0 {
                assert(stream[(at + 512) + 512 * (k - 1) + 504] == 1);
                assert((at + 512) + 512 * (k - 1) + 504 == at + 512 * k + 504);
            }
        }
    }
}

proof fn overflow_has_a_cause(stream: Seq<u8>, at: int, told: Option<u64>)
    requires
        0 <= at,
        told matches Some(size) ==> is_told_somewhere(stream, size),
        member_told(stream, at, told) is Overflows,
    ensures
        exists|p: int, count: int, size: u64| #[trigger] leaves_64_bits(stream, p, count, size),
    decreases
            if at <= stream.len() {
                stream.len() - at
            } else {
                0
            },
{
    let record = stream.subrange(at, at + 512);
    match placing(record, declared_size(record), at, told) {
        Placing::Prelude { size, next } => {
            if record[156] == 0x78 {
                let to = least(at + 512 + size, stream.len() as int);
                let body = stream.subrange(at + 512, to);
                if let Some(other) = told_size(pax_records(body)) {
                    assert(is_told_somewhere(stream, other)) by {
                        assert(told_size(pax_records(stream.subrange(at + 512, to))) == Some(other));
                    }
                }
                overflow_has_a_cause(stream, next as int, told_size(pax_records(body)));
            } else {
                overflow_has_a_cause(stream, next as int, told);
            }
        },
        Placing::Continued { next } => {
            let count = continuations(stream, at + 512) as int;
            continuations_carry_marks(stream, at + 512);
            let size = match told {
                Some(other) => other,
                None => declared_size(record)->Some_0,
            };
            assert(record[156] == stream[at + 156]);
            assert(record[482] == stream[at + 482]);
            assert(stream.subrange(at + 257, at + 265) =~= seq![
                0x75u8,
                0x73,
                0x74,
                0x61,
                0x72,
                0x20,
                0x20,
                0,
            ]) by {
                assert(record[257] == stream[at + 257]);
                assert(record[258] == stream[at + 258]);
                assert(record[259] == stream[at + 259]);
                assert(record[260] == stream[at + 260]);
                assert(record[261] == stream[at + 261]);
                assert(record[262] == stream[at + 262]);
                assert(record[263] == stream[at + 263]);
                assert(record[264] == stream[at + 264]);
            }
            assert forall|k: int| 1 <= k < count implies #[trigger] stream[at + 512 * k + 504]
                == 1 by {
                assert(stream[(at + 512) + 512 * (k - 1) + 504] == 1);
                assert((at + 512) + 512 * (k - 1) + 504 == at + 512 * k + 504);
            }
            assert(leaves_64_bits(stream, at, count, size));
        },
        _ => {},
    }
}

/// An archive is refused for its positions only if a sparse file in it, whose
/// map goes on, is of such a size that the position behind it leaves 64 bits.
pub proof fn positions_are_refused_for_a_huge_sparse_file(stream: Seq<u8>)
    requires
        !positions_fit(stream),
    ensures
        exists|at: int, count: int, size: u64| #[trigger] leaves_64_bits(stream, at, count, size),
{
    let index = choose|index: nat| #[trigger] overflows_at(stream, index);
    let at = due_at(stream, index)->Some_0;
    overflow_has_a_cause(stream, at as int, None);
}

/// In an archive of less than 2^62 bytes without a size of 2^63 or more, by a
/// header or told, all positions fit.
pub proof fn positions_fit_without_huge_sizes(stream: Seq<u8>)
    requires
        stream.len() < 0x4000_0000_0000_0000,
        forall|at: int|
            0 <= at && at + 512 <= stream.len() ==> (declared_size(
                #[trigger] stream.subrange(at, at + 512),
            ) matches Some(size) ==> size < 0x8000_0000_0000_0000),
        forall|size: u64| #[trigger] is_told_somewhere(stream, size) ==> size
            < 0x8000_0000_0000_0000,
    ensures
        positions_fit(stream),
{
    if !positions_fit(stream) {
        positions_are_refused_for_a_huge_sparse_file(stream);
        let (at, count, size) = choose|at: int, count: int, size: u64| #[trigger]
            leaves_64_bits(stream, at, count, size);
        assert(at + 512 <= stream.len());
        assert(size < 0x8000_0000_0000_0000);
    }
}

/// A walk begins at the beginning, and goes on behind each entry that it finds,
/// and nowhere else. The positions fit exactly if behind no header that the walk
/// comes to the position leaves 64 bits; what lies in files does not matter.
pub proof fn walks_go_from_entry_to_entry(stream: Seq<u8>, index: nat, next: u64)
    ensures
        due_at(stream, 0) == Some(0u64),
        due_at(stream, index + 1) == Some(next) <==> (due_at(stream, index) matches Some(at)
            && member_told(stream, at as int, None) == (Member::Next { at: next })),
        overflows_at(stream, index) <==> (due_at(stream, index) matches Some(at) && member_told(
            stream,
            at as int,
            None,
        ) is Overflows),
        positions_fit(stream) <==> forall|i: nat| #[trigger]
            due_at(stream, i) is Some ==> !(member_told(
                stream,
                due_at(stream, i)->Some_0 as int,
                None,
            ) is Overflows),
{
    if positions_fit(stream) {
        assert forall|i: nat| #[trigger] due_at(stream, i) is Some implies !(member_told(
            stream,
            due_at(stream, i)->Some_0 as int,
            None,
        ) is Overflows) by {
            assert(!overflows_at(stream, i));
        }
    }
    if forall|i: nat| #[trigger]
        due_at(stream, i) is Some ==> !(member_told(
            stream,
            due_at(stream, i)->Some_0 as int,
            None,
        ) is Overflows) {
        assert forall|i: nat| !#[trigger] overflows_at(stream, i) by {
            assert(due_at(stream, i) is Some || due_at(stream, i) is None);
        }
    }
}

/// The record at `at`.
pub open spec fn record_at(stream: Seq<u8>, at: int) -> Seq<u8> {
    stream.subrange(at, at + 512)
}

/// Whether the record at `at` is a whole one that is not blank.
pub open spec fn holds_a_header(stream: Seq<u8>, at: int) -> bool {
    &&& 0 <= at
    &&& at + 512 <= stream.len()
    &&& exists|k: int| 0 <= k < 512 && #[trigger] stream[at + k] != 0
}

/// Whether the record at `at` carries the mark of GNU or that of POSIX.
pub open spec fn is_marked(stream: Seq<u8>, at: int) -> bool {
    let magic = stream.subrange(at + 257, at + 265);
    ||| magic == seq![0x75u8, 0x73, 0x74, 0x61, 0x72, 0x20, 0x20, 0]
    ||| magic == seq![0x75u8, 0x73, 0x74, 0x61, 0x72, 0, 0x30, 0x30]
}

proof fn records_are_seen_through(stream: Seq<u8>, at: int)
    requires
        holds_a_header(stream, at),
    ensures
        forall|k: int| 0 <= k < 512 ==> #[trigger] record_at(stream, at)[k] == stream[at + k],
        !is_blank(record_at(stream, at)),
        is_marked(stream, at) <==> is_gnu(record_at(stream, at)) || is_ustar(record_at(stream, at)),
{
    let record = record_at(stream, at);
    let k = choose|k: int| 0 <= k < 512 && #[trigger] stream[at + k] != 0;
    assert(record[k] == stream[at + k]);
    let magic = stream.subrange(at + 257, at + 265);
    let gnu = seq![0x75u8, 0x73, 0x74, 0x61, 0x72, 0x20, 0x20, 0];
    let posix = seq![0x75u8, 0x73, 0x74, 0x61, 0x72, 0, 0x30, 0x30];
    assert(magic[0] == record[257] && magic[1] == record[258] && magic[2] == record[259] && magic[3]
        == record[260] && magic[4] == record[261] && magic[5] == record[262] && magic[6]
        == record[263] && magic[7] == record[264]);
    if is_gnu(record) {
        assert(magic =~= gnu);
    }
    if is_ustar(record) {
        assert(magic =~= posix);
    }
}

/// Behind an entry that is no sparse file and prepares for no other, the next
/// header is due at the first boundary of records behind its body. The size of
/// the body is the one that a pax header told, if any, unless the header is one
/// for all that follow (`g`).
pub proof fn entries_are_passed_over_by_their_size(
    stream: Seq<u8>,
    at: u64,
    own: u64,
    told: Option<u64>,
    size: u64,
)
    requires
        holds_a_header(stream, at as int),
        at % 512 == 0,
        declared_size(record_at(stream, at as int)) == Some(own),
        !maps_on(stream, at as int, 1),
        stream[at + 156] != 0x4c && stream[at + 156] != 0x4b && stream[at + 156] != 0x78
            || !is_marked(stream, at as int),
        size == effective_size(record_at(stream, at as int), own, told),
        at + 512 + 512 * ((size + 511) / 512) <= u64::MAX,
    ensures
        member_told(stream, at as int, told) matches Member::Next { at: next } && next % 512 == 0
            && at + 512 + size <= next < at + 1024 + size,
{
    records_are_seen_through(stream, at as int);
    let record = record_at(stream, at as int);
    assert(record[156] == stream[at + 156]);
    assert(record[482] == stream[at + 482]);
    if is_gnu(record) {
        assert(record[257] == stream[at + 257] && record[258] == stream[at + 258] && record[259]
            == stream[at + 259] && record[260] == stream[at + 260] && record[261] == stream[at
            + 261] && record[262] == stream[at + 262] && record[263] == stream[at + 263]
            && record[264] == stream[at + 264]);
        assert(stream.subrange(at + 257, at + 265) =~= seq![
            0x75u8,
            0x73,
            0x74,
            0x61,
            0x72,
            0x20,
            0x20,
            0,
        ]);
    }
}

/// Behind a sparse file whose map goes on in `count` records, the next header is
/// due as many records beyond its body, unless that leaves 64 bits. The size of
/// the body is the one that a pax header told, if any.
pub proof fn continued_maps_are_passed_over(
    stream: Seq<u8>,
    at: u64,
    count: int,
    own: u64,
    told: Option<u64>,
    size: u64,
)
    requires
        at % 512 == 0,
        maps_on(stream, at as int, count),
        at + 512 * count + 512 > stream.len() || stream[at + 512 * count + 504] != 1,
        declared_size(record_at(stream, at as int)) == Some(own),
        size == if told is Some {
            told->Some_0
        } else {
            own
        },
        at + 512 + 512 * ((size + 511) / 512) <= u64::MAX,
    ensures
        ({
            let next = at + 512 + 512 * ((size + 511) / 512) + 512 * count;
            if next > u64::MAX {
                member_told(stream, at as int, told) is Overflows
            } else {
                member_told(stream, at as int, told) == (Member::Next { at: next as u64 })
            }
        }),
{
    assert(stream[at + 156] != 0);
    assert(holds_a_header(stream, at as int));
    records_are_seen_through(stream, at as int);
    let record = record_at(stream, at as int);
    assert(record[156] == stream[at + 156]);
    assert(record[482] == stream[at + 482]);
    let magic = stream.subrange(at + 257, at + 265);
    assert(magic[0] == record[257] && magic[1] == record[258] && magic[2] == record[259] && magic[3]
        == record[260] && magic[4] == record[261] && magic[5] == record[262] && magic[6]
        == record[263] && magic[7] == record[264]);
    continuations_are_counted(stream, at as int, 1, count);
}

/// A header that only prepares for the next one belongs to the entry that the
/// next one begins, which lies at the first boundary of records behind its body.
/// One of the kinds `L` and `K` leaves a size as it was told; one of the kind `x`
/// tells the size in its body, or none.
pub proof fn preludes_belong_to_the_next_entry(
    stream: Seq<u8>,
    at: u64,
    own: u64,
    told: Option<u64>,
    next: u64,
)
    requires
        holds_a_header(stream, at as int),
        at % 512 == 0,
        is_marked(stream, at as int),
        declared_size(record_at(stream, at as int)) == Some(own),
        next % 512 == 0,
        at + 512 + own <= next < at + 1024 + own,
    ensures
        stream[at + 156] == 0x4c || stream[at + 156] == 0x4b ==> member_told(
            stream,
            at as int,
            told,
        ) == member_told(stream, next as int, told),
        stream[at + 156] == 0x78 && at + 512 + own <= stream.len() ==> member_told(
            stream,
            at as int,
            told,
        ) == member_told(
            stream,
            next as int,
            told_size(pax_records(stream.subrange(at + 512, at + 512 + own))),
        ),
{
    records_are_seen_through(stream, at as int);
    assert(record_at(stream, at as int)[156] == stream[at + 156]);
}

/// A walk ends where no whole record is left, at a blank record, at a header
/// whose size cannot be read, and at one whose body alone leaves 64 bits.
pub proof fn walks_end_where_nothing_can_follow(stream: Seq<u8>, at: int, told: Option<u64>)
    requires
        0 <= at,
    ensures
        at + 512 <= stream.len() && (declared_size(record_at(stream, at)) matches Some(own) && at
            + 512 + 512 * ((effective_size(record_at(stream, at), own, told) + 511) / 512)
            > u64::MAX) ==> member_told(stream, at, told) is Ends,
        at + 512 > stream.len() ==> member_told(stream, at, told) is Ends,
        at + 512 <= stream.len() && (forall|k: int|
            0 <= k < 512 ==> #[trigger] record_at(stream, at)[k] == 0) ==> member_told(
            stream,
            at,
            told,
        ) is Ends,
        at + 512 <= stream.len() && declared_size(record_at(stream, at)) is None ==> member_told(
            stream,
            at,
            told,
        ) is Ends,
{
}

proof fn continuations_are_counted(stream: Seq<u8>, at: int, k: int, count: int)
    requires
        maps_on(stream, at, count),
        1 <= k <= count,
        at + 512 * count + 512 > stream.len() || stream[at + 512 * count + 504] != 1,
    ensures
        continuations(stream, at + 512 * k) == count - k + 1,
    decreases count - k,
{
    if k < count {
        continuations_are_counted(stream, at, k + 1, count);
        assert(stream[at + 512 * k + 504] == 1);
        assert(at + 512 * (k + 1) == at + 512 * k + 512);
    }
}

} // verus!
