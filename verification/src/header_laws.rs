//! What holds of the headers of an archive and of the numbers in them.

use vstd::arithmetic::power::pow;
use vstd::prelude::*;

use crate::header::Placing;
#[allow(unused_imports)]
use crate::header::{
    decimal, is_decimal, is_gnu, is_ustar, number, placing, told_size, unsigned,
};

verus! {

/// One digit writes its value, and the number that two texts of digits write
/// after one another is that of the first, moved by as many places as the second
/// has, and that of the second.
pub proof fn digits_stand_in_places(first: Seq<u8>, second: Seq<u8>)
    requires
        forall|i: int| 0 <= i < first.len() ==> 0x30 <= #[trigger] first[i] <= 0x39,
        forall|i: int| 0 <= i < second.len() ==> 0x30 <= #[trigger] second[i] <= 0x39,
    ensures
        number(Seq::empty()) == 0,
        first.len() == 1 ==> number(first) == first[0] - 0x30,
        number(first + second) == number(first) * pow(10, second.len()) + number(second),
    decreases second.len(),
{
    reveal(pow);
    reveal_with_fuel(number, 2);
    let all = first + second;
    if second.len() == 0 {
        assert(all =~= first);
        assert(number(first) * 1 == number(first)) by (nonlinear_arith);
    } else {
        let rest = second.drop_last();
        assert(all.drop_last() =~= first + rest);
        assert(all.last() == second.last());
        digits_stand_in_places(first, rest);
        let a = number(first) as int;
        let p = pow(10, rest.len());
        assert(pow(10, second.len()) == 10 * p);
        assert(10 * (a * p) == a * (10 * p)) by (nonlinear_arith);
    }
}

/// A text without a plus sign in front of it.
pub open spec fn without_sign(text: Seq<u8>) -> Seq<u8> {
    if text.len() > 0 && text[0] == 0x2b {
        text.skip(1)
    } else {
        text
    }
}

/// A number is read exactly from digits, at least one and with a plus sign in
/// front or without, if it fits in 64 bits, and it is the one that they write.
pub proof fn numbers_are_read_from_digits(text: Seq<u8>, value: u64)
    ensures
        decimal(text) == Some(value) <==> {
            &&& without_sign(text).len() > 0
            &&& forall|i: int|
                0 <= i < without_sign(text).len() ==> 0x30 <= #[trigger] without_sign(text)[i]
                    <= 0x39
            &&& number(without_sign(text)) == value
        },
{
    let digits = without_sign(text);
    assert(digits == unsigned(text));
    assert forall|i: int| 0 <= i < digits.len() implies is_decimal(#[trigger] digits[i]) == (0x30
        <= digits[i] <= 0x39) by {}
    if decimal(text) == Some(value) {
        assert forall|i: int| 0 <= i < digits.len() implies 0x30 <= #[trigger] digits[i]
            <= 0x39 by {
            assert(is_decimal(unsigned(text)[i]));
        }
    }
}

/// Whether the record at `i` is the first with the key `size`, all before it are
/// well formed, and this is its value.
pub open spec fn first_size(
    records: Seq<Option<(Seq<u8>, Seq<u8>)>>,
    i: int,
    value: Seq<u8>,
) -> bool {
    &&& 0 <= i < records.len()
    &&& records[i] == Some((seq![0x73u8, 0x69, 0x7a, 0x65], value))
    &&& forall|j: int|
        0 <= j < i ==> ((#[trigger] records[j]) matches Some((key, _)) && key != seq![
            0x73u8,
            0x69,
            0x7a,
            0x65,
        ])
}

/// A pax header tells a size exactly if a record has the key `size`, all before
/// the first such record are well formed, and its value is a number, which is
/// the size.
pub proof fn the_first_size_is_told(records: Seq<Option<(Seq<u8>, Seq<u8>)>>, size: u64)
    ensures
        told_size(records) == Some(size) <==> exists|i: int, value: Seq<u8>| #[trigger]
            first_size(records, i, value) && decimal(value) == Some(size),
    decreases records.len(),
{
    if records.len() > 0 {
        let rest = records.drop_first();
        the_first_size_is_told(rest, size);
        let key = seq![0x73u8, 0x69, 0x7a, 0x65];
        if told_size(records) == Some(size) {
            let (found, value) = records[0]->Some_0;
            if found == key {
                assert(first_size(records, 0, value));
            } else {
                let (i, value) = choose|i: int, value: Seq<u8>| #[trigger]
                    first_size(rest, i, value) && decimal(value) == Some(size);
                assert(records[i + 1] == rest[i]);
                assert forall|j: int| 0 <= j < i + 1 implies ((#[trigger] records[j]) matches Some(
                    (other, _),
                ) && other != key) by {
                    if j > 0 {
                        assert(records[j] == rest[j - 1]);
                    }
                }
                assert(first_size(records, i + 1, value));
            }
        }
        if exists|i: int, value: Seq<u8>| #[trigger]
            first_size(records, i, value) && decimal(value) == Some(size) {
            let (i, value) = choose|i: int, value: Seq<u8>| #[trigger]
                first_size(records, i, value) && decimal(value) == Some(size);
            if i > 0 {
                assert(records[0] is Some);
                assert forall|j: int| 0 <= j < i - 1 implies ((#[trigger] rest[j]) matches Some(
                    (other, _),
                ) && other != key) by {
                    assert(rest[j] == records[j + 1]);
                }
                assert(rest[i - 1] == records[i]);
                assert(first_size(rest, i - 1, value));
            }
        }
    }
}

/// The size of what follows a header: what the header declares, unless a pax
/// header told another and this one is no extension itself (`L`, `K`, `x`, `g`).
pub open spec fn effective_size(record: Seq<u8>, own: u64, told: Option<u64>) -> u64 {
    if record[156] == 0x4c || record[156] == 0x4b || record[156] == 0x78 || record[156] == 0x67 {
        own
    } else {
        match told {
            Some(other) => other,
            None => own,
        }
    }
}

/// The next header lies at the first boundary of records behind what follows
/// this one, if that is a position of 64 bits. A blank record ends the archive.
pub proof fn the_next_header_lies_behind_the_body(
    record: Seq<u8>,
    declared: Option<u64>,
    at: int,
    told: Option<u64>,
    size: u64,
)
    requires
        record.len() == 512,
        0 <= at,
        at % 512 == 0,
        declared matches Some(own) ==> size == effective_size(record, own, told),
    ensures
        placing(record, declared, at, told) is End <==> forall|i: int|
            0 <= i < 512 ==> #[trigger] record[i] == 0,
        placing(record, declared, at, told) is Unreadable ==> declared is None || at + size + 1024
            > u64::MAX,
        match placing(record, declared, at, told) {
            Placing::End | Placing::Unreadable => true,
            Placing::Prelude { size: body, next } => declared is Some && body == size && next % 512
                == 0 && at + 512 + size <= next < at + 1024 + size,
            Placing::Continued { next } | Placing::Entry { next } => declared is Some && next % 512
                == 0 && at + 512 + size <= next < at + 1024 + size,
        },
{
}

/// A header that only prepares for the next one is one of the kinds `L`, `K` and
/// `x` in the format of GNU or POSIX; one whose map goes on is a sparse file,
/// `S`, in the format of GNU with the mark for that; any other is an entry.
pub proof fn headers_are_told_by_their_kind(
    record: Seq<u8>,
    declared: Option<u64>,
    at: int,
    told: Option<u64>,
)
    requires
        record.len() == 512,
        !(placing(record, declared, at, told) is End),
        !(placing(record, declared, at, told) is Unreadable),
    ensures
        ({
            let magic = record.subrange(257, 265);
            let gnu = magic == seq![0x75u8, 0x73, 0x74, 0x61, 0x72, 0x20, 0x20, 0];
            let posix = magic == seq![0x75u8, 0x73, 0x74, 0x61, 0x72, 0, 0x30, 0x30];
            let kind = record[156];
            &&& placing(record, declared, at, told) is Prelude <==> (gnu || posix) && (kind == 0x4c
                || kind == 0x4b || kind == 0x78)
            &&& placing(record, declared, at, told) is Continued <==> gnu && kind == 0x53
                && record[482] == 1
        }),
{
    let magic = record.subrange(257, 265);
    let gnu = seq![0x75u8, 0x73, 0x74, 0x61, 0x72, 0x20, 0x20, 0];
    let posix = seq![0x75u8, 0x73, 0x74, 0x61, 0x72, 0, 0x30, 0x30];
    assert(magic[0] == record[257] && magic[1] == record[258] && magic[2] == record[259] && magic[3]
        == record[260] && magic[4] == record[261] && magic[5] == record[262] && magic[6]
        == record[263] && magic[7] == record[264]);
    if is_gnu(record) {
        assert(magic =~= gnu);
    }
    if is_ustar(record) {
        assert(magic =~= posix);
    }
    assert(gnu[6] != posix[6]);
}

} // verus!
