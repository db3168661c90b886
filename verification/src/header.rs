//! Where the headers of an archive put what follows them.
//!
//! An archive is laid out in records. A header takes one, and what it describes
//! follows in as many as its size asks for. Some headers only prepare for the
//! next one: they give it a long name, or tell it another size.

use vstd::prelude::*;

verus! {

/// The length of a record.
pub const RECORD: usize = 512;

/// A reader of the records of a pax header.
#[verifier::external_type_specification]
#[verifier::external_body]
pub struct ExPaxExtensions<'entry>(tar::PaxExtensions<'entry>);

/// A record of a pax header.
#[verifier::external_type_specification]
#[verifier::external_body]
pub struct ExPaxExtension<'entry>(tar::PaxExtension<'entry>);

/// A failure of input or output.
#[verifier::external_type_specification]
#[verifier::external_body]
pub struct ExIoError(std::io::Error);

/// The size that a header declares, if its field can be read.
pub uninterp spec fn declared_size(record: Seq<u8>) -> Option<u64>;

/// What the body of a pax header holds, one record after the other: a key and
/// its value, or nothing where a record is malformed.
pub uninterp spec fn pax_records(body: Seq<u8>) -> Seq<Option<(Seq<u8>, Seq<u8>)>>;

/// What a reader of such records has still to give.
pub uninterp spec fn pax_rest(list: tar::PaxExtensions<'_>) -> Seq<Option<(Seq<u8>, Seq<u8>)>>;

/// `tar::Header::from_byte_slice` and `tar::Header::entry_size`: the number in
/// the size field of a header, which depends on the header alone, or none where
/// the field holds no number. The outside function panics for anything but a
/// whole record, so a whole record is asked for.
#[verifier::external_body]
fn read_size(record: &Vec<u8>) -> (res: Option<u64>)
    requires
        record@.len() == RECORD,
    ensures
        res == declared_size(record@),
{
    tar::Header::from_byte_slice(record.as_slice()).entry_size().ok()
}

/// `tar::PaxExtensions::new`: a reader of the records in the body of a pax
/// header, which depend on the body alone.
#[verifier::external_body]
fn open_pax(body: &[u8]) -> (res: tar::PaxExtensions<'_>)
    ensures
        pax_rest(res) == pax_records(body@),
{
    tar::PaxExtensions::new(body)
}

/// A record of a pax header as the contracts speak of it.
pub open spec fn pax_view(record: Option<(Vec<u8>, Vec<u8>)>) -> Option<(Seq<u8>, Seq<u8>)> {
    match record {
        Some((key, value)) => Some((key@, value@)),
        None => None,
    }
}

/// `tar::PaxExtensions` by its `Iterator::next`, and `key_bytes` and
/// `value_bytes` of what it gives: the next record, or nothing in its place
/// where it is malformed. At the end there is none; what comes of asking again
/// is left open.
#[verifier::external_body]
fn next_pax(list: &mut tar::PaxExtensions<'_>) -> (res: Option<Option<(Vec<u8>, Vec<u8>)>>)
    ensures
        match res {
            Some(record) => {
                &&& pax_rest(*old(list)).len() > 0
                &&& pax_view(record) == pax_rest(*old(list))[0]
                &&& pax_rest(*final(list)) == pax_rest(*old(list)).drop_first()
            },
            None => pax_rest(*old(list)).len() == 0,
        },
{
    match list.next() {
        Some(Ok(record)) => Some(
            Some((record.key_bytes().to_vec(), record.value_bytes().to_vec())),
        ),
        Some(Err(_)) => Some(None),
        None => None,
    }
}

/// A decimal digit.
pub open spec fn is_decimal(byte: u8) -> bool {
    0x30 <= byte <= 0x39
}

/// The number that decimal digits write.
pub open spec fn number(digits: Seq<u8>) -> nat
    decreases digits.len(),
{
    if digits.len() == 0 {
        0
    } else {
        10 * number(digits.drop_last()) + (digits.last() - 0x30) as nat
    }
}

/// The digits of a text that may begin with a plus sign.
pub open spec fn unsigned(text: Seq<u8>) -> Seq<u8> {
    if text.len() > 0 && text[0] == 0x2b {
        text.skip(1)
    } else {
        text
    }
}

/// The number that a text writes: decimal digits, at least one, with a plus
/// sign in front or without, and no more than 64 bits hold.
pub open spec fn decimal(text: Seq<u8>) -> Option<u64> {
    let digits = unsigned(text);
    if digits.len() > 0 && number(digits) <= u64::MAX && forall|i: int|
        0 <= i < digits.len() ==> is_decimal(#[trigger] digits[i]) {
        Some(number(digits) as u64)
    } else {
        None
    }
}

proof fn number_grows(digits: Seq<u8>, count: int)
    requires
        0 <= count <= digits.len(),
    ensures
        number(digits.take(count)) <= number(digits),
    decreases digits.len(),
{
    if count < digits.len() {
        number_grows(digits.drop_last(), count);
        assert(digits.drop_last().take(count) =~= digits.take(count));
    } else {
        assert(digits.take(count) =~= digits);
    }
}

/// Reads a decimal number.
pub fn parse_decimal(text: &[u8]) -> (res: Option<u64>)
    ensures
        res == decimal(text@),
{
    let start: usize = if text.len() > 0 && text[0] == 0x2b {
        1
    } else {
        0
    };
    let ghost digits = unsigned(text@);
    assert(digits =~= text@.skip(start as int));
    if start == text.len() {
        return None;
    }
    let mut total: u64 = 0;
    let mut i: usize = start;
    while i < text.len()
        invariant
            start <= i <= text.len(),
            start <= 1,
            digits == unsigned(text@),
            digits == text@.skip(start as int),
            total == number(digits.take(i - start)),
            forall|k: int| 0 <= k < i - start ==> is_decimal(#[trigger] digits[k]),
        decreases text.len() - i,
    {
        let byte: u8 = text[i];
        let ghost place = i - start;
        assert(digits[place] == byte);
        if byte < 0x30 || byte > 0x39 {
            assert(!is_decimal(digits[place]));
            return None;
        }
        let wide: u128 = total as u128 * 10 + (byte - 0x30) as u128;
        proof {
            assert(digits.take(place + 1).drop_last() =~= digits.take(place));
            assert(digits.take(place + 1).last() == byte);
            number_grows(digits, place + 1);
        }
        if wide > u64::MAX as u128 {
            return None;
        }
        total = wide as u64;
        i = i + 1;
    }
    assert(digits.take(text.len() - start) =~= digits);
    Some(total)
}

/// `size`.
pub open spec fn size_key() -> Seq<u8> {
    seq![0x73u8, 0x69, 0x7a, 0x65]
}

/// The size that pax records tell: the number under the first key `size`, if
/// all before it are well formed and it is a number.
pub open spec fn told_size(records: Seq<Option<(Seq<u8>, Seq<u8>)>>) -> Option<u64>
    decreases records.len(),
{
    if records.len() == 0 {
        None
    } else {
        match records[0] {
            None => None,
            Some((key, value)) => if key == size_key() {
                decimal(value)
            } else {
                told_size(records.drop_first())
            },
        }
    }
}

fn is_size_key(key: &Vec<u8>) -> (res: bool)
    ensures
        res == (key@ == size_key()),
{
    let res: bool = key.len() == 4 && key[0] == 0x73 && key[1] == 0x69 && key[2] == 0x7a && key[3]
        == 0x65;
    proof {
        if res {
            assert(key@ =~= size_key());
        }
    }
    res
}

/// Reads the size that the body of a pax header tells.
pub fn pax_size(body: &[u8]) -> (res: Option<u64>)
    ensures
        res == told_size(pax_records(body@)),
{
    let mut list: tar::PaxExtensions<'_> = open_pax(body);
    loop
        invariant
            told_size(pax_rest(list)) == told_size(pax_records(body@)),
        decreases pax_rest(list).len(),
    {
        match next_pax(&mut list) {
            None => {
                return None;
            },
            Some(None) => {
                return None;
            },
            Some(Some((key, value))) => {
                if is_size_key(&key) {
                    return parse_decimal(value.as_slice());
                }
            },
        }
    }
}

/// Whether a record is all zero: it ends an archive.
pub open spec fn is_blank(record: Seq<u8>) -> bool {
    forall|i: int| 0 <= i < record.len() ==> #[trigger] record[i] == 0
}

/// Whether the header is in the format of GNU: `ustar`, two spaces and a zero.
pub open spec fn is_gnu(record: Seq<u8>) -> bool {
    &&& record[257] == 0x75
    &&& record[258] == 0x73
    &&& record[259] == 0x74
    &&& record[260] == 0x61
    &&& record[261] == 0x72
    &&& record[262] == 0x20
    &&& record[263] == 0x20
    &&& record[264] == 0
}

/// Whether the header is in the format of POSIX: `ustar`, a zero and `00`.
pub open spec fn is_ustar(record: Seq<u8>) -> bool {
    &&& record[257] == 0x75
    &&& record[258] == 0x73
    &&& record[259] == 0x74
    &&& record[260] == 0x61
    &&& record[261] == 0x72
    &&& record[262] == 0
    &&& record[263] == 0x30
    &&& record[264] == 0x30
}

/// Whether the header is of a kind that a pax header tells no size: `L`, `K`,
/// `x` or `g`.
pub open spec fn is_extension(record: Seq<u8>) -> bool {
    record[156] == 0x4c || record[156] == 0x4b || record[156] == 0x78 || record[156] == 0x67
}

/// Whether the header only prepares for the next one: `L` and `K` give it a
/// long name, `x` is a pax header.
pub open spec fn is_prelude(record: Seq<u8>) -> bool {
    &&& is_gnu(record) || is_ustar(record)
    &&& record[156] == 0x4c || record[156] == 0x4b || record[156] == 0x78
}

/// Whether the header is that of a sparse file, `S`, whose map goes on in the
/// next record.
pub open spec fn is_continued_sparse(record: Seq<u8>) -> bool {
    record[156] == 0x53 && is_gnu(record) && record[482] == 1
}

/// The length of the records that a body of this size takes.
pub open spec fn rounded(size: int) -> int {
    512 * ((size + 511) / 512)
}

/// What a header makes of its place in an archive.
#[derive(Debug, PartialEq, Eq)]
pub enum Placing {
    /// The archive ends here.
    End,
    /// No size can be read, or nothing can follow at so large a position.
    Unreadable,
    /// A body of `size` bytes prepares for the header at `next`.
    Prelude { size: u64, next: u64 },
    /// The map of the sparse file goes on, and as much as that takes beyond
    /// `next` lies the next header.
    Continued { next: u64 },
    /// The next header lies at `next`.
    Entry { next: u64 },
}

/// What the header at `at`, which declares this size, makes of its place, where
/// a pax header before it may have told another.
pub open spec fn placing(
    record: Seq<u8>,
    declared: Option<u64>,
    at: int,
    told: Option<u64>,
) -> Placing {
    let size = match (declared, told) {
        (Some(own), Some(other)) => if is_extension(record) {
            own
        } else {
            other
        },
        (Some(own), None) => own,
        (None, _) => 0,
    };
    let next = at + 512 + rounded(size as int);
    if is_blank(record) {
        Placing::End
    } else if declared is None || next > u64::MAX {
        Placing::Unreadable
    } else if is_prelude(record) {
        Placing::Prelude { size, next: next as u64 }
    } else if is_continued_sparse(record) {
        Placing::Continued { next: next as u64 }
    } else {
        Placing::Entry { next: next as u64 }
    }
}

fn blank(record: &Vec<u8>) -> (res: bool)
    ensures
        res == is_blank(record@),
{
    let mut i: usize = 0;
    while i < record.len()
        invariant
            i <= record.len(),
            forall|k: int| 0 <= k < i ==> #[trigger] record@[k] == 0,
        decreases record.len() - i,
    {
        if record[i] != 0 {
            assert(record@[i as int] != 0);
            return false;
        }
        i = i + 1;
    }
    true
}

/// Finds what a header makes of its place.
pub fn place(record: &Vec<u8>, declared: Option<u64>, at: u64, told: Option<u64>) -> (res: Placing)
    requires
        record@.len() == RECORD,
    ensures
        res == placing(record@, declared, at as int, told),
{
    if blank(record) {
        return Placing::End;
    }
    let own: u64 = match declared {
        Some(own) => own,
        None => {
            return Placing::Unreadable;
        },
    };
    let kind: u8 = record[156];
    let size: u64 = match told {
        Some(other) => {
            if kind == 0x4c || kind == 0x4b || kind == 0x78 || kind == 0x67 {
                own
            } else {
                other
            }
        },
        None => own,
    };
    let wide: u128 = at as u128 + 512 + 512 * ((size as u128 + 511) / 512);
    if wide > u64::MAX as u128 {
        return Placing::Unreadable;
    }
    let next: u64 = wide as u64;
    let named: bool = record[257] == 0x75 && record[258] == 0x73 && record[259] == 0x74
        && record[260] == 0x61 && record[261] == 0x72;
    let gnu: bool = named && record[262] == 0x20 && record[263] == 0x20 && record[264] == 0;
    let ustar: bool = named && record[262] == 0 && record[263] == 0x30 && record[264] == 0x30;
    if (gnu || ustar) && (kind == 0x4c || kind == 0x4b || kind == 0x78) {
        Placing::Prelude { size, next }
    } else if gnu && kind == 0x53 && record[482] == 1 {
        Placing::Continued { next }
    } else {
        Placing::Entry { next }
    }
}

/// Finds what a header makes of its place, by the size that it declares.
pub fn place_header(record: &Vec<u8>, at: u64, told: Option<u64>) -> (res: Placing)
    requires
        record@.len() == RECORD,
    ensures
        res == placing(record@, declared_size(record@), at as int, told),
{
    place(record, read_size(record), at, told)
}

} // verus!
