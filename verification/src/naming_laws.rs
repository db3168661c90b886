//! What holds of the names that the library makes.

use vstd::prelude::*;

#[allow(unused_imports)]
use crate::naming::{
    attachment, backup_name, hex_char, hex_digits, hyphenated_form, is_digit, is_timestamp,
    names_staging, recovery_name, simple_form, staging_name, upload_name,
};
use crate::naming::{RESTORE_STAGING_PREFIX, TIMESTAMP_FORMAT};

verus! {

/// The characters that can stand in a file name and in a header value without
/// any quoting.
pub open spec fn is_plain(c: char) -> bool {
    ||| is_digit(c)
    ||| 'a' <= c <= 'z'
    ||| c == '_'
    ||| c == '.'
    ||| c == '-'
    ||| c == '+'
}

/// Whether all of a text is made of such characters.
pub open spec fn all_plain(text: Seq<char>) -> bool {
    forall|i: int| 0 <= i < text.len() ==> is_plain(#[trigger] text[i])
}

proof fn plain_in_sum(first: Seq<char>, second: Seq<char>)
    requires
        all_plain(first),
        all_plain(second),
    ensures
        all_plain(first + second),
{
}

proof fn hex_is_plain(number: nat, width: nat)
    ensures
        hex_digits(number, width).len() == width,
        all_plain(hex_digits(number, width)),
    decreases width,
{
    if width > 0 {
        hex_is_plain(number / 16, (width - 1) as nat);
        let digit = number % 16;
        assert(digit < 16);
        assert(is_plain(hex_char(digit)));
    }
}

proof fn hyphenated_is_plain(id: u128)
    ensures
        hyphenated_form(id).len() == 36,
        all_plain(hyphenated_form(id)),
{
    hex_is_plain(id as nat, 32);
}

/// A backup made at any time has a name of plain characters, so that it is one
/// file name and needs no quoting where it is offered for download.
pub proof fn backup_names_are_plain(timestamp: Seq<char>)
    requires
        is_timestamp(timestamp),
    ensures
        all_plain(backup_name(timestamp)),
{
    reveal_strlit("zhuque_backup_");
    reveal_strlit(".tar.gz");
    assert(all_plain(timestamp));
    plain_in_sum("zhuque_backup_"@, timestamp);
    plain_in_sum("zhuque_backup_"@ + timestamp, ".tar.gz"@);
}

/// The files of a restore have names of plain characters.
pub proof fn restore_names_are_plain(timestamp: Seq<char>, id: u128)
    requires
        is_timestamp(timestamp),
    ensures
        all_plain(upload_name(id)),
        all_plain(recovery_name(timestamp, id)),
        all_plain(staging_name(id)),
{
    reveal_strlit(".zhuque_uploaded_");
    reveal_strlit("zhuque_before_restore_");
    reveal_strlit("_");
    reveal_strlit(".zhuque_restore_");
    reveal_strlit(".tar.gz");
    hyphenated_is_plain(id);
    hex_is_plain(id as nat, 32);
    assert(all_plain(timestamp));
    assert(all_plain(RESTORE_STAGING_PREFIX@));
}

/// A staging directory is recognised as one by its name.
pub proof fn stagings_are_recognised(id: u128)
    ensures
        names_staging(staging_name(id)),
{
}

/// The number of texts of `width` hexadecimal digits.
spec fn hex_count(width: nat) -> nat
    decreases width,
{
    if width == 0 {
        1
    } else {
        16 * hex_count((width - 1) as nat)
    }
}

proof fn hex_determines_number(first: nat, second: nat, width: nat)
    requires
        first < hex_count(width),
        second < hex_count(width),
        hex_digits(first, width) == hex_digits(second, width),
    ensures
        first == second,
    decreases width,
{
    if width > 0 {
        let shorter = (width - 1) as nat;
        let a = hex_digits(first / 16, shorter);
        let b = hex_digits(second / 16, shorter);
        let x = hex_char(first % 16);
        let y = hex_char(second % 16);
        assert(a.push(x).drop_last() == a);
        assert(b.push(y).drop_last() == b);
        assert(a.push(x).last() == x);
        assert(b.push(y).last() == y);
        assert(first % 16 == second % 16);
        hex_determines_number(first / 16, second / 16, shorter);
    }
}

proof fn simple_form_determines_id(first: u128, second: u128)
    requires
        simple_form(first) == simple_form(second),
    ensures
        first == second,
{
    assert(hex_count(32) == 0x1_0000_0000_0000_0000_0000_0000_0000_0000) by {
        reveal_with_fuel(hex_count, 33);
    }
    hex_determines_number(first as nat, second as nat, 32);
}

proof fn hyphenated_form_determines_id(first: u128, second: u128)
    requires
        hyphenated_form(first) == hyphenated_form(second),
    ensures
        first == second,
{
    hex_is_plain(first as nat, 32);
    hex_is_plain(second as nat, 32);
    let a = simple_form(first);
    let b = simple_form(second);
    let p = hyphenated_form(first);
    let q = hyphenated_form(second);
    assert forall|i: int| 0 <= i < 32 implies a[i] == b[i] by {
        let shift: int = if i < 8 {
            0
        } else if i < 12 {
            1
        } else if i < 16 {
            2
        } else if i < 20 {
            3
        } else {
            4
        };
        assert(p[i + shift] == a[i]);
        assert(q[i + shift] == b[i]);
    }
    assert(a == b);
    simple_form_determines_id(first, second);
}

/// Requests with different identifiers use different files and staging
/// directories.
pub proof fn different_requests_use_different_names(
    first: u128,
    second: u128,
    timestamp: Seq<char>,
)
    requires
        first != second,
    ensures
        upload_name(first) != upload_name(second),
        staging_name(first) != staging_name(second),
        recovery_name(timestamp, first) != recovery_name(timestamp, second),
{
    hyphenated_is_plain(first);
    hyphenated_is_plain(second);
    hex_is_plain(first as nat, 32);
    hex_is_plain(second as nat, 32);
    let head = ".zhuque_uploaded_"@;
    if upload_name(first) == upload_name(second) {
        assert(upload_name(first).subrange(head.len() as int, head.len() as int + 36)
            == hyphenated_form(first));
        assert(upload_name(second).subrange(head.len() as int, head.len() as int + 36)
            == hyphenated_form(second));
        hyphenated_form_determines_id(first, second);
    }
    let prefix = RESTORE_STAGING_PREFIX@;
    if staging_name(first) == staging_name(second) {
        assert(staging_name(first).subrange(prefix.len() as int, prefix.len() as int + 36)
            == hyphenated_form(first));
        assert(staging_name(second).subrange(prefix.len() as int, prefix.len() as int + 36)
            == hyphenated_form(second));
        hyphenated_form_determines_id(first, second);
    }
    let start = "zhuque_before_restore_"@ + timestamp + "_"@;
    if recovery_name(timestamp, first) == recovery_name(timestamp, second) {
        assert(recovery_name(timestamp, first).subrange(start.len() as int, start.len() as int + 32)
            == simple_form(first));
        assert(recovery_name(timestamp, second).subrange(start.len() as int, start.len() as int + 32)
            == simple_form(second));
        simple_form_determines_id(first, second);
    }
}

/// Whether a name begins with `head`, ends with `tail`, and has exactly `middle`
/// between them.
pub open spec fn encloses(
    name: Seq<char>,
    head: Seq<char>,
    middle: Seq<char>,
    tail: Seq<char>,
) -> bool {
    &&& name.len() == head.len() + middle.len() + tail.len()
    &&& head.is_prefix_of(name)
    &&& name.subrange(head.len() as int, (head.len() + middle.len()) as int) == middle
    &&& name.skip((head.len() + middle.len()) as int) == tail
}

proof fn sums_enclose(head: Seq<char>, middle: Seq<char>, tail: Seq<char>)
    ensures
        encloses(head + middle + tail, head, middle, tail),
{
    let name = head + middle + tail;
    assert(name.take(head.len() as int) =~= head);
    assert(name.subrange(head.len() as int, (head.len() + middle.len()) as int) =~= middle);
    assert(name.skip((head.len() + middle.len()) as int) =~= tail);
}

/// Names hold what they are made of, whole and in its place: a backup its time,
/// a header value the name of the file, an upload and a staging directory the
/// identifier in groups, and a recovery point its time and the identifier.
pub proof fn names_hold_what_they_are_made_of(timestamp: Seq<char>, filename: Seq<char>, id: u128)
    ensures
        encloses(backup_name(timestamp), "zhuque_backup_"@, timestamp, ".tar.gz"@),
        encloses(attachment(filename), "attachment; filename=\""@, filename, "\""@),
        encloses(upload_name(id), ".zhuque_uploaded_"@, hyphenated_form(id), ".tar.gz"@),
        encloses(staging_name(id), ".zhuque_restore_"@, hyphenated_form(id), Seq::empty()),
        encloses(
            recovery_name(timestamp, id),
            "zhuque_before_restore_"@,
            timestamp + seq!['_'] + simple_form(id),
            ".tar.gz"@,
        ),
{
    sums_enclose("zhuque_backup_"@, timestamp, ".tar.gz"@);
    sums_enclose("attachment; filename=\""@, filename, "\""@);
    sums_enclose(".zhuque_uploaded_"@, hyphenated_form(id), ".tar.gz"@);
    sums_enclose(".zhuque_restore_"@, hyphenated_form(id), Seq::empty());
    assert(staging_name(id) =~= ".zhuque_restore_"@ + hyphenated_form(id) + Seq::empty());
    reveal_strlit("_");
    let middle = timestamp + seq!['_'] + simple_form(id);
    sums_enclose("zhuque_before_restore_"@, middle, ".tar.gz"@);
    assert(recovery_name(timestamp, id) =~= "zhuque_before_restore_"@ + middle + ".tar.gz"@);
}

/// An entry is taken for a staging directory exactly if its name begins with
/// `.zhuque_restore_`.
pub proof fn stagings_are_told_by_their_beginning(name: Seq<char>)
    ensures
        names_staging(name) <==> name.len() >= 16 && name.take(16) == ".zhuque_restore_"@,
{
    reveal_strlit(".zhuque_restore_");
    assert(".zhuque_restore_"@.len() == 16);
}

/// Times are laid out as year, month and day, and behind an underscore hour of
/// the day, minute and second.
pub proof fn times_are_laid_out_by_date_and_hour()
    ensures
        TIMESTAMP_FORMAT@ == "%Y%m%d_%H%M%S"@,
{
}

/// The number that hexadecimal digits in lower case write.
pub open spec fn hex_value(digits: Seq<char>) -> nat
    decreases digits.len(),
{
    if digits.len() == 0 {
        0
    } else {
        let c = digits.last();
        16 * hex_value(digits.drop_last()) + (if 'a' <= c {
            c as nat - 'a' as nat + 10
        } else {
            c as nat - '0' as nat
        }) as nat
    }
}

proof fn hex_digits_write_the_number(number: nat, width: nat)
    requires
        number < hex_count(width),
    ensures
        hex_value(hex_digits(number, width)) == number,
    decreases width,
{
    if width > 0 {
        let shorter = (width - 1) as nat;
        hex_digits_write_the_number(number / 16, shorter);
        let digits = hex_digits(number, width);
        assert(digits.drop_last() =~= hex_digits(number / 16, shorter));
        assert(digits.last() == hex_char(number % 16));
    }
}

/// An identifier can be read back from its digits, of which there are 32; the
/// form in groups holds the same digits, with hyphens in the ninth, fourteenth,
/// nineteenth and twenty-fourth place.
pub proof fn identifiers_can_be_read_back(id: u128)
    ensures
        simple_form(id).len() == 32,
        hex_value(simple_form(id)) == id,
        ({
            let grouped = hyphenated_form(id);
            &&& grouped.len() == 36
            &&& grouped[8] == '-' && grouped[13] == '-' && grouped[18] == '-' && grouped[23] == '-'
            &&& grouped.subrange(0, 8) + grouped.subrange(9, 13) + grouped.subrange(14, 18)
                + grouped.subrange(19, 23) + grouped.subrange(24, 36) == simple_form(id)
        }),
{
    assert(hex_count(32) == 0x1_0000_0000_0000_0000_0000_0000_0000_0000) by {
        reveal_with_fuel(hex_count, 33);
    }
    hex_digits_write_the_number(id as nat, 32);
    hex_is_plain(id as nat, 32);
}

} // verus!
