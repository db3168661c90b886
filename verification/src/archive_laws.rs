//! What holds of checking an archive against its limits.

use vstd::prelude::*;

#[allow(unused_imports)]
use crate::archive::{
    archived, first_offender, fits, fitting_is_a_bound_on_count_and_size, reads_up_to, refuses,
    refuses_at, total_size, within_limits,
};
use crate::error::BackupError;
#[allow(unused_imports)]
use crate::walk::{inflated, overflows_at};

verus! {

/// The sizes of all entries that can be read, added up over unbounded numbers.
pub open spec fn sum_of_sizes(listing: Seq<Result<u64, Seq<char>>>) -> int {
    listing.fold_left(
        0int,
        |sum: int, entry: Result<u64, Seq<char>>|
            sum + match entry {
                Ok(size) => size as int,
                Err(_) => 0int,
            },
    )
}

/// The size of the first entries together is the sum of their sizes.
pub proof fn sizes_add_up(listing: Seq<Result<u64, Seq<char>>>, count: int)
    requires
        0 <= count <= listing.len(),
    ensures
        total_size(listing, count) == sum_of_sizes(listing.take(count)),
    decreases count,
{
    if count > 0 {
        sizes_add_up(listing, count - 1);
        assert(listing.take(count).drop_last() =~= listing.take(count - 1));
    }
}

/// An archive is within the limits exactly if every entry can be read, there are
/// no more than allowed, and the sum of their sizes is no larger than allowed.
pub proof fn limits_bound_count_and_sum(
    listing: Seq<Result<u64, Seq<char>>>,
    max_bytes: u64,
    max_entries: usize,
)
    ensures
        fits(listing, max_bytes, max_entries) <==> {
            &&& forall|i: int| 0 <= i < listing.len() ==> (#[trigger] listing[i]) is Ok
            &&& listing.len() <= max_entries
            &&& sum_of_sizes(listing) <= max_bytes
        },
{
    fitting_is_a_bound_on_count_and_size(listing, max_bytes, max_entries);
    sizes_add_up(listing, listing.len() as int);
    assert(listing.take(listing.len() as int) =~= listing);
}

/// An archive is refused for the first entry that is at fault, and for its
/// fault: the position behind it leaves 64 bits, so that it cannot be read; or
/// it cannot be read, and the reason is told in the words of the reader; or it
/// is one too many; or the sum of the sizes with it does not fit in 64 bits; or
/// that sum is larger than allowed. All entries before it can be read, are not
/// too many and not too large.
pub proof fn refusal_tells_the_first_fault(
    error: BackupError,
    bytes: Seq<u8>,
    index: int,
    max_bytes: u64,
    max_entries: usize,
)
    requires
        refuses_at(error, bytes, index, max_bytes, max_entries),
    ensures
        0 <= index <= archived(bytes).len(),
        forall|i: int| 0 <= i < index ==> (#[trigger] archived(bytes)[i]) is Ok,
        index <= max_entries,
        sum_of_sizes(archived(bytes).take(index)) <= max_bytes,
        forall|i: nat| i < index ==> !#[trigger] overflows_at(inflated(bytes), i),
        overflows_at(inflated(bytes), index as nat) ==> error is UnreadableArchive,
        !overflows_at(inflated(bytes), index as nat) ==> index < archived(bytes).len()
            && match archived(bytes)[index] {
            Err(text) => error matches BackupError::UnreadableArchive(told) && told@ == text,
            Ok(_) => {
                let sum = sum_of_sizes(archived(bytes).take(index + 1));
                &&& error is TooManyEntries <==> index == max_entries
                &&& error is TooLarge <==> index < max_entries && sum > u64::MAX
                &&& error is ExpandsBeyondLimit <==> index < max_entries && max_bytes < sum
                    <= u64::MAX
                &&& index == max_entries || sum > max_bytes
            },
        },
{
    let listing = archived(bytes);
    sizes_add_up(listing, index);
    if index < listing.len() {
        sizes_add_up(listing, index + 1);
    }
    assert forall|i: int| 0 <= i < index implies (#[trigger] listing[i]) is Ok by {
        assert(within_limits(listing, i, max_bytes, max_entries));
    }
    if index > 0 {
        assert(within_limits(listing, index - 1, max_bytes, max_entries));
    }
}

} // verus!
