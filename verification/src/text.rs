//! Small operations on text.

use vstd::prelude::*;

verus! {

/// The parts in order, with `separator` between each two neighbours.
pub open spec fn joined(parts: Seq<Seq<char>>, separator: Seq<char>) -> Seq<char>
    decreases parts.len(),
{
    if parts.len() == 0 {
        Seq::empty()
    } else if parts.len() == 1 {
        parts[0]
    } else {
        joined(parts.drop_last(), separator) + separator + parts.last()
    }
}

/// The characters of each string.
pub open spec fn contents(strings: Seq<String>) -> Seq<Seq<char>> {
    strings.map_values(|s: String| s@)
}

/// Joins the strings with the separator between them.
pub fn join(strings: &Vec<String>, separator: &str) -> (res: String)
    ensures
        res@ == joined(contents(strings@), separator@),
{
    let mut res = String::new();
    let mut i: usize = 0;
    while i < strings.len()
        invariant
            i <= strings.len(),
            res@ == joined(contents(strings@).take(i as int), separator@),
        decreases strings.len() - i,
    {
        proof {
            let longer = contents(strings@).take(i + 1);
            assert(longer.drop_last() == contents(strings@).take(i as int));
            assert(longer.last() == strings@[i as int]@);
        }
        if i > 0 {
            res.append(separator);
        }
        res.append(strings[i].as_str());
        i = i + 1;
    }
    proof {
        assert(contents(strings@).take(i as int) == contents(strings@));
    }
    res
}

/// Whether `text` begins with `prefix`.
pub fn has_prefix(text: &str, prefix: &str) -> (res: bool)
    ensures
        res == prefix@.is_prefix_of(text@),
{
    let total: usize = text.unicode_len();
    let count: usize = prefix.unicode_len();
    if count > total {
        return false;
    }
    let head: &str = text.substring_char(0, count);
    let same: bool = head.to_owned() == prefix.to_owned();
    proof {
        assert(same ==> prefix@ == text@.subrange(0, prefix@.len() as int));
    }
    same
}

/// A single part is joined to itself, and what two lists of parts are joined to
/// is what both are joined to, with one separator between them.
pub proof fn joining_puts_separators_between(
    first: Seq<Seq<char>>,
    second: Seq<Seq<char>>,
    separator: Seq<char>,
)
    requires
        first.len() > 0,
        second.len() > 0,
    ensures
        joined(first + second, separator) == joined(first, separator) + separator + joined(
            second,
            separator,
        ),
        first.len() == 1 ==> joined(first, separator) == first[0],
        joined(Seq::empty(), separator) == Seq::<char>::empty(),
    decreases second.len(),
{
    let all = first + second;
    assert(all.drop_last() =~= first + second.drop_last());
    assert(all.last() == second.last());
    if second.len() == 1 {
        assert(first + second.drop_last() =~= first);
    } else {
        joining_puts_separators_between(first, second.drop_last(), separator);
        assert(joined(all, separator) =~= joined(first, separator) + separator + joined(
            second,
            separator,
        ));
    }
}

/// The contents of strings are the characters of each, in order.
pub proof fn contents_are_characters(strings: Seq<String>, i: int)
    requires
        0 <= i < strings.len(),
    ensures
        contents(strings).len() == strings.len(),
        contents(strings)[i] == strings[i]@,
{
}

} // verus!
