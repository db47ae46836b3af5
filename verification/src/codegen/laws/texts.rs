//! What holds of texts and of their joining.
use vstd::prelude::*;
use crate::text::{occurs_at, spaced};

verus! {

/// A text agrees with each of its prefixes, character by character.
pub proof fn prefix_agrees(prefix: Seq<char>, text: Seq<char>, i: int)
    requires
        prefix.is_prefix_of(text),
        0 <= i < prefix.len(),
    ensures
        text[i] == prefix[i],
{
    assert(text.subrange(0, prefix.len() as int)[i] == text[i]);
}

/// What occurs in a prefix of a text occurs in the text, at the same place.
pub proof fn occurrence_in_prefix(part: Seq<char>, at: int, prefix: Seq<char>, text: Seq<char>)
    requires
        occurs_at(prefix, at, part),
        prefix.is_prefix_of(text),
    ensures
        occurs_at(text, at, part),
{
    let here = text.subrange(at, at + part.len());
    let there = prefix.subrange(at, at + part.len());
    assert forall|i: int| 0 <= i < part.len() implies #[trigger] here[i] == there[i] by {
        prefix_agrees(prefix, text, at + i);
    }
    assert(here =~= there);
}

/// What occurs in a text occurs in every text that ends with it, further
/// on by the length of what stands before.
pub proof fn occurrence_after(part: Seq<char>, at: int, before: Seq<char>, text: Seq<char>)
    requires
        occurs_at(text, at, part),
    ensures
        occurs_at(before + text, before.len() + at, part),
{
    assert((before + text).subrange(before.len() + at, before.len() + at + part.len())
        =~= text.subrange(at, at + part.len()));
}

/// A text that is not empty begins the text that joins it to another.
pub proof fn spaced_begins_with_left(left: Seq<char>, right: Seq<char>)
    requires
        left.len() > 0,
    ensures
        left.is_prefix_of(spaced(left, right)),
{
    assert(left =~= spaced(left, right).subrange(0, left.len() as int));
}

/// A text ends the text that joins another to it, and stands there after
/// the other and its blank.
pub proof fn spaced_ends_with_right(left: Seq<char>, right: Seq<char>)
    requires
        right.len() > 0,
    ensures
        occurs_at(spaced(left, right), spaced(left, right).len() - right.len(), right),
        left.len() > 0 ==> spaced(left, right).len() - right.len() == left.len() + 1,
{
    let joined = spaced(left, right);
    assert(joined.subrange(joined.len() - right.len(), joined.len() as int) =~= right);
}

/// Whether `first`, `second` and `third` occur in `text` in this order,
/// none reaching into the next.
pub open spec fn in_order(
    first: Seq<char>,
    second: Seq<char>,
    third: Seq<char>,
    text: Seq<char>,
) -> bool {
    exists|i: int, j: int, k: int|
        #![trigger occurs_at(text, i, first), occurs_at(text, j, second), occurs_at(text, k, third)]
        occurs_at(text, i, first) && occurs_at(text, j, second) && occurs_at(text, k, third) && i
            + first.len() <= j && j + second.len() <= k
}

} // verus!
