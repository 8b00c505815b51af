//! Texts as sequences of characters, for the code that reads paths.

use vstd::prelude::*;

verus! {

/// Whether `text` begins with `prefix`.
pub open spec fn begins_with(text: Seq<char>, prefix: Seq<char>) -> bool {
    prefix.len() <= text.len() && text.take(prefix.len() as int) == prefix
}

/// The characters of `text`, in order.
pub fn chars_of(text: &str) -> (chars: Vec<char>)
    ensures
        chars@ == text@,
{
    let mut chars: Vec<char> = Vec::new();
    for c in it: text.chars()
        invariant
            chars.len() == it.index(),
            it.seq() == text@,
            forall|i: int| 0 <= i < chars.len() ==> chars@[i] == it.seq()[i],
    {
        chars.push(c);
    }
    chars
}

/// Whether `text` begins with `prefix`.
pub fn starts_with(text: &Vec<char>, prefix: &Vec<char>) -> (found: bool)
    ensures
        found == begins_with(text@, prefix@),
{
    if prefix.len() > text.len() {
        return false;
    }
    let mut i: usize = 0;
    while i < prefix.len()
        invariant
            i <= prefix.len() <= text.len(),
            forall|k: int| 0 <= k < i ==> text@[k] == prefix@[k],
        decreases prefix.len() - i,
    {
        if text[i] != prefix[i] {
            assert(text@.take(prefix.len() as int)[i as int] != prefix@[i as int]);
            return false;
        }
        i += 1;
    }
    assert(text@.take(prefix.len() as int) =~= prefix@);
    true
}

/// Whether the two texts are the same.
pub fn same_text(left: &Vec<char>, right: &Vec<char>) -> (same: bool)
    ensures
        same == (left@ == right@),
{
    if left.len() != right.len() {
        return false;
    }
    assert(left@.take(right.len() as int) =~= left@);
    starts_with(left, right)
}

/// Whether `c` stands in `text` at `start` or after it.
pub fn occurs_from(text: &Vec<char>, start: usize, c: char) -> (found: bool)
    requires
        start <= text.len(),
    ensures
        found == text@.skip(start as int).contains(c),
{
    let mut i: usize = start;
    while i < text.len()
        invariant
            start <= i <= text.len(),
            forall|k: int| start <= k < i ==> text@[k] != c,
        decreases text.len() - i,
    {
        if text[i] == c {
            assert(text@.skip(start as int)[i - start] == c);
            return true;
        }
        i += 1;
    }
    assert(!text@.skip(start as int).contains(c)) by {
        if text@.skip(start as int).contains(c) {
            let k = choose|k: int|
                0 <= k < text@.skip(start as int).len() && text@.skip(start as int)[k] == c;
            assert(text@[start + k] == c);
        }
    }
    false
}

} // verus!
