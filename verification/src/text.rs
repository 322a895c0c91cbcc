//! Comparing texts character by character.

use vstd::prelude::*;
use vstd::std_specs::iter::IteratorSpec;

verus! {

/// Whether `text` begins with `prefix`, character for character.
pub fn starts_with(text: &str, prefix: &str) -> (yes: bool)
    ensures
        yes == prefix@.is_prefix_of(text@),
{
    broadcast use vstd::string::group_string_axioms;

    let mut rest = text.chars();
    let mut wanted = prefix.chars();
    let ghost mut matched: int = 0;
    loop
        invariant
            rest.obeys_prophetic_iter_laws(),
            wanted.obeys_prophetic_iter_laws(),
            wanted.decrease() is Some,
            0 <= matched <= prefix@.len(),
            matched <= text@.len(),
            wanted.remaining() == prefix@.skip(matched),
            rest.remaining() == text@.skip(matched),
            prefix@.take(matched) == text@.take(matched),
        decreases wanted.decrease()->0,
    {
        match wanted.next() {
            None => {
                return true;
            },
            Some(w) => match rest.next() {
                None => {
                    return false;
                },
                Some(c) => {
                    if c != w {
                        return false;
                    }
                    proof {
                        matched = matched + 1;
                    }
                },
            },
        }
    }
}

/// Whether `left` and `right` hold the same characters.
pub fn same_text(left: &str, right: &str) -> (same: bool)
    ensures
        same == (left@ == right@),
{
    let same = starts_with(left, right) && starts_with(right, left);
    assert(same ==> left@ =~= right@);
    same
}

} // verus!
