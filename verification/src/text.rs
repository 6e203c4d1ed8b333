//! Text helpers over `str` and `String`, stated over their character
//! sequences.

use vstd::prelude::*;
use vstd::std_specs::iter::IteratorSpec;
use vstd::string::*;

verus! {

/// `String::push` of the standard library: appends the character to the end
/// of the string.
pub assume_specification[ String::push ](s: &mut String, c: char)
    ensures
        final(s)@ == old(s)@.push(c),
;

/// `String::pop` of the standard library: removes the last character and
/// returns it, or returns `None` and leaves the string as it is when the
/// string is empty.
pub assume_specification[ String::pop ](s: &mut String) -> (c: Option<char>)
    ensures
        old(s)@.len() == 0 ==> c is None && final(s)@ == old(s)@,
        old(s)@.len() > 0 ==> c == Some(old(s)@.last()) && final(s)@ == old(s)@.drop_last(),
;

/// Whether `text` begins with `prefix`, character by character.
pub fn starts_with(text: &str, prefix: &str) -> (found: bool)
    ensures
        found == prefix@.is_prefix_of(text@),
{
    broadcast use group_string_axioms;

    let mut have = text.chars();
    let mut want = prefix.chars();
    let ghost mut seen: int = 0;
    loop
        invariant
            0 <= seen <= prefix@.len(),
            seen <= text@.len(),
            have.remaining() == text@.skip(seen),
            want.remaining() == prefix@.skip(seen),
            text@.take(seen) == prefix@.take(seen),
            have.obeys_prophetic_iter_laws(),
            want.obeys_prophetic_iter_laws(),
        decreases prefix@.len() - seen,
    {
        match want.next() {
            None => {
                assert(prefix@.take(seen) == prefix@);
                return true;
            },
            Some(w) => {
                match have.next() {
                    None => {
                        return false;
                    },
                    Some(h) => {
                        if h != w {
                            return false;
                        }
                        proof {
                            assert(text@.take(seen + 1) == text@.take(seen).push(text@[seen]));
                            assert(prefix@.take(seen + 1) == prefix@.take(seen).push(prefix@[seen]));
                            assert(text@.skip(seen).drop_first() == text@.skip(seen + 1));
                            assert(prefix@.skip(seen).drop_first() == prefix@.skip(seen + 1));
                            seen = seen + 1;
                        }
                    },
                }
            },
        }
    }
}

/// Whether two texts are the same, character by character.
pub fn same_text(a: &str, b: &str) -> (same: bool)
    ensures
        same == (a@ == b@),
{
    let same = starts_with(a, b) && starts_with(b, a);
    proof {
        if same {
            assert(a@ =~= b@);
        }
    }
    same
}

} // verus!
