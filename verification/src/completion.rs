//! Completion of the typed line against a vocabulary of command words.

use crate::text::starts_with;
use vstd::prelude::*;

verus! {

/// The words of a vocabulary as plain text.
pub open spec fn words(vocabulary: Seq<&str>) -> Seq<Seq<char>> {
    vocabulary.map_values(|w: &str| w@)
}

/// The words of `vocabulary` that begin with `buffer`, in the order of the
/// vocabulary. The match is case-sensitive and against the whole line.
pub open spec fn matching(vocabulary: Seq<Seq<char>>, buffer: Seq<char>) -> Seq<Seq<char>> {
    vocabulary.filter(|w: Seq<char>| buffer.is_prefix_of(w))
}

/// The commands that the typed `input` may be completed to.
pub fn suggestions<'a>(commands: &[&'a str], input: &str) -> (found: Vec<&'a str>)
    ensures
        words(found@) == matching(words(commands@), input@),
{
    let ghost all = words(commands@);
    let ghost begins = |w: Seq<char>| input@.is_prefix_of(w);
    let mut found: Vec<&'a str> = Vec::new();
    let mut i: usize = 0;
    proof {
        reveal(Seq::filter);
        assert(all.take(0).filter(begins) == Seq::<Seq<char>>::empty());
    }
    while i < commands.len()
        invariant
            i <= commands.len(),
            all == words(commands@),
            begins == |w: Seq<char>| input@.is_prefix_of(w),
            words(found@) == all.take(i as int).filter(begins),
        decreases commands.len() - i,
    {
        let command = commands[i];
        proof {
            all.take(i as int).lemma_filter_push(command@, begins);
            assert(all.take(i + 1) == all.take(i as int).push(command@));
        }
        if starts_with(command, input) {
            proof {
                assert(words(found@.push(command)) == words(found@).push(command@));
            }
            found.push(command);
        }
        i += 1;
    }
    proof {
        assert(all.take(i as int) == all);
    }
    found
}

} // verus!
