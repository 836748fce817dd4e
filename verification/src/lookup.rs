//! First-match lookup over association lists of (identifier, value) string
//! pairs, shared by the relationship table, the image table, and the note
//! definition tables.

use vstd::prelude::*;

verus! {

/// String equality, as equality of the character sequences.
pub fn string_eq(a: &String, b: &String) -> (r: bool)
    ensures
        r == (a@ == b@),
{
    a.eq(b)
}

/// The value of the first pair whose identifier reads as `id`, if any.
pub open spec fn assoc_lookup(pairs: Seq<(String, String)>, id: Seq<char>) -> Option<String>
    decreases pairs.len(),
{
    if pairs.len() == 0 {
        None
    } else if pairs[0].0@ == id {
        Some(pairs[0].1)
    } else {
        assoc_lookup(pairs.drop_first(), id)
    }
}

/// Looks `id` up in `pairs`, returning a copy of the first matching value.
pub fn assoc_get(pairs: &Vec<(String, String)>, id: &String) -> (r: Option<String>)
    ensures
        r == assoc_lookup(pairs@, id@),
{
    let n = pairs.len();
    let mut i: usize = 0;
    proof {
        assert(pairs@.skip(0) =~= pairs@);
    }
    while i < n
        invariant
            n == pairs@.len(),
            i <= n,
            assoc_lookup(pairs@, id@) == assoc_lookup(pairs@.skip(i as int), id@),
        decreases n - i,
    {
        proof {
            assert(pairs@.skip(i as int)[0] == pairs@[i as int]);
            assert(pairs@.skip(i as int).drop_first() =~= pairs@.skip(i as int + 1));
        }
        if string_eq(&pairs[i].0, id) {
            return Some(pairs[i].1.clone());
        }
        i = i + 1;
    }
    proof {
        assert(pairs@.skip(n as int) =~= Seq::<(String, String)>::empty());
    }
    None
}

} // verus!
