//! Lookup in key/value pair lists by first occurrence, shared by the
//! record models (instance parameter maps, directory entry attributes).

use vstd::prelude::*;

verus! {

/// The value under the first occurrence of a key, if any.
pub open spec fn first_entry<T>(pairs: Seq<(String, T)>, k: Seq<char>) -> Option<T>
    decreases pairs.len(),
{
    if pairs.len() == 0 {
        None
    } else if pairs[0].0@ == k {
        Some(pairs[0].1)
    } else {
        first_entry(pairs.drop_first(), k)
    }
}

/// Find the value under the first occurrence of a key.
pub fn find_first<'a, T>(pairs: &'a Vec<(String, T)>, key: &str) -> (r: Option<&'a T>)
    ensures
        match r {
            Some(v) => first_entry(pairs@, key@) == Some(*v),
            None => first_entry(pairs@, key@) is None,
        },
{
    let mut i: usize = 0;
    proof {
        assert(pairs@.skip(0) =~= pairs@);
    }
    while i < pairs.len()
        invariant
            i <= pairs@.len(),
            first_entry(pairs@, key@) == first_entry(pairs@.skip(i as int), key@),
        decreases pairs@.len() - i,
    {
        proof {
            assert(pairs@.skip(i as int)[0] == pairs@[i as int]);
            assert(pairs@.skip(i as int).drop_first() =~= pairs@.skip(i + 1));
        }
        if crate::text::str_eq(pairs[i].0.as_str(), key) {
            return Some(&pairs[i].1);
        }
        i = i + 1;
    }
    proof {
        assert(pairs@.skip(pairs@.len() as int).len() == 0);
    }
    None
}

} // verus!
