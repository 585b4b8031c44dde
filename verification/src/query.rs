//! Convenience builder for HTTP query parameters.
//!
//! A lightweight helper for constructing URL query pairs from optional
//! values, reducing boilerplate in the per-service client modules.

use vstd::prelude::*;

verus! {

/// The views of a list of key/value pairs.
pub open spec fn pair_views(pairs: Seq<(&'static str, String)>) -> Seq<(Seq<char>, Seq<char>)> {
    pairs.map_values(|p: (&'static str, String)| (p.0@, p.1@))
}

/// One optional pair: a singleton when the value is present, else nothing.
pub open spec fn opt_pair(key: Seq<char>, value: Option<Seq<char>>) -> Seq<(Seq<char>, Seq<char>)> {
    match value {
        Some(v) => seq![(key, v)],
        None => Seq::empty(),
    }
}

/// Builder for assembling query parameter pairs.
#[derive(Debug)]
pub struct QueryParams {
    /// The pairs collected so far, in insertion order.
    pub pairs: Vec<(&'static str, String)>,
}

impl QueryParams {
    /// Create a new, empty builder.
    pub fn new() -> (r: Self)
        ensures
            r.pairs@.len() == 0,
    {
        Self { pairs: Vec::new() }
    }

    /// Append a key/value pair when the value is present.
    pub fn push_opt(&mut self, key: &'static str, value: Option<String>)
        ensures
            pair_views(final(self).pairs@) == pair_views(old(self).pairs@) + opt_pair(
                key@,
                match value {
                    Some(v) => Some(v@),
                    None => None,
                },
            ),
    {
        match value {
            Some(v) => {
                let ghost before = self.pairs@;
                self.pairs.push((key, v));
                proof {
                    assert(pair_views(self.pairs@) =~= pair_views(before) + opt_pair(
                        key@,
                        Some(self.pairs@.last().1@),
                    ));
                }
            },
            None => {
                proof {
                    assert(pair_views(self.pairs@) =~= pair_views(self.pairs@)
                        + Seq::<(Seq<char>, Seq<char>)>::empty());
                }
            },
        }
    }

    /// Append a required key/value pair.
    pub fn push(&mut self, key: &'static str, value: String)
        ensures
            pair_views(final(self).pairs@) == pair_views(old(self).pairs@) + opt_pair(
                key@,
                Some(value@),
            ),
    {
        self.push_opt(key, Some(value));
    }

    /// Append using a mapping function when the value is present.
    pub fn push_opt_with<T, F: Fn(T) -> String>(&mut self, key: &'static str, value: Option<T>, map: F)
        requires
            value matches Some(t) ==> map.requires((t,)),
        ensures
            match value {
                Some(t) => {
                    &&& final(self).pairs@.len() == old(self).pairs@.len() + 1
                    &&& final(self).pairs@.last().0@ == key@
                    &&& call_ensures(map, (t,), final(self).pairs@.last().1)
                    &&& forall|j: int|
                        0 <= j < old(self).pairs@.len() ==> final(self).pairs@[j] == old(
                            self,
                        ).pairs@[j]
                },
                None => final(self).pairs@ == old(self).pairs@,
            },
    {
        match value {
            Some(t) => {
                let mapped = map(t);
                self.pairs.push((key, mapped));
            },
            None => (),
        }
    }

    /// Return the collected key/value pairs.
    pub fn into_pairs(self) -> (r: Vec<(&'static str, String)>)
        ensures
            r == self.pairs,
    {
        self.pairs
    }

    /// Returns true if no parameters have been added.
    pub fn is_empty(&self) -> (r: bool)
        ensures
            r == (self.pairs@.len() == 0),
    {
        self.pairs.len() == 0
    }
}

impl Default for QueryParams {
    /// An empty builder.
    fn default() -> (r: Self)
        ensures
            r.pairs@.len() == 0,
    {
        Self::new()
    }
}

} // verus!
