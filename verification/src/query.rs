//! The parameters of a request's query string, as a mapping from names to
//! values.
//!
//! Decoding the query string is the HTTP server's business. What it decoded
//! arrives here as a list of pairs, or pair by pair, and a name that occurs
//! more than once keeps its last value.

use vstd::hash_map::StringHashMap;
use vstd::prelude::*;

verus! {

/// Decoded query parameters. The view is the mapping from each name to its
/// value, both as sequences of characters.
pub struct QueryParams {
    values: StringHashMap<String>,
}

impl View for QueryParams {
    type V = Map<Seq<char>, Seq<char>>;

    closed spec fn view(&self) -> Map<Seq<char>, Seq<char>> {
        Map::new(|name: Seq<char>| self.values@.contains_key(name), |name: Seq<char>| self.values@[name]@)
    }
}

/// The mapping that a list of pairs stands for: each pair sets its name to
/// its value, in order, so that a later pair overrides an earlier one.
pub open spec fn params_of(pairs: Seq<(String, String)>) -> Map<Seq<char>, Seq<char>>
    decreases pairs.len(),
{
    if pairs.len() == 0 {
        Map::empty()
    } else {
        params_of(pairs.drop_last()).insert(pairs.last().0@, pairs.last().1@)
    }
}

impl QueryParams {
    /// No parameters.
    pub fn new() -> (params: QueryParams)
        ensures
            params@ == Map::<Seq<char>, Seq<char>>::empty(),
    {
        let params = QueryParams { values: StringHashMap::new() };
        assert(params@ =~= Map::<Seq<char>, Seq<char>>::empty());
        params
    }

    /// Sets `name` to `value`, replacing the value that `name` had.
    pub fn insert(&mut self, name: String, value: String)
        ensures
            final(self)@ == old(self)@.insert(name@, value@),
    {
        self.values.insert(name, value);
        assert(self@ =~= old(self)@.insert(name@, value@));
    }

    /// The parameters that a list of decoded pairs stands for.
    pub fn from_pairs(pairs: &Vec<(String, String)>) -> (params: QueryParams)
        ensures
            params@ == params_of(pairs@),
    {
        let mut params = QueryParams::new();
        let mut i: usize = 0;
        while i < pairs.len()
            invariant
                i <= pairs.len(),
                params@ == params_of(pairs@.take(i as int)),
            decreases pairs.len() - i,
        {
            let name = pairs[i].0.clone();
            let value = pairs[i].1.clone();
            params.insert(name, value);
            proof {
                let next = pairs@.take(i + 1);
                assert(next.drop_last() =~= pairs@.take(i as int));
                assert(next.last() == pairs@[i as int]);
            }
            i += 1;
        }
        assert(pairs@.take(i as int) =~= pairs@);
        params
    }

    /// Whether `name` has a value.
    pub fn contains(&self, name: &str) -> (found: bool)
        ensures
            found == self@.contains_key(name@),
    {
        self.values.contains_key(name)
    }

    /// The value of `name`, if it has one.
    pub fn get(&self, name: &str) -> (value: Option<&String>)
        ensures
            match value {
                Some(text) => self@.contains_key(name@) && text@ == self@[name@],
                None => !self@.contains_key(name@),
            },
    {
        self.values.get(name)
    }
}

} // verus!
