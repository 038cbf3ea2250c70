//! The map data model seen by the overlay engine: free-form key/value tag
//! dictionaries and ways (ordered node-id sequences with optional tags).
//!
//! The data source owns this data; the engine only reads it. A tag
//! dictionary is modelled by the lookup function [`dict_get`] over its
//! sequence of pairs: insertion always prepends, so the first match is the
//! current binding and older bindings are shadowed.

use vstd::prelude::*;

verus! {

/// First-match lookup of `key` in a sequence of key/value pairs.
pub open spec fn dict_get(s: Seq<(Seq<char>, Seq<char>)>, key: Seq<char>) -> Option<Seq<char>>
    decreases s.len(),
{
    if s.len() == 0 {
        None
    } else if s[0].0 == key {
        Some(s[0].1)
    } else {
        dict_get(s.drop_first(), key)
    }
}

/// String equality by view, via owned copies (the standard library's
/// `String` comparison carries a specification; `&str` comparison does not).
pub fn str_eq(a: &str, b: &str) -> (r: bool)
    ensures
        r == (a@ == b@),
{
    let x: String = a.to_owned();
    let y: String = b.to_owned();
    x == y
}

/// An unordered mapping from string key to string value, owned by a way.
pub struct TagDict {
    pairs: Vec<(String, String)>,
}

impl View for TagDict {
    type V = Seq<(Seq<char>, Seq<char>)>;

    closed spec fn view(&self) -> Seq<(Seq<char>, Seq<char>)> {
        self.pairs@.map(|i: int, p: (String, String)| (p.0@, p.1@))
    }
}

impl TagDict {
    pub fn new() -> (d: TagDict)
        ensures
            d@.len() == 0,
    {
        TagDict { pairs: Vec::new() }
    }

    /// Bind `key` to `value`, shadowing any earlier binding.
    pub fn insert(&mut self, key: String, value: String)
        ensures
            dict_get(final(self)@, key@) == Some(value@),
            forall|k: Seq<char>| k != key@ ==> dict_get(final(self)@, k) == dict_get(
                old(self)@,
                k,
            ),
            final(self)@.len() == old(self)@.len() + 1,
    {
        let ghost before = self@;
        self.pairs.insert(0, (key, value));
        proof {
            assert(self@.drop_first() =~= before);
            assert forall|k: Seq<char>| k != self@[0].0 implies dict_get(self@, k) == dict_get(
                before,
                k,
            ) by {
                assert(dict_get(self@, k) == dict_get(self@.drop_first(), k));
            }
        }
    }

    /// The pairs as stored, newest binding first; shadowed bindings follow
    /// their replacements.
    pub fn entries(&self) -> (r: &Vec<(String, String)>)
        ensures
            r@.len() == self@.len(),
            forall|i: int|
                0 <= i < r@.len() ==> (#[trigger] r@[i].0)@ == self@[i].0 && r@[i].1@
                    == self@[i].1,
    {
        &self.pairs
    }

    /// Look the key up; `None` when no pair binds it.
    pub fn get<'a>(&'a self, key: &str) -> (r: Option<&'a String>)
        ensures
            match r {
                Some(v) => dict_get(self@, key@) == Some(v@),
                None => dict_get(self@, key@) is None,
            },
    {
        let mut i: usize = 0;
        proof {
            assert(self@.skip(0) =~= self@);
        }
        while i < self.pairs.len()
            invariant
                i <= self.pairs.len(),
                dict_get(self@, key@) == dict_get(self@.skip(i as int), key@),
            decreases self.pairs.len() - i,
        {
            proof {
                assert(self@.skip(i as int)[0] == self@[i as int]);
                assert(self@.skip(i as int).drop_first() =~= self@.skip(i as int + 1));
            }
            if str_eq(self.pairs[i].0.as_str(), key) {
                return Some(&self.pairs[i].1);
            }
            i = i + 1;
        }
        None
    }
}

/// Tag lookup through a way's optional dictionary: a way without tags binds
/// nothing.
pub open spec fn way_tag(tags: Option<TagDict>, key: Seq<char>) -> Option<Seq<char>> {
    match tags {
        Option::None => None,
        Option::Some(d) => dict_get(d@, key),
    }
}

/// A linear map feature: identity, ordered node references, optional tags.
/// Immutable for the lifetime of a session.
pub struct Way {
    pub id: u64,
    pub nodes: Vec<u64>,
    pub tags: Option<TagDict>,
}

} // verus!
