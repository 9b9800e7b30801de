//! An in-memory mapping from field names to textual values, the first of the
//! two construction inputs for a record. It is modelled as a sequence of
//! key/value pairs of character sequences; a later binding for a key shadows
//! an earlier one, as insertion into a map would.

use vstd::prelude::*;
use crate::text::str_eq;

verus! {

/// Look a key up in an association sequence; the last binding wins.
pub open spec fn assoc_get(s: Seq<(Seq<char>, Seq<char>)>, key: Seq<char>) -> Option<Seq<char>>
    decreases s.len(),
{
    if s.len() == 0 {
        None
    } else if s.last().0 == key {
        Some(s.last().1)
    } else {
        assoc_get(s.drop_last(), key)
    }
}

/// A mapping from field name to field value, supplied by a caller as the
/// in-memory construction input for a record.
pub struct FieldMap {
    entries: Vec<(String, String)>,
}

impl View for FieldMap {
    type V = Seq<(Seq<char>, Seq<char>)>;

    closed spec fn view(&self) -> Seq<(Seq<char>, Seq<char>)> {
        self.entries@.map_values(|p: (String, String)| (p.0@, p.1@))
    }
}

impl FieldMap {
    /// The value bound to `key`, if any.
    pub open spec fn spec_get(self, key: Seq<char>) -> Option<Seq<char>> {
        assoc_get(self@, key)
    }

    /// An empty mapping: no key is bound.
    pub fn new() -> (m: FieldMap)
        ensures
            m@ == Seq::<(Seq<char>, Seq<char>)>::empty(),
            forall|k: Seq<char>| m.spec_get(k) == None::<Seq<char>>,
    {
        let m = FieldMap { entries: Vec::new() };
        proof {
            assert(m@ =~= Seq::<(Seq<char>, Seq<char>)>::empty());
        }
        m
    }

    /// Bind `key` to `value`, shadowing any earlier binding of `key` and
    /// leaving every other key unchanged.
    pub fn insert(&mut self, key: &str, value: &str)
        ensures
            final(self)@ == old(self)@.push((key@, value@)),
            final(self).spec_get(key@) == Some(value@),
            forall|k: Seq<char>| k != key@ ==> final(self).spec_get(k) == old(self).spec_get(k),
    {
        let ghost prior = self@;
        self.entries.push((key.to_owned(), value.to_owned()));
        proof {
            assert(self@ =~= prior.push((key@, value@)));
            assert(self@.drop_last() =~= prior);
        }
    }

    /// The value bound to `key`, exactly as `spec_get` describes it.
    pub fn get(&self, key: &str) -> (r: Option<&String>)
        ensures
            match r {
                Some(v) => self.spec_get(key@) == Some(v@),
                None => self.spec_get(key@) == None::<Seq<char>>,
            },
    {
        let n = self.entries.len();
        let mut i: usize = n;
        proof {
            assert(self@.take(n as int) =~= self@);
        }
        while i > 0
            invariant
                n == self.entries.len(),
                i <= n,
                assoc_get(self@, key@) == assoc_get(self@.take(i as int), key@),
            decreases i,
        {
            i -= 1;
            proof {
                assert(self@.take(i + 1).last() == self@[i as int]);
                assert(self@.take(i + 1).drop_last() =~= self@.take(i as int));
            }
            if str_eq(self.entries[i].0.as_str(), key) {
                return Some(&self.entries[i].1);
            }
        }
        proof {
            assert(self@.take(0) =~= Seq::<(Seq<char>, Seq<char>)>::empty());
        }
        None
    }
}

} // verus!
