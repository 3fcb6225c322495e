//! The runtime-tunable key/value dictionary nodes read once per frame.
//! Keys are strings; values are small tagged data. A key that is absent
//! resolves to the reading node's own default and is never an error.

use vstd::prelude::*;

verus! {

/// A runtime-tunable value: a switch, a fixed-point number (1/65536
/// units), or an enumeration tag.
#[derive(Debug)]
pub enum Value {
    Bool(bool),
    Number(i64),
    Text(String),
}

impl Value {
    /// The boolean carried by this value, if it is a switch.
    pub fn as_bool(&self) -> (r: Option<bool>)
        ensures
            r == (match *self {
                Value::Bool(b) => Some(b),
                _ => None::<bool>,
            }),
    {
        match self {
            Value::Bool(b) => Some(*b),
            _ => None,
        }
    }
}

/// First entry in `entries` whose key reads `key`, if any.
pub open spec fn lookup(entries: Seq<(String, Value)>, key: Seq<char>) -> Option<Value>
    decreases entries.len(),
{
    if entries.len() == 0 {
        None
    } else if entries[0].0@ == key {
        Some(entries[0].1)
    } else {
        lookup(entries.skip(1), key)
    }
}

/// Mapping from string keys to tagged values, filled by the configuration
/// or UI layer and read by nodes each frame. A later `set` of a key
/// shadows any earlier entry for it.
#[derive(Debug)]
pub struct ValueMap {
    entries: Vec<(String, Value)>,
}

impl ValueMap {
    /// What this map answers for `key`.
    pub closed spec fn spec_get(&self, key: Seq<char>) -> Option<Value> {
        lookup(self.entries@, key)
    }

    /// An empty map: every key is absent.
    pub fn new() -> (r: ValueMap)
        ensures
            forall|key: Seq<char>| r.spec_get(key) is None,
    {
        ValueMap { entries: Vec::new() }
    }

    /// Binds `key` to `value`; every other key keeps its answer.
    pub fn set(&mut self, key: &str, value: Value)
        ensures
            final(self).spec_get(key@) == Some(value),
            forall|other: Seq<char>|
                other != key@ ==> final(self).spec_get(other) == old(self).spec_get(other),
    {
        let owned: String = key.to_owned();
        self.entries.insert(0, (owned, value));
        proof {
            assert(self.entries@.skip(1) =~= old(self).entries@);
        }
    }

    /// The value bound to `key`, or `None` if the key is absent.
    pub fn get(&self, key: &str) -> (r: Option<&Value>)
        ensures
            r matches Some(v) ==> self.spec_get(key@) == Some(*v),
            r is None ==> self.spec_get(key@) is None,
    {
        let owned: String = key.to_owned();
        let mut i: usize = 0;
        proof {
            assert(self.entries@.skip(0) =~= self.entries@);
        }
        while i < self.entries.len()
            invariant
                i <= self.entries.len(),
                owned@ == key@,
                lookup(self.entries@, key@) == lookup(self.entries@.skip(i as int), key@),
            decreases self.entries.len() - i,
        {
            let ghost rest = self.entries@.skip(i as int);
            proof {
                assert(rest.len() == self.entries@.len() - i);
                assert(rest[0] == self.entries@[i as int]);
            }
            let entry = &self.entries[i];
            if entry.0 == owned {
                proof {
                    assert(lookup(rest, key@) == Some(rest[0].1));
                }
                return Some(&self.entries[i].1);
            }
            proof {
                assert(lookup(rest, key@) == lookup(rest.skip(1), key@));
                assert(rest.skip(1) =~= self.entries@.skip(i + 1));
            }
            i = i + 1;
        }
        proof {
            assert(self.entries@.skip(i as int).len() == 0);
        }
        None
    }
}

} // verus!
