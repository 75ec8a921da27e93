//! The component's key/value state.

use vstd::prelude::*;
use vstd::hash_map::StringHashMap;

verus! {

/// What a read of `key` observes in a store with contents `m`: the mapped
/// value, or the empty string when the key is absent (absence is not a
/// failure).
pub open spec fn stored_value(m: Map<Seq<char>, Seq<char>>, key: Seq<char>) -> Seq<char> {
    if m.contains_key(key) {
        m[key]
    } else {
        Seq::<char>::empty()
    }
}

/// A mapping from string keys to string values, owned by one component
/// instance and never shared: only the dispatcher's insert operation
/// mutates it, only its read operation reads it.
pub struct Portal {
    kvs: StringHashMap<String>,
}

impl View for Portal {
    type V = Map<Seq<char>, Seq<char>>;

    closed spec fn view(&self) -> Map<Seq<char>, Seq<char>> {
        self.kvs@.map_values(|v: String| v@)
    }
}

impl Portal {
    /// Creates a store with no entries.
    pub fn new() -> (portal: Self)
        ensures
            portal@ == Map::<Seq<char>, Seq<char>>::empty(),
    {
        let portal = Portal { kvs: StringHashMap::new() };
        proof {
            assert(portal@ =~= Map::<Seq<char>, Seq<char>>::empty());
        }
        portal
    }

    /// Removes all entries, reinitializing the store for a recycled
    /// component instance.
    pub fn clear(&mut self)
        ensures
            final(self)@ == Map::<Seq<char>, Seq<char>>::empty(),
    {
        self.kvs.clear();
        proof {
            assert(self@ =~= Map::<Seq<char>, Seq<char>>::empty());
        }
    }

    /// Unconditionally maps `key` to `value`, overwriting any value the
    /// key had before.
    pub fn put(&mut self, key: String, value: String)
        ensures
            final(self)@ == old(self)@.insert(key@, value@),
    {
        let ghost key_view = key@;
        let ghost value_view = value@;
        self.kvs.insert(key, value);
        proof {
            assert(self@ =~= old(self)@.insert(key_view, value_view));
        }
    }

    /// Returns the value stored for `key`, or the empty string if the key
    /// is absent.
    pub fn get(&self, key: &str) -> (value: String)
        ensures
            value@ == stored_value(self@, key@),
    {
        match self.kvs.get(key) {
            Some(v) => v.clone(),
            None => String::new(),
        }
    }
}

} // verus!
