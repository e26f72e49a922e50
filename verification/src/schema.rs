//! The catalog: the read-only map from symbolic identifiers to the stable
//! numeric references of the underlying store.

use vstd::prelude::*;

verus! {

/// A snapshot of the catalog, immutable for the duration of one
/// algebrization pass. Lookup scans the entries in order and returns the
/// first entry whose name matches.
pub struct Schema {
    /// Symbolic name paired with the entity reference it denotes.
    pub ident_map: Vec<(String, i64)>,
}

impl Schema {
    /// The reference that `entries` assigns to `name`: the value of the
    /// first entry whose name spells `name`, if any.
    pub open spec fn lookup_in(entries: Seq<(String, i64)>, name: Seq<char>) -> Option<i64>
        decreases entries.len(),
    {
        if entries.len() == 0 {
            None
        } else if entries[0].0@ == name {
            Some(entries[0].1)
        } else {
            Self::lookup_in(entries.drop_first(), name)
        }
    }

    /// The reference this catalog assigns to `name`, if any.
    pub open spec fn entid_spec(self, name: Seq<char>) -> Option<i64> {
        Self::lookup_in(self.ident_map@, name)
    }

    /// A catalog with no entries: every lookup misses.
    pub fn new() -> (r: Schema)
        ensures
            r.ident_map@ == Seq::<(String, i64)>::empty(),
            forall|name: Seq<char>| r.entid_spec(name) is None,
    {
        Schema { ident_map: Vec::new() }
    }

    /// Add an entry mapping `name` to `entid`. The new entry is shadowed by
    /// any earlier entry with the same name.
    pub fn add_ident(&mut self, name: String, entid: i64)
        ensures
            final(self).ident_map@ == old(self).ident_map@.push((name, entid)),
    {
        self.ident_map.push((name, entid));
    }

    /// Look `name` up in the catalog: side-effect-free and idempotent, safe
    /// to call repeatedly within one pass.
    pub fn get_entid(&self, name: &String) -> (r: Option<i64>)
        ensures
            r == self.entid_spec(name@),
    {
        let n = self.ident_map.len();
        let mut i: usize = 0;
        proof {
            assert(self.ident_map@.skip(0) =~= self.ident_map@);
        }
        while i < n
            invariant
                i <= n,
                n == self.ident_map@.len(),
                Self::lookup_in(self.ident_map@, name@) == Self::lookup_in(
                    self.ident_map@.skip(i as int),
                    name@,
                ),
            decreases n - i,
        {
            proof {
                assert(self.ident_map@.skip(i as int)[0] == self.ident_map@[i as int]);
                assert(self.ident_map@.skip(i as int).drop_first() =~= self.ident_map@.skip(
                    i as int + 1,
                ));
            }
            if self.ident_map[i].0 == *name {
                return Some(self.ident_map[i].1);
            }
            i = i + 1;
        }
        proof {
            assert(self.ident_map@.skip(n as int) =~= Seq::<(String, i64)>::empty());
        }
        None
    }
}

} // verus!
