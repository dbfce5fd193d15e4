//! An append-only keyed table: each write is a new entry, and the latest
//! entry for a key decides its value.

use vstd::prelude::*;

verus! {

/// A key of up to two identifiers and a number.
#[derive(Clone, Debug)]
pub struct StoreKey {
    pub a: String,
    pub b: String,
    pub n: u64,
}

impl StoreKey {
    pub open spec fn view_key(self) -> (Seq<char>, Seq<char>, u64) {
        (self.a@, self.b@, self.n)
    }

    pub fn same(&self, other: &StoreKey) -> (r: bool)
        ensures
            r == (self.view_key() == other.view_key()),
    {
        self.n == other.n && self.a == other.a && self.b == other.b
    }
}

/// Entries in order of writing; `None` records a removal.
pub struct Table<V> {
    pub entries: Vec<(StoreKey, Option<V>)>,
}

/// The map that a sequence of entries leaves behind.
pub open spec fn entries_model<V>(es: Seq<(StoreKey, Option<V>)>) -> Map<(Seq<char>, Seq<char>, u64), V>
    decreases es.len(),
{
    if es.len() == 0 {
        Map::empty()
    } else {
        let last = es[es.len() - 1];
        let rest = entries_model(es.drop_last());
        match last.1 {
            Some(v) => rest.insert(last.0.view_key(), v),
            None => rest.remove(last.0.view_key()),
        }
    }
}

impl<V> Table<V> {
    pub open spec fn model(&self) -> Map<(Seq<char>, Seq<char>, u64), V> {
        entries_model(self.entries@)
    }

    pub fn new() -> (r: Table<V>)
        ensures
            r.model() == Map::<(Seq<char>, Seq<char>, u64), V>::empty(),
    {
        Table { entries: Vec::new() }
    }

    /// The value of `key`, if any.
    pub fn get(&self, key: &StoreKey) -> (r: Option<&V>)
        ensures
            r is Some <==> self.model().contains_key(key.view_key()),
            r is Some ==> *r->Some_0 == self.model()[key.view_key()],
    {
        let mut i: usize = self.entries.len();
        assert(self.entries@.subrange(0, i as int) =~= self.entries@);
        while i > 0
            invariant
                i <= self.entries@.len(),
                entries_model(self.entries@.subrange(0, i as int)).contains_key(key.view_key())
                    == self.model().contains_key(key.view_key()),
                entries_model(self.entries@.subrange(0, i as int)).contains_key(key.view_key())
                    ==> entries_model(self.entries@.subrange(0, i as int))[key.view_key()]
                    == self.model()[key.view_key()],
            decreases i,
        {
            let ghost pre = self.entries@.subrange(0, i as int);
            assert(pre.drop_last() =~= self.entries@.subrange(0, i - 1));
            let entry = &self.entries[i - 1];
            if entry.0.same(key) {
                return match &entry.1 {
                    Some(v) => Some(v),
                    None => None,
                };
            }
            i = i - 1;
        }
        assert(self.entries@.subrange(0, 0) =~= Seq::<(StoreKey, Option<V>)>::empty());
        None
    }

    /// Sets `key` to `value`.
    pub fn set(&mut self, key: StoreKey, value: V)
        ensures
            final(self).model() == old(self).model().insert(key.view_key(), value),
    {
        let ghost k = key.view_key();
        self.entries.push((key, Some(value)));
        assert(self.entries@.drop_last() =~= old(self).entries@);
    }

    /// Removes `key`.
    pub fn remove(&mut self, key: StoreKey)
        ensures
            final(self).model() == old(self).model().remove(key.view_key()),
    {
        self.entries.push((key, None));
        assert(self.entries@.drop_last() =~= old(self).entries@);
    }
}

} // verus!
