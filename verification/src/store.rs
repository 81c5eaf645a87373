//! Typed singleton storage: a map from a type token to at most one value.
//!
//! Every storable type is identified by a caller-chosen `u64` token, and the
//! store holds at most one value per token.  The store is viewed as a
//! `Map<u64, V>`; all operations are specified against that map.

use vstd::prelude::*;

verus! {

/// Interpretation of parallel key and value lists as a finite map; later
/// entries win, though a well-formed store never holds a key twice.
pub open spec fn keyed_map<V>(keys: Seq<u64>, vals: Seq<V>) -> Map<u64, V>
    decreases keys.len(),
{
    if keys.len() == 0 || keys.len() != vals.len() {
        Map::empty()
    } else {
        keyed_map(keys.drop_last(), vals.drop_last()).insert(keys.last(), vals.last())
    }
}

/// No key occurs twice in the list.
pub open spec fn distinct_key_seq(keys: Seq<u64>) -> bool {
    forall|i: int, j: int| 0 <= i < j < keys.len() ==> keys[i] != keys[j]
}

/// A key is in the map exactly when the key list carries it.
pub proof fn lemma_keyed_contains<V>(keys: Seq<u64>, vals: Seq<V>, key: u64)
    requires
        keys.len() == vals.len(),
    ensures
        keyed_map(keys, vals).contains_key(key) <==> keys.contains(key),
    decreases keys.len(),
{
    if keys.len() > 0 {
        lemma_keyed_contains(keys.drop_last(), vals.drop_last(), key);
        if keys.last() == key {
            assert(keys[keys.len() - 1] == key);
        } else {
            if keys.drop_last().contains(key) {
                let i = choose|i: int| 0 <= i < keys.drop_last().len() && keys.drop_last()[i]
                    == key;
                assert(keys[i] == key);
            }
            if keys.contains(key) {
                let i = choose|i: int| 0 <= i < keys.len() && keys[i] == key;
                assert(keys.drop_last()[i] == key);
            }
        }
    }
}

/// Under distinct keys, the entry at any index gives the map's value there.
pub proof fn lemma_keyed_at<V>(keys: Seq<u64>, vals: Seq<V>, i: int)
    requires
        keys.len() == vals.len(),
        distinct_key_seq(keys),
        0 <= i < keys.len(),
    ensures
        keyed_map(keys, vals).contains_key(keys[i]),
        keyed_map(keys, vals)[keys[i]] == vals[i],
    decreases keys.len(),
{
    if i < keys.len() - 1 {
        lemma_keyed_at(keys.drop_last(), vals.drop_last(), i);
        assert(keys.drop_last()[i] == keys[i]);
        assert(vals.drop_last()[i] == vals[i]);
    }
}

/// The domain of the map is finite.
pub proof fn lemma_keyed_finite<V>(keys: Seq<u64>, vals: Seq<V>)
    ensures
        keyed_map(keys, vals).dom().finite(),
    decreases keys.len(),
{
    if keys.len() > 0 && keys.len() == vals.len() {
        lemma_keyed_finite(keys.drop_last(), vals.drop_last());
    }
}

/// Under distinct keys, the map has exactly one entry per list element.
pub proof fn lemma_keyed_len<V>(keys: Seq<u64>, vals: Seq<V>)
    requires
        keys.len() == vals.len(),
        distinct_key_seq(keys),
    ensures
        keyed_map(keys, vals).dom().finite(),
        keyed_map(keys, vals).dom().len() == keys.len(),
    decreases keys.len(),
{
    lemma_keyed_finite(keys, vals);
    if keys.len() > 0 {
        lemma_keyed_len(keys.drop_last(), vals.drop_last());
        lemma_keyed_contains(keys.drop_last(), vals.drop_last(), keys.last());
    }
}

/// Replacing the value at index `i` updates the map at that index's key.
pub proof fn lemma_keyed_update<V>(keys: Seq<u64>, vals: Seq<V>, i: int, value: V)
    requires
        keys.len() == vals.len(),
        distinct_key_seq(keys),
        0 <= i < keys.len(),
    ensures
        keyed_map(keys, vals.update(i, value)) == keyed_map(keys, vals).insert(keys[i], value),
    decreases keys.len(),
{
    let t = vals.update(i, value);
    if i == keys.len() - 1 {
        assert(t.drop_last() =~= vals.drop_last());
        assert(keyed_map(keys, t) =~= keyed_map(keys, vals).insert(keys[i], value));
    } else {
        lemma_keyed_update(keys.drop_last(), vals.drop_last(), i, value);
        assert(t.drop_last() =~= vals.drop_last().update(i, value));
        assert(keyed_map(keys, t) =~= keyed_map(keys, vals).insert(keys[i], value));
    }
}

/// Removing index `i` from both lists removes that index's key.
pub proof fn lemma_keyed_remove<V>(keys: Seq<u64>, vals: Seq<V>, i: int)
    requires
        keys.len() == vals.len(),
        distinct_key_seq(keys),
        0 <= i < keys.len(),
    ensures
        keyed_map(keys.remove(i), vals.remove(i)) == keyed_map(keys, vals).remove(keys[i]),
    decreases keys.len(),
{
    if i == keys.len() - 1 {
        assert(keys.remove(i) =~= keys.drop_last());
        assert(vals.remove(i) =~= vals.drop_last());
        lemma_keyed_contains(keys.drop_last(), vals.drop_last(), keys[i]);
        assert(forall|j: int| 0 <= j < keys.drop_last().len() ==> keys.drop_last()[j]
            != keys[i]);
        assert(!keyed_map(keys.drop_last(), vals.drop_last()).contains_key(keys[i]));
        assert(keyed_map(keys.drop_last(), vals.drop_last()) =~= keyed_map(
            keys,
            vals,
        ).remove(keys[i]));
    } else {
        lemma_keyed_remove(keys.drop_last(), vals.drop_last(), i);
        assert(keys.remove(i).drop_last() =~= keys.drop_last().remove(i));
        assert(vals.remove(i).drop_last() =~= vals.drop_last().remove(i));
        assert(keys.remove(i).last() == keys.last());
        assert(vals.remove(i).last() == vals.last());
        assert(keyed_map(keys.remove(i), vals.remove(i)) =~= keyed_map(
            keys,
            vals,
        ).remove(keys[i]));
    }
}

/// Appending a fresh key and its value inserts it into the map.
pub proof fn lemma_keyed_push<V>(keys: Seq<u64>, vals: Seq<V>, key: u64, value: V)
    requires
        keys.len() == vals.len(),
    ensures
        keyed_map(keys.push(key), vals.push(value)) == keyed_map(keys, vals).insert(key, value),
{
    assert(keys.push(key).drop_last() =~= keys);
    assert(vals.push(value).drop_last() =~= vals);
    assert(keyed_map(keys.push(key), vals.push(value)) =~= keyed_map(keys, vals).insert(
        key,
        value,
    ));
}

/// Finds the position of `key` in the key list, scanning in order.
pub(crate) fn scan_key_list(keys: &Vec<u64>, key: u64) -> (r: Option<usize>)
    ensures
        match r {
            Some(i) => i < keys@.len() && keys@[i as int] == key,
            None => forall|i: int| 0 <= i < keys@.len() ==> keys@[i] != key,
        },
{
    let n = keys.len();
    let mut j: usize = 0;
    while j < n
        invariant
            n == keys@.len(),
            j <= n,
            forall|i: int| 0 <= i < j ==> keys@[i] != key,
        decreases n - j,
    {
        if keys[j] == key {
            return Some(j);
        }
        j += 1;
    }
    None
}

/// Type-indexed singleton storage.
///
/// At most one value is held per type token; inserting for a token that is
/// already present replaces the old value.
pub struct Store<V> {
    keys: Vec<u64>,
    vals: Vec<V>,
}

impl<V> View for Store<V> {
    type V = Map<u64, V>;

    closed spec fn view(&self) -> Map<u64, V> {
        keyed_map(self.keys@, self.vals@)
    }
}

impl<V> Default for Store<V> {
    /// The same as `Store::new`: an empty store.
    fn default() -> (s: Self)
        ensures
            s@ == Map::<u64, V>::empty(),
    {
        Store::new()
    }
}

impl<V> Store<V> {
    #[verifier::type_invariant]
    spec fn well_formed(self) -> bool {
        self.keys@.len() == self.vals@.len() && distinct_key_seq(self.keys@)
    }

    /// Creates an empty store.
    pub fn new() -> (s: Self)
        ensures
            s@ == Map::<u64, V>::empty(),
    {
        Store { keys: Vec::new(), vals: Vec::new() }
    }

    /// The number of values held.
    pub fn len(&self) -> (n: usize)
        ensures
            n == self@.dom().len(),
            self@.dom().finite(),
    {
        proof {
            use_type_invariant(self);
            lemma_keyed_len(self.keys@, self.vals@);
        }
        self.keys.len()
    }

    /// Whether a value is held for `key`.
    pub fn contains(&self, key: u64) -> (b: bool)
        ensures
            b == self@.contains_key(key),
    {
        proof {
            use_type_invariant(self);
            lemma_keyed_contains(self.keys@, self.vals@, key);
        }
        scan_key_list(&self.keys, key).is_some()
    }

    /// The value held for `key`, if any.
    pub fn get(&self, key: u64) -> (r: Option<&V>)
        ensures
            match r {
                Some(v) => self@.contains_key(key) && *v == self@[key],
                None => !self@.contains_key(key),
            },
    {
        proof {
            use_type_invariant(self);
            lemma_keyed_contains(self.keys@, self.vals@, key);
        }
        match scan_key_list(&self.keys, key) {
            Some(i) => {
                proof {
                    lemma_keyed_at(self.keys@, self.vals@, i as int);
                }
                Some(&self.vals[i])
            },
            None => None,
        }
    }

    /// Inserts a value for `key`, replacing any value held for it before.
    pub fn insert(&mut self, key: u64, value: V)
        ensures
            final(self)@ == old(self)@.insert(key, value),
    {
        proof {
            use_type_invariant(&*self);
        }
        let mut taken = Store::new();
        core::mem::swap(&mut taken, self);
        let Store { mut keys, mut vals } = taken;
        match scan_key_list(&keys, key) {
            Some(i) => {
                proof {
                    lemma_keyed_update(keys@, vals@, i as int, value);
                }
                vals.set(i, value);
            },
            None => {
                proof {
                    lemma_keyed_push(keys@, vals@, key, value);
                }
                keys.push(key);
                vals.push(value);
            },
        }
        *self = Store { keys, vals };
    }

    /// Removes and returns the value held for `key`, if any.
    pub fn remove(&mut self, key: u64) -> (r: Option<V>)
        ensures
            final(self)@ == old(self)@.remove(key),
            match r {
                Some(v) => old(self)@.contains_key(key) && v == old(self)@[key],
                None => !old(self)@.contains_key(key),
            },
    {
        proof {
            use_type_invariant(&*self);
            lemma_keyed_contains(self.keys@, self.vals@, key);
        }
        let mut taken = Store::new();
        core::mem::swap(&mut taken, self);
        let Store { mut keys, mut vals } = taken;
        let r = match scan_key_list(&keys, key) {
            Some(i) => {
                proof {
                    lemma_keyed_at(keys@, vals@, i as int);
                    lemma_keyed_remove(keys@, vals@, i as int);
                }
                keys.remove(i);
                Some(vals.remove(i))
            },
            None => {
                proof {
                    assert(keyed_map(keys@, vals@) =~= keyed_map(keys@, vals@).remove(key));
                }
                None
            },
        };
        *self = Store { keys, vals };
        r
    }

    /// Exclusive access to the value held for `key`, if any.
    pub fn get_mut(&mut self, key: u64) -> (r: Option<&mut V>)
        ensures
            match r {
                Some(v) => old(self)@.contains_key(key) && *v == old(self)@[key]
                    && final(self)@ == old(self)@.insert(key, *final(v)),
                None => !old(self)@.contains_key(key) && final(self)@ == old(self)@,
            },
    {
        proof {
            use_type_invariant(&*self);
            lemma_keyed_contains(self.keys@, self.vals@, key);
        }
        match scan_key_list(&self.keys, key) {
            Some(i) => {
                proof {
                    lemma_keyed_at(self.keys@, self.vals@, i as int);
                    assert forall|nv: V|
                        keyed_map(self.keys@, #[trigger] self.vals@.update(i as int, nv))
                            == keyed_map(self.keys@, self.vals@).insert(key, nv) by {
                        lemma_keyed_update(self.keys@, self.vals@, i as int, nv);
                    }
                }
                Some(&mut self.vals[i])
            },
            None => None,
        }
    }

    /// Exclusive access to the value held for `key`; the caller must know
    /// that one is held (the mandatory-dependency contract).
    pub fn fetch_mut(&mut self, key: u64) -> (v: &mut V)
        requires
            old(self)@.contains_key(key),
        ensures
            *v == old(self)@[key],
            final(self)@ == old(self)@.insert(key, *final(v)),
    {
        proof {
            use_type_invariant(&*self);
            lemma_keyed_contains(self.keys@, self.vals@, key);
        }
        match scan_key_list(&self.keys, key) {
            Some(i) => {
                proof {
                    lemma_keyed_at(self.keys@, self.vals@, i as int);
                    assert forall|nv: V|
                        keyed_map(self.keys@, #[trigger] self.vals@.update(i as int, nv))
                            == keyed_map(self.keys@, self.vals@).insert(key, nv) by {
                        lemma_keyed_update(self.keys@, self.vals@, i as int, nv);
                    }
                }
                &mut self.vals[i]
            },
            None => unreached(),
        }
    }

    /// The value held for `key`; the caller must know that one is held.
    ///
    /// This is the mandatory-dependency contract: absence is a caller error.
    pub fn fetch(&self, key: u64) -> (v: &V)
        requires
            self@.contains_key(key),
        ensures
            *v == self@[key],
    {
        proof {
            use_type_invariant(self);
            lemma_keyed_contains(self.keys@, self.vals@, key);
        }
        match scan_key_list(&self.keys, key) {
            Some(i) => {
                proof {
                    lemma_keyed_at(self.keys@, self.vals@, i as int);
                }
                &self.vals[i]
            },
            None => unreached(),
        }
    }
}

} // verus!
