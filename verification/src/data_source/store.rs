//! A keyed collection: at most one item per key, kept in insertion order.

use vstd::prelude::*;

verus! {

/// Items that carry the key they are stored under.
pub trait Keyed {
    spec fn key_spec(&self) -> Seq<char>;

    fn key(&self) -> (k: String)
        ensures
            k@ == self.key_spec(),
    ;
}

/// Whether no two items of `s` share a key.
pub open spec fn keys_distinct<T: Keyed>(s: Seq<T>) -> bool {
    forall|i: int, j: int| 0 <= i < s.len() && 0 <= j < s.len() && i != j ==> s[i].key_spec() != s[j].key_spec()
}

/// Whether some item of `s` has key `k`.
pub open spec fn has_key<T: Keyed>(s: Seq<T>, k: Seq<char>) -> bool {
    exists|i: int| 0 <= i < s.len() && s[i].key_spec() == k
}

/// The position of the item with key `k` (meaningful where there is one).
pub open spec fn index_of_key<T: Keyed>(s: Seq<T>, k: Seq<char>) -> int {
    choose|i: int| 0 <= i < s.len() && s[i].key_spec() == k
}

/// The item stored under `k`, if any.
pub open spec fn lookup<T: Keyed>(s: Seq<T>, k: Seq<char>) -> Option<T> {
    if has_key(s, k) {
        Some(s[index_of_key(s, k)])
    } else {
        None
    }
}

/// The contents after storing `item`: it replaces the item with its key,
/// or comes last if there was none.
pub open spec fn stored<T: Keyed>(s: Seq<T>, item: T) -> Seq<T> {
    if has_key(s, item.key_spec()) {
        s.update(index_of_key(s, item.key_spec()), item)
    } else {
        s.push(item)
    }
}

/// The contents after removing the item with key `k`, if any.
pub open spec fn removed<T: Keyed>(s: Seq<T>, k: Seq<char>) -> Seq<T> {
    if has_key(s, k) {
        s.remove(index_of_key(s, k))
    } else {
        s
    }
}

/// In a collection with distinct keys, the item found for a key is the one
/// at the only position holding it.
pub proof fn lemma_index_unique<T: Keyed>(s: Seq<T>, k: Seq<char>, i: int)
    requires
        keys_distinct(s),
        0 <= i < s.len(),
        s[i].key_spec() == k,
    ensures
        has_key(s, k),
        index_of_key(s, k) == i,
{
}

/// Storing an item keeps keys distinct; the item is then found under its
/// key, and every other key finds what it found before.
pub proof fn lemma_stored<T: Keyed>(s: Seq<T>, item: T)
    requires
        keys_distinct(s),
    ensures
        keys_distinct(stored(s, item)),
        lookup(stored(s, item), item.key_spec()) == Some(item),
        forall|k: Seq<char>| k != item.key_spec() ==> #[trigger] lookup(stored(s, item), k) == lookup(s, k),
{
    let n = stored(s, item);
    let key = item.key_spec();
    if has_key(s, key) {
        let i = index_of_key(s, key);
        assert(n[i].key_spec() == key);
        lemma_index_unique(n, key, i);
        assert forall|k: Seq<char>| k != key implies #[trigger] lookup(n, k) == lookup(s, k) by {
            if has_key(s, k) {
                let j = index_of_key(s, k);
                assert(n[j] == s[j]);
                lemma_index_unique(n, k, j);
            }
            if has_key(n, k) {
                let j = index_of_key(n, k);
                assert(s[j] == n[j]);
            }
        }
    } else {
        let i = s.len() as int;
        assert(n[i].key_spec() == key);
        lemma_index_unique(n, key, i);
        assert forall|k: Seq<char>| k != key implies #[trigger] lookup(n, k) == lookup(s, k) by {
            if has_key(s, k) {
                let j = index_of_key(s, k);
                assert(n[j] == s[j]);
                lemma_index_unique(n, k, j);
            }
            if has_key(n, k) {
                let j = index_of_key(n, k);
                assert(s[j] == n[j]);
            }
        }
    }
}

/// Removing a key keeps keys distinct; the key then finds nothing, and every
/// other key finds what it found before.
pub proof fn lemma_removed<T: Keyed>(s: Seq<T>, k: Seq<char>)
    requires
        keys_distinct(s),
    ensures
        keys_distinct(removed(s, k)),
        lookup(removed(s, k), k) is None,
        forall|k2: Seq<char>| k2 != k ==> #[trigger] lookup(removed(s, k), k2) == lookup(s, k2),
{
    let n = removed(s, k);
    if has_key(s, k) {
        let i = index_of_key(s, k);
        assert forall|a: int, b: int| 0 <= a < n.len() && 0 <= b < n.len() && a != b implies n[a].key_spec()
            != n[b].key_spec() by {
            let sa = if a < i { a } else { a + 1 };
            let sb = if b < i { b } else { b + 1 };
            assert(n[a] == s[sa]);
            assert(n[b] == s[sb]);
        }
        if has_key(n, k) {
            let j = index_of_key(n, k);
            let sj = if j < i { j } else { j + 1 };
            assert(n[j] == s[sj]);
        }
        assert forall|k2: Seq<char>| k2 != k implies #[trigger] lookup(n, k2) == lookup(s, k2) by {
            if has_key(s, k2) {
                let j = index_of_key(s, k2);
                assert(j != i);
                let nj = if j < i { j } else { j - 1 };
                assert(n[nj] == s[j]);
                lemma_index_unique(n, k2, nj);
            }
            if has_key(n, k2) {
                let j = index_of_key(n, k2);
                let sj = if j < i { j } else { j + 1 };
                assert(n[j] == s[sj]);
                lemma_index_unique(s, k2, sj);
            }
        }
    }
}

/// At most one item per key, in the order keys were first stored.
pub struct Store<T: Keyed> {
    items: Vec<T>,
}

impl<T: Keyed> View for Store<T> {
    type V = Seq<T>;

    closed spec fn view(&self) -> Seq<T> {
        self.items@
    }
}

impl<T: Keyed> Store<T> {
    /// No key occurs twice among the stored items.
    #[verifier::type_invariant]
    pub open spec fn keys_are_distinct(&self) -> bool {
        keys_distinct(self@)
    }

    pub fn new() -> (s: Self)
        ensures
            s@ == Seq::<T>::empty(),
    {
        Store { items: Vec::new() }
    }

    pub fn len(&self) -> (n: usize)
        ensures
            n == self@.len(),
            keys_distinct(self@),
    {
        proof {
            use_type_invariant(self);
        }
        self.items.len()
    }

    /// The position of the item stored under `key`.
    pub fn position(&self, key: &String) -> (r: Option<usize>)
        ensures
            has_key(self@, key@) <==> r is Some,
            r matches Some(i) ==> i == index_of_key(self@, key@) && i < self@.len(),
            keys_distinct(self@),
    {
        proof {
            use_type_invariant(self);
        }
        let mut i: usize = 0;
        while i < self.items.len()
            invariant
                i <= self.items@.len(),
                forall|j: int| 0 <= j < i ==> self.items@[j].key_spec() != key@,
                keys_distinct(self.items@),
            decreases self.items@.len() - i,
        {
            let k = self.items[i].key();
            if k.eq(key) {
                proof {
                    lemma_index_unique(self.items@, key@, i as int);
                }
                return Some(i);
            }
            i = i + 1;
        }
        None
    }

    pub fn contains(&self, key: &String) -> (b: bool)
        ensures
            b == has_key(self@, key@),
            keys_distinct(self@),
    {
        self.position(key).is_some()
    }

    /// The item stored under `key`.
    pub fn get(&self, key: &String) -> (r: Option<&T>)
        ensures
            match r {
                Some(t) => lookup(self@, key@) == Some(*t),
                None => lookup(self@, key@) is None,
            },
    {
        match self.position(key) {
            Some(i) => Some(&self.items[i]),
            None => None,
        }
    }

    /// The item at position `i`.
    pub fn at(&self, i: usize) -> (t: &T)
        requires
            i < self@.len(),
        ensures
            *t == self@[i as int],
    {
        &self.items[i]
    }

    /// Stores `item`, replacing the item with the same key if there is one.
    pub fn put(&mut self, item: T)
        ensures
            final(self)@ == stored(old(self)@, item),
            keys_distinct(final(self)@),
    {
        proof {
            use_type_invariant(&*self);
            lemma_stored(self.items@, item);
        }
        let key = item.key();
        match self.position(&key) {
            Some(i) => {
                let mut items: Vec<T> = Vec::new();
                std::mem::swap(&mut items, &mut self.items);
                items.set(i, item);
                self.items = items;
            },
            None => {
                let mut items: Vec<T> = Vec::new();
                std::mem::swap(&mut items, &mut self.items);
                items.push(item);
                self.items = items;
            },
        }
    }

    /// Removes and returns the item stored under `key`.
    pub fn take(&mut self, key: &String) -> (r: Option<T>)
        ensures
            r == lookup(old(self)@, key@),
            final(self)@ == removed(old(self)@, key@),
            keys_distinct(final(self)@),
    {
        proof {
            use_type_invariant(&*self);
            lemma_removed(self.items@, key@);
        }
        match self.position(key) {
            Some(i) => {
                let mut items: Vec<T> = Vec::new();
                std::mem::swap(&mut items, &mut self.items);
                let t = items.remove(i);
                self.items = items;
                Some(t)
            },
            None => None,
        }
    }

    /// Removes every item.
    pub fn clear(&mut self)
        ensures
            final(self)@ == Seq::<T>::empty(),
    {
        self.items = Vec::new();
    }
}

} // verus!
