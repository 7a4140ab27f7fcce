//! One lockable partition of a map's storage, and the place where guarded
//! references to its entries are made.
use crate::lock::{RwLockReadGuardDetached, RwLockWriteGuardDetached};
use crate::mapref::one::{Ref, RefMut};
use vstd::prelude::*;
use vstd::std_specs::cmp::PartialEqSpec;

verus! {

/// The entries of one shard, in the order they were first inserted.
///
/// Read access is lent through `&self` and write access through `&mut self`,
/// so the borrow of the shard is what keeps a writer out while readers live,
/// and everyone else out while a writer lives. The guard a reference carries
/// records which of the two it holds.
pub struct Shard<K, V> {
    entries: Vec<(K, V)>,
}

impl<K, V> View for Shard<K, V> {
    type V = Seq<(K, V)>;

    closed spec fn view(&self) -> Seq<(K, V)> {
        self.entries@
    }
}

/// `i` is the first position of `s` whose key equals `key`.
pub open spec fn first_match<K: PartialEq, V>(s: Seq<(K, V)>, key: &K, i: int) -> bool {
    &&& 0 <= i < s.len()
    &&& s[i].0.eq_spec(key)
    &&& forall|j: int| 0 <= j < i ==> !s[j].0.eq_spec(key)
}

/// No key of `s` equals `key`.
pub open spec fn no_match<K: PartialEq, V>(s: Seq<(K, V)>, key: &K) -> bool {
    forall|j: int| 0 <= j < s.len() ==> !s[j].0.eq_spec(key)
}

impl<K: PartialEq, V> Shard<K, V> {
    pub fn new() -> (r: Self)
        ensures
            r@ == Seq::<(K, V)>::empty(),
    {
        Shard { entries: Vec::new() }
    }

    /// The position of the first entry whose key equals `key`.
    fn find(&self, key: &K) -> (r: Option<usize>)
        ensures
            r matches Some(i) ==> i < self@.len(),
            K::obeys_eq_spec() ==> match r {
                Some(i) => first_match(self@, key, i as int),
                None => no_match(self@, key),
            },
    {
        let mut i: usize = 0;
        while i < self.entries.len()
            invariant
                i <= self@.len(),
                K::obeys_eq_spec() ==> forall|j: int| 0 <= j < i ==> !self@[j].0.eq_spec(key),
            decreases self@.len() - i,
        {
            if self.entries[i].0.eq(key) {
                return Some(i);
            }
            i = i + 1;
        }
        None
    }

    /// Stores `value` under `key`. An entry with an equal key keeps its
    /// place and gets the new value, and its old value is returned; else a
    /// new entry goes at the end.
    pub fn insert(&mut self, key: K, value: V) -> (r: Option<V>)
        ensures
            K::obeys_eq_spec() ==> if no_match(old(self)@, &key) {
                &&& final(self)@ == old(self)@.push((key, value))
                &&& r is None
            } else {
                exists|i: int|
                    first_match(old(self)@, &key, i) && final(self)@ == old(self)@.update(
                        i,
                        (old(self)@[i].0, value),
                    ) && r == Some(old(self)@[i].1)
            },
    {
        match self.find(&key) {
            Some(i) => {
                let mut v = value;
                std::mem::swap(&mut self.entries[i].1, &mut v);
                Some(v)
            },
            None => {
                self.entries.push((key, value));
                None
            },
        }
    }

    /// Read access to the first entry whose key equals `key`, under the
    /// shard's read lock.
    pub fn get<'a>(&'a self, key: &K) -> (r: Option<Ref<'a, K, V>>)
        ensures
            K::obeys_eq_spec() ==> (r is None <==> no_match(self@, key)),
            r matches Some(x) ==> exists|i: int|
                #![trigger self@[i]]
                0 <= i < self@.len() && (K::obeys_eq_spec() ==> first_match(self@, key, i))
                    && *x.key_ref() == self@[i].0 && *x.value_ref() == self@[i].1,
    {
        match self.find(key) {
            Some(i) => {
                let e = &self.entries[i];
                let r = Ref::new(RwLockReadGuardDetached::new(), &e.0, &e.1);
                assert(*r.key_ref() == self@[i as int].0 && *r.value_ref() == self@[i as int].1);
                Some(r)
            },
            None => None,
        }
    }

    /// Write access to the first entry whose key equals `key`, under the
    /// shard's write lock. What is written through the reference is what
    /// the entry holds once the reference is gone.
    pub fn get_mut<'a>(&'a mut self, key: &K) -> (r: Option<RefMut<'a, K, V>>)
        ensures
            K::obeys_eq_spec() ==> (r is None <==> no_match(old(self)@, key)),
            r is None ==> final(self)@ == old(self)@,
            r matches Some(x) ==> exists|i: int|
                #![trigger old(self)@[i]]
                0 <= i < old(self)@.len() && (K::obeys_eq_spec() ==> first_match(
                    old(self)@,
                    key,
                    i,
                )) && *x.key_ref() == old(self)@[i].0 && *x.value_ref() == old(self)@[i].1
                    && final(self)@ == old(self)@.update(
                    i,
                    (old(self)@[i].0, *final(x.value_ref())),
                ),
    {
        match self.find(key) {
            Some(i) => {
                let e = &mut self.entries[i];
                let (k, v) = (&e.0, &mut e.1);
                let r = RefMut::new(RwLockWriteGuardDetached::new(), k, v);
                assert(*r.key_ref() == old(self)@[i as int].0 && *r.value_ref() == old(
                    self,
                )@[i as int].1);
                Some(r)
            },
            None => None,
        }
    }
}

} // verus!
