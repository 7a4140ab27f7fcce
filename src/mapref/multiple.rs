//! References that share their guard with a sibling, made by `map_split`.
use crate::lock::{RwLockReadGuardDetached, RwLockWriteGuardDetached};
use std::sync::Arc;
use vstd::prelude::*;

verus! {

/// Read access to one part of an entry's value. The entry's read guard is
/// shared with the other part, and let go when both are gone.
#[derive(Debug)]
pub struct RefMulti<'a, K, V: ?Sized> {
    guard: Arc<RwLockReadGuardDetached>,
    k: &'a K,
    v: &'a V,
}

impl<'a, K, V: ?Sized> RefMulti<'a, K, V> {
    /// The key of the entry this part belongs to.
    pub closed spec fn key_ref(&self) -> &'a K {
        self.k
    }

    /// The part of the value this reference exposes.
    pub closed spec fn value_ref(&self) -> &'a V {
        self.v
    }

    pub(crate) fn new(guard: Arc<RwLockReadGuardDetached>, k: &'a K, v: &'a V) -> (r: Self)
        ensures
            r.key_ref() == k,
            r.value_ref() == v,
    {
        RefMulti { guard, k, v }
    }

    pub fn key(&self) -> (r: &K)
        ensures
            r == self.key_ref(),
    {
        self.pair().0
    }

    pub fn value(&self) -> (r: &V)
        ensures
            r == self.value_ref(),
    {
        self.pair().1
    }

    pub fn pair(&self) -> (r: (&K, &V))
        ensures
            r.0 == self.key_ref(),
            r.1 == self.value_ref(),
    {
        (self.k, self.v)
    }
}

/// Write access to one part of an entry's value. The entry's write guard is
/// shared with the other part, and let go when both are gone.
#[derive(Debug)]
pub struct RefMutMulti<'a, K, V: ?Sized> {
    guard: Arc<RwLockWriteGuardDetached>,
    k: &'a K,
    v: &'a mut V,
}

impl<'a, K, V: ?Sized> RefMutMulti<'a, K, V> {
    /// The key of the entry this part belongs to.
    pub closed spec fn key_ref(&self) -> &'a K {
        self.k
    }

    /// The part of the value this reference exposes: what it holds now, and
    /// (as `final`) what it will hold when the reference is given up.
    pub closed spec fn value_ref(&self) -> &'a mut V {
        self.v
    }

    pub(crate) fn new(guard: Arc<RwLockWriteGuardDetached>, k: &'a K, v: &'a mut V) -> (r: Self)
        ensures
            r.key_ref() == k,
            &*r.value_ref() == &*old(v),
            &*final(r.value_ref()) == &*final(v),
    {
        RefMutMulti { guard, k, v }
    }

    pub fn key(&self) -> (r: &K)
        ensures
            r == self.key_ref(),
    {
        self.pair().0
    }

    pub fn value(&self) -> (r: &V)
        ensures
            &*r == &*self.value_ref(),
    {
        self.pair().1
    }

    /// Write access to the part; what is written through it is what this
    /// reference holds afterwards.
    pub fn value_mut(&mut self) -> (r: &mut V)
        ensures
            &*r == &*old(self).value_ref(),
            &*final(self).value_ref() == &*final(r),
            &*final(final(self).value_ref()) == &*final(old(self).value_ref()),
            final(self).key_ref() == old(self).key_ref(),
    {
        self.pair_mut().1
    }

    pub fn pair(&self) -> (r: (&K, &V))
        ensures
            r.0 == self.key_ref(),
            &*r.1 == &*self.value_ref(),
    {
        (self.k, &*self.v)
    }

    pub fn pair_mut(&mut self) -> (r: (&K, &mut V))
        ensures
            r.0 == old(self).key_ref(),
            &*r.1 == &*old(self).value_ref(),
            &*final(self).value_ref() == &*final(r.1),
            &*final(final(self).value_ref()) == &*final(old(self).value_ref()),
            final(self).key_ref() == old(self).key_ref(),
    {
        (self.k, &mut *self.v)
    }
}

/// One half of a split write reference, once given up, leaves in its part of
/// the entry what it held last.
pub broadcast proof fn lemma_ref_mut_multi_given_up<'a, K, V: ?Sized>(r: RefMutMulti<'a, K, V>)
    requires
        #[trigger] has_resolved(r),
    ensures
        &*final(r.value_ref()) == &*r.value_ref(),
{
}

impl<'a, K, V: ?Sized> core::ops::Deref for RefMulti<'a, K, V> {
    type Target = V;

    fn deref(&self) -> (r: &V)
        ensures
            r == self.value_ref(),
    {
        self.value()
    }
}

impl<'a, K, V: ?Sized> core::ops::Deref for RefMutMulti<'a, K, V> {
    type Target = V;

    fn deref(&self) -> (r: &V)
        ensures
            &*r == &*self.value_ref(),
    {
        self.value()
    }
}

impl<'a, K, V: ?Sized> core::ops::DerefMut for RefMutMulti<'a, K, V> {
    fn deref_mut(&mut self) -> (r: &mut V)
        ensures
            &*r == &*old(self).value_ref(),
            &*final(self).value_ref() == &*final(r),
            &*final(final(self).value_ref()) == &*final(old(self).value_ref()),
            final(self).key_ref() == old(self).key_ref(),
    {
        self.value_mut()
    }
}

} // verus!
