//! References that own their guard alone.
use crate::lock::{RwLockReadGuardDetached, RwLockWriteGuardDetached};
use crate::mapref::multiple::{RefMulti, RefMutMulti};
use crate::call_once;
use std::sync::Arc;
use vstd::prelude::*;

verus! {

/// Read access to one entry of a shard: the key, the value, and the read
/// guard that keeps the shard locked while this reference lives.
#[derive(Debug)]
pub struct Ref<'a, K, V> {
    guard: RwLockReadGuardDetached,
    k: &'a K,
    v: &'a V,
}

impl<'a, K, V> Ref<'a, K, V> {
    /// The key this reference was taken for.
    pub closed spec fn key_ref(&self) -> &'a K {
        self.k
    }

    /// The value this reference exposes.
    pub closed spec fn value_ref(&self) -> &'a V {
        self.v
    }

    pub(crate) fn new(guard: RwLockReadGuardDetached, k: &'a K, v: &'a V) -> (r: Self)
        ensures
            r.key_ref() == k,
            r.value_ref() == v,
    {
        Ref { guard, k, v }
    }

    pub fn key(&self) -> (r: &K)
        ensures
            r == self.key_ref(),
    {
        self.pair().0
    }

    pub fn value(&self) -> (r: &V)
        ensures
            r == self.value_ref(),
    {
        self.pair().1
    }

    pub fn pair(&self) -> (r: (&K, &V))
        ensures
            r.0 == self.key_ref(),
            r.1 == self.value_ref(),
    {
        (self.k, self.v)
    }

    /// Projects the value through `f`, keeping the same guard and key: the
    /// new reference exposes exactly what `f` returns for the value.
    pub fn map<F, T: ?Sized>(self, f: F) -> (r: MappedRef<'a, K, T>)
        where
            F: FnOnce(&'a V) -> &'a T,
        requires
            f.requires((self.value_ref(),)),
        ensures
            f.ensures((self.value_ref(),), r.value_ref()),
            r.key_ref() == self.key_ref(),
    {
        let Ref { guard, k, v } = self;
        MappedRef { guard, k, v: f(v) }
    }

    /// Like `map`, for a projection that may find nothing to expose. On
    /// failure the reference itself comes back, unchanged.
    pub fn try_map<F, T: ?Sized>(self, f: F) -> (r: Result<MappedRef<'a, K, T>, Self>)
        where
            F: FnOnce(&'a V) -> Option<&'a T>,
        requires
            f.requires((self.value_ref(),)),
        ensures
            match r {
                Ok(m) => f.ensures((self.value_ref(),), Some(m.value_ref())) && m.key_ref()
                    == self.key_ref(),
                Err(s) => f.ensures((self.value_ref(),), None::<&'a T>) && s == self,
            },
    {
        let Ref { guard, k, v } = self;
        match f(v) {
            Some(t) => Ok(MappedRef { guard, k, v: t }),
            None => Err(Ref { guard, k, v }),
        }
    }

    /// Splits the value into two parts through `f`. Each part gets a
    /// reference of its own; the two share the guard, which is let go only
    /// when both are gone.
    pub fn map_split<F, A: ?Sized, B: ?Sized>(self, f: F) -> (r: (
        RefMulti<'a, K, A>,
        RefMulti<'a, K, B>,
    ))
        where
            F: FnOnce(&'a V) -> (&'a A, &'a B),
        requires
            f.requires((self.value_ref(),)),
        ensures
            f.ensures((self.value_ref(),), (r.0.value_ref(), r.1.value_ref())),
            r.0.key_ref() == self.key_ref(),
            r.1.key_ref() == self.key_ref(),
    {
        let Ref { guard, k, v } = self;
        let (a, b) = f(v);
        let shared = Arc::new(guard);
        let other = shared.clone();
        (RefMulti::new(shared, k, a), RefMulti::new(other, k, b))
    }
}

/// Read access to a part of one entry's value, taken with `Ref::map` or
/// `Ref::try_map`. It holds the entry's read guard.
#[derive(Debug)]
pub struct MappedRef<'a, K, T: ?Sized> {
    guard: RwLockReadGuardDetached,
    k: &'a K,
    v: &'a T,
}

impl<'a, K, T: ?Sized> MappedRef<'a, K, T> {
    /// The key of the entry this part belongs to.
    pub closed spec fn key_ref(&self) -> &'a K {
        self.k
    }

    /// The part of the value this reference exposes.
    pub closed spec fn value_ref(&self) -> &'a T {
        self.v
    }

    pub fn key(&self) -> (r: &K)
        ensures
            r == self.key_ref(),
    {
        self.pair().0
    }

    pub fn value(&self) -> (r: &T)
        ensures
            r == self.value_ref(),
    {
        self.pair().1
    }

    pub fn pair(&self) -> (r: (&K, &T))
        ensures
            r.0 == self.key_ref(),
            r.1 == self.value_ref(),
    {
        (self.k, self.v)
    }

    /// Projects further through `f`, still under the entry's guard.
    pub fn map<F, T2: ?Sized>(self, f: F) -> (r: MappedRef<'a, K, T2>)
        where
            F: FnOnce(&'a T) -> &'a T2,
        requires
            f.requires((self.value_ref(),)),
        ensures
            f.ensures((self.value_ref(),), r.value_ref()),
            r.key_ref() == self.key_ref(),
    {
        let MappedRef { guard, k, v } = self;
        MappedRef { guard, k, v: f(v) }
    }

    /// Like `map`, for a projection that may find nothing to expose. On
    /// failure the reference itself comes back, unchanged.
    pub fn try_map<F, T2: ?Sized>(self, f: F) -> (r: Result<MappedRef<'a, K, T2>, Self>)
        where
            F: FnOnce(&'a T) -> Option<&'a T2>,
        requires
            f.requires((self.value_ref(),)),
        ensures
            match r {
                Ok(m) => f.ensures((self.value_ref(),), Some(m.value_ref())) && m.key_ref()
                    == self.key_ref(),
                Err(s) => f.ensures((self.value_ref(),), None::<&'a T2>) && s == self,
            },
    {
        let MappedRef { guard, k, v } = self;
        match f(v) {
            Some(t) => Ok(MappedRef { guard, k, v: t }),
            None => Err(MappedRef { guard, k, v }),
        }
    }
}

/// Write access to one entry of a shard: the key, the value, and the write
/// guard that keeps the shard locked while this reference lives.
#[derive(Debug)]
pub struct RefMut<'a, K, V> {
    guard: RwLockWriteGuardDetached,
    k: &'a K,
    v: &'a mut V,
}

impl<'a, K, V> RefMut<'a, K, V> {
    /// The key this reference was taken for.
    pub closed spec fn key_ref(&self) -> &'a K {
        self.k
    }

    /// The value this reference exposes: what it holds now, and (as `final`)
    /// what the entry holds when the reference is given up.
    pub closed spec fn value_ref(&self) -> &'a mut V {
        self.v
    }

    pub(crate) fn new(guard: RwLockWriteGuardDetached, k: &'a K, v: &'a mut V) -> (r: Self)
        ensures
            r.key_ref() == k,
            *r.value_ref() == *old(v),
            *final(r.value_ref()) == *final(v),
    {
        RefMut { guard, k, v }
    }

    pub fn key(&self) -> (r: &K)
        ensures
            r == self.key_ref(),
    {
        self.pair().0
    }

    pub fn value(&self) -> (r: &V)
        ensures
            *r == *self.value_ref(),
    {
        self.pair().1
    }

    /// Write access to the value; what is written through it is what this
    /// reference holds afterwards.
    pub fn value_mut(&mut self) -> (r: &mut V)
        ensures
            *r == *old(self).value_ref(),
            *final(self).value_ref() == *final(r),
            *final(final(self).value_ref()) == *final(old(self).value_ref()),
            final(self).key_ref() == old(self).key_ref(),
    {
        self.pair_mut().1
    }

    pub fn pair(&self) -> (r: (&K, &V))
        ensures
            r.0 == self.key_ref(),
            *r.1 == *self.value_ref(),
    {
        (self.k, &*self.v)
    }

    pub fn pair_mut(&mut self) -> (r: (&K, &mut V))
        ensures
            r.0 == old(self).key_ref(),
            *r.1 == *old(self).value_ref(),
            *final(self).value_ref() == *final(r.1),
            *final(final(self).value_ref()) == *final(old(self).value_ref()),
            final(self).key_ref() == old(self).key_ref(),
    {
        (self.k, &mut *self.v)
    }

    /// Gives up write access for read access to the same entry, without
    /// unlocking the shard in between: the value read is the value last
    /// written, and it is what the entry keeps.
    pub fn downgrade(self) -> (r: Ref<'a, K, V>)
        ensures
            r.key_ref() == self.key_ref(),
            *r.value_ref() == *self.value_ref(),
            *final(self.value_ref()) == *self.value_ref(),
    {
        let RefMut { guard, k, v } = self;
        Ref::new(guard.downgrade(), k, v)
    }

    /// Projects the value through `f`, keeping the same guard and key. The
    /// new reference exposes what `f` returns when handed the value, and
    /// what is written through it ends up in the entry as `f` linked it.
    pub fn map<F, T: ?Sized>(self, f: F) -> (r: MappedRefMut<'a, K, T>)
        where
            F: FnOnce(&'a mut V) -> &'a mut T,
        requires
            forall|x: &'a mut V|
                *x == *self.value_ref() && *final(x) == *final(self.value_ref()) ==> f.requires(
                    (x,),
                ),
        ensures
            r.key_ref() == self.key_ref(),
            exists|x: &'a mut V, y: &'a mut T|
                *x == *self.value_ref() && *final(x) == *final(self.value_ref()) && f.ensures(
                    (x,),
                    y,
                ) && &*y == &*r.value_ref() && &*final(y) == &*final(r.value_ref()),
    {
        let RefMut { guard, k, v } = self;
        let (t, arg) = call_once(f, v);
        assert(f.ensures((arg@,), t));
        MappedRefMut { guard, k, v: t }
    }

    /// Like `map`, for a projection that may find nothing to expose: `f`
    /// hands back either the part or, on failure, the value it was given.
    /// On failure the reference comes back whole, over what `f` gave back.
    pub fn try_map<F, T: ?Sized>(self, f: F) -> (r: Result<MappedRefMut<'a, K, T>, Self>)
        where
            F: FnOnce(&'a mut V) -> Result<&'a mut T, &'a mut V>,
        requires
            forall|x: &'a mut V|
                *x == *self.value_ref() && *final(x) == *final(self.value_ref()) ==> f.requires(
                    (x,),
                ),
        ensures
            match r {
                Ok(m) => m.key_ref() == self.key_ref() && exists|x: &'a mut V, y: &'a mut T|
                    *x == *self.value_ref() && *final(x) == *final(self.value_ref()) && f.ensures(
                        (x,),
                        Ok(y),
                    ) && &*y == &*m.value_ref() && &*final(y) == &*final(m.value_ref()),
                Err(s) => s.key_ref() == self.key_ref() && exists|x: &'a mut V, y: &'a mut V|
                    *x == *self.value_ref() && *final(x) == *final(self.value_ref()) && f.ensures(
                        (x,),
                        Err(y),
                    ) && *y == *s.value_ref() && *final(y) == *final(s.value_ref()),
            },
    {
        let RefMut { guard, k, v } = self;
        let (res, arg) = call_once(f, v);
        match res {
            Ok(t) => {
                assert(f.ensures((arg@,), Ok(t)));
                Ok(MappedRefMut { guard, k, v: t })
            },
            Err(back) => {
                assert(f.ensures((arg@,), Err(back)));
                Err(RefMut { guard, k, v: back })
            },
        }
    }

    /// Splits the value into two parts through `f`. Each part gets a
    /// reference of its own; the two share the write guard, which is let go
    /// only when both are gone.
    pub fn map_split<F, A: ?Sized, B: ?Sized>(self, f: F) -> (r: (
        RefMutMulti<'a, K, A>,
        RefMutMulti<'a, K, B>,
    ))
        where
            F: FnOnce(&'a mut V) -> (&'a mut A, &'a mut B),
        requires
            forall|x: &'a mut V|
                *x == *self.value_ref() && *final(x) == *final(self.value_ref()) ==> f.requires(
                    (x,),
                ),
        ensures
            r.0.key_ref() == self.key_ref(),
            r.1.key_ref() == self.key_ref(),
            exists|x: &'a mut V, a: &'a mut A, b: &'a mut B|
                *x == *self.value_ref() && *final(x) == *final(self.value_ref()) && f.ensures(
                    (x,),
                    (a, b),
                ) && &*a == &*r.0.value_ref() && &*final(a) == &*final(r.0.value_ref()) && &*b
                    == &*r.1.value_ref() && &*final(b) == &*final(r.1.value_ref()),
    {
        let RefMut { guard, k, v } = self;
        let (parts, arg) = call_once(f, v);
        let (a, b) = parts;
        assert(f.ensures((arg@,), (a, b)));
        let shared = Arc::new(guard);
        let other = shared.clone();
        (RefMutMulti::new(shared, k, a), RefMutMulti::new(other, k, b))
    }
}

/// Write access to a part of one entry's value, taken with `RefMut::map` or
/// `RefMut::try_map`. It holds the entry's write guard.
#[derive(Debug)]
pub struct MappedRefMut<'a, K, T: ?Sized> {
    guard: RwLockWriteGuardDetached,
    k: &'a K,
    v: &'a mut T,
}

impl<'a, K, T: ?Sized> MappedRefMut<'a, K, T> {
    /// The key of the entry this part belongs to.
    pub closed spec fn key_ref(&self) -> &'a K {
        self.k
    }

    /// The part of the value this reference exposes: what it holds now, and
    /// (as `final`) what it holds when the reference is given up.
    pub closed spec fn value_ref(&self) -> &'a mut T {
        self.v
    }

    pub fn key(&self) -> (r: &K)
        ensures
            r == self.key_ref(),
    {
        self.pair().0
    }

    pub fn value(&self) -> (r: &T)
        ensures
            &*r == &*self.value_ref(),
    {
        self.pair().1
    }

    /// Write access to the part; what is written through it is what this
    /// reference holds afterwards.
    pub fn value_mut(&mut self) -> (r: &mut T)
        ensures
            &*r == &*old(self).value_ref(),
            &*final(self).value_ref() == &*final(r),
            &*final(final(self).value_ref()) == &*final(old(self).value_ref()),
            final(self).key_ref() == old(self).key_ref(),
    {
        self.pair_mut().1
    }

    pub fn pair(&self) -> (r: (&K, &T))
        ensures
            r.0 == self.key_ref(),
            &*r.1 == &*self.value_ref(),
    {
        (self.k, &*self.v)
    }

    pub fn pair_mut(&mut self) -> (r: (&K, &mut T))
        ensures
            r.0 == old(self).key_ref(),
            &*r.1 == &*old(self).value_ref(),
            &*final(self).value_ref() == &*final(r.1),
            &*final(final(self).value_ref()) == &*final(old(self).value_ref()),
            final(self).key_ref() == old(self).key_ref(),
    {
        (self.k, &mut *self.v)
    }

    /// Projects further through `f`, still under the entry's write guard.
    pub fn map<F, T2: ?Sized>(self, f: F) -> (r: MappedRefMut<'a, K, T2>)
        where
            F: FnOnce(&'a mut T) -> &'a mut T2,
        requires
            forall|x: &'a mut T|
                &*x == &*self.value_ref() && &*final(x) == &*final(self.value_ref())
                    ==> f.requires((x,)),
        ensures
            r.key_ref() == self.key_ref(),
            exists|x: &'a mut T, y: &'a mut T2|
                &*x == &*self.value_ref() && &*final(x) == &*final(self.value_ref()) && f.ensures(
                    (x,),
                    y,
                ) && &*y == &*r.value_ref() && &*final(y) == &*final(r.value_ref()),
    {
        let MappedRefMut { guard, k, v } = self;
        let (t, arg) = call_once(f, v);
        assert(f.ensures((arg@,), t));
        MappedRefMut { guard, k, v: t }
    }

    /// Like `map`, for a projection that may find nothing to expose: `f`
    /// hands back either the narrower part or, on failure, the part it was
    /// given. On failure the reference comes back whole.
    pub fn try_map<F, T2: ?Sized>(self, f: F) -> (r: Result<MappedRefMut<'a, K, T2>, Self>)
        where
            F: FnOnce(&'a mut T) -> Result<&'a mut T2, &'a mut T>,
        requires
            forall|x: &'a mut T|
                &*x == &*self.value_ref() && &*final(x) == &*final(self.value_ref())
                    ==> f.requires((x,)),
        ensures
            match r {
                Ok(m) => m.key_ref() == self.key_ref() && exists|x: &'a mut T, y: &'a mut T2|
                    &*x == &*self.value_ref() && &*final(x) == &*final(self.value_ref())
                        && f.ensures((x,), Ok(y)) && &*y == &*m.value_ref() && &*final(y)
                        == &*final(m.value_ref()),
                Err(s) => s.key_ref() == self.key_ref() && exists|x: &'a mut T, y: &'a mut T|
                    &*x == &*self.value_ref() && &*final(x) == &*final(self.value_ref())
                        && f.ensures((x,), Err(y)) && &*y == &*s.value_ref() && &*final(y)
                        == &*final(s.value_ref()),
            },
    {
        let MappedRefMut { guard, k, v } = self;
        let (res, arg) = call_once(f, v);
        match res {
            Ok(t) => {
                assert(f.ensures((arg@,), Ok(t)));
                Ok(MappedRefMut { guard, k, v: t })
            },
            Err(back) => {
                assert(f.ensures((arg@,), Err(back)));
                Err(MappedRefMut { guard, k, v: back })
            },
        }
    }
}

/// Projecting a reference with `f` and then with `g` exposes what a single
/// projection with their composition `h` exposes, for the same key: the
/// entry's guard is carried through both steps unchanged.
pub proof fn lemma_chained_projection<'a, K, V, T, T2, F, G, H>(
    r: Ref<'a, K, V>,
    f: F,
    g: G,
    h: H,
    m: MappedRef<'a, K, T>,
    n: MappedRef<'a, K, T2>,
)
    where
        F: FnOnce(&'a V) -> &'a T,
        G: FnOnce(&'a T) -> &'a T2,
        H: FnOnce(&'a V) -> &'a T2,
    requires
        forall|v: &'a V, t: &'a T, u: &'a T2|
            #![trigger f.ensures((v,), t), g.ensures((t,), u)]
            f.ensures((v,), t) && g.ensures((t,), u) ==> h.ensures((v,), u),
        f.ensures((r.value_ref(),), m.value_ref()),
        m.key_ref() == r.key_ref(),
        g.ensures((m.value_ref(),), n.value_ref()),
        n.key_ref() == m.key_ref(),
    ensures
        h.ensures((r.value_ref(),), n.value_ref()),
        n.key_ref() == r.key_ref(),
{
}

/// The same law for write access: projecting with `f` and then with `g`
/// exposes, up to reborrowing, what projecting with their composition `h`
/// exposes, and what is written through the result reaches the entry the same
/// way.
pub proof fn lemma_chained_projection_mut<'a, K, V, T: ?Sized, T2: ?Sized, F, G, H>(
    r: RefMut<'a, K, V>,
    f: F,
    g: G,
    h: H,
    m: MappedRefMut<'a, K, T>,
    n: MappedRefMut<'a, K, T2>,
)
    where
        F: FnOnce(&'a mut V) -> &'a mut T,
        G: FnOnce(&'a mut T) -> &'a mut T2,
        H: FnOnce(&'a mut V) -> &'a mut T2,
    requires
        forall|x: &'a mut V, y: &'a mut T, w: &'a mut T, z: &'a mut T2|
            #![trigger f.ensures((x,), y), g.ensures((w,), z)]
            f.ensures((x,), y) && &*w == &*y && &*final(w) == &*final(y) && g.ensures((w,), z)
                ==> h.ensures((x,), z),
        m.key_ref() == r.key_ref(),
        exists|x: &'a mut V, y: &'a mut T|
            *x == *r.value_ref() && *final(x) == *final(r.value_ref()) && f.ensures((x,), y)
                && &*y == &*m.value_ref() && &*final(y) == &*final(m.value_ref()),
        n.key_ref() == m.key_ref(),
        exists|x: &'a mut T, y: &'a mut T2|
            &*x == &*m.value_ref() && &*final(x) == &*final(m.value_ref()) && g.ensures((x,), y)
                && &*y == &*n.value_ref() && &*final(y) == &*final(n.value_ref()),
    ensures
        n.key_ref() == r.key_ref(),
        exists|x: &'a mut V, y: &'a mut T2|
            *x == *r.value_ref() && *final(x) == *final(r.value_ref()) && h.ensures((x,), y)
                && &*y == &*n.value_ref() && &*final(y) == &*final(n.value_ref()),
{
    let (x, y) = choose|x: &'a mut V, y: &'a mut T|
        *x == *r.value_ref() && *final(x) == *final(r.value_ref()) && f.ensures((x,), y)
            && &*y == &*m.value_ref() && &*final(y) == &*final(m.value_ref());
    let (w, z) = choose|w: &'a mut T, z: &'a mut T2|
        &*w == &*m.value_ref() && &*final(w) == &*final(m.value_ref()) && g.ensures((w,), z)
            && &*z == &*n.value_ref() && &*final(z) == &*final(n.value_ref());
    assert(f.ensures((x,), y) && g.ensures((w,), z));
    assert(h.ensures((x,), z));
}

/// Splitting a write reference with a function that cuts the value into two
/// disjoint parts (the value ends as `join` of what the two parts end with):
/// the entry then ends as `join` of what the two halves end with, so a write
/// through one half lands in its own part and nowhere else.
pub proof fn lemma_split_halves_disjoint<'a, K, V, A: ?Sized, B: ?Sized, F>(
    r: RefMut<'a, K, V>,
    f: F,
    join: spec_fn(&A, &B) -> V,
    a: RefMutMulti<'a, K, A>,
    b: RefMutMulti<'a, K, B>,
)
    where
        F: FnOnce(&'a mut V) -> (&'a mut A, &'a mut B),
    requires
        forall|x: &'a mut V, p: &'a mut A, q: &'a mut B|
            #[trigger] f.ensures((x,), (p, q)) ==> *final(x) == join(&*final(p), &*final(q)),
        exists|x: &'a mut V, p: &'a mut A, q: &'a mut B|
            *x == *r.value_ref() && *final(x) == *final(r.value_ref()) && f.ensures(
                (x,),
                (p, q),
            ) && &*p == &*a.value_ref() && &*final(p) == &*final(a.value_ref()) && &*q
                == &*b.value_ref() && &*final(q) == &*final(b.value_ref()),
    ensures
        *final(r.value_ref()) == join(&*final(a.value_ref()), &*final(b.value_ref())),
{
    let (x, p, q) = choose|x: &'a mut V, p: &'a mut A, q: &'a mut B|
        *x == *r.value_ref() && *final(x) == *final(r.value_ref()) && f.ensures((x,), (p, q))
            && &*p == &*a.value_ref() && &*final(p) == &*final(a.value_ref()) && &*q
            == &*b.value_ref() && &*final(q) == &*final(b.value_ref());
    assert(f.ensures((x,), (p, q)));
}

/// A write reference that has been given up leaves in the entry what it held
/// last: nothing can change the value through it any more.
pub broadcast proof fn lemma_ref_mut_given_up<'a, K, V>(r: RefMut<'a, K, V>)
    requires
        #[trigger] has_resolved(r),
    ensures
        *final(r.value_ref()) == *r.value_ref(),
{
}

/// A projected write reference that has been given up leaves in its part of
/// the entry what it held last.
pub broadcast proof fn lemma_mapped_ref_mut_given_up<'a, K, T: ?Sized>(r: MappedRefMut<'a, K, T>)
    requires
        #[trigger] has_resolved(r),
    ensures
        &*final(r.value_ref()) == &*r.value_ref(),
{
}

impl<'a, K, V> core::ops::Deref for Ref<'a, K, V> {
    type Target = V;

    fn deref(&self) -> (r: &V)
        ensures
            r == self.value_ref(),
    {
        self.value()
    }
}

impl<'a, K, V> core::ops::Deref for RefMut<'a, K, V> {
    type Target = V;

    fn deref(&self) -> (r: &V)
        ensures
            *r == *self.value_ref(),
    {
        self.value()
    }
}

impl<'a, K, V> core::ops::DerefMut for RefMut<'a, K, V> {
    fn deref_mut(&mut self) -> (r: &mut V)
        ensures
            *r == *old(self).value_ref(),
            *final(self).value_ref() == *final(r),
            *final(final(self).value_ref()) == *final(old(self).value_ref()),
            final(self).key_ref() == old(self).key_ref(),
    {
        self.value_mut()
    }
}

impl<'a, K, T: ?Sized> core::ops::Deref for MappedRef<'a, K, T> {
    type Target = T;

    fn deref(&self) -> (r: &T)
        ensures
            r == self.value_ref(),
    {
        self.value()
    }
}

impl<'a, K, T: ?Sized> core::ops::Deref for MappedRefMut<'a, K, T> {
    type Target = T;

    fn deref(&self) -> (r: &T)
        ensures
            &*r == &*self.value_ref(),
    {
        self.value()
    }
}

impl<'a, K, T: ?Sized> core::ops::DerefMut for MappedRefMut<'a, K, T> {
    fn deref_mut(&mut self) -> (r: &mut T)
        ensures
            &*r == &*old(self).value_ref(),
            &*final(self).value_ref() == &*final(r),
            &*final(final(self).value_ref()) == &*final(old(self).value_ref()),
            final(self).key_ref() == old(self).key_ref(),
    {
        self.value_mut()
    }
}

} // verus!
