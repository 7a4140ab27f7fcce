//! Guarded references into a lockable shard of a key/value map.
//!
//! A reference pairs a lock guard with a borrowed key and a borrowed value
//! that live inside the guarded shard. References can be projected onto a
//! part of their value (`map`, `try_map`) or split into two references that
//! share the guard (`map_split`), and a mutable reference can be downgraded
//! to a read-only one without giving up the lock.
use vstd::prelude::*;

pub mod lock;
pub mod mapref;
pub mod shard;

verus! {

/// Calls `f` on `a`, and hands back (as a ghost value) the very argument that
/// `f` received, so that callers can name it in their own proofs.
pub(crate) fn call_once<A, B, F: FnOnce(A) -> B>(f: F, a: A) -> (r: (B, Ghost<A>))
    requires
        f.requires((a,)),
    ensures
        f.ensures((a,), r.0),
        r.1@ == a,
{
    (f(a), Ghost(a))
}

/// What the write references leave in their entry once they are given up.
pub broadcast group group_given_up {
    mapref::one::lemma_ref_mut_given_up,
    mapref::one::lemma_mapped_ref_mut_given_up,
    mapref::multiple::lemma_ref_mut_multi_given_up,
}

} // verus!
