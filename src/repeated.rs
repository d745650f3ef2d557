//! Accessors for repeated fields: ordered, growable sequences.

use vstd::prelude::*;
use std::marker::PhantomData;
use crate::projector::{read_ref, ref_read_seen, reads_ref_as, is_ref_reader};

verus! {

/// A repeated field stored as a `Vec`, in insertion order, duplicates kept.
pub struct RepeatedAccessor<M, V, G, U> {
    pub get_vec: G,
    pub mut_vec: U,
    pub marker: PhantomData<(M, V)>,
}

impl<M, V, G: Fn(&M) -> &Vec<V>, U: Fn(&mut M) -> &mut Vec<V>> RepeatedAccessor<M, V, G, U> {
    /// The read projector is a function of the message.
    pub open spec fn wf(&self) -> bool {
        is_ref_reader(self.get_vec)
    }

    /// The elements of the field of `m`, in order.
    pub open spec fn elems(&self, m: M) -> Seq<V> {
        read_ref(self.get_vec, m)@
    }

    /// `m` has been read through the read projector.
    pub open spec fn readable(&self, m: M) -> bool {
        ref_read_seen(self.get_vec, m)
    }

    /// A read-only view of the elements of `m`.
    pub fn get_field<'a>(&self, m: &'a M) -> (r: &'a Vec<V>)
        requires
            self.wf(),
        ensures
            self.readable(*m),
            r@ == self.elems(*m),
    {
        (self.get_vec)(m)
    }

    /// The number of elements of `m`; a repeated field is present when it is not empty.
    pub fn len(&self, m: &M) -> (r: usize)
        requires
            self.wf(),
        ensures
            self.readable(*m),
            r == self.elems(*m).len(),
    {
        (self.get_vec)(m).len()
    }

    /// The elements of `m` for writing.
    pub fn get_mut<'a>(&self, m: &'a mut M) -> (r: &'a mut Vec<V>)
        requires
            self.wf(),
            forall|n: &mut M| #[trigger] self.mut_vec.requires((n,)),
            forall|n: &mut M, x: &mut Vec<V>| #[trigger]
                self.mut_vec.ensures((n,), x) ==> reads_ref_as(self.get_vec, *n, *x)
                    && reads_ref_as(self.get_vec, *final(n), *final(x)),
        ensures
            self.readable(*old(m)),
            r@ == self.elems(*old(m)),
            self.readable(*final(m)) ==> self.elems(*final(m)) == final(r)@,
    {
        let _ = (self.get_vec)(m);
        (self.mut_vec)(m)
    }

    /// Appends `v` to the elements of `m`.
    pub fn push(&self, m: &mut M, v: V)
        requires
            self.wf(),
            forall|n: &mut M| #[trigger] self.mut_vec.requires((n,)),
            forall|n: &mut M, x: &mut Vec<V>| #[trigger]
                self.mut_vec.ensures((n,), x) ==> reads_ref_as(self.get_vec, *n, *x)
                    && reads_ref_as(self.get_vec, *final(n), *final(x)),
        ensures
            self.readable(*old(m)),
            self.readable(*final(m)) ==> self.elems(*final(m)) == self.elems(*old(m)).push(v),
    {
        let _ = (self.get_vec)(m);
        let x = (self.mut_vec)(m);
        x.push(v);
    }

    /// Removes every element of `m`.
    pub fn clear(&self, m: &mut M)
        requires
            self.wf(),
            forall|n: &mut M| #[trigger] self.mut_vec.requires((n,)),
            forall|n: &mut M, x: &mut Vec<V>| #[trigger]
                self.mut_vec.ensures((n,), x) ==> reads_ref_as(self.get_vec, *final(n), *final(x)),
        ensures
            self.readable(*final(m)) ==> self.elems(*final(m)) == Seq::<V>::empty(),
    {
        let x = (self.mut_vec)(m);
        x.clear();
    }

    /// Replaces the element at `i` of `m` by `v`.
    pub fn set_at(&self, m: &mut M, i: usize, v: V)
        requires
            self.wf(),
            self.readable(*old(m)),
            i < self.elems(*old(m)).len(),
            forall|n: &mut M| #[trigger] self.mut_vec.requires((n,)),
            forall|n: &mut M, x: &mut Vec<V>| #[trigger]
                self.mut_vec.ensures((n,), x) ==> reads_ref_as(self.get_vec, *n, *x)
                    && reads_ref_as(self.get_vec, *final(n), *final(x)),
        ensures
            self.readable(*final(m)) ==> self.elems(*final(m)) == self.elems(*old(m)).update(
                i as int,
                v,
            ),
    {
        let x = (self.mut_vec)(m);
        x.set(i, v);
    }
}

/// Builds the accessor of a repeated field stored as a `Vec`.
pub fn make_vec_accessor<M, V, G, U>(get_vec: G, mut_vec: U) -> (r: RepeatedAccessor<M, V, G, U>) where
    G: Fn(&M) -> &Vec<V>,
    U: Fn(&mut M) -> &mut Vec<V>,

    ensures
        r.get_vec == get_vec,
        r.mut_vec == mut_vec,
{
    RepeatedAccessor { get_vec, mut_vec, marker: PhantomData }
}

/// Pushing `v1` then `v2` onto an empty repeated field leaves exactly
/// `[v1, v2]`, in that order; clearing afterwards leaves no element.
pub proof fn lemma_push_order_then_clear<M, V, G, U>(
    a: RepeatedAccessor<M, V, G, U>,
    m0: M,
    m1: M,
    m2: M,
    m3: M,
    v1: V,
    v2: V,
) where G: Fn(&M) -> &Vec<V>, U: Fn(&mut M) -> &mut Vec<V>
    requires
        a.elems(m0).len() == 0,
        a.elems(m1) == a.elems(m0).push(v1),
        a.elems(m2) == a.elems(m1).push(v2),
        a.elems(m3) == Seq::<V>::empty(),
    ensures
        a.elems(m2) == seq![v1, v2],
        a.elems(m2).len() == 2,
        a.elems(m2)[0] == v1,
        a.elems(m2)[1] == v2,
        a.elems(m3).len() == 0,
{
    assert(a.elems(m0) =~= Seq::<V>::empty());
    assert(a.elems(m2) =~= seq![v1, v2]);
}

} // verus!
