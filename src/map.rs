//! Accessors for map fields: key-unique mappings.

use vstd::prelude::*;
use std::collections::HashMap;
use std::hash::Hash;
use std::marker::PhantomData;
use vstd::std_specs::hash::{obeys_key_model, spec_keys_iter};
use crate::projector::{read_ref, ref_read_seen, reads_ref_as, is_ref_reader};

verus! {

broadcast use vstd::std_specs::hash::group_hash_axioms;

/// A map field stored as a `HashMap`; inserting an existing key overwrites it.
pub struct MapAccessor<M, K, V, G, U> {
    pub get_map: G,
    pub mut_map: U,
    pub marker: PhantomData<(M, K, V)>,
}

impl<
    M,
    K: Eq + Hash,
    V,
    G: Fn(&M) -> &HashMap<K, V>,
    U: Fn(&mut M) -> &mut HashMap<K, V>,
> MapAccessor<M, K, V, G, U> {
    /// The read projector is a function of the message, and keys hash and
    /// compare as their values do.
    pub open spec fn wf(&self) -> bool {
        is_ref_reader(self.get_map) && obeys_key_model::<K>()
    }

    /// The entries of the field of `m`.
    pub open spec fn entries(&self, m: M) -> Map<K, V> {
        read_ref(self.get_map, m)@
    }

    /// `m` has been read through the read projector.
    pub open spec fn readable(&self, m: M) -> bool {
        ref_read_seen(self.get_map, m)
    }

    /// A read-only view of the entries of `m`.
    pub fn get_field<'a>(&self, m: &'a M) -> (r: &'a HashMap<K, V>)
        requires
            self.wf(),
        ensures
            self.readable(*m),
            r@ == self.entries(*m),
    {
        (self.get_map)(m)
    }

    /// The number of entries of `m`.
    pub fn len(&self, m: &M) -> (r: usize)
        requires
            self.wf(),
        ensures
            self.readable(*m),
            r == self.entries(*m).len(),
    {
        (self.get_map)(m).len()
    }

    /// Whether `m` has an entry for `k`.
    pub fn contains(&self, m: &M, k: &K) -> (r: bool)
        requires
            self.wf(),
        ensures
            self.readable(*m),
            r == self.entries(*m).contains_key(*k),
    {
        (self.get_map)(m).contains_key(k)
    }

    /// The value of `m` under `k`, if there is one.
    pub fn lookup<'a>(&self, m: &'a M, k: &K) -> (r: Option<&'a V>) where K: 'a, V: 'a
        requires
            self.wf(),
        ensures
            self.readable(*m),
            match r {
                Some(v) => self.entries(*m).contains_key(*k) && *v == self.entries(*m)[*k],
                None => !self.entries(*m).contains_key(*k),
            },
    {
        (self.get_map)(m).get(k)
    }

    /// The keys of `m`, each once, in the map's own order.
    pub fn keys<'a>(&self, m: &'a M) -> (r: Vec<&'a K>) where K: 'a, V: 'a
        requires
            self.wf(),
        ensures
            self.readable(*m),
            r@.len() == self.entries(*m).dom().len(),
            r@.no_duplicates(),
            r@.unref().to_set() == self.entries(*m).dom(),
    {
        let map = (self.get_map)(m);
        let mut out: Vec<&'a K> = Vec::new();
        let ghost all = vstd::std_specs::iter::IteratorSpec::remaining(&spec_keys_iter(map));
        for k in it: map.keys()
            invariant
                it.seq() == all,
                out@ == all.take(it.index() as int),
        {
            out.push(k);
        }
        assert(out@ =~= all);
        out
    }

    /// Puts `v` under `k` in `m`, replacing any value that was there.
    pub fn insert(&self, m: &mut M, k: K, v: V)
        requires
            self.wf(),
            forall|n: &mut M| #[trigger] self.mut_map.requires((n,)),
            forall|n: &mut M, x: &mut HashMap<K, V>| #[trigger]
                self.mut_map.ensures((n,), x) ==> reads_ref_as(self.get_map, *n, *x)
                    && reads_ref_as(self.get_map, *final(n), *final(x)),
        ensures
            self.readable(*old(m)),
            self.readable(*final(m)) ==> self.entries(*final(m)) == self.entries(*old(m)).insert(
                k,
                v,
            ),
    {
        let _ = (self.get_map)(m);
        let x = (self.mut_map)(m);
        x.insert(k, v);
    }

    /// Removes the entry of `m` under `k`, if there is one.
    pub fn remove(&self, m: &mut M, k: &K)
        requires
            self.wf(),
            forall|n: &mut M| #[trigger] self.mut_map.requires((n,)),
            forall|n: &mut M, x: &mut HashMap<K, V>| #[trigger]
                self.mut_map.ensures((n,), x) ==> reads_ref_as(self.get_map, *n, *x)
                    && reads_ref_as(self.get_map, *final(n), *final(x)),
        ensures
            self.readable(*old(m)),
            self.readable(*final(m)) ==> self.entries(*final(m)) == self.entries(*old(m)).remove(
                *k,
            ),
    {
        let _ = (self.get_map)(m);
        let x = (self.mut_map)(m);
        x.remove(k);
    }
}

/// Builds the accessor of a map field stored as a `HashMap`.
pub fn make_map_accessor<M, K, V, G, U>(get_map: G, mut_map: U) -> (r: MapAccessor<M, K, V, G, U>) where
    K: Eq + Hash,
    G: Fn(&M) -> &HashMap<K, V>,
    U: Fn(&mut M) -> &mut HashMap<K, V>,

    ensures
        r.get_map == get_map,
        r.mut_map == mut_map,
{
    MapAccessor { get_map, mut_map, marker: PhantomData }
}


/// After inserting `v` under `k`, looking `k` up yields `v`, and inserting
/// `w` under `k` again overwrites it without adding an entry.
pub proof fn lemma_insert_lookup_overwrite<M, K, V, G, U>(
    a: MapAccessor<M, K, V, G, U>,
    m0: M,
    m1: M,
    m2: M,
    k: K,
    v: V,
    w: V,
) where K: Eq + Hash, G: Fn(&M) -> &HashMap<K, V>, U: Fn(&mut M) -> &mut HashMap<K, V>
    requires
        a.entries(m0).dom().finite(),
        a.entries(m1) == a.entries(m0).insert(k, v),
        a.entries(m2) == a.entries(m1).insert(k, w),
    ensures
        a.entries(m1).contains_key(k),
        a.entries(m1)[k] == v,
        a.entries(m2)[k] == w,
        a.entries(m2).len() == a.entries(m1).len(),
        a.entries(m2).dom() == a.entries(m1).dom(),
{
    assert(a.entries(m2).dom() =~= a.entries(m1).dom());
}

/// Inserting under `k1` and then `k2` into an empty map field leaves
/// exactly the key set `{k1, k2}`, with the later value winning on equal keys.
pub proof fn lemma_inserted_key_set<M, K, V, G, U>(
    a: MapAccessor<M, K, V, G, U>,
    m0: M,
    m1: M,
    m2: M,
    k1: K,
    v1: V,
    k2: K,
    v2: V,
) where K: Eq + Hash, G: Fn(&M) -> &HashMap<K, V>, U: Fn(&mut M) -> &mut HashMap<K, V>
    requires
        a.entries(m0).len() == 0,
        a.entries(m0).dom().finite(),
        a.entries(m1) == a.entries(m0).insert(k1, v1),
        a.entries(m2) == a.entries(m1).insert(k2, v2),
    ensures
        a.entries(m2).dom() == set![k1, k2],
        a.entries(m2)[k2] == v2,
        k1 != k2 ==> a.entries(m2)[k1] == v1,
{
    assert(a.entries(m0).dom() =~= Set::<K>::empty());
    assert(a.entries(m2).dom() =~= set![k1, k2]);
}

} // verus!
