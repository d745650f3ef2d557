//! What an accessor assumes of the projector closures that reach its field.
//!
//! A projector is known only through its `ensures`: the value of a field in a
//! message is what a read through the projector yields ([`read`]), and it is
//! pinned down once such a read has happened ([`read_seen`]). A write through
//! a projector is described by what every later read yields ([`reads_as`]).

use vstd::prelude::*;

verus! {

/// What the by-value projector `g` yields on `m`.
pub open spec fn read<M, V, G: Fn(&M) -> V>(g: G, m: M) -> V {
    choose|v: V| g.ensures((&m,), v)
}

/// `g` can be called on every message and yields one value for each.
pub open spec fn is_reader<M, V, G: Fn(&M) -> V>(g: G) -> bool {
    &&& forall|m: &M| #[trigger] g.requires((m,))
    &&& forall|m: &M, v: V| #[trigger] g.ensures((m,), v) ==> v == read(g, *m)
}

/// A read of `m` through `g` has yielded [`read`] of it.
pub open spec fn read_seen<M, V, G: Fn(&M) -> V>(g: G, m: M) -> bool {
    g.ensures((&m,), read(g, m))
}

/// Every read of `m` through `g` yields `v`.
pub open spec fn reads_as<M, V, G: Fn(&M) -> V>(g: G, m: M, v: V) -> bool {
    forall|w: V| #[trigger] g.ensures((&m,), w) ==> w == v
}

/// What the borrowing projector `g` points at in `m`.
pub open spec fn read_ref<M, V, G: Fn(&M) -> &V>(g: G, m: M) -> V {
    *choose|v: &V| g.ensures((&m,), v)
}

/// `g` can be called on every message and points at one value for each.
pub open spec fn is_ref_reader<M, V, G: Fn(&M) -> &V>(g: G) -> bool {
    &&& forall|m: &M| #[trigger] g.requires((m,))
    &&& forall|m: &M, v: &V| #[trigger] g.ensures((m,), v) ==> *v == read_ref(g, *m)
}

/// A read of `m` through `g` has pointed at [`read_ref`] of it.
pub open spec fn ref_read_seen<M, V, G: Fn(&M) -> &V>(g: G, m: M) -> bool {
    g.ensures((&m,), &read_ref(g, m))
}

/// Every read of `m` through `g` points at `v`.
pub open spec fn reads_ref_as<M, V, G: Fn(&M) -> &V>(g: G, m: M, v: V) -> bool {
    forall|w: &V| #[trigger] g.ensures((&m,), w) ==> *w == v
}

} // verus!
