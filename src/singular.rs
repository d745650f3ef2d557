//! Accessors for fields that hold at most one value.
//!
//! Each accessor reads and writes its field only through the projector
//! closures it was built from. A read method also records that the message
//! has been read (`readable`), which pins the field's value down; a write
//! method says what every later read yields.

use vstd::prelude::*;
use std::marker::PhantomData;
use crate::projector::{
    read, read_ref, read_seen, ref_read_seen, reads_as, reads_ref_as, is_reader, is_ref_reader,
};
use crate::value::{ProtobufValue, ReflectValue, ValueModel};

verus! {

/// The uniform read side of a singular field accessor: whatever the storage
/// shape, a field reports whether it is present and its value, erased.
pub trait SingularFieldAccessor<M> {
    /// The accessor's projectors are functions of the message.
    spec fn field_wf(&self) -> bool;

    /// `m` has been read through the accessor's projectors.
    spec fn field_readable(&self, m: M) -> bool;

    /// Whether the field counts as present in `m`.
    spec fn field_present(&self, m: M) -> bool;

    /// The erased value of the field of `m`.
    spec fn field_model(&self, m: M) -> ValueModel;

    /// Whether the field counts as present in `m`.
    fn has_field(&self, m: &M) -> (r: bool)
        requires
            self.field_wf(),
        ensures
            self.field_readable(*m),
            r == self.field_present(*m),
    ;

    /// The field's value in `m`, erased.
    fn get_field(&self, m: &M) -> (r: ReflectValue)
        requires
            self.field_wf(),
        ensures
            self.field_readable(*m),
            r@ == self.field_model(*m),
    ;
}

/// A scalar stored inline beside a presence flag; reads return a copy,
/// writes replace the value and mark it present.
pub struct SingularCopyHasGetSet<M, V, H, G, S> {
    pub has: H,
    pub get: G,
    pub set: S,
    pub marker: PhantomData<(M, V)>,
}

impl<M, V: ProtobufValue, H: Fn(&M) -> bool, G: Fn(&M) -> V, S: Fn(&mut M, V)> SingularCopyHasGetSet<
    M,
    V,
    H,
    G,
    S,
> {
    /// The presence and value projectors are functions of the message.
    pub open spec fn wf(&self) -> bool {
        is_reader(self.has) && is_reader(self.get)
    }

    /// Whether the field of `m` is present.
    pub open spec fn present(&self, m: M) -> bool {
        read(self.has, m)
    }

    /// The value of the field of `m`.
    pub open spec fn value(&self, m: M) -> V {
        read(self.get, m)
    }

    /// `m` has been read through both projectors.
    pub open spec fn readable(&self, m: M) -> bool {
        read_seen(self.has, m) && read_seen(self.get, m)
    }

    /// Replaces the field's value in `m` by `v` and marks it present.
    pub fn set_field(&self, m: &mut M, v: ReflectValue)
        requires
            self.wf(),
            V::is_kind(v@),
            forall|n: &mut M, x: V| #[trigger] self.set.requires((n, x)),
            forall|n: &mut M, x: V| #[trigger]
                self.set.ensures((n, x), ()) ==> reads_as(self.has, *final(n), true) && reads_as(
                    self.get,
                    *final(n),
                    x,
                ),
        ensures
            self.readable(*final(m)) ==> self.present(*final(m)) && self.value(*final(m)).erase()
                == v@,
    {
        let x = V::from_value(v);
        (self.set)(m, x);
    }
}

impl<M, V: ProtobufValue, H: Fn(&M) -> bool, G: Fn(&M) -> V, S: Fn(&mut M, V)> SingularFieldAccessor<M>
    for SingularCopyHasGetSet<M, V, H, G, S> {
    open spec fn field_wf(&self) -> bool {
        self.wf()
    }

    open spec fn field_readable(&self, m: M) -> bool {
        self.readable(m)
    }

    open spec fn field_present(&self, m: M) -> bool {
        self.present(m)
    }

    open spec fn field_model(&self, m: M) -> ValueModel {
        self.value(m).erase()
    }

    /// Whether the field is present in `m`.
    fn has_field(&self, m: &M) -> (r: bool) {
        let _ = (self.get)(m);
        (self.has)(m)
    }

    /// The field's value in `m`, erased.
    fn get_field(&self, m: &M) -> (r: ReflectValue) {
        let _ = (self.has)(m);
        let v = (self.get)(m);
        v.to_value()
    }
}

/// After `set_field` writes `v`, reading the message back through the
/// uniform interface reports the field present and holding `v`.
pub proof fn lemma_copy_set_then_read<M, V, H, G, S>(
    a: SingularCopyHasGetSet<M, V, H, G, S>,
    m: M,
    v: ValueModel,
) where V: ProtobufValue, H: Fn(&M) -> bool, G: Fn(&M) -> V, S: Fn(&mut M, V)
    requires
        a.readable(m) ==> a.present(m) && a.value(m).erase() == v,
        a.field_readable(m),
    ensures
        a.field_present(m),
        a.field_model(m) == v,
{
}

/// Builds the accessor of an explicitly present scalar field.
pub fn make_singular_copy_has_get_set_accessor<M, V, H, G, S>(has: H, get: G, set: S) -> (r:
    SingularCopyHasGetSet<M, V, H, G, S>) where
    V: ProtobufValue,
    H: Fn(&M) -> bool,
    G: Fn(&M) -> V,
    S: Fn(&mut M, V),

    ensures
        r.has == has,
        r.get == get,
        r.set == set,
{
    SingularCopyHasGetSet { has, get, set, marker: PhantomData }
}

/// A string or byte field stored inline beside a presence flag; reads
/// borrow the stored value, writes take an owned one and mark it present.
pub struct SingularHasGetSet<M, V, H, G, S> {
    pub has: H,
    pub get: G,
    pub set: S,
    pub marker: PhantomData<(M, V)>,
}

impl<M, V: ProtobufValue, H: Fn(&M) -> bool, G: Fn(&M) -> &V, S: Fn(&mut M, V)> SingularHasGetSet<
    M,
    V,
    H,
    G,
    S,
> {
    /// The presence and value projectors are functions of the message.
    pub open spec fn wf(&self) -> bool {
        is_reader(self.has) && is_ref_reader(self.get)
    }

    /// Whether the field of `m` is present.
    pub open spec fn present(&self, m: M) -> bool {
        read(self.has, m)
    }

    /// The value of the field of `m`.
    pub open spec fn value(&self, m: M) -> V {
        read_ref(self.get, m)
    }

    /// `m` has been read through both projectors.
    pub open spec fn readable(&self, m: M) -> bool {
        read_seen(self.has, m) && ref_read_seen(self.get, m)
    }

    /// The stored value, borrowed from `m`.
    pub fn get_ref<'a>(&self, m: &'a M) -> (r: &'a V)
        requires
            self.wf(),
        ensures
            self.readable(*m),
            *r == self.value(*m),
    {
        let _ = (self.has)(m);
        (self.get)(m)
    }

    /// Replaces the field's value in `m` by `v` and marks it present.
    pub fn set_field(&self, m: &mut M, v: ReflectValue)
        requires
            self.wf(),
            V::is_kind(v@),
            forall|n: &mut M, x: V| #[trigger] self.set.requires((n, x)),
            forall|n: &mut M, x: V| #[trigger]
                self.set.ensures((n, x), ()) ==> reads_as(self.has, *final(n), true)
                    && reads_ref_as(self.get, *final(n), x),
        ensures
            self.readable(*final(m)) ==> self.present(*final(m)) && self.value(*final(m)).erase()
                == v@,
    {
        let x = V::from_value(v);
        (self.set)(m, x);
    }
}

impl<M, V: ProtobufValue, H: Fn(&M) -> bool, G: Fn(&M) -> &V, S: Fn(&mut M, V)> SingularFieldAccessor<M>
    for SingularHasGetSet<M, V, H, G, S> {
    open spec fn field_wf(&self) -> bool {
        self.wf()
    }

    open spec fn field_readable(&self, m: M) -> bool {
        self.readable(m)
    }

    open spec fn field_present(&self, m: M) -> bool {
        self.present(m)
    }

    open spec fn field_model(&self, m: M) -> ValueModel {
        self.value(m).erase()
    }

    fn has_field(&self, m: &M) -> (r: bool) {
        let _ = (self.get)(m);
        (self.has)(m)
    }

    fn get_field(&self, m: &M) -> (r: ReflectValue) {
        let _ = (self.has)(m);
        let v = (self.get)(m);
        v.to_value()
    }
}

/// After `set_field` writes `v` to a string or bytes field, reading the
/// message back reports the field present and holding `v`.
pub proof fn lemma_has_get_set_then_read<M, V, H, G, S>(
    a: SingularHasGetSet<M, V, H, G, S>,
    m: M,
    v: ValueModel,
) where V: ProtobufValue, H: Fn(&M) -> bool, G: Fn(&M) -> &V, S: Fn(&mut M, V)
    requires
        a.readable(m) ==> a.present(m) && a.value(m).erase() == v,
        a.field_readable(m),
    ensures
        a.field_present(m),
        a.field_model(m) == v,
{
}

/// Builds the accessor of an explicitly present string field.
pub fn make_singular_string_has_get_set_accessor<M, H, G, S>(has: H, get: G, set: S) -> (r:
    SingularHasGetSet<M, String, H, G, S>) where
    H: Fn(&M) -> bool,
    G: Fn(&M) -> &String,
    S: Fn(&mut M, String),

    ensures
        r.has == has,
        r.get == get,
        r.set == set,
{
    SingularHasGetSet { has, get, set, marker: PhantomData }
}

/// Builds the accessor of an explicitly present bytes field.
pub fn make_singular_bytes_has_get_set_accessor<M, H, G, S>(has: H, get: G, set: S) -> (r:
    SingularHasGetSet<M, Vec<u8>, H, G, S>) where
    H: Fn(&M) -> bool,
    G: Fn(&M) -> &Vec<u8>,
    S: Fn(&mut M, Vec<u8>),

    ensures
        r.has == has,
        r.get == get,
        r.set == set,
{
    SingularHasGetSet { has, get, set, marker: PhantomData }
}

/// A field without presence tracking: it counts as present exactly when
/// its value differs from the type's default.
pub struct SimpleAccessor<M, V, G, U> {
    pub get_field: G,
    pub mut_field: U,
    pub marker: PhantomData<(M, V)>,
}

impl<M, V: ProtobufValue, G: Fn(&M) -> &V, U: Fn(&mut M) -> &mut V> SimpleAccessor<M, V, G, U> {
    /// The read projector is a function of the message.
    pub open spec fn wf(&self) -> bool {
        is_ref_reader(self.get_field)
    }

    /// The value of the field of `m`.
    pub open spec fn value(&self, m: M) -> V {
        read_ref(self.get_field, m)
    }

    /// `m` has been read through the read projector.
    pub open spec fn readable(&self, m: M) -> bool {
        ref_read_seen(self.get_field, m)
    }

    /// Replaces the field's value in `m` by `v`.
    pub fn set_field(&self, m: &mut M, v: ReflectValue)
        requires
            self.wf(),
            V::is_kind(v@),
            forall|n: &mut M| #[trigger] self.mut_field.requires((n,)),
            forall|n: &mut M, r: &mut V| #[trigger]
                self.mut_field.ensures((n,), r) ==> reads_ref_as(
                    self.get_field,
                    *final(n),
                    *final(r),
                ),
        ensures
            self.readable(*final(m)) ==> self.value(*final(m)).erase() == v@,
    {
        let x = V::from_value(v);
        let slot = (self.mut_field)(m);
        *slot = x;
    }
}

impl<M, V: ProtobufValue, G: Fn(&M) -> &V, U: Fn(&mut M) -> &mut V> SingularFieldAccessor<M>
    for SimpleAccessor<M, V, G, U> {
    open spec fn field_wf(&self) -> bool {
        self.wf()
    }

    open spec fn field_readable(&self, m: M) -> bool {
        self.readable(m)
    }

    open spec fn field_present(&self, m: M) -> bool {
        self.value(m).erase() != V::default_model()
    }

    open spec fn field_model(&self, m: M) -> ValueModel {
        self.value(m).erase()
    }

    /// Whether the field of `m` holds something other than the default.
    fn has_field(&self, m: &M) -> (r: bool) {
        !(self.get_field)(m).is_default()
    }

    /// The field's value in `m`, erased.
    fn get_field(&self, m: &M) -> (r: ReflectValue) {
        (self.get_field)(m).to_value()
    }
}

/// Builds the accessor of a field without presence tracking.
pub fn make_simple_field_accessor<M, V, G, U>(get_field: G, mut_field: U) -> (r: SimpleAccessor<
    M,
    V,
    G,
    U,
>) where V: ProtobufValue, G: Fn(&M) -> &V, U: Fn(&mut M) -> &mut V
    ensures
        r.get_field == get_field,
        r.mut_field == mut_field,
{
    SimpleAccessor { get_field, mut_field, marker: PhantomData }
}

/// A field without presence tracking is present exactly when its value
/// differs from the declared default; in particular never at the default.
pub proof fn lemma_simple_present_iff_not_default<M, V, G, U>(a: SimpleAccessor<M, V, G, U>, m: M) where
    V: ProtobufValue,
    G: Fn(&M) -> &V,
    U: Fn(&mut M) -> &mut V,

    ensures
        a.field_present(m) == (a.field_model(m) != V::default_model()),
        a.field_model(m) == V::default_model() ==> !a.field_present(m),
{
}

/// The erased value held in `o`; the type's default where it is empty.
pub open spec fn option_model<V: ProtobufValue>(o: Option<V>) -> ValueModel {
    match o {
        Some(v) => v.erase(),
        None => V::default_model(),
    }
}

/// A field whose presence is the presence of an optional container.
pub struct OptionAccessor<M, V, G, U> {
    pub get_field: G,
    pub mut_field: U,
    pub marker: PhantomData<(M, V)>,
}

impl<M, V: ProtobufValue, G: Fn(&M) -> &Option<V>, U: Fn(&mut M) -> &mut Option<V>> OptionAccessor<
    M,
    V,
    G,
    U,
> {
    /// The read projector is a function of the message.
    pub open spec fn wf(&self) -> bool {
        is_ref_reader(self.get_field)
    }

    /// The container of the field of `m`.
    pub open spec fn slot(&self, m: M) -> Option<V> {
        read_ref(self.get_field, m)
    }

    /// `m` has been read through the read projector.
    pub open spec fn readable(&self, m: M) -> bool {
        ref_read_seen(self.get_field, m)
    }

    /// Replaces the field's value in `m` by `v`, which makes it present.
    pub fn set_field(&self, m: &mut M, v: ReflectValue)
        requires
            self.wf(),
            V::is_kind(v@),
            forall|n: &mut M| #[trigger] self.mut_field.requires((n,)),
            forall|n: &mut M, r: &mut Option<V>| #[trigger]
                self.mut_field.ensures((n,), r) ==> reads_ref_as(
                    self.get_field,
                    *final(n),
                    *final(r),
                ),
        ensures
            self.readable(*final(m)) ==> self.slot(*final(m)) is Some && option_model(
                self.slot(*final(m)),
            ) == v@,
    {
        let x = V::from_value(v);
        let slot = (self.mut_field)(m);
        *slot = Some(x);
    }
}

impl<M, V: ProtobufValue, G: Fn(&M) -> &Option<V>, U: Fn(&mut M) -> &mut Option<V>> SingularFieldAccessor<M>
    for OptionAccessor<M, V, G, U> {
    open spec fn field_wf(&self) -> bool {
        self.wf()
    }

    open spec fn field_readable(&self, m: M) -> bool {
        self.readable(m)
    }

    open spec fn field_present(&self, m: M) -> bool {
        self.slot(m) is Some
    }

    open spec fn field_model(&self, m: M) -> ValueModel {
        option_model(self.slot(m))
    }

    /// Whether the field is present in `m`.
    fn has_field(&self, m: &M) -> (r: bool) {
        (self.get_field)(m).is_some()
    }

    /// The field's value in `m`, erased; the type's default where it is absent.
    fn get_field(&self, m: &M) -> (r: ReflectValue) {
        match (self.get_field)(m) {
            Some(v) => v.to_value(),
            None => V::default_value().to_value(),
        }
    }
}

/// Builds the accessor of a field held in an `Option`.
pub fn make_option_accessor<M, V, G, U>(get_field: G, mut_field: U) -> (r: OptionAccessor<
    M,
    V,
    G,
    U,
>) where V: ProtobufValue, G: Fn(&M) -> &Option<V>, U: Fn(&mut M) -> &mut Option<V>
    ensures
        r.get_field == get_field,
        r.mut_field == mut_field,
{
    OptionAccessor { get_field, mut_field, marker: PhantomData }
}

/// A submessage held behind a unique-ownership pointer, absent until first
/// written; used where the field's type is recursive or large.
pub struct SingularPtrFieldAccessor<M, F, G, U> {
    pub get_field: G,
    pub mut_field: U,
    pub marker: PhantomData<(M, F)>,
}

impl<M, F: Default, G: Fn(&M) -> &Option<Box<F>>, U: Fn(&mut M) -> &mut Option<Box<F>>> SingularPtrFieldAccessor<
    M,
    F,
    G,
    U,
> {
    /// The read projector is a function of the message.
    pub open spec fn wf(&self) -> bool {
        is_ref_reader(self.get_field)
    }

    /// The slot of the field of `m`.
    pub open spec fn slot(&self, m: M) -> Option<Box<F>> {
        read_ref(self.get_field, m)
    }

    /// `m` has been read through the read projector.
    pub open spec fn readable(&self, m: M) -> bool {
        ref_read_seen(self.get_field, m)
    }

    /// Whether a submessage is present in `m`.
    pub fn has_field(&self, m: &M) -> (r: bool)
        requires
            self.wf(),
        ensures
            self.readable(*m),
            r == self.slot(*m) is Some,
    {
        (self.get_field)(m).is_some()
    }

    /// The submessage of `m`, or `None` where it is absent.
    pub fn get_field<'a>(&self, m: &'a M) -> (r: Option<&'a F>)
        requires
            self.wf(),
        ensures
            self.readable(*m),
            match self.slot(*m) {
                Some(b) => r == Some(&*b),
                None => r is None,
            },
    {
        match (self.get_field)(m) {
            Some(b) => Some(&**b),
            None => None,
        }
    }

    /// The submessage of `m` for writing; a default one is put in first
    /// where none is present, and the field is present afterwards.
    pub fn get_mut<'a>(&self, m: &'a mut M) -> (r: &'a mut F)
        requires
            self.wf(),
            forall|n: &mut M| #[trigger] self.mut_field.requires((n,)),
            forall|n: &mut M, s: &mut Option<Box<F>>| #[trigger]
                self.mut_field.ensures((n,), s) ==> reads_ref_as(self.get_field, *n, *s)
                    && reads_ref_as(self.get_field, *final(n), *final(s)),
        ensures
            self.readable(*old(m)),
            match self.slot(*old(m)) {
                Some(b) => *r == *b,
                None => true,
            },
            self.readable(*final(m)) ==> self.slot(*final(m)) == Some(Box::new(*final(r))),
    {
        let _ = (self.get_field)(m);
        let slot = (self.mut_field)(m);
        if slot.is_none() {
            *slot = Some(Box::new(F::default()));
        }
        match slot {
            Some(b) => &mut **b,
            None => unreached(),
        }
    }

    /// Replaces the submessage of `m` by `v`, which makes it present.
    pub fn set_field(&self, m: &mut M, v: F)
        requires
            self.wf(),
            forall|n: &mut M| #[trigger] self.mut_field.requires((n,)),
            forall|n: &mut M, s: &mut Option<Box<F>>| #[trigger]
                self.mut_field.ensures((n,), s) ==> reads_ref_as(
                    self.get_field,
                    *final(n),
                    *final(s),
                ),
        ensures
            self.readable(*final(m)) ==> self.slot(*final(m)) == Some(Box::new(v)),
    {
        let slot = (self.mut_field)(m);
        *slot = Some(Box::new(v));
    }
}

/// A submessage slot that reads as empty reports the field absent; once
/// `get_mut` has handed out `sub`, the field reads present and `get_field`
/// yields that same submessage.
pub proof fn lemma_ptr_get_mut_then_get<M, F, G, U>(
    a: SingularPtrFieldAccessor<M, F, G, U>,
    fresh: M,
    after: M,
    sub: F,
) where F: Default, G: Fn(&M) -> &Option<Box<F>>, U: Fn(&mut M) -> &mut Option<Box<F>>
    requires
        a.slot(fresh) is None,
        a.readable(after) ==> a.slot(after) == Some(Box::new(sub)),
        a.readable(after),
    ensures
        !(a.slot(fresh) is Some),
        a.slot(after) is Some,
        match a.slot(after) {
            Some(b) => *b == sub,
            None => false,
        },
{
}

/// Builds the accessor of a submessage field held behind a pointer.
pub fn make_singular_ptr_field_accessor<M, F, G, U>(get_field: G, mut_field: U) -> (r:
    SingularPtrFieldAccessor<M, F, G, U>) where
    F: Default,
    G: Fn(&M) -> &Option<Box<F>>,
    U: Fn(&mut M) -> &mut Option<Box<F>>,

    ensures
        r.get_field == get_field,
        r.mut_field == mut_field,
{
    SingularPtrFieldAccessor { get_field, mut_field, marker: PhantomData }
}

/// A submessage stored inline beside a presence flag. Reading an absent one
/// yields nothing; the write projector creates it on first use and marks it
/// present.
pub struct SingularMessageHasGetMutSet<M, F, H, G, U, S> {
    pub has: H,
    pub get: G,
    pub mut_field: U,
    pub set: S,
    pub marker: PhantomData<(M, F)>,
}

impl<
    M,
    F,
    H: Fn(&M) -> bool,
    G: Fn(&M) -> &F,
    U: Fn(&mut M) -> &mut F,
    S: Fn(&mut M, F),
> SingularMessageHasGetMutSet<M, F, H, G, U, S> {
    /// The presence and read projectors are functions of the message.
    pub open spec fn wf(&self) -> bool {
        is_reader(self.has) && is_ref_reader(self.get)
    }

    /// Whether the submessage of `m` is present.
    pub open spec fn present(&self, m: M) -> bool {
        read(self.has, m)
    }

    /// The submessage of `m` as read.
    pub open spec fn value(&self, m: M) -> F {
        read_ref(self.get, m)
    }

    /// `m` has been read through both projectors.
    pub open spec fn readable(&self, m: M) -> bool {
        read_seen(self.has, m) && ref_read_seen(self.get, m)
    }

    /// Whether the submessage is present in `m`.
    pub fn has_field(&self, m: &M) -> (r: bool)
        requires
            self.wf(),
        ensures
            self.readable(*m),
            r == self.present(*m),
    {
        let _ = (self.get)(m);
        (self.has)(m)
    }

    /// The submessage of `m`, or `None` where it is absent.
    pub fn get_field<'a>(&self, m: &'a M) -> (r: Option<&'a F>)
        requires
            self.wf(),
        ensures
            self.readable(*m),
            self.present(*m) ==> r == Some(&self.value(*m)),
            !self.present(*m) ==> r is None,
    {
        let v = (self.get)(m);
        if (self.has)(m) {
            Some(v)
        } else {
            None
        }
    }

    /// The submessage of `m` for writing; present afterwards.
    pub fn get_mut<'a>(&self, m: &'a mut M) -> (r: &'a mut F)
        requires
            self.wf(),
            forall|n: &mut M| #[trigger] self.mut_field.requires((n,)),
            forall|n: &mut M, x: &mut F| #[trigger]
                self.mut_field.ensures((n,), x) ==> reads_as(self.has, *final(n), true)
                    && reads_ref_as(self.get, *final(n), *final(x)),
        ensures
            self.readable(*final(m)) ==> self.present(*final(m)) && self.value(*final(m))
                == *final(r),
    {
        (self.mut_field)(m)
    }

    /// Replaces the submessage of `m` by `v`, which makes it present.
    pub fn set_field(&self, m: &mut M, v: F)
        requires
            self.wf(),
            forall|n: &mut M, x: F| #[trigger] self.set.requires((n, x)),
            forall|n: &mut M, x: F| #[trigger]
                self.set.ensures((n, x), ()) ==> reads_as(self.has, *final(n), true)
                    && reads_ref_as(self.get, *final(n), x),
        ensures
            self.readable(*final(m)) ==> self.present(*final(m)) && self.value(*final(m)) == v,
    {
        (self.set)(m, v)
    }
}

/// Builds the accessor of a submessage field stored inline.
pub fn make_singular_message_has_get_mut_set_accessor<M, F, H, G, U, S>(
    has: H,
    get: G,
    mut_field: U,
    set: S,
) -> (r: SingularMessageHasGetMutSet<M, F, H, G, U, S>) where
    H: Fn(&M) -> bool,
    G: Fn(&M) -> &F,
    U: Fn(&mut M) -> &mut F,
    S: Fn(&mut M, F),

    ensures
        r.has == has,
        r.get == get,
        r.mut_field == mut_field,
        r.set == set,
{
    SingularMessageHasGetMutSet { has, get, mut_field, set, marker: PhantomData }
}

} // verus!
