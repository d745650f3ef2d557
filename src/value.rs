//! The neutral value representation used where a field's static type is erased.

use vstd::prelude::*;

verus! {

/// A field value with its static type erased.
#[derive(Debug, PartialEq, Eq)]
pub enum ReflectValue {
    Bool(bool),
    I32(i32),
    I64(i64),
    U32(u32),
    U64(u64),
    Str(String),
    Bytes(Vec<u8>),
}

/// The mathematical content of a [`ReflectValue`].
pub enum ValueModel {
    Bool(bool),
    I32(i32),
    I64(i64),
    U32(u32),
    U64(u64),
    Str(Seq<char>),
    Bytes(Seq<u8>),
}

impl View for ReflectValue {
    type V = ValueModel;

    open spec fn view(&self) -> ValueModel {
        match self {
            ReflectValue::Bool(b) => ValueModel::Bool(*b),
            ReflectValue::I32(n) => ValueModel::I32(*n),
            ReflectValue::I64(n) => ValueModel::I64(*n),
            ReflectValue::U32(n) => ValueModel::U32(*n),
            ReflectValue::U64(n) => ValueModel::U64(*n),
            ReflectValue::Str(s) => ValueModel::Str(s@),
            ReflectValue::Bytes(b) => ValueModel::Bytes(b@),
        }
    }
}

/// A type that a message field can hold, convertible to and from [`ReflectValue`].
pub trait ProtobufValue: Sized {
    /// The erased form of `self`.
    spec fn erase(&self) -> ValueModel;

    /// Whether `v` is of this type's kind.
    spec fn is_kind(v: ValueModel) -> bool;

    /// The erased form of the type's default value.
    spec fn default_model() -> ValueModel;

    /// Converts to the erased form.
    fn to_value(&self) -> (r: ReflectValue)
        ensures
            r@ == self.erase(),
            Self::is_kind(r@),
    ;

    /// Converts back from the erased form; a value of another kind is a schema defect.
    fn from_value(v: ReflectValue) -> (r: Self)
        requires
            Self::is_kind(v@),
        ensures
            r.erase() == v@,
    ;

    /// The type's default value.
    fn default_value() -> (r: Self)
        ensures
            r.erase() == Self::default_model(),
    ;

    /// Whether `self` is the type's default value.
    fn is_default(&self) -> (r: bool)
        ensures
            r == (self.erase() == Self::default_model()),
    ;
}

impl ProtobufValue for bool {
    open spec fn erase(&self) -> ValueModel {
        ValueModel::Bool(*self)
    }

    open spec fn is_kind(v: ValueModel) -> bool {
        v is Bool
    }

    open spec fn default_model() -> ValueModel {
        ValueModel::Bool(false)
    }

    fn to_value(&self) -> (r: ReflectValue) {
        ReflectValue::Bool(*self)
    }

    fn from_value(v: ReflectValue) -> (r: Self) {
        match v {
            ReflectValue::Bool(b) => b,
            _ => false,
        }
    }

    fn default_value() -> (r: Self) {
        false
    }

    fn is_default(&self) -> (r: bool) {
        !*self
    }
}

impl ProtobufValue for i32 {
    open spec fn erase(&self) -> ValueModel {
        ValueModel::I32(*self)
    }

    open spec fn is_kind(v: ValueModel) -> bool {
        v is I32
    }

    open spec fn default_model() -> ValueModel {
        ValueModel::I32(0)
    }

    fn to_value(&self) -> (r: ReflectValue) {
        ReflectValue::I32(*self)
    }

    fn from_value(v: ReflectValue) -> (r: Self) {
        match v {
            ReflectValue::I32(n) => n,
            _ => 0,
        }
    }

    fn default_value() -> (r: Self) {
        0
    }

    fn is_default(&self) -> (r: bool) {
        *self == 0
    }
}

impl ProtobufValue for i64 {
    open spec fn erase(&self) -> ValueModel {
        ValueModel::I64(*self)
    }

    open spec fn is_kind(v: ValueModel) -> bool {
        v is I64
    }

    open spec fn default_model() -> ValueModel {
        ValueModel::I64(0)
    }

    fn to_value(&self) -> (r: ReflectValue) {
        ReflectValue::I64(*self)
    }

    fn from_value(v: ReflectValue) -> (r: Self) {
        match v {
            ReflectValue::I64(n) => n,
            _ => 0,
        }
    }

    fn default_value() -> (r: Self) {
        0
    }

    fn is_default(&self) -> (r: bool) {
        *self == 0
    }
}

impl ProtobufValue for u32 {
    open spec fn erase(&self) -> ValueModel {
        ValueModel::U32(*self)
    }

    open spec fn is_kind(v: ValueModel) -> bool {
        v is U32
    }

    open spec fn default_model() -> ValueModel {
        ValueModel::U32(0)
    }

    fn to_value(&self) -> (r: ReflectValue) {
        ReflectValue::U32(*self)
    }

    fn from_value(v: ReflectValue) -> (r: Self) {
        match v {
            ReflectValue::U32(n) => n,
            _ => 0,
        }
    }

    fn default_value() -> (r: Self) {
        0
    }

    fn is_default(&self) -> (r: bool) {
        *self == 0
    }
}

impl ProtobufValue for u64 {
    open spec fn erase(&self) -> ValueModel {
        ValueModel::U64(*self)
    }

    open spec fn is_kind(v: ValueModel) -> bool {
        v is U64
    }

    open spec fn default_model() -> ValueModel {
        ValueModel::U64(0)
    }

    fn to_value(&self) -> (r: ReflectValue) {
        ReflectValue::U64(*self)
    }

    fn from_value(v: ReflectValue) -> (r: Self) {
        match v {
            ReflectValue::U64(n) => n,
            _ => 0,
        }
    }

    fn default_value() -> (r: Self) {
        0
    }

    fn is_default(&self) -> (r: bool) {
        *self == 0
    }
}

impl ProtobufValue for String {
    open spec fn erase(&self) -> ValueModel {
        ValueModel::Str(self@)
    }

    open spec fn is_kind(v: ValueModel) -> bool {
        v is Str
    }

    open spec fn default_model() -> ValueModel {
        ValueModel::Str(Seq::empty())
    }

    fn to_value(&self) -> (r: ReflectValue) {
        ReflectValue::Str(self.clone())
    }

    fn from_value(v: ReflectValue) -> (r: Self) {
        match v {
            ReflectValue::Str(s) => s,
            _ => String::new(),
        }
    }

    fn default_value() -> (r: Self) {
        String::new()
    }

    fn is_default(&self) -> (r: bool) {
        let r = self.as_str().is_empty();
        proof {
            if !r {
                assert(self@.len() > 0);
                assert(ValueModel::Str(self@) != ValueModel::Str(Seq::<char>::empty()));
            } else {
                assert(self@ =~= Seq::<char>::empty());
            }
        }
        r
    }
}

impl ProtobufValue for Vec<u8> {
    open spec fn erase(&self) -> ValueModel {
        ValueModel::Bytes(self@)
    }

    open spec fn is_kind(v: ValueModel) -> bool {
        v is Bytes
    }

    open spec fn default_model() -> ValueModel {
        ValueModel::Bytes(Seq::empty())
    }

    fn to_value(&self) -> (r: ReflectValue) {
        let c = self.clone();
        assert(c@ =~= self@);
        ReflectValue::Bytes(c)
    }

    fn from_value(v: ReflectValue) -> (r: Self) {
        match v {
            ReflectValue::Bytes(b) => b,
            _ => Vec::new(),
        }
    }

    fn default_value() -> (r: Self) {
        Vec::new()
    }

    fn is_default(&self) -> (r: bool) {
        let r = self.len() == 0;
        proof {
            if !r {
                assert(ValueModel::Bytes(self@) != ValueModel::Bytes(Seq::<u8>::empty()));
            } else {
                assert(self@ =~= Seq::<u8>::empty());
            }
        }
        r
    }
}

} // verus!
