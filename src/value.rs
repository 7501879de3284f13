use vstd::prelude::*;

use crate::error::KeyValueError;

verus! {

/// Data type tags of the host's variants that this library knows.
pub const DATA_TYPE_INT32: u16 = 2;
pub const DATA_TYPE_INT64: u16 = 3;
pub const DATA_TYPE_DOUBLE: u16 = 9;
pub const DATA_TYPE_BOOL: u16 = 10;
pub const DATA_TYPE_WSTRING: u16 = 21;
pub const DATA_TYPE_EMPTY: u16 = 255;

/// A value that the store holds. A double is kept as its IEEE-754 bit pattern.
#[derive(Debug)]
pub enum OwnedValue {
    I64(i64),
    F64(u64),
    Bool(bool),
    Str(String),
}

/// A value as the engine hands it back on a read: one of the supported
/// shapes, or another shape of the engine, given by its type tag.
#[derive(Debug)]
pub enum StoredValue {
    I64(i64),
    F64(u64),
    Bool(bool),
    Str(String),
    Other(u8),
}

/// A tagged value as callers exchange it with the store.
/// A double is kept as its IEEE-754 bit pattern.
#[derive(Debug)]
pub enum Variant {
    Int32(i32),
    Int64(i64),
    Double(u64),
    Bool(bool),
    WString(String),
    Empty,
    /// A value of a data type outside those above, given by its tag.
    Other(u16),
}

impl PartialEq for OwnedValue {
    fn eq(&self, o: &OwnedValue) -> (r: bool) {
        match (self, o) {
            (OwnedValue::I64(a), OwnedValue::I64(b)) => *a == *b,
            (OwnedValue::F64(a), OwnedValue::F64(b)) => *a == *b,
            (OwnedValue::Bool(a), OwnedValue::Bool(b)) => *a == *b,
            (OwnedValue::Str(a), OwnedValue::Str(b)) => a.eq(b),
            _ => false,
        }
    }
}

impl vstd::std_specs::cmp::PartialEqSpecImpl for OwnedValue {
    open spec fn obeys_eq_spec() -> bool {
        true
    }

    open spec fn eq_spec(&self, o: &OwnedValue) -> bool {
        match (*self, *o) {
            (OwnedValue::Str(a), OwnedValue::Str(b)) => a@ == b@,
            _ => *self == *o,
        }
    }
}

impl PartialEq for Variant {
    fn eq(&self, o: &Variant) -> (r: bool) {
        match (self, o) {
            (Variant::Int32(a), Variant::Int32(b)) => *a == *b,
            (Variant::Int64(a), Variant::Int64(b)) => *a == *b,
            (Variant::Double(a), Variant::Double(b)) => *a == *b,
            (Variant::Bool(a), Variant::Bool(b)) => *a == *b,
            (Variant::WString(a), Variant::WString(b)) => a.eq(b),
            (Variant::Empty, Variant::Empty) => true,
            (Variant::Other(a), Variant::Other(b)) => *a == *b,
            _ => false,
        }
    }
}

impl vstd::std_specs::cmp::PartialEqSpecImpl for Variant {
    open spec fn obeys_eq_spec() -> bool {
        true
    }

    open spec fn eq_spec(&self, o: &Variant) -> bool {
        match (*self, *o) {
            (Variant::WString(a), Variant::WString(b)) => a@ == b@,
            _ => *self == *o,
        }
    }
}

/// The data type tag of a variant.
pub open spec fn spec_data_type(v: Variant) -> u16 {
    match v {
        Variant::Int32(_) => DATA_TYPE_INT32,
        Variant::Int64(_) => DATA_TYPE_INT64,
        Variant::Double(_) => DATA_TYPE_DOUBLE,
        Variant::Bool(_) => DATA_TYPE_BOOL,
        Variant::WString(_) => DATA_TYPE_WSTRING,
        Variant::Empty => DATA_TYPE_EMPTY,
        Variant::Other(tag) => tag,
    }
}

/// What a write of `v` stores: an int32 is widened to 64 bits; any data type
/// but int32, double, bool and string is refused.
pub open spec fn spec_value_for_put(v: Variant) -> Result<OwnedValue, KeyValueError> {
    match v {
        Variant::Int32(n) => Ok(OwnedValue::I64(n as i64)),
        Variant::Double(d) => Ok(OwnedValue::F64(d)),
        Variant::Bool(b) => Ok(OwnedValue::Bool(b)),
        Variant::WString(s) => Ok(OwnedValue::Str(s)),
        _ => Err(KeyValueError::UnsupportedType(spec_data_type(v))),
    }
}

/// What the engine holds after a write of `v`.
pub open spec fn spec_stored_of(v: OwnedValue) -> StoredValue {
    match v {
        OwnedValue::I64(n) => StoredValue::I64(n),
        OwnedValue::F64(d) => StoredValue::F64(d),
        OwnedValue::Bool(b) => StoredValue::Bool(b),
        OwnedValue::Str(s) => StoredValue::Str(s),
    }
}

/// A value read from the engine, or an error for a shape outside the
/// supported set.
pub open spec fn spec_value_to_owned(raw: StoredValue) -> Result<OwnedValue, KeyValueError> {
    match raw {
        StoredValue::I64(n) => Ok(OwnedValue::I64(n)),
        StoredValue::F64(d) => Ok(OwnedValue::F64(d)),
        StoredValue::Bool(b) => Ok(OwnedValue::Bool(b)),
        StoredValue::Str(s) => Ok(OwnedValue::Str(s)),
        StoredValue::Other(_) => Err(KeyValueError::UnexpectedType),
    }
}

/// The variant handed to callers for a stored value.
pub open spec fn spec_variant_of(v: OwnedValue) -> Variant {
    match v {
        OwnedValue::I64(n) => Variant::Int64(n),
        OwnedValue::F64(d) => Variant::Double(d),
        OwnedValue::Bool(b) => Variant::Bool(b),
        OwnedValue::Str(s) => Variant::WString(s),
    }
}

/// A caller-supplied default: accepted when it is an int32, double, string,
/// bool or empty variant, refused otherwise.
pub open spec fn spec_into_variant(v: Variant) -> Result<Variant, KeyValueError> {
    match v {
        Variant::Int32(_) | Variant::Double(_) | Variant::WString(_) | Variant::Bool(_)
        | Variant::Empty => Ok(v),
        _ => Err(KeyValueError::UnsupportedType(spec_data_type(v))),
    }
}

impl Variant {
    pub fn data_type(&self) -> (r: u16)
        ensures
            r == spec_data_type(*self),
    {
        match self {
            Variant::Int32(_) => DATA_TYPE_INT32,
            Variant::Int64(_) => DATA_TYPE_INT64,
            Variant::Double(_) => DATA_TYPE_DOUBLE,
            Variant::Bool(_) => DATA_TYPE_BOOL,
            Variant::WString(_) => DATA_TYPE_WSTRING,
            Variant::Empty => DATA_TYPE_EMPTY,
            Variant::Other(tag) => *tag,
        }
    }

    /// A copy of the variant.
    pub fn duplicate(&self) -> (r: Variant)
        ensures
            r == *self,
    {
        match self {
            Variant::Int32(n) => Variant::Int32(*n),
            Variant::Int64(n) => Variant::Int64(*n),
            Variant::Double(d) => Variant::Double(*d),
            Variant::Bool(b) => Variant::Bool(*b),
            Variant::WString(s) => Variant::WString(s.clone()),
            Variant::Empty => Variant::Empty,
            Variant::Other(tag) => Variant::Other(*tag),
        }
    }
}

impl OwnedValue {
    /// A copy of the value.
    pub fn duplicate(&self) -> (r: OwnedValue)
        ensures
            r == *self,
    {
        match self {
            OwnedValue::I64(n) => OwnedValue::I64(*n),
            OwnedValue::F64(d) => OwnedValue::F64(*d),
            OwnedValue::Bool(b) => OwnedValue::Bool(*b),
            OwnedValue::Str(s) => OwnedValue::Str(s.clone()),
        }
    }

    /// The form in which the engine is asked to store this value.
    pub fn to_stored(&self) -> (r: StoredValue)
        ensures
            r == spec_stored_of(*self),
    {
        match self {
            OwnedValue::I64(n) => StoredValue::I64(*n),
            OwnedValue::F64(d) => StoredValue::F64(*d),
            OwnedValue::Bool(b) => StoredValue::Bool(*b),
            OwnedValue::Str(s) => StoredValue::Str(s.clone()),
        }
    }

    /// The variant handed to callers for this value.
    pub fn into_variant(&self) -> (r: Variant)
        ensures
            r == spec_variant_of(*self),
    {
        match self {
            OwnedValue::I64(n) => Variant::Int64(*n),
            OwnedValue::F64(d) => Variant::Double(*d),
            OwnedValue::Bool(b) => Variant::Bool(*b),
            OwnedValue::Str(s) => Variant::WString(s.clone()),
        }
    }
}

/// Turns a caller's variant into the value that a write stores.
pub fn value_for_put(v: &Variant) -> (r: Result<OwnedValue, KeyValueError>)
    ensures
        r == spec_value_for_put(*v),
{
    match v {
        Variant::Int32(n) => Ok(OwnedValue::I64(*n as i64)),
        Variant::Double(d) => Ok(OwnedValue::F64(*d)),
        Variant::Bool(b) => Ok(OwnedValue::Bool(*b)),
        Variant::WString(s) => Ok(OwnedValue::Str(s.clone())),
        _ => Err(KeyValueError::UnsupportedType(v.data_type())),
    }
}

/// Turns what the engine returned into a value of the supported set.
pub fn value_to_owned(raw: &StoredValue) -> (r: Result<OwnedValue, KeyValueError>)
    ensures
        r == spec_value_to_owned(*raw),
{
    match raw {
        StoredValue::I64(n) => Ok(OwnedValue::I64(*n)),
        StoredValue::F64(d) => Ok(OwnedValue::F64(*d)),
        StoredValue::Bool(b) => Ok(OwnedValue::Bool(*b)),
        StoredValue::Str(s) => Ok(OwnedValue::Str(s.clone())),
        StoredValue::Other(_) => Err(KeyValueError::UnexpectedType),
    }
}

/// Checks a caller-supplied default variant.
pub fn into_variant(v: &Variant) -> (r: Result<Variant, KeyValueError>)
    ensures
        r == spec_into_variant(*v),
{
    match v {
        Variant::Int32(_) | Variant::Double(_) | Variant::WString(_) | Variant::Bool(_)
        | Variant::Empty => Ok(v.duplicate()),
        _ => Err(KeyValueError::UnsupportedType(v.data_type())),
    }
}

} // verus!
