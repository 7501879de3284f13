//! The decisions of the transactional access layer. The caller runs the
//! engine's read or write transaction and hands over what it returned.

use vstd::prelude::*;

use crate::error::KeyValueError;
use crate::value::{
    into_variant, spec_into_variant, spec_stored_of, spec_value_for_put, spec_value_to_owned,
    spec_variant_of, OwnedValue, StoredValue, Variant,
};

verus! {

/// The key-value service, which opens databases by path and store name.
pub struct InitKeyValueService {}

impl InitKeyValueService {
    pub fn new() -> (r: InitKeyValueService) {
        InitKeyValueService {}
    }

    /// The name of the store to open in an environment: `None` for the
    /// default (unnamed) store, which an empty name selects.
    pub fn store_name(&self, name: String) -> (r: Option<String>)
        ensures
            name@.len() == 0 ==> r is None,
            name@.len() != 0 ==> r == Some(name),
    {
        if name.as_str().is_empty() {
            None
        } else {
            Some(name)
        }
    }
}

/// How the engine answered a request to delete a key.
#[derive(Debug, Clone, Copy, PartialEq, Eq, Structural)]
pub enum DeleteOutcome {
    Deleted,
    /// The key was not in the store.
    NotFound,
    /// Any other failure of the engine.
    Failed,
}

/// The result of a read of `key` that found `raw` (or nothing), with
/// `default` answered on a miss.
pub open spec fn spec_get(raw: Option<StoredValue>, default: Variant) -> Result<Variant, KeyValueError> {
    match raw {
        Some(v) => match spec_value_to_owned(v) {
            Ok(o) => Ok(spec_variant_of(o)),
            Err(e) => Err(e),
        },
        None => spec_into_variant(default),
    }
}

/// A typed read of an integer: the stored integer, the default on a miss,
/// and an error for any other shape.
pub open spec fn spec_get_int(raw: Option<StoredValue>, default_value: i64) -> Result<i64, KeyValueError> {
    match raw {
        Some(StoredValue::I64(n)) => Ok(n),
        Some(_) => Err(KeyValueError::UnexpectedType),
        None => Ok(default_value),
    }
}

/// A typed read of a double, by bit pattern.
pub open spec fn spec_get_double(raw: Option<StoredValue>, default_value: u64) -> Result<u64, KeyValueError> {
    match raw {
        Some(StoredValue::F64(d)) => Ok(d),
        Some(_) => Err(KeyValueError::UnexpectedType),
        None => Ok(default_value),
    }
}

/// A typed read of a string.
pub open spec fn spec_get_string(raw: Option<StoredValue>, default_value: String) -> Result<String, KeyValueError> {
    match raw {
        Some(StoredValue::Str(s)) => Ok(s),
        Some(_) => Err(KeyValueError::UnexpectedType),
        None => Ok(default_value),
    }
}

/// A typed read of a boolean.
pub open spec fn spec_get_bool(raw: Option<StoredValue>, default_value: bool) -> Result<bool, KeyValueError> {
    match raw {
        Some(StoredValue::Bool(b)) => Ok(b),
        Some(_) => Err(KeyValueError::UnexpectedType),
        None => Ok(default_value),
    }
}

/// The engine's answer to a delete of `key` from a store holding `m`.
pub open spec fn spec_delete_outcome(m: Map<Seq<u8>, OwnedValue>, key: Seq<u8>) -> DeleteOutcome {
    if m.contains_key(key) {
        DeleteOutcome::Deleted
    } else {
        DeleteOutcome::NotFound
    }
}

pub open spec fn spec_delete(outcome: DeleteOutcome) -> Result<(), KeyValueError> {
    match outcome {
        DeleteOutcome::Failed => Err(KeyValueError::Store),
        _ => Ok(()),
    }
}

/// Reads a value of any supported shape; a miss answers the default, which
/// must itself have a supported data type.
pub fn get(raw: Option<StoredValue>, default_value: &Variant) -> (r: Result<Variant, KeyValueError>)
    ensures
        r == spec_get(raw, *default_value),
{
    match raw {
        Some(StoredValue::I64(n)) => Ok(Variant::Int64(n)),
        Some(StoredValue::F64(d)) => Ok(Variant::Double(d)),
        Some(StoredValue::Str(s)) => Ok(Variant::WString(s)),
        Some(StoredValue::Bool(b)) => Ok(Variant::Bool(b)),
        Some(StoredValue::Other(_)) => Err(KeyValueError::UnexpectedType),
        None => into_variant(default_value),
    }
}

/// Whether a read found the key.
pub fn has(raw: &Option<StoredValue>) -> (r: bool)
    ensures
        r == raw.is_some(),
{
    raw.is_some()
}

/// Reads an integer; a miss answers the default, any other shape fails.
pub fn get_int(raw: Option<StoredValue>, default_value: i64) -> (r: Result<i64, KeyValueError>)
    ensures
        r == spec_get_int(raw, default_value),
{
    match raw {
        Some(StoredValue::I64(n)) => Ok(n),
        Some(_) => Err(KeyValueError::UnexpectedType),
        None => Ok(default_value),
    }
}

/// Reads a double (as its bit pattern); a miss answers the default, any
/// other shape fails.
pub fn get_double(raw: Option<StoredValue>, default_value: u64) -> (r: Result<u64, KeyValueError>)
    ensures
        r == spec_get_double(raw, default_value),
{
    match raw {
        Some(StoredValue::F64(d)) => Ok(d),
        Some(_) => Err(KeyValueError::UnexpectedType),
        None => Ok(default_value),
    }
}

/// Reads a string; a miss answers the default, any other shape fails.
pub fn get_string(raw: Option<StoredValue>, default_value: String) -> (r: Result<String, KeyValueError>)
    ensures
        r == spec_get_string(raw, default_value),
{
    match raw {
        Some(StoredValue::Str(s)) => Ok(s),
        Some(_) => Err(KeyValueError::UnexpectedType),
        None => Ok(default_value),
    }
}

/// Reads a boolean; a miss answers the default, any other shape fails.
pub fn get_bool(raw: Option<StoredValue>, default_value: bool) -> (r: Result<bool, KeyValueError>)
    ensures
        r == spec_get_bool(raw, default_value),
{
    match raw {
        Some(StoredValue::Bool(b)) => Ok(b),
        Some(_) => Err(KeyValueError::UnexpectedType),
        None => Ok(default_value),
    }
}

/// Whether a delete goes on to commit. A key that was not there is no
/// error: deleting it is a successful no-op.
pub fn delete(outcome: DeleteOutcome) -> (r: Result<(), KeyValueError>)
    ensures
        r == spec_delete(outcome),
{
    match outcome {
        DeleteOutcome::Deleted => Ok(()),
        DeleteOutcome::NotFound => Ok(()),
        DeleteOutcome::Failed => Err(KeyValueError::Store),
    }
}

/// Writing a value and reading it back yields the same value, through the
/// general read and through the typed read of its shape.
pub proof fn lemma_put_get_round_trip(v: Variant, default_value: Variant, d: i64, dd: u64, ds: String, db: bool)
    requires
        spec_value_for_put(v) is Ok,
    ensures
        spec_value_to_owned(spec_stored_of(spec_value_for_put(v)->Ok_0))
            == Ok::<OwnedValue, KeyValueError>(spec_value_for_put(v)->Ok_0),
        spec_get(Some(spec_stored_of(spec_value_for_put(v)->Ok_0)), default_value)
            == Ok::<Variant, KeyValueError>(spec_variant_of(spec_value_for_put(v)->Ok_0)),
        v matches Variant::Int32(n) ==> spec_get_int(
            Some(spec_stored_of(spec_value_for_put(v)->Ok_0)), d) == Ok::<i64, KeyValueError>(n as i64),
        v matches Variant::Double(x) ==> spec_get_double(
            Some(spec_stored_of(spec_value_for_put(v)->Ok_0)), dd) == Ok::<u64, KeyValueError>(x),
        v matches Variant::WString(s) ==> spec_get_string(
            Some(spec_stored_of(spec_value_for_put(v)->Ok_0)), ds) == Ok::<String, KeyValueError>(s),
        v matches Variant::Bool(b) ==> spec_get_bool(
            Some(spec_stored_of(spec_value_for_put(v)->Ok_0)), db) == Ok::<bool, KeyValueError>(b),
{
}

/// A read of a key that is not there answers the caller's default.
pub proof fn lemma_default_on_miss(default_value: Variant, d: i64, dd: u64, ds: String, db: bool)
    ensures
        spec_get(None, default_value) == spec_into_variant(default_value),
        spec_get_int(None, d) == Ok::<i64, KeyValueError>(d),
        spec_get_double(None, dd) == Ok::<u64, KeyValueError>(dd),
        spec_get_string(None, ds) == Ok::<String, KeyValueError>(ds),
        spec_get_bool(None, db) == Ok::<bool, KeyValueError>(db),
{
}

/// A typed read of a value of another shape fails; it never converts.
pub proof fn lemma_type_mismatch(raw: StoredValue, d: i64, dd: u64, ds: String, db: bool)
    ensures
        !(raw is I64) ==> spec_get_int(Some(raw), d) == Err::<i64, KeyValueError>(KeyValueError::UnexpectedType),
        !(raw is F64) ==> spec_get_double(Some(raw), dd) == Err::<u64, KeyValueError>(KeyValueError::UnexpectedType),
        !(raw is Str) ==> spec_get_string(Some(raw), ds) == Err::<String, KeyValueError>(KeyValueError::UnexpectedType),
        !(raw is Bool) ==> spec_get_bool(Some(raw), db) == Err::<bool, KeyValueError>(KeyValueError::UnexpectedType),
{
}

/// Deleting a key succeeds whether or not it is there, and so does deleting
/// it again right after.
pub proof fn lemma_delete_idempotent(m: Map<Seq<u8>, OwnedValue>, key: Seq<u8>)
    ensures
        spec_delete(spec_delete_outcome(m, key)) is Ok,
        spec_delete(spec_delete_outcome(m.remove(key), key)) is Ok,
{
}

} // verus!
