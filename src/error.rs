use vstd::prelude::*;

verus! {

/// Errors of the general key-value store.
#[derive(Debug, Clone, Copy, PartialEq, Eq, Structural)]
pub enum KeyValueError {
    /// The environment or a store could not be opened or created.
    Open,
    /// A write transaction failed to commit.
    Commit,
    /// The engine reported an error while reading or writing.
    Store,
    /// The stored value has another shape than the accessor asked for,
    /// or a shape outside the supported set.
    UnexpectedType,
    /// A caller supplied a variant whose data type is not supported.
    UnsupportedType(u16),
    /// A guarded section was abandoned while holding a lock.
    LockPoisoned,
    /// An enumerator was asked for an element after its last one.
    NoMoreElements,
}

/// Errors of the attribute store.
#[derive(Debug, Clone, Copy, PartialEq, Eq, Structural)]
pub enum XULStoreError {
    ConvertBytes,
    ConvertString,
    IoError,
    IterationFinished,
    JsonError,
    NulError,
    /// A host call failed with the given result code.
    Nsresult(u32),
    PoisonError,
    RkvStoreError,
    Unavailable,
    UnexpectedValue,
    /// A stored key does not split into exactly three parts.
    KeyDecode,
}

pub const NS_OK: u32 = 0;
pub const NS_ERROR_FAILURE: u32 = 0x80004005;
pub const NS_ERROR_UNEXPECTED: u32 = 0x8000ffff;
pub const NS_ERROR_NOT_AVAILABLE: u32 = 0x80040111;

/// The host result code that an attribute-store error maps to.
pub open spec fn spec_nsresult_of(e: XULStoreError) -> u32 {
    match e {
        XULStoreError::Nsresult(code) => code,
        XULStoreError::NulError => NS_ERROR_UNEXPECTED,
        XULStoreError::PoisonError => NS_ERROR_UNEXPECTED,
        XULStoreError::UnexpectedValue => NS_ERROR_UNEXPECTED,
        XULStoreError::KeyDecode => NS_ERROR_UNEXPECTED,
        XULStoreError::Unavailable => NS_ERROR_NOT_AVAILABLE,
        _ => NS_ERROR_FAILURE,
    }
}

impl XULStoreError {
    pub fn nsresult(&self) -> (r: u32)
        ensures
            r == spec_nsresult_of(*self),
    {
        match self {
            XULStoreError::Nsresult(code) => *code,
            XULStoreError::NulError => NS_ERROR_UNEXPECTED,
            XULStoreError::PoisonError => NS_ERROR_UNEXPECTED,
            XULStoreError::UnexpectedValue => NS_ERROR_UNEXPECTED,
            XULStoreError::KeyDecode => NS_ERROR_UNEXPECTED,
            XULStoreError::Unavailable => NS_ERROR_NOT_AVAILABLE,
            _ => NS_ERROR_FAILURE,
        }
    }
}

/// The host result code of an attribute-store operation.
#[derive(Debug, Clone, Copy, PartialEq, Eq, Structural)]
pub struct XULStoreNsResult(pub u32);

impl XULStoreNsResult {
    pub fn from_result<T>(result: &Result<T, XULStoreError>) -> (r: XULStoreNsResult)
        ensures
            r.0 == match result {
                Ok(_) => NS_OK,
                Err(e) => spec_nsresult_of(*e),
            },
    {
        match result {
            Ok(_) => XULStoreNsResult(NS_OK),
            Err(e) => XULStoreNsResult(e.nsresult()),
        }
    }
}

} // verus!
