//! The attribute store's own logic: reading values, rebuilding the snapshot
//! from a full scan, and the writes that migrate legacy data.

use vstd::prelude::*;

use crate::cache::{XulData, XulEntry};
use crate::error::XULStoreError;
use crate::key::{join3, make_key, spec_split_key, split_key};
use crate::value::StoredValue;
use vstd::utf8::valid_utf8;

verus! {

/// An attribute value as stored: a string, or nothing, which reads as the
/// empty string. Any other shape is an error.
pub open spec fn spec_unwrap_value(raw: Option<StoredValue>) -> Result<Seq<char>, XULStoreError> {
    match raw {
        Some(StoredValue::Str(s)) => Ok(s@),
        None => Ok(Seq::<char>::empty()),
        Some(_) => Err(XULStoreError::UnexpectedValue),
    }
}

pub fn unwrap_value(raw: &Option<StoredValue>) -> (r: Result<String, XULStoreError>)
    ensures
        match spec_unwrap_value(*raw) {
            Ok(s) => r matches Ok(v) && v@ == s,
            Err(e) => r == Err::<String, XULStoreError>(e),
        },
{
    match raw {
        Some(StoredValue::Str(s)) => Ok(s.clone()),
        None => Ok(String::new()),
        Some(_) => Err(XULStoreError::UnexpectedValue),
    }
}

/// Relies on std::str::from_utf8, which fails exactly on bytes that are not
/// well-formed UTF-8.
#[verifier::external_body]
fn is_utf8(bytes: &[u8]) -> (r: bool)
    ensures
        r == valid_utf8(bytes@),
{
    std::str::from_utf8(bytes).is_ok()
}

/// What one scanned entry contributes to the snapshot.
pub open spec fn spec_decode_entry(e: (Vec<u8>, Option<StoredValue>)) -> Result<
    ((Seq<u8>, Seq<u8>, Seq<u8>), Seq<char>),
    XULStoreError,
> {
    if !valid_utf8(e.0@) {
        Err(XULStoreError::ConvertBytes)
    } else {
        match spec_unwrap_value(e.1) {
            Err(err) => Err(err),
            Ok(v) => match spec_split_key(e.0@) {
                None => Err(XULStoreError::KeyDecode),
                Some(t) => Ok((t, v)),
            },
        }
    }
}

/// The snapshot of a scan, in scan order: the first entry for a key wins,
/// and the first entry that fails to decode fails the whole scan. A key must
/// be UTF-8 and its value a string.
pub open spec fn spec_data_of(s: Seq<(Vec<u8>, Option<StoredValue>)>) -> Result<
    Map<(Seq<u8>, Seq<u8>, Seq<u8>), Seq<char>>,
    XULStoreError,
>
    decreases s.len(),
{
    if s.len() == 0 {
        Ok(Map::empty())
    } else {
        match spec_data_of(s.drop_last()) {
            Err(e) => Err(e),
            Ok(m) => match spec_decode_entry(s.last()) {
                Err(e) => Err(e),
                Ok((t, v)) => Ok(
                    if m.contains_key(t) {
                        m
                    } else {
                        m.insert(t, v)
                    },
                ),
            },
        }
    }
}

proof fn lemma_data_error_persists(s: Seq<(Vec<u8>, Option<StoredValue>)>, k: int)
    requires
        0 <= k <= s.len(),
        spec_data_of(s.take(k)) is Err,
    ensures
        spec_data_of(s) == spec_data_of(s.take(k)),
    decreases s.len(),
{
    if s.len() == k {
        assert(s.take(k) =~= s);
    } else {
        assert(s.drop_last().take(k) =~= s.take(k));
        lemma_data_error_persists(s.drop_last(), k);
    }
}

/// Rebuilds the snapshot from a full scan of the store, in key order.
pub fn get_data(entries: &Vec<(Vec<u8>, Option<StoredValue>)>) -> (r: Result<XulData, XULStoreError>)
    ensures
        match r {
            Ok(d) => d.wf() && spec_data_of(entries@) == Ok::<_, XULStoreError>(d@),
            Err(e) => spec_data_of(entries@) == Err::<Map<(Seq<u8>, Seq<u8>, Seq<u8>), Seq<char>>, _>(e),
        },
{
    let mut data = XulData::new();
    let mut i: usize = 0;
    assert(entries@.take(0) =~= Seq::<(Vec<u8>, Option<StoredValue>)>::empty());
    while i < entries.len()
        invariant
            i <= entries@.len(),
            data.wf(),
            spec_data_of(entries@.take(i as int)) == Ok::<_, XULStoreError>(data@),
        decreases entries@.len() - i,
    {
        let ghost prefix = entries@.take(i as int + 1);
        assert(prefix.drop_last() =~= entries@.take(i as int));
        assert(prefix.last() == entries@[i as int]);
        if !is_utf8(entries[i].0.as_slice()) {
            proof {
                lemma_data_error_persists(entries@, i as int + 1);
            }
            return Err(XULStoreError::ConvertBytes);
        }
        let value = match unwrap_value(&entries[i].1) {
            Ok(v) => v,
            Err(e) => {
                proof {
                    lemma_data_error_persists(entries@, i as int + 1);
                }
                return Err(e);
            },
        };
        let (doc, id, attr) = match split_key(entries[i].0.as_slice()) {
            Ok(parts) => parts,
            Err(e) => {
                proof {
                    lemma_data_error_persists(entries@, i as int + 1);
                }
                return Err(e);
            },
        };
        if !data.has_value(doc.as_slice(), id.as_slice(), attr.as_slice()) {
            data.set_value(doc.as_slice(), id.as_slice(), attr.as_slice(), value);
        }
        i = i + 1;
    }
    assert(entries@.take(entries@.len() as int) =~= entries@);
    Ok(data)
}

/// The store writes that migrate legacy attribute values: one composite key
/// and value for each legacy entry, in the same order.
pub fn migration_writes(legacy: &Vec<XulEntry>) -> (r: Vec<(Vec<u8>, String)>)
    ensures
        r@.len() == legacy@.len(),
        forall|i: int|
            0 <= i < r@.len() ==> (#[trigger] r@[i]).0@ == join3(
                legacy@[i].doc@,
                legacy@[i].id@,
                legacy@[i].attr@,
            ) && r@[i].1@ == legacy@[i].value@,
{
    let mut r: Vec<(Vec<u8>, String)> = Vec::new();
    let mut i: usize = 0;
    while i < legacy.len()
        invariant
            i <= legacy@.len(),
            r@.len() == i,
            forall|j: int|
                0 <= j < i ==> (#[trigger] r@[j]).0@ == join3(
                    legacy@[j].doc@,
                    legacy@[j].id@,
                    legacy@[j].attr@,
                ) && r@[j].1@ == legacy@[j].value@,
        decreases legacy@.len() - i,
    {
        let e = &legacy[i];
        let key = make_key(e.doc.as_slice(), e.id.as_slice(), e.attr.as_slice());
        r.push((key, e.value.clone()));
        i = i + 1;
    }
    r
}

} // verus!
