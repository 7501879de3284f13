//! Composite keys of the attribute store: document, element and attribute
//! joined by a separator byte that none of the three holds.

use vstd::prelude::*;

use crate::error::XULStoreError;

verus! {

/// The separator byte of a composite key (a tab).
pub const SEPARATOR: u8 = 9;

pub open spec fn sep_free(s: Seq<u8>) -> bool {
    forall|i: int| 0 <= i < s.len() ==> s[i] != SEPARATOR
}

/// The composite key of a document, an element and an attribute.
pub open spec fn join3(a: Seq<u8>, b: Seq<u8>, c: Seq<u8>) -> Seq<u8> {
    a + seq![SEPARATOR] + b + seq![SEPARATOR] + c
}

/// Whether `key` is the composite key of three separator-free parts.
pub open spec fn is_join3(key: Seq<u8>, a: Seq<u8>, b: Seq<u8>, c: Seq<u8>) -> bool {
    sep_free(a) && sep_free(b) && sep_free(c) && key == join3(a, b, c)
}

/// The three parts of a composite key, if it has them.
pub open spec fn spec_split_key(key: Seq<u8>) -> Option<(Seq<u8>, Seq<u8>, Seq<u8>)> {
    if exists|a: Seq<u8>, b: Seq<u8>, c: Seq<u8>| is_join3(key, a, b, c) {
        let (a, b, c) = choose|a: Seq<u8>, b: Seq<u8>, c: Seq<u8>| is_join3(key, a, b, c);
        Some((a, b, c))
    } else {
        None
    }
}

/// In a composite key, separators stand only between the parts.
proof fn lemma_join3_separators(a: Seq<u8>, b: Seq<u8>, c: Seq<u8>, j: int)
    requires
        sep_free(a),
        sep_free(b),
        sep_free(c),
        0 <= j < join3(a, b, c).len(),
        join3(a, b, c)[j] == SEPARATOR,
    ensures
        j == a.len() || j == a.len() + 1 + b.len(),
{
    let k = join3(a, b, c);
    if j < a.len() {
        assert(k[j] == a[j]);
    } else if a.len() < j < a.len() + 1 + b.len() {
        assert(k[j] == b[j - a.len() - 1]);
    } else if j > a.len() + 1 + b.len() {
        assert(k[j] == c[j - a.len() - 2 - b.len()]);
    }
}

proof fn lemma_join3_at(a: Seq<u8>, b: Seq<u8>, c: Seq<u8>)
    ensures
        join3(a, b, c).len() == a.len() + b.len() + c.len() + 2,
        join3(a, b, c)[a.len() as int] == SEPARATOR,
        join3(a, b, c)[(a.len() + 1 + b.len()) as int] == SEPARATOR,
        join3(a, b, c).subrange(0, a.len() as int) == a,
        join3(a, b, c).subrange((a.len() + 1) as int, (a.len() + 1 + b.len()) as int) == b,
        join3(a, b, c).subrange((a.len() + 2 + b.len()) as int, join3(a, b, c).len() as int) == c,
{
    let k = join3(a, b, c);
    assert(k.subrange(0, a.len() as int) =~= a);
    assert(k.subrange((a.len() + 1) as int, (a.len() + 1 + b.len()) as int) =~= b);
    assert(k.subrange((a.len() + 2 + b.len()) as int, k.len() as int) =~= c);
}

/// A composite key decodes to the parts it was made from: two sets of
/// separator-free parts with the same composite key are the same parts.
pub proof fn lemma_composite_key_round_trip(
    a: Seq<u8>,
    b: Seq<u8>,
    c: Seq<u8>,
    a2: Seq<u8>,
    b2: Seq<u8>,
    c2: Seq<u8>,
)
    requires
        sep_free(a),
        sep_free(b),
        sep_free(c),
        sep_free(a2),
        sep_free(b2),
        sep_free(c2),
        join3(a, b, c) == join3(a2, b2, c2),
    ensures
        a == a2,
        b == b2,
        c == c2,
{
    lemma_join3_at(a, b, c);
    lemma_join3_at(a2, b2, c2);
    lemma_join3_separators(a2, b2, c2, a.len() as int);
    lemma_join3_separators(a, b, c, a2.len() as int);
    assert(a.len() == a2.len());
    lemma_join3_separators(a2, b2, c2, (a.len() + 1 + b.len()) as int);
    lemma_join3_separators(a, b, c, (a2.len() + 1 + b2.len()) as int);
    assert(b.len() == b2.len());
}

/// The parts of the composite key of separator-free parts.
pub proof fn lemma_split_join3(a: Seq<u8>, b: Seq<u8>, c: Seq<u8>)
    requires
        sep_free(a),
        sep_free(b),
        sep_free(c),
    ensures
        spec_split_key(join3(a, b, c)) == Some((a, b, c)),
{
    let key = join3(a, b, c);
    assert(is_join3(key, a, b, c));
    let (a2, b2, c2) = choose|a2: Seq<u8>, b2: Seq<u8>, c2: Seq<u8>| is_join3(key, a2, b2, c2);
    lemma_composite_key_round_trip(a, b, c, a2, b2, c2);
}

fn append_bytes(v: &mut Vec<u8>, s: &[u8])
    ensures
        final(v)@ == old(v)@ + s@,
{
    let mut i: usize = 0;
    while i < s.len()
        invariant
            i <= s@.len(),
            v@ == old(v)@ + s@.subrange(0, i as int),
        decreases s@.len() - i,
    {
        v.push(s[i]);
        i = i + 1;
        assert(v@ =~= old(v)@ + s@.subrange(0, i as int));
    }
    assert(s@.subrange(0, s@.len() as int) =~= s@);
}

/// Joins a document, an element and an attribute into one store key.
pub fn make_key(doc: &[u8], id: &[u8], attr: &[u8]) -> (r: Vec<u8>)
    ensures
        r@ == join3(doc@, id@, attr@),
{
    let mut key: Vec<u8> = Vec::new();
    append_bytes(&mut key, doc);
    key.push(SEPARATOR);
    append_bytes(&mut key, id);
    key.push(SEPARATOR);
    append_bytes(&mut key, attr);
    assert(key@ =~= join3(doc@, id@, attr@));
    key
}

/// The first separator at or after `start`.
fn find_separator(key: &[u8], start: usize) -> (r: Option<usize>)
    requires
        start <= key@.len(),
    ensures
        r matches Some(p) ==> start <= p < key@.len() && key@[p as int] == SEPARATOR && forall|
            j: int,
        |
            start <= j < p ==> key@[j] != SEPARATOR,
        r is None ==> forall|j: int| start <= j < key@.len() ==> key@[j] != SEPARATOR,
{
    let mut i = start;
    while i < key.len()
        invariant
            start <= i <= key@.len(),
            forall|j: int| start <= j < i ==> key@[j] != SEPARATOR,
        decreases key@.len() - i,
    {
        if key[i] == SEPARATOR {
            return Some(i);
        }
        i = i + 1;
    }
    None
}

pub(crate) fn copy_range(key: &[u8], lo: usize, hi: usize) -> (r: Vec<u8>)
    requires
        lo <= hi <= key@.len(),
    ensures
        r@ == key@.subrange(lo as int, hi as int),
{
    let mut r: Vec<u8> = Vec::new();
    let mut i = lo;
    while i < hi
        invariant
            lo <= i <= hi,
            hi <= key@.len(),
            r@ == key@.subrange(lo as int, i as int),
        decreases hi - i,
    {
        r.push(key[i]);
        i = i + 1;
        assert(r@ =~= key@.subrange(lo as int, i as int));
    }
    r
}

/// Splits a composite key into its document, element and attribute. A key
/// that does not hold exactly two separators fails.
pub fn split_key(key: &[u8]) -> (r: Result<(Vec<u8>, Vec<u8>, Vec<u8>), XULStoreError>)
    ensures
        r matches Ok((a, b, c)) ==> is_join3(key@, a@, b@, c@) && spec_split_key(key@) == Some(
            (a@, b@, c@),
        ),
        r is Err ==> r == Err::<(Vec<u8>, Vec<u8>, Vec<u8>), XULStoreError>(
            XULStoreError::KeyDecode,
        ) && spec_split_key(key@) is None,
{
    let len = key.len();
    let first = match find_separator(key, 0) {
        Some(p) => p,
        None => {
            proof {
                if exists|a: Seq<u8>, b: Seq<u8>, c: Seq<u8>| is_join3(key@, a, b, c) {
                    let (a, b, c) = choose|a: Seq<u8>, b: Seq<u8>, c: Seq<u8>|
                        is_join3(key@, a, b, c);
                    lemma_join3_at(a, b, c);
                    assert(key@[a.len() as int] == SEPARATOR);
                }
            }
            return Err(XULStoreError::KeyDecode);
        },
    };
    let second = match find_separator(key, first + 1) {
        Some(p) => p,
        None => {
            proof {
                if exists|a: Seq<u8>, b: Seq<u8>, c: Seq<u8>| is_join3(key@, a, b, c) {
                    let (a, b, c) = choose|a: Seq<u8>, b: Seq<u8>, c: Seq<u8>|
                        is_join3(key@, a, b, c);
                    lemma_join3_at(a, b, c);
                    assert(key@[a.len() as int] == SEPARATOR);
                    assert(key@[(a.len() + 1 + b.len()) as int] == SEPARATOR);
                }
            }
            return Err(XULStoreError::KeyDecode);
        },
    };
    match find_separator(key, second + 1) {
        Some(third) => {
            proof {
                if exists|a: Seq<u8>, b: Seq<u8>, c: Seq<u8>| is_join3(key@, a, b, c) {
                    let (a, b, c) = choose|a: Seq<u8>, b: Seq<u8>, c: Seq<u8>|
                        is_join3(key@, a, b, c);
                    lemma_join3_separators(a, b, c, first as int);
                    lemma_join3_separators(a, b, c, second as int);
                    lemma_join3_separators(a, b, c, third as int);
                }
            }
            Err(XULStoreError::KeyDecode)
        },
        None => {
            let a = copy_range(key, 0, first);
            let b = copy_range(key, first + 1, second);
            let c = copy_range(key, second + 1, len);
            proof {
                assert(key@ =~= join3(a@, b@, c@));
                lemma_split_join3(a@, b@, c@);
            }
            Ok((a, b, c))
        },
    }
}

} // verus!
