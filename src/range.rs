//! Ordered range reads: keys compare byte by byte, and a range is collected
//! eagerly from the engine's cursor into an enumerator that owns its pairs.

use vstd::prelude::*;

use crate::error::KeyValueError;
use crate::value::{spec_value_to_owned, spec_variant_of, value_to_owned, OwnedValue, StoredValue, Variant};

verus! {

/// Byte-lexicographic order on keys: `a` sorts before `b`, or equals it.
pub open spec fn key_le(a: Seq<u8>, b: Seq<u8>) -> bool
    decreases a.len(),
{
    if a.len() == 0 {
        true
    } else if b.len() == 0 {
        false
    } else if a[0] != b[0] {
        a[0] < b[0]
    } else {
        key_le(a.drop_first(), b.drop_first())
    }
}

/// Whether `key` lies below the upper bound `to`; an empty bound is none.
pub open spec fn in_range(key: Seq<u8>, to: Seq<u8>) -> bool {
    to.len() == 0 || key_le(key, to)
}

/// What the cursor gave for one entry: its value, or the engine's error.
pub open spec fn spec_decode_entry(e: Result<StoredValue, KeyValueError>) -> Result<OwnedValue, KeyValueError> {
    match e {
        Ok(v) => spec_value_to_owned(v),
        Err(err) => Err(err),
    }
}

/// Keys in ascending order.
pub open spec fn keys_sorted(s: Seq<(Seq<u8>, Result<OwnedValue, KeyValueError>)>) -> bool {
    forall|i: int, j: int| 0 <= i < j < s.len() ==> key_le(#[trigger] s[i].0, #[trigger] s[j].0)
}

proof fn lemma_key_le_step(a: Seq<u8>, b: Seq<u8>, i: int)
    requires
        0 <= i < a.len(),
        i < b.len(),
        a[i] == b[i],
    ensures
        key_le(a.subrange(i, a.len() as int), b.subrange(i, b.len() as int)) == key_le(
            a.subrange(i + 1, a.len() as int),
            b.subrange(i + 1, b.len() as int),
        ),
{
    assert(a.subrange(i, a.len() as int).drop_first() =~= a.subrange(i + 1, a.len() as int));
    assert(b.subrange(i, b.len() as int).drop_first() =~= b.subrange(i + 1, b.len() as int));
}

/// The order on keys is transitive.
pub proof fn lemma_key_le_transitive(a: Seq<u8>, b: Seq<u8>, c: Seq<u8>)
    requires
        key_le(a, b),
        key_le(b, c),
    ensures
        key_le(a, c),
    decreases a.len(),
{
    if a.len() > 0 && b.len() > 0 && c.len() > 0 && a[0] == b[0] && b[0] == c[0] {
        lemma_key_le_transitive(a.drop_first(), b.drop_first(), c.drop_first());
    }
}

/// Compares two keys byte by byte.
pub fn key_le_exec(a: &[u8], b: &[u8]) -> (r: bool)
    ensures
        r == key_le(a@, b@),
{
    let mut i: usize = 0;
    assert(a@.subrange(0, a@.len() as int) =~= a@);
    assert(b@.subrange(0, b@.len() as int) =~= b@);
    while i < a.len() && i < b.len()
        invariant
            i <= a.len(),
            i <= b.len(),
            key_le(a@, b@) == key_le(
                a@.subrange(i as int, a@.len() as int),
                b@.subrange(i as int, b@.len() as int),
            ),
        decreases a.len() - i,
    {
        if a[i] != b[i] {
            return a[i] < b[i];
        }
        proof {
            lemma_key_le_step(a@, b@, i as int);
        }
        i = i + 1;
    }
    i == a.len()
}

fn copy_key(k: &Vec<u8>) -> (r: Vec<u8>)
    ensures
        r@ == k@,
{
    let r = k.clone();
    assert(r@ =~= k@);
    r
}

/// The pairs that an enumerator hands out, before it has handed out any.
pub struct InitSimpleEnumerator {
    pub pairs: Vec<(Vec<u8>, Result<OwnedValue, KeyValueError>)>,
}

/// Hands out collected key/value pairs in order. An entry whose value could
/// not be read fails only when it is handed out.
pub struct SimpleEnumerator {
    pairs: Vec<(Vec<u8>, Result<OwnedValue, KeyValueError>)>,
    next: usize,
}

/// A key and its value, as an enumerator hands them out.
pub struct InitKeyValuePair {
    pub key: Vec<u8>,
    pub value: OwnedValue,
}

pub struct KeyValuePair {
    pair: InitKeyValuePair,
}

impl KeyValuePair {
    pub closed spec fn spec_key(&self) -> Seq<u8> {
        self.pair.key@
    }

    pub closed spec fn spec_value(&self) -> OwnedValue {
        self.pair.value
    }

    pub fn allocate(init: InitKeyValuePair) -> (r: KeyValuePair)
        ensures
            r.spec_key() == init.key@,
            r.spec_value() == init.value,
    {
        KeyValuePair { pair: init }
    }

    pub fn new(key: Vec<u8>, value: OwnedValue) -> (r: KeyValuePair)
        ensures
            r.spec_key() == key@,
            r.spec_value() == value,
    {
        KeyValuePair::allocate(InitKeyValuePair { key, value })
    }

    pub fn get_key(&self) -> (r: Vec<u8>)
        ensures
            r@ == self.spec_key(),
    {
        copy_key(&self.pair.key)
    }

    pub fn get_value(&self) -> (r: Variant)
        ensures
            r == spec_variant_of(self.spec_value()),
    {
        self.pair.value.into_variant()
    }
}

impl View for SimpleEnumerator {
    type V = Seq<(Seq<u8>, Result<OwnedValue, KeyValueError>)>;

    /// The pairs not yet handed out.
    closed spec fn view(&self) -> Self::V {
        self.pairs@.subrange(self.next as int, self.pairs@.len() as int).map_values(
            |p: (Vec<u8>, Result<OwnedValue, KeyValueError>)| (p.0@, p.1),
        )
    }
}

impl SimpleEnumerator {
    pub closed spec fn wf(&self) -> bool {
        self.next <= self.pairs@.len()
    }

    pub fn allocate(init: InitSimpleEnumerator) -> (r: SimpleEnumerator)
        ensures
            r.wf(),
            r@ == init.pairs@.map_values(
                |p: (Vec<u8>, Result<OwnedValue, KeyValueError>)| (p.0@, p.1),
            ),
    {
        let r = SimpleEnumerator { pairs: init.pairs, next: 0 };
        assert(r.pairs@.subrange(0, r.pairs@.len() as int) =~= r.pairs@);
        r
    }

    pub fn new(pairs: Vec<(Vec<u8>, Result<OwnedValue, KeyValueError>)>) -> (r: SimpleEnumerator)
        ensures
            r.wf(),
            r@ == pairs@.map_values(|p: (Vec<u8>, Result<OwnedValue, KeyValueError>)| (p.0@, p.1)),
    {
        SimpleEnumerator::allocate(InitSimpleEnumerator { pairs })
    }

    /// Whether a pair remains, whether or not its value can be read.
    pub fn has_more_elements(&self) -> (r: bool)
        requires
            self.wf(),
        ensures
            r == (self@.len() > 0),
    {
        self.next < self.pairs.len()
    }

    /// Hands out the next pair. Past the last pair it fails and changes
    /// nothing; an entry whose value could not be read is passed over and
    /// its error returned.
    pub fn get_next(&mut self) -> (r: Result<KeyValuePair, KeyValueError>)
        requires
            old(self).wf(),
        ensures
            final(self).wf(),
            old(self)@.len() == 0 ==> r == Err::<KeyValuePair, KeyValueError>(
                KeyValueError::NoMoreElements,
            ) && final(self)@ == old(self)@,
            old(self)@.len() > 0 ==> final(self)@ == old(self)@.drop_first() && match old(self)@[0].1 {
                Ok(v) => r matches Ok(p) && p.spec_key() == old(self)@[0].0 && p.spec_value() == v,
                Err(e) => r == Err::<KeyValuePair, KeyValueError>(e),
            },
    {
        if self.next >= self.pairs.len() {
            return Err(KeyValueError::NoMoreElements);
        }
        let i = self.next;
        self.next = self.next + 1;
        proof {
            assert(self@ =~= old(self)@.drop_first());
        }
        let key = copy_key(&self.pairs[i].0);
        match &self.pairs[i].1 {
            Ok(v) => Ok(KeyValuePair::new(key, v.duplicate())),
            Err(e) => Err(*e),
        }
    }
}

/// Collects, in cursor order, the entries of `cursor` up to the first whose
/// key lies above `to_key` (an empty `to_key` bounds nothing). The cursor is
/// the engine's, positioned at the lower bound of the range.
pub fn enumerate(cursor: &Vec<(Vec<u8>, Result<StoredValue, KeyValueError>)>, to_key: &[u8]) -> (r: SimpleEnumerator)
    ensures
        r.wf(),
        r@.len() <= cursor@.len(),
        forall|i: int|
            0 <= i < r@.len() ==> #[trigger] r@[i] == (cursor@[i].0@, spec_decode_entry(cursor@[i].1)),
        forall|i: int| 0 <= i < r@.len() ==> in_range(#[trigger] cursor@[i].0@, to_key@),
        r@.len() < cursor@.len() ==> !in_range(cursor@[r@.len() as int].0@, to_key@),
{
    let mut pairs: Vec<(Vec<u8>, Result<OwnedValue, KeyValueError>)> = Vec::new();
    let mut i: usize = 0;
    let unbounded = to_key.len() == 0;
    while i < cursor.len()
        invariant
            i <= cursor@.len(),
            pairs@.len() == i,
            unbounded == (to_key@.len() == 0),
            forall|j: int|
                0 <= j < i ==> (#[trigger] pairs@[j]).0@ == cursor@[j].0@ && pairs@[j].1
                    == spec_decode_entry(cursor@[j].1),
            forall|j: int| 0 <= j < i ==> in_range(#[trigger] cursor@[j].0@, to_key@),
        ensures
            i <= cursor@.len(),
            i < cursor@.len() ==> !in_range(cursor@[i as int].0@, to_key@),
        decreases cursor@.len() - i,
    {
        let key = &cursor[i].0;
        if !unbounded && !key_le_exec(key.as_slice(), to_key) {
            break;
        }
        let value = match &cursor[i].1 {
            Ok(v) => value_to_owned(v),
            Err(e) => Err(*e),
        };
        pairs.push((copy_key(key), value));
        i = i + 1;
    }
    let r = SimpleEnumerator::new(pairs);
    assert(r@.len() == i);
    r
}

/// With the cursor in ascending key order, an enumeration holds exactly the
/// cursor's entries whose keys lie below the upper bound, in ascending order.
pub proof fn lemma_enumerate_exact(
    cursor: Seq<(Seq<u8>, Result<OwnedValue, KeyValueError>)>,
    to: Seq<u8>,
    n: nat,
)
    requires
        keys_sorted(cursor),
        n <= cursor.len(),
        forall|i: int| 0 <= i < n ==> in_range(#[trigger] cursor[i].0, to),
        n < cursor.len() ==> !in_range(cursor[n as int].0, to),
    ensures
        forall|i: int| 0 <= i < cursor.len() ==> (i < n <==> in_range(#[trigger] cursor[i].0, to)),
        keys_sorted(cursor.take(n as int)),
{
    assert forall|i: int| 0 <= i < cursor.len() implies (i < n <==> in_range(
        #[trigger] cursor[i].0,
        to,
    )) by {
        if i > n && in_range(cursor[i].0, to) {
            assert(key_le(cursor[n as int].0, cursor[i].0));
            lemma_key_le_transitive(cursor[n as int].0, cursor[i].0, to);
        }
    }
    let t = cursor.take(n as int);
    assert forall|i: int, j: int| 0 <= i < j < t.len() implies key_le(
        #[trigger] t[i].0,
        #[trigger] t[j].0,
    ) by {
        assert(t[i] == cursor[i] && t[j] == cursor[j]);
    }
}

} // verus!
