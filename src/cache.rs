//! The in-memory snapshot of the attribute store: a map from (document,
//! element, attribute) to the attribute's value.

use vstd::prelude::*;

use crate::key::copy_range;

verus! {

/// One attribute value of the snapshot.
pub struct XulEntry {
    pub doc: Vec<u8>,
    pub id: Vec<u8>,
    pub attr: Vec<u8>,
    pub value: String,
}

pub open spec fn entry_key(e: XulEntry) -> (Seq<u8>, Seq<u8>, Seq<u8>) {
    (e.doc@, e.id@, e.attr@)
}

pub open spec fn keys_unique(s: Seq<XulEntry>) -> bool {
    forall|i: int, j: int|
        0 <= i < s.len() && 0 <= j < s.len() && i != j ==> entry_key(#[trigger] s[i])
            != entry_key(#[trigger] s[j])
}

pub open spec fn has_key(s: Seq<XulEntry>, t: (Seq<u8>, Seq<u8>, Seq<u8>)) -> bool {
    exists|i: int| 0 <= i < s.len() && #[trigger] entry_key(s[i]) == t
}

/// Whether the element `id` of document `doc` holds any attribute value.
pub open spec fn has_element(
    m: Map<(Seq<u8>, Seq<u8>, Seq<u8>), Seq<char>>,
    doc: Seq<u8>,
    id: Seq<u8>,
) -> bool {
    exists|attr: Seq<u8>| m.contains_key((doc, id, attr))
}

/// The map that a sequence of entries with distinct keys stands for.
pub open spec fn map_of(s: Seq<XulEntry>) -> Map<(Seq<u8>, Seq<u8>, Seq<u8>), Seq<char>> {
    Map::new(
        |t: (Seq<u8>, Seq<u8>, Seq<u8>)| has_key(s, t),
        |t: (Seq<u8>, Seq<u8>, Seq<u8>)|
            s[choose|i: int| 0 <= i < s.len() && #[trigger] entry_key(s[i]) == t].value@,
    )
}

proof fn lemma_map_at(s: Seq<XulEntry>, i: int)
    requires
        keys_unique(s),
        0 <= i < s.len(),
    ensures
        map_of(s).contains_key(entry_key(s[i])),
        map_of(s)[entry_key(s[i])] == s[i].value@,
{
    let t = entry_key(s[i]);
    assert(has_key(s, t));
    let j = choose|j: int| 0 <= j < s.len() && #[trigger] entry_key(s[j]) == t;
    assert(j == i);
}

fn bytes_eq(a: &[u8], b: &[u8]) -> (r: bool)
    ensures
        r == (a@ == b@),
{
    if a.len() != b.len() {
        return false;
    }
    let mut i: usize = 0;
    while i < a.len()
        invariant
            i <= a@.len(),
            a@.len() == b@.len(),
            forall|j: int| 0 <= j < i ==> a@[j] == b@[j],
        decreases a@.len() - i,
    {
        if a[i] != b[i] {
            return false;
        }
        i = i + 1;
    }
    assert(a@ =~= b@);
    true
}

fn copy_bytes(k: &Vec<u8>) -> (r: Vec<u8>)
    ensures
        r@ == k@,
{
    let r = k.clone();
    assert(r@ =~= k@);
    r
}

/// The snapshot of the attribute store.
pub struct XulData {
    entries: Vec<XulEntry>,
}

impl View for XulData {
    type V = Map<(Seq<u8>, Seq<u8>, Seq<u8>), Seq<char>>;

    closed spec fn view(&self) -> Self::V {
        map_of(self.entries@)
    }
}

impl XulData {
    pub closed spec fn wf(&self) -> bool {
        keys_unique(self.entries@)
    }

    pub fn new() -> (r: XulData)
        ensures
            r.wf(),
            r@ == Map::<(Seq<u8>, Seq<u8>, Seq<u8>), Seq<char>>::empty(),
    {
        let r = XulData { entries: Vec::new() };
        assert(r@ =~= Map::<(Seq<u8>, Seq<u8>, Seq<u8>), Seq<char>>::empty());
        r
    }

    /// The index of the entry for (doc, id, attr), if there is one.
    fn find(&self, doc: &[u8], id: &[u8], attr: &[u8]) -> (r: Option<usize>)
        requires
            self.wf(),
        ensures
            r matches Some(i) ==> i < self.entries@.len() && entry_key(self.entries@[i as int])
                == (doc@, id@, attr@),
            r is None ==> !has_key(self.entries@, (doc@, id@, attr@)),
    {
        let mut i: usize = 0;
        while i < self.entries.len()
            invariant
                i <= self.entries@.len(),
                forall|j: int| 0 <= j < i ==> entry_key(#[trigger] self.entries@[j]) != (doc@, id@, attr@),
            decreases self.entries@.len() - i,
        {
            let e = &self.entries[i];
            if bytes_eq(e.doc.as_slice(), doc) && bytes_eq(e.id.as_slice(), id) && bytes_eq(
                e.attr.as_slice(),
                attr,
            ) {
                return Some(i);
            }
            i = i + 1;
        }
        None
    }

    /// Whether the snapshot holds a value for the attribute.
    pub fn has_value(&self, doc: &[u8], id: &[u8], attr: &[u8]) -> (r: bool)
        requires
            self.wf(),
        ensures
            r == self@.contains_key((doc@, id@, attr@)),
    {
        self.find(doc, id, attr).is_some()
    }

    /// The attribute's value; the empty string where it has none.
    pub fn get_value(&self, doc: &[u8], id: &[u8], attr: &[u8]) -> (r: String)
        requires
            self.wf(),
        ensures
            self@.contains_key((doc@, id@, attr@)) ==> r@ == self@[(doc@, id@, attr@)],
            !self@.contains_key((doc@, id@, attr@)) ==> r@ == Seq::<char>::empty(),
    {
        match self.find(doc, id, attr) {
            Some(i) => {
                proof {
                    lemma_map_at(self.entries@, i as int);
                }
                self.entries[i].value.clone()
            },
            None => String::new(),
        }
    }

    /// Sets the attribute's value, replacing any earlier one.
    pub fn set_value(&mut self, doc: &[u8], id: &[u8], attr: &[u8], value: String)
        requires
            old(self).wf(),
        ensures
            final(self).wf(),
            final(self)@ == old(self)@.insert((doc@, id@, attr@), value@),
    {
        let t = Ghost((doc@, id@, attr@));
        let entry = XulEntry {
            doc: copy_range(doc, 0, doc.len()),
            id: copy_range(id, 0, id.len()),
            attr: copy_range(attr, 0, attr.len()),
            value,
        };
        assert(entry_key(entry) == t@) by {
            assert(doc@.subrange(0, doc@.len() as int) =~= doc@);
            assert(id@.subrange(0, id@.len() as int) =~= id@);
            assert(attr@.subrange(0, attr@.len() as int) =~= attr@);
        }
        let ghost s = self.entries@;
        match self.find(doc, id, attr) {
            Some(i) => {
                self.entries.set(i, entry);
                proof {
                    let s2 = self.entries@;
                    assert(keys_unique(s2));
                    assert forall|t2| #![auto] map_of(s2).contains_key(t2) <==> map_of(s).insert(t@, value@).contains_key(t2) by {
                        if has_key(s, t2) {
                            let j = choose|j: int| 0 <= j < s.len() && #[trigger] entry_key(s[j]) == t2;
                            assert(entry_key(s2[j]) == t2);
                        }
                        if has_key(s2, t2) {
                            let j = choose|j: int| 0 <= j < s2.len() && #[trigger] entry_key(s2[j]) == t2;
                            assert(entry_key(s[j]) == t2);
                        }
                    }
                    assert forall|t2| #![auto] map_of(s2).contains_key(t2) implies map_of(s2)[t2] == map_of(s).insert(t@, value@)[t2] by {
                        let j = choose|j: int| 0 <= j < s2.len() && #[trigger] entry_key(s2[j]) == t2;
                        lemma_map_at(s2, j);
                        if j != i {
                            lemma_map_at(s, j);
                        }
                    }
                    assert(map_of(s2) =~= map_of(s).insert(t@, value@));
                }
            },
            None => {
                self.entries.push(entry);
                proof {
                    let s2 = self.entries@;
                    assert(keys_unique(s2));
                    assert forall|t2| #![auto] map_of(s2).contains_key(t2) <==> map_of(s).insert(t@, value@).contains_key(t2) by {
                        if has_key(s, t2) {
                            let j = choose|j: int| 0 <= j < s.len() && #[trigger] entry_key(s[j]) == t2;
                            assert(entry_key(s2[j]) == t2);
                        }
                        if t2 == t@ {
                            assert(entry_key(s2[s.len() as int]) == t2);
                        }
                        if has_key(s2, t2) {
                            let j = choose|j: int| 0 <= j < s2.len() && #[trigger] entry_key(s2[j]) == t2;
                            if j < s.len() {
                                assert(entry_key(s[j]) == t2);
                            }
                        }
                    }
                    assert forall|t2| #![auto] map_of(s2).contains_key(t2) implies map_of(s2)[t2] == map_of(s).insert(t@, value@)[t2] by {
                        let j = choose|j: int| 0 <= j < s2.len() && #[trigger] entry_key(s2[j]) == t2;
                        lemma_map_at(s2, j);
                        if j < s.len() {
                            lemma_map_at(s, j);
                        }
                    }
                    assert(map_of(s2) =~= map_of(s).insert(t@, value@));
                }
            },
        }
    }

    /// Removes the attribute's value, if it has one.
    pub fn remove_value(&mut self, doc: &[u8], id: &[u8], attr: &[u8])
        requires
            old(self).wf(),
        ensures
            final(self).wf(),
            final(self)@ == old(self)@.remove((doc@, id@, attr@)),
    {
        let t = Ghost((doc@, id@, attr@));
        let ghost s = self.entries@;
        match self.find(doc, id, attr) {
            Some(i) => {
                self.entries.remove(i);
                proof {
                    let s2 = self.entries@;
                    assert forall|a: int, b: int|
                        0 <= a < s2.len() && 0 <= b < s2.len() && a != b implies entry_key(#[trigger] s2[a])
                            != entry_key(#[trigger] s2[b]) by {
                        let a0 = if a < i { a } else { a + 1 };
                        let b0 = if b < i { b } else { b + 1 };
                        assert(s2[a] == s[a0] && s2[b] == s[b0]);
                    }
                    assert forall|t2| #![auto] map_of(s2).contains_key(t2) <==> map_of(s).remove(t@).contains_key(t2) by {
                        if has_key(s, t2) && t2 != t@ {
                            let j = choose|j: int| 0 <= j < s.len() && #[trigger] entry_key(s[j]) == t2;
                            let j2 = if j < i { j } else { j - 1 };
                            assert(entry_key(s2[j2]) == t2);
                        }
                        if has_key(s2, t2) {
                            let j = choose|j: int| 0 <= j < s2.len() && #[trigger] entry_key(s2[j]) == t2;
                            let j0 = if j < i { j } else { j + 1 };
                            assert(s2[j] == s[j0]);
                            assert(entry_key(s[j0]) == t2);
                        }
                    }
                    assert forall|t2| #![auto] map_of(s2).contains_key(t2) implies map_of(s2)[t2] == map_of(s).remove(t@)[t2] by {
                        let j = choose|j: int| 0 <= j < s2.len() && #[trigger] entry_key(s2[j]) == t2;
                        let j0 = if j < i { j } else { j + 1 };
                        assert(s2[j] == s[j0]);
                        lemma_map_at(s2, j);
                        lemma_map_at(s, j0);
                    }
                    assert(map_of(s2) =~= map_of(s).remove(t@));
                }
            },
            None => {
                assert(self@ =~= old(self)@.remove(t@));
            },
        }
    }
    /// The attributes that hold a value for an element of a document, each
    /// once.
    pub fn get_attrs(&self, doc: &[u8], id: &[u8]) -> (r: Vec<Vec<u8>>)
        requires
            self.wf(),
        ensures
            forall|k: int| 0 <= k < r@.len() ==> self@.contains_key((doc@, id@, (#[trigger] r@[k])@)),
            forall|attr: Seq<u8>|
                #![trigger self@.contains_key((doc@, id@, attr))]
                self@.contains_key((doc@, id@, attr)) ==> exists|k: int|
                    0 <= k < r@.len() && (#[trigger] r@[k])@ == attr,
            forall|k1: int, k2: int|
                0 <= k1 < r@.len() && 0 <= k2 < r@.len() && k1 != k2 ==> (#[trigger] r@[k1])@
                    != (#[trigger] r@[k2])@,
    {
        let ghost s = self.entries@;
        let mut r: Vec<Vec<u8>> = Vec::new();
        let ghost mut src: Seq<int> = Seq::empty();
        let mut i: usize = 0;
        while i < self.entries.len()
            invariant
                s == self.entries@,
                keys_unique(s),
                i <= s.len(),
                src.len() == r@.len(),
                forall|k: int|
                    0 <= k < r@.len() ==> 0 <= #[trigger] src[k] < i && entry_key(s[src[k]]) == (
                        doc@,
                        id@,
                        (r@[k])@,
                    ),
                forall|k1: int, k2: int|
                    0 <= k1 < k2 < r@.len() ==> #[trigger] src[k1] < #[trigger] src[k2],
                forall|j: int|
                    0 <= j < i && s[j].doc@ == doc@ && s[j].id@ == id@ ==> exists|k: int|
                        0 <= k < r@.len() && (#[trigger] r@[k])@ == (#[trigger] s[j]).attr@,
            decreases s.len() - i,
        {
            let e = &self.entries[i];
            if bytes_eq(e.doc.as_slice(), doc) && bytes_eq(e.id.as_slice(), id) {
                let a = copy_bytes(&e.attr);
                let ghost r0 = r@;
                r.push(a);
                proof {
                    src = src.push(i as int);
                    let k = r@.len() - 1;
                    assert(r@[k]@ == s[i as int].attr@);
                    assert forall|j: int|
                        0 <= j < i + 1 && s[j].doc@ == doc@ && s[j].id@ == id@ implies exists|k: int|
                            0 <= k < r@.len() && (#[trigger] r@[k])@ == (#[trigger] s[j]).attr@ by {
                        if j < i {
                            let k0 = choose|k0: int| 0 <= k0 < r0.len() && (#[trigger] r0[k0])@ == s[j].attr@;
                            assert(r@[k0] == r0[k0]);
                        } else {
                            assert(r@[k]@ == s[j].attr@);
                        }
                    }
                }
            }
            i = i + 1;
        }
        proof {
            assert forall|k: int| 0 <= k < r@.len() implies self@.contains_key(
                (doc@, id@, (#[trigger] r@[k])@),
            ) by {
                lemma_map_at(s, src[k]);
            }
            assert forall|attr: Seq<u8>|
                #![trigger self@.contains_key((doc@, id@, attr))]
                self@.contains_key((doc@, id@, attr)) implies exists|k: int|
                    0 <= k < r@.len() && (#[trigger] r@[k])@ == attr by {
                let j = choose|j: int| 0 <= j < s.len() && #[trigger] entry_key(s[j]) == (doc@, id@, attr);
                assert(s[j].doc@ == doc@ && s[j].id@ == id@ && s[j].attr@ == attr);
            }
            assert forall|k1: int, k2: int|
                0 <= k1 < r@.len() && 0 <= k2 < r@.len() && k1 != k2 implies (#[trigger] r@[k1])@
                    != (#[trigger] r@[k2])@ by {
                if k1 < k2 {
                    assert(src[k1] < src[k2]);
                } else {
                    assert(src[k2] < src[k1]);
                }
            }
        }
        r
    }
    /// The elements of a document that hold at least one attribute value,
    /// each once.
    pub fn get_ids(&self, doc: &[u8]) -> (r: Vec<Vec<u8>>)
        requires
            self.wf(),
        ensures
            forall|k: int| 0 <= k < r@.len() ==> has_element(self@, doc@, (#[trigger] r@[k])@),
            forall|id: Seq<u8>, attr: Seq<u8>|
                #![trigger self@.contains_key((doc@, id, attr))]
                self@.contains_key((doc@, id, attr)) ==> exists|k: int|
                    0 <= k < r@.len() && (#[trigger] r@[k])@ == id,
            forall|k1: int, k2: int|
                0 <= k1 < r@.len() && 0 <= k2 < r@.len() && k1 != k2 ==> (#[trigger] r@[k1])@
                    != (#[trigger] r@[k2])@,
    {
        let ghost s = self.entries@;
        let mut r: Vec<Vec<u8>> = Vec::new();
        let ghost mut src: Seq<int> = Seq::empty();
        let mut i: usize = 0;
        while i < self.entries.len()
            invariant
                s == self.entries@,
                keys_unique(s),
                i <= s.len(),
                src.len() == r@.len(),
                forall|k: int|
                    0 <= k < r@.len() ==> 0 <= #[trigger] src[k] < i && s[src[k]].doc@ == doc@
                        && s[src[k]].id@ == (r@[k])@,
                forall|j: int|
                    0 <= j < i && s[j].doc@ == doc@ ==> exists|k: int|
                        0 <= k < r@.len() && (#[trigger] r@[k])@ == (#[trigger] s[j]).id@,
                forall|k1: int, k2: int|
                    0 <= k1 < r@.len() && 0 <= k2 < r@.len() && k1 != k2 ==> (#[trigger] r@[k1])@
                        != (#[trigger] r@[k2])@,
            decreases s.len() - i,
        {
            let e = &self.entries[i];
            if bytes_eq(e.doc.as_slice(), doc) && !contains_bytes(&r, e.id.as_slice()) {
                let a = copy_bytes(&e.id);
                let ghost r0 = r@;
                r.push(a);
                proof {
                    src = src.push(i as int);
                    let k = r@.len() - 1;
                    assert(r@[k]@ == s[i as int].id@);
                    assert forall|j: int|
                        0 <= j < i + 1 && s[j].doc@ == doc@ implies exists|k2: int|
                            0 <= k2 < r@.len() && (#[trigger] r@[k2])@ == (#[trigger] s[j]).id@ by {
                        if j < i {
                            let k0 = choose|k0: int| 0 <= k0 < r0.len() && (#[trigger] r0[k0])@ == s[j].id@;
                            assert(r@[k0] == r0[k0]);
                        } else {
                            assert(r@[k]@ == s[j].id@);
                        }
                    }
                    assert forall|k1: int, k2: int|
                        0 <= k1 < r@.len() && 0 <= k2 < r@.len() && k1 != k2 implies (#[trigger] r@[k1])@
                            != (#[trigger] r@[k2])@ by {
                        if k1 < k && k2 < k {
                            assert(r@[k1] == r0[k1] && r@[k2] == r0[k2]);
                        } else if k1 < k {
                            assert(r@[k1] == r0[k1]);
                        } else if k2 < k {
                            assert(r@[k2] == r0[k2]);
                        }
                    }
                }
            } else {
                proof {
                    assert forall|j: int|
                        0 <= j < i + 1 && s[j].doc@ == doc@ implies exists|k2: int|
                            0 <= k2 < r@.len() && (#[trigger] r@[k2])@ == (#[trigger] s[j]).id@ by {
                        if j == i {
                            assert(s[j] == self.entries@[i as int]);
                        }
                    }
                }
            }
            i = i + 1;
        }
        proof {
            assert forall|k: int| 0 <= k < r@.len() implies has_element(self@, doc@, (#[trigger] r@[k])@) by {
                let j = src[k];
                lemma_map_at(s, j);
                assert(self@.contains_key((doc@, (r@[k])@, s[j].attr@)));
            }
            assert forall|id: Seq<u8>, attr: Seq<u8>|
                #![trigger self@.contains_key((doc@, id, attr))]
                self@.contains_key((doc@, id, attr)) implies exists|k: int|
                    0 <= k < r@.len() && (#[trigger] r@[k])@ == id by {
                let j = choose|j: int| 0 <= j < s.len() && #[trigger] entry_key(s[j]) == (doc@, id, attr);
                assert(s[j].doc@ == doc@ && s[j].id@ == id);
            }
        }
        r
    }
}

fn contains_bytes(r: &Vec<Vec<u8>>, x: &[u8]) -> (b: bool)
    ensures
        b == exists|k: int| 0 <= k < r@.len() && (#[trigger] r@[k])@ == x@,
{
    let mut i: usize = 0;
    while i < r.len()
        invariant
            i <= r@.len(),
            forall|k: int| 0 <= k < i ==> (#[trigger] r@[k])@ != x@,
        decreases r@.len() - i,
    {
        if bytes_eq(r[i].as_slice(), x) {
            return true;
        }
        i = i + 1;
    }
    false
}

} // verus!
