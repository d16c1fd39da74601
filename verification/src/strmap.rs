//! A finite map from strings to values, kept in insertion order.

use vstd::prelude::*;

verus! {

/// No key occurs twice among the entries.
pub open spec fn entries_wf<V>(e: Seq<(String, V)>) -> bool {
    forall|i: int, j: int|
        0 <= i < e.len() && 0 <= j < e.len() && #[trigger] e[i].0@ == #[trigger] e[j].0@ ==> i == j
}

spec fn entries_have<V>(e: Seq<(String, V)>, k: Seq<char>) -> bool {
    exists|i: int| 0 <= i < e.len() && #[trigger] e[i].0@ == k
}

spec fn entries_index<V>(e: Seq<(String, V)>, k: Seq<char>) -> int {
    choose|i: int| 0 <= i < e.len() && #[trigger] e[i].0@ == k
}

/// The entries read as a mathematical map.
pub closed spec fn entries_map<V>(e: Seq<(String, V)>) -> Map<Seq<char>, V> {
    Map::new(|k: Seq<char>| entries_have(e, k), |k: Seq<char>| e[entries_index(e, k)].1)
}

proof fn lemma_entries_at<V>(e: Seq<(String, V)>, i: int)
    requires
        entries_wf(e),
        0 <= i < e.len(),
    ensures
        entries_map(e).contains_key(e[i].0@),
        entries_map(e)[e[i].0@] == e[i].1,
{
    let k = e[i].0@;
    assert(entries_have(e, k));
    let j = entries_index(e, k);
    assert(e[j].0@ == k);
}

/// Replacing the value of one entry updates the map at that entry's key.
proof fn lemma_entries_update<V>(e: Seq<(String, V)>, i: int, k: String, w: V)
    requires
        entries_wf(e),
        0 <= i < e.len(),
        e[i].0@ == k@,
    ensures
        entries_wf(e.update(i, (k, w))),
        entries_map(e.update(i, (k, w))) == entries_map(e).insert(k@, w),
{
    let f = e.update(i, (k, w));
    assert forall|a: int, b: int|
        0 <= a < f.len() && 0 <= b < f.len() && #[trigger] f[a].0@ == #[trigger] f[b].0@ implies a == b by {
        assert(f[a].0@ == e[a].0@);
        assert(f[b].0@ == e[b].0@);
    }
    assert forall|q: Seq<char>| #![auto] entries_map(f).contains_key(q) <==> entries_map(e).insert(k@, w).contains_key(q) by {
        if entries_have(f, q) {
            let j = entries_index(f, q);
            assert(e[j].0@ == q);
        }
        if entries_have(e, q) {
            let j = entries_index(e, q);
            assert(f[j].0@ == q);
        }
        if q == k@ {
            assert(f[i].0@ == q);
        }
    }
    assert forall|q: Seq<char>| #![auto] entries_map(f).contains_key(q) implies entries_map(f)[q] == entries_map(e).insert(k@, w)[q] by {
        let j = entries_index(f, q);
        lemma_entries_at(f, j);
        if j != i {
            assert(e[j].0@ == q);
            lemma_entries_at(e, j);
        }
    }
    assert(entries_map(f) =~= entries_map(e).insert(k@, w));
}

/// Appending an entry with a new key adds that key to the map.
proof fn lemma_entries_push<V>(e: Seq<(String, V)>, k: String, w: V)
    requires
        entries_wf(e),
        !entries_map(e).contains_key(k@),
    ensures
        entries_wf(e.push((k, w))),
        entries_map(e.push((k, w))) == entries_map(e).insert(k@, w),
{
    let f = e.push((k, w));
    let n = e.len() as int;
    assert forall|a: int, b: int|
        0 <= a < f.len() && 0 <= b < f.len() && #[trigger] f[a].0@ == #[trigger] f[b].0@ implies a == b by {
        if a < n && b < n {
            assert(f[a].0@ == e[a].0@);
            assert(f[b].0@ == e[b].0@);
        } else if a < n {
            assert(entries_have(e, f[a].0@));
        } else if b < n {
            assert(entries_have(e, f[b].0@));
        }
    }
    assert(f[n].0@ == k@);
    assert forall|q: Seq<char>| #![auto] entries_map(f).contains_key(q) <==> entries_map(e).insert(k@, w).contains_key(q) by {
        if entries_have(f, q) {
            let j = entries_index(f, q);
            if j < n {
                assert(e[j].0@ == q);
            }
        }
        if entries_have(e, q) {
            let j = entries_index(e, q);
            assert(f[j].0@ == q);
        }
    }
    assert forall|q: Seq<char>| #![auto] entries_map(f).contains_key(q) implies entries_map(f)[q] == entries_map(e).insert(k@, w)[q] by {
        let j = entries_index(f, q);
        lemma_entries_at(f, j);
        if j < n {
            assert(e[j].0@ == q);
            lemma_entries_at(e, j);
        }
    }
    assert(entries_map(f) =~= entries_map(e).insert(k@, w));
}

/// Removing the entry at `i` removes its key from the map.
proof fn lemma_entries_remove<V>(e: Seq<(String, V)>, i: int)
    requires
        entries_wf(e),
        0 <= i < e.len(),
    ensures
        entries_wf(e.remove(i)),
        entries_map(e.remove(i)) == entries_map(e).remove(e[i].0@),
{
    let f = e.remove(i);
    let k = e[i].0@;
    assert forall|a: int, b: int|
        0 <= a < f.len() && 0 <= b < f.len() && #[trigger] f[a].0@ == #[trigger] f[b].0@ implies a == b by {
        let a2 = if a < i { a } else { a + 1 };
        let b2 = if b < i { b } else { b + 1 };
        assert(f[a].0@ == e[a2].0@);
        assert(f[b].0@ == e[b2].0@);
    }
    assert forall|q: Seq<char>| #![auto] entries_map(f).contains_key(q) <==> entries_map(e).remove(k).contains_key(q) by {
        if entries_have(f, q) {
            let j = entries_index(f, q);
            let j2 = if j < i { j } else { j + 1 };
            assert(e[j2].0@ == q);
            assert(j2 != i);
        }
        if entries_have(e, q) && q != k {
            let j = entries_index(e, q);
            assert(j != i);
            let j2 = if j < i { j } else { j - 1 };
            assert(f[j2].0@ == q);
        }
    }
    assert forall|q: Seq<char>| #![auto] entries_map(f).contains_key(q) implies entries_map(f)[q] == entries_map(e).remove(k)[q] by {
        let j = entries_index(f, q);
        lemma_entries_at(f, j);
        let j2 = if j < i { j } else { j + 1 };
        assert(e[j2].0@ == q);
        lemma_entries_at(e, j2);
    }
    assert(entries_map(f) =~= entries_map(e).remove(k));
}

/// Inserting an entry with a new key at any position adds that key to the map.
proof fn lemma_entries_insert<V>(e: Seq<(String, V)>, i: int, k: String, w: V)
    requires
        entries_wf(e),
        0 <= i <= e.len(),
        !entries_map(e).contains_key(k@),
    ensures
        entries_wf(e.insert(i, (k, w))),
        entries_map(e.insert(i, (k, w))) == entries_map(e).insert(k@, w),
{
    let f = e.insert(i, (k, w));
    assert(f[i].0@ == k@);
    assert forall|a: int, b: int|
        0 <= a < f.len() && 0 <= b < f.len() && #[trigger] f[a].0@ == #[trigger] f[b].0@ implies a == b by {
        if a != i && b != i {
            let a2 = if a < i { a } else { a - 1 };
            let b2 = if b < i { b } else { b - 1 };
            assert(f[a].0@ == e[a2].0@);
            assert(f[b].0@ == e[b2].0@);
        } else if a != i {
            let a2 = if a < i { a } else { a - 1 };
            assert(f[a].0@ == e[a2].0@);
            assert(entries_have(e, f[a].0@));
        } else if b != i {
            let b2 = if b < i { b } else { b - 1 };
            assert(f[b].0@ == e[b2].0@);
            assert(entries_have(e, f[b].0@));
        }
    }
    assert forall|q: Seq<char>| #![auto] entries_map(f).contains_key(q) <==> entries_map(e).insert(k@, w).contains_key(q) by {
        if entries_have(f, q) {
            let j = entries_index(f, q);
            if j != i {
                let j2 = if j < i { j } else { j - 1 };
                assert(e[j2].0@ == q);
            }
        }
        if entries_have(e, q) {
            let j = entries_index(e, q);
            let j2 = if j < i { j } else { j + 1 };
            assert(f[j2].0@ == q);
        }
    }
    assert forall|q: Seq<char>| #![auto] entries_map(f).contains_key(q) implies entries_map(f)[q] == entries_map(e).insert(k@, w)[q] by {
        let j = entries_index(f, q);
        lemma_entries_at(f, j);
        if j != i {
            let j2 = if j < i { j } else { j - 1 };
            assert(e[j2].0@ == q);
            lemma_entries_at(e, j2);
        }
    }
    assert(entries_map(f) =~= entries_map(e).insert(k@, w));
}

/// A map from string keys to values; each key occurs at most once.
/// Its view is the mathematical map from the keys' characters to the values.
#[derive(Debug)]
pub struct StrMap<V> {
    entries: Vec<(String, V)>,
}

impl<V> StrMap<V> {
    /// Number of entries.
    pub closed spec fn spec_len(&self) -> nat {
        self.entries@.len()
    }

    /// The key of the `i`-th entry, in insertion order.
    pub closed spec fn key_at(&self, i: int) -> Seq<char> {
        self.entries@[i].0@
    }

    /// The value of the `i`-th entry, in insertion order.
    pub closed spec fn val_at(&self, i: int) -> V {
        self.entries@[i].1
    }

    /// No key occurs twice. Every map keeps this; `use_type_invariant` gives it.
    #[verifier::type_invariant]
    pub closed spec fn wf(&self) -> bool {
        entries_wf(self.entries@)
    }

    /// The `i`-th entry belongs to the map.
    pub proof fn lemma_entry(&self, i: int)
        requires
            self.wf(),
            0 <= i < self.spec_len(),
        ensures
            self@.contains_key(self.key_at(i)),
            self@[self.key_at(i)] == self.val_at(i),
    {
        lemma_entries_at(self.entries@, i);
    }

    /// Distinct positions hold distinct keys.
    pub proof fn lemma_distinct(&self, i: int, j: int)
        requires
            self.wf(),
            0 <= i < self.spec_len(),
            0 <= j < self.spec_len(),
            i != j,
        ensures
            self.key_at(i) != self.key_at(j),
    {
    }

    /// Every key of the map is the key of some entry.
    pub proof fn lemma_key(&self, k: Seq<char>)
        requires
            self.wf(),
            self@.contains_key(k),
        ensures
            exists|i: int| 0 <= i < self.spec_len() && self.key_at(i) == k,
    {
        let i = entries_index(self.entries@, k);
        assert(self.key_at(i) == k);
    }

    /// The map is finite and has one key per entry.
    pub proof fn lemma_len(&self)
        requires
            self.wf(),
        ensures
            self@.dom().finite(),
            self@.dom().len() == self.spec_len(),
    {
        let e = self.entries@;
        let ks = e.map_values(|x: (String, V)| x.0@);
        assert(entries_map(e).dom() =~= ks.to_set()) by {
            assert forall|k: Seq<char>| entries_map(e).dom().contains(k) implies ks.to_set().contains(k) by {
                let i = entries_index(e, k);
                assert(ks[i] == k);
            }
            assert forall|k: Seq<char>| ks.to_set().contains(k) implies entries_map(e).dom().contains(k) by {
                let i = choose|i: int| 0 <= i < ks.len() && ks[i] == k;
                assert(e[i].0@ == k);
            }
        }
        assert(ks.no_duplicates()) by {
            assert forall|i: int, j: int| 0 <= i < ks.len() && 0 <= j < ks.len() && i != j implies ks[i] != ks[j] by {
                assert(e[i].0@ == ks[i]);
                assert(e[j].0@ == ks[j]);
            }
        }
        ks.unique_seq_to_set();
    }

    /// An empty map.
    pub fn new() -> (m: Self)
        ensures
            m@ == Map::<Seq<char>, V>::empty(),
            m.spec_len() == 0,
    {
        let m = StrMap { entries: Vec::new() };
        assert(entries_map(m.entries@) =~= Map::<Seq<char>, V>::empty());
        m
    }

    /// Number of entries.
    pub fn len(&self) -> (n: usize)
        ensures
            n == self.spec_len(),
    {
        self.entries.len()
    }

    /// Whether the map has no entry.
    pub fn is_empty(&self) -> (b: bool)
        ensures
            b == (self@ == Map::<Seq<char>, V>::empty()),
            b == (self.spec_len() == 0),
    {
        proof { use_type_invariant(self); }
        if self.entries.len() == 0 {
            assert(entries_map(self.entries@) =~= Map::<Seq<char>, V>::empty());
            true
        } else {
            proof { lemma_entries_at(self.entries@, 0); }
            assert(self@.contains_key(self.entries@[0].0@));
            false
        }
    }

    /// Removes every entry.
    pub fn clear(&mut self)
        ensures
            final(self)@ == Map::<Seq<char>, V>::empty(),
            final(self).spec_len() == 0,
    {
        let mut e: Vec<(String, V)> = Vec::new();
        std::mem::swap(&mut e, &mut self.entries);
        assert(entries_map(self.entries@) =~= Map::<Seq<char>, V>::empty());
    }

    /// Position of the entry with key `k`, if any.
    pub fn find(&self, k: &String) -> (r: Option<usize>)
        ensures
            r is None <==> !self@.contains_key(k@),
            r matches Some(i) ==> i < self.spec_len() && self.key_at(i as int) == k@,
    {
        let mut i: usize = 0;
        while i < self.entries.len()
            invariant
                i <= self.entries@.len(),
                forall|j: int| 0 <= j < i ==> self.entries@[j].0@ != k@,
            decreases self.entries@.len() - i,
        {
            if self.entries[i].0 == *k {
                return Some(i);
            }
            i = i + 1;
        }
        None
    }

    /// The key of the `i`-th entry.
    pub fn key(&self, i: usize) -> (k: &String)
        requires
            i < self.spec_len(),
        ensures
            k@ == self.key_at(i as int),
    {
        &self.entries[i].0
    }

    /// The value of the `i`-th entry.
    pub fn value(&self, i: usize) -> (v: &V)
        requires
            i < self.spec_len(),
        ensures
            *v == self.val_at(i as int),
    {
        &self.entries[i].1
    }

    /// Whether `k` is a key.
    pub fn contains_key(&self, k: &String) -> (b: bool)
        ensures
            b == self@.contains_key(k@),
    {
        self.find(k).is_some()
    }

    /// The value stored under `k`.
    pub fn get(&self, k: &String) -> (r: Option<&V>)
        ensures
            r is Some <==> self@.contains_key(k@),
            r matches Some(v) ==> *v == self@[k@],
    {
        proof { use_type_invariant(self); }
        match self.find(k) {
            Some(i) => {
                proof { lemma_entries_at(self.entries@, i as int); }
                Some(&self.entries[i].1)
            },
            None => None,
        }
    }

    /// Stores `v` under `k`, replacing what was there; a new key goes last.
    pub fn insert(&mut self, k: String, v: V)
        ensures
            final(self)@ == old(self)@.insert(k@, v),
    {
        proof { use_type_invariant(&*self); }
        let found = self.find(&k);
        let mut e: Vec<(String, V)> = Vec::new();
        std::mem::swap(&mut e, &mut self.entries);
        match found {
            Some(i) => {
                proof { lemma_entries_update(e@, i as int, k, v); }
                e.set(i, (k, v));
            },
            None => {
                proof { lemma_entries_push(e@, k, v); }
                e.push((k, v));
            },
        }
        std::mem::swap(&mut e, &mut self.entries);
    }

    /// Removes the `i`-th entry, giving back its key and value.
    pub fn remove_at(&mut self, i: usize) -> (r: (String, V))
        requires
            i < old(self).spec_len(),
        ensures
            r.0@ == old(self).key_at(i as int),
            r.1 == old(self)@[r.0@],
            old(self)@.contains_key(r.0@),
            final(self)@ == old(self)@.remove(r.0@),
            final(self).spec_len() + 1 == old(self).spec_len(),
    {
        proof {
            use_type_invariant(&*self);
            lemma_entries_at(self.entries@, i as int);
            lemma_entries_remove(self.entries@, i as int);
        }
        let mut e: Vec<(String, V)> = Vec::new();
        std::mem::swap(&mut e, &mut self.entries);
        let r = e.remove(i);
        std::mem::swap(&mut e, &mut self.entries);
        r
    }

    /// Puts an entry with a new key at position `i`.
    pub fn insert_at(&mut self, i: usize, k: String, v: V)
        requires
            i <= old(self).spec_len(),
            !old(self)@.contains_key(k@),
        ensures
            final(self)@ == old(self)@.insert(k@, v),
            final(self).spec_len() == old(self).spec_len() + 1,
    {
        proof {
            use_type_invariant(&*self);
            lemma_entries_insert(self.entries@, i as int, k, v);
        }
        let mut e: Vec<(String, V)> = Vec::new();
        std::mem::swap(&mut e, &mut self.entries);
        e.insert(i, (k, v));
        std::mem::swap(&mut e, &mut self.entries);
    }

    /// Removes the entry with key `k`, giving back its value.
    pub fn remove(&mut self, k: &String) -> (r: Option<V>)
        ensures
            final(self)@ == old(self)@.remove(k@),
            r is Some <==> old(self)@.contains_key(k@),
            r matches Some(v) ==> v == old(self)@[k@],
    {
        match self.find(k) {
            Some(i) => {
                let (_, v) = self.remove_at(i);
                Some(v)
            },
            None => {
                assert(old(self)@.remove(k@) =~= old(self)@);
                None
            },
        }
    }
}

impl<V: Clone> Clone for StrMap<V> {
    /// A copy with the same keys in the same order, each value cloned.
    fn clone(&self) -> (c: Self)
        ensures
            c.spec_len() == self.spec_len(),
            forall|i: int| 0 <= i < self.spec_len() ==> #[trigger] c.key_at(i) == self.key_at(i),
            forall|i: int| 0 <= i < self.spec_len() ==> cloned::<V>(self.val_at(i), #[trigger] c.val_at(i)),
    {
        proof { use_type_invariant(self); }
        let mut e: Vec<(String, V)> = Vec::new();
        let mut i: usize = 0;
        while i < self.entries.len()
            invariant
                i <= self.entries@.len(),
                e@.len() == i,
                entries_wf(self.entries@),
                forall|j: int| 0 <= j < i ==> #[trigger] e@[j].0@ == self.entries@[j].0@,
                forall|j: int| 0 <= j < i ==> cloned::<V>(self.entries@[j].1, #[trigger] e@[j].1),
            decreases self.entries@.len() - i,
        {
            e.push((self.entries[i].0.clone(), self.entries[i].1.clone()));
            i = i + 1;
        }
        assert forall|a: int, b: int|
            0 <= a < e@.len() && 0 <= b < e@.len() && #[trigger] e@[a].0@ == #[trigger] e@[b].0@ implies a == b by {
            assert(self.entries@[a].0@ == e@[a].0@);
            assert(self.entries@[b].0@ == e@[b].0@);
        }
        StrMap { entries: e }
    }
}

impl<V> View for StrMap<V> {
    type V = Map<Seq<char>, V>;

    closed spec fn view(&self) -> Map<Seq<char>, V> {
        entries_map(self.entries@)
    }
}

} // verus!

verus! {

/// A finite set of strings, kept in insertion order.
#[derive(Debug)]
pub struct StrSet {
    items: StrMap<()>,
}

impl View for StrSet {
    type V = Set<Seq<char>>;

    closed spec fn view(&self) -> Set<Seq<char>> {
        self.items@.dom()
    }
}

impl StrSet {
    /// Number of elements.
    pub closed spec fn spec_len(&self) -> nat {
        self.items.spec_len()
    }

    /// The `i`-th element, in insertion order.
    pub closed spec fn elem_at(&self, i: int) -> Seq<char> {
        self.items.key_at(i)
    }

    /// The elements are kept without repeats. Every set keeps this;
    /// `use_type_invariant` gives it.
    #[verifier::type_invariant]
    pub closed spec fn wf(&self) -> bool {
        self.items.wf()
    }

    /// The elements in insertion order are exactly the set, each once.
    pub proof fn lemma_elements(&self)
        requires
            self.wf(),
        ensures
            self@.finite(),
            self@.len() == self.spec_len(),
            forall|i: int| 0 <= i < self.spec_len() ==> self@.contains(#[trigger] self.elem_at(i)),
            forall|k: Seq<char>| #[trigger] self@.contains(k)
                ==> exists|i: int| 0 <= i < self.spec_len() && #[trigger] self.elem_at(i) == k,
            forall|i: int, j: int| 0 <= i < self.spec_len() && 0 <= j < self.spec_len() && i != j
                ==> #[trigger] self.elem_at(i) != #[trigger] self.elem_at(j),
    {
        self.items.lemma_len();
        assert forall|i: int| 0 <= i < self.spec_len() implies self@.contains(#[trigger] self.elem_at(i)) by {
            self.items.lemma_entry(i);
        }
        assert forall|k: Seq<char>| #[trigger] self@.contains(k)
            implies exists|i: int| 0 <= i < self.spec_len() && #[trigger] self.elem_at(i) == k by {
            self.items.lemma_key(k);
            let i = choose|i: int| 0 <= i < self.items.spec_len() && self.items.key_at(i) == k;
            assert(self.elem_at(i) == k);
        }
        assert forall|i: int, j: int| 0 <= i < self.spec_len() && 0 <= j < self.spec_len() && i != j
            implies #[trigger] self.elem_at(i) != #[trigger] self.elem_at(j) by {
            self.items.lemma_distinct(i, j);
        }
    }

    /// An empty set.
    pub fn new() -> (s: StrSet)
        ensures
            s@ == Set::<Seq<char>>::empty(),
            s.spec_len() == 0,
    {
        let items = StrMap::new();
        proof { use_type_invariant(&items); }
        let s = StrSet { items };
        assert(s@ =~= Set::<Seq<char>>::empty());
        s
    }

    /// Number of elements.
    pub fn len(&self) -> (n: usize)
        ensures
            n == self.spec_len(),
    {
        self.items.len()
    }

    /// The `i`-th element.
    pub fn elem(&self, i: usize) -> (k: &String)
        requires
            i < self.spec_len(),
        ensures
            k@ == self.elem_at(i as int),
    {
        self.items.key(i)
    }

    /// Whether `k` is an element.
    pub fn contains(&self, k: &String) -> (b: bool)
        ensures
            b == self@.contains(k@),
    {
        self.items.contains_key(k)
    }

    /// Takes the elements out, leaving the set empty.
    fn take_items(&mut self) -> (items: StrMap<()>)
        ensures
            items == old(self).items,
            final(self)@ == Set::<Seq<char>>::empty(),
    {
        let mut items = StrMap::new();
        proof { use_type_invariant(&items); }
        std::mem::swap(&mut items, &mut self.items);
        assert(final(self)@ =~= Set::<Seq<char>>::empty());
        items
    }

    /// Adds `k`.
    pub fn insert(&mut self, k: String)
        ensures
            final(self)@ == old(self)@.insert(k@),
    {
        let ghost key = k@;
        let mut items = self.take_items();
        items.insert(k, ());
        proof { use_type_invariant(&items); }
        self.items = items;
        assert(final(self)@ =~= old(self)@.insert(key));
    }

    /// Removes `k`.
    pub fn remove(&mut self, k: &String)
        ensures
            final(self)@ == old(self)@.remove(k@),
    {
        let mut items = self.take_items();
        items.remove(k);
        proof { use_type_invariant(&items); }
        self.items = items;
        assert(final(self)@ =~= old(self)@.remove(k@));
    }

    /// Removes every element.
    pub fn clear(&mut self)
        ensures
            final(self)@ == Set::<Seq<char>>::empty(),
    {
        let _ = self.take_items();
    }
}

impl Clone for StrSet {
    /// A copy with the same elements in the same order.
    fn clone(&self) -> (c: Self)
        ensures
            c@ == self@,
            c.spec_len() == self.spec_len(),
            forall|i: int| 0 <= i < self.spec_len() ==> #[trigger] c.elem_at(i) == self.elem_at(i),
    {
        proof { use_type_invariant(self); }
        let items = self.items.clone();
        proof {
            use_type_invariant(&items);
            self.items.lemma_len();
            items.lemma_len();
            assert forall|k: Seq<char>| #[trigger] items@.contains_key(k) implies self.items@.contains_key(k) by {
                items.lemma_key(k);
                let i = choose|i: int| 0 <= i < items.spec_len() && items.key_at(i) == k;
                self.items.lemma_entry(i);
            }
            assert forall|k: Seq<char>| #[trigger] self.items@.contains_key(k) implies items@.contains_key(k) by {
                self.items.lemma_key(k);
                let i = choose|i: int| 0 <= i < self.items.spec_len() && self.items.key_at(i) == k;
                items.lemma_entry(i);
            }
        }
        let c = StrSet { items };
        assert(c@ =~= self@);
        c
    }
}

} // verus!
