//! Association tables and sets kept in insertion order, each with a
//! mathematical model (`Map` / `Set`) over the views of its keys.

use vstd::prelude::*;

verus! {

/// A key whose equality is decided by its view.
pub trait Key: View + Sized {
    fn same_key(&self, other: &Self) -> (r: bool)
        ensures
            r == (self@ == other@),
    ;

    fn clone_key(&self) -> (r: Self)
        ensures
            r@ == self@,
    ;
}

/// A stored value with its own well-formedness condition.
pub trait Stored: View {
    spec fn valid(&self) -> bool;
}

impl Stored for () {
    open spec fn valid(&self) -> bool {
        true
    }
}

impl Key for u64 {
    fn same_key(&self, other: &Self) -> (r: bool) {
        *self == *other
    }

    fn clone_key(&self) -> (r: Self) {
        *self
    }
}

/// A finite map from keys to values; entries keep the order in which their
/// keys were first inserted.
pub struct Table<K: Key, V: Stored> {
    pub entries: Vec<(K, V)>,
    pub model: Ghost<Map<K::V, V::V>>,
}

impl<K: Key + Clone, V: Stored + Clone> Clone for Table<K, V> {
    fn clone(&self) -> (r: Self) {
        Table { entries: self.entries.clone(), model: Ghost(self.model@) }
    }
}

impl<K: Key, V: Stored> View for Table<K, V> {
    type V = Map<K::V, V::V>;

    open spec fn view(&self) -> Map<K::V, V::V> {
        self.model@
    }
}

impl<K: Key, V: Stored> Table<K, V> {
    pub open spec fn key_at(&self, i: int) -> K::V {
        self.entries@[i].0@
    }

    pub open spec fn wf(&self) -> bool {
        &&& self.model@.dom().finite()
        &&& self.model@.dom().len() == self.entries.len()
        &&& forall|i: int, j: int|
            0 <= i < j < self.entries.len() ==> #[trigger] self.key_at(i) != #[trigger] self.key_at(j)
        &&& forall|i: int|
            0 <= i < self.entries.len() ==> {
                &&& self.model@.contains_key(#[trigger] self.key_at(i))
                &&& self.model@[self.key_at(i)] == self.entries@[i].1@
                &&& self.entries@[i].1.valid()
            }
        &&& forall|k: K::V| #[trigger]
            self.model@.contains_key(k) ==> exists|i: int|
                0 <= i < self.entries.len() && self.key_at(i) == k
    }

    pub fn new() -> (r: Self)
        ensures
            r.wf(),
            r@ == Map::<K::V, V::V>::empty(),
    {
        Table { entries: Vec::new(), model: Ghost(Map::empty()) }
    }

    pub fn len(&self) -> (r: usize)
        requires
            self.wf(),
        ensures
            r == self@.len(),
            r == self.entries.len(),
    {
        self.entries.len()
    }

    /// Position of the entry whose key has the view of `k`.
    pub fn find(&self, k: &K) -> (r: Option<usize>)
        requires
            self.wf(),
        ensures
            match r {
                Some(i) => i < self.entries.len() && self.key_at(i as int) == k@,
                None => !self@.contains_key(k@),
            },
    {
        let mut i: usize = 0;
        while i < self.entries.len()
            invariant
                self.wf(),
                i <= self.entries.len(),
                forall|j: int| 0 <= j < i ==> self.key_at(j) != k@,
            decreases self.entries.len() - i,
        {
            if self.entries[i].0.same_key(k) {
                return Some(i);
            }
            i += 1;
        }
        None
    }

    pub fn contains_key(&self, k: &K) -> (r: bool)
        requires
            self.wf(),
        ensures
            r == self@.contains_key(k@),
    {
        match self.find(k) {
            Some(_) => true,
            None => false,
        }
    }

    pub fn get(&self, k: &K) -> (r: Option<&V>)
        requires
            self.wf(),
        ensures
            match r {
                Some(v) => self@.contains_key(k@) && v@ == self@[k@] && v.valid(),
                None => !self@.contains_key(k@),
            },
    {
        match self.find(k) {
            Some(i) => Some(&self.entries[i].1),
            None => None,
        }
    }

    pub fn insert(&mut self, k: K, v: V)
        requires
            old(self).wf(),
            v.valid(),
        ensures
            final(self).wf(),
            final(self)@ == old(self)@.insert(k@, v@),
    {
        let ghost kv = k@;
        let ghost vv = v@;
        match self.find(&k) {
            Some(i) => {
                self.entries.set(i, (k, v));
                self.model = Ghost(self.model@.insert(kv, vv));
                assert forall|j: int| 0 <= j < self.entries.len() implies
                    #[trigger] self.key_at(j) == old(self).key_at(j) by {}
                assert forall|j: int| 0 <= j < self.entries.len() implies
                    self.model@.contains_key(#[trigger] self.key_at(j))
                    && self.model@[self.key_at(j)] == self.entries@[j].1@
                    && self.entries@[j].1.valid() by {
                    if j != i {
                        assert(old(self).key_at(j) != old(self).key_at(i as int));
                    }
                }
                assert forall|q: K::V| #[trigger] self.model@.contains_key(q) implies exists|j: int|
                    0 <= j < self.entries.len() && self.key_at(j) == q by {
                    if q == kv {
                        assert(self.key_at(i as int) == q);
                    } else {
                        assert(old(self).model@.contains_key(q));
                        let j = choose|j: int| 0 <= j < old(self).entries.len() && old(self).key_at(j) == q;
                        assert(self.key_at(j) == q);
                    }
                }
                assert(self.model@.dom() =~= old(self).model@.dom());
            },
            None => {
                self.entries.push((k, v));
                self.model = Ghost(self.model@.insert(kv, vv));
                let ghost n = self.entries.len() - 1;
                assert(self.key_at(n) == kv);
                assert forall|a: int, b: int| 0 <= a < b < self.entries.len() implies
                    #[trigger] self.key_at(a) != #[trigger] self.key_at(b) by {
                    if b == n {
                        assert(old(self).model@.contains_key(old(self).key_at(a)));
                    } else {
                        assert(old(self).key_at(a) != old(self).key_at(b));
                    }
                }
                assert forall|j: int| 0 <= j < self.entries.len() implies
                    self.model@.contains_key(#[trigger] self.key_at(j))
                    && self.model@[self.key_at(j)] == self.entries@[j].1@
                    && self.entries@[j].1.valid() by {
                    if j < n {
                        assert(old(self).model@.contains_key(old(self).key_at(j)));
                    }
                }
                assert forall|q: K::V| #[trigger] self.model@.contains_key(q) implies exists|j: int|
                    0 <= j < self.entries.len() && self.key_at(j) == q by {
                    if q == kv {
                        assert(self.key_at(n) == q);
                    } else {
                        assert(old(self).model@.contains_key(q));
                        let j = choose|j: int| 0 <= j < old(self).entries.len() && old(self).key_at(j) == q;
                        assert(self.key_at(j) == q);
                    }
                }
            },
        }
    }

    /// Removes the entry of `k`, keeping the order of the others.
    pub fn remove(&mut self, k: &K) -> (r: Option<V>)
        requires
            old(self).wf(),
        ensures
            final(self).wf(),
            final(self)@ == old(self)@.remove(k@),
            match r {
                Some(v) => old(self)@.contains_key(k@) && v@ == old(self)@[k@] && v.valid(),
                None => !old(self)@.contains_key(k@),
            },
    {
        match self.find(k) {
            Some(i) => {
                let ghost kv = k@;
                let (_, v) = self.entries.remove(i);
                self.model = Ghost(self.model@.remove(kv));
                assert forall|a: int, b: int| 0 <= a < b < self.entries.len() implies
                    #[trigger] self.key_at(a) != #[trigger] self.key_at(b) by {
                    let oa = if a < i { a } else { a + 1 };
                    let ob = if b < i { b } else { b + 1 };
                    assert(old(self).key_at(oa) != old(self).key_at(ob));
                }
                assert forall|j: int| 0 <= j < self.entries.len() implies
                    self.model@.contains_key(#[trigger] self.key_at(j))
                    && self.model@[self.key_at(j)] == self.entries@[j].1@
                    && self.entries@[j].1.valid() by {
                    let oj = if j < i { j } else { j + 1 };
                    assert(old(self).key_at(oj) != old(self).key_at(i as int));
                    assert(old(self).model@.contains_key(old(self).key_at(oj)));
                }
                assert forall|q: K::V| #[trigger] self.model@.contains_key(q) implies exists|j: int|
                    0 <= j < self.entries.len() && self.key_at(j) == q by {
                    assert(old(self).model@.contains_key(q));
                    let oj = choose|j: int| 0 <= j < old(self).entries.len() && old(self).key_at(j) == q;
                    assert(oj != i);
                    let j = if oj < i { oj } else { oj - 1 };
                    assert(self.key_at(j) == q);
                }
                Some(v)
            },
            None => {
                assert(self.model@.remove(k@) =~= self.model@);
                None
            },
        }
    }
}

impl<K: Key, V: Stored> Table<K, V> {
    /// The value stored at position `i`.
    pub fn value_at(&self, i: usize) -> (r: &V)
        requires
            self.wf(),
            i < self.entries.len(),
        ensures
            self@.contains_key(self.key_at(i as int)),
            r@ == self@[self.key_at(i as int)],
            r.valid(),
    {
        assert(self.model@.contains_key(self.key_at(i as int)));
        &self.entries[i].1
    }

    /// The key stored at position `i`.
    pub fn key_ref_at(&self, i: usize) -> (r: &K)
        requires
            self.wf(),
            i < self.entries.len(),
        ensures
            r@ == self.key_at(i as int),
            self@.contains_key(r@),
    {
        assert(self.model@.contains_key(self.key_at(i as int)));
        &self.entries[i].0
    }
}

/// A finite set of keys, kept in insertion order.
#[derive(Clone)]
pub struct KeySet<K: Key> {
    pub table: Table<K, ()>,
}

impl<K: Key> View for KeySet<K> {
    type V = Set<K::V>;

    open spec fn view(&self) -> Set<K::V> {
        self.table@.dom()
    }
}

impl<K: Key> Stored for KeySet<K> {
    open spec fn valid(&self) -> bool {
        self.wf()
    }
}

impl<K: Key> KeySet<K> {
    pub open spec fn wf(&self) -> bool {
        self.table.wf()
    }

    pub open spec fn elem_at(&self, i: int) -> K::V {
        self.table.key_at(i)
    }

    pub fn new() -> (r: Self)
        ensures
            r.wf(),
            r@ == Set::<K::V>::empty(),
    {
        let r = KeySet { table: Table::new() };
        assert(r@ =~= Set::<K::V>::empty());
        r
    }

    pub fn len(&self) -> (r: usize)
        requires
            self.wf(),
        ensures
            r == self@.len(),
            r == self.table.entries.len(),
    {
        self.table.len()
    }

    pub fn contains(&self, k: &K) -> (r: bool)
        requires
            self.wf(),
        ensures
            r == self@.contains(k@),
    {
        self.table.contains_key(k)
    }

    pub fn insert(&mut self, k: K)
        requires
            old(self).wf(),
        ensures
            final(self).wf(),
            final(self)@ == old(self)@.insert(k@),
    {
        self.table.insert(k, ());
        assert(self@ =~= old(self)@.insert(k@));
    }

    pub fn remove(&mut self, k: &K)
        requires
            old(self).wf(),
        ensures
            final(self).wf(),
            final(self)@ == old(self)@.remove(k@),
    {
        let _ = self.table.remove(k);
        assert(self@ =~= old(self)@.remove(k@));
    }

    pub fn get_at(&self, i: usize) -> (r: &K)
        requires
            self.wf(),
            i < self.table.entries.len(),
        ensures
            r@ == self.elem_at(i as int),
            self@.contains(r@),
    {
        assert(self.table.model@.contains_key(self.table.key_at(i as int)));
        &self.table.entries[i].0
    }
}

/// `s` without the element `x`, when it holds it once.
pub open spec fn seq_without<A>(s: Seq<A>, x: A) -> Seq<A> {
    if s.contains(x) {
        s.remove(s.index_of(x))
    } else {
        s
    }
}

/// A queue of distinct keys in the order of their first insertion.
#[derive(Clone)]
pub struct KeyQueue<K: Key> {
    pub items: Vec<K>,
}

impl<K: Key> View for KeyQueue<K> {
    type V = Seq<K::V>;

    open spec fn view(&self) -> Seq<K::V> {
        Seq::new(self.items.len() as nat, |i: int| self.items@[i]@)
    }
}

impl<K: Key> Stored for KeyQueue<K> {
    open spec fn valid(&self) -> bool {
        self.wf()
    }
}

impl<K: Key> KeyQueue<K> {
    pub open spec fn wf(&self) -> bool {
        self@.no_duplicates()
    }

    pub fn new() -> (r: Self)
        ensures
            r.wf(),
            r@ == Seq::<K::V>::empty(),
    {
        let r = KeyQueue { items: Vec::new() };
        assert(r@ =~= Seq::<K::V>::empty());
        r
    }

    /// A queue holding `k` alone.
    pub fn singleton(k: K) -> (r: Self)
        ensures
            r.wf(),
            r@ == seq![k@],
    {
        let mut r = KeyQueue::new();
        r.push_new(k);
        r
    }

    pub fn len(&self) -> (r: usize)
        ensures
            r == self@.len(),
    {
        self.items.len()
    }

    pub fn get_at(&self, i: usize) -> (r: &K)
        requires
            i < self@.len(),
        ensures
            r@ == self@[i as int],
    {
        &self.items[i]
    }

    /// Copies of the queued keys, in order.
    pub fn to_vec(&self) -> (r: Vec<K>)
        ensures
            r@.len() == self@.len(),
            forall|i: int| 0 <= i < r@.len() ==> #[trigger] r@[i]@ == self@[i],
    {
        let mut r: Vec<K> = Vec::new();
        let mut i: usize = 0;
        while i < self.items.len()
            invariant
                i <= self.items.len(),
                r@.len() == i,
                forall|j: int| 0 <= j < i ==> #[trigger] r@[j]@ == self@[j],
            decreases self.items.len() - i,
        {
            r.push(self.items[i].clone_key());
            i += 1;
        }
        r
    }

    fn find(&self, k: &K) -> (r: Option<usize>)
        ensures
            match r {
                Some(i) => i < self@.len() && self@[i as int] == k@,
                None => !self@.contains(k@),
            },
    {
        let mut i: usize = 0;
        while i < self.items.len()
            invariant
                i <= self.items.len(),
                forall|j: int| 0 <= j < i ==> self@[j] != k@,
            decreases self.items.len() - i,
        {
            if self.items[i].same_key(k) {
                return Some(i);
            }
            i += 1;
        }
        None
    }

    fn push_new(&mut self, k: K)
        requires
            old(self).wf(),
            !old(self)@.contains(k@),
        ensures
            final(self).wf(),
            final(self)@ == old(self)@.push(k@),
    {
        self.items.push(k);
        assert(self@ =~= old(self)@.push(k@));
    }

    /// Appends `k` unless the queue already holds it.
    pub fn insert(&mut self, k: K)
        requires
            old(self).wf(),
        ensures
            final(self).wf(),
            final(self)@ == if old(self)@.contains(k@) { old(self)@ } else { old(self)@.push(k@) },
    {
        if self.find(&k).is_none() {
            self.push_new(k);
        }
    }

    /// Removes `k`, keeping the order of the others.
    pub fn remove(&mut self, k: &K)
        requires
            old(self).wf(),
        ensures
            final(self).wf(),
            final(self)@ == seq_without(old(self)@, k@),
    {
        match self.find(k) {
            Some(i) => {
                let ghost s = old(self)@;
                let _ = self.items.remove(i);
                assert(s.contains(k@));
                assert(s.index_of(k@) == i);
                assert(self@ =~= s.remove(i as int));
            },
            None => {},
        }
    }
}

} // verus!
