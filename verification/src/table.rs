//! A small insertion-ordered map from `u32` keys to values.
//!
//! The render graph keys its resources and per-pass accesses by integer
//! identifiers; this table keeps them in the order in which they were first
//! inserted, so every walk over it is deterministic.
use vstd::prelude::*;

verus! {

/// No key occurs twice in `s`.
pub open spec fn keys_unique<V>(s: Seq<(u32, V)>) -> bool {
    forall|i: int, j: int| 0 <= i < j < s.len() ==> #[trigger] s[i].0 != #[trigger] s[j].0
}

/// `k` occurs as a key in `s`.
pub open spec fn has_key<V>(s: Seq<(u32, V)>, k: u32) -> bool {
    exists|i: int| 0 <= i < s.len() && #[trigger] s[i].0 == k
}

/// The map that a sequence of unique-keyed pairs stands for.
pub open spec fn seq_to_map<V>(s: Seq<(u32, V)>) -> Map<u32, V>
    decreases s.len(),
{
    if s.len() == 0 {
        Map::empty()
    } else {
        seq_to_map(s.drop_last()).insert(s.last().0, s.last().1)
    }
}

/// The table that `s` becomes when `k` is mapped to `v`: the entry of `k` is
/// replaced in place, or the pair is appended.
pub open spec fn seq_upsert<V>(s: Seq<(u32, V)>, k: u32, v: V) -> Seq<(u32, V)> {
    if has_key(s, k) {
        s.update(index_of_key(s, k), (k, v))
    } else {
        s.push((k, v))
    }
}

/// The position of `k` in `s` (meaningful when `has_key(s, k)`).
pub open spec fn index_of_key<V>(s: Seq<(u32, V)>, k: u32) -> int {
    choose|i: int| 0 <= i < s.len() && s[i].0 == k
}

pub proof fn lemma_index_of_key<V>(s: Seq<(u32, V)>, k: u32)
    requires
        has_key(s, k),
    ensures
        0 <= index_of_key(s, k) < s.len(),
        s[index_of_key(s, k)].0 == k,
        keys_unique(s) ==> forall|j: int| 0 <= j < s.len() && s[j].0 == k ==> j == index_of_key(s, k),
{
}

/// The map view of a sequence knows exactly its keys, with their values.
pub proof fn lemma_seq_to_map<V>(s: Seq<(u32, V)>)
    requires
        keys_unique(s),
    ensures
        forall|k: u32| #[trigger] seq_to_map(s).dom().contains(k) <==> has_key(s, k),
        forall|i: int| 0 <= i < s.len() ==> #[trigger] seq_to_map(s)[s[i].0] == s[i].1,
    decreases s.len(),
{
    if s.len() > 0 {
        let t = s.drop_last();
        let last = s.last();
        assert(keys_unique(t)) by {
            assert forall|i: int, j: int| 0 <= i < j < t.len() implies #[trigger] t[i].0 != #[trigger] t[j].0 by {
                assert(t[i] == s[i] && t[j] == s[j]);
            }
        }
        lemma_seq_to_map(t);
        assert(seq_to_map(s) == seq_to_map(t).insert(last.0, last.1));
        assert forall|k: u32| #[trigger] seq_to_map(s).dom().contains(k) <==> has_key(s, k) by {
            if has_key(s, k) {
                let i = choose|i: int| 0 <= i < s.len() && #[trigger] s[i].0 == k;
                assert(0 <= i < s.len() && s[i].0 == k);
                if i < s.len() - 1 {
                    assert(t[i] == s[i]);
                    assert(has_key(t, k));
                }
            }
            if seq_to_map(t).dom().contains(k) {
                assert(has_key(t, k));
                let i = choose|i: int| 0 <= i < t.len() && #[trigger] t[i].0 == k;
                assert(0 <= i < t.len() && t[i].0 == k);
                assert(s[i] == t[i]);
                assert(has_key(s, k));
            }
            if k == last.0 {
                assert(s[s.len() - 1].0 == k);
                assert(has_key(s, k));
            }
        }
        assert forall|i: int| 0 <= i < s.len() implies #[trigger] seq_to_map(s)[s[i].0] == s[i].1 by {
            if i < s.len() - 1 {
                assert(t[i] == s[i]);
                assert(s[i].0 != s[s.len() - 1].0);
                assert(seq_to_map(t)[t[i].0] == t[i].1);
            }
        }
    }
}

/// Upserting into the sequence upserts into its map.
pub proof fn lemma_seq_upsert<V>(s: Seq<(u32, V)>, k: u32, v: V)
    requires
        keys_unique(s),
    ensures
        keys_unique(seq_upsert(s, k, v)),
        seq_to_map(seq_upsert(s, k, v)) =~= seq_to_map(s).insert(k, v),
{
    let u = seq_upsert(s, k, v);
    lemma_seq_to_map(s);
    if has_key(s, k) {
        lemma_index_of_key(s, k);
        let idx = index_of_key(s, k);
        assert(keys_unique(u)) by {
            assert forall|i: int, j: int| 0 <= i < j < u.len() implies #[trigger] u[i].0 != #[trigger] u[j].0 by {
                assert(s[i].0 != s[j].0);
            }
        }
    } else {
        assert(keys_unique(u)) by {
            assert forall|i: int, j: int| 0 <= i < j < u.len() implies #[trigger] u[i].0 != #[trigger] u[j].0 by {
                if j == s.len() {
                    assert(!has_key(s, k));
                    assert(s[i].0 != k);
                } else {
                    assert(s[i].0 != s[j].0);
                }
            }
        }
    }
    lemma_seq_to_map(u);
    assert forall|key: u32| #[trigger] seq_to_map(u).dom().contains(key) <==> seq_to_map(s).insert(k, v).dom().contains(key) by {
        if has_key(u, key) {
            let i = choose|i: int| 0 <= i < u.len() && #[trigger] u[i].0 == key;
            if key != k {
                if has_key(s, k) {
                    assert(s[i].0 == key);
                } else {
                    assert(i < s.len());
                    assert(s[i].0 == key);
                }
            }
        }
        if key != k && has_key(s, key) {
            let i = choose|i: int| 0 <= i < s.len() && #[trigger] s[i].0 == key;
            if has_key(s, k) {
                assert(u[i].0 == key);
            } else {
                assert(u[i].0 == key);
            }
        }
        if key == k {
            if has_key(s, k) {
                assert(u[index_of_key(s, k)].0 == k);
            } else {
                assert(u[s.len() as int].0 == k);
            }
        }
    }
    assert forall|key: u32| #[trigger] seq_to_map(u).dom().contains(key) implies seq_to_map(u)[key] == seq_to_map(s).insert(k, v)[key] by {
        let i = choose|i: int| 0 <= i < u.len() && #[trigger] u[i].0 == key;
        assert(seq_to_map(u)[u[i].0] == u[i].1);
        if key != k {
            assert(s[i].0 == key);
            assert(seq_to_map(s)[s[i].0] == s[i].1);
        }
    }
}

/// An insertion-ordered table from `u32` keys to values.
pub struct AssocTable<V> {
    entries: Vec<(u32, V)>,
}

impl<V> AssocTable<V> {
    /// The pairs of the table, in insertion order.
    pub closed spec fn entries(&self) -> Seq<(u32, V)> {
        self.entries@
    }

    /// The table as a map.
    pub open spec fn view(&self) -> Map<u32, V> {
        seq_to_map(self.entries())
    }

    /// The table's invariant: no key occurs twice.
    pub open spec fn wf(&self) -> bool {
        keys_unique(self.entries())
    }

    /// An empty table.
    pub fn new() -> (t: Self)
        ensures
            t.wf(),
            t.entries() == Seq::<(u32, V)>::empty(),
            t@ == Map::<u32, V>::empty(),
    {
        AssocTable { entries: Vec::new() }
    }

    /// The number of keys.
    pub fn len(&self) -> (n: usize)
        ensures
            n == self.entries().len(),
    {
        self.entries.len()
    }

    /// The pair at position `i` in insertion order.
    pub fn entry(&self, i: usize) -> (e: &(u32, V))
        requires
            i < self.entries().len(),
        ensures
            *e == self.entries()[i as int],
    {
        &self.entries[i]
    }

    /// The position of `k`, if it is a key.
    pub fn position(&self, k: u32) -> (r: Option<usize>)
        requires
            self.wf(),
        ensures
            match r {
                Some(i) => i < self.entries().len() && self.entries()[i as int].0 == k
                    && i == index_of_key(self.entries(), k),
                None => !has_key(self.entries(), k),
            },
            r is Some <==> has_key(self.entries(), k),
    {
        let mut i: usize = 0;
        while i < self.entries.len()
            invariant
                i <= self.entries@.len(),
                keys_unique(self.entries@),
                forall|j: int| 0 <= j < i ==> self.entries@[j].0 != k,
            decreases self.entries@.len() - i,
        {
            if self.entries[i].0 == k {
                proof {
                    assert(has_key(self.entries@, k));
                    lemma_index_of_key(self.entries@, k);
                    assert(self.entries@[i as int].0 == k);
                }
                return Some(i);
            }
            i += 1;
        }
        None
    }

    /// `k` is a key.
    pub fn contains_key(&self, k: u32) -> (b: bool)
        requires
            self.wf(),
        ensures
            b == self@.dom().contains(k),
    {
        proof {
            lemma_seq_to_map(self.entries@);
        }
        self.position(k).is_some()
    }

    /// The value of `k`, if it is a key.
    pub fn get(&self, k: u32) -> (r: Option<&V>)
        requires
            self.wf(),
        ensures
            match r {
                Some(v) => self@.dom().contains(k) && *v == self@[k],
                None => !self@.dom().contains(k),
            },
    {
        proof {
            lemma_seq_to_map(self.entries@);
        }
        match self.position(k) {
            Some(i) => Some(&self.entries[i].1),
            None => None,
        }
    }

    /// Maps `k` to `v`, in place when `k` is a key, else at the end.
    pub fn insert(&mut self, k: u32, v: V)
        requires
            old(self).wf(),
        ensures
            final(self).wf(),
            final(self).entries() == seq_upsert(old(self).entries(), k, v),
            final(self)@ == old(self)@.insert(k, v),
    {
        proof {
            lemma_seq_upsert(self.entries@, k, v);
        }
        match self.position(k) {
            Some(i) => {
                self.entries.set(i, (k, v));
            },
            None => {
                self.entries.push((k, v));
            },
        }
    }

    /// Takes the value of `k` out of the table, leaving the table without the
    /// key; the caller puts a value back with `restore`.
    pub fn take(&mut self, k: u32) -> (r: Option<(usize, V)>)
        requires
            old(self).wf(),
        ensures
            match r {
                Some((i, v)) => {
                    &&& i < old(self).entries().len()
                    &&& old(self).entries()[i as int] == (k, v)
                    &&& final(self).entries() == old(self).entries().remove(i as int)
                    &&& old(self)@.dom().contains(k) && v == old(self)@[k]
                },
                None => *final(self) == *old(self) && !old(self)@.dom().contains(k),
            },
    {
        proof {
            lemma_seq_to_map(self.entries@);
        }
        match self.position(k) {
            Some(i) => {
                let (key, v) = self.entries.remove(i);
                Some((i, v))
            },
            None => None,
        }
    }

    /// Takes the pair at position `i` out of the table.
    pub fn take_at(&mut self, i: usize) -> (r: (u32, V))
        requires
            i < old(self).entries().len(),
        ensures
            r == old(self).entries()[i as int],
            final(self).entries() == old(self).entries().remove(i as int),
    {
        self.entries.remove(i)
    }

    /// Puts a value back at the position `take` left empty.
    pub fn restore(&mut self, i: usize, k: u32, v: V)
        requires
            i <= old(self).entries().len(),
            keys_unique(old(self).entries().insert(i as int, (k, v))),
        ensures
            final(self).entries() == old(self).entries().insert(i as int, (k, v)),
            final(self).wf(),
    {
        self.entries.insert(i, (k, v));
    }
}

/// Taking a key out and putting a value back at its position is an update of the key.
pub proof fn lemma_take_restore<V>(s: Seq<(u32, V)>, i: int, k: u32, v: V)
    requires
        keys_unique(s),
        0 <= i < s.len(),
        s[i].0 == k,
    ensures
        s.remove(i).insert(i, (k, v)) == seq_upsert(s, k, v),
        keys_unique(s.remove(i).insert(i, (k, v))),
        seq_to_map(s.remove(i).insert(i, (k, v))) =~= seq_to_map(s).insert(k, v),
{
    assert(has_key(s, k));
    lemma_index_of_key(s, k);
    assert(s.remove(i).insert(i, (k, v)) =~= s.update(i, (k, v)));
    lemma_seq_upsert(s, k, v);
}

} // verus!
