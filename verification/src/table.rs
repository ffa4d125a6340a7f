//! A map held as a vector of entries in ascending order of their keys.

use vstd::prelude::*;
use crate::address::Address;
use crate::numbers::U256;

verus! {

/// Keys with a total order: each key has a rank of its own.
pub trait Key: Copy {
    /// The place of the key in the order.
    spec fn rank(self) -> int;

    /// Keys of one rank are one key.
    proof fn rank_injective(a: Self, b: Self)
        requires
            a.rank() == b.rank(),
        ensures
            a == b,
    ;

    /// Whether this key comes before `other`.
    fn before(self, other: Self) -> (r: bool)
        ensures
            r == (self.rank() < other.rank()),
    ;
}

impl Key for U256 {
    open spec fn rank(self) -> int {
        self.value()
    }

    proof fn rank_injective(a: Self, b: Self) {
    }

    fn before(self, other: Self) -> (r: bool) {
        self.less_than(other)
    }
}

impl Key for Address {
    open spec fn rank(self) -> int {
        self.value()
    }

    proof fn rank_injective(a: Self, b: Self) {
    }

    fn before(self, other: Self) -> (r: bool) {
        self.hi < other.hi || (self.hi == other.hi && self.lo < other.lo)
    }
}

/// The map that a sequence of entries stands for.
pub open spec fn entries_map<K, V>(entries: Seq<(K, V)>) -> Map<K, V>
    decreases entries.len(),
{
    if entries.len() == 0 {
        Map::empty()
    } else {
        entries_map(entries.drop_last()).insert(entries.last().0, entries.last().1)
    }
}

/// Whether the keys of `entries` ascend.
pub open spec fn ascending<K: Key, V>(entries: Seq<(K, V)>) -> bool {
    forall|i: int, j: int|
        0 <= i < j < entries.len() ==> (#[trigger] entries[i]).0.rank() < (
        #[trigger] entries[j]).0.rank()
}

/// Every entry of an ascending sequence is in its map, and nothing else is.
pub proof fn lemma_entries_map<K: Key, V>(entries: Seq<(K, V)>)
    requires
        ascending(entries),
    ensures
        entries_map(entries).dom().finite(),
        entries_map(entries).len() == entries.len(),
        forall|i: int|
            0 <= i < entries.len() ==> entries_map(entries).contains_key(
                (#[trigger] entries[i]).0,
            ) && entries_map(entries)[entries[i].0] == entries[i].1,
        forall|k: K|
            #[trigger] entries_map(entries).contains_key(k) ==> exists|i: int|
                0 <= i < entries.len() && (#[trigger] entries[i]).0 == k,
    decreases entries.len(),
{
    if entries.len() > 0 {
        let init = entries.drop_last();
        lemma_entries_map(init);
        let last = entries.last();
        assert(!entries_map(init).contains_key(last.0)) by {
            if entries_map(init).contains_key(last.0) {
                let i = choose|i: int| 0 <= i < init.len() && (#[trigger] init[i]).0 == last.0;
                assert(entries[i].0.rank() < entries[entries.len() - 1].0.rank());
            }
        }
        assert forall|i: int| 0 <= i < entries.len() implies entries_map(entries).contains_key(
            (#[trigger] entries[i]).0,
        ) && entries_map(entries)[entries[i].0] == entries[i].1 by {
            if i < init.len() {
                assert(init[i] == entries[i]);
            }
        }
        assert forall|k: K| #[trigger]
            entries_map(entries).contains_key(k) implies exists|i: int|
            0 <= i < entries.len() && (#[trigger] entries[i]).0 == k by {
            if k == last.0 {
                assert(entries[entries.len() - 1].0 == k);
            } else {
                let i = choose|i: int| 0 <= i < init.len() && (#[trigger] init[i]).0 == k;
                assert(entries[i].0 == k);
            }
        }
    }
}

/// A map from `K` to `V`, held as entries in ascending order.
pub struct Table<K: Key, V> {
    entries: Vec<(K, V)>,
}

impl<K: Key, V> View for Table<K, V> {
    type V = Map<K, V>;

    closed spec fn view(&self) -> Map<K, V> {
        entries_map(self.entries@)
    }
}

impl<K: Key, V> Table<K, V> {
    /// The entries ascend.
    #[verifier::type_invariant]
    spec fn ordered(self) -> bool {
        ascending(self.entries@)
    }

    /// A table without entries.
    pub fn new() -> (r: Self)
        ensures
            r@ == Map::<K, V>::empty(),
    {
        Table { entries: Vec::new() }
    }

    /// How many of the keys come before `key`.
    fn position(&self, key: K) -> (r: usize)
        ensures
            r <= self.entries@.len(),
            forall|i: int|
                0 <= i < r ==> (#[trigger] self.entries@[i]).0.rank() < key.rank(),
            forall|i: int|
                r <= i < self.entries@.len() ==> key.rank() <= (
                #[trigger] self.entries@[i]).0.rank(),
    {
        proof {
            use_type_invariant(self);
        }
        let mut low: usize = 0;
        let mut high: usize = self.entries.len();
        while low < high
            invariant
                low <= high <= self.entries@.len(),
                ascending(self.entries@),
                forall|i: int|
                    0 <= i < low ==> (#[trigger] self.entries@[i]).0.rank() < key.rank(),
                forall|i: int|
                    high <= i < self.entries@.len() ==> key.rank() <= (
                    #[trigger] self.entries@[i]).0.rank(),
            decreases high - low,
        {
            let middle: usize = low + (high - low) / 2;
            if self.entries[middle].0.before(key) {
                low = middle + 1;
            } else {
                high = middle;
            }
        }
        low
    }

    /// The entries, in ascending order of their keys.
    pub fn entries(&self) -> (r: &Vec<(K, V)>)
        ensures
            entries_map(r@) == self@,
            ascending(r@),
    {
        proof {
            use_type_invariant(self);
        }
        &self.entries
    }

    /// The number of entries.
    pub fn len(&self) -> (r: usize)
        ensures
            self@.dom().finite(),
            r == self@.len(),
    {
        proof {
            use_type_invariant(self);
            lemma_entries_map(self.entries@);
        }
        self.entries.len()
    }

    /// The value under `key`, if there is one.
    pub fn get(&self, key: K) -> (r: Option<&V>)
        ensures
            match r {
                Some(v) => self@.contains_key(key) && self@[key] == *v,
                None => !self@.contains_key(key),
            },
    {
        let at: usize = self.position(key);
        proof {
            use_type_invariant(self);
            lemma_entries_map(self.entries@);
        }
        if at < self.entries.len() && !key.before(self.entries[at].0) {
            proof {
                K::rank_injective(key, self.entries@[at as int].0);
            }
            Some(&self.entries[at].1)
        } else {
            None
        }
    }

    /// Puts `value` under `key`, in place of what was there.
    pub fn insert(&mut self, key: K, value: V)
        ensures
            final(self)@ == old(self)@.insert(key, value),
    {
        let at: usize = self.position(key);
        proof {
            use_type_invariant(&*self);
            lemma_entries_map(self.entries@);
        }
        let ghost before = self.entries@;
        let mut entries: Vec<(K, V)> = Vec::new();
        std::mem::swap(&mut entries, &mut self.entries);
        if at < entries.len() && !key.before(entries[at].0) {
            proof {
                K::rank_injective(key, before[at as int].0);
            }
            entries.set(at, (key, value));
            proof {
                assert(entries@ == before.update(at as int, (key, value)));
                lemma_entries_update(before, at as int, value);
            }
        } else {
            entries.insert(at, (key, value));
            proof {
                lemma_entries_insert(before, at as int, key, value);
            }
        }
        self.entries = entries;
    }

    /// Takes `key` and its value out, if they are there.
    pub fn remove(&mut self, key: K)
        ensures
            final(self)@ == old(self)@.remove(key),
    {
        let at: usize = self.position(key);
        proof {
            use_type_invariant(&*self);
            lemma_entries_map(self.entries@);
        }
        let ghost before = self.entries@;
        let mut entries: Vec<(K, V)> = Vec::new();
        std::mem::swap(&mut entries, &mut self.entries);
        if at < entries.len() && !key.before(entries[at].0) {
            proof {
                K::rank_injective(key, before[at as int].0);
            }
            let _ = entries.remove(at);
            proof {
                lemma_entries_remove(before, at as int);
            }
        } else {
            proof {
                assert(!entries_map(before).contains_key(key));
                assert(entries_map(before).remove(key) =~= entries_map(before));
            }
        }
        self.entries = entries;
    }
}

/// Two ascending sequences with the same entries stand for one map.
proof fn lemma_same_map<K: Key, V>(entries: Seq<(K, V)>, m: Map<K, V>)
    requires
        ascending(entries),
        forall|i: int|
            0 <= i < entries.len() ==> m.contains_key((#[trigger] entries[i]).0)
                && m[entries[i].0] == entries[i].1,
        forall|k: K|
            #[trigger] m.contains_key(k) ==> exists|i: int|
                0 <= i < entries.len() && (#[trigger] entries[i]).0 == k,
    ensures
        entries_map(entries) == m,
{
    lemma_entries_map(entries);
    assert forall|k: K| #[trigger] m.contains_key(k) implies entries_map(entries).contains_key(k)
        && entries_map(entries)[k] == m[k] by {
        let i = choose|i: int| 0 <= i < entries.len() && (#[trigger] entries[i]).0 == k;
        assert(entries[i].0 == k);
    }
    assert forall|k: K| #[trigger] entries_map(entries).contains_key(k) implies m.contains_key(
        k,
    ) by {
        let i = choose|i: int| 0 <= i < entries.len() && (#[trigger] entries[i]).0 == k;
        assert(entries[i].0 == k);
    }
    assert(entries_map(entries) =~= m);
}

/// Replacing the value of an entry replaces it in the map.
proof fn lemma_entries_update<K: Key, V>(entries: Seq<(K, V)>, at: int, value: V)
    requires
        ascending(entries),
        0 <= at < entries.len(),
    ensures
        ascending(entries.update(at, (entries[at].0, value))),
        entries_map(entries.update(at, (entries[at].0, value))) == entries_map(entries).insert(
            entries[at].0,
            value,
        ),
{
    let after = entries.update(at, (entries[at].0, value));
    let m = entries_map(entries).insert(entries[at].0, value);
    lemma_entries_map(entries);
    assert forall|i: int| 0 <= i < after.len() implies m.contains_key((#[trigger] after[i]).0)
        && m[after[i].0] == after[i].1 by {
        assert(entries[i].0 == after[i].0);
        if i < at {
            assert(entries[i].0.rank() < entries[at].0.rank());
        } else if at < i {
            assert(entries[at].0.rank() < entries[i].0.rank());
        }
    }
    assert forall|k: K| #[trigger] m.contains_key(k) implies exists|i: int|
        0 <= i < after.len() && (#[trigger] after[i]).0 == k by {
        if k == entries[at].0 {
            assert(after[at].0 == k);
        } else {
            let i = choose|i: int| 0 <= i < entries.len() && (#[trigger] entries[i]).0 == k;
            assert(after[i].0 == k);
        }
    }
    lemma_same_map(after, m);
}

/// Inserting an entry at its place inserts it into the map.
proof fn lemma_entries_insert<K: Key, V>(entries: Seq<(K, V)>, at: int, key: K, value: V)
    requires
        ascending(entries),
        0 <= at <= entries.len(),
        forall|i: int| 0 <= i < at ==> (#[trigger] entries[i]).0.rank() < key.rank(),
        forall|i: int|
            at <= i < entries.len() ==> key.rank() < (#[trigger] entries[i]).0.rank(),
    ensures
        ascending(entries.insert(at, (key, value))),
        entries_map(entries.insert(at, (key, value))) == entries_map(entries).insert(key, value),
{
    let after = entries.insert(at, (key, value));
    let m = entries_map(entries).insert(key, value);
    lemma_entries_map(entries);
    assert forall|i: int, j: int| 0 <= i < j < after.len() implies (
    #[trigger] after[i]).0.rank() < (#[trigger] after[j]).0.rank() by {
        if i < at && at < j {
            assert(after[i] == entries[i]);
            assert(after[j] == entries[j - 1]);
        } else if j < at {
            assert(after[i] == entries[i]);
            assert(after[j] == entries[j]);
        } else if j == at {
            assert(after[i] == entries[i]);
        } else if i == at {
            assert(after[j] == entries[j - 1]);
        } else {
            assert(after[i] == entries[i - 1]);
            assert(after[j] == entries[j - 1]);
        }
    }
    assert forall|i: int| 0 <= i < after.len() implies m.contains_key((#[trigger] after[i]).0)
        && m[after[i].0] == after[i].1 by {
        if i < at {
            assert(after[i] == entries[i]);
        } else if at < i {
            assert(after[i] == entries[i - 1]);
        }
    }
    assert forall|k: K| #[trigger] m.contains_key(k) implies exists|i: int|
        0 <= i < after.len() && (#[trigger] after[i]).0 == k by {
        if k == key {
            assert(after[at].0 == k);
        } else {
            let i = choose|i: int| 0 <= i < entries.len() && (#[trigger] entries[i]).0 == k;
            if i < at {
                assert(after[i].0 == k);
            } else {
                assert(after[i + 1].0 == k);
            }
        }
    }
    lemma_same_map(after, m);
}

/// Taking an entry out removes its key from the map.
proof fn lemma_entries_remove<K: Key, V>(entries: Seq<(K, V)>, at: int)
    requires
        ascending(entries),
        0 <= at < entries.len(),
    ensures
        ascending(entries.remove(at)),
        entries_map(entries.remove(at)) == entries_map(entries).remove(entries[at].0),
{
    let after = entries.remove(at);
    let m = entries_map(entries).remove(entries[at].0);
    lemma_entries_map(entries);
    assert forall|i: int, j: int| 0 <= i < j < after.len() implies (
    #[trigger] after[i]).0.rank() < (#[trigger] after[j]).0.rank() by {
        let p = if i < at { i } else { i + 1 };
        let q = if j < at { j } else { j + 1 };
        assert(after[i] == entries[p] && after[j] == entries[q]);
    }
    assert forall|i: int| 0 <= i < after.len() implies m.contains_key((#[trigger] after[i]).0)
        && m[after[i].0] == after[i].1 by {
        let p = if i < at { i } else { i + 1 };
        assert(after[i] == entries[p]);
        if p < at {
            assert(entries[p].0.rank() < entries[at].0.rank());
        } else {
            assert(entries[at].0.rank() < entries[p].0.rank());
        }
    }
    assert forall|k: K| #[trigger] m.contains_key(k) implies exists|i: int|
        0 <= i < after.len() && (#[trigger] after[i]).0 == k by {
        let i = choose|i: int| 0 <= i < entries.len() && (#[trigger] entries[i]).0 == k;
        if i < at {
            assert(after[i].0 == k);
        } else {
            assert(after[i - 1].0 == k);
        }
    }
    lemma_same_map(after, m);
}

} // verus!
