use vstd::prelude::*;

verus! {

/// The map a sequence of entries denotes, later entries winning.
pub open spec fn kv_map(s: Seq<(String, String)>) -> Map<Seq<char>, Seq<char>>
    decreases s.len(),
{
    if s.len() == 0 {
        Map::empty()
    } else {
        kv_map(s.drop_last()).insert(s.last().0@, s.last().1@)
    }
}

/// No two entries share a key.
pub open spec fn keys_unique(s: Seq<(String, String)>) -> bool {
    forall|i: int, j: int| 0 <= i < j < s.len() ==> (#[trigger] s[i]).0@ != (#[trigger] s[j]).0@
}

/// With unique keys, the denoted map holds a key exactly when some entry
/// carries it, and then maps it to that entry's value.
proof fn lemma_kv_lookup(s: Seq<(String, String)>, k: Seq<char>)
    requires
        keys_unique(s),
    ensures
        kv_map(s).contains_key(k) <==> exists|i: int|
            0 <= i < s.len() && (#[trigger] s[i]).0@ == k,
        forall|i: int|
            0 <= i < s.len() && (#[trigger] s[i]).0@ == k ==> kv_map(s).contains_key(k) && kv_map(
                s,
            )[k] == s[i].1@,
    decreases s.len(),
{
    if s.len() > 0 {
        let t = s.drop_last();
        assert(keys_unique(t)) by {
            assert(forall|i: int| 0 <= i < t.len() ==> #[trigger] t[i] == s[i]);
        }
        lemma_kv_lookup(t, k);
        assert(forall|i: int| 0 <= i < t.len() ==> #[trigger] t[i] == s[i]);
        if s.last().0@ == k {
            assert(s[s.len() - 1].0@ == k);
        } else {
            assert(kv_map(s).contains_key(k) <==> kv_map(t).contains_key(k));
            if kv_map(s).contains_key(k) {
                let w = choose|i: int| 0 <= i < t.len() && (#[trigger] t[i]).0@ == k;
                assert(s[w].0@ == k);
            }
            if exists|i: int| 0 <= i < s.len() && (#[trigger] s[i]).0@ == k {
                let w = choose|i: int| 0 <= i < s.len() && (#[trigger] s[i]).0@ == k;
                assert(w < s.len() - 1);
                assert(t[w].0@ == k);
            }
        }
    }
}

/// Removing the entry that carries a key removes exactly that key from the
/// denoted map and keeps the others unique.
proof fn lemma_kv_remove(s: Seq<(String, String)>, i: int)
    requires
        keys_unique(s),
        0 <= i < s.len(),
    ensures
        keys_unique(s.remove(i)),
        kv_map(s.remove(i)) == kv_map(s).remove(s[i].0@),
    decreases s.len(),
{
    let k = s[i].0@;
    let t = s.drop_last();
    assert(keys_unique(t)) by {
        assert(forall|j: int| 0 <= j < t.len() ==> #[trigger] t[j] == s[j]);
    }
    assert(keys_unique(s.remove(i))) by {
        assert(forall|j: int|
            0 <= j < s.len() - 1 ==> #[trigger] s.remove(i)[j] == (if j < i {
                s[j]
            } else {
                s[j + 1]
            }));
    }
    if i == s.len() - 1 {
        assert(s.remove(i) =~= t);
        lemma_kv_lookup(t, k);
        assert(!kv_map(t).contains_key(k)) by {
            assert(forall|j: int| 0 <= j < t.len() ==> #[trigger] t[j] == s[j]);
        }
        assert(kv_map(t) =~= kv_map(s).remove(k));
    } else {
        lemma_kv_remove(t, i);
        assert(s.remove(i).drop_last() =~= t.remove(i));
        assert(s.remove(i).last() == s.last());
        assert(kv_map(s.remove(i)) == kv_map(t.remove(i)).insert(s.last().0@, s.last().1@));
        assert(kv_map(t.remove(i)) == kv_map(t).remove(k));
        assert(t[i] == s[i]);
        assert(s.last().0@ != k);
        assert(kv_map(t).remove(k).insert(s.last().0@, s.last().1@) =~= kv_map(t).insert(
            s.last().0@,
            s.last().1@,
        ).remove(k));
    }
}

/// A key-value store with copied keys and values. Keys are compared by
/// their character sequences; getting or removing an absent key is silently
/// a no-op.
pub struct KvStore {
    entries: Vec<(String, String)>,
}

impl View for KvStore {
    type V = Map<Seq<char>, Seq<char>>;

    closed spec fn view(&self) -> Map<Seq<char>, Seq<char>> {
        kv_map(self.entries@)
    }
}

impl KvStore {
    /// The store is well formed: no two entries share a key.
    pub closed spec fn wf(&self) -> bool {
        keys_unique(self.entries@)
    }

    /// Returns a new empty store: every get comes back `None`.
    pub fn new() -> (r: KvStore)
        ensures
            r.wf(),
            r@ == Map::<Seq<char>, Seq<char>>::empty(),
    {
        KvStore { entries: Vec::new() }
    }

    /// The index of the entry carrying `key`, if one does.
    fn find(&self, key: &String) -> (r: Option<usize>)
        requires
            self.wf(),
        ensures
            match r {
                Some(i) => i < self.entries@.len() && self.entries@[i as int].0@ == key@,
                None => forall|i: int|
                    0 <= i < self.entries@.len() ==> (#[trigger] self.entries@[i]).0@ != key@,
            },
    {
        let n = self.entries.len();
        let mut i: usize = 0;
        while i < n
            invariant
                i <= n,
                n == self.entries@.len(),
                forall|j: int| 0 <= j < i ==> (#[trigger] self.entries@[j]).0@ != key@,
            decreases n - i,
        {
            if self.entries[i].0 == *key {
                return Some(i);
            }
            i = i + 1;
        }
        None
    }

    /// Inserts a new entry or overwrites the one with an equal key; the
    /// value can be got back or removed afterwards.
    pub fn set(&mut self, key: String, value: String)
        requires
            old(self).wf(),
        ensures
            final(self).wf(),
            final(self)@ == old(self)@.insert(key@, value@),
    {
        match self.find(&key) {
            Some(i) => {
                proof {
                    lemma_kv_remove(self.entries@, i as int);
                }
                self.entries.remove(i);
            },
            None => {},
        }
        let ghost pruned = self.entries@;
        proof {
            lemma_kv_lookup(pruned, key@);
        }
        self.entries.push((key, value));
        proof {
            assert(self.entries@.drop_last() =~= pruned);
            assert(kv_map(self.entries@) == kv_map(pruned).insert(
                self.entries@.last().0@,
                self.entries@.last().1@,
            ));
            assert(kv_map(self.entries@) =~= old(self)@.insert(
                self.entries@.last().0@,
                self.entries@.last().1@,
            ));
            assert(forall|j: int|
                0 <= j < pruned.len() ==> (#[trigger] pruned[j]).0@ != self.entries@.last().0@);
            assert(keys_unique(self.entries@)) by {
                assert(forall|j: int|
                    0 <= j < pruned.len() ==> #[trigger] self.entries@[j] == pruned[j]);
            }
        }
    }

    /// If an equal key was set and not removed since, returns a copy of its
    /// value; otherwise nothing.
    pub fn get(&self, key: String) -> (r: Option<String>)
        requires
            self.wf(),
        ensures
            match r {
                Some(v) => self@.contains_key(key@) && v@ == self@[key@],
                None => !self@.contains_key(key@),
            },
    {
        proof {
            lemma_kv_lookup(self.entries@, key@);
        }
        match self.find(&key) {
            Some(i) => Some(self.entries[i].1.clone()),
            None => None,
        }
    }

    /// Removes the entry with an equal key; its value cannot be got back
    /// afterwards. Removing an absent key changes nothing.
    pub fn remove(&mut self, key: String)
        requires
            old(self).wf(),
        ensures
            final(self).wf(),
            final(self)@ == old(self)@.remove(key@),
    {
        match self.find(&key) {
            Some(i) => {
                proof {
                    lemma_kv_remove(self.entries@, i as int);
                }
                self.entries.remove(i);
            },
            None => {
                proof {
                    lemma_kv_lookup(self.entries@, key@);
                    assert(!self@.contains_key(key@));
                    assert(self@ =~= self@.remove(key@));
                }
            },
        }
    }
}

} // verus!
