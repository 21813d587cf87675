//! A small map from string labels to entries, kept as an association list
//! with unique keys. Insertion overwrites an existing binding, so within a
//! grid the last row with a given key wins.

use vstd::prelude::*;

verus! {

/// Turns a sequence of key/value pairs into the map where later pairs
/// override earlier ones.
pub open spec fn entries_map<T>(s: Seq<(Seq<char>, T)>) -> Map<Seq<char>, T>
    decreases s.len(),
{
    if s.len() == 0 {
        Map::empty()
    } else {
        entries_map(s.drop_last()).insert(s.last().0, s.last().1)
    }
}

/// No two pairs share a key.
pub open spec fn unique_keys<T>(s: Seq<(Seq<char>, T)>) -> bool {
    forall|i: int, j: int| 0 <= i < j < s.len() ==> s[i].0 != s[j].0
}

pub proof fn lemma_entries_map_contains<T>(s: Seq<(Seq<char>, T)>, k: Seq<char>)
    ensures
        entries_map(s).contains_key(k) <==> exists|i: int| 0 <= i < s.len() && s[i].0 == k,
    decreases s.len(),
{
    if s.len() > 0 {
        lemma_entries_map_contains(s.drop_last(), k);
        if s.last().0 != k && entries_map(s).contains_key(k) {
            let i = choose|i: int| 0 <= i < s.drop_last().len() && s.drop_last()[i].0 == k;
            assert(s[i].0 == k);
        }
        if exists|i: int| 0 <= i < s.len() && s[i].0 == k {
            let i = choose|i: int| 0 <= i < s.len() && s[i].0 == k;
            if i < s.len() - 1 {
                assert(s.drop_last()[i].0 == k);
            }
        }
    }
}

pub proof fn lemma_entries_map_value<T>(s: Seq<(Seq<char>, T)>, i: int)
    requires
        unique_keys(s),
        0 <= i < s.len(),
    ensures
        entries_map(s).contains_key(s[i].0),
        entries_map(s)[s[i].0] == s[i].1,
    decreases s.len(),
{
    if i == s.len() - 1 {
        lemma_entries_map_contains(s, s[i].0);
    } else {
        assert(s.drop_last()[i] == s[i]);
        lemma_entries_map_value(s.drop_last(), i);
        assert(s.last().0 != s[i].0);
    }
}

pub proof fn lemma_entries_map_len<T>(s: Seq<(Seq<char>, T)>)
    requires
        unique_keys(s),
    ensures
        entries_map(s).dom().finite(),
        entries_map(s).dom().len() == s.len(),
    decreases s.len(),
{
    if s.len() > 0 {
        lemma_entries_map_len(s.drop_last());
        lemma_entries_map_contains(s.drop_last(), s.last().0);
        assert(forall|i: int| 0 <= i < s.drop_last().len() ==> s.drop_last()[i] == s[i]);
        assert(!entries_map(s.drop_last()).contains_key(s.last().0));
        assert(entries_map(s).dom() =~= entries_map(s.drop_last()).dom().insert(s.last().0));
    }
}

/// A table of entries keyed by label, the in-memory form of one grid.
pub struct Table<V: DeepView> {
    entries: Vec<(String, V)>,
}

impl<V: DeepView> View for Table<V> {
    type V = Map<Seq<char>, <V as DeepView>::V>;

    closed spec fn view(&self) -> Map<Seq<char>, <V as DeepView>::V> {
        entries_map(self.entries.deep_view())
    }
}

impl<V: DeepView> Table<V> {
    #[verifier::type_invariant]
    spec fn wf(self) -> bool {
        unique_keys(self.entries.deep_view())
    }

    pub fn new() -> (r: Table<V>)
        ensures
            r@ == Map::<Seq<char>, <V as DeepView>::V>::empty(),
    {
        Table { entries: Vec::new() }
    }

    /// How many labels are bound.
    pub fn len(&self) -> (n: usize)
        ensures
            n == self@.dom().len(),
    {
        proof {
            use_type_invariant(self);
            lemma_entries_map_len(self.entries.deep_view());
        }
        self.entries.len()
    }

    /// The entry bound to `key`, if any.
    pub fn get(&self, key: &String) -> (r: Option<&V>)
        ensures
            match r {
                Some(v) => self@.contains_key(key@) && v.deep_view() == self@[key@],
                None => !self@.contains_key(key@),
            },
    {
        proof {
            use_type_invariant(self);
        }
        let ghost s = self.entries.deep_view();
        let mut i: usize = 0;
        while i < self.entries.len()
            invariant
                unique_keys(s),
                s == self.entries.deep_view(),
                s.len() == self.entries.len(),
                0 <= i <= self.entries.len(),
                forall|j: int| 0 <= j < i ==> s[j].0 != key@,
            decreases self.entries.len() - i,
        {
            if self.entries[i].0.eq(key) {
                proof {
                    lemma_entries_map_value(s, i as int);
                }
                return Some(&self.entries[i].1);
            }
            i += 1;
        }
        proof {
            lemma_entries_map_contains(s, key@);
        }
        None
    }

    /// Binds `key` to `value`, replacing any earlier binding.
    #[verifier::loop_isolation(false)]
    pub fn insert(self, key: String, value: V) -> (r: Table<V>)
        ensures
            r@ == self@.insert(key@, value.deep_view()),
    {
        proof {
            use_type_invariant(&self);
        }
        let ghost s0 = self.entries.deep_view();
        let Table { mut entries } = self;
        let mut i: usize = 0;
        while i < entries.len()
            invariant
                unique_keys(s0),
                s0 == entries.deep_view(),
                s0.len() == entries.len(),
                0 <= i <= entries.len(),
                forall|j: int| 0 <= j < i ==> s0[j].0 != key@,
            decreases entries.len() - i,
        {
            if entries[i].0.eq(&key) {
                let ghost k = s0[i as int].0;
                assert(k == key@);
                entries.set(i, (key, value));
                proof {
                    assert(entries.deep_view() =~= s0.update(i as int, (k, value.deep_view())));
                    lemma_entries_map_update(s0, i as int, value.deep_view());
                    assert(entries_map(entries.deep_view())
                        == entries_map(s0).insert(k, value.deep_view()));
                }
                return Table { entries };
            }
            i += 1;
        }
        entries.push((key, value));
        proof {
            assert(entries.deep_view() =~= s0.push((key@, value.deep_view())));
            assert(entries.deep_view().drop_last() =~= s0);
        }
        Table { entries }
    }
}

proof fn lemma_entries_map_update<T>(s: Seq<(Seq<char>, T)>, i: int, v: T)
    requires
        unique_keys(s),
        0 <= i < s.len(),
    ensures
        entries_map(s.update(i, (s[i].0, v))) == entries_map(s).insert(s[i].0, v),
    decreases s.len(),
{
    let t = s.update(i, (s[i].0, v));
    if i == s.len() - 1 {
        assert(t.drop_last() =~= s.drop_last());
        assert(entries_map(t) =~= entries_map(s).insert(s[i].0, v));
    } else {
        assert(t.drop_last() =~= s.drop_last().update(i, (s[i].0, v)));
        assert(s.drop_last()[i] == s[i]);
        lemma_entries_map_update(s.drop_last(), i, v);
        assert(s.last().0 != s[i].0);
        assert(entries_map(t) =~= entries_map(s).insert(s[i].0, v));
    }
}

} // verus!
