//! The mapping from keys to values that the store holds in memory.

use crate::error::{result_view, MyError, MyErrorView};
use vstd::prelude::*;

verus! {

/// A key and its value, as mathematical values.
pub type Pair = (Seq<char>, Seq<char>);

/// No key stands twice in `s`.
pub open spec fn distinct_keys(s: Seq<Pair>) -> bool {
    forall|i: int, j: int| 0 <= i < j < s.len() ==> s[i].0 != s[j].0
}

/// The mapping that a list of pairs describes. Where a key stands twice, the
/// later pair counts.
pub open spec fn pairs_map(s: Seq<Pair>) -> Map<Seq<char>, Seq<char>>
    decreases s.len(),
{
    if s.len() == 0 {
        Map::empty()
    } else {
        pairs_map(s.drop_last()).insert(s.last().0, s.last().1)
    }
}

/// The mathematical values of a list of owned pairs.
pub open spec fn pairs_of(v: Seq<(String, String)>) -> Seq<Pair> {
    Seq::new(v.len(), |i: int| (v[i].0@, v[i].1@))
}

/// The keys of `pairs_map(s)` are the keys that stand in `s`.
pub proof fn lemma_pairs_map_keys(s: Seq<Pair>)
    ensures
        forall|k: Seq<char>|
            pairs_map(s).contains_key(k) <==> exists|i: int| 0 <= i < s.len() && #[trigger] s[i].0
                == k,
        pairs_map(s).dom().finite(),
    decreases s.len(),
{
    if s.len() > 0 {
        let front = s.drop_last();
        lemma_pairs_map_keys(front);
        assert forall|k: Seq<char>|
            (exists|i: int| 0 <= i < s.len() && #[trigger] s[i].0 == k) implies pairs_map(
            s,
        ).contains_key(k) by {
            let i = choose|i: int| 0 <= i < s.len() && #[trigger] s[i].0 == k;
            if i < s.len() - 1 {
                assert(front[i].0 == k);
            }
        }
    }
}

/// Where no key stands twice, each pair of `s` is an entry of
/// `pairs_map(s)`, and the mapping has as many entries as `s` has pairs.
pub proof fn lemma_pairs_map_entries(s: Seq<Pair>)
    requires
        distinct_keys(s),
    ensures
        forall|i: int|
            0 <= i < s.len() ==> pairs_map(s).contains_key(#[trigger] s[i].0) && pairs_map(
                s,
            )[s[i].0] == s[i].1,
        pairs_map(s).len() == s.len(),
    decreases s.len(),
{
    if s.len() > 0 {
        let front = s.drop_last();
        lemma_pairs_map_entries(front);
        lemma_pairs_map_keys(front);
        assert forall|i: int| 0 <= i < s.len() implies pairs_map(s).contains_key(
            #[trigger] s[i].0,
        ) && pairs_map(s)[s[i].0] == s[i].1 by {
            if i < s.len() - 1 {
                assert(front[i] == s[i]);
            }
        }
    }
}

/// A list of pairs without a key twice describes the mapping `m` where
/// each of its pairs is an entry of `m` and `m` has no other key.
proof fn lemma_pairs_map_is(t: Seq<Pair>, m: Map<Seq<char>, Seq<char>>)
    requires
        distinct_keys(t),
        forall|j: int| 0 <= j < t.len() ==> m.contains_key(#[trigger] t[j].0) && m[t[j].0] == t[j].1,
        forall|k: Seq<char>|
            m.contains_key(k) ==> exists|j: int| 0 <= j < t.len() && #[trigger] t[j].0 == k,
    ensures
        pairs_map(t) == m,
{
    lemma_pairs_map_keys(t);
    lemma_pairs_map_entries(t);
}

/// Adding a pair under a new key adds an entry.
pub proof fn lemma_pairs_map_push(s: Seq<Pair>, key: Seq<char>, value: Seq<char>)
    requires
        distinct_keys(s),
        !pairs_map(s).contains_key(key),
    ensures
        distinct_keys(s.push((key, value))),
        pairs_map(s.push((key, value))) == pairs_map(s).insert(key, value),
{
    lemma_pairs_map_keys(s);
    assert(s.push((key, value)).drop_last() =~= s);
}

/// Replacing the value of the pair at `i` replaces the value of its key.
pub proof fn lemma_pairs_map_update(s: Seq<Pair>, i: int, value: Seq<char>)
    requires
        distinct_keys(s),
        0 <= i < s.len(),
    ensures
        distinct_keys(s.update(i, (s[i].0, value))),
        pairs_map(s.update(i, (s[i].0, value))) == pairs_map(s).insert(s[i].0, value),
{
    let t = s.update(i, (s[i].0, value));
    let m = pairs_map(s).insert(s[i].0, value);
    lemma_pairs_map_keys(s);
    lemma_pairs_map_entries(s);
    assert forall|k: Seq<char>| m.contains_key(k) implies exists|j: int|
        0 <= j < t.len() && #[trigger] t[j].0 == k by {
        if k == s[i].0 {
            assert(t[i].0 == k);
        } else {
            let j = choose|j: int| 0 <= j < s.len() && #[trigger] s[j].0 == k;
            assert(t[j].0 == k);
        }
    }
    lemma_pairs_map_is(t, m);
}

/// Taking the pair at `i` out takes its key out.
pub proof fn lemma_pairs_map_remove(s: Seq<Pair>, i: int)
    requires
        distinct_keys(s),
        0 <= i < s.len(),
    ensures
        distinct_keys(s.remove(i)),
        pairs_map(s.remove(i)) == pairs_map(s).remove(s[i].0),
{
    let t = s.remove(i);
    let m = pairs_map(s).remove(s[i].0);
    lemma_pairs_map_keys(s);
    lemma_pairs_map_entries(s);
    assert forall|k: Seq<char>| m.contains_key(k) implies exists|j: int|
        0 <= j < t.len() && #[trigger] t[j].0 == k by {
        let j = choose|j: int| 0 <= j < s.len() && #[trigger] s[j].0 == k;
        let j1 = if j < i { j } else { j - 1 };
        assert(t[j1].0 == k);
    }
    lemma_pairs_map_is(t, m);
}

/// The mathematical values of a list of owned strings.
pub open spec fn strings(v: Seq<String>) -> Seq<Seq<char>> {
    Seq::new(v.len(), |i: int| v[i]@)
}

/// `keys` lists the keys of `m`: each of them once, in some order.
pub open spec fn lists(keys: Seq<Seq<char>>, m: Map<Seq<char>, Seq<char>>) -> bool {
    keys.no_duplicates() && keys.to_set() == m.dom()
}

/// What looking `key` up in `m` gives: its value, or the report that it is
/// absent.
pub open spec fn lookup(m: Map<Seq<char>, Seq<char>>, key: Seq<char>) -> Result<
    Seq<char>,
    MyErrorView,
> {
    if m.contains_key(key) {
        Ok(m[key])
    } else {
        Err(MyErrorView::NotFound { key })
    }
}

/// A store: a finite mapping from keys to values. No key occurs twice.
#[derive(Debug)]
pub struct Store {
    entries: Vec<(String, String)>,
}

impl View for Store {
    type V = Map<Seq<char>, Seq<char>>;

    closed spec fn view(&self) -> Map<Seq<char>, Seq<char>> {
        pairs_map(pairs_of(self.entries@))
    }
}

impl Store {
    #[verifier::type_invariant]
    spec fn distinct(self) -> bool {
        distinct_keys(pairs_of(self.entries@))
    }

    /// The empty store.
    pub fn new() -> (store: Store)
        ensures
            store@ == Map::<Seq<char>, Seq<char>>::empty(),
    {
        Store { entries: Vec::new() }
    }

    /// The store that a list of pairs describes. Where a key stands twice,
    /// the later pair counts.
    pub fn from_pairs(pairs: Vec<(String, String)>) -> (store: Store)
        ensures
            store@ == pairs_map(pairs_of(pairs@)),
    {
        let mut store = Store::new();
        let ghost all = pairs_of(pairs@);
        let ghost given = pairs@;
        for pair in it: pairs.into_iter()
            invariant
                it.seq() == given,
                all == pairs_of(given),
                store@ == pairs_map(all.take(it.index() as int)),
        {
            let ghost done = it.index() as int;
            assert(all.take(done + 1).drop_last() =~= all.take(done));
            store.insert(pair.0, pair.1);
        }
        assert(all.take(all.len() as int) =~= all);
        store
    }

    /// The entries, one pair for each key.
    pub fn pairs(&self) -> (pairs: &Vec<(String, String)>)
        ensures
            distinct_keys(pairs_of(pairs@)),
            pairs_map(pairs_of(pairs@)) == self@,
    {
        proof {
            use_type_invariant(self);
        }
        &self.entries
    }

    /// The number of keys.
    pub fn len(&self) -> (n: usize)
        ensures
            self@.dom().finite(),
            n == self@.len(),
    {
        proof {
            use_type_invariant(self);
            lemma_pairs_map_keys(pairs_of(self.entries@));
            lemma_pairs_map_entries(pairs_of(self.entries@));
        }
        self.entries.len()
    }

    /// Whether the store holds no key.
    pub fn is_empty(&self) -> (r: bool)
        ensures
            r == (self@ == Map::<Seq<char>, Seq<char>>::empty()),
    {
        proof {
            use_type_invariant(self);
            lemma_pairs_map_entries(pairs_of(self.entries@));
        }
        self.entries.len() == 0
    }

    /// Where `key` stands among the entries.
    fn position(&self, key: &str) -> (r: Option<usize>)
        ensures
            match r {
                Some(i) => i < self.entries.len() && self.entries[i as int].0@ == key@,
                None => !self@.contains_key(key@),
            },
    {
        let mut i: usize = 0;
        while i < self.entries.len()
            invariant
                i <= self.entries.len(),
                forall|j: int| 0 <= j < i ==> self.entries[j].0@ != key@,
            decreases self.entries.len() - i,
        {
            if self.entries[i].0.as_str().eq(key) {
                return Some(i);
            }
            i = i + 1;
        }
        proof {
            let s = pairs_of(self.entries@);
            lemma_pairs_map_keys(s);
        }
        None
    }

    /// Moves the entries out and leaves the store empty, so that they can
    /// be changed and put back.
    fn take_entries(&mut self) -> (entries: Vec<(String, String)>)
        ensures
            entries == old(self).entries,
            final(self).entries@.len() == 0,
    {
        let mut entries: Vec<(String, String)> = Vec::new();
        core::mem::swap(&mut self.entries, &mut entries);
        entries
    }

    /// Stores `value` under `key`, in place of the value that `key` had, if
    /// it had one, and hands that earlier value back.
    pub fn insert(&mut self, key: String, value: String) -> (previous: Option<String>)
        ensures
            final(self)@ == old(self)@.insert(key@, value@),
            match previous {
                Some(earlier) => old(self)@.contains_key(key@) && earlier@ == old(self)@[key@],
                None => !old(self)@.contains_key(key@),
            },
    {
        proof {
            use_type_invariant(&*self);
        }
        let ghost before = pairs_of(self.entries@);
        match self.position(key.as_str()) {
            Some(i) => {
                proof {
                    lemma_pairs_map_entries(before);
                    lemma_pairs_map_update(before, i as int, value@);
                }
                let mut entries = self.take_entries();
                let (found, earlier) = entries.remove(i);
                entries.insert(i, (found, value));
                assert(pairs_of(entries@) =~= before.update(i as int, (key@, value@)));
                self.entries = entries;
                Some(earlier)
            },
            None => {
                proof {
                    lemma_pairs_map_push(before, key@, value@);
                }
                let mut entries = self.take_entries();
                entries.push((key, value));
                assert(pairs_of(entries@) =~= before.push((key@, value@)));
                self.entries = entries;
                None
            },
        }
    }

    /// Takes `key` and its value out of the store, if it is there, and
    /// hands the value back.
    pub fn remove(&mut self, key: &str) -> (removed: Option<String>)
        ensures
            final(self)@ == old(self)@.remove(key@),
            match removed {
                Some(value) => old(self)@.contains_key(key@) && value@ == old(self)@[key@],
                None => !old(self)@.contains_key(key@),
            },
    {
        proof {
            use_type_invariant(&*self);
        }
        let ghost before = pairs_of(self.entries@);
        match self.position(key) {
            Some(i) => {
                proof {
                    lemma_pairs_map_entries(before);
                    lemma_pairs_map_remove(before, i as int);
                }
                let mut entries = self.take_entries();
                let (_, value) = entries.remove(i);
                assert(pairs_of(entries@) =~= before.remove(i as int));
                self.entries = entries;
                Some(value)
            },
            None => None,
        }
    }

    /// The keys of the store, each once, in the order in which they were
    /// first stored.
    pub fn keys(&self) -> (keys: Vec<String>)
        ensures
            lists(strings(keys@), self@),
    {
        let mut keys: Vec<String> = Vec::new();
        let mut i: usize = 0;
        while i < self.entries.len()
            invariant
                i <= self.entries.len(),
                keys@.len() == i,
                forall|j: int| 0 <= j < i ==> keys@[j]@ == self.entries@[j].0@,
            decreases self.entries.len() - i,
        {
            keys.push(self.entries[i].0.clone());
            i = i + 1;
        }
        proof {
            use_type_invariant(self);
            let s = pairs_of(self.entries@);
            let listed = strings(keys@);
            lemma_pairs_map_keys(s);
            assert forall|a: int, b: int| 0 <= a < listed.len() && 0 <= b < listed.len() && a
                != b implies listed[a] != listed[b] by {
                if a < b {
                    assert(s[a].0 != s[b].0);
                } else {
                    assert(s[b].0 != s[a].0);
                }
            }
            assert forall|k: Seq<char>| listed.to_set().contains(k) <==> self@.dom().contains(
                k,
            ) by {
                if listed.contains(k) {
                    let j = choose|j: int| 0 <= j < listed.len() && listed[j] == k;
                    assert(s[j].0 == k);
                }
                if self@.contains_key(k) {
                    let j = choose|j: int| 0 <= j < s.len() && #[trigger] s[j].0 == k;
                    assert(listed[j] == k);
                }
            }
            assert(listed.to_set() =~= self@.dom());
        }
        keys
    }

    /// Whether the two stores hold the same keys with the same values.
    pub fn same_as(&self, other: &Store) -> (r: bool)
        ensures
            r == (self@ == other@),
    {
        if self.len() != other.len() {
            return false;
        }
        let mut i: usize = 0;
        while i < self.entries.len()
            invariant
                i <= self.entries.len(),
                forall|j: int|
                    0 <= j < i ==> other@.contains_key(#[trigger] self.entries@[j].0@)
                        && other@[self.entries@[j].0@] == self.entries@[j].1@,
            decreases self.entries.len() - i,
        {
            let found = match other.get(self.entries[i].0.as_str()) {
                Some(value) => value.as_str().eq(self.entries[i].1.as_str()),
                None => false,
            };
            if !found {
                proof {
                    use_type_invariant(self);
                    let s = pairs_of(self.entries@);
                    lemma_pairs_map_entries(s);
                    assert(self@[s[i as int].0] == s[i as int].1);
                }
                return false;
            }
            i = i + 1;
        }
        proof {
            use_type_invariant(self);
            let s = pairs_of(self.entries@);
            lemma_pairs_map_keys(s);
            lemma_pairs_map_entries(s);
            vstd::set_lib::lemma_subset_equality(self@.dom(), other@.dom());
            assert(self@ =~= other@);
        }
        true
    }

    /// The value under `key`, if there is one.
    pub fn get(&self, key: &str) -> (r: Option<&String>)
        ensures
            match r {
                Some(value) => self@.contains_key(key@) && value@ == self@[key@],
                None => !self@.contains_key(key@),
            },
    {
        match self.position(key) {
            Some(i) => {
                proof {
                    use_type_invariant(self);
                    let s = pairs_of(self.entries@);
                    lemma_pairs_map_entries(s);
                    assert(s[i as int].0 == key@);
                }
                Some(&self.entries[i].1)
            },
            None => None,
        }
    }
}

/// A copy of the value under `key`; where there is none, the report that
/// `key` is absent.
pub fn get_owned(map: &Store, key: &str) -> (r: Result<String, MyError>)
    ensures
        result_view(r) == lookup(map@, key@),
{
    match map.get(key) {
        Some(value) => Ok(value.clone()),
        None => Err(MyError::NotFound { key: key.to_owned() }),
    }
}

impl PartialEq for Store {
    fn eq(&self, other: &Store) -> (r: bool) {
        self.same_as(other)
    }
}

impl vstd::std_specs::cmp::PartialEqSpecImpl for Store {
    open spec fn obeys_eq_spec() -> bool {
        true
    }

    open spec fn eq_spec(&self, other: &Store) -> bool {
        self@ == other@
    }
}

impl Clone for Store {
    /// A copy of the store.
    fn clone(&self) -> (store: Store)
        ensures
            store@ == self@,
    {
        let mut entries: Vec<(String, String)> = Vec::new();
        let mut i: usize = 0;
        while i < self.entries.len()
            invariant
                i <= self.entries.len(),
                entries@ == self.entries@.take(i as int),
            decreases self.entries.len() - i,
        {
            let key = self.entries[i].0.clone();
            let value = self.entries[i].1.clone();
            entries.push((key, value));
            i = i + 1;
        }
        proof {
            use_type_invariant(self);
            assert(entries@ =~= self.entries@);
        }
        Store { entries }
    }
}

} // verus!
