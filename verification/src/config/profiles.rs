//! Tables keyed by value, as manifests hold their profiles: each key at most once,
//! looked up, replaced and taken out by key.
use vstd::prelude::*;
use crate::config::Profile;
use crate::text::str_eq;

verus! {

/// Keys that can be told apart by their views.
pub trait SameKey: View + Sized {
    fn same_key(&self, other: &Self) -> (r: bool)
        ensures
            r == (self@ == other@);
}

impl SameKey for Profile {
    fn same_key(&self, other: &Profile) -> (r: bool) {
        self.same(other)
    }
}

impl SameKey for String {
    fn same_key(&self, other: &String) -> (r: bool) {
        str_eq(self.as_str(), other.as_str())
    }
}

/// The entries as a map: a later entry for a key wins, though a well-formed table has
/// one entry per key.
pub open spec fn entries_map<K: View, P: View>(s: Seq<(K, P)>) -> Map<K::V, P::V>
    decreases s.len(),
{
    if s.len() == 0 {
        Map::empty()
    } else {
        entries_map(s.drop_last()).insert(s.last().0@, s.last().1@)
    }
}

/// No two entries share a key.
pub open spec fn distinct_keys<K: View, P>(s: Seq<(K, P)>) -> bool {
    forall|i: int, j: int| 0 <= i < j < s.len() ==> #[trigger] s[i].0@ != #[trigger] s[j].0@
}

/// A key is in the table exactly when some entry holds it.
pub proof fn lemma_entries_dom<K: View, P: View>(s: Seq<(K, P)>, k: K::V)
    ensures
        entries_map(s).dom().contains(k) <==> exists|i: int| 0 <= i < s.len() && #[trigger] s[i].0@ == k,
    decreases s.len(),
{
    if s.len() > 0 {
        let t = s.drop_last();
        lemma_entries_dom(t, k);
        if exists|i: int| 0 <= i < t.len() && #[trigger] t[i].0@ == k {
            let i = choose|i: int| 0 <= i < t.len() && #[trigger] t[i].0@ == k;
            assert(s[i] == t[i]);
        }
        if exists|i: int| 0 <= i < s.len() && #[trigger] s[i].0@ == k {
            let i = choose|i: int| 0 <= i < s.len() && #[trigger] s[i].0@ == k;
            if i < t.len() {
                assert(t[i] == s[i]);
            }
        }
    }
}

/// With one entry per key, the table maps each entry's key to its value.
pub proof fn lemma_entries_value<K: View, P: View>(s: Seq<(K, P)>, i: int)
    requires
        distinct_keys(s),
        0 <= i < s.len(),
    ensures
        entries_map(s).dom().contains(s[i].0@),
        entries_map(s)[s[i].0@] == s[i].1@,
    decreases s.len(),
{
    let t = s.drop_last();
    if i < s.len() - 1 {
        assert(t[i] == s[i]);
        assert(distinct_keys(t)) by {
            assert forall|a: int, b: int| 0 <= a < b < t.len() implies #[trigger] t[a].0@
                != #[trigger] t[b].0@ by {
                assert(t[a] == s[a] && t[b] == s[b]);
            }
        }
        lemma_entries_value(t, i);
        assert(s[i].0@ != s.last().0@);
    }
}

/// Removing an entry removes its key from the table and keeps the keys distinct.
pub proof fn lemma_entries_remove<K: View, P: View>(s: Seq<(K, P)>, i: int)
    requires
        distinct_keys(s),
        0 <= i < s.len(),
    ensures
        entries_map(s.remove(i)) == entries_map(s).remove(s[i].0@),
        distinct_keys(s.remove(i)),
    decreases s.len(),
{
    let t = s.drop_last();
    let k = s[i].0@;
    assert(distinct_keys(t)) by {
        assert forall|a: int, b: int| 0 <= a < b < t.len() implies #[trigger] t[a].0@
            != #[trigger] t[b].0@ by {
            assert(t[a] == s[a] && t[b] == s[b]);
        }
    }
    let r = s.remove(i);
    assert(distinct_keys(r)) by {
        assert forall|a: int, b: int| 0 <= a < b < r.len() implies #[trigger] r[a].0@
            != #[trigger] r[b].0@ by {
            let a0 = if a < i { a } else { a + 1 };
            let b0 = if b < i { b } else { b + 1 };
            assert(r[a] == s[a0] && r[b] == s[b0]);
        }
    }
    if i == s.len() - 1 {
        assert(r =~= t);
        lemma_entries_dom(t, k);
        assert forall|j: int| 0 <= j < t.len() implies #[trigger] t[j].0@ != k by {
            assert(t[j] == s[j]);
        }
        assert(entries_map(r) =~= entries_map(s).remove(k));
    } else {
        lemma_entries_remove(t, i);
        assert(r =~= t.remove(i).push(s.last()));
        assert(r.drop_last() =~= t.remove(i));
        assert(s.last().0@ != k);
        assert(entries_map(r) =~= entries_map(s).remove(k));
    }
}

/// Taking a key out leaves it absent and every other key as it was.
pub proof fn law_remove_then_lookup<K, V>(m: Map<K, V>, k: K, j: K)
    ensures
        !m.remove(k).dom().contains(k),
        j != k ==> (m.remove(k).dom().contains(j) == m.dom().contains(j)),
        j != k && m.dom().contains(j) ==> m.remove(k)[j] == m[j],
{
}

/// Setting a key makes a lookup of it give the value set, and leaves the other keys.
pub proof fn law_insert_then_lookup<K, V>(m: Map<K, V>, k: K, v: V, j: K)
    ensures
        m.insert(k, v).dom().contains(k),
        m.insert(k, v)[k] == v,
        j != k ==> (m.insert(k, v).dom().contains(j) == m.dom().contains(j)),
        j != k && m.dom().contains(j) ==> m.insert(k, v)[j] == m[j],
{
}

/// Keys mapped to values, each key once, in the order the keys were first set.
#[derive(Debug)]
pub struct KeyMap<K: View, P> {
    entries: Vec<(K, P)>,
}

/// Profiles mapped to what each holds.
pub type ProfileMap<P> = KeyMap<Profile, P>;

impl<K: View, P: View> View for KeyMap<K, P> {
    type V = Map<K::V, P::V>;

    closed spec fn view(&self) -> Map<K::V, P::V> {
        entries_map(self.entries@)
    }
}

impl<K: View, P> KeyMap<K, P> {
    #[verifier::type_invariant]
    closed spec fn wf(&self) -> bool {
        distinct_keys(self.entries@)
    }
}

impl<K: SameKey, P: View> KeyMap<K, P> {
    pub fn new() -> (res: KeyMap<K, P>)
        ensures
            res@ == Map::<K::V, P::V>::empty(),
    {
        KeyMap { entries: Vec::new() }
    }

    /// Whether the profile is held.
    pub fn contains(&self, key: &K) -> (res: bool)
        ensures
            res == self@.dom().contains(key@),
    {
        proof {
            use_type_invariant(self);
            lemma_entries_dom(self.entries@, key@);
        }
        find_in(&self.entries, key).is_some()
    }

    /// What the profile holds, if it is held.
    pub fn get(&self, key: &K) -> (res: Option<&P>)
        ensures
            self@.dom().contains(key@) ==> (res matches Some(r) && r@ == self@[key@]),
            !self@.dom().contains(key@) ==> res is None,
    {
        proof {
            use_type_invariant(self);
            lemma_entries_dom(self.entries@, key@);
        }
        match find_in(&self.entries, key) {
            Some(i) => {
                proof {
                    lemma_entries_value(self.entries@, i as int);
                }
                Some(&self.entries[i].1)
            },
            None => None,
        }
    }

    /// Takes the profile out, handing back what it held.
    pub fn remove(&mut self, key: &K) -> (res: Option<P>)
        ensures
            final(self)@ == old(self)@.remove(key@),
            old(self)@.dom().contains(key@) ==> (res matches Some(r) && r@ == old(self)@[key@]),
            !old(self)@.dom().contains(key@) ==> res is None && *final(self) == *old(self),
    {
        proof {
            use_type_invariant(&*self);
            lemma_entries_dom(self.entries@, key@);
        }
        match find_in(&self.entries, key) {
            Some(i) => {
                proof {
                    lemma_entries_value(self.entries@, i as int);
                    lemma_entries_remove(self.entries@, i as int);
                }
                let mut entries = Vec::new();
                std::mem::swap(&mut entries, &mut self.entries);
                let (_, v) = entries.remove(i);
                self.entries = entries;
                Some(v)
            },
            None => {
                assert(old(self)@.remove(key@) =~= old(self)@);
                None
            },
        }
    }

    /// Sets what the profile holds, replacing what it held before.
    pub fn insert(&mut self, key: K, value: P)
        ensures
            final(self)@ == old(self)@.insert(key@, value@),
    {
        proof {
            use_type_invariant(&*self);
        }
        let mut entries = Vec::new();
        std::mem::swap(&mut entries, &mut self.entries);
        let ghost s0 = entries@;
        match find_in(&entries, &key) {
            Some(i) => {
                proof {
                    lemma_entries_remove(s0, i as int);
                }
                entries.remove(i);
            },
            None => {},
        }
        let ghost s1 = entries@;
        proof {
            lemma_entries_dom(s1, key@);
            if s1.len() < s0.len() {
                assert(entries_map(s1) == entries_map(s0).remove(key@));
            } else {
                assert(s1 == s0);
                lemma_entries_dom(s0, key@);
                assert(entries_map(s0).remove(key@) =~= entries_map(s0));
            }
            assert forall|j: int| 0 <= j < s1.len() implies #[trigger] s1[j].0@ != key@ by {
                if s1.len() < s0.len() {
                    assert(!entries_map(s1).dom().contains(key@));
                } else {
                    assert(!entries_map(s0).dom().contains(key@));
                }
            }
        }
        entries.push((key, value));
        proof {
            let s2 = entries@;
            assert(s2.drop_last() =~= s1);
            assert(distinct_keys(s2)) by {
                assert forall|a: int, b: int| 0 <= a < b < s2.len() implies #[trigger] s2[a].0@
                    != #[trigger] s2[b].0@ by {
                    assert(s2[a] == s1[a]);
                    if b < s1.len() {
                        assert(s2[b] == s1[b]);
                    }
                }
            }
            assert(entries_map(s2) =~= entries_map(s0).insert(key@, value@));
        }
        self.entries = entries;
    }

    /// The profiles with what each holds, each profile once.
    pub fn into_entries(self) -> (res: Vec<(K, P)>)
        ensures
            distinct_keys(res@),
            self@ == entries_map(res@),
    {
        proof {
            use_type_invariant(&self);
        }
        self.entries
    }
}

fn find_in<K: SameKey, P: View>(entries: &Vec<(K, P)>, key: &K) -> (res: Option<usize>)
    requires
        distinct_keys(entries@),
    ensures
        match res {
            Some(i) => i < entries@.len() && entries@[i as int].0@ == key@,
            None => forall|i: int| 0 <= i < entries@.len() ==> #[trigger] entries@[i].0@ != key@,
        },
{
    let mut i: usize = 0;
    while i < entries.len()
        invariant
            i <= entries@.len(),
            forall|j: int| 0 <= j < i ==> #[trigger] entries@[j].0@ != key@,
        decreases entries@.len() - i,
    {
        if entries[i].0.same_key(key) {
            return Some(i);
        }
        i = i + 1;
    }
    None
}

} // verus!
