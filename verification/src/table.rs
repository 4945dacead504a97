//! Tables keyed by text, kept in key order: the per-device settings and a
//! device's named camera profiles.
use crate::device::{opt_identity, CameraControls, DeviceConfig, DeviceIdentity, IdentityView};
use crate::keys::{compare_keys, key_lt, lemma_key_lt_irreflexive, lemma_key_lt_total, lemma_key_lt_transitive, KeyOrder};
use vstd::prelude::*;

verus! {

/// One value under its key.
#[derive(Debug, PartialEq, Eq)]
pub struct KeyedEntry<V> {
    pub key: String,
    pub value: V,
}

/// Entries strictly ascending by key.
pub open spec fn table_sorted<V: View>(s: Seq<KeyedEntry<V>>) -> bool {
    forall|i: int, j: int| 0 <= i < j < s.len() ==> key_lt(#[trigger] s[i].key@, #[trigger] s[j].key@)
}

/// Whether some entry of `s` has key `k`.
pub open spec fn table_has<V: View>(s: Seq<KeyedEntry<V>>, k: Seq<char>) -> bool {
    exists|i: int| 0 <= i < s.len() && s[i].key@ == k
}

/// The map a sequence of entries stands for.
pub open spec fn table_map<V: View>(s: Seq<KeyedEntry<V>>) -> Map<Seq<char>, V::V> {
    Map::new(
        |k: Seq<char>| table_has(s, k),
        |k: Seq<char>| s[choose|i: int| 0 <= i < s.len() && s[i].key@ == k].value@,
    )
}

proof fn lemma_table_at<V: View>(s: Seq<KeyedEntry<V>>, i: int)
    requires
        table_sorted(s),
        0 <= i < s.len(),
    ensures
        table_map(s).contains_key(s[i].key@),
        table_map(s)[s[i].key@] == s[i].value@,
{
    let k = s[i].key@;
    assert(table_has(s, k));
    let j = choose|j: int| 0 <= j < s.len() && s[j].key@ == k;
    lemma_key_lt_irreflexive(k);
    if j < i {
        assert(key_lt(s[j].key@, s[i].key@));
    }
    if i < j {
        assert(key_lt(s[i].key@, s[j].key@));
    }
}

/// Values by text key. A key appears at most once, and entries are kept in
/// ascending key order.
#[derive(Debug, PartialEq, Eq)]
pub struct KeyedTable<V: View> {
    entries: Vec<KeyedEntry<V>>,
}

/// An identity recorded under a config key.
pub struct KnownIdentity {
    pub key: String,
    pub identity: DeviceIdentity,
}

impl<V: View> KeyedTable<V> {
    #[verifier::type_invariant]
    spec fn sorted(self) -> bool {
        table_sorted(self.entries@)
    }

    /// The key -> settings map.
    pub closed spec fn view(self) -> Map<Seq<char>, V::V> {
        table_map(self.entries@)
    }

    /// An empty table.
    pub fn new() -> (r: Self)
        ensures
            r@ == Map::<Seq<char>, V::V>::empty(),
    {
        let r = KeyedTable { entries: Vec::new() };
        assert(r@ =~= Map::<Seq<char>, V::V>::empty());
        r
    }

    /// Where `key` is, or where it would go: the first index whose key does
    /// not sort before `key`, and whether that entry has `key` itself.
    fn locate(entries: &Vec<KeyedEntry<V>>, key: &str) -> (r: (usize, bool))
        requires
            table_sorted(entries@),
        ensures
            r.0 <= entries@.len(),
            forall|j: int| 0 <= j < r.0 ==> key_lt(#[trigger] entries@[j].key@, key@),
            r.1 == (r.0 < entries@.len() && entries@[r.0 as int].key@ == key@),
            r.0 < entries@.len() && !r.1 ==> key_lt(key@, entries@[r.0 as int].key@),
    {
        let mut i: usize = 0;
        while i < entries.len()
            invariant
                i <= entries@.len(),
                forall|j: int| 0 <= j < i ==> key_lt(#[trigger] entries@[j].key@, key@),
            decreases entries.len() - i,
        {
            match compare_keys(entries[i].key.as_str(), key) {
                KeyOrder::Less => {
                    i += 1;
                },
                KeyOrder::Equal => {
                    return (i, true);
                },
                KeyOrder::Greater => {
                    return (i, false);
                },
            }
        }
        (i, false)
    }

    /// The settings stored under `key`, if any.
    pub fn get(&self, key: &str) -> (r: Option<&V>)
        ensures
            r matches Some(d) ==> self@.contains_key(key@) && d@ == self@[key@],
            r is None ==> !self@.contains_key(key@),
    {
        proof {
            use_type_invariant(self);
        }
        let (i, found) = Self::locate(&self.entries, key);
        if found {
            proof {
                lemma_table_at(self.entries@, i as int);
            }
            Some(&self.entries[i].value)
        } else {
            proof {
                if table_has(self.entries@, key@) {
                    let j = choose|j: int| 0 <= j < self.entries@.len() && self.entries@[j].key@ == key@;
                    lemma_key_lt_irreflexive(key@);
                    if j > i {
                        assert(key_lt(self.entries@[i as int].key@, self.entries@[j].key@));
                        lemma_key_lt_transitive(key@, self.entries@[i as int].key@, key@);
                    }
                }
            }
            None
        }
    }

    /// Remove and return the value under `key`, if any.
    pub fn take(&mut self, key: &str) -> (r: Option<V>)
        ensures
            final(self)@ == old(self)@.remove(key@),
            r is Some <==> old(self)@.contains_key(key@),
            r matches Some(v) ==> v@ == old(self)@[key@],
    {
        proof {
            use_type_invariant(&*self);
        }
        let mut entries: Vec<KeyedEntry<V>> = Vec::new();
        std::mem::swap(&mut entries, &mut self.entries);
        let ghost old_entries = entries@;
        let (i, found) = Self::locate(&entries, key);
        proof {
            lemma_locate_absent(old_entries, key@, i as int, found);
        }
        if found {
            let entry = entries.remove(i);
            proof {
                lemma_table_at(old_entries, i as int);
                lemma_remove_at(old_entries, entries@, i as int);
            }
            self.entries = entries;
            Some(entry.value)
        } else {
            proof {
                assert(table_map(old_entries).remove(key@) =~= table_map(old_entries));
            }
            self.entries = entries;
            None
        }
    }

    /// Store `value` under `key`, replacing what was there.
    pub fn insert(&mut self, key: &str, value: V)
        ensures
            final(self)@ == old(self)@.insert(key@, value@),
    {
        proof {
            use_type_invariant(&*self);
        }
        let mut entries: Vec<KeyedEntry<V>> = Vec::new();
        std::mem::swap(&mut entries, &mut self.entries);
        let ghost old_entries = entries@;
        let (i, found) = Self::locate(&entries, key);
        if found {
            entries.remove(i);
        }
        let ghost mid = entries@;
        let owned = key.to_owned();
        let ghost entry = KeyedEntry { key: owned, value };
        entries.insert(i, KeyedEntry { key: owned, value });
        proof {
            lemma_table_insert(old_entries, mid, entries@, i as int, found, entry);
        }
        self.entries = entries;
    }

    /// Drop the settings under `key`; whether there were any.
    pub fn remove(&mut self, key: &str) -> (r: bool)
        ensures
            r == old(self)@.contains_key(key@),
            final(self)@ == old(self)@.remove(key@),
    {
        proof {
            use_type_invariant(&*self);
        }
        let mut entries: Vec<KeyedEntry<V>> = Vec::new();
        std::mem::swap(&mut entries, &mut self.entries);
        let ghost old_entries = entries@;
        let (i, found) = Self::locate(&entries, key);
        proof {
            lemma_locate_absent(old_entries, key@, i as int, found);
        }
        if found {
            entries.remove(i);
            proof {
                lemma_table_at(old_entries, i as int);
                lemma_remove_at(old_entries, entries@, i as int);
            }
        } else {
            proof {
                assert(table_map(old_entries).remove(key@) =~= table_map(old_entries));
            }
        }
        self.entries = entries;
        found
    }
}

impl KeyedTable<CameraControls> {
    /// A copy with the same profiles.
    pub fn clone_table(&self) -> (r: Self)
        ensures
            r@ == self@,
    {
        proof {
            use_type_invariant(self);
        }
        let mut entries: Vec<KeyedEntry<CameraControls>> = Vec::new();
        let mut i: usize = 0;
        while i < self.entries.len()
            invariant
                i <= self.entries@.len(),
                entries@ == self.entries@.subrange(0, i as int),
            decreases self.entries.len() - i,
        {
            let e = &self.entries[i];
            entries.push(KeyedEntry { key: e.key.clone(), value: e.value });
            proof {
                assert(entries@ =~= self.entries@.subrange(0, i + 1));
            }
            i += 1;
        }
        proof {
            assert(entries@ =~= self.entries@);
        }
        KeyedTable { entries }
    }
}

impl KeyedTable<DeviceConfig> {
    /// A copy with the same devices.
    pub fn clone_table(&self) -> (r: Self)
        ensures
            r@ == self@,
    {
        proof {
            use_type_invariant(self);
        }
        let mut entries: Vec<KeyedEntry<DeviceConfig>> = Vec::new();
        let mut i: usize = 0;
        while i < self.entries.len()
            invariant
                i <= self.entries@.len(),
                entries@.len() == i,
                table_sorted(self.entries@),
                forall|j: int| 0 <= j < i ==> (#[trigger] entries@[j]).key@ == self.entries@[j].key@ && entries@[j].value@ == self.entries@[j].value@,
            decreases self.entries.len() - i,
        {
            let e = &self.entries[i];
            entries.push(KeyedEntry { key: e.key.clone(), value: e.value.clone_config() });
            i += 1;
        }
        proof {
            assert(table_sorted(entries@));
            assert forall|k: Seq<char>| #[trigger] table_map(entries@).contains_key(k) == table_map(self.entries@).contains_key(k) by {
                if table_has(entries@, k) {
                    let j = choose|j: int| 0 <= j < entries@.len() && entries@[j].key@ == k;
                    assert(self.entries@[j].key@ == k);
                }
                if table_has(self.entries@, k) {
                    let j = choose|j: int| 0 <= j < self.entries@.len() && self.entries@[j].key@ == k;
                    assert(entries@[j].key@ == k);
                }
            }
            assert forall|k: Seq<char>| #[trigger] table_map(entries@).contains_key(k) implies table_map(entries@)[k] == table_map(self.entries@)[k] by {
                let j = choose|j: int| 0 <= j < entries@.len() && entries@[j].key@ == k;
                lemma_table_at(entries@, j);
                lemma_table_at(self.entries@, j);
            }
            assert(table_map(entries@) =~= table_map(self.entries@));
        }
        KeyedTable { entries }
    }

    /// Every recorded identity with its key, in ascending key order.
    pub fn known_identities(&self) -> (r: Vec<KnownIdentity>)
        ensures
            forall|i: int, j: int| 0 <= i < j < r@.len() ==> key_lt(#[trigger] r@[i].key@, #[trigger] r@[j].key@),
            forall|i: int| 0 <= i < r@.len() ==> {
                &&& self@.contains_key(#[trigger] r@[i].key@)
                &&& self@[r@[i].key@].identity == Some(r@[i].identity@)
            },
            forall|k: Seq<char>| #[trigger] self@.contains_key(k) && self@[k].identity is Some ==> exists|i: int|
                0 <= i < r@.len() && r@[i].key@ == k,
    {
        proof {
            use_type_invariant(self);
        }
        let mut out: Vec<KnownIdentity> = Vec::new();
        let mut i: usize = 0;
        while i < self.entries.len()
            invariant
                i <= self.entries@.len(),
                table_sorted(self.entries@),
                forall|a: int, b: int| 0 <= a < b < out@.len() ==> key_lt(#[trigger] out@[a].key@, #[trigger] out@[b].key@),
                forall|a: int| 0 <= a < out@.len() ==> exists|j: int| 0 <= j < i && #[trigger] out@[a].key@ == self.entries@[j].key@ && opt_identity(self.entries@[j].value.identity) == Some(out@[a].identity@),
                forall|j: int| 0 <= j < i && (#[trigger] self.entries@[j]).value.identity is Some ==> exists|a: int| 0 <= a < out@.len() && out@[a].key@ == self.entries@[j].key@,
            decreases self.entries.len() - i,
        {
            let entry = &self.entries[i];
            if let Some(identity) = &entry.value.identity {
                let ghost before = out@;
                out.push(KnownIdentity { key: entry.key.clone(), identity: identity.clone_identity() });
                proof {
                    assert forall|a: int, b: int| 0 <= a < b < out@.len() implies key_lt(#[trigger] out@[a].key@, #[trigger] out@[b].key@) by {
                        if b == out@.len() - 1 {
                            assert(before[a] == out@[a]);
                            let j = choose|j: int| 0 <= j < i && #[trigger] before[a].key@ == self.entries@[j].key@ && opt_identity(self.entries@[j].value.identity) == Some(before[a].identity@);
                            assert(key_lt(self.entries@[j].key@, self.entries@[i as int].key@));
                        } else {
                            assert(before[a] == out@[a]);
                            assert(before[b] == out@[b]);
                        }
                    }
                    assert forall|a: int| 0 <= a < out@.len() implies exists|j: int| 0 <= j < i + 1 && #[trigger] out@[a].key@ == self.entries@[j].key@ && opt_identity(self.entries@[j].value.identity) == Some(out@[a].identity@) by {
                        if a < out@.len() - 1 {
                            assert(before[a] == out@[a]);
                        } else {
                            assert(out@[a].key@ == self.entries@[i as int].key@);
                        }
                    }
                    assert forall|j: int| 0 <= j < i + 1 && (#[trigger] self.entries@[j]).value.identity is Some implies exists|a: int| 0 <= a < out@.len() && out@[a].key@ == self.entries@[j].key@ by {
                        if j < i {
                            let a = choose|a: int| 0 <= a < before.len() && before[a].key@ == self.entries@[j].key@;
                            assert(out@[a] == before[a]);
                        } else {
                            assert(out@[out@.len() - 1].key@ == self.entries@[j].key@);
                        }
                    }
                }
            }
            i += 1;
        }
        proof {
            assert forall|a: int| 0 <= a < out@.len() implies {
                &&& self@.contains_key(#[trigger] out@[a].key@)
                &&& self@[out@[a].key@].identity == Some(out@[a].identity@)
            } by {
                let j = choose|j: int| 0 <= j < i && #[trigger] out@[a].key@ == self.entries@[j].key@ && opt_identity(self.entries@[j].value.identity) == Some(out@[a].identity@);
                lemma_table_at(self.entries@, j);
            }
            assert forall|k: Seq<char>| #[trigger] self@.contains_key(k) && self@[k].identity is Some implies exists|a: int|
                0 <= a < out@.len() && out@[a].key@ == k by {
                let j = choose|j: int| 0 <= j < self.entries@.len() && self.entries@[j].key@ == k;
                lemma_table_at(self.entries@, j);
                assert(self.entries@[j].value.identity is Some);
            }
        }
        out
    }
}

proof fn lemma_locate_absent<V: View>(s: Seq<KeyedEntry<V>>, k: Seq<char>, i: int, found: bool)
    requires
        table_sorted(s),
        0 <= i <= s.len(),
        forall|j: int| 0 <= j < i ==> key_lt(#[trigger] s[j].key@, k),
        found == (i < s.len() && s[i].key@ == k),
        i < s.len() && !found ==> key_lt(k, s[i].key@),
    ensures
        !found ==> !table_has(s, k),
{
    if !found && table_has(s, k) {
        let j = choose|j: int| 0 <= j < s.len() && s[j].key@ == k;
        lemma_key_lt_irreflexive(k);
        if j < i {
            assert(key_lt(s[j].key@, k));
        } else if j > i {
            assert(key_lt(s[i].key@, s[j].key@));
            lemma_key_lt_transitive(k, s[i].key@, k);
        }
    }
}

proof fn lemma_remove_at<V: View>(s: Seq<KeyedEntry<V>>, t: Seq<KeyedEntry<V>>, i: int)
    requires
        table_sorted(s),
        0 <= i < s.len(),
        t == s.remove(i),
    ensures
        table_sorted(t),
        table_map(t) == table_map(s).remove(s[i].key@),
{
    let k = s[i].key@;
    assert forall|a: int, b: int| 0 <= a < b < t.len() implies key_lt(#[trigger] t[a].key@, #[trigger] t[b].key@) by {
        let a2 = if a < i { a } else { a + 1 };
        let b2 = if b < i { b } else { b + 1 };
        assert(t[a] == s[a2]);
        assert(t[b] == s[b2]);
    }
    let target = table_map(s).remove(k);
    assert forall|key: Seq<char>| #[trigger] table_map(t).contains_key(key) implies target.contains_key(key)
        && table_map(t)[key] == target[key] by {
        let a = choose|a: int| 0 <= a < t.len() && t[a].key@ == key;
        lemma_table_at(t, a);
        let a2 = if a < i { a } else { a + 1 };
        assert(t[a] == s[a2]);
        lemma_table_at(s, a2);
        lemma_key_lt_irreflexive(k);
        if a2 < i {
            assert(key_lt(s[a2].key@, s[i].key@));
        } else {
            assert(key_lt(s[i].key@, s[a2].key@));
        }
    }
    assert forall|key: Seq<char>| #[trigger] target.contains_key(key) implies table_map(t).contains_key(key) by {
        let a = choose|a: int| 0 <= a < s.len() && s[a].key@ == key;
        assert(a != i);
        if a < i {
            assert(t[a] == s[a]);
        } else {
            assert(t[a - 1] == s[a]);
        }
    }
    assert(table_map(t) =~= target);
}

proof fn lemma_table_insert<V: View>(
    old_entries: Seq<KeyedEntry<V>>,
    mid: Seq<KeyedEntry<V>>,
    new_entries: Seq<KeyedEntry<V>>,
    at: int,
    replace: bool,
    entry: KeyedEntry<V>,
)
    requires
        table_sorted(old_entries),
        0 <= at <= old_entries.len(),
        forall|j: int| 0 <= j < at ==> key_lt(#[trigger] old_entries[j].key@, entry.key@),
        replace == (at < old_entries.len() && old_entries[at].key@ == entry.key@),
        at < old_entries.len() && !replace ==> key_lt(entry.key@, old_entries[at].key@),
        replace ==> mid == old_entries.remove(at),
        !replace ==> mid == old_entries,
        new_entries == mid.insert(at, entry),
    ensures
        table_sorted(new_entries),
        table_map(new_entries) == table_map(old_entries).insert(entry.key@, entry.value@),
{
    let k = entry.key@;
    assert forall|a: int, b: int| 0 <= a < b < new_entries.len() implies key_lt(
        #[trigger] new_entries[a].key@,
        #[trigger] new_entries[b].key@,
    ) by {
        let a2 = if a < at || replace { a } else { a - 1 };
        let b2 = if b < at || replace { b } else { b - 1 };
        if a == at {
            assert(new_entries[a] == entry);
            if replace {
                assert(new_entries[b] == old_entries[b]);
                assert(key_lt(old_entries[at].key@, old_entries[b].key@));
            } else {
                assert(new_entries[b] == old_entries[b - 1]);
                if b - 1 > at {
                    assert(key_lt(old_entries[at].key@, old_entries[b - 1].key@));
                    lemma_key_lt_transitive(k, old_entries[at].key@, old_entries[b - 1].key@);
                }
            }
        } else if b == at {
            assert(new_entries[b] == entry);
            assert(new_entries[a] == old_entries[a]);
        } else {
            assert(new_entries[a] == old_entries[a2]);
            assert(new_entries[b] == old_entries[b2]);
        }
    }
    let target = table_map(old_entries).insert(k, entry.value@);
    assert forall|key: Seq<char>| #[trigger] table_map(new_entries).contains_key(key) implies target.contains_key(key)
        && table_map(new_entries)[key] == target[key] by {
        let a = choose|a: int| 0 <= a < new_entries.len() && new_entries[a].key@ == key;
        lemma_table_at(new_entries, a);
        if a != at {
            let a2 = if a < at || replace { a } else { a - 1 };
            assert(new_entries[a] == old_entries[a2]);
            lemma_table_at(old_entries, a2);
            assert(new_entries[at] == entry);
            lemma_key_lt_irreflexive(key);
            if a < at {
                assert(key_lt(new_entries[a].key@, new_entries[at].key@));
            } else {
                assert(key_lt(new_entries[at].key@, new_entries[a].key@));
            }
        }
    }
    assert forall|key: Seq<char>| #[trigger] target.contains_key(key) implies table_map(new_entries).contains_key(key) by {
        if key == k {
            assert(new_entries[at] == entry);
        } else {
            let a = choose|a: int| 0 <= a < old_entries.len() && old_entries[a].key@ == key;
            if a < at {
                assert(new_entries[a] == old_entries[a]);
            } else if replace {
                assert(a != at);
                assert(new_entries[a] == old_entries[a]);
            } else {
                assert(new_entries[a + 1] == old_entries[a]);
            }
        }
    }
    assert(table_map(new_entries) =~= target);
}

} // verus!
