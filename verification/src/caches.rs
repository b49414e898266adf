//! Caches of the settings window: laid-out markdown keyed by a hash of its
//! text and width, and decoded icons keyed by plugin or resource.
use crate::text::str_eq;
use std::collections::HashMap;
use vstd::prelude::*;

verus! {

broadcast use vstd::std_specs::hash::group_hash_axioms;

/// How many laid-out markdown documents are kept before the cache starts over.
pub const LAYOUT_CACHE_LIMIT: usize = 16;

/// Values keyed by a 64-bit hash or id.
pub struct KeyedCache<V> {
    entries: HashMap<u64, V>,
}

impl<V> View for KeyedCache<V> {
    type V = Map<u64, V>;

    closed spec fn view(&self) -> Map<u64, V> {
        self.entries@
    }
}

impl<V> KeyedCache<V> {
    /// An empty cache.
    pub fn new() -> (cache: Self)
        ensures
            cache@ == Map::<u64, V>::empty(),
    {
        KeyedCache { entries: HashMap::new() }
    }

    /// The number of entries.
    pub fn len(&self) -> (n: usize)
        ensures
            n == self@.len(),
    {
        self.entries.len()
    }

    /// The value kept under `key`, if any.
    pub fn get(&self, key: u64) -> (value: Option<&V>)
        ensures
            match value {
                Some(v) => self@.contains_key(key) && self@[key] == *v,
                None => !self@.contains_key(key),
            },
    {
        self.entries.get(&key)
    }

    /// Keeps `value` under `key`.
    pub fn insert(&mut self, key: u64, value: V)
        ensures
            final(self)@ == old(self)@.insert(key, value),
    {
        self.entries.insert(key, value);
    }

    /// Keeps `value` under `key`, first emptying the cache when it already
    /// holds `limit` entries or more.
    pub fn insert_bounded(&mut self, key: u64, value: V, limit: usize)
        ensures
            old(self)@.len() >= limit ==> final(self)@ == Map::<u64, V>::empty().insert(key, value),
            old(self)@.len() < limit ==> final(self)@ == old(self)@.insert(key, value),
    {
        if self.entries.len() >= limit {
            self.entries.clear();
        }
        self.entries.insert(key, value);
    }

    /// Forgets every entry.
    pub fn clear(&mut self)
        ensures
            final(self)@ == Map::<u64, V>::empty(),
    {
        self.entries.clear();
    }
}

/// A bounded insertion never lets the cache grow past its limit, and the
/// inserted value can be found again.
pub proof fn lemma_insert_bounded_limit<V>(m: Map<u64, V>, key: u64, value: V, limit: nat)
    requires
        m.dom().finite(),
        limit > 0,
        m.len() <= limit,
    ensures
        ({
            let after = if m.len() >= limit {
                Map::<u64, V>::empty().insert(key, value)
            } else {
                m.insert(key, value)
            };
            &&& after.len() <= limit
            &&& after.contains_key(key)
            &&& after[key] == value
        }),
{
    if m.len() < limit {
        if m.contains_key(key) {
            assert(m.insert(key, value).dom() =~= m.dom());
        } else {
            assert(m.insert(key, value).dom() =~= m.dom().insert(key));
        }
    } else {
        assert(Map::<u64, V>::empty().insert(key, value).dom() =~= set![key]);
    }
}

/// Values keyed by a text id, such as a plugin id.
pub struct NamedCache<V> {
    entries: Vec<(String, V)>,
}

impl<V> NamedCache<V> {
    #[verifier::type_invariant]
    spec fn ids_unique(self) -> bool {
        Self::ids_distinct(self.entries@)
    }

    /// The kept values by id.
    pub closed spec fn contents(self) -> Map<Seq<char>, V> {
        Self::contents_of(self.entries@)
    }

    /// An empty cache.
    pub fn new() -> (cache: Self)
        ensures
            cache.contents() == Map::<Seq<char>, V>::empty(),
    {
        let cache = NamedCache { entries: Vec::new() };
        assert(cache.contents() =~= Map::<Seq<char>, V>::empty());
        cache
    }

    spec fn ids_distinct(entries: Seq<(String, V)>) -> bool {
        forall|i: int, j: int|
            0 <= i < j < entries.len() ==> (#[trigger] entries[i]).0@ != (#[trigger] entries[j]).0@
    }

    spec fn contents_of(entries: Seq<(String, V)>) -> Map<Seq<char>, V> {
        Map::new(
            |id: Seq<char>| exists|i: int| 0 <= i < entries.len() && entries[i].0@ == id,
            |id: Seq<char>| entries[choose|i: int| 0 <= i < entries.len() && entries[i].0@ == id].1,
        )
    }

    fn position(entries: &Vec<(String, V)>, id: &str) -> (found: Option<usize>)
        requires
            Self::ids_distinct(entries@),
        ensures
            match found {
                Some(i) => i < entries@.len() && entries@[i as int].0@ == id@
                    && Self::contents_of(entries@).contains_key(id@)
                    && Self::contents_of(entries@)[id@] == entries@[i as int].1,
                None => !Self::contents_of(entries@).contains_key(id@),
            },
    {
        let mut i: usize = 0;
        while i < entries.len()
            invariant
                Self::ids_distinct(entries@),
                i <= entries@.len(),
                forall|j: int| 0 <= j < i ==> entries@[j].0@ != id@,
            decreases entries@.len() - i,
        {
            if str_eq(entries[i].0.as_str(), id) {
                proof {
                    assert(Self::contents_of(entries@).contains_key(id@));
                    let k = choose|k: int| 0 <= k < entries@.len() && entries@[k].0@ == id@;
                    if k != i {
                        if k < i {
                            assert(entries@[k].0@ != entries@[i as int].0@);
                        } else {
                            assert(entries@[i as int].0@ != entries@[k].0@);
                        }
                    }
                }
                return Some(i);
            }
            i += 1;
        }
        None
    }

    /// The value kept under `id`, if any.
    pub fn get(&self, id: &str) -> (value: Option<&V>)
        ensures
            match value {
                Some(v) => self.contents().contains_key(id@) && self.contents()[id@] == *v,
                None => !self.contents().contains_key(id@),
            },
    {
        proof {
            use_type_invariant(self);
        }
        match Self::position(&self.entries, id) {
            Some(i) => Some(&self.entries[i].1),
            None => None,
        }
    }

    /// Keeps `value` under `id`, replacing what was kept under it before.
    pub fn insert(&mut self, id: String, value: V)
        ensures
            final(self).contents() == old(self).contents().insert(id@, value),
    {
        let mut cache = NamedCache { entries: Vec::new() };
        std::mem::swap(&mut cache, self);
        proof {
            use_type_invariant(&cache);
        }
        let ghost before = cache.contents();
        let NamedCache { entries: mut entries } = cache;
        let ghost old_entries = entries@;
        let ghost key = id@;
        match Self::position(&entries, id.as_str()) {
            Some(i) => {
                entries.set(i, (id, value));
                proof {
                    let new_entries = entries@;
                    assert(Self::ids_distinct(new_entries)) by {
                        assert forall|a: int, b: int| 0 <= a < b < new_entries.len() implies (#[trigger] new_entries[a]).0@
                            != (#[trigger] new_entries[b]).0@ by {
                            assert(old_entries[a].0@ != old_entries[b].0@);
                        }
                    }
                    assert(Self::contents_of(new_entries) =~= before.insert(key, value)) by {
                        assert forall|k: Seq<char>| #[trigger] Self::contents_of(new_entries).contains_key(k)
                            == before.insert(key, value).contains_key(k) by {
                            if k != key {
                                if Self::contents_of(new_entries).contains_key(k) {
                                    let j = choose|j: int| 0 <= j < new_entries.len() && new_entries[j].0@ == k;
                                    assert(old_entries[j].0@ == k);
                                }
                                if before.contains_key(k) {
                                    let j = choose|j: int| 0 <= j < old_entries.len() && old_entries[j].0@ == k;
                                    assert(new_entries[j].0@ == k);
                                }
                            } else {
                                assert(new_entries[i as int].0@ == k);
                            }
                        }
                        assert forall|k: Seq<char>| #[trigger] Self::contents_of(new_entries).contains_key(k)
                            implies Self::contents_of(new_entries)[k] == before.insert(key, value)[k] by {
                            let j = choose|j: int| 0 <= j < new_entries.len() && new_entries[j].0@ == k;
                            if k == key {
                                if j != i {
                                    if j < i {
                                        assert(new_entries[j].0@ != new_entries[i as int].0@);
                                    } else {
                                        assert(new_entries[i as int].0@ != new_entries[j].0@);
                                    }
                                }
                            } else {
                                let m = choose|m: int| 0 <= m < old_entries.len() && old_entries[m].0@ == k;
                                assert(new_entries[j] == old_entries[j]);
                                if m != j {
                                    if m < j {
                                        assert(old_entries[m].0@ != old_entries[j].0@);
                                    } else {
                                        assert(old_entries[j].0@ != old_entries[m].0@);
                                    }
                                }
                            }
                        }
                    }
                }
                *self = NamedCache { entries };
            },
            None => {
                entries.push((id, value));
                proof {
                    let new_entries = entries@;
                    let n = old_entries.len() as int;
                    assert(forall|j: int| 0 <= j < n ==> old_entries[j].0@ != key) by {
                        assert forall|j: int| 0 <= j < n implies old_entries[j].0@ != key by {
                            if old_entries[j].0@ == key {
                                assert(Self::contents_of(old_entries).contains_key(key));
                            }
                        }
                    }
                    assert(Self::ids_distinct(new_entries)) by {
                        assert forall|a: int, b: int| 0 <= a < b < new_entries.len() implies (#[trigger] new_entries[a]).0@
                            != (#[trigger] new_entries[b]).0@ by {
                            if b < n {
                                assert(old_entries[a].0@ != old_entries[b].0@);
                            }
                        }
                    }
                    assert(Self::contents_of(new_entries) =~= before.insert(key, value)) by {
                        assert forall|k: Seq<char>| #[trigger] Self::contents_of(new_entries).contains_key(k)
                            == before.insert(key, value).contains_key(k) by {
                            if k == key {
                                assert(new_entries[n].0@ == k);
                            } else {
                                if Self::contents_of(new_entries).contains_key(k) {
                                    let j = choose|j: int| 0 <= j < new_entries.len() && new_entries[j].0@ == k;
                                    assert(j < n);
                                    assert(old_entries[j].0@ == k);
                                }
                                if before.contains_key(k) {
                                    let j = choose|j: int| 0 <= j < old_entries.len() && old_entries[j].0@ == k;
                                    assert(new_entries[j].0@ == k);
                                }
                            }
                        }
                        assert forall|k: Seq<char>| #[trigger] Self::contents_of(new_entries).contains_key(k)
                            implies Self::contents_of(new_entries)[k] == before.insert(key, value)[k] by {
                            let j = choose|j: int| 0 <= j < new_entries.len() && new_entries[j].0@ == k;
                            if k == key {
                                assert(j == n);
                            } else {
                                let m = choose|m: int| 0 <= m < old_entries.len() && old_entries[m].0@ == k;
                                assert(j < n);
                                assert(new_entries[j] == old_entries[j]);
                                if m != j {
                                    if m < j {
                                        assert(old_entries[m].0@ != old_entries[j].0@);
                                    } else {
                                        assert(old_entries[j].0@ != old_entries[m].0@);
                                    }
                                }
                            }
                        }
                    }
                }
                *self = NamedCache { entries };
            },
        }
    }

    /// Forgets every entry.
    pub fn clear(&mut self)
        ensures
            final(self).contents() == Map::<Seq<char>, V>::empty(),
    {
        *self = NamedCache { entries: Vec::new() };
        assert(self.contents() =~= Map::<Seq<char>, V>::empty());
    }
}

/// Forgets every laid-out markdown document.
pub fn clear_cache<L>(layouts: &mut KeyedCache<L>)
    ensures
        final(layouts)@ == Map::<u64, L>::empty(),
{
    layouts.clear();
}

/// Forgets every plugin icon, and with them the laid-out markdown of the
/// plugin pages.
pub fn clear_plugin_icon_cache<I, L>(icons: &mut NamedCache<I>, layouts: &mut KeyedCache<L>)
    ensures
        final(icons).contents() == Map::<Seq<char>, I>::empty(),
        final(layouts)@ == Map::<u64, L>::empty(),
{
    icons.clear();
    clear_cache(layouts);
}

/// Forgets the sidebar's page icons.
pub fn clear_sidebar_icon_cache<I>(icons: &mut Option<Vec<I>>)
    ensures
        *final(icons) is None,
{
    *icons = None;
}

/// Forgets the icons of plugin settings pages.
pub fn clear_plugin_settings_icon_cache<I>(icons: &mut KeyedCache<I>)
    ensures
        final(icons)@ == Map::<u64, I>::empty(),
{
    icons.clear();
}

} // verus!
