//! The cache of the address last seen for each zone.

pub mod fs;

use crate::ip::Ipv4Address;
use indexmap::IndexMap;
use vstd::prelude::*;

verus! {

#[verifier::external_type_specification]
#[verifier::external_body]
#[verifier::reject_recursive_types(K)]
#[verifier::reject_recursive_types(V)]
#[verifier::reject_recursive_types(S)]
pub struct ExIndexMap<K, V, S>(IndexMap<K, V, S>);

/// The entries of an `IndexMap` from zone keys to address bits, in the
/// order in which the map hands them out: each key as its characters,
/// with the value stored under it.
pub uninterp spec fn index_map_entries(map: IndexMap<String, u32>) -> Seq<(Seq<char>, u32)>;

/// The position of the first entry with the key `key`, or the number of
/// entries where there is none.
pub open spec fn position(entries: Seq<(Seq<char>, u32)>, key: Seq<char>) -> int
    decreases entries.len(),
{
    if entries.len() == 0 || entries[0].0 == key {
        0
    } else {
        1 + position(entries.drop_first(), key)
    }
}

/// The address bits stored under `key`.
pub open spec fn lookup(entries: Seq<(Seq<char>, u32)>, key: Seq<char>) -> Option<u32> {
    let i = position(entries, key);
    if 0 <= i < entries.len() {
        Some(entries[i].1)
    } else {
        None
    }
}

/// The entries after `bits` was stored under `key`: an entry with that
/// key keeps its place and gets the new value, a new key goes last.
pub open spec fn put(entries: Seq<(Seq<char>, u32)>, key: Seq<char>, bits: u32) -> Seq<
    (Seq<char>, u32),
> {
    let i = position(entries, key);
    if 0 <= i < entries.len() {
        entries.update(i, (key, bits))
    } else {
        entries.push((key, bits))
    }
}

/// No key occurs twice.
pub open spec fn distinct_keys(entries: Seq<(Seq<char>, u32)>) -> bool {
    forall|i: int, j: int|
        0 <= i < j < entries.len() ==> (#[trigger] entries[i]).0 != (#[trigger] entries[j]).0
}

/// What observing an address for a zone amounts to.
#[derive(Debug, Clone, Copy, PartialEq, Eq, Structural)]
pub enum IpCacheResult {
    /// The zone had no entry.
    New,
    /// The zone's entry holds this address already.
    Unchanged,
    /// The zone's entry held another address.
    Changed { previous_ip_address: Ipv4Address },
}

/// How the address `bits` stands to what `entries` holds for `key`.
pub open spec fn classify(entries: Seq<(Seq<char>, u32)>, key: Seq<char>, bits: u32)
    -> IpCacheResult {
    match lookup(entries, key) {
        None => IpCacheResult::New,
        Some(previous) => if previous == bits {
            IpCacheResult::Unchanged
        } else {
            IpCacheResult::Changed { previous_ip_address: Ipv4Address { bits: previous } }
        },
    }
}

/// The position of a key is the first place where it stands.
pub proof fn lemma_position(entries: Seq<(Seq<char>, u32)>, key: Seq<char>)
    ensures
        0 <= position(entries, key) <= entries.len(),
        forall|j: int| 0 <= j < position(entries, key) ==> (#[trigger] entries[j]).0 != key,
        position(entries, key) < entries.len() ==> entries[position(entries, key)].0 == key,
    decreases entries.len(),
{
    if !(entries.len() == 0 || entries[0].0 == key) {
        let rest = entries.drop_first();
        lemma_position(rest, key);
        assert forall|j: int| 0 <= j < position(entries, key) implies (#[trigger] entries[j]).0
            != key by {
            if j > 0 {
                assert(entries[j] == rest[j - 1]);
            }
        }
    }
}

/// The first place where a key stands is its position.
pub proof fn lemma_position_is(entries: Seq<(Seq<char>, u32)>, key: Seq<char>, i: int)
    requires
        0 <= i <= entries.len(),
        forall|j: int| 0 <= j < i ==> (#[trigger] entries[j]).0 != key,
        i < entries.len() ==> entries[i].0 == key,
    ensures
        position(entries, key) == i,
    decreases i,
{
    if i > 0 {
        let rest = entries.drop_first();
        assert forall|j: int| 0 <= j < i - 1 implies (#[trigger] rest[j]).0 != key by {
            assert(rest[j] == entries[j + 1]);
        }
        assert(entries[0].0 != key);
        lemma_position_is(rest, key, i - 1);
    }
}

/// After `put`, the key is found where `put` wrote, with the new value,
/// and distinct keys stay distinct.
pub proof fn lemma_put(entries: Seq<(Seq<char>, u32)>, key: Seq<char>, bits: u32)
    ensures
        position(put(entries, key, bits), key) == position(entries, key),
        lookup(put(entries, key, bits), key) == Some(bits),
        distinct_keys(entries) ==> distinct_keys(put(entries, key, bits)),
        lookup(entries, key) == Some(bits) ==> put(entries, key, bits) == entries,
{
    lemma_position(entries, key);
    let i = position(entries, key);
    let after = put(entries, key, bits);
    assert forall|j: int| 0 <= j < i implies (#[trigger] after[j]).0 != key by {
        assert(after[j] == entries[j]);
    }
    lemma_position_is(after, key, i);
    if distinct_keys(entries) {
        assert forall|a: int, b: int| 0 <= a < b < after.len() implies (#[trigger] after[a]).0 != (
        #[trigger] after[b]).0 by {
            if i < entries.len() {
                assert(after[a].0 == entries[a].0);
                assert(after[b].0 == entries[b].0);
            } else {
                if b < entries.len() {
                    assert(after[a] == entries[a]);
                    assert(after[b] == entries[b]);
                } else {
                    assert(after[a] == entries[a]);
                }
            }
        }
    }
    if lookup(entries, key) == Some(bits) {
        assert(after =~= entries);
    }
}

/// `IndexMap::new`: a map without entries.
#[verifier::external_body]
fn map_new() -> (map: IndexMap<String, u32>)
    ensures
        index_map_entries(map) == Seq::<(Seq<char>, u32)>::empty(),
{
    IndexMap::new()
}

/// `IndexMap::clone`: a map with the same entries in the same order.
#[verifier::external_body]
fn map_clone(map: &IndexMap<String, u32>) -> (copy: IndexMap<String, u32>)
    ensures
        index_map_entries(copy) == index_map_entries(*map),
{
    map.clone()
}

/// `IndexMap::len`: the number of entries.
#[verifier::external_body]
fn map_len(map: &IndexMap<String, u32>) -> (n: usize)
    ensures
        n == index_map_entries(*map).len(),
{
    map.len()
}

/// `IndexMap::get`: the value stored under the key, if the map has the
/// key.
#[verifier::external_body]
fn map_get(map: &IndexMap<String, u32>, key: &str) -> (value: Option<u32>)
    ensures
        value == lookup(index_map_entries(*map), key@),
{
    map.get(key).copied()
}

/// `IndexMap::insert`: where the map has the key, the entry keeps its
/// place, takes the new value, and the old value is returned; where it
/// has not, the new entry goes last and `None` is returned.
#[verifier::external_body]
fn map_insert(map: &mut IndexMap<String, u32>, key: String, value: u32) -> (previous: Option<u32>)
    ensures
        previous == lookup(index_map_entries(*old(map)), key@),
        index_map_entries(*final(map)) == put(index_map_entries(*old(map)), key@, value),
{
    map.insert(key, value)
}

/// `IndexMap::get_index`: the entry at a place in the order, or `None`
/// from the number of entries on.
#[verifier::external_body]
fn map_get_index(map: &IndexMap<String, u32>, index: usize) -> (entry: Option<(String, u32)>)
    ensures
        match entry {
            Some((key, value)) => index < index_map_entries(*map).len() && key@
                == index_map_entries(*map)[index as int].0 && value == index_map_entries(
                *map,
            )[index as int].1,
            None => index >= index_map_entries(*map).len(),
        },
{
    match map.get_index(index) {
        Some((key, value)) => Some((key.clone(), *value)),
        None => None,
    }
}

/// The address last seen for each zone, by zone key, in the order in
/// which the zones were first seen.
#[derive(Debug)]
pub struct IpCache {
    cache: IndexMap<String, u32>,
}

impl View for IpCache {
    type V = Seq<(Seq<char>, u32)>;

    /// The entries in their order: zone key and address bits.
    closed spec fn view(&self) -> Seq<(Seq<char>, u32)> {
        index_map_entries(self.cache)
    }
}

impl Clone for IpCache {
    /// A cache with the same entries in the same order.
    fn clone(&self) -> (copy: IpCache)
        ensures
            copy@ == self@,
    {
        IpCache { cache: map_clone(&self.cache) }
    }
}

impl Default for IpCache {
    /// The cache without entries.
    fn default() -> (cache: IpCache)
        ensures
            cache@ == Seq::<(Seq<char>, u32)>::empty(),
            cache.wf(),
    {
        IpCache { cache: map_new() }
    }
}

impl IpCache {
    /// No zone key has two entries.
    pub open spec fn wf(&self) -> bool {
        distinct_keys(self@)
    }

    /// The cache that holds the entries of `cache`.
    pub fn new(cache: IndexMap<String, u32>) -> (ip_cache: IpCache)
        ensures
            ip_cache@ == index_map_entries(cache),
    {
        IpCache { cache }
    }

    /// The number of entries.
    pub fn len(&self) -> (n: usize)
        ensures
            n == self@.len(),
    {
        map_len(&self.cache)
    }

    /// The address stored for the zone.
    pub fn get(&self, zone_id: &str) -> (ip_address: Option<Ipv4Address>)
        ensures
            ip_address == match lookup(self@, zone_id@) {
                Some(bits) => Some(Ipv4Address { bits }),
                None => None,
            },
    {
        match map_get(&self.cache, zone_id) {
            Some(bits) => Some(Ipv4Address { bits }),
            None => None,
        }
    }

    /// How `ip_address` stands to what the cache holds for the zone; the
    /// cache stays as it is.
    pub fn classify(&self, zone_id: &str, ip_address: Ipv4Address) -> (result: IpCacheResult)
        ensures
            result == classify(self@, zone_id@, ip_address.bits),
    {
        match map_get(&self.cache, zone_id) {
            None => IpCacheResult::New,
            Some(previous) => if previous == ip_address.bits {
                IpCacheResult::Unchanged
            } else {
                IpCacheResult::Changed { previous_ip_address: Ipv4Address { bits: previous } }
            },
        }
    }

    /// Observes `ip_address` for the zone: says how it stands to the
    /// cached address and stores it. A zone without an entry gets one,
    /// last in order; an entry with another address keeps its place and
    /// takes the new one; an entry with this address leaves the cache
    /// untouched.
    pub fn handle_ip(&mut self, zone_id: &str, ip_address: Ipv4Address) -> (result: IpCacheResult)
        ensures
            result == classify(old(self)@, zone_id@, ip_address.bits),
            final(self)@ == put(old(self)@, zone_id@, ip_address.bits),
            result == IpCacheResult::Unchanged ==> final(self)@ == old(self)@,
            old(self).wf() ==> final(self).wf(),
    {
        proof {
            lemma_put(self@, zone_id@, ip_address.bits);
        }
        let cached = map_get(&self.cache, zone_id);
        if cached == Some(ip_address.bits) {
            IpCacheResult::Unchanged
        } else {
            let previous = map_insert(&mut self.cache, zone_id.to_owned(), ip_address.bits);
            match previous {
                Some(previous) => IpCacheResult::Changed {
                    previous_ip_address: Ipv4Address { bits: previous },
                },
                None => IpCacheResult::New,
            }
        }
    }

    /// The entries in their order.
    pub fn iter(&self) -> (entries: Vec<(String, Ipv4Address)>)
        ensures
            entries@.len() == self@.len(),
            forall|i: int|
                0 <= i < entries@.len() ==> (#[trigger] entries@[i]).0@ == self@[i].0
                    && entries@[i].1.bits == self@[i].1,
    {
        let n = map_len(&self.cache);
        let mut entries: Vec<(String, Ipv4Address)> = Vec::new();
        let mut i: usize = 0;
        while i < n
            invariant
                n == self@.len(),
                i <= n,
                entries@.len() == i,
                forall|j: int|
                    0 <= j < i ==> (#[trigger] entries@[j]).0@ == self@[j].0 && entries@[j].1.bits
                        == self@[j].1,
            decreases n - i,
        {
            match map_get_index(&self.cache, i) {
                Some((key, bits)) => {
                    entries.push((key, Ipv4Address { bits }));
                },
                None => {},
            }
            i += 1;
        }
        entries
    }
}

/// Observing an address a second time finds it unchanged.
pub proof fn law_observe_twice_unchanged(entries: Seq<(Seq<char>, u32)>, key: Seq<char>, bits: u32)
    ensures
        classify(put(entries, key, bits), key, bits) == IpCacheResult::Unchanged,
{
    lemma_put(entries, key, bits);
}

/// Observing another address after a first one reports the change, with
/// the first address as the previous one.
pub proof fn law_observe_other_changed(
    entries: Seq<(Seq<char>, u32)>,
    key: Seq<char>,
    first: u32,
    second: u32,
)
    requires
        first != second,
    ensures
        classify(put(entries, key, first), key, second) == (IpCacheResult::Changed {
            previous_ip_address: Ipv4Address { bits: first },
        }),
{
    lemma_put(entries, key, first);
}

} // verus!
