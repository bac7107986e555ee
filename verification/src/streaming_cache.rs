//! A capacity-bounded store from resource ids to byte payloads, with a
//! choice of eviction policies.
//!
//! The cache is modelled by [`CacheView`]: its entries in the order in which
//! their ids first came in, and its counters. Every operation is specified as
//! a function from one view to the next.

use vstd::prelude::*;
use crate::clock::{idle_longer_than_window, is_idle, Clock, Timestamp};
use crate::counters::{bumped, bumped_u64, percent, percent_of};
use crate::text::str_eq;
use crate::ResourceId;

verus! {

/// The rule that picks the entry to drop when room is needed.
#[derive(Debug, Clone, Copy, PartialEq, Eq, Structural)]
pub enum EvictionPolicy {
    /// Drop the entry that was accessed longest ago.
    LeastRecentlyUsed,
    /// Drop the entry that was accessed least often.
    LeastFrequentlyUsed,
    /// Drop the entry with the lowest stored priority.
    Priority,
}

/// Capacity in bytes and eviction policy of a cache.
#[derive(Debug, Clone, Copy)]
pub struct CacheConfig {
    pub max_size: u64,
    pub eviction_policy: EvictionPolicy,
}

/// The priority that a freshly inserted entry has.
pub const DEFAULT_ENTRY_PRIORITY: u8 = 5;

/// One cached payload with its bookkeeping.
#[derive(Debug)]
pub struct CacheEntry {
    id: ResourceId,
    data: Vec<u8>,
    access_count: u32,
    last_accessed: Timestamp,
    size: u64,
    priority: u8,
}

/// What a cache entry holds.
pub struct EntryView {
    pub id: Seq<char>,
    pub data: Seq<u8>,
    pub access_count: u32,
    pub last_accessed: Timestamp,
    pub size: u64,
    pub priority: u8,
}

impl View for CacheEntry {
    type V = EntryView;

    closed spec fn view(&self) -> EntryView {
        EntryView {
            id: self.id@,
            data: self.data@,
            access_count: self.access_count,
            last_accessed: self.last_accessed,
            size: self.size,
            priority: self.priority,
        }
    }
}

/// The sum of the sizes of the entries.
pub open spec fn total_size(entries: Seq<EntryView>) -> int
    decreases entries.len(),
{
    if entries.len() == 0 {
        0
    } else {
        total_size(entries.drop_last()) + entries.last().size
    }
}

/// The position of the entry with the given id, or `-1` where there is none.
/// Where several entries have the id, the last of them counts.
pub open spec fn index_of(entries: Seq<EntryView>, id: Seq<char>) -> int
    decreases entries.len(),
{
    if entries.len() == 0 {
        -1
    } else if entries.last().id == id {
        entries.len() - 1
    } else {
        index_of(entries.drop_last(), id)
    }
}

/// No two entries have the same id.
pub open spec fn distinct_ids(entries: Seq<EntryView>) -> bool {
    forall|i: int, j: int|
        0 <= i < j < entries.len() ==> (#[trigger] entries[i]).id != (#[trigger] entries[j]).id
}

/// The number by which a policy ranks an entry: the lowest goes first.
pub open spec fn eviction_key(entry: EntryView, policy: EvictionPolicy) -> int {
    match policy {
        EvictionPolicy::LeastRecentlyUsed => entry.last_accessed as int,
        EvictionPolicy::LeastFrequentlyUsed => entry.access_count as int,
        EvictionPolicy::Priority => entry.priority as int,
    }
}

/// The position of the entry that a policy drops next: the first of those
/// with the lowest key. Zero for an empty sequence.
pub open spec fn victim_index(entries: Seq<EntryView>, policy: EvictionPolicy) -> int
    decreases entries.len(),
{
    if entries.len() <= 1 {
        0
    } else {
        let rest = victim_index(entries.drop_last(), policy);
        if eviction_key(entries.last(), policy) < eviction_key(entries[rest], policy) {
            entries.len() - 1
        } else {
            rest
        }
    }
}

/// The entries that are left once room for `required` bytes was made:
/// victims are dropped one by one until the rest and `required` fit in
/// `max_size`, or nothing is left.
pub open spec fn after_eviction(
    entries: Seq<EntryView>,
    policy: EvictionPolicy,
    max_size: int,
    required: int,
) -> Seq<EntryView>
    decreases entries.len(),
    via after_eviction_decreases
{
    if entries.len() == 0 || total_size(entries) + required <= max_size {
        entries
    } else {
        after_eviction(
            entries.remove(victim_index(entries, policy)),
            policy,
            max_size,
            required,
        )
    }
}

#[via_fn]
proof fn after_eviction_decreases(
    entries: Seq<EntryView>,
    policy: EvictionPolicy,
    max_size: int,
    required: int,
) {
    if entries.len() > 0 {
        lemma_victim_is_first_minimum(entries, policy);
    }
}

/// An entry is cold at `now`: idle for more than the idle window and
/// accessed at most once.
pub open spec fn is_cold(entry: EntryView, now: Timestamp) -> bool {
    idle_longer_than_window(entry.last_accessed, now) && entry.access_count <= 1
}

/// The predicate that holds of the entries that are not cold at `now`.
pub open spec fn not_cold_at(now: Timestamp) -> spec_fn(EntryView) -> bool {
    |entry: EntryView| !is_cold(entry, now)
}

/// The state of a cache.
pub struct CacheView {
    pub max_size: u64,
    pub eviction_policy: EvictionPolicy,
    pub entries: Seq<EntryView>,
    pub current_size: u64,
    pub hit_count: u64,
    pub miss_count: u64,
}

impl CacheView {
    /// The invariant of a cache: ids are distinct, each entry's size is the
    /// length of its payload, the resident size is the sum of the entries'
    /// sizes, and it does not exceed the capacity.
    pub open spec fn wf(self) -> bool {
        &&& distinct_ids(self.entries)
        &&& forall|i: int|
            0 <= i < self.entries.len() ==> (#[trigger] self.entries[i]).size
                == self.entries[i].data.len()
        &&& self.current_size == total_size(self.entries)
        &&& self.current_size <= self.max_size
    }

    /// Whether an entry with the id is resident.
    pub open spec fn contains(self, id: Seq<char>) -> bool {
        index_of(self.entries, id) >= 0
    }

    /// The payload stored under the id; meaningful where the id is resident.
    pub open spec fn payload(self, id: Seq<char>) -> Seq<u8> {
        self.entries[index_of(self.entries, id)].data
    }

    /// The hit rate in whole percent: hits over hits and misses.
    pub open spec fn hit_rate(self) -> int {
        percent_of(self.hit_count as int, self.hit_count + self.miss_count)
    }

    /// The empty cache with the given capacity and policy.
    pub open spec fn empty(max_size: u64, eviction_policy: EvictionPolicy) -> CacheView {
        CacheView {
            max_size,
            eviction_policy,
            entries: Seq::empty(),
            current_size: 0,
            hit_count: 0,
            miss_count: 0,
        }
    }

    /// The cache with the given entries in place of its own.
    pub open spec fn with_entries(self, entries: Seq<EntryView>) -> CacheView {
        CacheView { entries, current_size: total_size(entries) as u64, ..self }
    }

    /// The cache after a payload was offered at time `now`. One larger than
    /// the capacity changes nothing. Else room is made by eviction, and the
    /// payload becomes an entry with one access and the default priority: in
    /// the place of a resident entry with the same id, or behind the others.
    pub open spec fn insert(self, id: Seq<char>, data: Seq<u8>, now: Timestamp) -> CacheView {
        if data.len() > self.max_size {
            self
        } else {
            let kept = after_eviction(
                self.entries,
                self.eviction_policy,
                self.max_size as int,
                data.len() as int,
            );
            let entry = EntryView {
                id,
                data,
                access_count: 1,
                last_accessed: now,
                size: data.len() as u64,
                priority: DEFAULT_ENTRY_PRIORITY,
            };
            let at = index_of(kept, id);
            if at >= 0 {
                self.with_entries(kept.update(at, entry))
            } else {
                self.with_entries(kept.push(entry))
            }
        }
    }

    /// The cache after a lookup at time `now`: a hit counts one more access
    /// for the entry and one more hit, a miss counts one more miss.
    pub open spec fn get(self, id: Seq<char>, now: Timestamp) -> CacheView {
        let at = index_of(self.entries, id);
        if at >= 0 {
            let entry = self.entries[at];
            let touched = EntryView {
                access_count: bumped(entry.access_count),
                last_accessed: now,
                ..entry
            };
            CacheView {
                entries: self.entries.update(at, touched),
                hit_count: bumped_u64(self.hit_count),
                ..self
            }
        } else {
            CacheView { miss_count: bumped_u64(self.miss_count), ..self }
        }
    }

    /// The cache without the entry of the given id.
    pub open spec fn remove(self, id: Seq<char>) -> CacheView {
        let at = index_of(self.entries, id);
        if at >= 0 {
            self.with_entries(self.entries.remove(at))
        } else {
            self
        }
    }

    /// The cache with the stored priority of an entry replaced.
    pub open spec fn set_priority(self, id: Seq<char>, priority: u8) -> CacheView {
        let at = index_of(self.entries, id);
        if at >= 0 {
            let entry = self.entries[at];
            CacheView { entries: self.entries.update(at, EntryView { priority, ..entry }), ..self }
        } else {
            self
        }
    }

    /// The cache without the entries that are cold at `now`.
    pub open spec fn cleanup(self, now: Timestamp) -> CacheView {
        self.with_entries(self.entries.filter(not_cold_at(now)))
    }

    /// The cache with nothing in it and its counters at zero.
    pub open spec fn clear(self) -> CacheView {
        Self::empty(self.max_size, self.eviction_policy)
    }
}

/// The sum of sizes after one more entry.
pub proof fn lemma_total_size_push(entries: Seq<EntryView>, entry: EntryView)
    ensures
        total_size(entries.push(entry)) == total_size(entries) + entry.size,
{
    assert(entries.push(entry).drop_last() =~= entries);
}

/// The sum of sizes is not negative, and no entry is larger than it.
pub proof fn lemma_total_size_bounds(entries: Seq<EntryView>, i: int)
    requires
        0 <= i < entries.len(),
    ensures
        0 <= entries[i].size <= total_size(entries),
    decreases entries.len(),
{
    lemma_total_size_nonnegative(entries.drop_last());
    if i < entries.len() - 1 {
        lemma_total_size_bounds(entries.drop_last(), i);
    }
}

/// The sum of sizes is not negative.
pub proof fn lemma_total_size_nonnegative(entries: Seq<EntryView>)
    ensures
        0 <= total_size(entries),
    decreases entries.len(),
{
    if entries.len() > 0 {
        lemma_total_size_nonnegative(entries.drop_last());
    }
}

/// The sum of sizes after an entry was taken out.
pub proof fn lemma_total_size_remove(entries: Seq<EntryView>, i: int)
    requires
        0 <= i < entries.len(),
    ensures
        total_size(entries.remove(i)) == total_size(entries) - entries[i].size,
    decreases entries.len(),
{
    if i == entries.len() - 1 {
        assert(entries.remove(i) =~= entries.drop_last());
    } else {
        lemma_total_size_remove(entries.drop_last(), i);
        assert(entries.remove(i).drop_last() =~= entries.drop_last().remove(i));
        assert(entries.remove(i).last() == entries.last());
    }
}

/// The sum of sizes after an entry was replaced.
pub proof fn lemma_total_size_update(entries: Seq<EntryView>, i: int, entry: EntryView)
    requires
        0 <= i < entries.len(),
    ensures
        total_size(entries.update(i, entry)) == total_size(entries) - entries[i].size + entry.size,
    decreases entries.len(),
{
    if i == entries.len() - 1 {
        assert(entries.update(i, entry).drop_last() =~= entries.drop_last());
    } else {
        lemma_total_size_update(entries.drop_last(), i, entry);
        assert(entries.update(i, entry).drop_last() =~= entries.drop_last().update(i, entry));
    }
}

/// What [`index_of`] finds: an entry with the id, where there is one, and
/// `-1` exactly where there is none.
pub proof fn lemma_index_of(entries: Seq<EntryView>, id: Seq<char>)
    ensures
        -1 <= index_of(entries, id) < entries.len(),
        index_of(entries, id) >= 0 ==> entries[index_of(entries, id)].id == id,
        index_of(entries, id) == -1 ==> forall|i: int|
            0 <= i < entries.len() ==> (#[trigger] entries[i]).id != id,
    decreases entries.len(),
{
    if entries.len() > 0 && entries.last().id != id {
        lemma_index_of(entries.drop_last(), id);
        assert forall|i: int| 0 <= i < entries.len() && index_of(entries, id) == -1 implies (
        #[trigger] entries[i]).id != id by {
            if i < entries.len() - 1 {
                assert(entries.drop_last()[i].id != id);
            }
        }
    }
}

/// Among distinct ids, an entry is found where it stands.
pub proof fn lemma_index_of_unique(entries: Seq<EntryView>, i: int)
    requires
        distinct_ids(entries),
        0 <= i < entries.len(),
    ensures
        index_of(entries, entries[i].id) == i,
{
    lemma_index_of(entries, entries[i].id);
    let found = index_of(entries, entries[i].id);
    if found == -1 {
        assert(entries[i].id != entries[i].id);
    } else if found < i {
        assert(entries[found].id != entries[i].id);
    } else if found > i {
        assert(entries[i].id != entries[found].id);
    }
}

/// The entry that a policy drops next has the lowest key, and is the first
/// entry with that key.
pub proof fn lemma_victim_is_first_minimum(entries: Seq<EntryView>, policy: EvictionPolicy)
    requires
        entries.len() > 0,
    ensures
        0 <= victim_index(entries, policy) < entries.len(),
        forall|i: int|
            0 <= i < entries.len() ==> eviction_key(entries[victim_index(entries, policy)], policy)
                <= eviction_key(#[trigger] entries[i], policy),
        forall|i: int|
            0 <= i < victim_index(entries, policy) ==> eviction_key(
                entries[victim_index(entries, policy)],
                policy,
            ) < eviction_key(#[trigger] entries[i], policy),
    decreases entries.len(),
{
    if entries.len() > 1 {
        let shorter = entries.drop_last();
        lemma_victim_is_first_minimum(shorter, policy);
        let rest = victim_index(shorter, policy);
        let victim = victim_index(entries, policy);
        assert forall|i: int| 0 <= i < entries.len() implies eviction_key(entries[victim], policy)
            <= eviction_key(#[trigger] entries[i], policy) by {
            if i < entries.len() - 1 {
                assert(shorter[i] == entries[i]);
            }
        }
        assert forall|i: int| 0 <= i < victim implies eviction_key(entries[victim], policy)
            < eviction_key(#[trigger] entries[i], policy) by {
            assert(shorter[i] == entries[i]);
            if victim == rest {
            } else {
                assert(eviction_key(shorter[rest], policy) <= eviction_key(shorter[i], policy));
            }
        }
    }
}

/// Taking an entry out of distinct ids leaves distinct ids, and entries that
/// each still have the length of their payload as size.
pub proof fn lemma_remove_keeps_shape(entries: Seq<EntryView>, i: int)
    requires
        0 <= i < entries.len(),
        distinct_ids(entries),
        forall|k: int|
            0 <= k < entries.len() ==> (#[trigger] entries[k]).size == entries[k].data.len(),
    ensures
        distinct_ids(entries.remove(i)),
        forall|k: int|
            0 <= k < entries.remove(i).len() ==> (#[trigger] entries.remove(i)[k]).size
                == entries.remove(i)[k].data.len(),
{
    let shorter = entries.remove(i);
    assert forall|a: int, b: int| 0 <= a < b < shorter.len() implies (#[trigger] shorter[a]).id != (
    #[trigger] shorter[b]).id by {
        let a0 = if a < i { a } else { a + 1 };
        let b0 = if b < i { b } else { b + 1 };
        assert(shorter[a] == entries[a0]);
        assert(shorter[b] == entries[b0]);
    }
    assert forall|k: int| 0 <= k < shorter.len() implies (#[trigger] shorter[k]).size
        == shorter[k].data.len() by {
        let k0 = if k < i { k } else { k + 1 };
        assert(shorter[k] == entries[k0]);
    }
}

/// Eviction keeps the shape of the entries, makes the room that was asked
/// for whenever that much fits in the capacity at all, and drops nothing
/// where there is room already.
pub proof fn lemma_after_eviction(
    entries: Seq<EntryView>,
    policy: EvictionPolicy,
    max_size: int,
    required: int,
)
    requires
        distinct_ids(entries),
        forall|k: int|
            0 <= k < entries.len() ==> (#[trigger] entries[k]).size == entries[k].data.len(),
    ensures
        ({
            let kept = after_eviction(entries, policy, max_size, required);
            &&& distinct_ids(kept)
            &&& forall|k: int|
                0 <= k < kept.len() ==> (#[trigger] kept[k]).size == kept[k].data.len()
            &&& kept.len() <= entries.len()
            &&& total_size(kept) <= total_size(entries)
            &&& 0 <= required <= max_size ==> total_size(kept) + required <= max_size
            &&& total_size(entries) + required <= max_size ==> kept == entries
            &&& forall|k: int|
                0 <= k < kept.len() ==> index_of(entries, (#[trigger] kept[k]).id) >= 0
        }),
    decreases entries.len(),
{
    if entries.len() == 0 || total_size(entries) + required <= max_size {
        assert forall|k: int| 0 <= k < entries.len() implies index_of(
            entries,
            (#[trigger] entries[k]).id,
        ) >= 0 by {
            lemma_index_of_unique(entries, k);
        }
    } else {
        lemma_victim_is_first_minimum(entries, policy);
        let victim = victim_index(entries, policy);
        let shorter = entries.remove(victim);
        lemma_remove_keeps_shape(entries, victim);
        lemma_total_size_remove(entries, victim);
        lemma_total_size_bounds(entries, victim);
        lemma_after_eviction(shorter, policy, max_size, required);
        let kept = after_eviction(entries, policy, max_size, required);
        assert(kept == after_eviction(shorter, policy, max_size, required));
        assert forall|k: int| 0 <= k < kept.len() implies index_of(
            entries,
            (#[trigger] kept[k]).id,
        ) >= 0 by {
            let at = index_of(shorter, kept[k].id);
            lemma_index_of(shorter, kept[k].id);
            let at0 = if at < victim { at } else { at + 1 };
            assert(shorter[at] == entries[at0]);
            lemma_index_of(entries, kept[k].id);
        }
    }
}


/// Extending a prefix by one entry moves [`index_of`] to the new entry
/// exactly when it has the id.
proof fn lemma_index_of_step(entries: Seq<EntryView>, n: int, id: Seq<char>)
    requires
        0 <= n < entries.len(),
    ensures
        index_of(entries.subrange(0, n + 1), id) == if entries[n].id == id {
            n
        } else {
            index_of(entries.subrange(0, n), id)
        },
{
    let prefix = entries.subrange(0, n + 1);
    assert(prefix.last() == entries[n]);
    assert(prefix.drop_last() =~= entries.subrange(0, n));
}

/// Extending a non-empty prefix by one entry moves the victim to the new
/// entry exactly when its key is lower than the victim's so far.
proof fn lemma_victim_index_step(entries: Seq<EntryView>, n: int, policy: EvictionPolicy)
    requires
        1 <= n < entries.len(),
    ensures
        0 <= victim_index(entries.subrange(0, n), policy) < n,
        victim_index(entries.subrange(0, n + 1), policy) == if eviction_key(entries[n], policy)
            < eviction_key(entries[victim_index(entries.subrange(0, n), policy)], policy) {
            n
        } else {
            victim_index(entries.subrange(0, n), policy)
        },
{
    let prefix = entries.subrange(0, n + 1);
    assert(prefix.last() == entries[n]);
    assert(prefix.drop_last() =~= entries.subrange(0, n));
    lemma_victim_is_first_minimum(entries.subrange(0, n), policy);
    let rest = victim_index(entries.subrange(0, n), policy);
    assert(prefix[rest] == entries[rest]);
}

/// Summary figures of a cache.
#[derive(Debug, Clone, Copy)]
pub struct CacheStats {
    pub total_entries: usize,
    pub current_size: u64,
    pub max_size: u64,
    /// Resident size over capacity, in whole percent.
    pub usage_percentage: u64,
    /// Hits over lookups, in whole percent.
    pub hit_rate: u64,
    pub hit_count: u64,
    pub miss_count: u64,
}

/// A capacity-bounded cache of byte payloads.
#[derive(Debug)]
pub struct StreamingCache {
    config: CacheConfig,
    entries: Vec<CacheEntry>,
    current_size: u64,
    hit_count: u64,
    miss_count: u64,
    clock: Clock,
}

/// The views of a sequence of entries, in order.
pub closed spec fn views_of(entries: Seq<CacheEntry>) -> Seq<EntryView> {
    Seq::new(entries.len(), |i: int| entries[i]@)
}

impl View for StreamingCache {
    type V = CacheView;

    closed spec fn view(&self) -> CacheView {
        CacheView {
            max_size: self.config.max_size,
            eviction_policy: self.config.eviction_policy,
            entries: views_of(self.entries@),
            current_size: self.current_size,
            hit_count: self.hit_count,
            miss_count: self.miss_count,
        }
    }
}

impl StreamingCache {
    /// The invariant that every operation keeps: see [`CacheView::wf`].
    pub open spec fn wf(&self) -> bool {
        self@.wf()
    }

    /// An empty cache.
    pub fn new(config: CacheConfig) -> (r: StreamingCache)
        ensures
            r@ == CacheView::empty(config.max_size, config.eviction_policy),
            r.wf(),
    {
        let r = StreamingCache {
            config,
            entries: Vec::new(),
            current_size: 0,
            hit_count: 0,
            miss_count: 0,
            clock: Clock::new(),
        };
        assert(r@.entries =~= Seq::empty());
        r
    }

    /// Offers a payload to the cache at the present time: see
    /// [`Self::insert_at`].
    pub fn insert(&mut self, resource_id: ResourceId, data: Vec<u8>)
        requires
            old(self).wf(),
        ensures
            final(self).wf(),
            exists|now: Timestamp| final(self)@ == #[trigger] old(self)@.insert(resource_id@, data@, now),
    {
        let now = self.clock.now();
        self.insert_at(resource_id, data, now);
    }

    /// Offers a payload to the cache at time `now`. A payload larger than
    /// the capacity is turned away and nothing changes. Else entries are
    /// evicted until the payload fits, and it is stored under the id.
    pub fn insert_at(&mut self, resource_id: ResourceId, data: Vec<u8>, now: Timestamp)
        requires
            old(self).wf(),
        ensures
            final(self).wf(),
            final(self)@ == old(self)@.insert(resource_id@, data@, now),
    {
        let size = data.len() as u64;
        if size > self.config.max_size {
            return ;
        }
        proof {
            lemma_after_eviction(
                self@.entries,
                self@.eviction_policy,
                self@.max_size as int,
                size as int,
            );
        }
        self.make_space_for(size);
        let ghost kept = self@.entries;
        let found = self.find_index(resource_id.as_str());
        let entry = CacheEntry {
            id: resource_id,
            data,
            access_count: 1,
            last_accessed: now,
            size,
            priority: DEFAULT_ENTRY_PRIORITY,
        };
        proof {
            lemma_index_of(kept, entry@.id);
        }
        match found {
            Some(at) => {
                let old_size = self.entries[at].size;
                proof {
                    lemma_total_size_update(kept, at as int, entry@);
                    lemma_total_size_bounds(kept, at as int);
                }
                self.entries[at] = entry;
                self.current_size = self.current_size - old_size + size;
                assert(self@.entries =~= kept.update(at as int, entry@));
                assert(distinct_ids(self@.entries)) by {
                    assert forall|i: int, j: int| 0 <= i < j < self@.entries.len() implies (
                    #[trigger] self@.entries[i]).id != (#[trigger] self@.entries[j]).id by {
                        assert(self@.entries[i].id == kept[i].id);
                        assert(self@.entries[j].id == kept[j].id);
                    }
                }
            },
            None => {
                proof {
                    lemma_total_size_push(kept, entry@);
                }
                self.entries.push(entry);
                self.current_size = self.current_size + size;
                assert(self@.entries =~= kept.push(entry@));
                assert(distinct_ids(self@.entries)) by {
                    assert forall|i: int, j: int| 0 <= i < j < self@.entries.len() implies (
                    #[trigger] self@.entries[i]).id != (#[trigger] self@.entries[j]).id by {
                        assert(self@.entries[i] == kept[i]);
                        if j < kept.len() {
                            assert(self@.entries[j] == kept[j]);
                        }
                    }
                }
            },
        }
    }

    /// Looks a payload up at the present time: see [`Self::get_at`].
    pub fn get(&mut self, resource_id: &ResourceId) -> (r: Option<&Vec<u8>>)
        requires
            old(self).wf(),
        ensures
            final(self).wf(),
            exists|now: Timestamp| final(self)@ == #[trigger] old(self)@.get(resource_id@, now),
            match r {
                Some(data) => old(self)@.contains(resource_id@) && data@ == old(self)@.payload(
                    resource_id@,
                ),
                None => !old(self)@.contains(resource_id@),
            },
    {
        let now = self.clock.now();
        self.get_at(resource_id, now)
    }

    /// Looks a payload up at time `now`. A hit returns the payload, counts
    /// one more access for the entry and stamps it with `now`; a miss
    /// returns nothing. Either way the matching counter goes up by one,
    /// unless it has reached the largest value.
    pub fn get_at(&mut self, resource_id: &ResourceId, now: Timestamp) -> (r: Option<&Vec<u8>>)
        requires
            old(self).wf(),
        ensures
            final(self).wf(),
            final(self)@ == old(self)@.get(resource_id@, now),
            match r {
                Some(data) => old(self)@.contains(resource_id@) && data@ == old(self)@.payload(
                    resource_id@,
                ),
                None => !old(self)@.contains(resource_id@),
            },
    {
        let ghost before = self@.entries;
        match self.find_index(resource_id.as_str()) {
            Some(at) => {
                let count = self.entries[at].access_count;
                self.entries[at].access_count = count.saturating_add(1);
                self.entries[at].last_accessed = now;
                self.hit_count = self.hit_count.saturating_add(1);
                proof {
                    let touched = self@.entries[at as int];
                    assert(self@.entries =~= before.update(at as int, touched));
                    lemma_total_size_update(before, at as int, touched);
                    assert forall|i: int, j: int| 0 <= i < j < self@.entries.len() implies (
                    #[trigger] self@.entries[i]).id != (#[trigger] self@.entries[j]).id by {
                        assert(self@.entries[i].id == before[i].id);
                        assert(self@.entries[j].id == before[j].id);
                    }
                    assert forall|i: int| 0 <= i < self@.entries.len() implies (
                    #[trigger] self@.entries[i]).size == self@.entries[i].data.len() by {
                        assert(self@.entries[i].size == before[i].size);
                        assert(self@.entries[i].data == before[i].data);
                    }
                }
                Some(&self.entries[at].data)
            },
            None => {
                self.miss_count = self.miss_count.saturating_add(1);
                None
            },
        }
    }

    /// Takes the entry of the given id out, and says whether there was one.
    pub fn remove(&mut self, resource_id: &ResourceId) -> (r: bool)
        requires
            old(self).wf(),
        ensures
            final(self).wf(),
            final(self)@ == old(self)@.remove(resource_id@),
            r == old(self)@.contains(resource_id@),
    {
        match self.find_index(resource_id.as_str()) {
            Some(at) => {
                self.remove_at(at);
                true
            },
            None => false,
        }
    }

    /// Takes the entry at a position out.
    fn remove_at(&mut self, at: usize)
        requires
            old(self).wf(),
            at < old(self)@.entries.len(),
        ensures
            final(self).wf(),
            final(self)@ == old(self)@.with_entries(old(self)@.entries.remove(at as int)),
            final(self)@.entries.len() == old(self)@.entries.len() - 1,
    {
        let ghost before = self@.entries;
        proof {
            lemma_total_size_remove(before, at as int);
            lemma_total_size_bounds(before, at as int);
            lemma_remove_keeps_shape(before, at as int);
        }
        let entry = self.entries.remove(at);
        self.current_size = self.current_size - entry.size;
        assert(self@.entries =~= before.remove(at as int));
    }

    /// Whether an entry with the id is resident.
    pub fn contains(&self, resource_id: &ResourceId) -> (r: bool)
        ensures
            r == self@.contains(resource_id@),
    {
        self.find_index(resource_id.as_str()).is_some()
    }

    /// The resident size in bytes.
    pub fn current_size(&self) -> (r: u64)
        ensures
            r == self@.current_size,
    {
        self.current_size
    }

    /// The capacity in bytes.
    pub fn max_size(&self) -> (r: u64)
        ensures
            r == self@.max_size,
    {
        self.config.max_size
    }

    /// The resident size as a share of the capacity, in whole percent
    /// rounded down; zero for a capacity of zero.
    pub fn usage_percentage(&self) -> (r: u64)
        requires
            self.wf(),
        ensures
            r == percent_of(self@.current_size as int, self@.max_size as int),
            r <= 100,
    {
        percent(self.current_size, self.config.max_size as u128)
    }

    /// The share of lookups that were hits, in whole percent rounded down;
    /// zero before the first lookup.
    pub fn get_hit_rate(&self) -> (r: u64)
        ensures
            r == self@.hit_rate(),
            r <= 100,
    {
        let total: u128 = (self.hit_count as u128) + (self.miss_count as u128);
        percent(self.hit_count, total)
    }

    /// Empties the cache and sets its counters to zero.
    pub fn clear(&mut self)
        ensures
            final(self).wf(),
            final(self)@ == old(self)@.clear(),
    {
        self.entries.clear();
        self.current_size = 0;
        self.hit_count = 0;
        self.miss_count = 0;
        assert(self@.entries =~= Seq::empty());
    }

    /// Evicts entries until `required_size` more bytes fit, or nothing is left.
    pub fn make_space_for(&mut self, required_size: u64)
        requires
            old(self).wf(),
        ensures
            final(self).wf(),
            final(self)@ == old(self)@.with_entries(
                after_eviction(
                    old(self)@.entries,
                    old(self)@.eviction_policy,
                    old(self)@.max_size as int,
                    required_size as int,
                ),
            ),
    {
        while self.config.max_size - self.current_size < required_size && self.entries.len() > 0
            invariant
                self.wf(),
                self@.max_size == old(self)@.max_size,
                self@.eviction_policy == old(self)@.eviction_policy,
                self@.hit_count == old(self)@.hit_count,
                self@.miss_count == old(self)@.miss_count,
                after_eviction(
                    self@.entries,
                    self@.eviction_policy,
                    self@.max_size as int,
                    required_size as int,
                ) == after_eviction(
                    old(self)@.entries,
                    old(self)@.eviction_policy,
                    old(self)@.max_size as int,
                    required_size as int,
                ),
            decreases self@.entries.len(),
        {
            if let Some(resource_id) = self.select_victim() {
                proof {
                    lemma_victim_is_first_minimum(self@.entries, self@.eviction_policy);
                    lemma_index_of_unique(
                        self@.entries,
                        victim_index(self@.entries, self@.eviction_policy),
                    );
                }
                self.remove(&resource_id);
            }
        }
    }

    /// The id of the entry that the configured policy drops next; nothing
    /// for an empty cache.
    pub fn select_victim(&self) -> (r: Option<ResourceId>)
        ensures
            match r {
                Some(id) => self@.entries.len() > 0 && id@ == self@.entries[victim_index(
                    self@.entries,
                    self@.eviction_policy,
                )].id,
                None => self@.entries.len() == 0,
            },
    {
        match self.config.eviction_policy {
            EvictionPolicy::LeastRecentlyUsed => self.select_lru_victim(),
            EvictionPolicy::LeastFrequentlyUsed => self.select_lfu_victim(),
            EvictionPolicy::Priority => self.select_priority_victim(),
        }
    }

    /// The id of the entry that was accessed longest ago; the first of them
    /// on a tie.
    pub fn select_lru_victim(&self) -> (r: Option<ResourceId>)
        ensures
            match r {
                Some(id) => self@.entries.len() > 0 && id@ == self@.entries[victim_index(
                    self@.entries,
                    EvictionPolicy::LeastRecentlyUsed,
                )].id,
                None => self@.entries.len() == 0,
            },
    {
        self.select_by(EvictionPolicy::LeastRecentlyUsed)
    }

    /// The id of the entry that was accessed least often; the first of them
    /// on a tie.
    pub fn select_lfu_victim(&self) -> (r: Option<ResourceId>)
        ensures
            match r {
                Some(id) => self@.entries.len() > 0 && id@ == self@.entries[victim_index(
                    self@.entries,
                    EvictionPolicy::LeastFrequentlyUsed,
                )].id,
                None => self@.entries.len() == 0,
            },
    {
        self.select_by(EvictionPolicy::LeastFrequentlyUsed)
    }

    /// The id of the entry with the lowest stored priority; the first of
    /// them on a tie.
    pub fn select_priority_victim(&self) -> (r: Option<ResourceId>)
        ensures
            match r {
                Some(id) => self@.entries.len() > 0 && id@ == self@.entries[victim_index(
                    self@.entries,
                    EvictionPolicy::Priority,
                )].id,
                None => self@.entries.len() == 0,
            },
    {
        self.select_by(EvictionPolicy::Priority)
    }

    /// The number by which a policy ranks the entry at a position.
    fn key_at(&self, at: usize, policy: EvictionPolicy) -> (r: u128)
        requires
            at < self@.entries.len(),
        ensures
            r == eviction_key(self@.entries[at as int], policy),
    {
        match policy {
            EvictionPolicy::LeastRecentlyUsed => self.entries[at].last_accessed,
            EvictionPolicy::LeastFrequentlyUsed => self.entries[at].access_count as u128,
            EvictionPolicy::Priority => self.entries[at].priority as u128,
        }
    }

    /// The id of the first entry with the lowest key under a policy.
    fn select_by(&self, policy: EvictionPolicy) -> (r: Option<ResourceId>)
        ensures
            match r {
                Some(id) => self@.entries.len() > 0 && id@ == self@.entries[victim_index(
                    self@.entries,
                    policy,
                )].id,
                None => self@.entries.len() == 0,
            },
    {
        let len = self.entries.len();
        if len == 0 {
            return None;
        }
        let mut best: usize = 0;
        let mut best_key = self.key_at(0, policy);
        let mut i: usize = 1;
        while i < len
            invariant
                len == self@.entries.len(),
                1 <= i <= len,
                best < i,
                best == victim_index(self@.entries.subrange(0, i as int), policy),
                best_key == eviction_key(self@.entries[best as int], policy),
            decreases len - i,
        {
            proof {
                lemma_victim_index_step(self@.entries, i as int, policy);
            }
            let key = self.key_at(i, policy);
            if key < best_key {
                best = i;
                best_key = key;
            }
            i += 1;
        }
        assert(self@.entries.subrange(0, len as int) =~= self@.entries);
        Some(self.entries[best].id.clone())
    }

    /// The position of the entry with the given id.
    fn find_index(&self, id: &str) -> (r: Option<usize>)
        ensures
            match r {
                Some(at) => at == index_of(self@.entries, id@) && at < self@.entries.len()
                    && self@.entries[at as int].id == id@,
                None => index_of(self@.entries, id@) == -1,
            },
    {
        let mut found: Option<usize> = None;
        let mut i: usize = 0;
        while i < self.entries.len()
            invariant
                i <= self.entries.len(),
                match found {
                    Some(at) => at == index_of(self@.entries.subrange(0, i as int), id@) && at < i
                        && self@.entries[at as int].id == id@,
                    None => index_of(self@.entries.subrange(0, i as int), id@) == -1,
                },
            decreases self.entries.len() - i,
        {
            proof {
                lemma_index_of_step(self@.entries, i as int, id@);
            }
            if str_eq(self.entries[i].id.as_str(), id) {
                found = Some(i);
            }
            i += 1;
        }
        assert(self@.entries.subrange(0, i as int) =~= self@.entries);
        found
    }

    /// Replaces the stored priority of an entry; nothing changes where the
    /// id is not resident.
    pub fn set_priority(&mut self, resource_id: &ResourceId, priority: u8)
        requires
            old(self).wf(),
        ensures
            final(self).wf(),
            final(self)@ == old(self)@.set_priority(resource_id@, priority),
    {
        let ghost before = self@.entries;
        if let Some(at) = self.find_index(resource_id.as_str()) {
            self.entries[at].priority = priority;
            proof {
                let changed = self@.entries[at as int];
                assert(self@.entries =~= before.update(at as int, changed));
                lemma_total_size_update(before, at as int, changed);
                assert forall|i: int, j: int| 0 <= i < j < self@.entries.len() implies (
                #[trigger] self@.entries[i]).id != (#[trigger] self@.entries[j]).id by {
                    assert(self@.entries[i].id == before[i].id);
                    assert(self@.entries[j].id == before[j].id);
                }
                assert forall|i: int| 0 <= i < self@.entries.len() implies (
                #[trigger] self@.entries[i]).size == self@.entries[i].data.len() by {
                    assert(self@.entries[i].size == before[i].size);
                    assert(self@.entries[i].data == before[i].data);
                }
            }
        }
    }

    /// The summary figures of the cache.
    pub fn get_detailed_stats(&self) -> (r: CacheStats)
        requires
            self.wf(),
        ensures
            r.total_entries == self@.entries.len(),
            r.current_size == self@.current_size,
            r.max_size == self@.max_size,
            r.usage_percentage == percent_of(self@.current_size as int, self@.max_size as int),
            r.hit_rate == self@.hit_rate(),
            r.hit_count == self@.hit_count,
            r.miss_count == self@.miss_count,
    {
        CacheStats {
            total_entries: self.entries.len(),
            current_size: self.current_size,
            max_size: self.config.max_size,
            usage_percentage: self.usage_percentage(),
            hit_rate: self.get_hit_rate(),
            hit_count: self.hit_count,
            miss_count: self.miss_count,
        }
    }

    /// Drops the entries that are cold at the present time: see
    /// [`Self::cleanup_at`].
    pub fn cleanup(&mut self)
        requires
            old(self).wf(),
        ensures
            final(self).wf(),
            exists|now: Timestamp| final(self)@ == #[trigger] old(self)@.cleanup(now),
    {
        let now = self.clock.now();
        self.cleanup_at(now);
    }

    /// Drops the entries that are cold at `now`: idle for more than five
    /// minutes and accessed at most once. The others keep their order.
    pub fn cleanup_at(&mut self, now: Timestamp)
        requires
            old(self).wf(),
        ensures
            final(self).wf(),
            final(self)@ == old(self)@.cleanup(now),
    {
        let ghost before = self@.entries;
        let ghost mut seen: int = 0;
        let mut i: usize = 0;
        while i < self.entries.len()
            invariant
                self.wf(),
                self@.max_size == old(self)@.max_size,
                self@.eviction_policy == old(self)@.eviction_policy,
                self@.hit_count == old(self)@.hit_count,
                self@.miss_count == old(self)@.miss_count,
                before == old(self)@.entries,
                0 <= seen <= before.len(),
                i <= self@.entries.len(),
                self@.entries.len() - i == before.len() - seen,
                self@.entries.subrange(0, i as int) == before.subrange(0, seen).filter(
                    not_cold_at(now),
                ),
                self@.entries.subrange(i as int, self@.entries.len() as int) == before.subrange(
                    seen,
                    before.len() as int,
                ),
            decreases self.entries.len() - i,
        {
            let ghost current = self@.entries;
            proof {
                assert(current[i as int] == current.subrange(i as int, current.len() as int)[0]);
                assert(current[i as int] == before[seen]);
                assert(before.subrange(0, seen + 1) =~= before.subrange(0, seen).push(before[seen]));
                before.subrange(0, seen).lemma_filter_push(before[seen], not_cold_at(now));
            }
            let cold = is_idle(self.entries[i].last_accessed, now) && self.entries[i].access_count
                <= 1;
            assert(cold == is_cold(before[seen], now));
            if cold {
                self.remove_at(i);
                proof {
                    assert(self@.entries.subrange(0, i as int) =~= current.subrange(0, i as int));
                    assert(self@.entries.subrange(i as int, self@.entries.len() as int)
                        =~= current.subrange(i as int, current.len() as int).drop_first());
                    assert(before.subrange(seen + 1, before.len() as int) =~= before.subrange(
                        seen,
                        before.len() as int,
                    ).drop_first());
                }
            } else {
                proof {
                    assert(current.subrange(0, i + 1) =~= current.subrange(0, i as int).push(
                        current[i as int],
                    ));
                    assert(current.subrange(i + 1, current.len() as int) =~= current.subrange(
                        i as int,
                        current.len() as int,
                    ).drop_first());
                    assert(before.subrange(seen + 1, before.len() as int) =~= before.subrange(
                        seen,
                        before.len() as int,
                    ).drop_first());
                }
                i += 1;
            }
            proof {
                seen = seen + 1;
            }
        }
        proof {
            assert(before.subrange(0, seen) =~= before);
            assert(self@.entries.subrange(0, i as int) =~= self@.entries);
        }
    }

    /// The resident size in bytes.
    pub fn get_memory_usage(&self) -> (r: u64)
        ensures
            r == self@.current_size,
    {
        self.current_size
    }
}


/// One offer of a payload: the id, the bytes and the time.
pub struct InsertOp {
    pub id: Seq<char>,
    pub data: Seq<u8>,
    pub now: Timestamp,
}

/// The cache after a sequence of offers, made in order.
pub open spec fn after_inserts(cache: CacheView, ops: Seq<InsertOp>) -> CacheView
    decreases ops.len(),
{
    if ops.len() == 0 {
        cache
    } else {
        let op = ops.last();
        after_inserts(cache, ops.drop_last()).insert(op.id, op.data, op.now)
    }
}

/// An insert keeps the invariant of the cache; in particular the resident
/// size stays within the capacity.
pub proof fn lemma_insert_keeps_invariant(
    cache: CacheView,
    id: Seq<char>,
    data: Seq<u8>,
    now: Timestamp,
)
    requires
        cache.wf(),
    ensures
        cache.insert(id, data, now).wf(),
        cache.insert(id, data, now).current_size <= cache.max_size,
        cache.insert(id, data, now).max_size == cache.max_size,
{
    if data.len() <= cache.max_size {
        let kept = after_eviction(
            cache.entries,
            cache.eviction_policy,
            cache.max_size as int,
            data.len() as int,
        );
        lemma_after_eviction(
            cache.entries,
            cache.eviction_policy,
            cache.max_size as int,
            data.len() as int,
        );
        let entry = EntryView {
            id,
            data,
            access_count: 1,
            last_accessed: now,
            size: data.len() as u64,
            priority: DEFAULT_ENTRY_PRIORITY,
        };
        let at = index_of(kept, id);
        lemma_index_of(kept, id);
        lemma_total_size_nonnegative(kept);
        let after = cache.insert(id, data, now);
        if at >= 0 {
            lemma_total_size_update(kept, at, entry);
            lemma_total_size_bounds(kept, at);
            assert(after.entries == kept.update(at, entry));
            assert forall|i: int, j: int| 0 <= i < j < after.entries.len() implies (
            #[trigger] after.entries[i]).id != (#[trigger] after.entries[j]).id by {
                assert(after.entries[i].id == kept[i].id);
                assert(after.entries[j].id == kept[j].id);
            }
        } else {
            lemma_total_size_push(kept, entry);
            assert(after.entries == kept.push(entry));
            assert forall|i: int, j: int| 0 <= i < j < after.entries.len() implies (
            #[trigger] after.entries[i]).id != (#[trigger] after.entries[j]).id by {
                assert(after.entries[i] == kept[i]);
                if j < kept.len() {
                    assert(after.entries[j] == kept[j]);
                }
            }
        }
    }
}

/// Whatever is offered to a cache, in whatever order, its resident size
/// never exceeds its capacity.
pub proof fn lemma_capacity_holds_after_inserts(cache: CacheView, ops: Seq<InsertOp>)
    requires
        cache.wf(),
    ensures
        after_inserts(cache, ops).wf(),
        after_inserts(cache, ops).max_size == cache.max_size,
        after_inserts(cache, ops).current_size <= cache.max_size,
    decreases ops.len(),
{
    if ops.len() > 0 {
        let op = ops.last();
        lemma_capacity_holds_after_inserts(cache, ops.drop_last());
        lemma_insert_keeps_invariant(after_inserts(cache, ops.drop_last()), op.id, op.data, op.now);
    }
}

/// Offers without lookups leave the hit rate as it was.
pub proof fn lemma_inserts_keep_hit_rate(cache: CacheView, ops: Seq<InsertOp>)
    ensures
        after_inserts(cache, ops).hit_count == cache.hit_count,
        after_inserts(cache, ops).miss_count == cache.miss_count,
        after_inserts(cache, ops).hit_rate() == cache.hit_rate(),
    decreases ops.len(),
{
    if ops.len() > 0 {
        lemma_inserts_keep_hit_rate(cache, ops.drop_last());
    }
}

/// The hit rate is the share of hits among all lookups, and a lookup moves
/// exactly one of the two counters.
pub proof fn lemma_lookup_counts(cache: CacheView, id: Seq<char>, now: Timestamp)
    ensures
        cache.hit_rate() == percent_of(cache.hit_count as int, cache.hit_count + cache.miss_count),
        cache.contains(id) ==> cache.get(id, now).hit_count == bumped_u64(cache.hit_count)
            && cache.get(id, now).miss_count == cache.miss_count,
        !cache.contains(id) ==> cache.get(id, now).miss_count == bumped_u64(cache.miss_count)
            && cache.get(id, now).hit_count == cache.hit_count,
{
}

/// A payload that fits in the capacity is resident right after its insert,
/// with the bytes that were offered.
pub proof fn lemma_insert_makes_resident(
    cache: CacheView,
    id: Seq<char>,
    data: Seq<u8>,
    now: Timestamp,
)
    requires
        cache.wf(),
        data.len() <= cache.max_size,
    ensures
        cache.insert(id, data, now).contains(id),
        cache.insert(id, data, now).payload(id) == data,
{
    lemma_insert_keeps_invariant(cache, id, data, now);
    let kept = after_eviction(
        cache.entries,
        cache.eviction_policy,
        cache.max_size as int,
        data.len() as int,
    );
    let after = cache.insert(id, data, now);
    let at = index_of(kept, id);
    lemma_index_of(kept, id);
    let place = if at >= 0 { at } else { kept.len() as int };
    assert(after.entries[place].id == id);
    assert(after.entries[place].data == data);
    lemma_index_of_unique(after.entries, place);
}

/// A payload larger than the capacity leaves the cache as it was.
pub proof fn lemma_oversized_insert_changes_nothing(
    cache: CacheView,
    id: Seq<char>,
    data: Seq<u8>,
    now: Timestamp,
)
    requires
        data.len() > cache.max_size,
    ensures
        cache.insert(id, data, now) == cache,
{
}

/// Every entry that is left after eviction was there before it, as it is.
pub proof fn lemma_kept_entries_were_there(
    entries: Seq<EntryView>,
    policy: EvictionPolicy,
    max_size: int,
    required: int,
    kept_at: int,
)
    requires
        0 <= kept_at < after_eviction(entries, policy, max_size, required).len(),
    ensures
        exists|at: int|
            0 <= at < entries.len() && #[trigger] entries[at] == after_eviction(
                entries,
                policy,
                max_size,
                required,
            )[kept_at],
    decreases entries.len(),
{
    let kept = after_eviction(entries, policy, max_size, required);
    if entries.len() == 0 || total_size(entries) + required <= max_size {
        assert(entries[kept_at] == kept[kept_at]);
    } else {
        lemma_victim_is_first_minimum(entries, policy);
        let victim = victim_index(entries, policy);
        let shorter = entries.remove(victim);
        lemma_kept_entries_were_there(shorter, policy, max_size, required, kept_at);
        let at = choose|at: int| 0 <= at < shorter.len() && #[trigger] shorter[at] == kept[kept_at];
        let before = if at < victim {
            at
        } else {
            at + 1
        };
        assert(entries[before] == kept[kept_at]);
    }
}

/// Eviction drops the entries that the policy ranks lowest: an entry that
/// was dropped ranks no higher than any entry that is left.
pub proof fn lemma_eviction_drops_lowest_keys(
    entries: Seq<EntryView>,
    policy: EvictionPolicy,
    max_size: int,
    required: int,
    dropped: int,
    kept_at: int,
)
    requires
        distinct_ids(entries),
        0 <= dropped < entries.len(),
        0 <= kept_at < after_eviction(entries, policy, max_size, required).len(),
        index_of(after_eviction(entries, policy, max_size, required), entries[dropped].id) == -1,
    ensures
        eviction_key(entries[dropped], policy) <= eviction_key(
            after_eviction(entries, policy, max_size, required)[kept_at],
            policy,
        ),
    decreases entries.len(),
{
    let kept = after_eviction(entries, policy, max_size, required);
    if entries.len() == 0 || total_size(entries) + required <= max_size {
        lemma_index_of_unique(entries, dropped);
    } else {
        lemma_victim_is_first_minimum(entries, policy);
        let victim = victim_index(entries, policy);
        let shorter = entries.remove(victim);
        if dropped == victim {
            lemma_kept_entries_were_there(entries, policy, max_size, required, kept_at);
            let at = choose|at: int|
                0 <= at < entries.len() && #[trigger] entries[at] == kept[kept_at];
            assert(eviction_key(entries[victim], policy) <= eviction_key(entries[at], policy));
        } else {
            let moved = if dropped < victim {
                dropped
            } else {
                dropped - 1
            };
            assert(shorter[moved] == entries[dropped]);
            assert forall|i: int, j: int| 0 <= i < j < shorter.len() implies (
            #[trigger] shorter[i]).id != (#[trigger] shorter[j]).id by {
                let i0 = if i < victim { i } else { i + 1 };
                let j0 = if j < victim { j } else { j + 1 };
                assert(shorter[i] == entries[i0]);
                assert(shorter[j] == entries[j0]);
            }
            lemma_eviction_drops_lowest_keys(shorter, policy, max_size, required, moved, kept_at);
        }
    }
}

/// Taking an id out of a cache keeps the invariant, leaves the id absent,
/// and brings back nothing that was absent.
pub proof fn lemma_remove_makes_absent(cache: CacheView, id: Seq<char>, other: Seq<char>)
    requires
        cache.wf(),
    ensures
        cache.remove(id).wf(),
        !cache.remove(id).contains(id),
        !cache.contains(other) ==> !cache.remove(id).contains(other),
{
    let at = index_of(cache.entries, id);
    lemma_index_of(cache.entries, id);
    lemma_index_of(cache.entries, other);
    if at >= 0 {
        let shorter = cache.entries.remove(at);
        lemma_remove_keeps_shape(cache.entries, at);
        lemma_total_size_remove(cache.entries, at);
        lemma_total_size_bounds(cache.entries, at);
        lemma_total_size_nonnegative(shorter);
        lemma_index_of(shorter, id);
        lemma_index_of(shorter, other);
        let found = index_of(shorter, id);
        if found >= 0 {
            let before = if found < at {
                found
            } else {
                found + 1
            };
            assert(shorter[found] == cache.entries[before]);
            if before < at {
                assert(cache.entries[before].id != cache.entries[at].id);
            } else {
                assert(cache.entries[at].id != cache.entries[before].id);
            }
        }
        let found_other = index_of(shorter, other);
        if found_other >= 0 {
            let before = if found_other < at {
                found_other
            } else {
                found_other + 1
            };
            assert(shorter[found_other] == cache.entries[before]);
        }
    }
}

} // verus!
