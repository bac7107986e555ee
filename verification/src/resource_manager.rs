//! The streaming manager: the registry of tracked resources, the queue of
//! load requests, the cache and the statistics, behind one interface.
//!
//! The manager is a state machine. Callers request resources and report
//! camera movement; a worker polls the manager for the next request, reads
//! the file, and reports the outcome. Every step is specified as a function
//! from one [`ManagerView`] to the next.

use vstd::prelude::*;
use vstd::std_specs::hash::DefaultHasherAdditionalSpecFns;
use vstd::string::StringExecFns;
use vstd::utf8::encode_utf8;
use std::collections::hash_map::DefaultHasher;
use std::hash::Hasher;
use crate::asset_loader::{
    error_text, AssetData, AssetLoader, LoadError, LoadPriority, LoadRequest, LoadRequestView,
    LoaderView,
};
use crate::counters::percent_of;
use crate::clock::{seconds_between, whole_seconds_between, Clock, Timestamp, IDLE_WINDOW_SECONDS};
use crate::level_of_detail::{LodConfig, LodLevel, LodManager, ResourceType};
use crate::priority_system::{
    streaming_priority_of, PriorityCalculator, PriorityConfig, StreamingPriority,
};
use crate::streaming_cache::{CacheConfig, CacheView, EvictionPolicy, StreamingCache};
use crate::text::str_eq;
use crate::{ResourceHandle, ResourceId, StreamingConfig};

verus! {

/// The distance, in millimetres, at which every resource is taken to be
/// until resources carry a position of their own.
pub const ASSUMED_DISTANCE: u32 = 100_000;

/// Where a resource stands in its life.
#[derive(Debug, Clone, PartialEq, Eq)]
pub enum ResourceState {
    /// Not loaded.
    NotLoaded,
    /// A load was requested and has not finished.
    Loading,
    /// Loaded at the given tier.
    Loaded(LodLevel),
    /// The load failed; the text says why.
    Failed(String),
}

/// What a resource state holds.
pub enum StateView {
    NotLoaded,
    Loading,
    Loaded(LodLevel),
    Failed(Seq<char>),
}

impl View for ResourceState {
    type V = StateView;

    open spec fn view(&self) -> StateView {
        match self {
            ResourceState::NotLoaded => StateView::NotLoaded,
            ResourceState::Loading => StateView::Loading,
            ResourceState::Loaded(lod_level) => StateView::Loaded(*lod_level),
            ResourceState::Failed(reason) => StateView::Failed(reason@),
        }
    }
}

impl ResourceState {
    /// A copy of the state.
    pub fn duplicate(&self) -> (r: ResourceState)
        ensures
            r@ == self@,
    {
        match self {
            ResourceState::NotLoaded => ResourceState::NotLoaded,
            ResourceState::Loading => ResourceState::Loading,
            ResourceState::Loaded(lod_level) => ResourceState::Loaded(*lod_level),
            ResourceState::Failed(reason) => ResourceState::Failed(reason.clone()),
        }
    }
}

/// The bookkeeping of one tracked resource.
#[derive(Debug, Clone)]
pub struct ResourceInfo {
    pub id: ResourceId,
    pub handle: ResourceHandle,
    pub path: String,
    pub state: ResourceState,
    pub priority: StreamingPriority,
    pub last_accessed: Timestamp,
    pub memory_usage: u64,
}

/// What the bookkeeping of a resource holds.
pub struct ResourceInfoView {
    pub id: Seq<char>,
    pub handle: ResourceHandle,
    pub path: Seq<char>,
    pub state: StateView,
    pub priority: StreamingPriority,
    pub last_accessed: Timestamp,
    pub memory_usage: u64,
}

impl View for ResourceInfo {
    type V = ResourceInfoView;

    open spec fn view(&self) -> ResourceInfoView {
        ResourceInfoView {
            id: self.id@,
            handle: self.handle,
            path: self.path@,
            state: self.state@,
            priority: self.priority,
            last_accessed: self.last_accessed,
            memory_usage: self.memory_usage,
        }
    }
}

/// Aggregate figures of the manager.
#[derive(Debug, Clone, Copy)]
pub struct StreamingStats {
    pub total_resources: usize,
    pub loaded_resources: usize,
    pub loading_resources: usize,
    pub failed_resources: usize,
    /// Hits over lookups of the cache, in whole percent.
    pub cache_hit_rate: u64,
    pub memory_used: u64,
    pub memory_limit: u64,
}

impl Default for StreamingStats {
    fn default() -> (r: StreamingStats)
        ensures
            r == StreamingStats::zero(),
    {
        StreamingStats {
            total_resources: 0,
            loaded_resources: 0,
            loading_resources: 0,
            failed_resources: 0,
            cache_hit_rate: 0,
            memory_used: 0,
            memory_limit: 0,
        }
    }
}

/// A count after a signed change: not below zero and not above the largest
/// `usize`.
pub open spec fn shifted(count: usize, delta: int) -> usize {
    if count + delta < 0 {
        0
    } else if count + delta > usize::MAX {
        usize::MAX
    } else {
        (count + delta) as usize
    }
}

/// A number of bytes after a signed change: not below zero and not above
/// the largest `u64`.
pub open spec fn shifted_bytes(bytes: u64, delta: int) -> u64 {
    if bytes + delta < 0 {
        0
    } else if bytes + delta > u64::MAX {
        u64::MAX
    } else {
        (bytes + delta) as u64
    }
}

impl StreamingStats {
    /// The memory in use as a share of the limit, in whole percent rounded
    /// down and not above the largest `u64`; zero for a limit of zero.
    pub open spec fn memory_share(self) -> int {
        let share = percent_of(self.memory_used as int, self.memory_limit as int);
        if share > u64::MAX {
            u64::MAX as int
        } else {
            share
        }
    }

    /// The memory in use as a share of the limit, in whole percent.
    pub fn memory_percentage(&self) -> (r: u64)
        ensures
            r == self.memory_share(),
    {
        if self.memory_limit == 0 {
            0
        } else {
            let share: u128 = (self.memory_used as u128) * 100 / (self.memory_limit as u128);
            if share > u64::MAX as u128 {
                u64::MAX
            } else {
                share as u64
            }
        }
    }

    /// The figures with everything at zero.
    pub open spec fn zero() -> StreamingStats {
        StreamingStats {
            total_resources: 0,
            loaded_resources: 0,
            loading_resources: 0,
            failed_resources: 0,
            cache_hit_rate: 0,
            memory_used: 0,
            memory_limit: 0,
        }
    }

    /// The figures after signed changes to the three state counts and to the
    /// memory in use.
    pub open spec fn adjusted(
        self,
        loaded_delta: int,
        loading_delta: int,
        failed_delta: int,
        memory_delta: int,
    ) -> StreamingStats {
        StreamingStats {
            loaded_resources: shifted(self.loaded_resources, loaded_delta),
            loading_resources: shifted(self.loading_resources, loading_delta),
            failed_resources: shifted(self.failed_resources, failed_delta),
            memory_used: shifted_bytes(self.memory_used, memory_delta),
            ..self
        }
    }
}

/// The handle of a path: the value that std's default hasher gives for the
/// path's bytes followed by the byte `0xff`.
pub open spec fn handle_of(path: Seq<char>) -> ResourceHandle {
    DefaultHasher::spec_finish(seq![encode_utf8(path), seq![0xffu8]])
}

/// The position of the resource with the given id, or `-1` where there is
/// none. Where several have the id, the last of them counts.
pub open spec fn resource_index(resources: Seq<ResourceInfoView>, id: Seq<char>) -> int
    decreases resources.len(),
{
    if resources.len() == 0 {
        -1
    } else if resources.last().id == id {
        resources.len() - 1
    } else {
        resource_index(resources.drop_last(), id)
    }
}

/// The position of the resource with the given handle, or `-1` where there
/// is none. Where several have the handle, the last of them counts.
pub open spec fn handle_index(resources: Seq<ResourceInfoView>, handle: ResourceHandle) -> int
    decreases resources.len(),
{
    if resources.len() == 0 {
        -1
    } else if resources.last().handle == handle {
        resources.len() - 1
    } else {
        handle_index(resources.drop_last(), handle)
    }
}

/// No two resources have the same id.
pub open spec fn distinct_resources(resources: Seq<ResourceInfoView>) -> bool {
    forall|i: int, j: int|
        0 <= i < j < resources.len() ==> (#[trigger] resources[i]).id != (
        #[trigger] resources[j]).id
}

/// The resources with the state of one of them replaced and its last access
/// set to `now`; unchanged where the id is not tracked.
pub open spec fn with_state(
    resources: Seq<ResourceInfoView>,
    id: Seq<char>,
    state: StateView,
    now: Timestamp,
) -> Seq<ResourceInfoView> {
    let at = resource_index(resources, id);
    if at >= 0 {
        resources.update(at, ResourceInfoView { state, last_accessed: now, ..resources[at] })
    } else {
        resources
    }
}

/// A resource that was not accessed for more than five whole minutes.
pub open spec fn is_unused(resource: ResourceInfoView, now: Timestamp) -> bool {
    whole_seconds_between(resource.last_accessed, now) > IDLE_WINDOW_SECONDS
}

/// The predicate that holds of the resources that are still in use at `now`.
pub open spec fn in_use_at(now: Timestamp) -> spec_fn(ResourceInfoView) -> bool {
    |resource: ResourceInfoView| !is_unused(resource, now)
}

/// The predicate that holds of the resources that are loaded.
pub open spec fn is_loaded() -> spec_fn(ResourceInfoView) -> bool {
    |resource: ResourceInfoView| resource.state is Loaded
}

/// The predicate that holds of the resources that are being loaded.
pub open spec fn is_loading() -> spec_fn(ResourceInfoView) -> bool {
    |resource: ResourceInfoView| resource.state is Loading
}

/// The predicate that holds of the resources whose load failed.
pub open spec fn is_failed() -> spec_fn(ResourceInfoView) -> bool {
    |resource: ResourceInfoView| resource.state is Failed
}

/// The sum of the memory that the resources account for.
pub open spec fn total_memory(resources: Seq<ResourceInfoView>) -> int
    decreases resources.len(),
{
    if resources.len() == 0 {
        0
    } else {
        total_memory(resources.drop_last()) + resources.last().memory_usage
    }
}

/// The cache without the entries of the resources that are unused at `now`.
pub open spec fn cache_without_unused(
    cache: CacheView,
    resources: Seq<ResourceInfoView>,
    now: Timestamp,
) -> CacheView
    decreases resources.len(),
{
    if resources.len() == 0 {
        cache
    } else {
        let rest = cache_without_unused(cache, resources.drop_last(), now);
        if is_unused(resources.last(), now) {
            rest.remove(resources.last().id)
        } else {
            rest
        }
    }
}

/// The resources after a camera update at `now`: each has the priority that
/// the scorer gives its path at the assumed distance, and `now` as its last
/// access.
pub open spec fn rescored(
    resources: Seq<ResourceInfoView>,
    priorities: PriorityConfig,
    now: Timestamp,
) -> Seq<ResourceInfoView> {
    Seq::new(
        resources.len(),
        |i: int|
            ResourceInfoView {
                priority: priorities.priority_for(ASSUMED_DISTANCE as int, resources[i].path),
                last_accessed: now,
                ..resources[i]
            },
    )
}

/// The text of the failure of a request that could not be handed to the worker.
pub open spec fn send_failure_text() -> Seq<char> {
    "Error enviando solicitud: sending on a disconnected channel"@
}

/// The text of the failure of a load: the words `Error cargando `, the path,
/// a colon and a blank, and the reason.
pub open spec fn load_failure_text(path: Seq<char>, reason: Seq<char>) -> Seq<char> {
    "Error cargando "@ + path + ": "@ + reason
}

/// What a worker has to do next.
#[derive(Debug)]
pub enum WorkerAction {
    /// Stop: shutdown was requested.
    Stop,
    /// Nothing is queued: wait a moment, then do maintenance.
    Wait,
    /// The request was served from the cache; poll again.
    Served(LoadRequest),
    /// Read the file of this request and report the outcome.
    Load(LoadRequest),
}

/// How a reported load ended.
#[derive(Debug, Clone, Copy, PartialEq, Eq, Structural)]
pub enum LoadCompletion {
    /// The payload is resident in the cache and the resource is loaded.
    Cached,
    /// The payload is larger than the whole cache: the resource counts as
    /// loaded, and nothing of it is resident.
    TooLargeToCache,
    /// The load failed and the resource is marked so.
    Failed,
}

/// Why the manager refused an operation.
#[derive(Debug, Clone, Copy, PartialEq, Eq, Structural)]
pub enum StreamingError {
    /// The worker was started before.
    WorkerAlreadyStarted,
}

/// The state of a manager.
pub struct ManagerView {
    pub resources: Seq<ResourceInfoView>,
    pub queue: Seq<LoadRequestView>,
    pub cache: CacheView,
    pub stats: StreamingStats,
    pub loader: LoaderView,
    pub lod: LodConfig,
    pub priorities: PriorityConfig,
    pub memory_limit: u64,
    /// The distance, in millimetres, up to which resources load at low
    /// quality; it is kept as it was set and decides nothing yet.
    pub low_quality_distance: u32,
    /// Whether loading ahead of need was asked for; it is kept as it was
    /// set and decides nothing yet.
    pub enable_predictive_loading: bool,
    pub worker_running: bool,
    pub shutdown_requested: bool,
}

impl ManagerView {
    /// The invariant of a manager: one resource per id, each with the handle
    /// of its id and its id as its path, and a cache that keeps its own
    /// invariant.
    pub open spec fn wf(self) -> bool {
        &&& distinct_resources(self.resources)
        &&& forall|i: int|
            0 <= i < self.resources.len() ==> (#[trigger] self.resources[i]).handle == handle_of(
                self.resources[i].id,
            ) && self.resources[i].path == self.resources[i].id
        &&& self.cache.wf()
    }

    /// The manager at its start: nothing tracked, nothing queued, an empty
    /// cache of the given size that evicts the least recently used entry,
    /// mesh thresholds as given and texture thresholds at 60% of them, the
    /// standard weights of scoring, the two settings that decide nothing yet
    /// as given, and a worker taken as running.
    pub open spec fn initial(
        max_cache_size: u64,
        worker_threads: usize,
        asset_base_path: Seq<char>,
        high_quality_distance: u32,
        medium_quality_distance: u32,
        low_quality_distance: u32,
        enable_predictive_loading: bool,
    ) -> ManagerView {
        ManagerView {
            resources: Seq::empty(),
            queue: Seq::empty(),
            cache: CacheView::empty(max_cache_size, EvictionPolicy::LeastRecentlyUsed),
            stats: StreamingStats::zero(),
            loader: LoaderView {
                base_path: asset_base_path,
                max_concurrent: worker_threads,
                current_loads: 0,
            },
            lod: LodConfig {
                texture_high_distance: (high_quality_distance * 3 / 5) as u32,
                texture_medium_distance: (medium_quality_distance * 3 / 5) as u32,
                mesh_high_distance: high_quality_distance,
                mesh_medium_distance: medium_quality_distance,
                enable_dynamic_lod: true,
            },
            priorities: PriorityConfig::standard(),
            memory_limit: max_cache_size,
            low_quality_distance,
            enable_predictive_loading,
            worker_running: true,
            shutdown_requested: false,
        }
    }

    /// Whether a resource with the id is tracked.
    pub open spec fn tracks(self, id: Seq<char>) -> bool {
        resource_index(self.resources, id) >= 0
    }

    /// The bookkeeping of the resource with the id; meaningful where it is tracked.
    pub open spec fn resource(self, id: Seq<char>) -> ResourceInfoView {
        self.resources[resource_index(self.resources, id)]
    }

    /// The tier at which new requests ask for their resource.
    pub open spec fn requested_lod(self) -> LodLevel {
        self.lod.level_for(ASSUMED_DISTANCE as int, ResourceType::Other)
    }

    /// The handle that a request for `path` returns: that of the tracked
    /// resource, or the handle of the path.
    pub open spec fn request_handle(self, path: Seq<char>) -> ResourceHandle {
        if self.tracks(path) {
            self.resource(path).handle
        } else {
            handle_of(path)
        }
    }

    /// The manager after a request at time `now`. A tracked resource has
    /// its last access refreshed and its priority raised to the higher of
    /// the old and the requested one; nothing is queued. An untracked one is
    /// registered as loading and a load request is queued behind the others,
    /// or, where no worker runs, registered as failed.
    pub open spec fn request(self, path: Seq<char>, priority: LoadPriority, now: Timestamp) -> ManagerView {
        let at = resource_index(self.resources, path);
        let wanted = streaming_priority_of(priority);
        if at >= 0 {
            let known = self.resources[at];
            ManagerView {
                resources: self.resources.update(
                    at,
                    ResourceInfoView {
                        last_accessed: now,
                        priority: known.priority.higher_of(wanted),
                        ..known
                    },
                ),
                ..self
            }
        } else {
            let fresh = ResourceInfoView {
                id: path,
                handle: handle_of(path),
                path,
                state: if self.worker_running {
                    StateView::Loading
                } else {
                    StateView::Failed(send_failure_text())
                },
                priority: wanted,
                last_accessed: now,
                memory_usage: 0,
            };
            let request = LoadRequestView {
                resource_id: path,
                path,
                priority,
                lod_level: self.requested_lod(),
            };
            ManagerView {
                resources: self.resources.push(fresh),
                queue: if self.worker_running {
                    self.queue.push(request)
                } else {
                    self.queue
                },
                ..self
            }
        }
    }

    /// The figures as the registry and the cache give them.
    pub open spec fn instance_stats(self) -> StreamingStats {
        StreamingStats {
            total_resources: self.resources.len() as usize,
            loaded_resources: self.resources.filter(is_loaded()).len() as usize,
            loading_resources: self.resources.filter(is_loading()).len() as usize,
            failed_resources: self.resources.filter(is_failed()).len() as usize,
            cache_hit_rate: self.cache.hit_rate() as u64,
            memory_used: if total_memory(self.resources) > u64::MAX {
                u64::MAX
            } else {
                total_memory(self.resources) as u64
            },
            memory_limit: self.memory_limit,
        }
    }

    /// The manager with its figures taken afresh from registry and cache.
    pub open spec fn with_instance_stats(self) -> ManagerView {
        ManagerView { stats: self.instance_stats(), ..self }
    }

    /// The manager without the resources that are unused at `now`, in the
    /// registry and in the cache.
    pub open spec fn cleanup_unused(self, now: Timestamp) -> ManagerView {
        ManagerView {
            resources: self.resources.filter(in_use_at(now)),
            cache: cache_without_unused(self.cache, self.resources, now),
            ..self
        }
    }

    /// The manager after a camera update at `now`: priorities are scored
    /// anew, the figures are taken afresh, and unused resources are dropped.
    pub open spec fn update(self, now: Timestamp) -> ManagerView {
        ManagerView { resources: rescored(self.resources, self.priorities, now), ..self }
            .with_instance_stats().cleanup_unused(now)
    }

    /// The manager after the worker took up a request at `now`. A resource
    /// whose payload is resident is loaded at the requested tier, and counts
    /// as one more loaded resource; any other is loading.
    pub open spec fn process_load_request(self, request: LoadRequestView, now: Timestamp) -> ManagerView {
        if self.cache.contains(request.path) {
            ManagerView {
                resources: with_state(
                    self.resources,
                    request.path,
                    StateView::Loaded(request.lod_level),
                    now,
                ),
                stats: self.stats.adjusted(1, 0, 0, 0),
                ..self
            }
        } else {
            ManagerView {
                resources: with_state(self.resources, request.path, StateView::Loading, now),
                ..self
            }
        }
    }

    /// The manager after a load ended at `now`. Bytes are offered to the
    /// cache, the resource is loaded at the requested tier, and the figures
    /// count one more loaded and one less loading resource. A failure marks
    /// the resource failed with [`load_failure_text`], and the figures count
    /// one more failed and one less loading resource.
    pub open spec fn complete_load(
        self,
        request: LoadRequestView,
        outcome: Result<Seq<u8>, Seq<char>>,
        now: Timestamp,
    ) -> ManagerView {
        match outcome {
            Ok(bytes) => ManagerView {
                cache: self.cache.insert(request.path, bytes, now),
                resources: with_state(
                    self.resources,
                    request.path,
                    StateView::Loaded(request.lod_level),
                    now,
                ),
                stats: self.stats.adjusted(1, -1, 0, 0),
                ..self
            },
            Err(reason) => ManagerView {
                resources: with_state(
                    self.resources,
                    request.path,
                    StateView::Failed(load_failure_text(request.path, reason)),
                    now,
                ),
                stats: self.stats.adjusted(0, -1, 1, 0),
                ..self
            },
        }
    }

    /// The manager after maintenance at `now`: cold cache entries are
    /// dropped and the figures show the cache's resident size.
    pub open spec fn perform_maintenance(self, now: Timestamp) -> ManagerView {
        let cache = self.cache.cleanup(now);
        ManagerView {
            cache,
            stats: StreamingStats { memory_used: cache.current_size, ..self.stats },
            ..self
        }
    }
}

/// What [`resource_index`] finds: a resource with the id, where there is
/// one, and `-1` exactly where there is none.
pub proof fn lemma_resource_index(resources: Seq<ResourceInfoView>, id: Seq<char>)
    ensures
        -1 <= resource_index(resources, id) < resources.len(),
        resource_index(resources, id) >= 0 ==> resources[resource_index(resources, id)].id == id,
        resource_index(resources, id) == -1 ==> forall|i: int|
            0 <= i < resources.len() ==> (#[trigger] resources[i]).id != id,
    decreases resources.len(),
{
    if resources.len() > 0 && resources.last().id != id {
        lemma_resource_index(resources.drop_last(), id);
        assert forall|i: int|
            0 <= i < resources.len() && resource_index(resources, id) == -1 implies (
        #[trigger] resources[i]).id != id by {
            if i < resources.len() - 1 {
                assert(resources.drop_last()[i].id != id);
            }
        }
    }
}

/// Among distinct ids, a resource is found where it stands.
pub proof fn lemma_resource_index_unique(resources: Seq<ResourceInfoView>, i: int)
    requires
        distinct_resources(resources),
        0 <= i < resources.len(),
    ensures
        resource_index(resources, resources[i].id) == i,
{
    lemma_resource_index(resources, resources[i].id);
    let found = resource_index(resources, resources[i].id);
    if found == -1 {
        assert(resources[i].id != resources[i].id);
    } else if found < i {
        assert(resources[found].id != resources[i].id);
    } else if found > i {
        assert(resources[i].id != resources[found].id);
    }
}

/// What [`handle_index`] finds: a resource with the handle, where there is
/// one, and `-1` exactly where there is none.
pub proof fn lemma_handle_index(resources: Seq<ResourceInfoView>, handle: ResourceHandle)
    ensures
        -1 <= handle_index(resources, handle) < resources.len(),
        handle_index(resources, handle) >= 0 ==> resources[handle_index(resources, handle)].handle
            == handle,
        handle_index(resources, handle) == -1 ==> forall|i: int|
            0 <= i < resources.len() ==> (#[trigger] resources[i]).handle != handle,
    decreases resources.len(),
{
    if resources.len() > 0 && resources.last().handle != handle {
        lemma_handle_index(resources.drop_last(), handle);
        assert forall|i: int|
            0 <= i < resources.len() && handle_index(resources, handle) == -1 implies (
        #[trigger] resources[i]).handle != handle by {
            if i < resources.len() - 1 {
                assert(resources.drop_last()[i].handle != handle);
            }
        }
    }
}

/// A request keeps the invariant of the manager.
pub proof fn lemma_request_keeps_invariant(
    manager: ManagerView,
    path: Seq<char>,
    priority: LoadPriority,
    now: Timestamp,
)
    requires
        manager.wf(),
    ensures
        manager.request(path, priority, now).wf(),
{
    let after = manager.request(path, priority, now);
    let at = resource_index(manager.resources, path);
    lemma_resource_index(manager.resources, path);
    if at >= 0 {
        assert forall|i: int, j: int| 0 <= i < j < after.resources.len() implies (
        #[trigger] after.resources[i]).id != (#[trigger] after.resources[j]).id by {
            assert(after.resources[i].id == manager.resources[i].id);
            assert(after.resources[j].id == manager.resources[j].id);
        }
        assert forall|i: int| 0 <= i < after.resources.len() implies (
        #[trigger] after.resources[i]).handle == handle_of(after.resources[i].id)
            && after.resources[i].path == after.resources[i].id by {
            assert(after.resources[i].id == manager.resources[i].id);
            assert(after.resources[i].handle == manager.resources[i].handle);
            assert(after.resources[i].path == manager.resources[i].path);
        }
    } else {
        assert forall|i: int, j: int| 0 <= i < j < after.resources.len() implies (
        #[trigger] after.resources[i]).id != (#[trigger] after.resources[j]).id by {
            assert(after.resources[i] == manager.resources[i]);
            if j < manager.resources.len() {
                assert(after.resources[j] == manager.resources[j]);
            }
        }
        assert forall|i: int| 0 <= i < after.resources.len() implies (
        #[trigger] after.resources[i]).handle == handle_of(after.resources[i].id)
            && after.resources[i].path == after.resources[i].id by {
            if i < manager.resources.len() {
                assert(after.resources[i] == manager.resources[i]);
            }
        }
    }
}

/// Two requests for one path return the same handle, whatever their
/// priorities and times: the handle that a request returns is the handle
/// that the next request for the path returns.
pub proof fn lemma_request_twice_same_handle(
    manager: ManagerView,
    path: Seq<char>,
    first: LoadPriority,
    first_time: Timestamp,
)
    requires
        manager.wf(),
    ensures
        manager.request(path, first, first_time).request_handle(path) == manager.request_handle(
            path,
        ),
{
    let after = manager.request(path, first, first_time);
    lemma_request_keeps_invariant(manager, path, first, first_time);
    let at = resource_index(manager.resources, path);
    lemma_resource_index(manager.resources, path);
    let place = if at >= 0 { at } else { manager.resources.len() as int };
    assert(after.resources[place].id == path);
    lemma_resource_index_unique(after.resources, place);
}

/// A second request for a path, made before or after the load ended, leaves
/// one resource for the path, with the higher of the two priorities at
/// least, and queues nothing more than the first request did.
pub proof fn lemma_repeated_request_queues_once(
    manager: ManagerView,
    path: Seq<char>,
    first: LoadPriority,
    second: LoadPriority,
    first_time: Timestamp,
    second_time: Timestamp,
)
    requires
        manager.wf(),
    ensures
        ({
            let once = manager.request(path, first, first_time);
            let twice = once.request(path, second, second_time);
            &&& once.tracks(path)
            &&& twice.tracks(path)
            &&& twice.queue == once.queue
            &&& twice.resources.len() == once.resources.len()
            &&& twice.resource(path).priority == once.resource(path).priority.higher_of(
                streaming_priority_of(second),
            )
            &&& twice.resource(path).state == once.resource(path).state
            &&& !manager.tracks(path) ==> once.resources.len() == manager.resources.len() + 1
            &&& !manager.tracks(path) && manager.worker_running ==> once.queue.len()
                == manager.queue.len() + 1
            &&& manager.tracks(path) ==> once.queue == manager.queue && once.resources.len()
                == manager.resources.len()
        }),
{
    let once = manager.request(path, first, first_time);
    lemma_request_keeps_invariant(manager, path, first, first_time);
    let at = resource_index(manager.resources, path);
    lemma_resource_index(manager.resources, path);
    let place = if at >= 0 { at } else { manager.resources.len() as int };
    assert(once.resources[place].id == path);
    lemma_resource_index_unique(once.resources, place);
    let twice = once.request(path, second, second_time);
    lemma_request_keeps_invariant(once, path, second, second_time);
    assert(twice.resources[place].id == path);
    lemma_resource_index_unique(twice.resources, place);
}


/// Extending a prefix by one resource moves [`resource_index`] to the new
/// resource exactly when it has the id.
proof fn lemma_resource_index_step(resources: Seq<ResourceInfoView>, n: int, id: Seq<char>)
    requires
        0 <= n < resources.len(),
    ensures
        resource_index(resources.subrange(0, n + 1), id) == if resources[n].id == id {
            n
        } else {
            resource_index(resources.subrange(0, n), id)
        },
{
    let prefix = resources.subrange(0, n + 1);
    assert(prefix.last() == resources[n]);
    assert(prefix.drop_last() =~= resources.subrange(0, n));
}

/// Extending a prefix by one resource moves [`handle_index`] to the new
/// resource exactly when it has the handle.
proof fn lemma_handle_index_step(resources: Seq<ResourceInfoView>, n: int, handle: ResourceHandle)
    requires
        0 <= n < resources.len(),
    ensures
        handle_index(resources.subrange(0, n + 1), handle) == if resources[n].handle == handle {
            n
        } else {
            handle_index(resources.subrange(0, n), handle)
        },
{
    let prefix = resources.subrange(0, n + 1);
    assert(prefix.last() == resources[n]);
    assert(prefix.drop_last() =~= resources.subrange(0, n));
}

/// Taking a resource out keeps the ids distinct and each resource with the
/// handle of its id and its id as its path.
proof fn lemma_remove_keeps_registry(resources: Seq<ResourceInfoView>, i: int)
    requires
        0 <= i < resources.len(),
        distinct_resources(resources),
        forall|k: int|
            0 <= k < resources.len() ==> (#[trigger] resources[k]).handle == handle_of(
                resources[k].id,
            ) && resources[k].path == resources[k].id,
    ensures
        distinct_resources(resources.remove(i)),
        forall|k: int|
            0 <= k < resources.remove(i).len() ==> (#[trigger] resources.remove(i)[k]).handle
                == handle_of(resources.remove(i)[k].id) && resources.remove(i)[k].path
                == resources.remove(i)[k].id,
{
    let shorter = resources.remove(i);
    assert forall|a: int, b: int| 0 <= a < b < shorter.len() implies (#[trigger] shorter[a]).id != (
    #[trigger] shorter[b]).id by {
        let a0 = if a < i { a } else { a + 1 };
        let b0 = if b < i { b } else { b + 1 };
        assert(shorter[a] == resources[a0]);
        assert(shorter[b] == resources[b0]);
    }
    assert forall|k: int| 0 <= k < shorter.len() implies (#[trigger] shorter[k]).handle
        == handle_of(shorter[k].id) && shorter[k].path == shorter[k].id by {
        let k0 = if k < i { k } else { k + 1 };
        assert(shorter[k] == resources[k0]);
    }
}

/// Replacing the state and the last access of a resource keeps the
/// invariant of the registry.
proof fn lemma_with_state_keeps_registry(
    resources: Seq<ResourceInfoView>,
    id: Seq<char>,
    state: StateView,
    now: Timestamp,
)
    requires
        distinct_resources(resources),
        forall|k: int|
            0 <= k < resources.len() ==> (#[trigger] resources[k]).handle == handle_of(
                resources[k].id,
            ) && resources[k].path == resources[k].id,
    ensures
        distinct_resources(with_state(resources, id, state, now)),
        with_state(resources, id, state, now).len() == resources.len(),
        forall|k: int|
            0 <= k < resources.len() ==> (#[trigger] with_state(
                resources,
                id,
                state,
                now,
            )[k]).handle == handle_of(with_state(resources, id, state, now)[k].id) && with_state(
                resources,
                id,
                state,
                now,
            )[k].path == with_state(resources, id, state, now)[k].id,
{
    let after = with_state(resources, id, state, now);
    lemma_resource_index(resources, id);
    assert forall|a: int, b: int| 0 <= a < b < after.len() implies (#[trigger] after[a]).id != (
    #[trigger] after[b]).id by {
        assert(after[a].id == resources[a].id);
        assert(after[b].id == resources[b].id);
    }
    assert forall|k: int| 0 <= k < resources.len() implies (#[trigger] after[k]).handle
        == handle_of(after[k].id) && after[k].path == after[k].id by {
        assert(after[k].id == resources[k].id);
        assert(after[k].handle == resources[k].handle);
        assert(after[k].path == resources[k].path);
    }
}

/// A count after a signed change.
fn shift_count(count: usize, delta: i32) -> (r: usize)
    ensures
        r == shifted(count, delta as int),
{
    let moved: i128 = (count as i128) + (delta as i128);
    if moved < 0 {
        0
    } else if moved > (usize::MAX as i128) {
        usize::MAX
    } else {
        moved as usize
    }
}

/// A number of bytes after a signed change.
fn shift_bytes(bytes: u64, delta: i64) -> (r: u64)
    ensures
        r == shifted_bytes(bytes, delta as int),
{
    let moved: i128 = (bytes as i128) + (delta as i128);
    if moved < 0 {
        0
    } else if moved > (u64::MAX as i128) {
        u64::MAX
    } else {
        moved as u64
    }
}

/// The manager of resource streaming.
#[derive(Debug)]
pub struct ResourceStreamingManager {
    config: StreamingConfig,
    cache: StreamingCache,
    asset_loader: AssetLoader,
    lod_manager: LodManager,
    priority_calculator: PriorityCalculator,
    resources: Vec<ResourceInfo>,
    load_queue: Vec<LoadRequest>,
    worker_running: bool,
    worker_shutdown: bool,
    stats: StreamingStats,
    clock: Clock,
}

/// The views of a sequence of resources, in order.
pub closed spec fn infos_of(resources: Seq<ResourceInfo>) -> Seq<ResourceInfoView> {
    Seq::new(resources.len(), |i: int| resources[i]@)
}

/// The views of a sequence of requests, in order.
pub closed spec fn requests_of(queue: Seq<LoadRequest>) -> Seq<LoadRequestView> {
    Seq::new(queue.len(), |i: int| queue[i]@)
}

impl View for ResourceStreamingManager {
    type V = ManagerView;

    closed spec fn view(&self) -> ManagerView {
        ManagerView {
            resources: infos_of(self.resources@),
            queue: requests_of(self.load_queue@),
            cache: self.cache@,
            stats: self.stats,
            loader: self.asset_loader@,
            lod: self.lod_manager@,
            priorities: self.priority_calculator@,
            memory_limit: self.config.max_cache_size,
            low_quality_distance: self.config.low_quality_distance,
            enable_predictive_loading: self.config.enable_predictive_loading,
            worker_running: self.worker_running,
            shutdown_requested: self.worker_shutdown,
        }
    }
}

impl ResourceStreamingManager {
    /// The invariant that every operation keeps: see [`ManagerView::wf`].
    pub open spec fn wf(&self) -> bool {
        self@.wf()
    }

    /// A manager with nothing tracked, nothing queued, an empty cache that
    /// evicts the least recently used entry, and a worker taken as running.
    pub fn new(config: StreamingConfig) -> (r: ResourceStreamingManager)
        ensures
            r.wf(),
            r@ == ManagerView::initial(
                config.max_cache_size,
                config.worker_threads,
                config.asset_base_path@,
                config.high_quality_distance,
                config.medium_quality_distance,
                config.low_quality_distance,
                config.enable_predictive_loading,
            ),
    {
        let cache_config = CacheConfig {
            max_size: config.max_cache_size,
            eviction_policy: EvictionPolicy::LeastRecentlyUsed,
        };
        let cache = StreamingCache::new(cache_config);
        let asset_loader = AssetLoader::new(config.worker_threads, config.asset_base_path.as_str());
        let lod_manager = LodManager::new(
            config.high_quality_distance,
            config.medium_quality_distance,
            config.low_quality_distance,
        );
        let priority_calculator = PriorityCalculator::new();
        let mut manager = ResourceStreamingManager {
            config,
            cache,
            asset_loader,
            lod_manager,
            priority_calculator,
            resources: Vec::new(),
            load_queue: Vec::new(),
            worker_running: false,
            worker_shutdown: false,
            stats: StreamingStats::default(),
            clock: Clock::new(),
        };
        assert(manager@.resources =~= Seq::empty());
        assert(manager@.queue =~= Seq::empty());
        let _ = manager.start_background_worker();
        manager
    }

    /// Marks the worker as started. A worker can be started once.
    pub fn start_background_worker(&mut self) -> (r: Result<(), StreamingError>)
        ensures
            r is Ok <==> !old(self)@.worker_running,
            r is Err ==> r == Err::<(), StreamingError>(StreamingError::WorkerAlreadyStarted),
            final(self)@ == (ManagerView { worker_running: true, ..old(self)@ }),
    {
        if self.worker_running {
            Err(StreamingError::WorkerAlreadyStarted)
        } else {
            self.worker_running = true;
            Ok(())
        }
    }

    /// The handle of a resource id.
    pub fn generate_handle(&self, resource_id: &str) -> (r: ResourceHandle)
        ensures
            r == handle_of(resource_id@),
    {
        let mut hasher = DefaultHasher::new();
        hasher.write(resource_id.as_bytes());
        let ghost written = hasher@;
        assert(written =~= seq![encode_utf8(resource_id@)]);
        let end: [u8; 1] = [0xff];
        let tail = end.as_slice();
        assert(tail@ =~= seq![0xffu8]);
        hasher.write(tail);
        assert(hasher@ =~= seq![encode_utf8(resource_id@), seq![0xffu8]]);
        hasher.finish()
    }

    /// The position of the resource with the given id.
    fn find_resource(&self, id: &str) -> (r: Option<usize>)
        ensures
            match r {
                Some(at) => at == resource_index(self@.resources, id@) && at < self@.resources.len()
                    && self@.resources[at as int].id == id@,
                None => resource_index(self@.resources, id@) == -1,
            },
    {
        let mut found: Option<usize> = None;
        let mut i: usize = 0;
        while i < self.resources.len()
            invariant
                i <= self.resources.len(),
                match found {
                    Some(at) => at == resource_index(self@.resources.subrange(0, i as int), id@)
                        && at < i && self@.resources[at as int].id == id@,
                    None => resource_index(self@.resources.subrange(0, i as int), id@) == -1,
                },
            decreases self.resources.len() - i,
        {
            proof {
                lemma_resource_index_step(self@.resources, i as int, id@);
            }
            if str_eq(self.resources[i].id.as_str(), id) {
                found = Some(i);
            }
            i += 1;
        }
        assert(self@.resources.subrange(0, i as int) =~= self@.resources);
        found
    }

    /// Requests a resource at the present time: see
    /// [`Self::request_resource_at`].
    pub fn request_resource(&mut self, path: &str, priority: LoadPriority) -> (r: ResourceHandle)
        requires
            old(self).wf(),
        ensures
            final(self).wf(),
            exists|now: Timestamp| final(self)@ == #[trigger] old(self)@.request(path@, priority, now),
            r == old(self)@.request_handle(path@),
    {
        let now = self.clock.now();
        self.request_resource_at(path, priority, now)
    }

    /// Requests a resource at time `now` and returns its handle, without
    /// waiting for the load. A path that is tracked already is not loaded
    /// again: see [`ManagerView::request`].
    pub fn request_resource_at(&mut self, path: &str, priority: LoadPriority, now: Timestamp) -> (r:
        ResourceHandle)
        requires
            old(self).wf(),
        ensures
            final(self).wf(),
            final(self)@ == old(self)@.request(path@, priority, now),
            r == old(self)@.request_handle(path@),
    {
        proof {
            lemma_request_keeps_invariant(self@, path@, priority, now);
        }
        let ghost before = self@;
        let handle = self.generate_handle(path);
        if let Some(at) = self.find_resource(path) {
            self.resources[at].last_accessed = now;
            let raised = self.resources[at].priority.max_with(StreamingPriority::from(priority));
            self.resources[at].priority = raised;
            assert(self@.resources =~= before.request(path@, priority, now).resources);
            return self.resources[at].handle;
        }
        let lod_level = self.lod_manager.calculate_lod_level(
            ASSUMED_DISTANCE,
            &ResourceType::Other,
        );
        let state = if self.worker_running {
            ResourceState::Loading
        } else {
            ResourceState::Failed(
                String::from_str("Error enviando solicitud: sending on a disconnected channel"),
            )
        };
        let resource_info = ResourceInfo {
            id: String::from_str(path),
            handle,
            path: String::from_str(path),
            state,
            priority: StreamingPriority::from(priority),
            last_accessed: now,
            memory_usage: 0,
        };
        self.resources.push(resource_info);
        if self.worker_running {
            let load_request = LoadRequest {
                resource_id: String::from_str(path),
                path: String::from_str(path),
                priority,
                lod_level,
            };
            self.load_queue.push(load_request);
        }
        assert(self@.resources =~= before.request(path@, priority, now).resources);
        assert(self@.queue =~= before.request(path@, priority, now).queue);
        handle
    }

    /// The state of the resource with the given handle; nothing where no
    /// tracked resource has it. Where several have it, the one that was
    /// registered last.
    pub fn get_resource_state(&self, handle: ResourceHandle) -> (r: Option<ResourceState>)
        ensures
            match r {
                Some(state) => handle_index(self@.resources, handle) >= 0 && state@
                    == self@.resources[handle_index(self@.resources, handle)].state,
                None => handle_index(self@.resources, handle) == -1,
            },
    {
        let mut found: Option<usize> = None;
        let mut i: usize = 0;
        while i < self.resources.len()
            invariant
                i <= self.resources.len(),
                match found {
                    Some(at) => at == handle_index(self@.resources.subrange(0, i as int), handle)
                        && at < i,
                    None => handle_index(self@.resources.subrange(0, i as int), handle) == -1,
                },
            decreases self.resources.len() - i,
        {
            proof {
                lemma_handle_index_step(self@.resources, i as int, handle);
            }
            if self.resources[i].handle == handle {
                found = Some(i);
            }
            i += 1;
        }
        assert(self@.resources.subrange(0, i as int) =~= self@.resources);
        match found {
            Some(at) => Some(self.resources[at].state.duplicate()),
            None => None,
        }
    }

    /// The state of the resource with the given path; nothing where the
    /// path is not tracked.
    pub fn resource_state(&self, path: &str) -> (r: Option<ResourceState>)
        ensures
            match r {
                Some(state) => self@.tracks(path@) && state@ == self@.resource(path@).state,
                None => !self@.tracks(path@),
            },
    {
        match self.find_resource(path) {
            Some(at) => Some(self.resources[at].state.duplicate()),
            None => None,
        }
    }

    /// The priority of the resource with the given path; nothing where the
    /// path is not tracked.
    pub fn resource_priority(&self, path: &str) -> (r: Option<StreamingPriority>)
        ensures
            match r {
                Some(priority) => self@.tracks(path@) && priority == self@.resource(path@).priority,
                None => !self@.tracks(path@),
            },
    {
        match self.find_resource(path) {
            Some(at) => Some(self.resources[at].priority),
            None => None,
        }
    }

    /// The figures as they were last taken.
    pub fn get_stats(&self) -> (r: StreamingStats)
        ensures
            r == self@.stats,
    {
        self.stats
    }

    /// Replaces the state of a resource and sets its last access to `now`;
    /// nothing changes where the id is not tracked.
    fn update_resource_state(&mut self, resource_id: &str, new_state: ResourceState, now: Timestamp)
        requires
            old(self).wf(),
        ensures
            final(self).wf(),
            final(self)@ == (ManagerView {
                resources: with_state(old(self)@.resources, resource_id@, new_state@, now),
                ..old(self)@
            }),
    {
        let ghost before = self@;
        proof {
            lemma_with_state_keeps_registry(before.resources, resource_id@, new_state@, now);
        }
        if let Some(at) = self.find_resource(resource_id) {
            self.resources[at].state = new_state;
            self.resources[at].last_accessed = now;
            assert(self@.resources =~= with_state(before.resources, resource_id@, new_state@, now));
        }
    }

    /// Applies signed changes to the three state counts and to the memory in use.
    fn update_stats(
        &mut self,
        loaded_delta: i32,
        loading_delta: i32,
        failed_delta: i32,
        memory_delta: i64,
    )
        ensures
            final(self)@ == (ManagerView {
                stats: old(self)@.stats.adjusted(
                    loaded_delta as int,
                    loading_delta as int,
                    failed_delta as int,
                    memory_delta as int,
                ),
                ..old(self)@
            }),
    {
        self.stats.loaded_resources = shift_count(self.stats.loaded_resources, loaded_delta);
        self.stats.loading_resources = shift_count(self.stats.loading_resources, loading_delta);
        self.stats.failed_resources = shift_count(self.stats.failed_resources, failed_delta);
        self.stats.memory_used = shift_bytes(self.stats.memory_used, memory_delta);
    }

    /// Takes up a load request at the present time: see
    /// [`Self::process_load_request_at`].
    pub fn process_load_request(&mut self, request: &LoadRequest) -> (served: bool)
        requires
            old(self).wf(),
        ensures
            final(self).wf(),
            exists|now: Timestamp|
                final(self)@ == #[trigger] old(self)@.process_load_request(request@, now),
            served == old(self)@.cache.contains(request@.path),
    {
        let now = self.clock.now();
        self.process_load_request_at(request, now)
    }

    /// Takes up a load request at time `now`, and says whether it was
    /// served from the cache. If it was not, the caller reads the file and
    /// reports the outcome with [`Self::complete_load_at`].
    pub fn process_load_request_at(&mut self, request: &LoadRequest, now: Timestamp) -> (served:
        bool)
        requires
            old(self).wf(),
        ensures
            final(self).wf(),
            final(self)@ == old(self)@.process_load_request(request@, now),
            served == old(self)@.cache.contains(request@.path),
    {
        if self.cache.contains(&request.path) {
            self.update_resource_state(
                request.path.as_str(),
                ResourceState::Loaded(request.lod_level),
                now,
            );
            self.update_stats(1, 0, 0, 0);
            true
        } else {
            self.update_resource_state(request.path.as_str(), ResourceState::Loading, now);
            false
        }
    }

    /// Reports the outcome of a load at the present time: see
    /// [`Self::complete_load_at`].
    pub fn complete_load(&mut self, request: &LoadRequest, outcome: Result<AssetData, LoadError>) -> (r:
        LoadCompletion)
        requires
            old(self).wf(),
        ensures
            final(self).wf(),
            exists|now: Timestamp|
                final(self)@ == #[trigger] old(self)@.complete_load(
                    request@,
                    outcome_view(outcome),
                    now,
                ),
            r == completion_of(outcome_view(outcome), old(self)@.cache.max_size),
    {
        let now = self.clock.now();
        self.complete_load_at(request, outcome, now)
    }

    /// Reports the outcome of a load at time `now`: see
    /// [`ManagerView::complete_load`]. The result says whether the payload
    /// is resident, was too large for the cache, or the load failed.
    pub fn complete_load_at(
        &mut self,
        request: &LoadRequest,
        outcome: Result<AssetData, LoadError>,
        now: Timestamp,
    ) -> (r: LoadCompletion)
        requires
            old(self).wf(),
        ensures
            final(self).wf(),
            final(self)@ == old(self)@.complete_load(request@, outcome_view(outcome), now),
            r == completion_of(outcome_view(outcome), old(self)@.cache.max_size),
    {
        match outcome {
            Ok(asset_data) => {
                let fits = asset_data.data.len() as u64 <= self.cache.max_size();
                self.cache.insert_at(request.path.clone(), asset_data.data, now);
                self.update_resource_state(
                    request.path.as_str(),
                    ResourceState::Loaded(request.lod_level),
                    now,
                );
                self.update_stats(1, -1, 0, 0);
                if fits {
                    LoadCompletion::Cached
                } else {
                    LoadCompletion::TooLargeToCache
                }
            },
            Err(err) => {
                let mut error_msg = String::from_str("Error cargando ");
                error_msg.append(request.path.as_str());
                error_msg.append(": ");
                let reason = err.message();
                error_msg.append(reason.as_str());
                assert(error_msg@ =~= load_failure_text(request@.path, error_text(err)));
                self.update_resource_state(
                    request.path.as_str(),
                    ResourceState::Failed(error_msg),
                    now,
                );
                self.update_stats(0, -1, 1, 0);
                LoadCompletion::Failed
            },
        }
    }

    /// Does maintenance at the present time: see
    /// [`Self::perform_maintenance_at`].
    pub fn perform_maintenance(&mut self)
        requires
            old(self).wf(),
        ensures
            final(self).wf(),
            exists|now: Timestamp| final(self)@ == #[trigger] old(self)@.perform_maintenance(now),
    {
        let now = self.clock.now();
        self.perform_maintenance_at(now);
    }

    /// Does maintenance at time `now`: drops cold cache entries and takes
    /// the memory in use from the cache.
    pub fn perform_maintenance_at(&mut self, now: Timestamp)
        requires
            old(self).wf(),
        ensures
            final(self).wf(),
            final(self)@ == old(self)@.perform_maintenance(now),
    {
        self.cache.cleanup_at(now);
        self.stats.memory_used = self.cache.get_memory_usage();
    }

    /// Empties the cache and sets its hit and miss counters to zero.
    pub fn clear_cache(&mut self)
        requires
            old(self).wf(),
        ensures
            final(self).wf(),
            final(self)@ == (ManagerView { cache: old(self)@.cache.clear(), ..old(self)@ }),
    {
        self.cache.clear();
    }

    /// Drops cold cache entries at the present time.
    pub fn force_garbage_collection(&mut self)
        requires
            old(self).wf(),
        ensures
            final(self).wf(),
            exists|now: Timestamp|
                final(self)@ == (ManagerView {
                    cache: #[trigger] old(self)@.cache.cleanup(now),
                    ..old(self)@
                }),
    {
        let now = self.clock.now();
        self.force_garbage_collection_at(now);
    }

    /// Drops the cache entries that are cold at `now`; everything else stays.
    pub fn force_garbage_collection_at(&mut self, now: Timestamp)
        requires
            old(self).wf(),
        ensures
            final(self).wf(),
            final(self)@ == (ManagerView { cache: old(self)@.cache.cleanup(now), ..old(self)@ }),
    {
        self.cache.cleanup_at(now);
    }

    /// Asks the worker to stop. From now on [`Self::poll`] answers `Stop`,
    /// and new requests fail for want of a worker.
    pub fn shutdown(&mut self)
        ensures
            final(self)@ == (ManagerView {
                shutdown_requested: true,
                worker_running: false,
                ..old(self)@
            }),
    {
        self.worker_shutdown = true;
        self.worker_running = false;
    }

    /// Whether a worker is taken as running.
    pub fn is_worker_running(&self) -> (r: bool)
        ensures
            r == self@.worker_running,
    {
        self.worker_running
    }

    /// The number of requests that wait for the worker.
    pub fn pending_requests(&self) -> (r: usize)
        ensures
            r == self@.queue.len(),
    {
        self.load_queue.len()
    }

    /// The number of tracked resources.
    pub fn tracked_resources(&self) -> (r: usize)
        ensures
            r == self@.resources.len(),
    {
        self.resources.len()
    }

    /// The loader that turns file contents into assets.
    pub fn asset_loader(&self) -> (r: &AssetLoader)
        ensures
            r@ == self@.loader,
    {
        &self.asset_loader
    }

    /// Takes a permit for one load, if fewer than the maximum are in flight.
    pub fn acquire_load_permit(&mut self) -> (r: bool)
        ensures
            r == (old(self)@.loader.current_loads < old(self)@.loader.max_concurrent),
            final(self)@ == (ManagerView {
                loader: LoaderView {
                    current_loads: if r {
                        (old(self)@.loader.current_loads + 1) as usize
                    } else {
                        old(self)@.loader.current_loads
                    },
                    ..old(self)@.loader
                },
                ..old(self)@
            }),
    {
        self.asset_loader.try_acquire()
    }

    /// Gives a load permit back.
    pub fn release_load_permit(&mut self)
        ensures
            final(self)@ == (ManagerView {
                loader: LoaderView {
                    current_loads: if old(self)@.loader.current_loads > 0 {
                        (old(self)@.loader.current_loads - 1) as usize
                    } else {
                        0
                    },
                    ..old(self)@.loader
                },
                ..old(self)@
            }),
    {
        self.asset_loader.release();
    }

    /// The distance, in millimetres, from the camera to a resource. Resources
    /// carry no position yet: every one is taken to be at [`ASSUMED_DISTANCE`].
    fn calculate_resource_distance(&self, _resource_path: &str, _camera_position: &[i32; 3]) -> (r:
        u32)
        ensures
            r == ASSUMED_DISTANCE,
    {
        ASSUMED_DISTANCE
    }

    /// Takes the figures afresh from the registry and the cache.
    fn update_instance_stats(&mut self)
        ensures
            final(self)@ == old(self)@.with_instance_stats(),
    {
        let mut loaded: usize = 0;
        let mut loading: usize = 0;
        let mut failed: usize = 0;
        let mut memory: u64 = 0;
        let mut i: usize = 0;
        let ghost all = self@.resources;
        assert(all.subrange(0, 0) =~= Seq::empty());
        while i < self.resources.len()
            invariant
                all == self@.resources,
                i <= self.resources.len(),
                loaded == all.subrange(0, i as int).filter(is_loaded()).len(),
                loading == all.subrange(0, i as int).filter(is_loading()).len(),
                failed == all.subrange(0, i as int).filter(is_failed()).len(),
                loaded <= i,
                loading <= i,
                failed <= i,
                0 <= total_memory(all.subrange(0, i as int)),
                memory == if total_memory(all.subrange(0, i as int)) > u64::MAX {
                    u64::MAX as int
                } else {
                    total_memory(all.subrange(0, i as int))
                },
            decreases self.resources.len() - i,
        {
            proof {
                let prefix = all.subrange(0, i as int);
                let next = all.subrange(0, i + 1);
                assert(next =~= prefix.push(all[i as int]));
                assert(next.drop_last() =~= prefix);
                prefix.lemma_filter_push(all[i as int], is_loaded());
                prefix.lemma_filter_push(all[i as int], is_loading());
                prefix.lemma_filter_push(all[i as int], is_failed());
            }
            match &self.resources[i].state {
                ResourceState::Loaded(_) => {
                    loaded = loaded + 1;
                },
                ResourceState::Loading => {
                    loading = loading + 1;
                },
                ResourceState::Failed(_) => {
                    failed = failed + 1;
                },
                ResourceState::NotLoaded => {},
            }
            memory = memory.saturating_add(self.resources[i].memory_usage);
            i += 1;
        }
        assert(all.subrange(0, i as int) =~= all);
        self.stats.total_resources = self.resources.len();
        self.stats.loaded_resources = loaded;
        self.stats.loading_resources = loading;
        self.stats.failed_resources = failed;
        self.stats.memory_used = memory;
        self.stats.memory_limit = self.config.max_cache_size;
        self.stats.cache_hit_rate = self.cache.get_hit_rate();
    }

    /// Reports a camera movement at the present time: see [`Self::update_at`].
    pub fn update(&mut self, camera_position: &[i32; 3], camera_direction: &[i32; 3])
        requires
            old(self).wf(),
        ensures
            final(self).wf(),
            exists|now: Timestamp| final(self)@ == #[trigger] old(self)@.update(now),
    {
        let now = self.clock.now();
        self.update_at(camera_position, camera_direction, now);
    }

    /// Reports a camera movement at time `now`. The position is in
    /// millimetres, the direction in per mille. Every tracked resource is
    /// scored anew and counts as accessed at `now`; then the figures are
    /// taken afresh and unused resources are dropped.
    pub fn update_at(
        &mut self,
        camera_position: &[i32; 3],
        camera_direction: &[i32; 3],
        now: Timestamp,
    )
        requires
            old(self).wf(),
        ensures
            final(self).wf(),
            final(self)@ == old(self)@.update(now),
    {
        let ghost before = self@;
        let mut i: usize = 0;
        while i < self.resources.len()
            invariant
                i <= self.resources.len(),
                self@.resources.len() == before.resources.len(),
                forall|k: int|
                    0 <= k < i ==> #[trigger] self@.resources[k] == rescored(
                        before.resources,
                        before.priorities,
                        now,
                    )[k],
                forall|k: int|
                    i <= k < before.resources.len() ==> #[trigger] self@.resources[k]
                        == before.resources[k],
                self@ == (ManagerView { resources: self@.resources, ..before }),
                before.wf(),
            decreases self.resources.len() - i,
        {
            let distance = self.calculate_resource_distance(
                self.resources[i].path.as_str(),
                camera_position,
            );
            let new_priority = self.priority_calculator.calculate_priority(
                distance,
                camera_direction,
                self.resources[i].path.as_str(),
            );
            let ghost earlier = self@.resources;
            self.resources[i].priority = new_priority;
            self.resources[i].last_accessed = now;
            proof {
                let scored = rescored(before.resources, before.priorities, now);
                assert(earlier[i as int] == before.resources[i as int]);
                assert(self@.resources[i as int] == scored[i as int]);
                assert forall|k: int| 0 <= k < i implies #[trigger] self@.resources[k]
                    == scored[k] by {
                    assert(self@.resources[k] == earlier[k]);
                }
                assert forall|k: int| i < k < before.resources.len() implies #[trigger] self@.resources[k]
                    == before.resources[k] by {
                    assert(self@.resources[k] == earlier[k]);
                }
            }
            i += 1;
        }
        proof {
            let scored = rescored(before.resources, before.priorities, now);
            assert(self@.resources =~= scored);
            assert forall|a: int, b: int| 0 <= a < b < scored.len() implies (
            #[trigger] scored[a]).id != (#[trigger] scored[b]).id by {
                assert(scored[a].id == before.resources[a].id);
                assert(scored[b].id == before.resources[b].id);
            }
            assert forall|k: int| 0 <= k < scored.len() implies (#[trigger] scored[k]).handle
                == handle_of(scored[k].id) && scored[k].path == scored[k].id by {
                assert(scored[k].id == before.resources[k].id);
                assert(scored[k].handle == before.resources[k].handle);
                assert(scored[k].path == before.resources[k].path);
            }
        }
        self.update_instance_stats();
        self.cleanup_unused_resources_at(now);
    }

    /// Drops the resources that are unused at the present time: see
    /// [`Self::cleanup_unused_resources_at`].
    pub fn cleanup_unused_resources(&mut self)
        requires
            old(self).wf(),
        ensures
            final(self).wf(),
            exists|now: Timestamp| final(self)@ == #[trigger] old(self)@.cleanup_unused(now),
    {
        let now = self.clock.now();
        self.cleanup_unused_resources_at(now);
    }

    /// Drops the resources that were not accessed for more than five whole
    /// minutes before `now`, from the registry and from the cache.
    pub fn cleanup_unused_resources_at(&mut self, now: Timestamp)
        requires
            old(self).wf(),
        ensures
            final(self).wf(),
            final(self)@ == old(self)@.cleanup_unused(now),
    {
        let ghost before = self@;
        let ghost mut seen: int = 0;
        let mut i: usize = 0;
        assert(before.resources.subrange(0, 0) =~= Seq::empty());
        assert(self@.resources.subrange(0, 0) =~= Seq::empty());
        assert(self@.resources.subrange(0, self@.resources.len() as int) =~= before.resources.subrange(
            0,
            before.resources.len() as int,
        ));
        while i < self.resources.len()
            invariant
                self.wf(),
                self@ == (ManagerView { resources: self@.resources, cache: self@.cache, ..before }),
                0 <= seen <= before.resources.len(),
                i <= self@.resources.len(),
                self@.resources.len() - i == before.resources.len() - seen,
                self@.resources.subrange(0, i as int) == before.resources.subrange(0, seen).filter(
                    in_use_at(now),
                ),
                self@.resources.subrange(i as int, self@.resources.len() as int)
                    == before.resources.subrange(seen, before.resources.len() as int),
                self@.cache == cache_without_unused(
                    before.cache,
                    before.resources.subrange(0, seen),
                    now,
                ),
            decreases self.resources.len() - i,
        {
            let ghost current = self@.resources;
            proof {
                assert(current[i as int] == current.subrange(i as int, current.len() as int)[0]);
                assert(current[i as int] == before.resources[seen]);
                let next = before.resources.subrange(0, seen + 1);
                assert(next =~= before.resources.subrange(0, seen).push(before.resources[seen]));
                assert(next.drop_last() =~= before.resources.subrange(0, seen));
                before.resources.subrange(0, seen).lemma_filter_push(
                    before.resources[seen],
                    in_use_at(now),
                );
                assert(before.resources.subrange(seen + 1, before.resources.len() as int)
                    =~= before.resources.subrange(seen, before.resources.len() as int).drop_first());
            }
            let unused = seconds_between(self.resources[i].last_accessed, now)
                > IDLE_WINDOW_SECONDS;
            assert(unused == is_unused(before.resources[seen], now));
            if unused {
                proof {
                    lemma_remove_keeps_registry(current, i as int);
                }
                let info = self.resources.remove(i);
                self.cache.remove(&info.id);
                proof {
                    assert(self@.resources =~= current.remove(i as int));
                    assert(self@.resources.subrange(0, i as int) =~= current.subrange(0, i as int));
                    assert(self@.resources.subrange(i as int, self@.resources.len() as int)
                        =~= current.subrange(i as int, current.len() as int).drop_first());
                }
            } else {
                proof {
                    assert(current.subrange(0, i + 1) =~= current.subrange(0, i as int).push(
                        current[i as int],
                    ));
                    assert(current.subrange(i + 1, current.len() as int) =~= current.subrange(
                        i as int,
                        current.len() as int,
                    ).drop_first());
                }
                i += 1;
            }
            proof {
                seen = seen + 1;
            }
        }
        proof {
            assert(before.resources.subrange(0, seen) =~= before.resources);
            assert(self@.resources.subrange(0, i as int) =~= self@.resources);
        }
    }

    /// Asks what the worker has to do at the present time: see
    /// [`Self::poll_at`].
    pub fn poll(&mut self) -> (r: WorkerAction)
        requires
            old(self).wf(),
        ensures
            final(self).wf(),
            exists|now: Timestamp| final(self)@ == #[trigger] old(self)@.poll(now),
            action_matches(r, old(self)@),
    {
        let now = self.clock.now();
        self.poll_at(now)
    }

    /// Asks what the worker has to do at time `now`. After a shutdown it
    /// stops; with nothing queued it waits. Else the oldest request leaves
    /// the queue and is taken up as [`Self::process_load_request_at`] says:
    /// it was either served from the cache, or its file has to be read.
    pub fn poll_at(&mut self, now: Timestamp) -> (r: WorkerAction)
        requires
            old(self).wf(),
        ensures
            final(self).wf(),
            final(self)@ == old(self)@.poll(now),
            action_matches(r, old(self)@),
    {
        if self.worker_shutdown {
            return WorkerAction::Stop;
        }
        if self.load_queue.len() == 0 {
            return WorkerAction::Wait;
        }
        let ghost before = self@;
        let request = self.load_queue.remove(0);
        assert(self@.queue =~= before.queue.drop_first());
        assert(request@ == before.queue[0]);
        if self.process_load_request_at(&request, now) {
            WorkerAction::Served(request)
        } else {
            WorkerAction::Load(request)
        }
    }
}

impl ManagerView {
    /// The manager after the worker polled it at `now`: unchanged after a
    /// shutdown or with nothing queued, else without the oldest request,
    /// which was taken up.
    pub open spec fn poll(self, now: Timestamp) -> ManagerView {
        if self.shutdown_requested || self.queue.len() == 0 {
            self
        } else {
            ManagerView { queue: self.queue.drop_first(), ..self }.process_load_request(
                self.queue[0],
                now,
            )
        }
    }
}

/// The answer that a manager in the given state owes a polling worker.
pub open spec fn action_matches(action: WorkerAction, manager: ManagerView) -> bool {
    match action {
        WorkerAction::Stop => manager.shutdown_requested,
        WorkerAction::Wait => !manager.shutdown_requested && manager.queue.len() == 0,
        WorkerAction::Served(request) => !manager.shutdown_requested && manager.queue.len() > 0
            && request@ == manager.queue[0] && manager.cache.contains(request@.path),
        WorkerAction::Load(request) => !manager.shutdown_requested && manager.queue.len() > 0
            && request@ == manager.queue[0] && !manager.cache.contains(request@.path),
    }
}

/// Sets up resource streaming with the given settings.
pub fn initialize_streaming(config: StreamingConfig) -> (r: ResourceStreamingManager)
    ensures
        r.wf(),
        r@ == ManagerView::initial(
            config.max_cache_size,
            config.worker_threads,
            config.asset_base_path@,
            config.high_quality_distance,
            config.medium_quality_distance,
            config.low_quality_distance,
            config.enable_predictive_loading,
        ),
{
    ResourceStreamingManager::new(config)
}

/// What a reported outcome holds: the bytes of the asset, or the text of the error.
pub open spec fn outcome_view(outcome: Result<AssetData, LoadError>) -> Result<Seq<u8>, Seq<char>> {
    match outcome {
        Ok(asset) => Ok(asset.data@),
        Err(error) => Err(error_text(error)),
    }
}

/// How a load with the given outcome ends at a cache of the given capacity.
pub open spec fn completion_of(outcome: Result<Seq<u8>, Seq<char>>, max_size: u64) -> LoadCompletion {
    match outcome {
        Ok(bytes) => if bytes.len() <= max_size {
            LoadCompletion::Cached
        } else {
            LoadCompletion::TooLargeToCache
        },
        Err(_) => LoadCompletion::Failed,
    }
}

/// Dropping the payloads of unused resources keeps the invariant of the
/// cache, and leaves the payload of every unused resource absent.
pub proof fn lemma_unused_payloads_are_dropped(
    cache: CacheView,
    resources: Seq<ResourceInfoView>,
    now: Timestamp,
    at: int,
)
    requires
        cache.wf(),
        0 <= at < resources.len(),
        is_unused(resources[at], now),
    ensures
        cache_without_unused(cache, resources, now).wf(),
        !cache_without_unused(cache, resources, now).contains(resources[at].id),
    decreases resources.len(),
{
    let earlier = resources.drop_last();
    lemma_cache_without_unused_keeps_invariant(cache, earlier, now);
    let rest = cache_without_unused(cache, earlier, now);
    if at < resources.len() - 1 {
        lemma_unused_payloads_are_dropped(cache, earlier, now, at);
        assert(earlier[at] == resources[at]);
    }
    crate::streaming_cache::lemma_remove_makes_absent(
        rest,
        resources.last().id,
        resources[at].id,
    );
}

/// Dropping the payloads of unused resources keeps the invariant of the cache.
pub proof fn lemma_cache_without_unused_keeps_invariant(
    cache: CacheView,
    resources: Seq<ResourceInfoView>,
    now: Timestamp,
)
    requires
        cache.wf(),
    ensures
        cache_without_unused(cache, resources, now).wf(),
    decreases resources.len(),
{
    if resources.len() > 0 {
        lemma_cache_without_unused_keeps_invariant(cache, resources.drop_last(), now);
        crate::streaming_cache::lemma_remove_makes_absent(
            cache_without_unused(cache, resources.drop_last(), now),
            resources.last().id,
            resources.last().id,
        );
    }
}

/// Idle cleanup drops a resource from both places: a resource that is
/// unused at the time of the cleanup is no longer tracked after it, and its
/// payload is no longer resident.
pub proof fn lemma_cleanup_drops_unused(manager: ManagerView, now: Timestamp, at: int)
    requires
        manager.wf(),
        0 <= at < manager.resources.len(),
        is_unused(manager.resources[at], now),
    ensures
        !manager.cleanup_unused(now).tracks(manager.resources[at].id),
        !manager.cleanup_unused(now).cache.contains(manager.resources[at].id),
{
    let id = manager.resources[at].id;
    let left = manager.resources.filter(in_use_at(now));
    lemma_unused_payloads_are_dropped(manager.cache, manager.resources, now, at);
    lemma_resource_index(left, id);
    let found = resource_index(left, id);
    if found >= 0 {
        manager.resources.lemma_filter_pred(in_use_at(now), found);
        assert(left.contains(left[found]));
        manager.resources.lemma_filter_contains_rev(in_use_at(now), left[found]);
        let before = choose|before: int|
            0 <= before < manager.resources.len() && manager.resources[before] == left[found];
        lemma_resource_index_unique(manager.resources, before);
        lemma_resource_index_unique(manager.resources, at);
    }
}

/// Idle cleanup leaves every resource that is still in use tracked as it was.
pub proof fn lemma_cleanup_keeps_used(manager: ManagerView, now: Timestamp, at: int)
    requires
        0 <= at < manager.resources.len(),
        !is_unused(manager.resources[at], now),
    ensures
        manager.cleanup_unused(now).resources.contains(manager.resources[at]),
        manager.cleanup_unused(now).tracks(manager.resources[at].id),
{
    let left = manager.resources.filter(in_use_at(now));
    manager.resources.lemma_filter_contains(in_use_at(now), at);
    let found = choose|found: int| 0 <= found < left.len() && left[found] == manager.resources[at];
    lemma_resource_index(left, manager.resources[at].id);
}

/// Replacing the state of a tracked resource leaves it tracked, with the
/// new state and everything else of it as it was.
pub proof fn lemma_with_state_sets_state(
    resources: Seq<ResourceInfoView>,
    id: Seq<char>,
    state: StateView,
    now: Timestamp,
)
    requires
        resource_index(resources, id) >= 0,
    ensures
        resource_index(with_state(resources, id, state, now), id) == resource_index(resources, id),
        with_state(resources, id, state, now)[resource_index(resources, id)].state == state,
        with_state(resources, id, state, now)[resource_index(resources, id)].priority
            == resources[resource_index(resources, id)].priority,
        with_state(resources, id, state, now)[resource_index(resources, id)].handle
            == resources[resource_index(resources, id)].handle,
{
    lemma_resource_index(resources, id);
    lemma_same_ids_same_index(resources, with_state(resources, id, state, now), id);
}

/// Two registries with the same ids in the same places find every id in
/// the same place.
pub proof fn lemma_same_ids_same_index(
    first: Seq<ResourceInfoView>,
    second: Seq<ResourceInfoView>,
    id: Seq<char>,
)
    requires
        first.len() == second.len(),
        forall|i: int| 0 <= i < first.len() ==> (#[trigger] first[i]).id == second[i].id,
    ensures
        resource_index(first, id) == resource_index(second, id),
    decreases first.len(),
{
    if first.len() > 0 {
        assert(first.last().id == second.last().id) by {
            assert(first[first.len() - 1].id == second[first.len() - 1].id);
        }
        if first.last().id != id {
            assert forall|i: int| 0 <= i < first.drop_last().len() implies (
            #[trigger] first.drop_last()[i]).id == second.drop_last()[i].id by {
                assert(first[i].id == second[i].id);
            }
            lemma_same_ids_same_index(first.drop_last(), second.drop_last(), id);
        }
    }
}

/// The life of a resource: a first request, with a worker running, leaves
/// it loading; when the worker takes the request up it is loading still, or
/// loaded from the cache; and when the load ends it is loaded at the tier
/// that was asked for, or failed with the reason of the failure.
pub proof fn lemma_resource_life_cycle(
    manager: ManagerView,
    path: Seq<char>,
    priority: LoadPriority,
    outcome: Result<Seq<u8>, Seq<char>>,
    requested_at: Timestamp,
    taken_up_at: Timestamp,
    ended_at: Timestamp,
)
    requires
        manager.wf(),
        !manager.tracks(path),
        manager.worker_running,
    ensures
        ({
            let request = LoadRequestView {
                resource_id: path,
                path,
                priority,
                lod_level: manager.requested_lod(),
            };
            let requested = manager.request(path, priority, requested_at);
            let taken_up = requested.process_load_request(request, taken_up_at);
            let ended = taken_up.complete_load(request, outcome, ended_at);
            &&& requested.tracks(path)
            &&& requested.resource(path).state == StateView::Loading
            &&& requested.queue == manager.queue.push(request)
            &&& taken_up.tracks(path)
            &&& taken_up.resource(path).state == if manager.cache.contains(path) {
                StateView::Loaded(manager.requested_lod())
            } else {
                StateView::Loading
            }
            &&& ended.tracks(path)
            &&& ended.resource(path).state == match outcome {
                Ok(_) => StateView::Loaded(manager.requested_lod()),
                Err(reason) => StateView::Failed(load_failure_text(path, reason)),
            }
            &&& ended.resource(path).handle == handle_of(path)
        }),
{
    let request = LoadRequestView {
        resource_id: path,
        path,
        priority,
        lod_level: manager.requested_lod(),
    };
    let requested = manager.request(path, priority, requested_at);
    lemma_request_keeps_invariant(manager, path, priority, requested_at);
    lemma_resource_index(manager.resources, path);
    let place = manager.resources.len() as int;
    assert(requested.resources[place].id == path);
    lemma_resource_index_unique(requested.resources, place);
    let taken_up_state = if manager.cache.contains(path) {
        StateView::Loaded(manager.requested_lod())
    } else {
        StateView::Loading
    };
    lemma_with_state_sets_state(requested.resources, path, taken_up_state, taken_up_at);
    let taken_up = requested.process_load_request(request, taken_up_at);
    let ended_state = match outcome {
        Ok(_) => StateView::Loaded(manager.requested_lod()),
        Err(reason) => StateView::Failed(load_failure_text(path, reason)),
    };
    lemma_with_state_sets_state(taken_up.resources, path, ended_state, ended_at);
}

/// Where every resource is in use, cleanup leaves registry and cache as they are.
pub proof fn lemma_cleanup_without_unused_changes_nothing(
    cache: CacheView,
    resources: Seq<ResourceInfoView>,
    now: Timestamp,
)
    requires
        forall|i: int| 0 <= i < resources.len() ==> !is_unused(#[trigger] resources[i], now),
    ensures
        resources.filter(in_use_at(now)) == resources,
        cache_without_unused(cache, resources, now) == cache,
    decreases resources.len(),
{
    reveal(Seq::filter);
    if resources.len() > 0 {
        let earlier = resources.drop_last();
        assert forall|i: int| 0 <= i < earlier.len() implies !is_unused(
            #[trigger] earlier[i],
            now,
        ) by {
            assert(earlier[i] == resources[i]);
        }
        lemma_cleanup_without_unused_changes_nothing(cache, earlier, now);
        assert(!is_unused(resources[resources.len() - 1], now));
        assert(earlier.push(resources.last()) =~= resources);
    } else {
        assert(resources.filter(in_use_at(now)) =~= resources);
    }
}

/// A camera update counts as an access to every tracked resource, so the
/// cleanup at its end drops nothing: all resources stay tracked, in order,
/// and the cache stays as it is.
pub proof fn lemma_update_drops_nothing(manager: ManagerView, now: Timestamp)
    ensures
        manager.update(now).resources == rescored(manager.resources, manager.priorities, now),
        manager.update(now).resources.len() == manager.resources.len(),
        manager.update(now).cache == manager.cache,
        manager.update(now).queue == manager.queue,
        manager.update(now).stats.total_resources == manager.resources.len() as usize,
{
    let scored = rescored(manager.resources, manager.priorities, now);
    assert forall|i: int| 0 <= i < scored.len() implies !is_unused(#[trigger] scored[i], now) by {
        assert(scored[i].last_accessed == now);
    }
    lemma_cleanup_without_unused_changes_nothing(manager.cache, scored, now);
}

} // verus!
