//! The engine's side of resource streaming: streaming is switched on at the
//! user's request, and every call is passed on to the manager once there is
//! one.

use vstd::prelude::*;
use vstd::string::StringExecFns;
use crate::asset_loader::LoadPriority;
use crate::clock::Timestamp;
use crate::resource_manager::{
    handle_index, initialize_streaming, ManagerView, ResourceState, ResourceStreamingManager,
    StreamingStats,
};
use crate::{ResourceHandle, StreamingConfig};

verus! {

/// The size of the cache that the engine asks for: two gibibytes.
pub const ENGINE_CACHE_SIZE: u64 = 2_147_483_648;

/// How far the initialization of streaming has come.
#[derive(Debug, Clone, PartialEq, Eq)]
pub enum StreamingInitState {
    NotInitialized,
    Initializing,
    Initialized,
    Failed(String),
}

/// What an initialization state holds.
pub enum InitStateView {
    NotInitialized,
    Initializing,
    Initialized,
    Failed(Seq<char>),
}

impl View for StreamingInitState {
    type V = InitStateView;

    open spec fn view(&self) -> InitStateView {
        match self {
            StreamingInitState::NotInitialized => InitStateView::NotInitialized,
            StreamingInitState::Initializing => InitStateView::Initializing,
            StreamingInitState::Initialized => InitStateView::Initialized,
            StreamingInitState::Failed(reason) => InitStateView::Failed(reason@),
        }
    }
}

impl StreamingInitState {
    /// A copy of the state.
    pub fn duplicate(&self) -> (r: StreamingInitState)
        ensures
            r@ == self@,
    {
        match self {
            StreamingInitState::NotInitialized => StreamingInitState::NotInitialized,
            StreamingInitState::Initializing => StreamingInitState::Initializing,
            StreamingInitState::Initialized => StreamingInitState::Initialized,
            StreamingInitState::Failed(reason) => StreamingInitState::Failed(reason.clone()),
        }
    }
}

/// Calls `num_cpus::get`, the number of logical cores that the process may
/// use. Nothing is claimed of the number: it depends on the machine.
#[verifier::external_body]
fn available_cpus() -> usize {
    num_cpus::get()
}

/// The number of loads in flight for a machine with the given number of
/// cores: half of them, but at least two and at most eight.
pub open spec fn worker_threads_for_cpus(cpus: usize) -> usize {
    if cpus / 2 < 2 {
        2
    } else if cpus / 2 > 8 {
        8
    } else {
        cpus / 2
    }
}

/// The number of loads in flight for a machine with the given number of cores.
pub fn worker_threads_for(cpus: usize) -> (r: usize)
    ensures
        r == worker_threads_for_cpus(cpus),
        2 <= r <= 8,
{
    let half = cpus / 2;
    if half < 2 {
        2
    } else if half > 8 {
        8
    } else {
        half
    }
}

/// The text of a failed initialization: the words `Error initializing
/// streaming: ` and the reason.
pub open spec fn init_failure_text(reason: Seq<char>) -> Seq<char> {
    "Error initializing streaming: "@ + reason
}

/// The state of the integration.
pub struct IntegrationView {
    pub manager: Option<ManagerView>,
    pub enabled: bool,
    pub init_state: InitStateView,
    pub init_requested: bool,
}

impl IntegrationView {
    /// The invariant of the integration: a manager, where there is one,
    /// keeps its own invariant, and streaming is enabled only with a manager.
    pub open spec fn wf(self) -> bool {
        &&& self.manager matches Some(manager) ==> manager.wf()
        &&& self.enabled ==> self.manager is Some
    }

    /// The integration before anything was asked of it.
    pub open spec fn fresh() -> IntegrationView {
        IntegrationView {
            manager: None,
            enabled: false,
            init_state: InitStateView::NotInitialized,
            init_requested: false,
        }
    }

    /// Whether streaming is switched on.
    pub open spec fn is_enabled(self) -> bool {
        self.enabled && self.manager is Some
    }

    /// The integration after the user asked for streaming: a request is
    /// pending if nothing was initialized or asked before.
    pub open spec fn request_initialization(self) -> IntegrationView {
        if self.init_state is NotInitialized {
            IntegrationView {
                init_requested: true,
                init_state: InitStateView::Initializing,
                ..self
            }
        } else {
            self
        }
    }

    /// Whether a request for initialization waits to be processed.
    pub open spec fn initialization_pending(self) -> bool {
        self.init_requested && self.init_state is Initializing
    }
}

/// A manager as the engine sets it up: at its start, with a cache of
/// [`ENGINE_CACHE_SIZE`], the directory `assets`, thresholds of fifty, a
/// hundred and fifty and five hundred metres, loading ahead of need asked
/// for, and between two and eight loads in flight.
pub open spec fn is_engine_manager(manager: ManagerView) -> bool {
    &&& manager.wf()
    &&& exists|worker_threads: usize|
        2 <= worker_threads <= 8 && manager == #[trigger] ManagerView::initial(
            ENGINE_CACHE_SIZE,
            worker_threads,
            "assets"@,
            50_000,
            150_000,
            500_000,
            true,
        )
}

/// Resource streaming as the engine uses it.
#[derive(Debug)]
pub struct StreamingIntegration {
    manager: Option<ResourceStreamingManager>,
    enabled: bool,
    init_state: StreamingInitState,
    init_requested: bool,
}

impl View for StreamingIntegration {
    type V = IntegrationView;

    closed spec fn view(&self) -> IntegrationView {
        IntegrationView {
            manager: match self.manager {
                Some(manager) => Some(manager@),
                None => None,
            },
            enabled: self.enabled,
            init_state: self.init_state@,
            init_requested: self.init_requested,
        }
    }
}

impl StreamingIntegration {
    /// The invariant that every operation keeps: see [`IntegrationView::wf`].
    pub open spec fn wf(&self) -> bool {
        self@.wf()
    }

    /// An integration without a manager.
    pub fn new() -> (r: StreamingIntegration)
        ensures
            r@ == IntegrationView::fresh(),
            r.wf(),
    {
        StreamingIntegration {
            manager: None,
            enabled: false,
            init_state: StreamingInitState::NotInitialized,
            init_requested: false,
        }
    }

    /// Switches streaming on. `prepared` says whether the asset directory
    /// could be made ready; if it could not, nothing changes and the reason
    /// comes back. Where streaming is on already, nothing changes.
    pub fn initialize(&mut self, prepared: Result<(), String>) -> (r: Result<(), String>)
        requires
            old(self).wf(),
        ensures
            final(self).wf(),
            final(self)@.init_state == old(self)@.init_state,
            final(self)@.init_requested == old(self)@.init_requested,
            old(self)@.enabled ==> r is Ok && final(self)@ == old(self)@,
            !old(self)@.enabled ==> match prepared {
                Ok(_) => {
                    &&& r is Ok
                    &&& final(self)@.enabled
                    &&& final(self)@.manager matches Some(manager) && is_engine_manager(manager)
                },
                Err(reason) => r matches Err(text) && text@ == reason@ && final(self)@ == old(
                    self,
                )@,
            },
    {
        self.initialize_internal(prepared)
    }

    /// Switches streaming on: see [`Self::initialize`].
    fn initialize_internal(&mut self, prepared: Result<(), String>) -> (r: Result<(), String>)
        requires
            old(self).wf(),
        ensures
            final(self).wf(),
            final(self)@.init_state == old(self)@.init_state,
            final(self)@.init_requested == old(self)@.init_requested,
            old(self)@.enabled ==> r is Ok && final(self)@ == old(self)@,
            !old(self)@.enabled ==> match prepared {
                Ok(_) => {
                    &&& r is Ok
                    &&& final(self)@.enabled
                    &&& final(self)@.manager matches Some(manager) && is_engine_manager(manager)
                },
                Err(reason) => r matches Err(text) && text@ == reason@ && final(self)@ == old(
                    self,
                )@,
            },
    {
        if self.enabled {
            return Ok(());
        }
        match prepared {
            Ok(_) => {
                let config = StreamingConfig {
                    max_cache_size: self.calculate_cache_size(),
                    worker_threads: self.calculate_worker_threads(),
                    high_quality_distance: 50_000,
                    medium_quality_distance: 150_000,
                    low_quality_distance: 500_000,
                    enable_predictive_loading: true,
                    asset_base_path: String::from_str("assets"),
                };
                let manager = initialize_streaming(config);
                self.manager = Some(manager);
                self.enabled = true;
                Ok(())
            },
            Err(reason) => Err(reason),
        }
    }

    /// Reports a camera movement to the manager, if there is one.
    pub fn update(&mut self, camera_position: &[i32; 3], camera_direction: &[i32; 3])
        requires
            old(self).wf(),
        ensures
            final(self).wf(),
            final(self)@.enabled == old(self)@.enabled,
            final(self)@.init_state == old(self)@.init_state,
            final(self)@.init_requested == old(self)@.init_requested,
            match old(self)@.manager {
                Some(before) => final(self)@.manager matches Some(after) && exists|now: Timestamp|
                    after == #[trigger] before.update(now),
                None => final(self)@.manager is None,
            },
    {
        match &mut self.manager {
            Some(manager) => {
                manager.update(camera_position, camera_direction);
            },
            None => {},
        }
    }

    /// Requests a resource from the manager, if there is one.
    pub fn request_resource(&mut self, path: &str, priority: LoadPriority) -> (r: Option<
        ResourceHandle,
    >)
        requires
            old(self).wf(),
        ensures
            final(self).wf(),
            final(self)@.enabled == old(self)@.enabled,
            final(self)@.init_state == old(self)@.init_state,
            final(self)@.init_requested == old(self)@.init_requested,
            match old(self)@.manager {
                Some(before) => {
                    &&& r == Some(before.request_handle(path@))
                    &&& final(self)@.manager matches Some(after) && exists|now: Timestamp|
                        after == #[trigger] before.request(path@, priority, now)
                },
                None => r is None && final(self)@.manager is None,
            },
    {
        match &mut self.manager {
            Some(manager) => Some(manager.request_resource(path, priority)),
            None => None,
        }
    }

    /// The state of a resource, if there is a manager and it tracks a
    /// resource with the handle.
    pub fn get_resource_state(&self, handle: ResourceHandle) -> (r: Option<ResourceState>)
        ensures
            match self@.manager {
                Some(manager) => match r {
                    Some(state) => handle_index(manager.resources, handle)
                        >= 0 && state@
                        == manager.resources[handle_index(
                        manager.resources,
                        handle,
                    )].state,
                    None => handle_index(manager.resources, handle) == -1,
                },
                None => r is None,
            },
    {
        match &self.manager {
            Some(manager) => manager.get_resource_state(handle),
            None => None,
        }
    }

    /// The figures of the manager, if there is one.
    pub fn get_stats(&self) -> (r: Option<StreamingStats>)
        ensures
            match self@.manager {
                Some(manager) => r == Some(manager.stats),
                None => r is None,
            },
    {
        match &self.manager {
            Some(manager) => Some(manager.get_stats()),
            None => None,
        }
    }

    /// Drops unused resources from the manager, if there is one.
    pub fn cleanup_unused_resources(&mut self)
        requires
            old(self).wf(),
        ensures
            final(self).wf(),
            final(self)@.enabled == old(self)@.enabled,
            final(self)@.init_state == old(self)@.init_state,
            final(self)@.init_requested == old(self)@.init_requested,
            match old(self)@.manager {
                Some(before) => final(self)@.manager matches Some(after) && exists|now: Timestamp|
                    after == #[trigger] before.cleanup_unused(now),
                None => final(self)@.manager is None,
            },
    {
        match &mut self.manager {
            Some(manager) => {
                manager.cleanup_unused_resources();
            },
            None => {},
        }
    }

    /// Whether streaming is switched on.
    pub fn is_enabled(&self) -> (r: bool)
        ensures
            r == self@.is_enabled(),
    {
        self.enabled && self.manager.is_some()
    }

    /// How far the initialization has come.
    pub fn init_state(&self) -> (r: StreamingInitState)
        ensures
            r@ == self@.init_state,
    {
        self.init_state.duplicate()
    }

    /// Notes the user's wish to switch streaming on. It is processed by
    /// [`Self::process_pending_initialization`].
    pub fn request_initialization(&mut self)
        ensures
            final(self)@ == old(self)@.request_initialization(),
    {
        if let StreamingInitState::NotInitialized = self.init_state {
            self.init_requested = true;
            self.init_state = StreamingInitState::Initializing;
        }
    }

    /// Whether a request for initialization waits to be processed, so that
    /// the caller has to make the asset directory ready.
    pub fn initialization_pending(&self) -> (r: bool)
        ensures
            r == self@.initialization_pending(),
    {
        if let StreamingInitState::Initializing = self.init_state {
            self.init_requested
        } else {
            false
        }
    }

    /// Processes a pending request for initialization, if there is one.
    /// `prepared` says whether the asset directory could be made ready.
    /// Where streaming is on already, the manager stays and the state is
    /// initialized. Else, on success, streaming is on with a manager as the
    /// engine sets it up; on failure nothing but the state changes, which
    /// carries [`init_failure_text`] of the reason.
    pub fn process_pending_initialization(&mut self, prepared: Result<(), String>)
        requires
            old(self).wf(),
        ensures
            final(self).wf(),
            !old(self)@.initialization_pending() ==> final(self)@ == old(self)@,
            old(self)@.initialization_pending() && old(self)@.enabled ==> final(self)@ == (
            IntegrationView {
                init_state: InitStateView::Initialized,
                init_requested: false,
                ..old(self)@
            }),
            old(self)@.initialization_pending() && !old(self)@.enabled ==> match prepared {
                Ok(_) => {
                    &&& final(self)@.init_state is Initialized
                    &&& !final(self)@.init_requested
                    &&& final(self)@.enabled
                    &&& final(self)@.manager matches Some(manager) && is_engine_manager(manager)
                },
                Err(reason) => final(self)@ == (IntegrationView {
                    init_state: InitStateView::Failed(init_failure_text(reason@)),
                    init_requested: false,
                    ..old(self)@
                }),
            },
    {
        if self.initialization_pending() {
            self.init_requested = false;
            match self.initialize_internal(prepared) {
                Ok(_) => {
                    self.init_state = StreamingInitState::Initialized;
                },
                Err(reason) => {
                    let mut error_msg = String::from_str("Error initializing streaming: ");
                    error_msg.append(reason.as_str());
                    self.init_state = StreamingInitState::Failed(error_msg);
                },
            }
        }
    }

    /// Makes a failed initialization ready to be asked for again. In every
    /// other state nothing changes.
    pub fn retry_initialization(&mut self)
        ensures
            final(self)@ == if old(self)@.init_state is Failed {
                IntegrationView {
                    init_state: InitStateView::NotInitialized,
                    init_requested: false,
                    ..old(self)@
                }
            } else {
                old(self)@
            },
    {
        if let StreamingInitState::Failed(_) = self.init_state {
            self.init_state = StreamingInitState::NotInitialized;
            self.init_requested = false;
        }
    }

    /// Empties the cache of the manager, if there is one.
    pub fn clear_cache(&mut self)
        requires
            old(self).wf(),
        ensures
            final(self).wf(),
            final(self)@.enabled == old(self)@.enabled,
            final(self)@.init_state == old(self)@.init_state,
            final(self)@.init_requested == old(self)@.init_requested,
            match old(self)@.manager {
                Some(before) => final(self)@.manager == Some(
                    ManagerView { cache: before.cache.clear(), ..before },
                ),
                None => final(self)@.manager is None,
            },
    {
        match &mut self.manager {
            Some(manager) => {
                manager.clear_cache();
            },
            None => {},
        }
    }

    /// Drops cold entries from the cache of the manager, if there is one.
    pub fn force_garbage_collection(&mut self)
        requires
            old(self).wf(),
        ensures
            final(self).wf(),
            final(self)@.enabled == old(self)@.enabled,
            final(self)@.init_state == old(self)@.init_state,
            final(self)@.init_requested == old(self)@.init_requested,
            match old(self)@.manager {
                Some(before) => final(self)@.manager matches Some(after) && exists|now: Timestamp|
                    after == (ManagerView { cache: #[trigger] before.cache.cleanup(now), ..before }),
                None => final(self)@.manager is None,
            },
    {
        match &mut self.manager {
            Some(manager) => {
                manager.force_garbage_collection();
            },
            None => {},
        }
    }

    /// The size of the cache that the engine asks for.
    pub fn calculate_cache_size(&self) -> (r: u64)
        ensures
            r == ENGINE_CACHE_SIZE,
    {
        ENGINE_CACHE_SIZE
    }

    /// The number of loads in flight that the engine asks for: half of the
    /// machine's cores, at least two and at most eight.
    pub fn calculate_worker_threads(&self) -> (r: usize)
        ensures
            2 <= r <= 8,
    {
        worker_threads_for(available_cpus())
    }
}

impl Default for StreamingIntegration {
    fn default() -> (r: StreamingIntegration)
        ensures
            r@ == IntegrationView::fresh(),
    {
        StreamingIntegration::new()
    }
}

/// The streaming settings that the engine keeps between runs.
pub trait PersistedStateStreamingExt {
    fn get_streaming_enabled(&self) -> bool;

    fn set_streaming_enabled(&mut self, enabled: bool);

    fn get_streaming_cache_size_mb(&self) -> u32;

    fn set_streaming_cache_size_mb(&mut self, size_mb: u32);

    fn get_streaming_worker_threads(&self) -> u8;

    fn set_streaming_worker_threads(&mut self, threads: u8);
}

/// The state that the engine keeps between runs, as far as streaming reads
/// it. It has no fields for streaming yet: the getters answer with the
/// defaults and the setters change nothing.
#[derive(Debug, Clone, Copy, PartialEq, Eq, Structural)]
pub struct PersistedState {}

impl PersistedStateStreamingExt for PersistedState {
    fn get_streaming_enabled(&self) -> (r: bool)
        ensures
            r,
    {
        true
    }

    fn set_streaming_enabled(&mut self, enabled: bool)
        ensures
            *final(self) == *old(self),
    {
    }

    fn get_streaming_cache_size_mb(&self) -> (r: u32)
        ensures
            r == 2048,
    {
        2048
    }

    fn set_streaming_cache_size_mb(&mut self, size_mb: u32)
        ensures
            *final(self) == *old(self),
    {
    }

    fn get_streaming_worker_threads(&self) -> (r: u8)
        ensures
            r == 4,
    {
        4
    }

    fn set_streaming_worker_threads(&mut self, threads: u8)
        ensures
            *final(self) == *old(self),
    {
    }
}

} // verus!
