//! Resource streaming for a game engine: which assets are resident, at what
//! quality, under a fixed memory budget.
//!
//! The streaming core is made of the cache ([`streaming_cache`]), the
//! loader ([`asset_loader`]), tier selection ([`level_of_detail`]), priority
//! scoring ([`priority_system`]) and the manager that ties them together
//! ([`resource_manager`]). Around it stand the engine's other decisions that
//! can be stated over plain values: culling, input state, shader progress,
//! icons and paths.
//!
//! The crate works on whole numbers throughout. Distances are millimetres,
//! fractions are per mille, times are nanoseconds. Threads, files and
//! floating point are the caller's business.

use vstd::prelude::*;
use vstd::string::StringExecFns;

pub mod asset_browser;
pub mod asset_loader;
pub mod clock;
pub mod counters;
pub mod culling;
pub mod geometry;
pub mod icons;
pub mod input;
pub mod level_of_detail;
pub mod occlusion;
pub mod priority_system;
pub mod resource_manager;
pub mod scene;
pub mod shader_compiler;
pub mod shader_progress;
pub mod streaming_cache;
pub mod streaming_integration;
pub mod temporal;
pub mod text;
pub mod vfs;
pub mod vrs;

pub use asset_loader::{AssetLoader, LoadPriority, LoadRequest};
pub use level_of_detail::{LodLevel, LodManager};
pub use priority_system::{PriorityCalculator, StreamingPriority};
pub use resource_manager::{initialize_streaming, ResourceStreamingManager};
pub use streaming_cache::{CacheConfig, StreamingCache};

verus! {

/// The key of an asset: its normalized path.
pub type ResourceId = String;

/// A 64-bit value derived from a [`ResourceId`].
pub type ResourceHandle = u64;

/// The settings of a streaming manager.
#[derive(Debug, Clone)]
pub struct StreamingConfig {
    /// Capacity of the cache in bytes.
    pub max_cache_size: u64,
    /// Number of loads that may be in flight at a time.
    pub worker_threads: usize,
    /// Greatest distance, in millimetres, at which resources load at high quality.
    pub high_quality_distance: u32,
    /// Greatest distance, in millimetres, at which resources load at medium quality.
    pub medium_quality_distance: u32,
    /// Greatest distance, in millimetres, at which resources load at low quality.
    pub low_quality_distance: u32,
    /// Whether to load ahead of need.
    pub enable_predictive_loading: bool,
    /// Directory under which the assets lie.
    pub asset_base_path: String,
}

impl Default for StreamingConfig {
    fn default() -> (r: StreamingConfig)
        ensures
            r.max_cache_size == 2_147_483_648,
            r.worker_threads == 4,
            r.high_quality_distance == 50_000,
            r.medium_quality_distance == 150_000,
            r.low_quality_distance == 500_000,
            r.enable_predictive_loading,
            r.asset_base_path@ == "assets"@,
    {
        StreamingConfig {
            max_cache_size: 2_147_483_648,
            worker_threads: 4,
            high_quality_distance: 50_000,
            medium_quality_distance: 150_000,
            low_quality_distance: 500_000,
            enable_predictive_loading: true,
            asset_base_path: String::from_str("assets"),
        }
    }
}

} // verus!
