//! Level-of-detail selection: maps a distance and an asset category to a
//! quality tier.
//!
//! Distances are whole millimetres. Fractions (screen coverage, performance,
//! quality) are per mille: `1000` stands for `1.0`.

use vstd::prelude::*;
use vstd::std_specs::convert::FromSpecImpl;
use crate::counters::bumped;
use crate::text::{lowercase_of, str_eq, to_lowercase};

verus! {

/// Quality tier of a resource, from coarsest to finest.
#[derive(Debug, Clone, Copy, PartialEq, Eq, Structural)]
pub enum LodLevel {
    /// Lowest quality, meant for distant objects.
    Low,
    /// Balance between quality and cost.
    Medium,
    /// Full quality.
    High,
}

impl LodLevel {
    /// Position of the tier in the order `Low < Medium < High`.
    pub open spec fn rank(self) -> int {
        match self {
            LodLevel::Low => 0,
            LodLevel::Medium => 1,
            LodLevel::High => 2,
        }
    }

    /// The next coarser tier; `Low` stays `Low`.
    pub open spec fn coarser(self) -> LodLevel {
        match self {
            LodLevel::High => LodLevel::Medium,
            LodLevel::Medium => LodLevel::Low,
            LodLevel::Low => LodLevel::Low,
        }
    }

    /// The next coarser tier; `Low` stays `Low`.
    pub fn downgrade(self) -> (r: LodLevel)
        ensures
            r == self.coarser(),
            r.rank() == if self.rank() == 0 { 0 } else { self.rank() - 1 },
    {
        match self {
            LodLevel::High => LodLevel::Medium,
            LodLevel::Medium => LodLevel::Low,
            LodLevel::Low => LodLevel::Low,
        }
    }
}

impl Default for LodLevel {
    fn default() -> (r: LodLevel)
        ensures
            r == LodLevel::Medium,
    {
        LodLevel::Medium
    }
}

impl From<u8> for LodLevel {
    fn from(value: u8) -> (r: LodLevel) {
        if value == 0 {
            LodLevel::Low
        } else if value == 1 {
            LodLevel::Medium
        } else {
            LodLevel::High
        }
    }
}

impl FromSpecImpl<u8> for LodLevel {
    open spec fn obeys_from_spec() -> bool {
        true
    }

    open spec fn from_spec(value: u8) -> LodLevel {
        if value == 0 {
            LodLevel::Low
        } else if value == 1 {
            LodLevel::Medium
        } else {
            LodLevel::High
        }
    }
}

impl From<LodLevel> for u8 {
    fn from(lod: LodLevel) -> (r: u8) {
        match lod {
            LodLevel::Low => 0,
            LodLevel::Medium => 1,
            LodLevel::High => 2,
        }
    }
}

impl FromSpecImpl<LodLevel> for u8 {
    open spec fn obeys_from_spec() -> bool {
        true
    }

    open spec fn from_spec(lod: LodLevel) -> u8 {
        lod.rank() as u8
    }
}

/// Category of a resource, as far as tier selection distinguishes them.
#[derive(Debug, Clone, Copy, PartialEq, Eq, Structural)]
pub enum ResourceType {
    Mesh,
    Texture,
    Material,
    Audio,
    Scene,
    Other,
}

/// The category that a lower-case file extension stands for.
pub open spec fn resource_type_of(ext: Seq<char>) -> ResourceType {
    if ext == "gltf"@ || ext == "glb"@ || ext == "obj"@ || ext == "fbx"@ {
        ResourceType::Mesh
    } else if ext == "png"@ || ext == "jpg"@ || ext == "jpeg"@ || ext == "tga"@ || ext == "dds"@
        || ext == "hdr"@ || ext == "exr"@ {
        ResourceType::Texture
    } else if ext == "mtl"@ || ext == "mat"@ {
        ResourceType::Material
    } else if ext == "wav"@ || ext == "mp3"@ || ext == "ogg"@ {
        ResourceType::Audio
    } else if ext == "dmoon"@ || ext == "scene"@ {
        ResourceType::Scene
    } else {
        ResourceType::Other
    }
}

impl ResourceType {
    /// The category of an extension that is already in lower case.
    pub fn from_lowercase(ext: &str) -> (r: ResourceType)
        ensures
            r == resource_type_of(ext@),
    {
        if str_eq(ext, "gltf") || str_eq(ext, "glb") || str_eq(ext, "obj") || str_eq(ext, "fbx") {
            ResourceType::Mesh
        } else if str_eq(ext, "png") || str_eq(ext, "jpg") || str_eq(ext, "jpeg") || str_eq(
            ext,
            "tga",
        ) || str_eq(ext, "dds") || str_eq(ext, "hdr") || str_eq(ext, "exr") {
            ResourceType::Texture
        } else if str_eq(ext, "mtl") || str_eq(ext, "mat") {
            ResourceType::Material
        } else if str_eq(ext, "wav") || str_eq(ext, "mp3") || str_eq(ext, "ogg") {
            ResourceType::Audio
        } else if str_eq(ext, "dmoon") || str_eq(ext, "scene") {
            ResourceType::Scene
        } else {
            ResourceType::Other
        }
    }
}

impl<'a> From<&'a str> for ResourceType {
    /// The category of a file extension, compared without regard to case.
    fn from(extension: &'a str) -> (r: ResourceType) {
        let lower = to_lowercase(extension);
        ResourceType::from_lowercase(lower.as_str())
    }
}

impl<'a> FromSpecImpl<&'a str> for ResourceType {
    open spec fn obeys_from_spec() -> bool {
        true
    }

    open spec fn from_spec(extension: &'a str) -> ResourceType {
        resource_type_of(lowercase_of(extension@))
    }
}

/// Distance thresholds, in millimetres, per asset category.
#[derive(Debug, Clone, Copy)]
pub struct LodConfig {
    pub texture_high_distance: u32,
    pub texture_medium_distance: u32,
    pub mesh_high_distance: u32,
    pub mesh_medium_distance: u32,
    pub enable_dynamic_lod: bool,
}

impl Default for LodConfig {
    fn default() -> (r: LodConfig)
        ensures
            r.texture_high_distance == 30_000,
            r.texture_medium_distance == 100_000,
            r.mesh_high_distance == 50_000,
            r.mesh_medium_distance == 150_000,
            r.enable_dynamic_lod,
    {
        LodConfig {
            texture_high_distance: 30_000,
            texture_medium_distance: 100_000,
            mesh_high_distance: 50_000,
            mesh_medium_distance: 150_000,
            enable_dynamic_lod: true,
        }
    }
}

impl LodConfig {
    /// The pair (high threshold, medium threshold) that tier selection uses
    /// for a category: textures have their own, audio has twice the mesh
    /// thresholds, every other category has the mesh thresholds.
    pub open spec fn thresholds(self, resource_type: ResourceType) -> (int, int) {
        match resource_type {
            ResourceType::Texture => (
                self.texture_high_distance as int,
                self.texture_medium_distance as int,
            ),
            ResourceType::Audio => (2 * self.mesh_high_distance, 2 * self.mesh_medium_distance),
            _ => (self.mesh_high_distance as int, self.mesh_medium_distance as int),
        }
    }

    /// The pair of thresholds around which transitions are blended: as
    /// [`Self::thresholds`], except that audio has the plain mesh thresholds.
    pub open spec fn blend_thresholds(self, resource_type: ResourceType) -> (int, int) {
        match resource_type {
            ResourceType::Texture => (
                self.texture_high_distance as int,
                self.texture_medium_distance as int,
            ),
            _ => (self.mesh_high_distance as int, self.mesh_medium_distance as int),
        }
    }

    /// The tier for a distance: `High` up to the high threshold, `Medium` up
    /// to the medium threshold, `Low` beyond; always `High` when dynamic
    /// selection is switched off.
    pub open spec fn level_for(self, distance: int, resource_type: ResourceType) -> LodLevel {
        let (high, medium) = self.thresholds(resource_type);
        if !self.enable_dynamic_lod {
            LodLevel::High
        } else if distance <= high {
            LodLevel::High
        } else if distance <= medium {
            LodLevel::Medium
        } else {
            LodLevel::Low
        }
    }

    /// The tier for a distance, lowered by one step when the object covers
    /// little of the screen (`High` under 10%, `Medium` under 5%) and by one
    /// more when performance is under 50%.
    pub open spec fn advanced_level_for(
        self,
        distance: int,
        resource_type: ResourceType,
        screen_size_factor: int,
        performance_factor: int,
    ) -> LodLevel {
        let base = self.level_for(distance, resource_type);
        let screen_adjusted = if base == LodLevel::High && screen_size_factor < 100 {
            LodLevel::Medium
        } else if base == LodLevel::Medium && screen_size_factor < 50 {
            LodLevel::Low
        } else {
            base
        };
        if performance_factor < 500 {
            screen_adjusted.coarser()
        } else {
            screen_adjusted
        }
    }

    /// The distance at which one tier gives way to another: the high
    /// threshold between `High` and `Medium`, the medium threshold between
    /// `Medium` and `Low`, their mean (rounded down) between `High` and `Low`,
    /// and zero between a tier and itself.
    pub open spec fn transition_distance(
        self,
        resource_type: ResourceType,
        from_lod: LodLevel,
        to_lod: LodLevel,
    ) -> int {
        let (high, medium) = self.thresholds(resource_type);
        match (from_lod, to_lod) {
            (LodLevel::High, LodLevel::Medium) | (LodLevel::Medium, LodLevel::High) => high,
            (LodLevel::Medium, LodLevel::Low) | (LodLevel::Low, LodLevel::Medium) => medium,
            (LodLevel::High, LodLevel::Low) | (LodLevel::Low, LodLevel::High) => (high + medium)
                / 2,
            _ => 0,
        }
    }

    /// A distance lies within 20% of a threshold, on either side of it.
    pub open spec fn near_threshold(distance: int, threshold: int) -> bool {
        4 * threshold <= 5 * distance <= 6 * threshold
    }

    /// A distance lies within 20% of one of the two blend thresholds.
    pub open spec fn in_blend_band(self, distance: int, resource_type: ResourceType) -> bool {
        let (high, medium) = self.blend_thresholds(resource_type);
        Self::near_threshold(distance, high) || Self::near_threshold(distance, medium)
    }
}

/// The share of full quality that a tier stands for, in per mille.
pub open spec fn quality_factor_of(lod_level: LodLevel) -> u16 {
    match lod_level {
        LodLevel::High => 1000,
        LodLevel::Medium => 500,
        LodLevel::Low => 250,
    }
}

/// Selects quality tiers from distances.
#[derive(Debug, Clone, Copy)]
pub struct LodManager {
    config: LodConfig,
}

impl View for LodManager {
    type V = LodConfig;

    closed spec fn view(&self) -> LodConfig {
        self.config
    }
}

impl LodManager {
    /// A selector whose mesh thresholds are the given distances and whose
    /// texture thresholds are 60% of them, rounded down. The low-quality
    /// distance takes no part in selection.
    pub fn new(high_distance: u32, medium_distance: u32, _low_distance: u32) -> (r: LodManager)
        ensures
            r@.mesh_high_distance == high_distance,
            r@.mesh_medium_distance == medium_distance,
            r@.texture_high_distance == high_distance * 3 / 5,
            r@.texture_medium_distance == medium_distance * 3 / 5,
            r@.enable_dynamic_lod,
    {
        let texture_high: u64 = (high_distance as u64) * 3 / 5;
        let texture_medium: u64 = (medium_distance as u64) * 3 / 5;
        LodManager {
            config: LodConfig {
                texture_high_distance: texture_high as u32,
                texture_medium_distance: texture_medium as u32,
                mesh_high_distance: high_distance,
                mesh_medium_distance: medium_distance,
                enable_dynamic_lod: true,
            },
        }
    }

    /// The two thresholds of a category, as [`LodConfig::thresholds`] gives them.
    fn thresholds_for(&self, resource_type: &ResourceType) -> (r: (u64, u64))
        ensures
            (r.0 as int, r.1 as int) == self@.thresholds(*resource_type),
    {
        match resource_type {
            ResourceType::Texture => (
                self.config.texture_high_distance as u64,
                self.config.texture_medium_distance as u64,
            ),
            ResourceType::Audio => (
                2 * (self.config.mesh_high_distance as u64),
                2 * (self.config.mesh_medium_distance as u64),
            ),
            _ => (self.config.mesh_high_distance as u64, self.config.mesh_medium_distance as u64),
        }
    }

    /// The tier for a resource of the given category at the given distance.
    pub fn calculate_lod_level(&self, distance: u32, resource_type: &ResourceType) -> (r: LodLevel)
        ensures
            r == self@.level_for(distance as int, *resource_type),
    {
        if !self.config.enable_dynamic_lod {
            return LodLevel::High;
        }
        let (high_threshold, medium_threshold) = self.thresholds_for(resource_type);
        let distance: u64 = distance as u64;
        if distance <= high_threshold {
            LodLevel::High
        } else if distance <= medium_threshold {
            LodLevel::Medium
        } else {
            LodLevel::Low
        }
    }

    /// The tier for a resource, taking screen coverage and system performance
    /// (both per mille) into account.
    pub fn calculate_lod_advanced(
        &self,
        distance: u32,
        resource_type: &ResourceType,
        screen_size_factor: u16,
        performance_factor: u16,
    ) -> (r: LodLevel)
        ensures
            r == self@.advanced_level_for(
                distance as int,
                *resource_type,
                screen_size_factor as int,
                performance_factor as int,
            ),
            r.rank() <= self@.level_for(distance as int, *resource_type).rank(),
    {
        let base_lod = self.calculate_lod_level(distance, resource_type);
        let screen_adjusted = match base_lod {
            LodLevel::High => if screen_size_factor < 100 {
                LodLevel::Medium
            } else {
                base_lod
            },
            LodLevel::Medium => if screen_size_factor < 50 {
                LodLevel::Low
            } else {
                base_lod
            },
            LodLevel::Low => base_lod,
        };
        if performance_factor < 500 {
            screen_adjusted.downgrade()
        } else {
            screen_adjusted
        }
    }

    /// The distance, in millimetres, at which `from_lod` gives way to `to_lod`.
    pub fn get_transition_distance(
        &self,
        resource_type: &ResourceType,
        from_lod: LodLevel,
        to_lod: LodLevel,
    ) -> (r: u64)
        ensures
            r == self@.transition_distance(*resource_type, from_lod, to_lod),
    {
        let (high_threshold, medium_threshold) = self.thresholds_for(resource_type);
        match (from_lod, to_lod) {
            (LodLevel::High, LodLevel::Medium) | (LodLevel::Medium, LodLevel::High) => {
                high_threshold
            },
            (LodLevel::Medium, LodLevel::Low) | (LodLevel::Low, LodLevel::Medium) => {
                medium_threshold
            },
            (LodLevel::High, LodLevel::Low) | (LodLevel::Low, LodLevel::High) => (high_threshold
                + medium_threshold) / 2,
            _ => 0,
        }
    }

    /// Replaces the thresholds.
    pub fn update_config(&mut self, config: LodConfig)
        ensures
            final(self)@ == config,
    {
        self.config = config;
    }

    /// The thresholds in use.
    pub fn get_config(&self) -> (r: &LodConfig)
        ensures
            *r == self@,
    {
        &self.config
    }

    /// The share of full quality, in per mille, that a tier stands for.
    pub fn get_quality_factor(&self, lod_level: LodLevel) -> (r: u16)
        ensures
            r == quality_factor_of(lod_level),
    {
        match lod_level {
            LodLevel::High => 1000,
            LodLevel::Medium => 500,
            LodLevel::Low => 250,
        }
    }

    /// Whether the distance lies within 20% of a tier boundary, so that the
    /// caller should blend between tiers.
    pub fn should_use_smooth_transition(&self, distance: u32, resource_type: &ResourceType) -> (r:
        bool)
        ensures
            r == self@.in_blend_band(distance as int, *resource_type),
    {
        let (high_threshold, medium_threshold): (u64, u64) = match resource_type {
            ResourceType::Texture => (
                self.config.texture_high_distance as u64,
                self.config.texture_medium_distance as u64,
            ),
            _ => (self.config.mesh_high_distance as u64, self.config.mesh_medium_distance as u64),
        };
        let scaled: u64 = 5 * (distance as u64);
        (4 * high_threshold <= scaled && scaled <= 6 * high_threshold) || (4 * medium_threshold
            <= scaled && scaled <= 6 * medium_threshold)
    }
}

/// A resource that is farther away never gets a finer tier.
pub proof fn lemma_farther_is_never_finer(
    config: LodConfig,
    near: int,
    far: int,
    resource_type: ResourceType,
)
    requires
        near <= far,
    ensures
        config.level_for(far, resource_type).rank() <= config.level_for(near, resource_type).rank(),
{
}

/// The tier that takes screen coverage and performance into account is
/// never finer than the tier that distance alone gives.
pub proof fn lemma_advanced_is_never_finer(
    config: LodConfig,
    distance: int,
    resource_type: ResourceType,
    screen_size_factor: int,
    performance_factor: int,
)
    ensures
        config.advanced_level_for(
            distance,
            resource_type,
            screen_size_factor,
            performance_factor,
        ).rank() <= config.level_for(distance, resource_type).rank(),
{
}

/// Counts of resources per tier.
#[derive(Debug, Clone, Copy)]
pub struct LodStats {
    pub high_lod_count: u32,
    pub medium_lod_count: u32,
    pub low_lod_count: u32,
    pub total_resources: u32,
    pub memory_saved_bytes: u64,
}

impl Default for LodStats {
    fn default() -> (r: LodStats)
        ensures
            r.high_lod_count == 0,
            r.medium_lod_count == 0,
            r.low_lod_count == 0,
            r.total_resources == 0,
            r.memory_saved_bytes == 0,
    {
        LodStats {
            high_lod_count: 0,
            medium_lod_count: 0,
            low_lod_count: 0,
            total_resources: 0,
            memory_saved_bytes: 0,
        }
    }
}

impl LodStats {
    /// The count kept for a tier.
    pub open spec fn count_of(self, lod_level: LodLevel) -> u32 {
        match lod_level {
            LodLevel::High => self.high_lod_count,
            LodLevel::Medium => self.medium_lod_count,
            LodLevel::Low => self.low_lod_count,
        }
    }

    /// Records one resource at the given tier. A counter that has reached the
    /// largest `u32` stays there.
    pub fn add_resource(&mut self, lod_level: LodLevel)
        ensures
            final(self).count_of(lod_level) == bumped(old(self).count_of(lod_level)),
            forall|other: LodLevel|
                other != lod_level ==> final(self).count_of(other) == old(self).count_of(other),
            final(self).total_resources == bumped(old(self).total_resources),
            final(self).memory_saved_bytes == old(self).memory_saved_bytes,
    {
        match lod_level {
            LodLevel::High => {
                self.high_lod_count = self.high_lod_count.saturating_add(1);
            },
            LodLevel::Medium => {
                self.medium_lod_count = self.medium_lod_count.saturating_add(1);
            },
            LodLevel::Low => {
                self.low_lod_count = self.low_lod_count.saturating_add(1);
            },
        }
        self.total_resources = self.total_resources.saturating_add(1);
    }

    /// The share of recorded resources at a tier, in whole percent rounded
    /// down; zero when nothing was recorded.
    pub fn get_distribution_percentage(&self, lod_level: LodLevel) -> (r: u64)
        ensures
            r == if self.total_resources == 0 {
                0
            } else {
                self.count_of(lod_level) * 100 / (self.total_resources as int)
            },
    {
        if self.total_resources == 0 {
            return 0;
        }
        let count = match lod_level {
            LodLevel::High => self.high_lod_count,
            LodLevel::Medium => self.medium_lod_count,
            LodLevel::Low => self.low_lod_count,
        };
        (count as u64) * 100 / (self.total_resources as u64)
    }

    /// Estimated memory saved against loading everything at `High`, in whole
    /// percent rounded down: a `Medium` resource saves half, a `Low` one three
    /// quarters. Zero when nothing was recorded.
    pub fn estimate_memory_savings(&self) -> (r: u64)
        ensures
            r == if self.total_resources == 0 {
                0
            } else {
                (50 * self.medium_lod_count + 75 * self.low_lod_count) / (
                self.total_resources as int)
            },
    {
        if self.total_resources == 0 {
            return 0;
        }
        let weighted: u64 = 50 * (self.medium_lod_count as u64) + 75 * (self.low_lod_count as u64);
        weighted / (self.total_resources as u64)
    }
}

} // verus!
