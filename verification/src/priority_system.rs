//! Priority scoring: combines distance, view angle, screen coverage, camera
//! speed, recency and a per-path importance into one of six priority tiers.
//!
//! Factors and weights are per mille (`1000` stands for `1.0`); a weighted
//! score is the sum of factor-weight products and therefore in millionths.
//! Distances are whole millimetres, times whole nanoseconds.

use vstd::prelude::*;
use vstd::std_specs::convert::FromSpecImpl;
use crate::asset_loader::LoadPriority;
use crate::counters::bumped;
use crate::text::{is_substring, str_contains};

verus! {

/// One whole, in per mille.
pub const FACTOR_ONE: u16 = 1000;

/// One whole, in millionths: the scale of a weighted score.
pub const SCORE_ONE: u64 = 1_000_000;

/// The age, in nanoseconds, at which the recency factor reaches zero: five minutes.
pub const RECENCY_MAX_AGE_NANOS: u128 = 300_000_000_000;

/// How urgently a resource should be resident, from least to most.
#[derive(Debug, Clone, Copy, PartialEq, Eq, Structural, PartialOrd, Ord)]
pub enum StreamingPriority {
    Invisible,
    VeryLow,
    Low,
    Medium,
    High,
    Critical,
}

impl StreamingPriority {
    /// Position of the tier in the order `Invisible < ... < Critical`.
    pub open spec fn rank(self) -> int {
        match self {
            StreamingPriority::Invisible => 0,
            StreamingPriority::VeryLow => 1,
            StreamingPriority::Low => 2,
            StreamingPriority::Medium => 3,
            StreamingPriority::High => 4,
            StreamingPriority::Critical => 5,
        }
    }

    /// The higher of two tiers.
    pub open spec fn higher_of(self, other: StreamingPriority) -> StreamingPriority {
        if self.rank() >= other.rank() {
            self
        } else {
            other
        }
    }

    /// Position of the tier in the order `Invisible < ... < Critical`.
    pub fn level(self) -> (r: u8)
        ensures
            r == self.rank(),
    {
        match self {
            StreamingPriority::Invisible => 0,
            StreamingPriority::VeryLow => 1,
            StreamingPriority::Low => 2,
            StreamingPriority::Medium => 3,
            StreamingPriority::High => 4,
            StreamingPriority::Critical => 5,
        }
    }

    /// The higher of two tiers.
    pub fn max_with(self, other: StreamingPriority) -> (r: StreamingPriority)
        ensures
            r == self.higher_of(other),
            r.rank() >= self.rank(),
            r.rank() >= other.rank(),
    {
        if self.level() >= other.level() {
            self
        } else {
            other
        }
    }
}

/// The streaming tier that stands for a load priority: the one of the same name.
pub open spec fn streaming_priority_of(load_priority: LoadPriority) -> StreamingPriority {
    match load_priority {
        LoadPriority::Low => StreamingPriority::Low,
        LoadPriority::Medium => StreamingPriority::Medium,
        LoadPriority::High => StreamingPriority::High,
        LoadPriority::Critical => StreamingPriority::Critical,
    }
}

impl Default for StreamingPriority {
    fn default() -> (r: StreamingPriority)
        ensures
            r == StreamingPriority::Medium,
    {
        StreamingPriority::Medium
    }
}

impl From<LoadPriority> for StreamingPriority {
    fn from(load_priority: LoadPriority) -> (r: StreamingPriority) {
        match load_priority {
            LoadPriority::Low => StreamingPriority::Low,
            LoadPriority::Medium => StreamingPriority::Medium,
            LoadPriority::High => StreamingPriority::High,
            LoadPriority::Critical => StreamingPriority::Critical,
        }
    }
}

impl FromSpecImpl<LoadPriority> for StreamingPriority {
    open spec fn obeys_from_spec() -> bool {
        true
    }

    open spec fn from_spec(load_priority: LoadPriority) -> StreamingPriority {
        streaming_priority_of(load_priority)
    }
}

impl From<StreamingPriority> for u8 {
    fn from(priority: StreamingPriority) -> (r: u8) {
        priority.level()
    }
}

impl FromSpecImpl<StreamingPriority> for u8 {
    open spec fn obeys_from_spec() -> bool {
        true
    }

    open spec fn from_spec(priority: StreamingPriority) -> u8 {
        priority.rank() as u8
    }
}

/// The six inputs of a score, each in per mille.
#[derive(Debug, Clone, Copy)]
pub struct PriorityFactors {
    /// Nearness to the camera: `1000` at the camera, `0` at the distance limit.
    pub distance_factor: u16,
    /// Alignment with the view direction: `1000` straight ahead, `0` straight behind.
    pub view_angle_factor: u16,
    /// Share of the screen that the resource covers.
    pub screen_size_factor: u16,
    /// Camera speed relative to its maximum; a higher speed lowers the score.
    pub movement_speed_factor: u16,
    /// Freshness of the last access: `1000` just now, `0` at five minutes or more.
    pub recency_factor: u16,
    /// Importance of the resource.
    pub importance_factor: u16,
}

impl Default for PriorityFactors {
    fn default() -> (r: PriorityFactors)
        ensures
            r.distance_factor == 500,
            r.view_angle_factor == 500,
            r.screen_size_factor == 500,
            r.movement_speed_factor == 0,
            r.recency_factor == 500,
            r.importance_factor == 500,
    {
        PriorityFactors {
            distance_factor: 500,
            view_angle_factor: 500,
            screen_size_factor: 500,
            movement_speed_factor: 0,
            recency_factor: 500,
            importance_factor: 500,
        }
    }
}

/// Weights of the six factors (per mille) and the two limits of scoring.
#[derive(Debug, Clone, Copy)]
pub struct PriorityConfig {
    pub distance_weight: u16,
    pub view_angle_weight: u16,
    pub screen_size_weight: u16,
    pub movement_speed_weight: u16,
    pub recency_weight: u16,
    pub importance_weight: u16,
    /// Distance, in millimetres, beyond which a resource is invisible.
    pub max_distance_threshold: u32,
    /// Smallest score, in per mille, at which a resource is worth loading.
    pub min_priority_threshold: u16,
}

impl Default for PriorityConfig {
    fn default() -> (r: PriorityConfig)
        ensures
            r == PriorityConfig::standard(),
            r.weight_sum() == 1000,
    {
        PriorityConfig {
            distance_weight: 300,
            view_angle_weight: 200,
            screen_size_weight: 250,
            movement_speed_weight: 100,
            recency_weight: 100,
            importance_weight: 50,
            max_distance_threshold: 1_000_000,
            min_priority_threshold: 100,
        }
    }
}

/// The tier of a score in millionths: under 0.1 `Invisible`, under 0.2
/// `VeryLow`, under 0.4 `Low`, under 0.6 `Medium`, under 0.8 `High`, from 0.8
/// on `Critical`.
pub open spec fn priority_of_score(score: int) -> StreamingPriority {
    if score < 100_000 {
        StreamingPriority::Invisible
    } else if score < 200_000 {
        StreamingPriority::VeryLow
    } else if score < 400_000 {
        StreamingPriority::Low
    } else if score < 600_000 {
        StreamingPriority::Medium
    } else if score < 800_000 {
        StreamingPriority::High
    } else {
        StreamingPriority::Critical
    }
}

/// The importance, in per mille, that a path has by the words in it: the
/// first match in the order UI, characters, items, environment, effects
/// decides; a path with none of the words has `500`.
pub open spec fn base_importance_of(path: Seq<char>) -> u16 {
    if is_substring("ui"@, path) || is_substring("hud"@, path) {
        1000
    } else if is_substring("character"@, path) || is_substring("player"@, path) {
        900
    } else if is_substring("weapon"@, path) || is_substring("item"@, path) {
        700
    } else if is_substring("environment"@, path) || is_substring("terrain"@, path) {
        500
    } else if is_substring("particle"@, path) || is_substring("effect"@, path) {
        300
    } else {
        500
    }
}

/// `1 - min(part / whole, 1)` in per mille, rounded down; zero when `whole`
/// is zero.
pub open spec fn remaining_share(part: int, whole: int) -> int {
    if part >= whole {
        0
    } else {
        (whole - part) * 1000 / whole
    }
}

/// `min(part / whole, 1)` in per mille, rounded down; one whole when `whole`
/// is zero.
pub open spec fn capped_share(part: int, whole: int) -> int {
    if whole == 0 || part >= whole {
        1000
    } else {
        part * 1000 / whole
    }
}

/// The dot product of two vectors whose components are in per mille, in
/// millionths and limited to the range from minus one to one.
pub open spec fn clamped_dot(a: [i32; 3], b: [i32; 3]) -> int {
    let dot = a[0] * b[0] + a[1] * b[1] + a[2] * b[2];
    if dot < -1_000_000 {
        -1_000_000
    } else if dot > 1_000_000 {
        1_000_000
    } else {
        dot
    }
}

/// `(dot + 1) / 2` in per mille, rounded down.
pub open spec fn view_angle_share(a: [i32; 3], b: [i32; 3]) -> int {
    (clamped_dot(a, b) + 1_000_000) / 2000
}

impl PriorityConfig {
    /// The weights and limits that are taken where none are given.
    pub open spec fn standard() -> PriorityConfig {
        PriorityConfig {
            distance_weight: 300,
            view_angle_weight: 200,
            screen_size_weight: 250,
            movement_speed_weight: 100,
            recency_weight: 100,
            importance_weight: 50,
            max_distance_threshold: 1_000_000,
            min_priority_threshold: 100,
        }
    }

    /// The sum of the six weights.
    pub open spec fn weight_sum(self) -> int {
        self.distance_weight + self.view_angle_weight + self.screen_size_weight
            + self.movement_speed_weight + self.recency_weight + self.importance_weight
    }

    /// The weighted score of six factors, in millionths. The movement-speed
    /// factor counts inverted: `1000 - min(factor, 1000)`.
    pub open spec fn weighted_score(self, factors: PriorityFactors) -> int {
        let calm = if factors.movement_speed_factor >= 1000 {
            0
        } else {
            1000 - factors.movement_speed_factor
        };
        factors.distance_factor * self.distance_weight + factors.view_angle_factor
            * self.view_angle_weight + factors.screen_size_factor * self.screen_size_weight + calm
            * self.movement_speed_weight + factors.recency_factor * self.recency_weight
            + factors.importance_factor * self.importance_weight
    }

    /// The distance factor: `1 - distance / limit` in per mille, zero from
    /// the limit on.
    pub open spec fn distance_factor(self, distance: int) -> int {
        remaining_share(distance, self.max_distance_threshold as int)
    }

    /// The score, in millionths, that distance and importance alone give.
    pub open spec fn simple_score(self, distance: int, path: Seq<char>) -> int {
        self.distance_factor(distance) * self.distance_weight + base_importance_of(path)
            * self.importance_weight
    }

    /// The tier of a resource at a distance: `Invisible` beyond the limit,
    /// else the tier of its [`Self::simple_score`].
    pub open spec fn priority_for(self, distance: int, path: Seq<char>) -> StreamingPriority {
        if distance > self.max_distance_threshold {
            StreamingPriority::Invisible
        } else {
            priority_of_score(self.simple_score(distance, path))
        }
    }
}

/// Whether a resource of this tier is worth loading: from `Low` upwards.
pub open spec fn worth_loading(priority: StreamingPriority) -> bool {
    priority.rank() >= StreamingPriority::Low.rank()
}

/// Whether a resource of this tier should be unloaded at a memory pressure
/// given in per mille: above 0.9 everything up to `Low`, above 0.7 everything
/// up to `VeryLow`, else only `Invisible`.
pub open spec fn worth_unloading(priority: StreamingPriority, memory_pressure: int) -> bool {
    if memory_pressure > 900 {
        priority.rank() <= StreamingPriority::Low.rank()
    } else if memory_pressure > 700 {
        priority.rank() <= StreamingPriority::VeryLow.rank()
    } else {
        priority == StreamingPriority::Invisible
    }
}

/// The product of two per-mille values, in millionths.
fn product(a: u16, b: u16) -> (r: u64)
    ensures
        r == a * b,
        r <= 0xFFFF * 0xFFFF,
{
    assert(0 <= a * b <= 0xFFFF * 0xFFFF) by (nonlinear_arith)
        requires
            0 <= a <= 0xFFFF,
            0 <= b <= 0xFFFF,
    ;
    (a as u64) * (b as u64)
}

/// The product of two signed components.
fn signed_product(a: i32, b: i32) -> (r: i128)
    ensures
        r == a * b,
        -0x4000_0000_0000_0000 <= r <= 0x4000_0000_0000_0000,
{
    assert(-0x4000_0000_0000_0000 <= a * b <= 0x4000_0000_0000_0000) by (nonlinear_arith)
        requires
            -0x8000_0000 <= a <= 0x8000_0000,
            -0x8000_0000 <= b <= 0x8000_0000,
    ;
    (a as i128) * (b as i128)
}

/// Computes priority tiers.
#[derive(Debug, Clone, Copy)]
pub struct PriorityCalculator {
    config: PriorityConfig,
}

impl View for PriorityCalculator {
    type V = PriorityConfig;

    closed spec fn view(&self) -> PriorityConfig {
        self.config
    }
}

impl PriorityCalculator {
    /// A calculator with the default weights and limits.
    pub fn new() -> (r: PriorityCalculator)
        ensures
            r@ == PriorityConfig::standard(),
    {
        PriorityCalculator { config: PriorityConfig::default() }
    }

    /// A calculator with the given weights and limits.
    pub fn with_config(config: PriorityConfig) -> (r: PriorityCalculator)
        ensures
            r@ == config,
    {
        PriorityCalculator { config }
    }

    /// The tier of a resource at the given distance, from distance and
    /// path importance alone. The camera direction takes no part yet.
    pub fn calculate_priority(
        &self,
        distance: u32,
        _camera_direction: &[i32; 3],
        resource_path: &str,
    ) -> (r: StreamingPriority)
        ensures
            r == self@.priority_for(distance as int, resource_path@),
    {
        if distance > self.config.max_distance_threshold {
            return StreamingPriority::Invisible;
        }
        let distance_priority = self.calculate_distance_factor(distance);
        let importance = Self::get_base_importance(resource_path);
        let final_priority: u64 = product(distance_priority, self.config.distance_weight)
            + product(importance, self.config.importance_weight);
        Self::priority_score_to_enum(final_priority)
    }

    /// The weighted score of six factors, in millionths.
    pub fn calculate_weighted_score(&self, factors: &PriorityFactors) -> (r: u64)
        ensures
            r == self@.weighted_score(*factors),
    {
        let calm: u16 = if factors.movement_speed_factor >= 1000 {
            0
        } else {
            1000 - factors.movement_speed_factor
        };
        product(factors.distance_factor, self.config.distance_weight) + product(
            factors.view_angle_factor,
            self.config.view_angle_weight,
        ) + product(factors.screen_size_factor, self.config.screen_size_weight) + product(
            calm,
            self.config.movement_speed_weight,
        ) + product(factors.recency_factor, self.config.recency_weight) + product(
            factors.importance_factor,
            self.config.importance_weight,
        )
    }

    /// The tier that all six factors give.
    pub fn calculate_priority_advanced(&self, factors: &PriorityFactors) -> (r: StreamingPriority)
        ensures
            r == priority_of_score(self@.weighted_score(*factors)),
    {
        let weighted_score = self.calculate_weighted_score(factors);
        Self::priority_score_to_enum(weighted_score)
    }

    /// The distance factor, in per mille: `1000` at distance zero, falling
    /// linearly to `0` at the distance limit and beyond.
    pub fn calculate_distance_factor(&self, distance: u32) -> (r: u16)
        ensures
            r == self@.distance_factor(distance as int),
            r <= 1000,
    {
        let limit = self.config.max_distance_threshold;
        if distance >= limit {
            return 0;
        }
        let share: u64 = ((limit - distance) as u64) * 1000 / (limit as u64);
        assert(share <= 1000) by (nonlinear_arith)
            requires
                share == ((limit - distance) * 1000) / (limit as int),
                0 <= distance < limit,
        ;
        share as u16
    }

    /// The view-angle factor, in per mille, of two directions given by
    /// components in per mille: `1000` when they agree, `0` when they are
    /// opposed. The dot product is limited to the range from minus one to
    /// one, which it cannot leave for unit vectors.
    pub fn calculate_view_angle_factor(
        &self,
        resource_direction: &[i32; 3],
        camera_direction: &[i32; 3],
    ) -> (r: u16)
        ensures
            r == view_angle_share(*resource_direction, *camera_direction),
            r <= 1000,
    {
        let x: i128 = signed_product(resource_direction[0], camera_direction[0]);
        let y: i128 = signed_product(resource_direction[1], camera_direction[1]);
        let z: i128 = signed_product(resource_direction[2], camera_direction[2]);
        let dot: i128 = x + y + z;
        let clamped: i128 = if dot < -1_000_000 {
            -1_000_000
        } else if dot > 1_000_000 {
            1_000_000
        } else {
            dot
        };
        let share: i128 = (clamped + 1_000_000) / 2000;
        share as u16
    }

    /// The screen-size factor, in per mille: the angle under which the
    /// resource is seen as a share of the vertical field of view, at most one
    /// whole. Both angles are in milliradians. A resource at distance zero,
    /// and any resource under a field of view of zero, fills the screen.
    pub fn calculate_screen_size_factor(&self, distance: u32, angular_size: u32, fov: u32) -> (r:
        u16)
        ensures
            r == if distance == 0 {
                1000
            } else {
                capped_share(angular_size as int, fov as int)
            },
            r <= 1000,
    {
        if distance == 0 {
            return 1000;
        }
        Self::share_of(angular_size, fov)
    }

    /// The movement-speed factor, in per mille: the camera's speed as a share
    /// of its maximum, at most one whole; one whole when the maximum is zero.
    pub fn calculate_movement_speed_factor(&self, camera_velocity: u32, max_velocity: u32) -> (r:
        u16)
        ensures
            r == capped_share(camera_velocity as int, max_velocity as int),
            r <= 1000,
    {
        Self::share_of(camera_velocity, max_velocity)
    }

    /// `min(part / whole, 1)` in per mille.
    fn share_of(part: u32, whole: u32) -> (r: u16)
        ensures
            r == capped_share(part as int, whole as int),
            r <= 1000,
    {
        if whole == 0 || part >= whole {
            return 1000;
        }
        let share: u64 = (part as u64) * 1000 / (whole as u64);
        assert(share <= 1000) by (nonlinear_arith)
            requires
                share == (part * 1000) / (whole as int),
                0 <= part < whole,
        ;
        share as u16
    }

    /// The recency factor, in per mille, of a resource last accessed
    /// `elapsed` nanoseconds ago: `1000` just now, falling linearly to `0` at
    /// five minutes and beyond.
    pub fn calculate_recency_factor(&self, elapsed: u128) -> (r: u16)
        ensures
            r == remaining_share(elapsed as int, RECENCY_MAX_AGE_NANOS as int),
            r <= 1000,
    {
        if elapsed >= RECENCY_MAX_AGE_NANOS {
            return 0;
        }
        let share: u128 = (RECENCY_MAX_AGE_NANOS - elapsed) * 1000 / RECENCY_MAX_AGE_NANOS;
        share as u16
    }

    /// Whether a resource of this tier should be loaded.
    pub fn should_load_resource(&self, priority: StreamingPriority) -> (r: bool)
        ensures
            r == worth_loading(priority),
    {
        priority.level() >= 2
    }

    /// Whether a resource of this tier should be unloaded at the given memory
    /// pressure (per mille of the budget in use).
    pub fn should_unload_resource(&self, priority: StreamingPriority, memory_pressure: u16) -> (r:
        bool)
        ensures
            r == worth_unloading(priority, memory_pressure as int),
    {
        if memory_pressure > 900 {
            priority.level() <= 2
        } else if memory_pressure > 700 {
            priority.level() <= 1
        } else {
            priority.level() == 0
        }
    }

    /// Replaces the weights and limits.
    pub fn update_config(&mut self, config: PriorityConfig)
        ensures
            final(self)@ == config,
    {
        self.config = config;
    }

    /// The weights and limits in use.
    pub fn get_config(&self) -> (r: &PriorityConfig)
        ensures
            *r == self@,
    {
        &self.config
    }

    /// The tier of a score given in millionths.
    pub fn priority_score_to_enum(score: u64) -> (r: StreamingPriority)
        ensures
            r == priority_of_score(score as int),
    {
        if score < 100_000 {
            StreamingPriority::Invisible
        } else if score < 200_000 {
            StreamingPriority::VeryLow
        } else if score < 400_000 {
            StreamingPriority::Low
        } else if score < 600_000 {
            StreamingPriority::Medium
        } else if score < 800_000 {
            StreamingPriority::High
        } else {
            StreamingPriority::Critical
        }
    }

    /// The importance, in per mille, that a path has by the words in it.
    pub fn get_base_importance(resource_path: &str) -> (r: u16)
        ensures
            r == base_importance_of(resource_path@),
            r <= 1000,
    {
        if str_contains(resource_path, "ui") || str_contains(resource_path, "hud") {
            1000
        } else if str_contains(resource_path, "character") || str_contains(
            resource_path,
            "player",
        ) {
            900
        } else if str_contains(resource_path, "weapon") || str_contains(resource_path, "item") {
            700
        } else if str_contains(resource_path, "environment") || str_contains(
            resource_path,
            "terrain",
        ) {
            500
        } else if str_contains(resource_path, "particle") || str_contains(
            resource_path,
            "effect",
        ) {
            300
        } else {
            500
        }
    }
}

/// A higher score never gives a lower tier.
pub proof fn lemma_priority_monotone_in_score(low: int, high: int)
    requires
        low <= high,
    ensures
        priority_of_score(low).rank() <= priority_of_score(high).rank(),
{
}

/// What is worth unloading at some memory pressure is worth unloading at
/// every higher pressure, and so is everything of a lower tier.
pub proof fn lemma_unloading_grows_with_pressure(
    priority: StreamingPriority,
    lower: StreamingPriority,
    pressure: int,
    higher_pressure: int,
)
    requires
        pressure <= higher_pressure,
        lower.rank() <= priority.rank(),
        worth_unloading(priority, pressure),
    ensures
        worth_unloading(priority, higher_pressure),
        worth_unloading(lower, pressure),
{
}

/// A resource is never both worth loading and, at a pressure of at most
/// nine tenths, worth unloading.
pub proof fn lemma_loading_excludes_unloading(priority: StreamingPriority, pressure: int)
    requires
        pressure <= 900,
    ensures
        !(worth_loading(priority) && worth_unloading(priority, pressure)),
{
}

/// With factors of at most one whole and weights that sum to one whole, the
/// weighted score is at most one whole.
pub proof fn lemma_weighted_score_bounded(config: PriorityConfig, factors: PriorityFactors)
    requires
        config.weight_sum() <= 1000,
        factors.distance_factor <= 1000,
        factors.view_angle_factor <= 1000,
        factors.screen_size_factor <= 1000,
        factors.recency_factor <= 1000,
        factors.importance_factor <= 1000,
    ensures
        0 <= config.weighted_score(factors) <= 1_000_000,
{
    assert(factors.distance_factor * config.distance_weight <= 1000 * config.distance_weight)
        by (nonlinear_arith)
        requires
            factors.distance_factor <= 1000,
    ;
    assert(factors.view_angle_factor * config.view_angle_weight <= 1000 * config.view_angle_weight)
        by (nonlinear_arith)
        requires
            factors.view_angle_factor <= 1000,
    ;
    assert(factors.screen_size_factor * config.screen_size_weight <= 1000
        * config.screen_size_weight) by (nonlinear_arith)
        requires
            factors.screen_size_factor <= 1000,
    ;
    assert(factors.recency_factor * config.recency_weight <= 1000 * config.recency_weight)
        by (nonlinear_arith)
        requires
            factors.recency_factor <= 1000,
    ;
    assert(factors.importance_factor * config.importance_weight <= 1000 * config.importance_weight)
        by (nonlinear_arith)
        requires
            factors.importance_factor <= 1000,
    ;
    let calm: int = if factors.movement_speed_factor >= 1000 {
        0
    } else {
        1000 - factors.movement_speed_factor
    };
    assert(0 <= calm * config.movement_speed_weight <= 1000 * config.movement_speed_weight)
        by (nonlinear_arith)
        requires
            0 <= calm <= 1000,
            0 <= config.movement_speed_weight,
    ;
    assert(0 <= factors.distance_factor * config.distance_weight) by (nonlinear_arith);
    assert(0 <= factors.view_angle_factor * config.view_angle_weight) by (nonlinear_arith);
    assert(0 <= factors.screen_size_factor * config.screen_size_weight) by (nonlinear_arith);
    assert(0 <= factors.recency_factor * config.recency_weight) by (nonlinear_arith);
    assert(0 <= factors.importance_factor * config.importance_weight) by (nonlinear_arith);
}

/// Counts of resources per priority tier.
#[derive(Debug, Clone, Copy)]
pub struct PriorityStats {
    pub invisible_count: u32,
    pub very_low_count: u32,
    pub low_count: u32,
    pub medium_count: u32,
    pub high_count: u32,
    pub critical_count: u32,
    pub total_resources: u32,
}

impl Default for PriorityStats {
    fn default() -> (r: PriorityStats)
        ensures
            forall|priority: StreamingPriority| r.count_of(priority) == 0,
            r.total_resources == 0,
    {
        PriorityStats {
            invisible_count: 0,
            very_low_count: 0,
            low_count: 0,
            medium_count: 0,
            high_count: 0,
            critical_count: 0,
            total_resources: 0,
        }
    }
}

impl PriorityStats {
    /// The count kept for a tier.
    pub open spec fn count_of(self, priority: StreamingPriority) -> u32 {
        match priority {
            StreamingPriority::Invisible => self.invisible_count,
            StreamingPriority::VeryLow => self.very_low_count,
            StreamingPriority::Low => self.low_count,
            StreamingPriority::Medium => self.medium_count,
            StreamingPriority::High => self.high_count,
            StreamingPriority::Critical => self.critical_count,
        }
    }

    /// Records one resource of the given tier. A counter that has reached the
    /// largest `u32` stays there.
    pub fn add_resource(&mut self, priority: StreamingPriority)
        ensures
            final(self).count_of(priority) == bumped(
                old(self).count_of(priority),
            ),
            forall|other: StreamingPriority|
                other != priority ==> final(self).count_of(other) == old(self).count_of(other),
            final(self).total_resources == bumped(
                old(self).total_resources,
            ),
    {
        match priority {
            StreamingPriority::Invisible => {
                self.invisible_count = self.invisible_count.saturating_add(1);
            },
            StreamingPriority::VeryLow => {
                self.very_low_count = self.very_low_count.saturating_add(1);
            },
            StreamingPriority::Low => {
                self.low_count = self.low_count.saturating_add(1);
            },
            StreamingPriority::Medium => {
                self.medium_count = self.medium_count.saturating_add(1);
            },
            StreamingPriority::High => {
                self.high_count = self.high_count.saturating_add(1);
            },
            StreamingPriority::Critical => {
                self.critical_count = self.critical_count.saturating_add(1);
            },
        }
        self.total_resources = self.total_resources.saturating_add(1);
    }

    /// The share of recorded resources of a tier, in whole percent rounded
    /// down; zero when nothing was recorded.
    pub fn get_priority_percentage(&self, priority: StreamingPriority) -> (r: u64)
        ensures
            r == if self.total_resources == 0 {
                0
            } else {
                self.count_of(priority) * 100 / (self.total_resources as int)
            },
    {
        if self.total_resources == 0 {
            return 0;
        }
        let count = match priority {
            StreamingPriority::Invisible => self.invisible_count,
            StreamingPriority::VeryLow => self.very_low_count,
            StreamingPriority::Low => self.low_count,
            StreamingPriority::Medium => self.medium_count,
            StreamingPriority::High => self.high_count,
            StreamingPriority::Critical => self.critical_count,
        };
        (count as u64) * 100 / (self.total_resources as u64)
    }

    /// The number of recorded resources that are not invisible; zero where
    /// the invisible count exceeds the total.
    pub fn get_active_resources(&self) -> (r: u32)
        ensures
            r == if self.total_resources >= self.invisible_count {
                self.total_resources - self.invisible_count
            } else {
                0
            },
    {
        self.total_resources.saturating_sub(self.invisible_count)
    }
}

} // verus!
