//! Culling decisions: which triangles are left out of a frame, by which
//! test, and the statistics of those decisions.
//!
//! The geometric measures of a triangle are taken by the caller and handed
//! over as integers: the facing and the view angle in millionths, the world
//! area in square millimetres, the screen area in thousandths of a pixel,
//! the distance in millimetres.

use vstd::prelude::*;
use crate::counters::{bumped, percent_of};

verus! {

/// How an object that was culled is hidden.
#[derive(Debug, Clone, Copy, PartialEq, Eq, Structural)]
pub enum CullingMethod {
    /// Make the object invisible by setting its emissive multiplier to zero.
    EmissiveMultiplier,
    /// Move the object far away from the scene.
    MoveAway,
    /// Scale the object to zero size.
    ScaleToZero,
}

impl Default for CullingMethod {
    fn default() -> (r: CullingMethod)
        ensures
            r == CullingMethod::MoveAway,
    {
        CullingMethod::MoveAway
    }
}

/// Settings of frustum culling.
#[derive(Debug, Clone, Copy)]
pub struct FrustumCullingConfig {
    pub enabled: bool,
    pub debug_logging: bool,
    pub log_interval_frames: u32,
    /// Size, in millimetres, taken for objects without a bounding box.
    pub default_object_size: u32,
    pub use_sphere_culling: bool,
    pub culling_method: CullingMethod,
}

impl Default for FrustumCullingConfig {
    fn default() -> (r: FrustumCullingConfig)
        ensures
            r.enabled,
            !r.debug_logging,
            r.log_interval_frames == 120,
            r.default_object_size == 2000,
            !r.use_sphere_culling,
            r.culling_method == CullingMethod::MoveAway,
    {
        FrustumCullingConfig {
            enabled: true,
            debug_logging: false,
            log_interval_frames: 120,
            default_object_size: 2000,
            use_sphere_culling: false,
            culling_method: CullingMethod::MoveAway,
        }
    }
}

/// Where a volume lies with respect to a frustum.
#[derive(Debug, Clone, Copy, PartialEq, Eq, Structural)]
pub enum IntersectionResult {
    Outside,
    Intersecting,
    Inside,
}

/// A test by which single triangles are culled.
#[derive(Debug, Clone, Copy, PartialEq, Eq, Structural)]
pub enum PrimitiveCullingMethod {
    /// Cull faces that point away from the camera.
    BackFace,
    /// Cull triangles that cover too little of the screen.
    SmallTriangle,
    /// Cull degenerate triangles.
    ZeroArea,
    /// Cull by distance and view angle.
    ViewDependent,
    /// Apply all tests.
    Combined,
}

/// Settings of triangle culling.
#[derive(Debug, Clone)]
pub struct TriangleCullingConfig {
    pub enabled: bool,
    pub methods: Vec<PrimitiveCullingMethod>,
    /// Facing, in millionths, up to which a triangle counts as back-facing.
    pub backface_epsilon: i32,
    /// Smallest screen area, in thousandths of a pixel, that is drawn.
    pub min_triangle_area: u64,
    /// Smallest world area, in square millimetres, that is drawn.
    pub min_world_area: u64,
    /// World area, in square millimetres, under which a triangle is degenerate.
    pub degenerate_epsilon: u64,
    /// Distance, in millimetres, beyond which triangles are culled.
    pub max_distance: u32,
    /// View angle, in millionths, under which triangles are culled.
    pub angle_threshold: u32,
    pub debug_logging: bool,
    pub log_interval_frames: u32,
}

impl Default for TriangleCullingConfig {
    fn default() -> (r: TriangleCullingConfig)
        ensures
            r.enabled,
            r.methods@ == seq![
                PrimitiveCullingMethod::BackFace,
                PrimitiveCullingMethod::ZeroArea,
                PrimitiveCullingMethod::SmallTriangle,
            ],
            r.backface_epsilon == 1000,
            r.min_triangle_area == 4000,
            r.min_world_area == 100,
            r.degenerate_epsilon == 100,
            r.max_distance == 1_000_000,
            r.angle_threshold == 100_000,
            !r.debug_logging,
            r.log_interval_frames == 60,
    {
        let mut methods: Vec<PrimitiveCullingMethod> = Vec::new();
        methods.push(PrimitiveCullingMethod::BackFace);
        methods.push(PrimitiveCullingMethod::ZeroArea);
        methods.push(PrimitiveCullingMethod::SmallTriangle);
        assert(methods@ =~= seq![
            PrimitiveCullingMethod::BackFace,
            PrimitiveCullingMethod::ZeroArea,
            PrimitiveCullingMethod::SmallTriangle,
        ]);
        TriangleCullingConfig {
            enabled: true,
            methods,
            backface_epsilon: 1000,
            min_triangle_area: 4000,
            min_world_area: 100,
            degenerate_epsilon: 100,
            max_distance: 1_000_000,
            angle_threshold: 100_000,
            debug_logging: false,
            log_interval_frames: 60,
        }
    }
}

/// Counts of the triangles that were tested, culled by each test, and drawn.
#[derive(Debug, Clone, Copy, PartialEq, Eq, Structural)]
pub struct TriangleCullingStats {
    pub triangles_tested: u32,
    pub backface_culled: u32,
    pub small_triangle_culled: u32,
    pub degenerate_culled: u32,
    pub view_dependent_culled: u32,
    pub triangles_rendered: u32,
    pub total_culled: u32,
}

impl TriangleCullingStats {
    /// The counts with everything at zero.
    pub open spec fn zero() -> TriangleCullingStats {
        TriangleCullingStats {
            triangles_tested: 0,
            backface_culled: 0,
            small_triangle_culled: 0,
            degenerate_culled: 0,
            view_dependent_culled: 0,
            triangles_rendered: 0,
            total_culled: 0,
        }
    }

    /// The counts after a triangle met the given fate.
    pub open spec fn record(self, verdict: CullVerdict) -> TriangleCullingStats {
        let tested = TriangleCullingStats {
            triangles_tested: bumped(self.triangles_tested),
            ..self
        };
        match verdict {
            CullVerdict::Rendered => TriangleCullingStats {
                triangles_rendered: bumped(self.triangles_rendered),
                ..tested
            },
            CullVerdict::BackFace => TriangleCullingStats {
                backface_culled: bumped(self.backface_culled),
                total_culled: bumped(self.total_culled),
                ..tested
            },
            CullVerdict::Degenerate => TriangleCullingStats {
                degenerate_culled: bumped(self.degenerate_culled),
                total_culled: bumped(self.total_culled),
                ..tested
            },
            CullVerdict::Small => TriangleCullingStats {
                small_triangle_culled: bumped(self.small_triangle_culled),
                total_culled: bumped(self.total_culled),
                ..tested
            },
            CullVerdict::ViewDependent => TriangleCullingStats {
                view_dependent_culled: bumped(self.view_dependent_culled),
                total_culled: bumped(self.total_culled),
                ..tested
            },
        }
    }

    /// Sets every count to zero.
    pub fn reset(&mut self)
        ensures
            *final(self) == TriangleCullingStats::zero(),
    {
        *self = TriangleCullingStats::default();
    }

    /// The share of tested triangles that were culled, in whole percent
    /// rounded down; zero where none was tested.
    pub fn culling_efficiency(&self) -> (r: u64)
        ensures
            r == percent_of(self.total_culled as int, self.triangles_tested as int),
    {
        if self.triangles_tested == 0 {
            0
        } else {
            (self.total_culled as u64) * 100 / (self.triangles_tested as u64)
        }
    }
}

impl Default for TriangleCullingStats {
    fn default() -> (r: TriangleCullingStats)
        ensures
            r == TriangleCullingStats::zero(),
    {
        TriangleCullingStats {
            triangles_tested: 0,
            backface_culled: 0,
            small_triangle_culled: 0,
            degenerate_culled: 0,
            view_dependent_culled: 0,
            triangles_rendered: 0,
            total_culled: 0,
        }
    }
}

/// The measures of a triangle that the tests read.
#[derive(Debug, Clone, Copy, PartialEq, Eq, Structural)]
pub struct TriangleMeasures {
    /// The dot product of the face normal and the direction to the camera,
    /// in millionths.
    pub facing: i32,
    /// The area in the world, in square millimetres.
    pub world_area: u64,
    /// The area on the screen, in thousandths of a pixel.
    pub screen_area: u64,
    /// The distance from the camera, in millimetres.
    pub distance: u32,
}

/// What became of a triangle.
#[derive(Debug, Clone, Copy, PartialEq, Eq, Structural)]
pub enum CullVerdict {
    Rendered,
    BackFace,
    Degenerate,
    Small,
    ViewDependent,
}

/// What a culling configuration holds.
pub struct CullingConfigView {
    pub enabled: bool,
    pub methods: Seq<PrimitiveCullingMethod>,
    pub backface_epsilon: i32,
    pub min_triangle_area: u64,
    pub min_world_area: u64,
    pub degenerate_epsilon: u64,
    pub max_distance: u32,
    pub angle_threshold: u32,
    pub debug_logging: bool,
    pub log_interval_frames: u32,
}

impl View for TriangleCullingConfig {
    type V = CullingConfigView;

    open spec fn view(&self) -> CullingConfigView {
        CullingConfigView {
            enabled: self.enabled,
            methods: self.methods@,
            backface_epsilon: self.backface_epsilon,
            min_triangle_area: self.min_triangle_area,
            min_world_area: self.min_world_area,
            degenerate_epsilon: self.degenerate_epsilon,
            max_distance: self.max_distance,
            angle_threshold: self.angle_threshold,
            debug_logging: self.debug_logging,
            log_interval_frames: self.log_interval_frames,
        }
    }
}

/// The size of a number without its sign.
pub open spec fn magnitude(value: int) -> int {
    if value < 0 {
        -value
    } else {
        value
    }
}

impl CullingConfigView {
    /// Whether a test is switched on: it is listed, or all tests are.
    pub open spec fn uses(self, method: PrimitiveCullingMethod) -> bool {
        self.methods.contains(method) || self.methods.contains(PrimitiveCullingMethod::Combined)
    }

    /// Whether the back-face test culls the triangle.
    pub open spec fn is_backface(self, measures: TriangleMeasures) -> bool {
        self.uses(PrimitiveCullingMethod::BackFace) && measures.facing <= self.backface_epsilon
    }

    /// Whether the test for degenerate triangles culls the triangle.
    pub open spec fn is_degenerate(self, measures: TriangleMeasures) -> bool {
        self.uses(PrimitiveCullingMethod::ZeroArea) && (measures.world_area
            < self.degenerate_epsilon || measures.world_area < self.min_world_area)
    }

    /// Whether the test for small triangles culls the triangle.
    pub open spec fn is_small(self, measures: TriangleMeasures) -> bool {
        self.uses(PrimitiveCullingMethod::SmallTriangle) && measures.screen_area
            < self.min_triangle_area
    }

    /// Whether the view-dependent test culls the triangle: it is too far
    /// away, or seen under too flat an angle.
    pub open spec fn is_view_dependent(self, measures: TriangleMeasures) -> bool {
        self.uses(PrimitiveCullingMethod::ViewDependent) && (measures.distance > self.max_distance
            || magnitude(measures.facing as int) < self.angle_threshold)
    }

    /// What becomes of a triangle: the first test that culls it, in the
    /// order back face, degenerate, small, view-dependent, or that it is drawn.
    pub open spec fn verdict(self, measures: TriangleMeasures) -> CullVerdict {
        if self.is_backface(measures) {
            CullVerdict::BackFace
        } else if self.is_degenerate(measures) {
            CullVerdict::Degenerate
        } else if self.is_small(measures) {
            CullVerdict::Small
        } else if self.is_view_dependent(measures) {
            CullVerdict::ViewDependent
        } else {
            CullVerdict::Rendered
        }
    }
}

/// The state of a culler.
pub struct CullerView {
    pub config: CullingConfigView,
    pub statistics: TriangleCullingStats,
    pub frame_count: u32,
}

impl CullerView {
    /// The culler after it judged a triangle: with culling switched off
    /// nothing is counted.
    pub open spec fn judge(self, measures: TriangleMeasures) -> CullerView {
        if self.config.enabled {
            CullerView {
                statistics: self.statistics.record(self.config.verdict(measures)),
                ..self
            }
        } else {
            self
        }
    }

    /// Whether the culler culls the triangle.
    pub open spec fn culls(self, measures: TriangleMeasures) -> bool {
        self.config.enabled && self.config.verdict(measures) != CullVerdict::Rendered
    }

    /// The culler after it judged the triangles in order.
    pub open spec fn judge_all(self, triangles: Seq<TriangleMeasures>) -> CullerView
        decreases triangles.len(),
    {
        if triangles.len() == 0 {
            self
        } else {
            self.judge_all(triangles.drop_last()).judge(triangles.last())
        }
    }

    /// The positions of the triangles that are drawn, in order.
    pub open spec fn visible(self, triangles: Seq<TriangleMeasures>) -> Seq<usize>
        decreases triangles.len(),
    {
        if triangles.len() == 0 {
            Seq::empty()
        } else {
            let rest = self.visible(triangles.drop_last());
            if self.culls(triangles.last()) {
                rest
            } else {
                rest.push((triangles.len() - 1) as usize)
            }
        }
    }

    /// Whether the statistics are due to be logged at the end of a frame:
    /// logging is on, the frame count has reached a multiple of the
    /// interval, and triangles were tested.
    pub open spec fn log_due(self) -> bool {
        self.config.debug_logging && self.config.log_interval_frames > 0 && self.frame_count
            % self.config.log_interval_frames == 0 && self.statistics.triangles_tested > 0
    }
}

/// Judging triangles changes neither the settings nor the frame count.
pub proof fn lemma_judge_all_keeps_config(culler: CullerView, triangles: Seq<TriangleMeasures>)
    ensures
        culler.judge_all(triangles).config == culler.config,
        culler.judge_all(triangles).frame_count == culler.frame_count,
    decreases triangles.len(),
{
    if triangles.len() > 0 {
        lemma_judge_all_keeps_config(culler, triangles.drop_last());
    }
}

/// Culls single triangles and keeps count.
#[derive(Debug)]
pub struct TriangleCuller {
    config: TriangleCullingConfig,
    statistics: TriangleCullingStats,
    frame_count: u32,
}

impl View for TriangleCuller {
    type V = CullerView;

    closed spec fn view(&self) -> CullerView {
        CullerView {
            config: self.config@,
            statistics: self.statistics,
            frame_count: self.frame_count,
        }
    }
}

impl TriangleCuller {
    /// A culler with the given settings and all counts at zero.
    pub fn new(config: TriangleCullingConfig) -> (r: TriangleCuller)
        ensures
            r@.config == config@,
            r@.statistics == TriangleCullingStats::zero(),
            r@.frame_count == 0,
    {
        TriangleCuller { config, statistics: TriangleCullingStats::default(), frame_count: 0 }
    }

    /// Replaces the settings.
    pub fn update_config(&mut self, config: TriangleCullingConfig)
        ensures
            final(self)@ == (CullerView { config: config@, ..old(self)@ }),
    {
        self.config = config;
    }

    /// Whether a test is switched on.
    pub fn uses_method(&self, method: PrimitiveCullingMethod) -> (r: bool)
        ensures
            r == self@.config.uses(method),
    {
        let mut found = false;
        let mut i: usize = 0;
        while i < self.config.methods.len()
            invariant
                i <= self.config.methods.len(),
                found == (exists|k: int|
                    0 <= k < i && (self.config.methods@[k] == method || self.config.methods@[k]
                        == PrimitiveCullingMethod::Combined)),
            decreases self.config.methods.len() - i,
        {
            let listed = self.config.methods[i];
            if listed == method || listed == PrimitiveCullingMethod::Combined {
                found = true;
            }
            i += 1;
        }
        proof {
            let methods = self.config.methods@;
            if found {
                let k = choose|k: int|
                    0 <= k < methods.len() && (methods[k] == method || methods[k]
                        == PrimitiveCullingMethod::Combined);
                assert(methods.contains(methods[k]));
            } else {
                if methods.contains(method) {
                    let k = choose|k: int| 0 <= k < methods.len() && methods[k] == method;
                    assert(methods[k] == method);
                }
                if methods.contains(PrimitiveCullingMethod::Combined) {
                    let k = choose|k: int|
                        0 <= k < methods.len() && methods[k] == PrimitiveCullingMethod::Combined;
                    assert(methods[k] == PrimitiveCullingMethod::Combined);
                }
            }
        }
        found
    }

    /// Whether the back-face test culls the triangle.
    pub fn is_backface(&self, measures: &TriangleMeasures) -> (r: bool)
        ensures
            r == self@.config.is_backface(*measures),
    {
        self.uses_method(PrimitiveCullingMethod::BackFace) && measures.facing
            <= self.config.backface_epsilon
    }

    /// Whether the test for small triangles culls the triangle.
    pub fn is_small_triangle(&self, measures: &TriangleMeasures) -> (r: bool)
        ensures
            r == self@.config.is_small(*measures),
    {
        self.uses_method(PrimitiveCullingMethod::SmallTriangle) && measures.screen_area
            < self.config.min_triangle_area
    }

    /// Whether the test for degenerate triangles culls the triangle.
    pub fn is_degenerate_triangle(&self, measures: &TriangleMeasures) -> (r: bool)
        ensures
            r == self@.config.is_degenerate(*measures),
    {
        self.uses_method(PrimitiveCullingMethod::ZeroArea) && (measures.world_area
            < self.config.degenerate_epsilon || measures.world_area < self.config.min_world_area)
    }

    /// Whether the view-dependent test culls the triangle.
    pub fn is_view_dependent_culled(&self, measures: &TriangleMeasures) -> (r: bool)
        ensures
            r == self@.config.is_view_dependent(*measures),
    {
        if !self.uses_method(PrimitiveCullingMethod::ViewDependent) {
            return false;
        }
        if measures.distance > self.config.max_distance {
            return true;
        }
        let angle: i64 = if measures.facing < 0 {
            -(measures.facing as i64)
        } else {
            measures.facing as i64
        };
        angle < self.config.angle_threshold as i64
    }

    /// Judges a triangle, counts what became of it, and says whether it is
    /// culled.
    pub fn should_cull_triangle(&mut self, measures: &TriangleMeasures) -> (r: bool)
        ensures
            final(self)@ == old(self)@.judge(*measures),
            r == old(self)@.culls(*measures),
    {
        if !self.config.enabled {
            return false;
        }
        self.statistics.triangles_tested = self.statistics.triangles_tested.saturating_add(1);
        if self.is_backface(measures) {
            self.statistics.backface_culled = self.statistics.backface_culled.saturating_add(1);
            self.statistics.total_culled = self.statistics.total_culled.saturating_add(1);
            return true;
        }
        if self.is_degenerate_triangle(measures) {
            self.statistics.degenerate_culled = self.statistics.degenerate_culled.saturating_add(
                1,
            );
            self.statistics.total_culled = self.statistics.total_culled.saturating_add(1);
            return true;
        }
        if self.is_small_triangle(measures) {
            self.statistics.small_triangle_culled =
            self.statistics.small_triangle_culled.saturating_add(1);
            self.statistics.total_culled = self.statistics.total_culled.saturating_add(1);
            return true;
        }
        if self.is_view_dependent_culled(measures) {
            self.statistics.view_dependent_culled =
            self.statistics.view_dependent_culled.saturating_add(1);
            self.statistics.total_culled = self.statistics.total_culled.saturating_add(1);
            return true;
        }
        self.statistics.triangles_rendered = self.statistics.triangles_rendered.saturating_add(1);
        false
    }

    /// Judges the triangles in order and returns the positions of those
    /// that are drawn.
    pub fn cull_triangles(&mut self, triangles: &Vec<TriangleMeasures>) -> (r: Vec<usize>)
        ensures
            final(self)@ == old(self)@.judge_all(triangles@),
            r@ == old(self)@.visible(triangles@),
    {
        let mut kept: Vec<usize> = Vec::new();
        let mut i: usize = 0;
        assert(triangles@.subrange(0, 0) =~= Seq::empty());
        while i < triangles.len()
            invariant
                i <= triangles.len(),
                self@ == old(self)@.judge_all(triangles@.subrange(0, i as int)),
                kept@ == old(self)@.visible(triangles@.subrange(0, i as int)),
            decreases triangles.len() - i,
        {
            proof {
                let next = triangles@.subrange(0, i + 1);
                assert(next.drop_last() =~= triangles@.subrange(0, i as int));
                assert(next.last() == triangles@[i as int]);
                lemma_judge_all_keeps_config(old(self)@, triangles@.subrange(0, i as int));
            }
            if !self.should_cull_triangle(&triangles[i]) {
                kept.push(i);
            }
            i += 1;
        }
        assert(triangles@.subrange(0, i as int) =~= triangles@);
        kept
    }

    /// Ends a frame: counts it, and says whether the statistics are due to
    /// be logged.
    pub fn end_frame(&mut self) -> (r: bool)
        ensures
            final(self)@ == (CullerView { frame_count: bumped(old(self)@.frame_count), ..old(self)@ }),
            r == final(self)@.log_due(),
    {
        self.frame_count = self.frame_count.saturating_add(1);
        self.config.debug_logging && self.config.log_interval_frames > 0 && self.frame_count
            % self.config.log_interval_frames == 0 && self.statistics.triangles_tested > 0
    }

    /// The counts so far.
    pub fn get_statistics(&self) -> (r: &TriangleCullingStats)
        ensures
            *r == self@.statistics,
    {
        &self.statistics
    }

    /// Sets the counts and the frame count to zero.
    pub fn reset_statistics(&mut self)
        ensures
            final(self)@ == (CullerView {
                statistics: TriangleCullingStats::zero(),
                frame_count: 0,
                ..old(self)@
            }),
    {
        self.statistics.reset();
        self.frame_count = 0;
    }
}

/// The corner indices of the triangles of an index list: each full group of
/// three whose indices all point at a vertex, in order. A group with an index
/// out of range, and indices left over at the end, are passed over.
pub open spec fn triangles_of(vertex_count: usize, indices: Seq<u32>, groups: int) -> Seq<
    [usize; 3],
>
    decreases groups,
{
    if groups <= 0 {
        Seq::empty()
    } else {
        let rest = triangles_of(vertex_count, indices, groups - 1);
        let at = 3 * (groups - 1);
        if indices[at] < vertex_count && indices[at + 1] < vertex_count && indices[at + 2]
            < vertex_count {
            rest.push([indices[at] as usize, indices[at + 1] as usize, indices[at + 2] as usize])
        } else {
            rest
        }
    }
}

/// The corner indices of the triangles of a mesh with the given number of
/// vertices and the given index list.
pub fn extract_triangles_from_mesh(vertex_count: usize, indices: &Vec<u32>) -> (r: Vec<[usize; 3]>)
    ensures
        r@ == triangles_of(vertex_count, indices@, indices@.len() as int / 3),
{
    let mut triangles: Vec<[usize; 3]> = Vec::new();
    let groups = indices.len() / 3;
    let mut group: usize = 0;
    while group < groups
        invariant
            groups == indices@.len() as int / 3,
            3 * groups <= indices@.len() <= usize::MAX,
            group <= groups,
            triangles@ == triangles_of(vertex_count, indices@, group as int),
        decreases groups - group,
    {
        let at = 3 * group;
        let i0 = indices[at] as usize;
        let i1 = indices[at + 1] as usize;
        let i2 = indices[at + 2] as usize;
        if i0 < vertex_count && i1 < vertex_count && i2 < vertex_count {
            triangles.push([i0, i1, i2]);
        }
        group += 1;
    }
    triangles
}

} // verus!
