//! Occlusion culling: a coarse depth buffer into which occluders are drawn
//! as rectangles, and the test whether any sample of an object is nearer
//! than what was drawn.
//!
//! Depths are whole numbers that grow with the distance from the camera;
//! the largest `u32` stands for a pixel on which nothing was drawn. Lengths
//! are whole millimetres. The projection of points on the screen is done by
//! the caller.

use vstd::prelude::*;
use crate::geometry::{clamped, half_of, Aabb, Point};
use crate::counters::{percent, percent_of};

verus! {

/// The depth of a pixel on which nothing was drawn.
pub const EMPTY_DEPTH: u32 = u32::MAX;

/// The greatest number of sample points of an object.
pub const MAX_SAMPLES: u32 = 8;

/// The length, in millimetres, above which the diagonal of a box makes it
/// an occluder.
pub const MIN_OCCLUDER_DIAGONAL: u64 = 1000;

/// The state of a depth buffer: its rows from top to bottom.
pub struct DepthBufferView {
    pub width: u32,
    pub height: u32,
    pub rows: Seq<Seq<u32>>,
}

impl DepthBufferView {
    /// The invariant of a depth buffer: it has `height` rows of `width` pixels.
    pub open spec fn wf(self) -> bool {
        &&& self.rows.len() == self.height
        &&& forall|y: int| 0 <= y < self.height ==> (#[trigger] self.rows[y]).len() == self.width
    }

    /// Whether the buffer has a pixel at the position.
    pub open spec fn has(self, x: int, y: int) -> bool {
        0 <= x < self.width && 0 <= y < self.height
    }

    /// The depth at a position.
    pub open spec fn at(self, x: int, y: int) -> u32 {
        self.rows[y][x]
    }

    /// Whether nothing was drawn on the buffer.
    pub open spec fn blank(self) -> bool {
        forall|x: int, y: int| self.has(x, y) ==> #[trigger] self.at(x, y) == EMPTY_DEPTH
    }

    /// Whether `after` is this buffer with `depth` drawn on the pixels
    /// between the given corners, both included: there, the nearer of the
    /// old depth and `depth` stands; everywhere else nothing changed.
    pub open spec fn drawn(
        self,
        after: DepthBufferView,
        min_x: int,
        max_x: int,
        min_y: int,
        max_y: int,
        depth: u32,
    ) -> bool {
        &&& after.width == self.width
        &&& after.height == self.height
        &&& after.wf()
        &&& forall|x: int, y: int|
            self.has(x, y) ==> #[trigger] after.at(x, y) == if min_x <= x <= max_x && min_y <= y
                <= max_y && depth < self.at(x, y) {
                depth
            } else {
                self.at(x, y)
            }
    }

    /// The number of pixels of the first `count` rows on which something
    /// was drawn.
    pub open spec fn filled(self, count: int) -> int
        decreases count,
    {
        if count <= 0 {
            0
        } else {
            self.filled(count - 1) + self.rows[count - 1].filter(
                |depth: u32| depth < EMPTY_DEPTH,
            ).len()
        }
    }
}

/// A depth buffer.
#[derive(Debug, Clone)]
pub struct DepthBuffer {
    width: u32,
    height: u32,
    rows: Vec<Vec<u32>>,
}

impl View for DepthBuffer {
    type V = DepthBufferView;

    closed spec fn view(&self) -> DepthBufferView {
        DepthBufferView {
            width: self.width,
            height: self.height,
            rows: Seq::new(self.rows@.len(), |y: int| self.rows@[y]@),
        }
    }
}

impl DepthBuffer {
    /// The invariant that every operation keeps: see [`DepthBufferView::wf`].
    pub open spec fn wf(&self) -> bool {
        self@.wf()
    }

    /// In a well-formed buffer every row is as long as the buffer is wide.
    proof fn lemma_row(&self, y: int)
        requires
            self.wf(),
            0 <= y < self.height,
        ensures
            self.rows@.len() == self.height,
            self.rows@[y]@.len() == self.width,
            self@.rows[y] == self.rows@[y]@,
    {
        assert(self@.rows[y].len() == self.width);
    }

    /// A row of `width` pixels on which nothing was drawn.
    fn empty_row(width: u32) -> (r: Vec<u32>)
        ensures
            r@.len() == width,
            forall|x: int| 0 <= x < width ==> r@[x] == EMPTY_DEPTH,
    {
        let mut row: Vec<u32> = Vec::new();
        let mut x: u32 = 0;
        while x < width
            invariant
                x <= width,
                row@.len() == x,
                forall|k: int| 0 <= k < x ==> row@[k] == EMPTY_DEPTH,
            decreases width - x,
        {
            row.push(EMPTY_DEPTH);
            x += 1;
        }
        row
    }

    /// A buffer of the given size on which nothing was drawn.
    pub fn new(width: u32, height: u32) -> (r: DepthBuffer)
        ensures
            r.wf(),
            r@.width == width,
            r@.height == height,
            r@.blank(),
    {
        let mut rows: Vec<Vec<u32>> = Vec::new();
        let mut y: u32 = 0;
        while y < height
            invariant
                y <= height,
                rows@.len() == y,
                forall|k: int| 0 <= k < y ==> (#[trigger] rows@[k])@.len() == width,
                forall|k: int, x: int|
                    0 <= k < y && 0 <= x < width ==> #[trigger] rows@[k]@[x] == EMPTY_DEPTH,
            decreases height - y,
        {
            rows.push(Self::empty_row(width));
            y += 1;
        }
        DepthBuffer { width, height, rows }
    }

    /// The width in pixels.
    pub fn width(&self) -> (r: u32)
        ensures
            r == self@.width,
    {
        self.width
    }

    /// The height in pixels.
    pub fn height(&self) -> (r: u32)
        ensures
            r == self@.height,
    {
        self.height
    }

    /// Takes everything off the buffer.
    pub fn clear(&mut self)
        requires
            old(self).wf(),
        ensures
            final(self).wf(),
            final(self)@.width == old(self)@.width,
            final(self)@.height == old(self)@.height,
            final(self)@.blank(),
    {
        let fresh = DepthBuffer::new(self.width, self.height);
        self.rows = fresh.rows;
    }

    /// The depth at a position; nothing outside the buffer.
    pub fn get_depth(&self, x: u32, y: u32) -> (r: Option<u32>)
        requires
            self.wf(),
        ensures
            r == if self@.has(x as int, y as int) {
                Some(self@.at(x as int, y as int))
            } else {
                None
            },
    {
        if x < self.width && y < self.height {
            proof {
                self.lemma_row(y as int);
            }
            Some(self.rows[y as usize][x as usize])
        } else {
            None
        }
    }

    /// Draws a depth on a pixel: the nearer of the old and the new depth
    /// stands. Outside the buffer nothing happens.
    pub fn set_depth(&mut self, x: u32, y: u32, depth: u32)
        requires
            old(self).wf(),
        ensures
            old(self)@.drawn(final(self)@, x as int, x as int, y as int, y as int, depth),
    {
        if x < self.width && y < self.height {
            proof {
                self.lemma_row(y as int);
            }
            if depth < self.rows[y as usize][x as usize] {
                let ghost before = self@;
                self.rows[y as usize][x as usize] = depth;
                proof {
                    assert forall|row: int| 0 <= row < self.height implies (
                    #[trigger] self@.rows[row]).len() == self.width by {
                        if row != y {
                            assert(self@.rows[row] == before.rows[row]);
                        }
                    }
                    assert forall|px: int, py: int| before.has(px, py) implies #[trigger] self@.at(
                        px,
                        py,
                    ) == if px == x && py == y && depth < before.at(px, py) {
                        depth
                    } else {
                        before.at(px, py)
                    } by {
                        if py != y {
                            assert(self@.rows[py] == before.rows[py]);
                        }
                    }
                }
            }
        }
    }

    /// Draws a depth on the pixels between the given corners, both
    /// included, as far as they lie on the buffer.
    pub fn rasterize_occluder(&mut self, min_x: u32, max_x: u32, min_y: u32, max_y: u32, depth: u32)
        requires
            old(self).wf(),
        ensures
            old(self)@.drawn(
                final(self)@,
                min_x as int,
                max_x as int,
                min_y as int,
                max_y as int,
                depth,
            ),
    {
        let mut y: u32 = 0;
        while y < self.height
            invariant
                y <= self.height,
                old(self)@.drawn(
                    self@,
                    min_x as int,
                    max_x as int,
                    min_y as int,
                    if y - 1 < max_y {
                        y - 1
                    } else {
                        max_y as int
                    },
                    depth,
                ),
            decreases self.height - y,
        {
            if min_y <= y && y <= max_y {
                let ghost row_start = self@;
                let mut x: u32 = 0;
                while x < self.width
                    invariant
                        y < self.height,
                        x <= self.width,
                        min_y <= y <= max_y,
                        row_start.wf(),
                        old(self)@.drawn(
                            row_start,
                            min_x as int,
                            max_x as int,
                            min_y as int,
                            y - 1,
                            depth,
                        ),
                        row_start.drawn(
                            self@,
                            min_x as int,
                            if x - 1 < max_x {
                                x - 1
                            } else {
                                max_x as int
                            },
                            y as int,
                            y as int,
                            depth,
                        ),
                    decreases self.width - x,
                {
                    if min_x <= x && x <= max_x {
                        self.set_depth(x, y, depth);
                    }
                    x += 1;
                }
            }
            y += 1;
        }
    }

    /// The number of pixels on which something was drawn.
    pub fn filled_pixels(&self) -> (r: u64)
        requires
            self.wf(),
        ensures
            r == self@.filled(self@.height as int),
            r <= self@.width * self@.height,
    {
        let mut filled: u64 = 0;
        let mut y: u32 = 0;
        assert(0 * self.width == 0) by (nonlinear_arith);
        while y < self.height
            invariant
                self.wf(),
                y <= self.height,
                filled == self@.filled(y as int),
                filled <= y * self.width,
            decreases self.height - y,
        {
            proof {
                self.lemma_row(y as int);
            }
            let row = &self.rows[y as usize];
            let ghost cells = row@;
            let mut in_row: u32 = 0;
            let mut x: u32 = 0;
            assert(cells.subrange(0, 0) =~= Seq::empty());
            while x < self.width
                invariant
                    x <= self.width,
                    cells == row@,
                    cells.len() == self.width,
                    in_row <= x,
                    in_row == cells.subrange(0, x as int).filter(
                        |depth: u32| depth < EMPTY_DEPTH,
                    ).len(),
                decreases self.width - x,
            {
                proof {
                    assert(cells.subrange(0, x + 1) =~= cells.subrange(0, x as int).push(
                        cells[x as int],
                    ));
                    cells.subrange(0, x as int).lemma_filter_push(
                        cells[x as int],
                        |depth: u32| depth < EMPTY_DEPTH,
                    );
                }
                if row[x as usize] < EMPTY_DEPTH {
                    in_row += 1;
                }
                x += 1;
            }
            assert(cells.subrange(0, x as int) =~= cells);
            assert(cells == self@.rows[y as int]);
            assert((y + 1) * self.width == y * self.width + self.width) by (nonlinear_arith);
            assert(y * self.width + self.width <= u64::MAX) by (nonlinear_arith)
                requires
                    0 <= y <= u32::MAX,
                    0 <= self.width <= u32::MAX,
            ;
            filled = filled + in_row as u64;
            y += 1;
        }
        assert(self.height * self.width == self.width * self.height) by (nonlinear_arith);
        filled
    }
}

/// Settings of occlusion culling.
#[derive(Debug, Clone, Copy, PartialEq, Eq, Structural)]
pub struct OcclusionCullingConfig {
    pub enabled: bool,
    /// Width and height of the depth buffer, in pixels.
    pub depth_buffer_resolution: u32,
    /// The depth by which a sample may lie behind an occluder and still be seen.
    pub depth_bias: u32,
    /// The number of sample points per object.
    pub sample_count: u32,
    pub debug_visualize: bool,
    /// The depth from which on boxes are not taken for occluders.
    pub max_test_distance: u32,
}

impl Default for OcclusionCullingConfig {
    fn default() -> (r: OcclusionCullingConfig)
        ensures
            r.enabled,
            r.depth_buffer_resolution == 128,
            r.depth_bias == 10,
            r.sample_count == 4,
            !r.debug_visualize,
            r.max_test_distance == 1_000_000,
    {
        OcclusionCullingConfig {
            enabled: true,
            depth_buffer_resolution: 128,
            depth_bias: 10,
            sample_count: 4,
            debug_visualize: false,
            max_test_distance: 1_000_000,
        }
    }
}

/// A point on the screen: its pixel and its depth.
#[derive(Debug, Clone, Copy, PartialEq, Eq, Structural)]
pub struct ScreenPoint {
    pub x: u32,
    pub y: u32,
    pub depth: u32,
}

/// Figures of occlusion culling.
#[derive(Debug, Clone, Copy, PartialEq, Eq, Structural)]
pub struct OcclusionCullingStatistics {
    pub total_occluders: usize,
    pub depth_buffer_resolution: u32,
    /// The share of the depth buffer on which something was drawn, in whole percent.
    pub depth_buffer_usage: u64,
}

/// Whether a sample can be seen: it was projected on a pixel of the
/// buffer, and lies less than the bias behind what was drawn there.
pub open spec fn sample_visible(buffer: DepthBufferView, bias: u32, sample: Option<ScreenPoint>) -> bool {
    match sample {
        Some(point) => buffer.has(point.x as int, point.y as int) && point.depth < buffer.at(
            point.x as int,
            point.y as int,
        ) + bias,
        None => false,
    }
}

/// Whether a box is taken for an occluder: its centre lies nearer than the
/// greatest test distance, and its diagonal is longer than one metre.
pub open spec fn effective_occluder(max_test_distance: u32, center_depth: u32, bounds: Aabb) -> bool {
    let sx = bounds.max[0] - bounds.min[0];
    let sy = bounds.max[1] - bounds.min[1];
    let sz = bounds.max[2] - bounds.min[2];
    center_depth < max_test_distance && sx * sx + sy * sy + sz * sz > MIN_OCCLUDER_DIAGONAL
        * MIN_OCCLUDER_DIAGONAL
}

/// The point at the given offsets from a centre, limited to the range of `i32`.
pub open spec fn offset_point(center: Point, dx: int, dy: int, dz: int) -> Point {
    [clamped(center[0] + dx), clamped(center[1] + dy), clamped(center[2] + dz)]
}

/// The sample points of an object with the given centre and size: the
/// centre first; for up to four samples the corners of the middle section,
/// for five to eight the centres of the faces; cut off at the number of
/// samples, which is at most eight.
pub open spec fn sample_points_of(sample_count: u32, center: Point, size: [i64; 3]) -> Seq<Point> {
    let hx = half_of(size[0] as int);
    let hy = half_of(size[1] as int);
    let hz = half_of(size[2] as int);
    let count = if sample_count > MAX_SAMPLES {
        MAX_SAMPLES
    } else {
        sample_count
    };
    if count <= 1 {
        seq![center]
    } else if count <= 3 {
        seq![center, offset_point(center, hx, hy, 0), offset_point(center, -hx, hy, 0)].subrange(
            0,
            count as int,
        )
    } else if count == 4 {
        seq![
            center,
            offset_point(center, hx, hy, 0),
            offset_point(center, -hx, hy, 0),
            offset_point(center, hx, -hy, 0),
        ]
    } else if count == 5 {
        seq![
            center,
            offset_point(center, hx, 0, 0),
            offset_point(center, -hx, 0, 0),
            offset_point(center, 0, hy, 0),
            offset_point(center, 0, -hy, 0),
        ]
    } else {
        seq![
            center,
            offset_point(center, hx, 0, 0),
            offset_point(center, -hx, 0, 0),
            offset_point(center, 0, hy, 0),
            offset_point(center, 0, -hy, 0),
            offset_point(center, 0, 0, hz),
            offset_point(center, 0, 0, -hz),
        ].subrange(0, if count < 7 { count as int } else { 7 })
    }
}

/// The state of an occlusion culler.
pub struct OcclusionView {
    pub depth_buffer: DepthBufferView,
    pub config: OcclusionCullingConfig,
    pub occluder_bounds: Seq<Aabb>,
}

impl OcclusionView {
    /// Whether one of the first `count` samples can be seen.
    pub open spec fn any_visible(self, samples: Seq<Option<ScreenPoint>>, count: int) -> bool
        decreases count,
    {
        if count <= 0 {
            false
        } else {
            self.any_visible(samples, count - 1) || sample_visible(
                self.depth_buffer,
                self.config.depth_bias,
                samples[count - 1],
            )
        }
    }

    /// Whether an object with the given projected samples is hidden: culling
    /// is on, and none of its samples can be seen.
    pub open spec fn occludes(self, samples: Seq<Option<ScreenPoint>>) -> bool {
        self.config.enabled && !self.any_visible(samples, samples.len() as int)
    }
}

/// Hides objects behind occluders.
#[derive(Debug, Clone)]
pub struct OcclusionCuller {
    depth_buffer: DepthBuffer,
    config: OcclusionCullingConfig,
    occluder_bounds: Vec<Aabb>,
}

impl View for OcclusionCuller {
    type V = OcclusionView;

    closed spec fn view(&self) -> OcclusionView {
        OcclusionView {
            depth_buffer: self.depth_buffer@,
            config: self.config,
            occluder_bounds: self.occluder_bounds@,
        }
    }
}

impl OcclusionCuller {
    /// The invariant that every operation keeps: the depth buffer keeps its own.
    pub open spec fn wf(&self) -> bool {
        self@.depth_buffer.wf()
    }

    /// A culler with an empty square depth buffer of the configured resolution.
    pub fn new(config: OcclusionCullingConfig) -> (r: OcclusionCuller)
        ensures
            r.wf(),
            r@.config == config,
            r@.occluder_bounds == Seq::<Aabb>::empty(),
            r@.depth_buffer.width == config.depth_buffer_resolution,
            r@.depth_buffer.height == config.depth_buffer_resolution,
            r@.depth_buffer.blank(),
    {
        let res = config.depth_buffer_resolution;
        OcclusionCuller {
            depth_buffer: DepthBuffer::new(res, res),
            config,
            occluder_bounds: Vec::new(),
        }
    }

    /// Replaces the settings. A new resolution gives a new, empty depth buffer.
    pub fn update_config(&mut self, config: OcclusionCullingConfig)
        requires
            old(self).wf(),
        ensures
            final(self).wf(),
            final(self)@.config == config,
            final(self)@.occluder_bounds == old(self)@.occluder_bounds,
            config.depth_buffer_resolution == old(self)@.config.depth_buffer_resolution
                ==> final(self)@.depth_buffer == old(self)@.depth_buffer,
            config.depth_buffer_resolution != old(self)@.config.depth_buffer_resolution ==> {
                &&& final(self)@.depth_buffer.width == config.depth_buffer_resolution
                &&& final(self)@.depth_buffer.height == config.depth_buffer_resolution
                &&& final(self)@.depth_buffer.blank()
            },
    {
        if config.depth_buffer_resolution != self.config.depth_buffer_resolution {
            let res = config.depth_buffer_resolution;
            self.depth_buffer = DepthBuffer::new(res, res);
        }
        self.config = config;
    }

    /// Makes ready for a frame: the depth buffer is cleared and the
    /// occluders are forgotten.
    pub fn prepare_frame(&mut self)
        requires
            old(self).wf(),
        ensures
            final(self).wf(),
            final(self)@.config == old(self)@.config,
            final(self)@.occluder_bounds == Seq::<Aabb>::empty(),
            final(self)@.depth_buffer.width == old(self)@.depth_buffer.width,
            final(self)@.depth_buffer.height == old(self)@.depth_buffer.height,
            final(self)@.depth_buffer.blank(),
    {
        self.depth_buffer.clear();
        self.occluder_bounds.clear();
    }

    /// Whether a box whose centre was projected at the given depth is taken
    /// for an occluder.
    pub fn is_effective_occluder(&self, center_depth: u32, bounds: &Aabb) -> (r: bool)
        ensures
            r == effective_occluder(self@.config.max_test_distance, center_depth, *bounds),
    {
        let size = bounds.size();
        let sx: i128 = size[0] as i128;
        let sy: i128 = size[1] as i128;
        let sz: i128 = size[2] as i128;
        assert(0 <= sx * sx <= 0x1_0000_0000_0000_0000) by (nonlinear_arith)
            requires
                -0x1_0000_0000 <= sx <= 0x1_0000_0000,
        ;
        assert(0 <= sy * sy <= 0x1_0000_0000_0000_0000) by (nonlinear_arith)
            requires
                -0x1_0000_0000 <= sy <= 0x1_0000_0000,
        ;
        assert(0 <= sz * sz <= 0x1_0000_0000_0000_0000) by (nonlinear_arith)
            requires
                -0x1_0000_0000 <= sz <= 0x1_0000_0000,
        ;
        let diagonal_squared: i128 = sx * sx + sy * sy + sz * sz;
        center_depth < self.config.max_test_distance && diagonal_squared > 1_000_000
    }

    /// Adds a box as an occluder, if it is near and large enough:
    /// `center` is the projection of its centre, if it has one, and the
    /// rectangle that of its corners, drawn at `depth`. Says whether the box
    /// was added.
    pub fn add_occluder(
        &mut self,
        bounds: Aabb,
        center: Option<ScreenPoint>,
        min_x: u32,
        max_x: u32,
        min_y: u32,
        max_y: u32,
        depth: u32,
    ) -> (added: bool)
        requires
            old(self).wf(),
        ensures
            final(self).wf(),
            final(self)@.config == old(self)@.config,
            added == (center matches Some(point) && effective_occluder(
                old(self)@.config.max_test_distance,
                point.depth,
                bounds,
            )),
            added ==> final(self)@.occluder_bounds == old(self)@.occluder_bounds.push(bounds)
                && old(self)@.depth_buffer.drawn(
                final(self)@.depth_buffer,
                min_x as int,
                max_x as int,
                min_y as int,
                max_y as int,
                depth,
            ),
            !added ==> final(self)@ == old(self)@,
    {
        match center {
            Some(point) => {
                if self.is_effective_occluder(point.depth, &bounds) {
                    self.occluder_bounds.push(bounds);
                    self.depth_buffer.rasterize_occluder(min_x, max_x, min_y, max_y, depth);
                    true
                } else {
                    false
                }
            },
            None => false,
        }
    }

    /// Whether an object is hidden, given the projections of its sample
    /// points: none of them can be seen. With culling off nothing is hidden.
    pub fn is_occluded(&self, samples: &Vec<Option<ScreenPoint>>) -> (r: bool)
        requires
            self.wf(),
        ensures
            r == self@.occludes(samples@),
    {
        if !self.config.enabled {
            return false;
        }
        let mut visible_samples: usize = 0;
        let mut i: usize = 0;
        while i < samples.len()
            invariant
                self.wf(),
                i <= samples.len(),
                visible_samples <= i,
                (visible_samples > 0) == self@.any_visible(samples@, i as int),
            decreases samples.len() - i,
        {
            if let Some(point) = samples[i] {
                if let Some(buffer_depth) = self.depth_buffer.get_depth(point.x, point.y) {
                    if (point.depth as u64) < (buffer_depth as u64) + (self.config.depth_bias as u64) {
                        visible_samples += 1;
                    }
                }
            }
            i += 1;
        }
        visible_samples == 0
    }

    /// The sample points of an object with the given centre and size.
    pub fn generate_sample_points(&self, center: &Point, size: &[i64; 3]) -> (r: Vec<Point>)
        ensures
            r@ == sample_points_of(self@.config.sample_count, *center, *size),
            1 <= r@.len() <= MAX_SAMPLES,
    {
        let mut points: Vec<Point> = Vec::new();
        points.push(*center);
        if self.config.sample_count <= 1 {
            assert(points@ =~= seq![*center]);
            return points;
        }
        let hx = size[0] / 2;
        let hy = size[1] / 2;
        let hz = size[2] / 2;
        let sample_count = if self.config.sample_count > MAX_SAMPLES {
            MAX_SAMPLES
        } else {
            self.config.sample_count
        };
        if sample_count <= 4 {
            points.push(Self::offset(center, hx, hy, 0));
            points.push(Self::offset(center, -hx, hy, 0));
            if sample_count >= 4 {
                points.push(Self::offset(center, hx, -hy, 0));
                points.push(Self::offset(center, -hx, -hy, 0));
            }
        } else {
            points.push(Self::offset(center, hx, 0, 0));
            points.push(Self::offset(center, -hx, 0, 0));
            points.push(Self::offset(center, 0, hy, 0));
            points.push(Self::offset(center, 0, -hy, 0));
            if sample_count >= 6 {
                points.push(Self::offset(center, 0, 0, hz));
                points.push(Self::offset(center, 0, 0, -hz));
            }
        }
        points.truncate(sample_count as usize);
        assert(points@ =~= sample_points_of(self@.config.sample_count, *center, *size));
        points
    }

    /// The point at the given offsets from a centre.
    fn offset(center: &Point, dx: i64, dy: i64, dz: i64) -> (r: Point)
        requires
            -0x4000_0000_0000_0000 <= dx <= 0x4000_0000_0000_0000,
            -0x4000_0000_0000_0000 <= dy <= 0x4000_0000_0000_0000,
            -0x4000_0000_0000_0000 <= dz <= 0x4000_0000_0000_0000,
        ensures
            r == offset_point(*center, dx as int, dy as int, dz as int),
    {
        let r = [
            Self::clamp(center[0] as i64 + dx),
            Self::clamp(center[1] as i64 + dy),
            Self::clamp(center[2] as i64 + dz),
        ];
        assert(r =~= offset_point(*center, dx as int, dy as int, dz as int));
        r
    }

    /// A number limited to the range of `i32`.
    fn clamp(value: i64) -> (r: i32)
        ensures
            r == clamped(value as int),
    {
        if value < i32::MIN as i64 {
            i32::MIN
        } else if value > i32::MAX as i64 {
            i32::MAX
        } else {
            value as i32
        }
    }

    /// The figures of the culler.
    pub fn get_statistics(&self) -> (r: OcclusionCullingStatistics)
        requires
            self.wf(),
        ensures
            r.total_occluders == self@.occluder_bounds.len(),
            r.depth_buffer_resolution == self@.depth_buffer.width,
            r.depth_buffer_usage == percent_of(
                self@.depth_buffer.filled(self@.depth_buffer.height as int),
                self@.depth_buffer.width * self@.depth_buffer.height,
            ),
    {
        let width = self.depth_buffer.width();
        let height = self.depth_buffer.height();
        assert(width * height <= 0xFFFF_FFFF * 0xFFFF_FFFF) by (nonlinear_arith)
            requires
                0 <= width <= 0xFFFF_FFFF,
                0 <= height <= 0xFFFF_FFFF,
        ;
        let total_pixels: u64 = (width as u64) * (height as u64);
        let filled_pixels = self.depth_buffer.filled_pixels();
        OcclusionCullingStatistics {
            total_occluders: self.occluder_bounds.len(),
            depth_buffer_resolution: width,
            depth_buffer_usage: percent(filled_pixels, total_pixels as u128),
        }
    }
}

} // verus!
