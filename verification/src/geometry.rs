//! Boxes, planes and frusta on an integer grid, and the tests that decide
//! whether a point, a sphere or a box can be seen.
//!
//! Coordinates and radii are whole millimetres. The components of a plane's
//! normal are millionths of a unit vector, and so is every distance from a
//! plane: a plane's `distance` and the result of
//! [`Plane::distance_to_point`] count millionths of a millimetre.

use vstd::prelude::*;
use crate::culling::IntersectionResult;

verus! {

/// A point or a vector: its three coordinates.
pub type Point = [i32; 3];

/// The scale of a plane's normal: the length of a unit vector.
pub const NORMAL_SCALE: i64 = 1_000_000;

/// A number limited to the range of `i32`.
pub open spec fn clamped(value: int) -> i32 {
    if value < i32::MIN {
        i32::MIN
    } else if value > i32::MAX {
        i32::MAX
    } else {
        value as i32
    }
}

/// Half of a number, rounded towards zero.
pub open spec fn half_of(value: int) -> int {
    if value >= 0 {
        value / 2
    } else {
        -((-value) / 2)
    }
}

/// The smaller of two numbers.
pub open spec fn lesser(a: i32, b: i32) -> i32 {
    if a <= b {
        a
    } else {
        b
    }
}

/// The larger of two numbers.
pub open spec fn greater(a: i32, b: i32) -> i32 {
    if a >= b {
        a
    } else {
        b
    }
}

/// A number limited to the range of `i32`.
fn clamp_to_i32(value: i64) -> (r: i32)
    ensures
        r == clamped(value as int),
{
    if value < i32::MIN as i64 {
        i32::MIN
    } else if value > i32::MAX as i64 {
        i32::MAX
    } else {
        value as i32
    }
}

/// Half of a number, rounded towards zero.
fn halve(value: i64) -> (r: i64)
    ensures
        r == half_of(value as int),
{
    value / 2
}

/// The smaller of two numbers.
fn min_of(a: i32, b: i32) -> (r: i32)
    ensures
        r == lesser(a, b),
{
    if a <= b {
        a
    } else {
        b
    }
}

/// The larger of two numbers.
fn max_of(a: i32, b: i32) -> (r: i32)
    ensures
        r == greater(a, b),
{
    if a >= b {
        a
    } else {
        b
    }
}

/// A box with edges along the axes, given by its least and its greatest corner.
#[derive(Debug, Clone, Copy, PartialEq, Eq)]
pub struct Aabb {
    pub min: Point,
    pub max: Point,
}

impl Aabb {
    /// Whether the box holds the point, its faces included.
    pub open spec fn holds(self, point: Point) -> bool {
        forall|axis: int|
            0 <= axis < 3 ==> self.min[axis] <= #[trigger] point[axis] <= self.max[axis]
    }

    /// Whether two boxes have a point in common.
    pub open spec fn overlaps(self, other: Aabb) -> bool {
        forall|axis: int|
            0 <= axis < 3 ==> self.min[axis] <= #[trigger] other.max[axis] && self.max[axis]
                >= other.min[axis]
    }

    /// The least box that holds this box and the point.
    pub open spec fn grown(self, point: Point) -> Aabb {
        Aabb {
            min: [
                lesser(self.min[0], point[0]),
                lesser(self.min[1], point[1]),
                lesser(self.min[2], point[2]),
            ],
            max: [
                greater(self.max[0], point[0]),
                greater(self.max[1], point[1]),
                greater(self.max[2], point[2]),
            ],
        }
    }

    /// The least box that holds the first `count` of the points, begun
    /// with the first point; the box at the origin for no points.
    pub open spec fn around(points: Seq<Point>, count: int) -> Aabb
        decreases count,
    {
        if points.len() == 0 || count <= 0 {
            Aabb { min: [0, 0, 0], max: [0, 0, 0] }
        } else if count == 1 {
            Aabb { min: points[0], max: points[0] }
        } else {
            Self::around(points, count - 1).grown(points[count - 1])
        }
    }

    /// The box with the given corners.
    pub fn new(min: Point, max: Point) -> (r: Aabb)
        ensures
            r.min == min,
            r.max == max,
    {
        Aabb { min, max }
    }

    /// The box around `center` with the given edge lengths. Half an edge is
    /// rounded towards zero, and corners are limited to the range of `i32`.
    pub fn from_center_size(center: Point, size: Point) -> (r: Aabb)
        ensures
            forall|axis: int|
                0 <= axis < 3 ==> #[trigger] r.min[axis] == clamped(
                    center[axis] - half_of(size[axis] as int),
                ),
            forall|axis: int|
                0 <= axis < 3 ==> #[trigger] r.max[axis] == clamped(
                    center[axis] + half_of(size[axis] as int),
                ),
    {
        let hx = halve(size[0] as i64);
        let hy = halve(size[1] as i64);
        let hz = halve(size[2] as i64);
        Aabb {
            min: [
                clamp_to_i32(center[0] as i64 - hx),
                clamp_to_i32(center[1] as i64 - hy),
                clamp_to_i32(center[2] as i64 - hz),
            ],
            max: [
                clamp_to_i32(center[0] as i64 + hx),
                clamp_to_i32(center[1] as i64 + hy),
                clamp_to_i32(center[2] as i64 + hz),
            ],
        }
    }

    /// The least box that holds all the points; the box at the origin for
    /// no points.
    pub fn from_points(points: &Vec<Point>) -> (r: Aabb)
        ensures
            r == Aabb::around(points@, points@.len() as int),
    {
        if points.len() == 0 {
            return Aabb { min: [0, 0, 0], max: [0, 0, 0] };
        }
        let mut result = Aabb { min: points[0], max: points[0] };
        let mut i: usize = 1;
        while i < points.len()
            invariant
                1 <= i <= points.len(),
                result == Aabb::around(points@, i as int),
            decreases points.len() - i,
        {
            result.expand(points[i]);
            i += 1;
        }
        result
    }

    /// The middle of the box, each coordinate rounded towards zero.
    pub fn center(&self) -> (r: Point)
        ensures
            forall|axis: int|
                0 <= axis < 3 ==> #[trigger] r[axis] == half_of(self.min[axis] + self.max[axis]),
    {
        [
            halve(self.min[0] as i64 + self.max[0] as i64) as i32,
            halve(self.min[1] as i64 + self.max[1] as i64) as i32,
            halve(self.min[2] as i64 + self.max[2] as i64) as i32,
        ]
    }

    /// The edge lengths of the box.
    pub fn size(&self) -> (r: [i64; 3])
        ensures
            forall|axis: int| 0 <= axis < 3 ==> #[trigger] r[axis] == self.max[axis] - self.min[axis],
    {
        [
            self.max[0] as i64 - self.min[0] as i64,
            self.max[1] as i64 - self.min[1] as i64,
            self.max[2] as i64 - self.min[2] as i64,
        ]
    }

    /// Half the edge lengths of the box, rounded towards zero.
    pub fn half_size(&self) -> (r: [i64; 3])
        ensures
            forall|axis: int|
                0 <= axis < 3 ==> #[trigger] r[axis] == half_of(self.max[axis] - self.min[axis]),
    {
        let size = self.size();
        [halve(size[0]), halve(size[1]), halve(size[2])]
    }

    /// Whether the box holds the point, its faces included.
    pub fn contains_point(&self, point: Point) -> (r: bool)
        ensures
            r == self.holds(point),
    {
        let r = point[0] >= self.min[0] && point[0] <= self.max[0] && point[1] >= self.min[1]
            && point[1] <= self.max[1] && point[2] >= self.min[2] && point[2] <= self.max[2];
        proof {
            if !r {
                assert(!(self.min[0] <= point[0] <= self.max[0]) || !(self.min[1] <= point[1]
                    <= self.max[1]) || !(self.min[2] <= point[2] <= self.max[2]));
            }
        }
        r
    }

    /// Whether two boxes have a point in common.
    pub fn intersects(&self, other: &Aabb) -> (r: bool)
        ensures
            r == self.overlaps(*other),
    {
        let r = self.min[0] <= other.max[0] && self.max[0] >= other.min[0] && self.min[1]
            <= other.max[1] && self.max[1] >= other.min[1] && self.min[2] <= other.max[2]
            && self.max[2] >= other.min[2];
        proof {
            if !r {
                assert(!(self.min[0] <= other.max[0] && self.max[0] >= other.min[0]) || !(
                self.min[1] <= other.max[1] && self.max[1] >= other.min[1]) || !(self.min[2]
                    <= other.max[2] && self.max[2] >= other.min[2]));
            }
        }
        r
    }

    /// Grows the box so that it holds the point.
    pub fn expand(&mut self, point: Point)
        ensures
            *final(self) == old(self).grown(point),
    {
        let min = [
            min_of(self.min[0], point[0]),
            min_of(self.min[1], point[1]),
            min_of(self.min[2], point[2]),
        ];
        let max = [
            max_of(self.max[0], point[0]),
            max_of(self.max[1], point[1]),
            max_of(self.max[2], point[2]),
        ];
        self.min = min;
        self.max = max;
        assert(self.min =~= old(self).grown(point).min);
        assert(self.max =~= old(self).grown(point).max);
    }

    /// The box grown so that it holds the point.
    pub fn expanded(self, point: Point) -> (r: Aabb)
        ensures
            r == self.grown(point),
    {
        let mut grown = self;
        grown.expand(point);
        grown
    }

    /// The least box that holds both boxes.
    pub fn union(&self, other: &Aabb) -> (r: Aabb)
        ensures
            forall|axis: int|
                0 <= axis < 3 ==> #[trigger] r.min[axis] == lesser(self.min[axis], other.min[axis]),
            forall|axis: int|
                0 <= axis < 3 ==> #[trigger] r.max[axis] == greater(
                    self.max[axis],
                    other.max[axis],
                ),
    {
        let r = Aabb {
            min: [
                min_of(self.min[0], other.min[0]),
                min_of(self.min[1], other.min[1]),
                min_of(self.min[2], other.min[2]),
            ],
            max: [
                max_of(self.max[0], other.max[0]),
                max_of(self.max[1], other.max[1]),
                max_of(self.max[2], other.max[2]),
            ],
        };
        r
    }
}

impl Default for Aabb {
    /// The box that holds nothing: growing it by a point gives the box of
    /// that point alone.
    fn default() -> (r: Aabb)
        ensures
            r.min == [i32::MAX, i32::MAX, i32::MAX],
            r.max == [i32::MIN, i32::MIN, i32::MIN],
    {
        Aabb { min: [i32::MAX, i32::MAX, i32::MAX], max: [i32::MIN, i32::MIN, i32::MIN] }
    }
}

/// Growing the empty box by a point gives the box that holds that point alone.
pub proof fn lemma_empty_box_grows_to_point(point: Point)
    ensures
        (Aabb {
            min: [i32::MAX, i32::MAX, i32::MAX],
            max: [i32::MIN, i32::MIN, i32::MIN],
        }).grown(point).min =~= point,
        (Aabb {
            min: [i32::MAX, i32::MAX, i32::MAX],
            max: [i32::MIN, i32::MIN, i32::MIN],
        }).grown(point).max =~= point,
{
}

/// A box grown by a point holds the point, and everything that it held before.
pub proof fn lemma_grown_box_holds(outer: Aabb, point: Point, other: Point)
    ensures
        outer.grown(point).holds(point),
        outer.holds(other) ==> outer.grown(point).holds(other),
{
    let grown = outer.grown(point);
    assert forall|axis: int| 0 <= axis < 3 implies grown.min[axis] <= #[trigger] point[axis]
        <= grown.max[axis] by {
        if axis == 0 {
        } else if axis == 1 {
        } else {
        }
    }
    if outer.holds(other) {
        assert forall|axis: int| 0 <= axis < 3 implies grown.min[axis] <= #[trigger] other[axis]
            <= grown.max[axis] by {
            assert(outer.min[axis] <= other[axis] <= outer.max[axis]);
            if axis == 0 {
            } else if axis == 1 {
            } else {
            }
        }
    }
}

/// A plane: the points `p` with `normal . p == distance`. The side to which
/// the normal points is in front.
#[derive(Debug, Clone, Copy, PartialEq, Eq)]
pub struct Plane {
    pub normal: Point,
    pub distance: i64,
}

/// The dot product of two vectors.
pub open spec fn dot(a: Point, b: Point) -> int {
    a[0] * b[0] + a[1] * b[1] + a[2] * b[2]
}

impl Plane {
    /// How far in front of the plane the point lies; negative behind it.
    pub open spec fn signed_distance(self, point: Point) -> int {
        dot(self.normal, point) - self.distance
    }

    /// The corner of the box that lies farthest in the direction of the
    /// normal (`front`), or farthest against it.
    pub open spec fn extreme_corner(self, aabb: Aabb, front: bool) -> Point {
        [
            if (self.normal[0] >= 0) == front {
                aabb.max[0]
            } else {
                aabb.min[0]
            },
            if (self.normal[1] >= 0) == front {
                aabb.max[1]
            } else {
                aabb.min[1]
            },
            if (self.normal[2] >= 0) == front {
                aabb.max[2]
            } else {
                aabb.min[2]
            },
        ]
    }

    /// The plane with the given normal and distance.
    pub fn new(normal: Point, distance: i64) -> (r: Plane)
        ensures
            r.normal == normal,
            r.distance == distance,
    {
        Plane { normal, distance }
    }

    /// The product of two coordinates.
    fn product(a: i32, b: i32) -> (r: i128)
        ensures
            r == a * b,
            -0x4000_0000_0000_0000 <= r <= 0x4000_0000_0000_0000,
    {
        assert(-0x4000_0000_0000_0000 <= a * b <= 0x4000_0000_0000_0000) by (nonlinear_arith)
            requires
                -0x8000_0000 <= a <= 0x8000_0000,
                -0x8000_0000 <= b <= 0x8000_0000,
        ;
        (a as i128) * (b as i128)
    }

    /// How far in front of the plane the point lies; negative behind it.
    pub fn distance_to_point(&self, point: Point) -> (r: i128)
        ensures
            r == self.signed_distance(point),
    {
        Self::product(self.normal[0], point[0]) + Self::product(self.normal[1], point[1])
            + Self::product(self.normal[2], point[2]) - (self.distance as i128)
    }

    /// Whether the point lies on the plane or in front of it.
    pub fn is_point_in_front(&self, point: Point) -> (r: bool)
        ensures
            r == (self.signed_distance(point) >= 0),
    {
        self.distance_to_point(point) >= 0
    }

    /// The corner of the box farthest along the normal, or farthest against it.
    fn corner(&self, aabb: &Aabb, front: bool) -> (r: Point)
        ensures
            r == self.extreme_corner(*aabb, front),
    {
        let r = [
            if (self.normal[0] >= 0) == front {
                aabb.max[0]
            } else {
                aabb.min[0]
            },
            if (self.normal[1] >= 0) == front {
                aabb.max[1]
            } else {
                aabb.min[1]
            },
            if (self.normal[2] >= 0) == front {
                aabb.max[2]
            } else {
                aabb.min[2]
            },
        ];
        assert(r =~= self.extreme_corner(*aabb, front));
        r
    }
}

/// How a plane sees a sphere or a box.
#[derive(Debug, Clone, Copy, PartialEq, Eq, Structural)]
pub enum PlaneSide {
    /// Wholly behind the plane.
    Behind,
    /// Partly behind the plane.
    Across,
    /// Wholly in front of the plane.
    InFront,
}

/// How a plane sees the sphere around `center` with the given radius.
pub open spec fn sphere_side(plane: Plane, center: Point, radius: u32) -> PlaneSide {
    let distance = plane.signed_distance(center);
    if distance < -(radius * NORMAL_SCALE) {
        PlaneSide::Behind
    } else if distance < radius * NORMAL_SCALE {
        PlaneSide::Across
    } else {
        PlaneSide::InFront
    }
}

/// How a plane sees a box: behind, if even its foremost corner is behind;
/// across, if its hindmost corner is behind.
pub open spec fn box_side(plane: Plane, aabb: Aabb) -> PlaneSide {
    if plane.signed_distance(plane.extreme_corner(aabb, true)) < 0 {
        PlaneSide::Behind
    } else if plane.signed_distance(plane.extreme_corner(aabb, false)) < 0 {
        PlaneSide::Across
    } else {
        PlaneSide::InFront
    }
}

/// The verdict over the first `count` planes, given how each sees the
/// object: outside as soon as one has it behind, intersecting if one has it
/// across, else inside.
pub open spec fn verdict_of(sides: Seq<PlaneSide>, count: int) -> IntersectionResult
    decreases count,
{
    if count <= 0 {
        IntersectionResult::Inside
    } else {
        let before = verdict_of(sides, count - 1);
        if before == IntersectionResult::Outside || sides[count - 1] == PlaneSide::Behind {
            IntersectionResult::Outside
        } else if sides[count - 1] == PlaneSide::Across {
            IntersectionResult::Intersecting
        } else {
            before
        }
    }
}

/// Six planes whose fronts bound a volume: left, right, bottom, top, near, far.
#[derive(Debug, Clone, Copy, PartialEq, Eq)]
pub struct Frustum {
    pub planes: [Plane; 6],
}

impl Frustum {
    /// How each plane sees a point: in front or behind.
    pub open spec fn point_sides(self, point: Point) -> Seq<PlaneSide> {
        Seq::new(
            6,
            |i: int|
                if self.planes[i].signed_distance(point) >= 0 {
                    PlaneSide::InFront
                } else {
                    PlaneSide::Behind
                },
        )
    }

    /// How each plane sees a sphere.
    pub open spec fn sphere_sides(self, center: Point, radius: u32) -> Seq<PlaneSide> {
        Seq::new(6, |i: int| sphere_side(self.planes[i], center, radius))
    }

    /// How each plane sees a box.
    pub open spec fn box_sides(self, aabb: Aabb) -> Seq<PlaneSide> {
        Seq::new(6, |i: int| box_side(self.planes[i], aabb))
    }

    /// The frustum with the given planes.
    pub fn new(planes: [Plane; 6]) -> (r: Frustum)
        ensures
            r.planes == planes,
    {
        Frustum { planes }
    }

    /// Whether a point lies inside the frustum or outside.
    pub fn test_point(&self, point: Point) -> (r: IntersectionResult)
        ensures
            r == verdict_of(self.point_sides(point), 6),
            r != IntersectionResult::Intersecting,
            r == IntersectionResult::Inside <==> forall|i: int|
                0 <= i < 6 ==> (#[trigger] self.planes[i]).signed_distance(point) >= 0,
    {
        let mut i: usize = 0;
        while i < 6
            invariant
                i <= 6,
                verdict_of(self.point_sides(point), i as int) == IntersectionResult::Inside,
                forall|k: int| 0 <= k < i ==> (#[trigger] self.planes[k]).signed_distance(point) >= 0,
            decreases 6 - i,
        {
            if !self.planes[i].is_point_in_front(point) {
                proof {
                    lemma_outside_stays_outside(self.point_sides(point), i + 1, 6);
                }
                return IntersectionResult::Outside;
            }
            i += 1;
        }
        IntersectionResult::Inside
    }

    /// Whether a sphere lies inside the frustum, outside, or across its border.
    pub fn test_sphere(&self, center: Point, radius: u32) -> (r: IntersectionResult)
        ensures
            r == verdict_of(self.sphere_sides(center, radius), 6),
    {
        let mut intersecting = false;
        let reach: i128 = (radius as i128) * (NORMAL_SCALE as i128);
        let mut i: usize = 0;
        while i < 6
            invariant
                i <= 6,
                reach == radius * NORMAL_SCALE,
                verdict_of(self.sphere_sides(center, radius), i as int) == if intersecting {
                    IntersectionResult::Intersecting
                } else {
                    IntersectionResult::Inside
                },
            decreases 6 - i,
        {
            let distance = self.planes[i].distance_to_point(center);
            if distance < -reach {
                proof {
                    lemma_outside_stays_outside(self.sphere_sides(center, radius), i + 1, 6);
                }
                return IntersectionResult::Outside;
            } else if distance < reach {
                intersecting = true;
            }
            i += 1;
        }
        if intersecting {
            IntersectionResult::Intersecting
        } else {
            IntersectionResult::Inside
        }
    }

    /// Whether a box lies inside the frustum, outside, or across its border.
    pub fn test_aabb(&self, aabb: &Aabb) -> (r: IntersectionResult)
        ensures
            r == verdict_of(self.box_sides(*aabb), 6),
    {
        let mut intersecting = false;
        let mut i: usize = 0;
        while i < 6
            invariant
                i <= 6,
                verdict_of(self.box_sides(*aabb), i as int) == if intersecting {
                    IntersectionResult::Intersecting
                } else {
                    IntersectionResult::Inside
                },
            decreases 6 - i,
        {
            let positive_vertex = self.planes[i].corner(aabb, true);
            let negative_vertex = self.planes[i].corner(aabb, false);
            if self.planes[i].distance_to_point(positive_vertex) < 0 {
                proof {
                    lemma_outside_stays_outside(self.box_sides(*aabb), i + 1, 6);
                }
                return IntersectionResult::Outside;
            }
            if self.planes[i].distance_to_point(negative_vertex) < 0 {
                intersecting = true;
            }
            i += 1;
        }
        if intersecting {
            IntersectionResult::Intersecting
        } else {
            IntersectionResult::Inside
        }
    }

    /// Whether a point can be seen.
    pub fn is_visible_point(&self, point: Point) -> (r: bool)
        ensures
            r == (verdict_of(self.point_sides(point), 6) != IntersectionResult::Outside),
    {
        match self.test_point(point) {
            IntersectionResult::Outside => false,
            _ => true,
        }
    }

    /// Whether a sphere can be seen, wholly or in part.
    pub fn is_visible_sphere(&self, center: Point, radius: u32) -> (r: bool)
        ensures
            r == (verdict_of(self.sphere_sides(center, radius), 6) != IntersectionResult::Outside),
    {
        match self.test_sphere(center, radius) {
            IntersectionResult::Outside => false,
            _ => true,
        }
    }

    /// Whether a box can be seen, wholly or in part.
    pub fn is_visible_aabb(&self, aabb: &Aabb) -> (r: bool)
        ensures
            r == (verdict_of(self.box_sides(*aabb), 6) != IntersectionResult::Outside),
    {
        match self.test_aabb(aabb) {
            IntersectionResult::Outside => false,
            _ => true,
        }
    }
}

/// Once a plane has the object behind it, the verdict is outside, whatever
/// the planes after it say.
pub proof fn lemma_outside_stays_outside(sides: Seq<PlaneSide>, count: int, later: int)
    requires
        0 < count <= later,
        verdict_of(sides, count - 1) == IntersectionResult::Outside || sides[count - 1]
            == PlaneSide::Behind,
    ensures
        verdict_of(sides, later) == IntersectionResult::Outside,
    decreases later - count,
{
    if count < later {
        lemma_outside_stays_outside(sides, count + 1, later);
    }
}

} // verus!
