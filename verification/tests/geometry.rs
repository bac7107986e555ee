use resource_streaming::culling::IntersectionResult;
use resource_streaming::geometry::{Aabb, Frustum, Plane, NORMAL_SCALE};

const UNIT: i32 = 1_000_000;

/// The cube of points with every coordinate between -1000 and 1000.
fn cube_frustum() -> Frustum {
    let d = -1000 * NORMAL_SCALE;
    Frustum::new([
        Plane::new([UNIT, 0, 0], d),
        Plane::new([-UNIT, 0, 0], d),
        Plane::new([0, UNIT, 0], d),
        Plane::new([0, -UNIT, 0], d),
        Plane::new([0, 0, UNIT], d),
        Plane::new([0, 0, -UNIT], d),
    ])
}

#[test]
fn box_from_center_and_size() {
    let b = Aabb::from_center_size([10, 20, 30], [4, 6, 9]);
    assert_eq!(b.min, [8, 17, 26]);
    assert_eq!(b.max, [12, 23, 34]);
    let clipped = Aabb::from_center_size([i32::MAX, i32::MIN, 0], [10, 10, -7]);
    assert_eq!(clipped.min, [i32::MAX - 5, i32::MIN, 3]);
    assert_eq!(clipped.max, [i32::MAX, i32::MIN + 5, -3]);
    assert_eq!(Aabb::new([1, 2, 3], [4, 5, 6]), Aabb { min: [1, 2, 3], max: [4, 5, 6] });
}

#[test]
fn box_around_points() {
    assert_eq!(Aabb::from_points(&Vec::new()), Aabb { min: [0, 0, 0], max: [0, 0, 0] });
    assert_eq!(Aabb::from_points(&vec![[5, -5, 7]]), Aabb { min: [5, -5, 7], max: [5, -5, 7] });
    let b = Aabb::from_points(&vec![[1, 10, -3], [-4, 2, 8], [3, 3, 3]]);
    assert_eq!(b.min, [-4, 2, -3]);
    assert_eq!(b.max, [3, 10, 8]);
}

#[test]
fn box_measures() {
    let b = Aabb::new([-3, 0, 10], [4, 9, 20]);
    assert_eq!(b.center(), [0, 4, 15]);
    assert_eq!(b.size(), [7, 9, 10]);
    assert_eq!(b.half_size(), [3, 4, 5]);
    let negative = Aabb::new([-5, -5, -5], [-2, -2, 0]);
    assert_eq!(negative.center(), [-3, -3, -2]);
    let widest = Aabb::new([i32::MIN; 3], [i32::MAX; 3]);
    assert_eq!(widest.size(), [u32::MAX as i64; 3]);
    assert_eq!(widest.center(), [0, 0, 0]);
}

#[test]
fn box_contains_and_intersects() {
    let b = Aabb::new([0, 0, 0], [10, 10, 10]);
    assert!(b.contains_point([0, 0, 0]));
    assert!(b.contains_point([10, 10, 10]));
    assert!(b.contains_point([5, 0, 10]));
    assert!(!b.contains_point([11, 5, 5]));
    assert!(!b.contains_point([5, -1, 5]));
    assert!(!b.contains_point([5, 5, 11]));
    assert!(b.intersects(&Aabb::new([10, 10, 10], [20, 20, 20])));
    assert!(b.intersects(&Aabb::new([-5, -5, -5], [0, 0, 0])));
    assert!(b.intersects(&Aabb::new([2, 2, 2], [3, 3, 3])));
    assert!(!b.intersects(&Aabb::new([11, 0, 0], [20, 10, 10])));
    assert!(!b.intersects(&Aabb::new([0, 0, -9], [10, 10, -1])));
}

#[test]
fn box_grows_and_unites() {
    let mut b = Aabb::new([0, 0, 0], [1, 1, 1]);
    b.expand([5, -2, 1]);
    assert_eq!(b, Aabb::new([0, -2, 0], [5, 1, 1]));
    assert_eq!(b.expanded([-1, 0, 9]), Aabb::new([-1, -2, 0], [5, 1, 9]));
    let u = Aabb::new([0, 0, 0], [1, 1, 1]).union(&Aabb::new([-3, 5, 0], [0, 6, 2]));
    assert_eq!(u, Aabb::new([-3, 0, 0], [1, 6, 2]));
    let empty = Aabb::default();
    assert_eq!(empty.min, [i32::MAX; 3]);
    assert_eq!(empty.max, [i32::MIN; 3]);
    assert_eq!(empty.expanded([7, 8, 9]), Aabb::new([7, 8, 9], [7, 8, 9]));
    assert_eq!(empty.union(&b), b);
}

#[test]
fn plane_distances() {
    let p = Plane::new([0, UNIT, 0], 5 * NORMAL_SCALE);
    assert_eq!(p.distance_to_point([100, 7, -100]), 2 * NORMAL_SCALE as i128);
    assert_eq!(p.distance_to_point([0, 5, 0]), 0);
    assert_eq!(p.distance_to_point([0, -5, 0]), -10 * NORMAL_SCALE as i128);
    assert!(p.is_point_in_front([0, 5, 0]));
    assert!(p.is_point_in_front([0, 6, 0]));
    assert!(!p.is_point_in_front([0, 4, 0]));
    let extreme = Plane::new([i32::MIN; 3], i64::MAX);
    assert_eq!(
        extreme.distance_to_point([i32::MIN; 3]),
        3 * (i32::MIN as i128) * (i32::MIN as i128) - i64::MAX as i128
    );
}

#[test]
fn frustum_point_test() {
    let f = cube_frustum();
    assert_eq!(f.test_point([0, 0, 0]), IntersectionResult::Inside);
    assert_eq!(f.test_point([1000, -1000, 1000]), IntersectionResult::Inside);
    assert_eq!(f.test_point([1001, 0, 0]), IntersectionResult::Outside);
    assert_eq!(f.test_point([0, 0, -1001]), IntersectionResult::Outside);
    assert!(f.is_visible_point([999, 999, 999]));
    assert!(!f.is_visible_point([0, 5000, 0]));
}

#[test]
fn frustum_sphere_test() {
    let f = cube_frustum();
    assert_eq!(f.test_sphere([0, 0, 0], 10), IntersectionResult::Inside);
    assert_eq!(f.test_sphere([0, 0, 0], 1000), IntersectionResult::Inside);
    assert_eq!(f.test_sphere([0, 0, 0], 1001), IntersectionResult::Intersecting);
    assert_eq!(f.test_sphere([995, 0, 0], 10), IntersectionResult::Intersecting);
    assert_eq!(f.test_sphere([1010, 0, 0], 10), IntersectionResult::Intersecting);
    assert_eq!(f.test_sphere([1011, 0, 0], 10), IntersectionResult::Outside);
    assert_eq!(f.test_sphere([0, -2000, 0], 10), IntersectionResult::Outside);
    assert_eq!(f.test_sphere([0, 0, 0], 0), IntersectionResult::Inside);
    assert!(f.is_visible_sphere([1010, 0, 0], 10));
    assert!(!f.is_visible_sphere([1011, 0, 0], 10));
}

#[test]
fn frustum_box_test() {
    let f = cube_frustum();
    assert_eq!(f.test_aabb(&Aabb::new([-10, -10, -10], [10, 10, 10])), IntersectionResult::Inside);
    assert_eq!(f.test_aabb(&Aabb::new([-1000; 3], [1000; 3])), IntersectionResult::Inside);
    assert_eq!(f.test_aabb(&Aabb::new([900, 0, 0], [1100, 10, 10])), IntersectionResult::Intersecting);
    assert_eq!(f.test_aabb(&Aabb::new([-5000; 3], [5000; 3])), IntersectionResult::Intersecting);
    assert_eq!(f.test_aabb(&Aabb::new([1001, 0, 0], [1100, 10, 10])), IntersectionResult::Outside);
    assert_eq!(f.test_aabb(&Aabb::new([0, -3000, 0], [10, -2000, 10])), IntersectionResult::Outside);
    assert!(f.is_visible_aabb(&Aabb::new([1000, 1000, 1000], [2000, 2000, 2000])));
    assert!(!f.is_visible_aabb(&Aabb::new([1001, 1001, 1001], [2000, 2000, 2000])));
}

#[test]
fn frustum_with_slanted_planes() {
    // the half space x + y >= 0, five more planes that hold everything near
    let open = Plane::new([0, 0, 0], -1);
    let f = Frustum::new([Plane::new([707_107, 707_107, 0], 0), open, open, open, open, open]);
    assert_eq!(f.test_point([5, -4, 0]), IntersectionResult::Inside);
    assert_eq!(f.test_point([5, -6, 0]), IntersectionResult::Outside);
    assert_eq!(f.test_aabb(&Aabb::new([1, 1, 0], [2, 2, 0])), IntersectionResult::Inside);
    assert_eq!(f.test_aabb(&Aabb::new([-1, -1, 0], [2, 2, 0])), IntersectionResult::Intersecting);
    assert_eq!(f.test_aabb(&Aabb::new([-3, -3, 0], [-1, -1, 0])), IntersectionResult::Outside);
}
