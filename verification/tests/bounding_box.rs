use raytracer::entity::bounding_box::BoundingBox;
use raytracer::ray::Ray;
use raytracer::scalar::Scalar;
use raytracer::vec3::Vec3;

fn s(x: f32) -> Scalar {
    Scalar::from_bits(x.to_bits())
}

fn v(x: f32, y: f32, z: f32) -> Vec3 {
    Vec3::new(s(x), s(y), s(z))
}

fn bits(v: Vec3) -> [u32; 3] {
    [v.x.to_bits(), v.y.to_bits(), v.z.to_bits()]
}

fn ray(from: Vec3, dir: Vec3) -> Ray {
    let inv = |c: Scalar| s(f32::from_bits(c.to_bits()).recip());
    Ray::new(from, dir, Vec3::new(inv(dir.x), inv(dir.y), inv(dir.z)))
}

/// The six distances along the ray to the bounds of the box.
fn slab_distances(b: &BoundingBox, r: &Ray) -> (Vec3, Vec3) {
    let f = |c: Scalar| f32::from_bits(c.to_bits());
    let entry = b.entry_bounds(r);
    let exit = b.exit_bounds(r);
    let near = v(
        (f(entry.x) - f(r.from.x)) * f(r.inv_dir.x),
        (f(entry.y) - f(r.from.y)) * f(r.inv_dir.y),
        (f(entry.z) - f(r.from.z)) * f(r.inv_dir.z),
    );
    let far = v(
        (f(exit.x) - f(r.from.x)) * f(r.inv_dir.x),
        (f(exit.y) - f(r.from.y)) * f(r.inv_dir.y),
        (f(exit.z) - f(r.from.z)) * f(r.inv_dir.z),
    );
    (near, far)
}

fn hits(b: &BoundingBox, r: &Ray) -> bool {
    let (near, far) = slab_distances(b, r);
    BoundingBox::ray_check_intersect_standard(near, far)
}

fn unit_box() -> BoundingBox {
    BoundingBox::new(&[v(-1.0, -1.0, -1.0), v(1.0, 1.0, 1.0)])
}

#[test]
fn box_of_one_point_is_that_point() {
    let b = BoundingBox::new(&[v(1.0, -2.0, 3.0)]);
    assert_eq!(bits(b.min()), bits(v(1.0, -2.0, 3.0)));
    assert_eq!(bits(b.max()), bits(v(1.0, -2.0, 3.0)));
}

#[test]
fn box_reaches_from_least_to_greatest_on_each_axis() {
    let b = BoundingBox::new(&[v(1.0, 5.0, -7.0), v(-5.0, 10.0, 0.0), v(3.0, -2.0, -1.0), v(0.0, 0.0, 9.5)]);
    assert_eq!(bits(b.min()), bits(v(-5.0, -2.0, -7.0)));
    assert_eq!(bits(b.max()), bits(v(3.0, 10.0, 9.5)));
}

#[test]
fn box_matches_min_and_max_by_total_order() {
    let points = [
        v(0.0, -0.0, 1.0),
        v(-0.0, 0.0, f32::NAN),
        v(f32::INFINITY, -3.5, -1.0),
        v(f32::NEG_INFINITY, 2.0, 1.0),
        v(1e-40, -1e-40, 0.5),
    ];
    let b = BoundingBox::new(&points);
    let f = |c: Scalar| f32::from_bits(c.to_bits());
    let least = |pick: fn(&Vec3) -> Scalar| points.iter().map(|p| f(pick(p))).min_by(|a, b| a.total_cmp(b)).unwrap();
    let greatest = |pick: fn(&Vec3) -> Scalar| points.iter().map(|p| f(pick(p))).max_by(|a, b| a.total_cmp(b)).unwrap();
    assert_eq!(b.min().x.to_bits(), least(|p| p.x).to_bits());
    assert_eq!(b.min().y.to_bits(), least(|p| p.y).to_bits());
    assert_eq!(b.min().z.to_bits(), least(|p| p.z).to_bits());
    assert_eq!(b.max().x.to_bits(), greatest(|p| p.x).to_bits());
    assert_eq!(b.max().y.to_bits(), greatest(|p| p.y).to_bits());
    assert_eq!(b.max().z.to_bits(), greatest(|p| p.z).to_bits());
    // Negative zero comes before positive zero; a positive NaN comes last.
    assert_eq!(b.min().y.to_bits(), (-3.5_f32).to_bits());
    assert_eq!(b.max().z.to_bits(), f32::NAN.to_bits());
    let zeros = BoundingBox::new(&[v(0.0, 0.0, 0.0), v(-0.0, -0.0, -0.0)]);
    assert_eq!(bits(zeros.min()), [0x8000_0000; 3]);
    assert_eq!(bits(zeros.max()), [0; 3]);
}

#[test]
fn index_gives_the_corners() {
    let b = BoundingBox::new(&[v(1.0, 5.0, -7.0), v(-5.0, 10.0, 0.0)]);
    assert_eq!(bits(b[0]), bits(b.min()));
    assert_eq!(bits(b[1]), bits(b.max()));
    assert_eq!(bits(b[7]), bits(b.max()));
}

#[test]
fn ray_signs_follow_the_direction() {
    let r = ray(v(0.0, 0.0, 0.0), v(-1.0, 2.0, -0.0));
    assert_eq!((r.sign_x, r.sign_y, r.sign_z), (1, 0, 0));
    let r = ray(v(0.0, 0.0, 0.0), v(f32::NAN, -1e-30, f32::NEG_INFINITY));
    assert_eq!((r.sign_x, r.sign_y, r.sign_z), (0, 1, 1));
    assert_eq!(bits(r.from), [0; 3]);
    assert_eq!(r.dir.y.to_bits(), (-1e-30_f32).to_bits());
    assert_eq!(r.inv_dir.z.to_bits(), (-0.0_f32).to_bits());
}

#[test]
fn slab_bounds_are_chosen_by_sign() {
    let b = BoundingBox::new(&[v(-1.0, -2.0, -3.0), v(1.0, 2.0, 3.0)]);
    let r = ray(v(0.0, 0.0, 10.0), v(1.0, -1.0, -1.0));
    assert_eq!(bits(b.entry_bounds(&r)), bits(v(-1.0, 2.0, 3.0)));
    assert_eq!(bits(b.exit_bounds(&r)), bits(v(1.0, -2.0, -3.0)));
}

#[test]
fn ray_through_the_box_hits() {
    let b = unit_box();
    assert!(hits(&b, &ray(v(0.0, 0.0, 5.0), v(0.0, 0.0, -1.0))));
    assert!(hits(&b, &ray(v(-5.0, -5.0, -5.0), v(1.0, 1.0, 1.0))));
    assert!(hits(&b, &ray(v(0.3, -0.2, 4.0), v(0.1, 0.05, -1.0))));
}

#[test]
fn ray_from_inside_the_box_hits() {
    let b = unit_box();
    assert!(hits(&b, &ray(v(0.2, 0.1, -0.3), v(0.3, -1.0, 0.2))));
}

#[test]
fn ray_past_the_box_misses() {
    let b = unit_box();
    assert!(!hits(&b, &ray(v(3.0, 0.0, 5.0), v(0.0, 0.0, -1.0))));
    assert!(!hits(&b, &ray(v(0.0, 5.0, 5.0), v(1.0, 0.1, -1.0))));
}

#[test]
fn box_behind_the_ray_misses() {
    let b = unit_box();
    assert!(!hits(&b, &ray(v(0.0, 0.0, 5.0), v(0.0, 0.0, 1.0))));
}

#[test]
fn slab_rule_on_given_distances() {
    // Latest entry 2, earliest exit 3.
    assert!(BoundingBox::ray_check_intersect_standard(v(1.0, 2.0, -1.0), v(4.0, 3.0, 5.0)));
    // Latest entry 4, earliest exit 3.
    assert!(!BoundingBox::ray_check_intersect_standard(v(1.0, 4.0, -1.0), v(5.0, 3.0, 5.0)));
    // All exits lie behind the origin.
    assert!(!BoundingBox::ray_check_intersect_standard(v(-5.0, -4.0, -6.0), v(-1.0, -2.0, -3.0)));
    // Entry behind the origin counts from the origin.
    assert!(BoundingBox::ray_check_intersect_standard(v(-5.0, -4.0, -6.0), v(1.0, 2.0, 0.0)));
    // A NaN exit on the last axis is kept and fails the comparison.
    assert!(!BoundingBox::ray_check_intersect_standard(v(0.0, 0.0, 0.0), v(1.0, 1.0, f32::NAN)));
    // A NaN exit on the first axis gives way to the next.
    assert!(BoundingBox::ray_check_intersect_standard(v(0.0, 0.0, 0.0), v(f32::NAN, 1.0, 1.0)));
}

#[test]
fn slab_rule_matches_the_formula() {
    fn max(x: f32, y: f32) -> f32 {
        if x > y {
            x
        } else {
            y
        }
    }
    fn min(x: f32, y: f32) -> f32 {
        if x < y {
            x
        } else {
            y
        }
    }
    let values = [-2.0_f32, -0.0, 0.0, 0.5, 1.0, 3.0, f32::INFINITY, f32::NEG_INFINITY, f32::NAN];
    let mut state = 12345_u32;
    let mut pick = || {
        state = state.wrapping_mul(1_664_525).wrapping_add(1_013_904_223);
        values[(state >> 16) as usize % values.len()]
    };
    for _ in 0..5000 {
        let n = [pick(), pick(), pick()];
        let x = [pick(), pick(), pick()];
        let entry = max(max(n[0], n[1]), n[2]);
        let exit = min(min(x[0], x[1]), x[2]);
        let want = max(entry, 0.0) <= exit;
        let got = BoundingBox::ray_check_intersect_standard(v(n[0], n[1], n[2]), v(x[0], x[1], x[2]));
        assert_eq!(got, want, "{n:?} {x:?}");
    }
}
