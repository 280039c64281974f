use raytracer::entity::plane::Plane;
use raytracer::entity::sphere::Sphere;
use raytracer::entity::triangle::Triangle;
use raytracer::error::SceneError;
use raytracer::light::Light;
use raytracer::material::Material;
use raytracer::scalar::Scalar;
use raytracer::vec3::Vec3;

fn s(x: f32) -> Scalar {
    Scalar::from_bits(x.to_bits())
}

fn f(x: Scalar) -> f32 {
    f32::from_bits(x.to_bits())
}

fn v(x: f32, y: f32, z: f32) -> Vec3 {
    Vec3::new(s(x), s(y), s(z))
}

fn bits(v: Vec3) -> [u32; 3] {
    [v.x.to_bits(), v.y.to_bits(), v.z.to_bits()]
}

const EPS: f32 = 1e-3;

fn values() -> Vec<f32> {
    vec![
        -3.0,
        -1.0,
        -1.5e-3,
        -EPS,
        -0.5e-3,
        -0.0,
        0.0,
        0.5e-3,
        EPS,
        1.5e-3,
        0.5,
        1.0,
        1.0 + EPS,
        1.002,
        4.0,
        f32::INFINITY,
        f32::NEG_INFINITY,
        f32::NAN,
    ]
}

#[test]
fn sphere_keeps_what_it_was_made_with() {
    let m = Material::default();
    let sphere = Sphere::new(v(0.0, 0.0, -5.0), s(2.0), m);
    assert_eq!(bits(sphere.center()), bits(v(0.0, 0.0, -5.0)));
    assert_eq!(f(sphere.radius()), 2.0);
    assert_eq!(f(sphere.material().refract_index), 1.0);
}

#[test]
fn sphere_with_a_radius_that_is_not_above_zero_is_refused() {
    let m = Material::default();
    for radius in [0.0_f32, -0.0, -2.0, f32::NEG_INFINITY, f32::NAN] {
        let refused = Sphere::try_new(v(0.0, 0.0, -5.0), s(radius), m).map(|sphere| f(sphere.radius()));
        assert_eq!(refused, Err(SceneError::NonPositiveRadius), "{radius}");
    }
    for radius in [2.0_f32, 1e-40, f32::INFINITY] {
        let made = Sphere::try_new(v(0.0, 0.0, -5.0), s(radius), m).map(|sphere| f(sphere.radius()));
        assert_eq!(made, Ok(radius), "{radius}");
    }
    assert_eq!(SceneError::NonPositiveRadius.message(), "the radius of a sphere must be above zero");
}

#[test]
fn sphere_takes_the_nearer_root() {
    assert_eq!(Sphere::hit_distance(s(0.0), s(4.0), s(3.0), s(7.0)).map(f), Some(3.0));
}

#[test]
fn sphere_seen_from_inside_takes_the_farther_root() {
    assert_eq!(Sphere::hit_distance(s(0.0), s(4.0), s(-2.0), s(2.0)).map(f), Some(2.0));
    // A nearer root exactly at the tolerance gives way too.
    assert_eq!(Sphere::hit_distance(s(0.0), s(4.0), s(EPS), s(2.0)).map(f), Some(2.0));
}

#[test]
fn sphere_wall_seen_from_within_is_told_apart() {
    assert!(!Sphere::hits_far_wall(s(3.0)));
    assert!(!Sphere::hits_far_wall(s(1.5e-3)));
    assert!(Sphere::hits_far_wall(s(EPS)));
    assert!(Sphere::hits_far_wall(s(0.0)));
    assert!(Sphere::hits_far_wall(s(-2.0)));
    assert!(!Sphere::hits_far_wall(s(f32::NAN)));
    // The far wall is hit exactly where the farther root is the distance.
    for near in values() {
        let far = 7.5_f32;
        if let Some(t) = Sphere::hit_distance(s(0.0), s(4.0), s(near), s(far)) {
            let want = if Sphere::hits_far_wall(s(near)) { far } else { near };
            assert_eq!(t.to_bits(), want.to_bits(), "{near}");
        }
        assert_eq!(Sphere::hits_far_wall(s(near)), near <= EPS, "{near}");
    }
}

#[test]
fn sphere_behind_the_ray_is_missed() {
    assert_eq!(Sphere::hit_distance(s(0.0), s(4.0), s(-7.0), s(-3.0)), None);
    assert_eq!(Sphere::hit_distance(s(0.0), s(4.0), s(-1.0), s(0.5e-3)), None);
}

#[test]
fn sphere_off_the_line_is_missed() {
    assert_eq!(Sphere::hit_distance(s(4.5), s(4.0), s(3.0), s(7.0)), None);
    // Touching the sphere still counts.
    assert_eq!(Sphere::hit_distance(s(4.0), s(4.0), s(3.0), s(3.0)).map(f), Some(3.0));
}

#[test]
fn sphere_rule_matches_the_formula() {
    let all = values();
    for &d2 in &all {
        for &r2 in &[0.25_f32, 4.0, f32::NAN] {
            for &near in &all {
                for &far in &all {
                    let want = if d2 > r2 {
                        None
                    } else {
                        let taken = if near <= EPS { far } else { near };
                        if taken < EPS {
                            None
                        } else {
                            Some(taken.to_bits())
                        }
                    };
                    let got = Sphere::hit_distance(s(d2), s(r2), s(near), s(far)).map(|t| t.to_bits());
                    assert_eq!(got, want, "{d2} {r2} {near} {far}");
                }
            }
        }
    }
}

#[test]
fn plane_keeps_what_it_was_made_with() {
    let p = Plane::new(v(0.0, -4.0, 0.0), v(0.0, 1.0, 0.0), Material::default());
    assert_eq!(bits(p.point), bits(v(0.0, -4.0, 0.0)));
    assert_eq!(bits(p.normal), bits(v(0.0, 1.0, 0.0)));
    assert_eq!(f(p.material.albedo[0]), 1.0);
}

#[test]
fn plane_ahead_of_a_ray_that_faces_it_is_met() {
    // Straight down onto a floor 4 below: facing -1, reach (-4) * (-1).
    assert!(Plane::is_met(s(-1.0), s(4.0)));
}

#[test]
fn parallel_ray_never_meets_the_plane() {
    for reach in values() {
        assert!(!Plane::is_met(s(0.0), s(reach)));
        assert!(!Plane::is_met(s(-0.0), s(reach)));
        assert!(!Plane::is_met(s(-0.5e-3), s(reach)));
    }
}

#[test]
fn ray_that_heads_away_never_meets_the_plane() {
    for reach in values() {
        assert!(!Plane::is_met(s(1.0), s(reach)));
        assert!(!Plane::is_met(s(f32::NAN), s(reach)));
    }
}

#[test]
fn plane_behind_the_ray_is_not_met() {
    assert!(!Plane::is_met(s(-1.0), s(-4.0)));
    assert!(!Plane::is_met(s(-1.0), s(0.5e-3)));
    assert!(Plane::is_met(s(-1.0), s(EPS)));
}

#[test]
fn plane_rule_matches_the_formula() {
    let all = values();
    for &facing in &all {
        for &reach in &all {
            let want = facing < -EPS && !(reach < EPS);
            assert_eq!(Plane::is_met(s(facing), s(reach)), want, "{facing} {reach}");
        }
    }
}

fn triangle() -> Triangle {
    Triangle::new([0, 1, 2], v(0.0, 0.0, 1.0), s(-5.0), 0)
}

#[test]
fn triangle_keeps_what_it_was_made_with() {
    let t = Triangle::new([4, 5, 6], v(0.0, 1.0, 0.0), s(2.5), 3);
    assert_eq!(t.points, [4, 5, 6]);
    assert_eq!(bits(t.normal), bits(v(0.0, 1.0, 0.0)));
    assert_eq!(f(t.distance), 2.5);
    assert_eq!(t.material, 3);
}

#[test]
fn triangle_hit_from_the_front_reports_its_normal() {
    let t = triangle();
    let n = t.hit_normal(s(-1.0), s(2.0), s(0.25), s(0.25), s(0.5), s(5.0));
    assert_eq!(n.map(bits), Some(bits(v(0.0, 0.0, 1.0))));
}

#[test]
fn triangle_hit_with_negative_determinant_reports_the_opposite_normal() {
    let t = triangle();
    let n = t.hit_normal(s(0.5e-3), s(-2.0), s(0.25), s(0.25), s(0.5), s(5.0));
    assert_eq!(n.map(bits), Some(bits(v(-0.0, -0.0, -1.0))));
}

#[test]
fn triangle_is_missed_outside_its_edges() {
    let t = triangle();
    assert_eq!(t.hit_normal(s(-1.0), s(2.0), s(-0.1), s(0.25), s(0.15), s(5.0)).map(bits), None);
    assert_eq!(t.hit_normal(s(-1.0), s(2.0), s(1.1), s(0.0), s(1.1), s(5.0)).map(bits), None);
    assert_eq!(t.hit_normal(s(-1.0), s(2.0), s(0.25), s(-0.1), s(0.15), s(5.0)).map(bits), None);
    assert_eq!(t.hit_normal(s(-1.0), s(2.0), s(0.75), s(0.75), s(1.5), s(5.0)).map(bits), None);
}

#[test]
fn triangle_edges_have_their_tolerance() {
    let t = triangle();
    // Each coordinate may dip below zero by the tolerance, and each of them and
    // their sum may pass one by it.
    assert!(t.hit_normal(s(-1.0), s(2.0), s(0.5), s(-EPS), s(0.5 - EPS), s(5.0)).is_some());
    assert!(t.hit_normal(s(-1.0), s(2.0), s(0.5), s(0.5 + EPS), s(1.0 + EPS), s(5.0)).is_some());
    assert!(t.hit_normal(s(-1.0), s(2.0), s(-0.5e-3), s(0.5), s(0.4995), s(5.0)).is_some());
    assert!(t.hit_normal(s(-1.0), s(2.0), s(-EPS), s(0.5), s(0.499), s(5.0)).is_some());
    assert!(t.hit_normal(s(-1.0), s(2.0), s(1.0 + EPS), s(0.0), s(1.0 + EPS), s(5.0)).is_some());
    assert!(t.hit_normal(s(-1.0), s(2.0), s(-EPS), s(1.0 + EPS), s(1.0), s(5.0)).is_some());
    assert!(t.hit_normal(s(-1.0), s(2.0), s(0.0), s(0.5), s(0.5), s(5.0)).is_some());
    assert!(t.hit_normal(s(-1.0), s(2.0), s(1.0), s(0.0), s(1.0), s(5.0)).is_some());
    // Beyond the tolerance nothing is hit.
    assert!(t.hit_normal(s(-1.0), s(2.0), s(-1.5e-3), s(0.5), s(0.4985), s(5.0)).is_none());
    assert!(t.hit_normal(s(-1.0), s(2.0), s(1.002), s(0.0), s(1.0), s(5.0)).is_none());
    assert!(t.hit_normal(s(-1.0), s(2.0), s(0.5), s(-1.5e-3), s(0.4985), s(5.0)).is_none());
    assert!(t.hit_normal(s(-1.0), s(2.0), s(-EPS), s(1.002), s(1.0), s(5.0)).is_none());
    assert!(t.hit_normal(s(-1.0), s(2.0), s(0.5), s(0.502), s(1.002), s(5.0)).is_none());
    // A coordinate that is no number: u is refused, v is let through.
    assert!(t.hit_normal(s(-1.0), s(2.0), s(f32::NAN), s(0.5), s(0.5), s(5.0)).is_none());
    assert!(t.hit_normal(s(-1.0), s(2.0), s(0.5), s(f32::NAN), s(0.5), s(5.0)).is_some());
}

#[test]
fn ray_from_behind_the_triangle_is_rejected_at_once() {
    assert!(Triangle::comes_from_behind(s(1.0)));
    assert!(Triangle::comes_from_behind(s(1.5e-3)));
    assert!(!Triangle::comes_from_behind(s(EPS)));
    assert!(!Triangle::comes_from_behind(s(0.0)));
    assert!(!Triangle::comes_from_behind(s(-1.0)));
    assert!(!Triangle::comes_from_behind(s(f32::NAN)));
    let t = triangle();
    for facing in values() {
        assert_eq!(Triangle::comes_from_behind(s(facing)), facing > EPS, "{facing}");
        if Triangle::comes_from_behind(s(facing)) {
            assert!(t.facing_normal(s(facing), s(2.0)).is_none());
        }
    }
}

#[test]
fn triangle_is_missed_by_a_parallel_ray() {
    let t = triangle();
    for det in [0.0_f32, -0.0, 0.5e-3, -0.5e-3] {
        assert!(t.hit_normal(s(0.0), s(det), s(0.25), s(0.25), s(0.5), s(5.0)).is_none());
    }
}

#[test]
fn triangle_is_missed_from_the_wrong_side_or_behind() {
    let t = triangle();
    assert!(t.hit_normal(s(1.0), s(-2.0), s(0.25), s(0.25), s(0.5), s(5.0)).is_none());
    assert!(t.hit_normal(s(-1.0), s(2.0), s(0.25), s(0.25), s(0.5), s(-5.0)).is_none());
    assert!(t.hit_normal(s(-1.0), s(2.0), s(0.25), s(0.25), s(0.5), s(EPS)).is_none());
}

#[test]
fn triangle_rule_in_two_halves() {
    let t = triangle();
    let all = values();
    for &facing in &all {
        for &det in &all {
            let want = if facing > EPS || det.abs() < EPS {
                None
            } else {
                Some(if det < EPS { bits(-t.normal) } else { bits(t.normal) })
            };
            assert_eq!(t.facing_normal(s(facing), s(det)).map(bits), want, "{facing} {det}");
        }
    }
    for &u in &all {
        for &w in &all {
            for &sum in &[0.5_f32, 1.0, 1.0 + EPS, 1.002, f32::NAN] {
                for &dist in &[-1.0_f32, 0.0, EPS, 1.5e-3, 5.0, f32::NAN] {
                    let most = 1.0 + EPS;
                    let want = (-EPS..=most).contains(&u) && !(w < -EPS || w > most || sum > most) && dist > EPS;
                    assert_eq!(Triangle::is_inside(s(u), s(w), s(sum), s(dist)), want, "{u} {w} {sum} {dist}");
                }
            }
        }
    }
}

#[test]
fn triangle_rule_matches_the_formula() {
    let t = triangle();
    let all = values();
    let mut state = 777_u32;
    let mut pick = || {
        state = state.wrapping_mul(1_664_525).wrapping_add(1_013_904_223);
        all[(state >> 16) as usize % all.len()]
    };
    for _ in 0..20000 {
        let (facing, det, u, v_, sum, dist) = (pick(), pick(), pick(), pick(), pick(), pick());
        let want = if facing > EPS {
            None
        } else if det.abs() < EPS {
            None
        } else if !(-EPS..=1.0 + EPS).contains(&u) {
            None
        } else if v_ < -EPS || v_ > 1.0 + EPS || sum > 1.0 + EPS {
            None
        } else if dist > EPS {
            Some(if det < EPS { bits(-t.normal) } else { bits(t.normal) })
        } else {
            None
        };
        let got = t.hit_normal(s(facing), s(det), s(u), s(v_), s(sum), s(dist)).map(bits);
        assert_eq!(got, want, "{facing} {det} {u} {v_} {sum} {dist}");
    }
}

#[test]
fn material_default_is_fully_diffuse() {
    let m = Material::default();
    assert_eq!(f(m.refract_index), 1.0);
    assert_eq!(m.albedo.map(f), [1.0, 0.0, 0.0, 0.0]);
    assert_eq!(bits(m.diffuse_color), [0, 0, 0]);
    assert_eq!(m.spectacular_exp.to_bits(), 0);
    assert!(!m.reflects());
    assert!(!m.refracts());
}

#[test]
fn material_casts_secondary_rays_for_weights_that_matter() {
    let with = |reflection: f32, refraction: f32| {
        Material::new(s(1.5), [s(0.0), s(0.5), s(reflection), s(refraction)], v(0.6, 0.7, 0.8), s(125.0))
    };
    let glass = with(0.1, 0.8);
    assert_eq!(f(glass.refract_index), 1.5);
    assert_eq!(f(glass.spectacular_exp), 125.0);
    assert_eq!(bits(glass.diffuse_color), bits(v(0.6, 0.7, 0.8)));
    assert!(glass.reflects() && glass.refracts());
    assert!(with(-0.1, 0.0).reflects());
    assert!(!with(-0.1, 0.0).refracts());
    assert!(!with(0.5e-3, -0.5e-3).reflects());
    assert!(!with(0.5e-3, -0.5e-3).refracts());
    assert!(with(EPS, -EPS).reflects());
    assert!(with(EPS, -EPS).refracts());
    assert!(with(f32::NAN, f32::INFINITY).reflects());
    assert!(with(f32::NAN, f32::INFINITY).refracts());
    for w in values() {
        assert_eq!(with(w, 0.0).reflects(), !(libm::fabsf(w) < EPS), "{w}");
        assert_eq!(with(0.0, w).refracts(), !(libm::fabsf(w) < EPS), "{w}");
    }
}

#[test]
fn light_keeps_what_it_was_made_with() {
    let l = Light::new(v(-20.0, 20.0, 20.0), s(1.5));
    assert_eq!(bits(l.position), bits(v(-20.0, 20.0, 20.0)));
    assert_eq!(f(l.intensity), 1.5);
}

#[test]
fn light_from_behind_gives_nothing() {
    assert_eq!(Light::clamped(s(0.75)).to_bits(), 0.75_f32.to_bits());
    assert_eq!(Light::clamped(s(1e-30)).to_bits(), 1e-30_f32.to_bits());
    assert_eq!(Light::clamped(s(f32::INFINITY)).to_bits(), f32::INFINITY.to_bits());
    assert_eq!(Light::clamped(s(-0.75)).to_bits(), 0);
    assert_eq!(Light::clamped(s(0.0)).to_bits(), 0);
    assert_eq!(Light::clamped(s(-0.0)).to_bits(), 0);
    assert_eq!(Light::clamped(s(f32::NEG_INFINITY)).to_bits(), 0);
    assert_eq!(Light::clamped(s(f32::NAN)).to_bits(), 0);
    // The same number as the greater of zero and the scale.
    for scale in values() {
        assert_eq!(f(Light::clamped(s(scale))), 0.0_f32.max(scale), "{scale}");
        assert_eq!(f(Light::clamped(s(scale))), scale.max(0.0), "{scale}");
    }
}

#[test]
fn light_behind_an_occluder_is_blocked() {
    // The occluder is met at squared distance 4, the light is at 25.
    assert!(!Light::reaches(Some(s(4.0)), s(25.0)));
    // Something met exactly as far as the light blocks it too.
    assert!(!Light::reaches(Some(s(25.0)), s(25.0)));
}

#[test]
fn light_is_restored_when_the_occluder_is_gone() {
    assert!(Light::reaches(None, s(25.0)));
}

#[test]
fn what_lies_beyond_the_light_does_not_block_it() {
    assert!(Light::reaches(Some(s(36.0)), s(25.0)));
}

#[test]
fn shadow_rule_matches_the_formula() {
    let all = values();
    for &blocker in &all {
        for &light in &all {
            assert_eq!(Light::reaches(Some(s(blocker)), s(light)), blocker > light, "{blocker} {light}");
        }
    }
}
