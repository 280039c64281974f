//! Spheres.

use vstd::prelude::*;
use crate::error::SceneError;
use crate::material::Material;
use crate::scalar::Scalar;
use crate::utils::tolerance;
use crate::vec3::Vec3;

verus! {

/// A sphere. Its radius is a number above zero.
#[derive(Clone, Copy, Debug)]
pub struct Sphere {
    center: Vec3,
    radius: Scalar,
    material: Material,
}

impl Sphere {
    #[verifier::type_invariant]
    spec fn radius_is_positive(self) -> bool {
        (Scalar { bits: 0 }).below(self.radius)
    }

    /// The centre the sphere was made with.
    pub closed spec fn center_of(self) -> Vec3 {
        self.center
    }

    /// The radius the sphere was made with.
    pub closed spec fn radius_of(self) -> Scalar {
        self.radius
    }

    /// The material the sphere was made with.
    pub closed spec fn material_of(self) -> Material {
        self.material
    }

    /// The ray meets the sphere from within: the nearer root lies at or before
    /// the tolerance, so that the farther root, if any, is the hit. The wall
    /// that is hit then bulges away from the ray, and the normal to report is
    /// the opposite of the outward one.
    pub open spec fn far_wall(near: Scalar) -> bool {
        near.at_most(tolerance())
    }

    /// Which root of the ray-sphere equation counts as the hit.
    ///
    /// `closest_sq` is the squared distance from the centre to the ray's line,
    /// `radius_sq` the squared radius, `near` and `far` the two roots as
    /// distances along the ray. The line must not pass outside the sphere. The
    /// nearer root is taken unless it lies at or before the tolerance, then
    /// the farther one, so that a ray from inside still finds the far wall;
    /// and the root taken must not lie below the tolerance.
    pub open spec fn root(closest_sq: Scalar, radius_sq: Scalar, near: Scalar, far: Scalar) -> Option<
        Scalar,
    > {
        let taken = if Self::far_wall(near) {
            far
        } else {
            near
        };
        if radius_sq.below(closest_sq) || taken.below(tolerance()) {
            None
        } else {
            Some(taken)
        }
    }

    /// A sphere of the given radius, which must be above zero.
    pub fn new(center: Vec3, radius: Scalar, material: Material) -> (s: Sphere)
        requires
            (Scalar { bits: 0 }).below(radius),
        ensures
            s.center_of() == center,
            s.radius_of() == radius,
            s.material_of() == material,
    {
        Sphere { center, radius, material }
    }

    /// A sphere of the given radius, or the refusal of a radius that is not a
    /// number above zero.
    pub fn try_new(center: Vec3, radius: Scalar, material: Material) -> (r: Result<Sphere, SceneError>)
        ensures
            (Scalar { bits: 0 }).below(radius) <==> r is Ok,
            r matches Ok(s) ==> s.center_of() == center && s.radius_of() == radius && s.material_of()
                == material,
            r matches Err(e) ==> e == SceneError::NonPositiveRadius,
    {
        if radius.gt(Scalar::zero()) {
            Ok(Sphere::new(center, radius, material))
        } else {
            Err(SceneError::NonPositiveRadius)
        }
    }

    pub fn center(&self) -> (c: Vec3)
        ensures
            c == self.center_of(),
    {
        self.center
    }

    /// The radius: a number above zero.
    pub fn radius(&self) -> (r: Scalar)
        ensures
            r == self.radius_of(),
            (Scalar { bits: 0 }).below(r),
    {
        proof {
            use_type_invariant(self);
        }
        self.radius
    }

    pub fn material(&self) -> (m: Material)
        ensures
            m == self.material_of(),
    {
        self.material
    }

    /// Whether a hit is on the far wall, seen from within: see `far_wall`. The
    /// outward normal at the hit point is then reversed, so that the normal
    /// reported faces the ray.
    pub fn hits_far_wall(near: Scalar) -> (r: bool)
        ensures
            r == Self::far_wall(near),
    {
        near.le(tolerance())
    }

    /// The distance along the ray at which it hits the sphere, if it does: see
    /// `root`.
    pub fn hit_distance(closest_sq: Scalar, radius_sq: Scalar, near: Scalar, far: Scalar) -> (r:
        Option<Scalar>)
        ensures
            r == Self::root(closest_sq, radius_sq, near, far),
    {
        if closest_sq.gt(radius_sq) {
            return None;
        }
        let mut t0 = near;
        if Self::hits_far_wall(near) {
            t0 = far;
        }
        if t0.lt(tolerance()) {
            return None;
        }
        Some(t0)
    }
}

/// The distance of a hit is the farther root exactly when the hit is on the
/// far wall, and the nearer root otherwise.
pub proof fn lemma_root_taken(closest_sq: Scalar, radius_sq: Scalar, near: Scalar, far: Scalar)
    requires
        Sphere::root(closest_sq, radius_sq, near, far) is Some,
    ensures
        Sphere::root(closest_sq, radius_sq, near, far) == Some(
            if Sphere::far_wall(near) {
                far
            } else {
                near
            },
        ),
{
}

/// A ray from outside that meets the sphere hits it at the nearer root: where
/// the line does not pass outside and the nearer root lies beyond the
/// tolerance, that root is the distance of the hit.
pub proof fn lemma_ray_from_outside_takes_nearer_root(
    closest_sq: Scalar,
    radius_sq: Scalar,
    near: Scalar,
    far: Scalar,
)
    requires
        !radius_sq.below(closest_sq),
        tolerance().below(near),
    ensures
        Sphere::root(closest_sq, radius_sq, near, far) == Some(near),
{
}

/// A ray from inside the sphere hits its far wall: where the nearer root lies
/// behind the origin and the farther one beyond the tolerance, the farther
/// root is the distance of the hit.
pub proof fn lemma_ray_from_inside_takes_farther_root(
    closest_sq: Scalar,
    radius_sq: Scalar,
    near: Scalar,
    far: Scalar,
)
    requires
        !radius_sq.below(closest_sq),
        near.at_most(Scalar { bits: 0 }),
        tolerance().below(far),
    ensures
        Sphere::root(closest_sq, radius_sq, near, far) == Some(far),
{
}

/// A line that passes outside the sphere gives no hit, and neither does a
/// sphere that lies behind the ray.
pub proof fn lemma_sphere_missed(closest_sq: Scalar, radius_sq: Scalar, near: Scalar, far: Scalar)
    requires
        radius_sq.below(closest_sq) || (near.below(tolerance()) && far.below(tolerance())),
    ensures
        Sphere::root(closest_sq, radius_sq, near, far) is None,
{
}

} // verus!
