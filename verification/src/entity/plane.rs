//! Planes.

use vstd::prelude::*;
use crate::material::Material;
use crate::scalar::{Scalar, ONE_BITS};
use crate::utils::tolerance;
use crate::vec3::Vec3;

verus! {

/// An infinite plane through `point`, seen only from the side its normal
/// points to.
#[derive(Clone, Copy, Debug)]
pub struct Plane {
    pub point: Vec3,
    pub normal: Vec3,
    pub material: Material,
}

impl Plane {
    /// Whether a ray meets the plane.
    ///
    /// `facing` is the dot product of the ray's direction with the normal;
    /// `reach` is `facing` times the dot product of the normal with the vector
    /// from the ray's origin to the plane's point. The ray must head against
    /// the normal: `facing` must be below minus the tolerance. And the plane
    /// must lie ahead of the ray: `reach` must not be below the tolerance.
    pub open spec fn met(facing: Scalar, reach: Scalar) -> bool {
        facing.below(tolerance().negated()) && !reach.below(tolerance())
    }

    pub fn new(point: Vec3, normal: Vec3, material: Material) -> (p: Plane)
        ensures
            p.point == point,
            p.normal == normal,
            p.material == material,
    {
        Plane { point, normal, material }
    }

    /// Whether a ray meets the plane: see `met`.
    pub fn is_met(facing: Scalar, reach: Scalar) -> (r: bool)
        ensures
            r == Self::met(facing, reach),
    {
        if !facing.lt(tolerance().neg()) {
            return false;
        }
        if reach.lt(tolerance()) {
            return false;
        }
        true
    }
}

/// A ray parallel to the plane never meets it: where the dot product of its
/// direction with the normal is zero, or within the tolerance of zero, the
/// plane is not met, whatever else holds.
pub proof fn lemma_parallel_ray_misses(facing: Scalar, reach: Scalar)
    requires
        facing.absolute().below(tolerance()),
    ensures
        !Plane::met(facing, reach),
{
}

/// A ray aimed straight at the plane from the side its normal points to
/// meets it: there `facing` is minus one, `reach` is the distance to the plane,
/// and the plane is met from any distance that is not below the tolerance.
pub proof fn lemma_ray_aimed_at_plane_meets(reach: Scalar)
    requires
        tolerance().at_most(reach),
    ensures
        Plane::met(Scalar { bits: ONE_BITS }.negated(), reach),
{
}

/// A ray that heads away from the side the normal points to never meets the
/// plane either.
pub proof fn lemma_receding_ray_misses(facing: Scalar, reach: Scalar)
    requires
        (Scalar { bits: 0 }).below(facing),
    ensures
        !Plane::met(facing, reach),
{
}

} // verus!
