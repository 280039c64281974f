//! Triangles over the shared point buffer.

use vstd::prelude::*;
use core::ops::Neg;
use crate::render::RenderState;
use crate::scalar::{Scalar, ONE_BITS};
use crate::utils::{tolerance, MaterialIdx, Vec3Idx};
use crate::vec3::Vec3;

verus! {

/// The encoding of `1.0 + 1e-3`, the upper bound on the sum of the two
/// barycentric coordinates.
pub const ONE_PLUS_EPSILON_BITS: u32 = 0x3f80_20c5;

/// A triangle: its corners and its material by index into the buffers of
/// the render state, its unit normal, and the distance of its plane from the
/// origin along that normal.
#[derive(Clone, Copy, Debug)]
pub struct Triangle {
    pub points: [Vec3Idx; 3],
    pub normal: Vec3,
    pub distance: Scalar,
    pub material: MaterialIdx,
}

impl Triangle {
    /// The three corners are points of the buffer.
    pub open spec fn corners_in(self, points: Seq<Vec3>) -> bool {
        forall|k: int| 0 <= k < 3 ==> (#[trigger] self.points@[k]) < points.len()
    }

    /// The corners and the material are entries of the state's buffers.
    pub open spec fn valid_in(self, state: &RenderState) -> bool {
        &&& self.corners_in(state.vec_buf@)
        &&& self.material < state.material_buf@.len()
    }

    /// The ray comes from behind the triangle: it heads along the normal by
    /// more than the tolerance. Such a ray is rejected before the corners are
    /// even read.
    pub open spec fn from_behind(facing: Scalar) -> bool {
        tolerance().below(facing)
    }

    /// How a ray approaches the triangle: the first half of the
    /// Möller–Trumbore test, before anything is divided by the determinant.
    ///
    /// `facing` is the dot product of the ray's direction with the normal and
    /// `det` the determinant. The ray may hit when it does not head along the
    /// normal by more than the tolerance and the determinant is not within the
    /// tolerance of zero. The result is then the normal to report: the
    /// triangle's own, or its opposite when the determinant is negative, so
    /// that it faces the ray.
    pub open spec fn approach(self, facing: Scalar, det: Scalar) -> Option<Vec3> {
        if Self::from_behind(facing) || det.absolute().below(tolerance()) {
            None
        } else if det.below(tolerance()) {
            Some(self.normal.negated())
        } else {
            Some(self.normal)
        }
    }

    /// Whether the ray crosses the triangle's plane within its edges and ahead
    /// of its origin: the second half of the test.
    ///
    /// `u` and `v` are the barycentric coordinates of the crossing point, `sum`
    /// their sum, and `dist` the distance along the ray. Each bound has the
    /// tolerance, so that no ray slips through the seam between two triangles:
    /// `u` must be a number from minus the tolerance to one plus the
    /// tolerance, `v` must be neither below the one nor above the other, and
    /// `sum` must not be above one plus the tolerance. `dist` must be above the
    /// tolerance.
    pub open spec fn inside(u: Scalar, v: Scalar, sum: Scalar, dist: Scalar) -> bool {
        let most = Scalar { bits: ONE_PLUS_EPSILON_BITS };
        &&& tolerance().negated().at_most(u)
        &&& u.at_most(most)
        &&& !v.below(tolerance().negated())
        &&& !most.below(v)
        &&& !most.below(sum)
        &&& tolerance().below(dist)
    }

    /// What a ray finds on the triangle: the normal to report if it approaches
    /// the triangle as `approach` asks and crosses it as `inside` asks, and
    /// nothing otherwise.
    pub open spec fn struck(
        self,
        facing: Scalar,
        det: Scalar,
        u: Scalar,
        v: Scalar,
        sum: Scalar,
        dist: Scalar,
    ) -> Option<Vec3> {
        if Self::inside(u, v, sum, dist) {
            self.approach(facing, det)
        } else {
            None
        }
    }

    /// A triangle over the given corners. The normal and the plane distance are
    /// computed from the corners by the caller.
    pub fn new(points: [Vec3Idx; 3], normal: Vec3, distance: Scalar, material: MaterialIdx) -> (t:
        Triangle)
        ensures
            t.points == points,
            t.normal == normal,
            t.distance == distance,
            t.material == material,
    {
        Triangle { points, normal, distance, material }
    }

    /// Whether the three corners are points of the state's buffer.
    pub fn has_corners_in(&self, state: &RenderState) -> (r: bool)
        ensures
            r == self.corners_in(state.vec_buf@),
    {
        let n = state.vec_buf.points.len();
        let ok = (self.points[0] as usize) < n && (self.points[1] as usize) < n && (self.points[2] as usize) < n;
        proof {
            if ok {
                assert forall|k: int| 0 <= k < 3 implies (#[trigger] self.points@[k]) < n by {
                    assert(k == 0 || k == 1 || k == 2);
                }
            } else if self.corners_in(state.vec_buf@) {
                assert(self.points@[0] < n && self.points@[1] < n && self.points@[2] < n);
            }
        }
        ok
    }

    /// Whether the corners and the material are entries of the state's buffers.
    pub fn is_valid_in(&self, state: &RenderState) -> (r: bool)
        ensures
            r == self.valid_in(state),
    {
        self.has_corners_in(state) && (self.material as usize) < state.material_buf.materials.len()
    }

    /// The three corners, read from the point buffer.
    pub fn corners(&self, state: &RenderState) -> (abc: (Vec3, Vec3, Vec3))
        requires
            self.corners_in(state.vec_buf@),
        ensures
            abc.0 == state.vec_buf@[self.points@[0] as int],
            abc.1 == state.vec_buf@[self.points@[1] as int],
            abc.2 == state.vec_buf@[self.points@[2] as int],
    {
        let a = *state.vec_buf.load(self.points[0]);
        let b = *state.vec_buf.load(self.points[1]);
        let c = *state.vec_buf.load(self.points[2]);
        (a, b, c)
    }

    /// Whether the ray comes from behind and is rejected at once: see
    /// `from_behind`.
    pub fn comes_from_behind(facing: Scalar) -> (r: bool)
        ensures
            r == Self::from_behind(facing),
    {
        facing.gt(tolerance())
    }

    /// The normal to report if the ray goes on to hit, and `None` if it cannot
    /// hit: see `approach`. Nothing has been divided by the determinant yet.
    pub fn facing_normal(&self, facing: Scalar, det: Scalar) -> (r: Option<Vec3>)
        ensures
            r == self.approach(facing, det),
    {
        let eps = tolerance();
        if Self::comes_from_behind(facing) {
            return None;
        }
        if det.abs().lt(eps) {
            return None;
        }
        if det.lt(eps) {
            Some(self.normal.neg())
        } else {
            Some(self.normal)
        }
    }

    /// Whether the crossing point lies within the edges and ahead of the ray:
    /// see `inside`.
    pub fn is_inside(u: Scalar, v: Scalar, sum: Scalar, dist: Scalar) -> (r: bool)
        ensures
            r == Self::inside(u, v, sum, dist),
    {
        let eps = tolerance();
        let most = Scalar::from_bits(ONE_PLUS_EPSILON_BITS);
        if !(eps.neg().le(u) && u.le(most)) {
            return false;
        }
        if v.lt(eps.neg()) || v.gt(most) || sum.gt(most) {
            return false;
        }
        dist.gt(eps)
    }

    /// The normal to report for a hit, if the ray hits: see `struck`.
    pub fn hit_normal(
        &self,
        facing: Scalar,
        det: Scalar,
        u: Scalar,
        v: Scalar,
        sum: Scalar,
        dist: Scalar,
    ) -> (r: Option<Vec3>)
        ensures
            r == self.struck(facing, det, u, v, sum, dist),
    {
        match self.facing_normal(facing, det) {
            Some(normal) => if Self::is_inside(u, v, sum, dist) {
                Some(normal)
            } else {
                None
            },
            None => None,
        }
    }
}

/// A ray parallel to the triangle's plane never hits it: where the
/// determinant is zero, or within the tolerance of zero, nothing is struck.
pub proof fn lemma_parallel_ray_misses(
    t: Triangle,
    facing: Scalar,
    det: Scalar,
    u: Scalar,
    v: Scalar,
    sum: Scalar,
    dist: Scalar,
)
    requires
        det.absolute().below(tolerance()),
    ensures
        t.struck(facing, det, u, v, sum, dist) is None,
{
}

/// A ray that crosses the plane of the triangle within its edges, ahead of
/// its origin and from the side the normal points to, hits it and is given
/// the triangle's own normal.
pub proof fn lemma_ray_within_edges_hits(
    t: Triangle,
    facing: Scalar,
    det: Scalar,
    u: Scalar,
    v: Scalar,
    sum: Scalar,
    dist: Scalar,
)
    requires
        facing.at_most(Scalar { bits: 0 }),
        tolerance().at_most(det),
        (Scalar { bits: 0 }).at_most(u),
        (Scalar { bits: 0 }).at_most(v),
        u.at_most(Scalar { bits: ONE_BITS }),
        v.at_most(Scalar { bits: ONE_BITS }),
        sum.at_most(Scalar { bits: ONE_BITS }),
        tolerance().below(dist),
    ensures
        t.struck(facing, det, u, v, sum, dist) == Some(t.normal),
{
}

/// A ray that crosses the plane of the triangle outside its edges misses it:
/// a barycentric coordinate below zero by more than the tolerance, or one of
/// them or their sum above one by more than the tolerance, gives no hit.
pub proof fn lemma_ray_outside_edges_misses(
    t: Triangle,
    facing: Scalar,
    det: Scalar,
    u: Scalar,
    v: Scalar,
    sum: Scalar,
    dist: Scalar,
)
    requires
        ({
            let most = Scalar { bits: ONE_PLUS_EPSILON_BITS };
            ||| u.below(tolerance().negated())
            ||| v.below(tolerance().negated())
            ||| most.below(u)
            ||| most.below(v)
            ||| most.below(sum)
        }),
    ensures
        t.struck(facing, det, u, v, sum, dist) is None,
{
}

/// The normal reported for a hit is the triangle's own or its opposite, and
/// the opposite exactly when the determinant is negative.
pub proof fn lemma_reported_normal(
    t: Triangle,
    facing: Scalar,
    det: Scalar,
    u: Scalar,
    v: Scalar,
    sum: Scalar,
    dist: Scalar,
)
    requires
        t.struck(facing, det, u, v, sum, dist) is Some,
    ensures
        !det.nan() ==> (t.struck(facing, det, u, v, sum, dist) == Some(
            if det.sign() {
                t.normal.negated()
            } else {
                t.normal
            },
        )),
{
}

} // verus!
