//! Rays.

use vstd::prelude::*;
use crate::scalar::Scalar;
use crate::vec3::Vec3;

verus! {

/// A ray: where it starts, where it heads, the componentwise reciprocal of
/// its direction, and for each axis whether the direction is negative there.
#[derive(Clone, Copy, Debug)]
pub struct Ray {
    pub from: Vec3,
    pub dir: Vec3,
    pub inv_dir: Vec3,
    pub sign_x: usize,
    pub sign_y: usize,
    pub sign_z: usize,
}

impl Ray {
    /// 1 when the component is a number below zero, else 0. Negative zero and
    /// NaN give 0.
    pub open spec fn sign_of(component: Scalar) -> int {
        if component.below(Scalar { bits: 0 }) {
            1
        } else {
            0
        }
    }

    /// The three sign fields are those of the direction.
    pub open spec fn wf(self) -> bool {
        &&& self.sign_x == Self::sign_of(self.dir.x)
        &&& self.sign_y == Self::sign_of(self.dir.y)
        &&& self.sign_z == Self::sign_of(self.dir.z)
    }

    /// A ray from `from` along `dir`. The reciprocal of the direction is a
    /// division and comes from the caller; the signs are read off `dir` here.
    pub fn new(from: Vec3, dir: Vec3, inv_dir: Vec3) -> (ray: Ray)
        ensures
            ray.from == from,
            ray.dir == dir,
            ray.inv_dir == inv_dir,
            ray.wf(),
    {
        let zero = Scalar::zero();
        let sign_x: usize = if dir.x.lt(zero) { 1 } else { 0 };
        let sign_y: usize = if dir.y.lt(zero) { 1 } else { 0 };
        let sign_z: usize = if dir.z.lt(zero) { 1 } else { 0 };
        Ray { from, dir, inv_dir, sign_x, sign_y, sign_z }
    }
}

} // verus!
