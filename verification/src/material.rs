//! Surface materials.

use vstd::prelude::*;
use crate::scalar::{Scalar, ONE_BITS};
use crate::utils::tolerance;
use crate::vec3::Vec3;

verus! {

/// How a surface answers light: the index of refraction, the four albedo
/// weights in the order diffuse, specular, reflection, refraction, the diffuse
/// colour and the specular exponent.
#[derive(Clone, Copy, Debug)]
pub struct Material {
    pub refract_index: Scalar,
    pub albedo: [Scalar; 4],
    pub diffuse_color: Vec3,
    pub spectacular_exp: Scalar,
}

impl Material {
    /// The weight is worth a secondary ray: its absolute value is not below the
    /// tolerance. A NaN weight counts as worth it.
    pub open spec fn weighs(weight: Scalar) -> bool {
        !weight.absolute().below(tolerance())
    }

    /// The material sends a reflected ray.
    pub open spec fn reflective(self) -> bool {
        Self::weighs(self.albedo@[2])
    }

    /// The material sends a refracted ray.
    pub open spec fn refractive(self) -> bool {
        Self::weighs(self.albedo@[3])
    }

    pub fn new(
        refract_index: Scalar,
        albedo: [Scalar; 4],
        diffuse_color: Vec3,
        spectacular_exp: Scalar,
    ) -> (m: Material)
        ensures
            m.refract_index == refract_index,
            m.albedo == albedo,
            m.diffuse_color == diffuse_color,
            m.spectacular_exp == spectacular_exp,
    {
        Material { refract_index, albedo, diffuse_color, spectacular_exp }
    }

    /// Whether a reflected ray is cast for a hit on this material.
    pub fn reflects(&self) -> (r: bool)
        ensures
            r == self.reflective(),
    {
        !self.albedo[2].abs().lt(tolerance())
    }

    /// Whether a refracted ray is cast for a hit on this material.
    pub fn refracts(&self) -> (r: bool)
        ensures
            r == self.refractive(),
    {
        !self.albedo[3].abs().lt(tolerance())
    }
}

impl Default for Material {
    /// Fully diffuse and black: index of refraction 1, albedo `[1, 0, 0, 0]`,
    /// the zero colour and a specular exponent of 0.
    fn default() -> (m: Material)
        ensures
            m.refract_index.bits == ONE_BITS,
            m.albedo@.len() == 4,
            m.albedo@[0].bits == ONE_BITS,
            m.albedo@[1].bits == 0,
            m.albedo@[2].bits == 0,
            m.albedo@[3].bits == 0,
            m.diffuse_color.x.bits == 0,
            m.diffuse_color.y.bits == 0,
            m.diffuse_color.z.bits == 0,
            m.spectacular_exp.bits == 0,
    {
        Material {
            refract_index: Scalar::one(),
            albedo: [Scalar::one(), Scalar::zero(), Scalar::zero(), Scalar::zero()],
            diffuse_color: Vec3::new(Scalar::zero(), Scalar::zero(), Scalar::zero()),
            spectacular_exp: Scalar::zero(),
        }
    }
}

} // verus!
