//! Point lights and the shadow rule.

use vstd::prelude::*;
use crate::scalar::Scalar;
use crate::vec3::Vec3;

verus! {

/// A point light.
#[derive(Clone, Copy, Debug)]
pub struct Light {
    pub position: Vec3,
    pub intensity: Scalar,
}

impl Light {
    /// The shadow rule. `blocker` is the squared distance from the shaded point
    /// to whatever the shadow ray met first, if it met anything; `light` is the
    /// squared distance from the shaded point to the light. The light counts
    /// unless something was met that is not farther away than the light.
    pub open spec fn unblocked(blocker: Option<Scalar>, light: Scalar) -> bool {
        match blocker {
            Some(d) => light.below(d),
            None => true,
        }
    }

    /// A scale held at zero from below: the scale itself where it is a number
    /// above zero, and positive zero for anything else, a NaN included.
    pub open spec fn held_at_zero(scale: Scalar) -> Scalar {
        if (Scalar { bits: 0 }).below(scale) {
            scale
        } else {
            Scalar { bits: 0 }
        }
    }

    pub fn new(position: Vec3, intensity: Scalar) -> (l: Light)
        ensures
            l.position == position,
            l.intensity == intensity,
    {
        Light { position, intensity }
    }

    /// The part of a light that counts. `scale` is the cosine between two
    /// directions: for the diffuse part, from the surface to the light and the
    /// normal; for the specular part, the light's mirror image and the ray. A
    /// light from behind gives nothing: see `held_at_zero`.
    pub fn clamped(scale: Scalar) -> (r: Scalar)
        ensures
            r == Self::held_at_zero(scale),
    {
        if scale.gt(Scalar::zero()) {
            scale
        } else {
            Scalar::zero()
        }
    }

    /// Whether the light reaches the shaded point: see `unblocked`.
    pub fn reaches(blocker: Option<Scalar>, light: Scalar) -> (r: bool)
        ensures
            r == Self::unblocked(blocker, light),
    {
        match blocker {
            Some(d) => d.gt(light),
            None => true,
        }
    }
}

/// A light behind an occluder gives nothing, and gives again once the
/// occluder is gone: whatever was met no farther away than the light blocks
/// it, and with nothing met the light reaches the point.
pub proof fn lemma_occluder_blocks(blocker: Scalar, light: Scalar)
    requires
        blocker.at_most(light),
    ensures
        !Light::unblocked(Some(blocker), light),
        Light::unblocked(None, light),
{
}

/// What a light gives is never below zero, and is the scale itself wherever
/// that is above zero.
pub proof fn lemma_clamped_is_not_negative(scale: Scalar)
    ensures
        !Light::held_at_zero(scale).nan(),
        !Light::held_at_zero(scale).below(Scalar { bits: 0 }),
        (Scalar { bits: 0 }).below(scale) ==> Light::held_at_zero(scale) == scale,
{
}

} // verus!
