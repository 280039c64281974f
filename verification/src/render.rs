//! The render state: camera, limits, buffers, lights and the scene.

use vstd::prelude::*;
use crate::entity::scene::Scene;
use crate::light::Light;
use crate::material::Material;
use crate::scalar::{Scalar, ONE_BITS};
use crate::utils::{MaterialBuf, MaterialIdx, Vec3Idx, VecBuf};
use crate::vec3::Vec3;

verus! {

/// All that one frame is rendered from.
#[derive(Debug)]
pub struct RenderState {
    pub width: usize,
    pub height: usize,
    pub fov: Scalar,
    pub origin: Vec3,
    pub view_dir: Vec3,
    pub background_color: Vec3,
    pub recursion_limit: usize,
    pub interest_point: Vec3,
    pub vec_buf: VecBuf,
    pub material_buf: MaterialBuf,
    pub scene: Scene,
    pub lights: Vec<Light>,
}

impl RenderState {
    /// The colour a cast returns at once, without looking at the scene: the
    /// background, once the depth has reached the recursion limit.
    pub open spec fn cut_off_at(self, cast_depth: usize) -> Option<Vec3> {
        if cast_depth >= self.recursion_limit {
            Some(self.background_color)
        } else {
            None
        }
    }

    /// The colour that a cast at `cast_depth` returns without tracing, if
    /// there is one. At or beyond the recursion limit this is the background
    /// colour, whatever the scene holds.
    pub fn cut_off(&self, cast_depth: usize) -> (c: Option<Vec3>)
        ensures
            c == self.cut_off_at(cast_depth),
    {
        if cast_depth >= self.recursion_limit {
            Some(self.background_color)
        } else {
            None
        }
    }

    /// The row and the column of a pixel in the row-major grid. The width must
    /// not be zero.
    pub fn pixel_position(&self, pixel_id: usize) -> (at: (usize, usize))
        requires
            self.width > 0,
        ensures
            at.0 == pixel_id / self.width,
            at.1 == pixel_id % self.width,
            at.0 * self.width + at.1 == pixel_id,
            at.1 < self.width,
            pixel_id < self.width * self.height <==> at.0 < self.height,
    {
        let i = pixel_id / self.width;
        let j = pixel_id % self.width;
        proof {
            let w = self.width as int;
            let h = self.height as int;
            let p = pixel_id as int;
            vstd::arithmetic::div_mod::lemma_fundamental_div_mod(p, w);
            assert(w * (p / w) == (p / w) * w) by (nonlinear_arith);
            assert(p < w * h <==> p / w < h) by (nonlinear_arith)
                requires
                    w > 0,
                    0 <= p,
                    0 <= h,
                    p == w * (p / w) + p % w,
                    0 <= p % w < w,
            ;
        }
        (i, j)
    }

    /// Appends a point to the point buffer and returns its index.
    pub fn push_vec(&mut self, vec: Vec3) -> (idx: Vec3Idx)
        ensures
            final(self).vec_buf@ == old(self).vec_buf@.push(vec),
            idx == old(self).vec_buf@.len() % 0x1_0000_0000,
            final(self).material_buf == old(self).material_buf,
            final(self).scene == old(self).scene,
            final(self).lights == old(self).lights,
            final(self).width == old(self).width,
            final(self).height == old(self).height,
            final(self).fov == old(self).fov,
            final(self).origin == old(self).origin,
            final(self).view_dir == old(self).view_dir,
            final(self).background_color == old(self).background_color,
            final(self).recursion_limit == old(self).recursion_limit,
            final(self).interest_point == old(self).interest_point,
    {
        self.vec_buf.push(vec)
    }

    /// Appends a material to the material buffer and returns its index.
    pub fn push_material(&mut self, material: Material) -> (idx: MaterialIdx)
        ensures
            final(self).material_buf@ == old(self).material_buf@.push(material),
            idx == old(self).material_buf@.len() % 0x1_0000_0000,
            final(self).vec_buf == old(self).vec_buf,
            final(self).scene == old(self).scene,
            final(self).lights == old(self).lights,
            final(self).width == old(self).width,
            final(self).height == old(self).height,
            final(self).fov == old(self).fov,
            final(self).origin == old(self).origin,
            final(self).view_dir == old(self).view_dir,
            final(self).background_color == old(self).background_color,
            final(self).recursion_limit == old(self).recursion_limit,
            final(self).interest_point == old(self).interest_point,
    {
        self.material_buf.push(material)
    }
}

/// Rows and columns and pixel indices answer one another: the pixel at `row`
/// and `col` of a grid `width` wide has the index `row * width + col`, and
/// that index leads back to `row` and `col`.
pub proof fn lemma_pixel_grid(width: int, row: int, col: int)
    requires
        0 <= row,
        0 <= col < width,
    ensures
        (row * width + col) / width == row,
        (row * width + col) % width == col,
{
    vstd::arithmetic::div_mod::lemma_fundamental_div_mod_converse(row * width + col, width, row, col);
}

/// The cosine of the angle of incidence from the dot product of the ray's
/// direction with the normal: the dot product held within `[-1, 1]`, then
/// negated. A NaN counts as -1 and gives 1.
pub open spec fn cosine_of(dot: Scalar) -> Scalar {
    let least = Scalar { bits: ONE_BITS }.negated();
    let most = Scalar { bits: ONE_BITS };
    let held = if dot.nan() || !least.below(dot) {
        least
    } else if dot.below(most) {
        dot
    } else {
        most
    };
    held.negated()
}

/// The cosine of the angle of incidence: see `cosine_of`.
pub fn incident_cosine(dot: Scalar) -> (cos_i: Scalar)
    ensures
        cos_i == cosine_of(dot),
{
    let least = Scalar::one().neg();
    let most = Scalar::one();
    let held = if dot.is_nan() || !least.lt(dot) {
        least
    } else if dot.lt(most) {
        dot
    } else {
        most
    };
    held.neg()
}

/// Refraction turns the normal round at most once: if the ray leaves the
/// surface, then against the reversed normal, where the dot product has the
/// opposite value, it enters.
pub proof fn lemma_refraction_turns_once(dot: Scalar, turned: Scalar)
    requires
        cosine_of(dot).below(Scalar { bits: 0 }),
        turned.same_value(dot.negated()),
    ensures
        !cosine_of(turned).below(Scalar { bits: 0 }),
{
}

/// Whether the ray leaves the surface rather than enters it: the cosine of
/// incidence is below zero. The refraction is then computed with the normal
/// reversed and the two indices of refraction exchanged.
pub fn leaves_surface(cos_i: Scalar) -> (r: bool)
    ensures
        r == cos_i.below(Scalar { bits: 0 }),
{
    cos_i.lt(Scalar::zero())
}

/// The direction that stands for the refracted ray when there is none:
/// `k`, the discriminant `1 - eta^2 (1 - cos_i^2)`, is below zero, all light
/// is reflected inside, and the fixed direction `(1, 0, 0)` takes the place
/// of the refracted one. `None` when the ray is refracted.
pub fn total_reflection(k: Scalar) -> (d: Option<Vec3>)
    ensures
        d == if k.below(Scalar { bits: 0 }) {
            Some(Vec3 { x: Scalar { bits: ONE_BITS }, y: Scalar { bits: 0 }, z: Scalar { bits: 0 } })
        } else {
            None
        },
{
    if k.lt(Scalar::zero()) {
        Some(Vec3::new(Scalar::one(), Scalar::zero(), Scalar::zero()))
    } else {
        None
    }
}

} // verus!
