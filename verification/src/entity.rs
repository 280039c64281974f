//! The things a ray can meet.

use vstd::prelude::*;
use crate::entity::model::Model;
use crate::entity::plane::Plane;
use crate::entity::scene::Scene;
use crate::entity::sphere::Sphere;
use crate::entity::triangle::Triangle;

pub mod bounding_box;
pub mod model;
pub mod plane;
pub mod scene;
pub mod sphere;
pub mod triangle;

verus! {

/// Anything that can be rendered: one of the three shapes, a mesh, or a
/// scene of further entities.
#[derive(Debug)]
pub enum Entity {
    Sphere(Sphere),
    Plane(Plane),
    Triangle(Triangle),
    Model(Model),
    Scene(Scene),
}

} // verus!
