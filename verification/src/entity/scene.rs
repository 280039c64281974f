//! Scenes: collections of entities.

use vstd::prelude::*;
use crate::entity::Entity;

verus! {

/// A collection of entities, itself an entity. The order of the entities
/// matters only where two of them are hit at exactly the same distance.
#[derive(Debug)]
pub struct Scene {
    pub entities: Box<[Entity]>,
}

impl Scene {
    pub fn new(entities: Box<[Entity]>) -> (s: Scene)
        ensures
            s.entities@ == entities@,
    {
        Scene { entities }
    }
}

} // verus!
