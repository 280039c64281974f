//! Triangle meshes with a bounding box.

use vstd::prelude::*;
use crate::entity::bounding_box::BoundingBox;
use crate::entity::triangle::Triangle;
use crate::render::RenderState;
use crate::vec3::Vec3;

verus! {

/// A mesh of triangles and the box around all their corners.
#[derive(Clone, Debug)]
pub struct Model {
    pub triangles: Vec<Triangle>,
    pub aabb: BoundingBox,
}

impl Model {
    /// The corners of the triangles, triangle by triangle, read from `points`.
    pub open spec fn corners(points: Seq<Vec3>, triangles: Seq<Triangle>) -> Seq<Vec3> {
        Seq::new(3 * triangles.len(), |i: int| points[triangles[i / 3].points@[i % 3] as int])
    }

    /// The mesh fits the point buffer: it has a triangle, every corner is a
    /// point of the buffer, and the box is the box of all the corners.
    pub open spec fn wf(self, points: Seq<Vec3>) -> bool {
        &&& self.triangles@.len() > 0
        &&& forall|i: int| 0 <= i < self.triangles@.len() ==> (#[trigger] self.triangles@[i]).corners_in(points)
        &&& self.aabb.bounds(Self::corners(points, self.triangles@))
    }

    /// The mesh of the given triangles, with the box of their corners. There
    /// must be a triangle, and every corner must be a point of the state's
    /// buffer.
    pub fn from_faces(state: &RenderState, triangles: Vec<Triangle>) -> (m: Model)
        requires
            triangles@.len() > 0,
            forall|i: int| 0 <= i < triangles@.len() ==> (#[trigger] triangles@[i]).corners_in(
                state.vec_buf@,
            ),
        ensures
            m.triangles@ == triangles@,
            m.wf(state.vec_buf@),
    {
        let mut all: Vec<Vec3> = Vec::new();
        let mut i: usize = 0;
        while i < triangles.len()
            invariant
                0 <= i <= triangles@.len(),
                forall|j: int| 0 <= j < triangles@.len() ==> (#[trigger] triangles@[j]).corners_in(
                    state.vec_buf@,
                ),
                all@ == Self::corners(state.vec_buf@, triangles@.take(i as int)),
            decreases triangles@.len() - i,
        {
            let (a, b, c) = triangles[i].corners(state);
            all.push(a);
            all.push(b);
            all.push(c);
            assert(all@ =~= Self::corners(state.vec_buf@, triangles@.take(i + 1)));
            i = i + 1;
        }
        assert(triangles@.take(i as int) =~= triangles@);
        let aabb = BoundingBox::new(all.as_slice());
        Model { triangles, aabb }
    }
}

/// The point buffer only grows, and a mesh that fits it goes on fitting it:
/// points appended later change neither its corners nor its box.
pub proof fn lemma_appending_keeps_model(m: Model, points: Seq<Vec3>, more: Seq<Vec3>)
    requires
        m.wf(points),
    ensures
        m.wf(points + more),
        Model::corners(points + more, m.triangles@) == Model::corners(points, m.triangles@),
{
    let grown = points + more;
    let before = Model::corners(points, m.triangles@);
    let after = Model::corners(grown, m.triangles@);
    assert forall|i: int| 0 <= i < after.len() implies after[i] == before[i] by {
        let t = m.triangles@[i / 3];
        assert(t.corners_in(points));
        assert(t.points@[i % 3] < points.len());
    }
    assert(after =~= before);
    assert forall|i: int| 0 <= i < m.triangles@.len() implies (#[trigger] m.triangles@[i]).corners_in(
        grown,
    ) by {
        assert(m.triangles@[i].corners_in(points));
    }
}

} // verus!
