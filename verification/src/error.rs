//! The inputs that are refused outright.

use vstd::prelude::*;

verus! {

/// What the tracer refuses: it can do nothing sensible with such an input,
/// and says so by name.
#[derive(Clone, Copy, Debug, PartialEq, Eq, Structural)]
pub enum SceneError {
    /// A sphere was given a radius that is not a number above zero.
    NonPositiveRadius,
    /// A face record does not have exactly three vertex indices.
    NotATriangle,
}

impl SceneError {
    /// The refusal in words.
    pub fn message(&self) -> (text: &'static str)
        ensures
            text@ == match *self {
                SceneError::NonPositiveRadius => "the radius of a sphere must be above zero"@,
                SceneError::NotATriangle => "only triangles are supported: a face must have exactly three vertices"@,
            },
    {
        match self {
            SceneError::NonPositiveRadius => "the radius of a sphere must be above zero",
            SceneError::NotATriangle => "only triangles are supported: a face must have exactly three vertices",
        }
    }
}

} // verus!
