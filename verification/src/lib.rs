//! Decision core of a Whitted-style ray tracer.
//!
//! Every number that travels through the tracer is an IEEE-754 binary32 value,
//! held here by its encoding (`scalar::Scalar`). The host performs the
//! arithmetic in hardware and hands the encodings over; this crate owns the
//! scene data, the index buffers, the bounding boxes, and every accept, reject
//! and ordering rule that turns those numbers into a picture.

pub mod entity;
pub mod error;
pub mod frame;
pub mod intersect;
pub mod light;
pub mod material;
pub mod mesh;
pub mod ray;
pub mod render;
pub mod scalar;
pub mod utils;
pub mod vec3;
