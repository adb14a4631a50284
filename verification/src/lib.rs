//! Small vectors of fixed arity over a generic element type, with
//! componentwise transformation, arithmetic operators, integer conversions
//! and the usual geometric products.

pub mod arith;
pub mod assign;
pub mod convert;
pub mod geometry;
pub mod laws;
pub mod primitive;
pub mod scale;
pub mod vector;

pub use vector::{vec2, vec3, vec4, Vec2, Vec3, Vec4};
