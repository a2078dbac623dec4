//! Generators of the primitive meshes.
//!
//! Each generator is a pure function of the shape's parameters: the same
//! parameters give the same mesh, vertex for vertex and index for index.

pub mod cube;
pub mod ring;
pub mod sphere;
pub mod square;
pub mod utility;
