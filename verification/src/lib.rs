//! Transformation math and procedural geometry for a column-major
//! graphics pipeline: 2D/3D vectors, 4x4 matrices (projection, view,
//! rotation, scale, translation), and fixed-topology triangle meshes.
//!
//! All continuous quantities are carried as Q16.16 fixed-point numbers
//! (an `i64` holding the value scaled by 65536), so every operation has
//! an exact, machine-checked contract.  Callers that live in floating
//! point convert at the boundary and evaluate transcendental functions
//! (sine, cosine, tangent) themselves, handing the results in as
//! fixed-point scalars.

pub mod chunk;
pub mod cube;
pub mod fixed;
pub mod matrix;
pub mod text;
pub mod vec2;
pub mod vec3;

pub use chunk::Chunk;
pub use cube::Cube;
pub use cube::Cube_Index;
pub use cube::Triangle;
pub use cube::Triangle_Index;
pub use cube::Vertex_PC;
pub use fixed::EPSILON;
pub use fixed::SCALE;
pub use matrix::Mat4x4;
pub use vec2::Vec2fx;
pub use vec2::Vec2i;
pub use vec3::Vec3fx;
pub use vec3::Vec3i;
