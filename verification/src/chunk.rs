//! A pageable 3D chunk of voxel data: the dimensions and voxel list the
//! library owns, together with the GPU buffer handle the rendering
//! backend allocated for it.

use vstd::prelude::*;

use crate::vec3::Vec3i;

verus! {

/// A chunk of voxels with its backing GPU buffer handle.
pub struct Chunk {
    /// Handle of the vertex buffer the rendering backend allocated;
    /// this library only stores it.
    pub vbo: u32,
    /// Extent of the chunk along each axis.
    pub dimensions: Vec3i,
    /// The voxels paged in, empty until the loader fills them.
    pub voxels: Vec<Vec3i>,
}

impl Chunk {
    /// A fresh chunk of the given dimensions with no voxels paged in.
    /// The buffer handle comes from the caller, which owns the GPU
    /// allocation.
    pub fn new(dim: &Vec3i, vbo: u32) -> (r: Chunk)
        ensures
            r.vbo == vbo,
            r.dimensions == *dim,
            r.voxels@.len() == 0,
    {
        Chunk { vbo, dimensions: *dim, voxels: Vec::new() }
    }

    /// Drawing submits no work yet: the chunk only carries data, and
    /// the call leaves it untouched.
    pub fn draw(&self) {
    }
}

} // verus!
