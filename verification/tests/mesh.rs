// The cube mesh builder, its index blocks, and the voxel chunk.

use q3math::Chunk;
use q3math::Cube;
use q3math::Cube_Index;
use q3math::SCALE;
use q3math::Vec3fx;
use q3math::Vec3i;

#[test]
fn cube_has_twelve_triangles_and_thirty_six_vertices() {
    let c = Cube::new(2 * SCALE, Vec3fx::zero());
    assert_eq!(c.tris.len(), 12);
    let vertex_count: usize = c.tris.len() * 3;
    assert_eq!(vertex_count, 36);
}

#[test]
fn unit_cube_vertices_sit_on_corners() {
    // size 2.0 centered at the origin: every coordinate is +-1.0
    let c = Cube::new(2 * SCALE, Vec3fx::zero());
    for t in &c.tris {
        for v in [&t.v0, &t.v1, &t.v2] {
            for coord in [v.position.x, v.position.y, v.position.z] {
                assert!(coord == SCALE || coord == -SCALE, "coord {coord}");
            }
        }
    }
}

#[test]
fn cube_center_offsets_vertices() {
    let center = Vec3fx::new(10 * SCALE, 20 * SCALE, 30 * SCALE);
    let c = Cube::new(4 * SCALE, center);
    for t in &c.tris {
        for v in [&t.v0, &t.v1, &t.v2] {
            assert!((v.position.x - center.x).abs() == 2 * SCALE);
            assert!((v.position.y - center.y).abs() == 2 * SCALE);
            assert!((v.position.z - center.z).abs() == 2 * SCALE);
        }
    }
}

#[test]
fn cube_default_color_is_opaque_white() {
    let c = Cube::new(2 * SCALE, Vec3fx::zero());
    for t in &c.tris {
        for v in [&t.v0, &t.v1, &t.v2] {
            assert_eq!((v.color.x, v.color.y, v.color.z), (SCALE, SCALE, SCALE));
        }
    }
}

#[test]
fn cube_with_color_tags_every_vertex() {
    let col = Vec3fx::new(SCALE / 2, SCALE / 4, 0);
    let c = Cube::new_with_color(2 * SCALE, Vec3fx::zero(), col);
    assert_eq!(c.tris.len(), 12);
    for t in &c.tris {
        for v in [&t.v0, &t.v1, &t.v2] {
            assert_eq!((v.color.x, v.color.y, v.color.z), (col.x, col.y, col.z));
        }
    }
}

#[test]
fn cube_triangles_wind_outward() {
    // the normal of every triangle points away from the cube center
    let c = Cube::new(2 * SCALE, Vec3fx::zero());
    for t in &c.tris {
        let (ax, ay, az) = (t.v0.position.x, t.v0.position.y, t.v0.position.z);
        let e1 = (
            t.v1.position.x - ax,
            t.v1.position.y - ay,
            t.v1.position.z - az,
        );
        let e2 = (
            t.v2.position.x - ax,
            t.v2.position.y - ay,
            t.v2.position.z - az,
        );
        let n = (
            e1.1 * e2.2 - e1.2 * e2.1,
            e1.2 * e2.0 - e1.0 * e2.2,
            e1.0 * e2.1 - e1.1 * e2.0,
        );
        // center of the triangle, scaled by 3 to stay in integers
        let c3 = (
            ax + t.v1.position.x + t.v2.position.x,
            ay + t.v1.position.y + t.v2.position.y,
            az + t.v1.position.z + t.v2.position.z,
        );
        let outward = n.0 as i128 * c3.0 as i128 + n.1 as i128 * c3.1 as i128
            + n.2 as i128 * c3.2 as i128;
        assert!(outward > 0, "normal {n:?} against centroid {c3:?}");
    }
}

#[test]
fn index_block_zero_counts_up_from_zero() {
    let b = Cube_Index::new(0);
    assert_eq!(b.indices.len(), 12);
    let mut flat = Vec::new();
    for t in &b.indices {
        flat.push(t.i0);
        flat.push(t.i1);
        flat.push(t.i2);
    }
    let expected: Vec<u32> = (0..36).collect();
    assert_eq!(flat, expected);
}

#[test]
fn index_block_one_is_shifted_by_thirty_six() {
    let b = Cube_Index::new(1);
    let mut flat = Vec::new();
    for t in &b.indices {
        flat.push(t.i0);
        flat.push(t.i1);
        flat.push(t.i2);
    }
    let expected: Vec<u32> = (36..72).collect();
    assert_eq!(flat, expected);
}

#[test]
fn index_blocks_share_intra_block_deltas() {
    let a = Cube_Index::new(0);
    let b = Cube_Index::new(7);
    for (ta, tb) in a.indices.iter().zip(b.indices.iter()) {
        assert_eq!(tb.i0 - 7 * 36, ta.i0);
        assert_eq!(tb.i1 - 7 * 36, ta.i1);
        assert_eq!(tb.i2 - 7 * 36, ta.i2);
    }
}

#[test]
fn chunk_starts_empty_with_given_dimensions() {
    let dim = Vec3i::new(16, 16, 16);
    let c = Chunk::new(&dim, 42);
    assert_eq!(c.vbo, 42);
    assert_eq!((c.dimensions.x, c.dimensions.y, c.dimensions.z), (16, 16, 16));
    assert!(c.voxels.is_empty());
    c.draw();
}
