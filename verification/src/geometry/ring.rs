//! The ring: vertices alternately on the outer and on the inner radius, once
//! around, drawn as a triangle strip.

use crate::geometry::utility::{strip_indices, strip_indices_spec};
use crate::scalar::Scalar;
use crate::space::{
    white, whole_tex_coord, Colour, GeometryError, Mesh, Normal, Point, TexCoord, Vertex,
    VerticesAndIndices, MAX_INDEXED_VERTICES,
};
use vstd::prelude::*;

verus! {

/// Number of vertices of a ring of `sector_count` sectors: one pair more than
/// it has sectors, so that the strip closes on itself.
pub open spec fn ring_vertex_count(sector_count: u32) -> int {
    2 * (sector_count + 1)
}

/// Vertex number `k` of a ring: `k` angle steps from angle zero, on the outer
/// radius where `k` is even and on the inner radius where it is odd. The
/// outer edge carries one corner of the texture, the inner edge the opposite
/// one.
pub open spec fn ring_vertex(k: int) -> Vertex {
    let outer = k % 2 == 0;
    Vertex {
        pos: Point::Annular { step: k as u32, outer },
        colour: white(),
        normal: Normal::Radial,
        tex_coord: if outer {
            whole_tex_coord(0, 0)
        } else {
            whole_tex_coord(1, 1)
        },
    }
}

/// The mesh of a ring of `sector_count` sectors. Its indices name every
/// vertex once, in order: the order of a triangle strip.
pub open spec fn ring_mesh(sector_count: u32) -> Mesh {
    Mesh {
        vertices: Seq::new(ring_vertex_count(sector_count) as nat, |k: int| ring_vertex(k)),
        indices: strip_indices_spec(ring_vertex_count(sector_count) as nat),
    }
}

/// Why a ring with these parameters cannot be generated, if it cannot: the
/// inner radius is not at most the outer radius, which is also so when either
/// is no number; or the ring has more vertices than 16-bit indices can
/// address.
pub open spec fn ring_defect(inner_radius: Scalar, outer_radius: Scalar, sector_count: u32) -> Option<
    GeometryError,
> {
    if !inner_radius.le_spec(outer_radius) {
        Some(GeometryError::InvalidParameter)
    } else if ring_vertex_count(sector_count) > MAX_INDEXED_VERTICES {
        Some(GeometryError::TooManyVertices)
    } else {
        None
    }
}

/// A ring whose two radii are the same number is accepted like any other:
/// it has no width, and `2 * (sector_count + 1)` vertices all the same.
pub proof fn lemma_ring_of_equal_radii(radius: Scalar, sector_count: u32)
    requires
        !radius.is_nan_spec(),
    ensures
        ring_defect(radius, radius, sector_count) != Some(GeometryError::InvalidParameter),
        ring_mesh(sector_count).vertices.len() == 2 * (sector_count + 1),
{
}

/// The vertices of a ring alternate between the two radii, beginning at
/// angle zero on the outer one, and each is one angle step on from the one
/// before.
pub proof fn lemma_ring_alternates(sector_count: u32, k: int)
    requires
        0 <= k < 2 * (sector_count + 1),
    ensures
        ring_mesh(sector_count).vertices[k].pos == (Point::Annular {
            step: k as u32,
            outer: k % 2 == 0,
        }),
        ring_mesh(sector_count).vertices[0].pos == (Point::Annular { step: 0, outer: true }),
{
}

/// Generates a ring between `inner_radius` and `outer_radius` in
/// `sector_count` sectors, to be drawn as a triangle strip.
///
/// Fails with `InvalidParameter` unless `inner_radius <= outer_radius`. Equal
/// radii are accepted: the ring then has no width and all its vertices.
pub fn ring(inner_radius: Scalar, outer_radius: Scalar, sector_count: u32) -> (r: Result<
    VerticesAndIndices,
    GeometryError,
>)
    ensures
        match ring_defect(inner_radius, outer_radius, sector_count) {
            Some(e) => r == Err::<VerticesAndIndices, GeometryError>(e),
            None => r matches Ok(m) && m@ == ring_mesh(sector_count) && m.well_formed(),
        },
{
    if !inner_radius.le(&outer_radius) {
        return Err(GeometryError::InvalidParameter);
    }
    if sector_count >= MAX_INDEXED_VERTICES / 2 {
        return Err(GeometryError::TooManyVertices);
    }
    let count: u32 = 2 * (sector_count + 1);
    let mut vertices: Vec<Vertex> = Vec::new();
    let mut pair: u32 = 0;
    while pair <= sector_count
        invariant
            sector_count < MAX_INDEXED_VERTICES / 2,
            pair <= sector_count + 1,
            vertices@ == Seq::new((2 * pair) as nat, |k: int| ring_vertex(k)),
        decreases sector_count + 1 - pair,
    {
        vertices.push(
            Vertex::new(
                Point::Annular { step: 2 * pair, outer: true },
                Colour::white(),
                Normal::Radial,
                TexCoord::whole(0, 0),
            ),
        );
        vertices.push(
            Vertex::new(
                Point::Annular { step: 2 * pair + 1, outer: false },
                Colour::white(),
                Normal::Radial,
                TexCoord::whole(1, 1),
            ),
        );
        assert(vertices@ =~= Seq::new((2 * (pair + 1)) as nat, |k: int| ring_vertex(k)));
        pair += 1;
    }
    let indices = strip_indices(count);
    Ok(VerticesAndIndices::from_parts(vertices, indices))
}

} // verus!
