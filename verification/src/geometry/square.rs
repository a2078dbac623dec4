//! The unit square and the rule that turns lists of face corners into
//! vertices. The corners may be any points: lattice points, as those of the
//! square and the cube are, or points given by their coordinates.

use crate::geometry::utility::calculate_indices;
use crate::space::{
    white, whole_tex_coord, Colour, Mesh, Normal, Point, TexCoord, Vertex, VerticesAndIndices,
};
use vstd::prelude::*;

verus! {

/// The corners of the unit square in the plane one half-extent in front of
/// the origin, counter-clockwise from the lower left, in lattice
/// coordinates.
pub const SQUARE_CORNERS: [[i8; 3]; 4] = [[-1, -1, 1], [1, -1, 1], [1, 1, 1], [-1, 1, 1]];

/// The texture coordinate of corner number `corner` of a face: the corners of
/// the texture in the order top right, top left, bottom left, bottom right,
/// then round again.
pub open spec fn corner_tex_coord(corner: int) -> TexCoord {
    let c = corner % 4;
    if c == 0 {
        whole_tex_coord(1, 0)
    } else if c == 1 {
        whole_tex_coord(0, 0)
    } else if c == 2 {
        whole_tex_coord(0, 1)
    } else {
        whole_tex_coord(1, 1)
    }
}

/// The lattice point with the coordinates of a table entry.
pub open spec fn lattice_point(corner: [i8; 3]) -> Point {
    Point::Lattice { x: corner[0], y: corner[1], z: corner[2] }
}

/// The lattice points of a table of corners, in the table's order.
pub open spec fn lattice_points_of(corners: Seq<[i8; 3]>) -> Seq<Point> {
    Seq::new(corners.len(), |k: int| lattice_point(corners[k]))
}

/// The vertex made of corner number `k` of a list of face corners: at the
/// corner, white, without a normal, with the texture coordinate of its place
/// in its face.
pub open spec fn corner_vertex(corner: Point, k: int) -> Vertex {
    Vertex { pos: corner, colour: white(), normal: Normal::Zero, tex_coord: corner_tex_coord(k) }
}

/// The vertices made of a list of face corners, four corners to a face.
pub open spec fn square_vertices(corners: Seq<Point>) -> Seq<Vertex> {
    Seq::new(corners.len(), |k: int| corner_vertex(corners[k], k))
}

/// Makes the lattice points of a table of corners.
pub fn lattice_points(corners: &[[i8; 3]]) -> (r: Vec<Point>)
    ensures
        r@ == lattice_points_of(corners@),
{
    let mut points: Vec<Point> = Vec::new();
    let mut k: usize = 0;
    while k < corners.len()
        invariant
            k <= corners@.len(),
            points@ == lattice_points_of(corners@.take(k as int)),
        decreases corners@.len() - k,
    {
        let corner = &corners[k];
        points.push(Point::Lattice { x: corner[0], y: corner[1], z: corner[2] });
        assert(points@ =~= lattice_points_of(corners@.take(k + 1)));
        k += 1;
    }
    assert(corners@.take(k as int) =~= corners@);
    points
}

/// Makes the vertices of faces given by their corners, four corners to a
/// face: each vertex sits at its corner, whatever point that is, is white,
/// has no normal yet, and takes the texture coordinate that belongs to its
/// place in its face.
pub fn square_from_vertices(vertices: &[Point]) -> (r: Vec<Vertex>)
    requires
        vertices@.len() % 4 == 0,
    ensures
        r@ == square_vertices(vertices@),
{
    let mut out: Vec<Vertex> = Vec::new();
    let mut k: usize = 0;
    while k < vertices.len()
        invariant
            k <= vertices@.len(),
            out@ == square_vertices(vertices@.take(k as int)),
        decreases vertices@.len() - k,
    {
        let corner = vertices[k];
        let place: usize = k % 4;
        let tex_coord = if place == 0 {
            TexCoord::whole(1, 0)
        } else if place == 1 {
            TexCoord::whole(0, 0)
        } else if place == 2 {
            TexCoord::whole(0, 1)
        } else {
            TexCoord::whole(1, 1)
        };
        out.push(Vertex::new(corner, Colour::white(), Normal::Zero, tex_coord));
        assert(out@ =~= square_vertices(vertices@.take(k + 1)));
        k += 1;
    }
    assert(vertices@.take(k as int) =~= vertices@);
    out
}

/// The mesh of the unit square: its four corners and the two triangles that
/// fill it.
pub open spec fn square_mesh() -> Mesh {
    Mesh {
        vertices: square_vertices(lattice_points_of(SQUARE_CORNERS@)),
        indices: seq![0u16, 1u16, 2u16, 2u16, 3u16, 0u16],
    }
}

/// Generates the unit square. The caller moves it to the shape's position.
pub fn square() -> (r: VerticesAndIndices)
    ensures
        r@ == square_mesh(),
        r.well_formed(),
{
    let corners = lattice_points(SQUARE_CORNERS.as_slice());
    let vertices = square_from_vertices(corners.as_slice());
    let indices = calculate_indices(4);
    assert(indices@ =~= seq![0u16, 1u16, 2u16, 2u16, 3u16, 0u16]);
    VerticesAndIndices::from_parts(vertices, indices)
}

} // verus!
