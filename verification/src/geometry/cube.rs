//! The cube: six faces of four vertices, each face with the normal that its
//! own edges give it.

use crate::geometry::square::{
    corner_tex_coord, corner_vertex, lattice_point, lattice_points, lattice_points_of,
    square_from_vertices, square_vertices,
};
use crate::geometry::utility::{
    calculate_normals, copy_indices, cross, edge_times, face_normal, lemma_cross_of_edge,
};
use crate::space::{white, Mesh, Normal, Point, Vertex, VerticesAndIndices};
use vstd::pervasive::unreached;
use vstd::prelude::*;

verus! {

/// Number of vertices of the cube.
pub const CUBE_VERTEX_COUNT: usize = 24;

/// The corners of the cube, face by face, in lattice coordinates: front,
/// back, left, right, top, bottom.
pub const CUBE_CORNERS: [[i8; 3]; 24] = [
    [-1, -1, 1],
    [1, -1, 1],
    [1, 1, 1],
    [-1, 1, 1],
    [-1, 1, -1],
    [1, 1, -1],
    [1, -1, -1],
    [-1, -1, -1],
    [-1, 1, 1],
    [-1, 1, -1],
    [-1, -1, -1],
    [-1, -1, 1],
    [1, -1, 1],
    [1, -1, -1],
    [1, 1, -1],
    [1, 1, 1],
    [1, 1, 1],
    [1, 1, -1],
    [-1, 1, -1],
    [-1, 1, 1],
    [1, -1, -1],
    [1, -1, 1],
    [-1, -1, 1],
    [-1, -1, -1],
];

/// The triangles of the cube, two to a face, each face wound its own way.
pub const CUBE_INDICES: [u16; 36] = [
    0, 1, 2, 2, 3, 0,
    4, 5, 6, 6, 7, 4,
    8, 9, 10, 8, 10, 11,
    12, 13, 14, 12, 14, 15,
    16, 17, 18, 16, 18, 19,
    20, 21, 22, 20, 22, 23,
];

/// The normal of the face that vertex `k` belongs to: that of the face's
/// first three corners.
pub open spec fn cube_face_normal(k: int) -> Option<Normal> {
    let first = 4 * (k / 4);
    face_normal(CUBE_CORNERS@[first], CUBE_CORNERS@[first + 1], CUBE_CORNERS@[first + 2])
}

/// Vertex `k` of the cube: at its corner, white, with the normal of its face
/// and the texture coordinate of its place in the face.
pub open spec fn cube_vertex(k: int) -> Vertex {
    Vertex {
        pos: Point::Lattice {
            x: CUBE_CORNERS@[k][0],
            y: CUBE_CORNERS@[k][1],
            z: CUBE_CORNERS@[k][2],
        },
        colour: white(),
        normal: cube_face_normal(k)->0,
        tex_coord: corner_tex_coord(k),
    }
}

/// The mesh of the cube.
pub open spec fn cube_mesh() -> Mesh {
    Mesh { vertices: Seq::new(24, |k: int| cube_vertex(k)), indices: CUBE_INDICES@ }
}

/// The normal of each face of the cube, by the face's number.
pub proof fn lemma_cube_face_normals()
    ensures
        forall|k: int|
            0 <= k < 4 ==> #[trigger] cube_face_normal(k) == Some(Normal::Axis { x: 0, y: 0, z: 1 }),
        forall|k: int|
            4 <= k < 8 ==> #[trigger] cube_face_normal(k) == Some(
                Normal::Axis { x: 0, y: 0, z: (-1) as i8 },
            ),
        forall|k: int|
            8 <= k < 12 ==> #[trigger] cube_face_normal(k) == Some(
                Normal::Axis { x: (-1) as i8, y: 0, z: 0 },
            ),
        forall|k: int|
            12 <= k < 16 ==> #[trigger] cube_face_normal(k) == Some(
                Normal::Axis { x: 1, y: 0, z: 0 },
            ),
        forall|k: int|
            16 <= k < 20 ==> #[trigger] cube_face_normal(k) == Some(
                Normal::Axis { x: 0, y: 1, z: 0 },
            ),
        forall|k: int|
            20 <= k < 24 ==> #[trigger] cube_face_normal(k) == Some(
                Normal::Axis { x: 0, y: (-1) as i8, z: 0 },
            ),
{
    lemma_cube_face(0);
    lemma_cube_face(1);
    lemma_cube_face(2);
    lemma_cube_face(3);
    lemma_cube_face(4);
    lemma_cube_face(5);
}

/// The first two edges of face `face` of the cube, from its first corner to
/// its second and to its third.
pub open spec fn cube_face_edges(face: int) -> ((int, int, int), (int, int, int)) {
    let a = CUBE_CORNERS@[4 * face];
    let b = CUBE_CORNERS@[4 * face + 1];
    let c = CUBE_CORNERS@[4 * face + 2];
    ((b[0] - a[0], b[1] - a[1], b[2] - a[2]), (c[0] - a[0], c[1] - a[1], c[2] - a[2]))
}

/// The cross product of the first two edges of a face of the cube, written
/// without products.
proof fn lemma_cube_face(face: int)
    requires
        0 <= face < 6,
    ensures
        cross(cube_face_edges(face).0, cube_face_edges(face).1) == (
            edge_times(cube_face_edges(face).0.1, cube_face_edges(face).1.2) - edge_times(
                cube_face_edges(face).0.2,
                cube_face_edges(face).1.1,
            ),
            edge_times(cube_face_edges(face).0.2, cube_face_edges(face).1.0) - edge_times(
                cube_face_edges(face).0.0,
                cube_face_edges(face).1.2,
            ),
            edge_times(cube_face_edges(face).0.0, cube_face_edges(face).1.1) - edge_times(
                cube_face_edges(face).0.1,
                cube_face_edges(face).1.0,
            ),
        ),
{
    let c = CUBE_CORNERS@;
    assert(c.len() == 24);
    lemma_cross_of_edge(cube_face_edges(face).0, cube_face_edges(face).1);
}

/// `coordinate` where `direction` is 1, its opposite where `direction` is -1,
/// and 0 where `direction` is 0.
pub open spec fn along(coordinate: int, direction: int) -> int {
    if direction > 0 {
        coordinate
    } else if direction < 0 {
        -coordinate
    } else {
        0
    }
}

/// The vertex is a corner of the cube and lies on the face out of which its
/// normal points: its normal is one of the six unit vectors along an axis,
/// each of its coordinates is one half-extent from the centre, and along its
/// normal it is one half-extent out.
pub open spec fn on_cube_face(v: Vertex) -> bool {
    &&& v.pos matches Point::Lattice { x, y, z }
    &&& v.normal matches Normal::Axis { x: nx, y: ny, z: nz }
    &&& (x == 1 || x == -1) && (y == 1 || y == -1) && (z == 1 || z == -1)
    &&& -1 <= nx <= 1 && -1 <= ny <= 1 && -1 <= nz <= 1
    &&& along(nx as int, nx as int) + along(ny as int, ny as int) + along(nz as int, nz as int)
        == 1
    &&& along(x as int, nx as int) + along(y as int, ny as int) + along(z as int, nz as int) == 1
}

/// Every vertex of the cube lies on the face out of which its normal points,
/// and the four vertices of a face have the same normal. Since every
/// coordinate of every vertex is one half-extent from the centre, scaling by
/// the radius puts every face at the radius from the centre, along the
/// face's own normal, and leaves the normals as they are.
pub proof fn lemma_cube_vertices_on_faces()
    ensures
        cube_mesh().vertices.len() == 24,
        forall|k: int| 0 <= k < 24 ==> on_cube_face(#[trigger] cube_mesh().vertices[k]),
        forall|k: int|
            0 <= k < 24 ==> (#[trigger] cube_mesh().vertices[k]).normal == cube_mesh().vertices[4
                * (k / 4)].normal,
{
    lemma_cube_face_normals();
    let c = CUBE_CORNERS@;
    assert(c.len() == 24);
    assert forall|k: int| 0 <= k < 24 implies on_cube_face(#[trigger] cube_mesh().vertices[k]) by {
        let v = cube_vertex(k);
        assert(cube_mesh().vertices[k] == v);
        assert(cube_face_normal(k) is Some);
        if k < 4 {
            assert(k == 0 || k == 1 || k == 2 || k == 3);
        } else if k < 8 {
            assert(k == 4 || k == 5 || k == 6 || k == 7);
        } else if k < 12 {
            assert(k == 8 || k == 9 || k == 10 || k == 11);
        } else if k < 16 {
            assert(k == 12 || k == 13 || k == 14 || k == 15);
        } else if k < 20 {
            assert(k == 16 || k == 17 || k == 18 || k == 19);
        } else {
            assert(k == 20 || k == 21 || k == 22 || k == 23);
        }
    }
    assert forall|k: int| 0 <= k < 24 implies (#[trigger] cube_mesh().vertices[k]).normal
        == cube_mesh().vertices[4 * (k / 4)].normal by {
        assert(cube_face_normal(k) == cube_face_normal(4 * (k / 4)));
    }
}

/// Generates the cube. The caller scales it by the shape's radius.
///
/// The vertices come from the corner table by the rule for faces of four
/// corners. Each face then gets the normal of its own first three corners,
/// the same on all four of its vertices.
pub fn cube() -> (r: VerticesAndIndices)
    ensures
        r@ == cube_mesh(),
        r.well_formed(),
{
    let corners = lattice_points(CUBE_CORNERS.as_slice());
    let mut vertices = square_from_vertices(corners.as_slice());
    let ghost flat = vertices@;
    let mut face: usize = 0;
    while face < 6
        invariant
            face <= 6,
            flat == square_vertices(lattice_points_of(CUBE_CORNERS@)),
            vertices@.len() == 24,
            forall|k: int| 0 <= k < 4 * face ==> vertices@[k] == cube_vertex(k),
            forall|k: int| 4 * face <= k < 24 ==> vertices@[k] == flat[k],
        decreases 6 - face,
    {
        let first: usize = 4 * face;
        proof {
            lemma_cube_face_normals();
            assert(cube_face_normal(first as int) is Some);
        }
        let normal = match calculate_normals(
            &CUBE_CORNERS[first],
            &CUBE_CORNERS[first + 1],
            &CUBE_CORNERS[first + 2],
        ) {
            Some(n) => n,
            None => unreached(),
        };
        let mut corner: usize = 0;
        while corner < 4
            invariant
                corner <= 4,
                face < 6,
                first == 4 * face,
                flat == square_vertices(lattice_points_of(CUBE_CORNERS@)),
                vertices@.len() == 24,
                Some(normal) == cube_face_normal(first as int),
                forall|k: int| 0 <= k < first + corner ==> vertices@[k] == cube_vertex(k),
                forall|k: int| first + corner <= k < 24 ==> vertices@[k] == flat[k],
            decreases 4 - corner,
        {
            let k: usize = first + corner;
            let flat_vertex = vertices[k];
            vertices.set(
                k,
                Vertex {
                    pos: flat_vertex.pos,
                    colour: flat_vertex.colour,
                    normal,
                    tex_coord: flat_vertex.tex_coord,
                },
            );
            assert(cube_face_normal(k as int) == cube_face_normal(first as int));
            assert(flat[k as int] == corner_vertex(
                lattice_point(CUBE_CORNERS@[k as int]),
                k as int,
            ));
            corner += 1;
        }
        face += 1;
    }
    assert(vertices@ =~= cube_mesh().vertices);
    let indices = copy_indices(CUBE_INDICES.as_slice());
    VerticesAndIndices::from_parts(vertices, indices)
}

} // verus!
