//! Vertices, indices and the parameters that place a shape in space.
//!
//! A generated vertex is exact: its position is a point of an integer lattice
//! or of an angular grid, its texture coordinate a ratio of two integers, its
//! normal an axis or a rule. Nothing is rounded here. The caller evaluates the
//! vertex in floating point, with the parameters of the shape it belongs to.

use crate::scalar::{Scalar, ONE_BITS, ZERO_BITS};
use vstd::prelude::*;

verus! {

/// A point or a displacement in space.
#[derive(Clone, Copy, Debug, PartialEq, Eq, Structural)]
pub struct Coordinate3 {
    pub x: Scalar,
    pub y: Scalar,
    pub z: Scalar,
}

/// A rotation, as a quaternion `w + i + j + k`.
#[derive(Clone, Copy, Debug, PartialEq, Eq, Structural)]
pub struct Orientation {
    pub i: Scalar,
    pub j: Scalar,
    pub k: Scalar,
    pub w: Scalar,
}

/// The origin.
pub open spec fn origin() -> Coordinate3 {
    Coordinate3 {
        x: Scalar { bits: ZERO_BITS },
        y: Scalar { bits: ZERO_BITS },
        z: Scalar { bits: ZERO_BITS },
    }
}

/// The rotation that turns nothing.
pub open spec fn identity() -> Orientation {
    Orientation {
        i: Scalar { bits: ZERO_BITS },
        j: Scalar { bits: ZERO_BITS },
        k: Scalar { bits: ZERO_BITS },
        w: Scalar { bits: ONE_BITS },
    }
}

impl Default for Coordinate3 {
    fn default() -> (r: Self)
        ensures
            r == origin(),
    {
        Coordinate3 {
            x: Scalar { bits: ZERO_BITS },
            y: Scalar { bits: ZERO_BITS },
            z: Scalar { bits: ZERO_BITS },
        }
    }
}

impl Default for Orientation {
    fn default() -> (r: Self)
        ensures
            r == identity(),
    {
        Orientation {
            i: Scalar { bits: ZERO_BITS },
            j: Scalar { bits: ZERO_BITS },
            k: Scalar { bits: ZERO_BITS },
            w: Scalar { bits: ONE_BITS },
        }
    }
}

/// The number `num / den`. The division is left to the caller, also where
/// `den` is zero.
#[derive(Clone, Copy, Debug, PartialEq, Eq, Structural)]
pub struct Ratio {
    pub num: u32,
    pub den: u32,
}

/// Where on the texture a vertex lies.
#[derive(Clone, Copy, Debug, PartialEq, Eq, Structural)]
pub enum TexCoord {
    /// The point `(u, v)` of the texture.
    At { u: Ratio, v: Ratio },
    /// The texture coordinate that the loaded mesh gives this vertex.
    Imported,
}

/// A colour, one scalar per channel.
#[derive(Clone, Copy, Debug, PartialEq, Eq, Structural)]
pub struct Colour {
    pub r: Scalar,
    pub g: Scalar,
    pub b: Scalar,
}

/// Where a vertex is.
#[derive(Clone, Copy, Debug, PartialEq, Eq, Structural)]
pub enum Point {
    /// A lattice point. Each coordinate counts half-extents of the shape,
    /// so that the corners of a shape have coordinates 1 and -1. The
    /// half-extent of a cube is its radius, that of the unit square one
    /// half.
    Lattice { x: i8, y: i8, z: i8 },
    /// A point of a sphere's grid: on stack `stack`, counted from the top
    /// pole, and on sector `sector`, counted from angle zero. The stack angle
    /// is a quarter turn less `stack` of the shape's `stack_count` parts of a
    /// half turn, the sector angle `sector` of its `sector_count` parts of a
    /// full turn.
    Spherical { stack: u32, sector: u32 },
    /// A point of a ring, at `step` times the ring's angle step from angle
    /// zero, on the outer or on the inner radius. The angle step is half a
    /// turn divided by the ring's `sector_count`.
    Annular { step: u32, outer: bool },
    /// The point with these coordinates, taken as they are.
    At { x: Scalar, y: Scalar, z: Scalar },
    /// Vertex number `index` of a mesh that the caller loaded.
    Imported { index: u32 },
}

/// Which way a vertex faces.
#[derive(Clone, Copy, Debug, PartialEq, Eq, Structural)]
pub enum Normal {
    /// No normal: the zero vector.
    Zero,
    /// A vector with whole coordinates.
    Axis { x: i8, y: i8, z: i8 },
    /// Away from the centre of the shape: the position relative to the
    /// centre, scaled by the inverse of the radius for a sphere, which
    /// brings it to length one, and by 1 for a ring.
    Radial,
    /// The normal that the loaded mesh gives this vertex.
    Imported,
}

/// One vertex of a mesh.
#[derive(Clone, Copy, Debug, PartialEq, Eq, Structural)]
pub struct Vertex {
    pub pos: Point,
    pub colour: Colour,
    pub normal: Normal,
    pub tex_coord: TexCoord,
}

/// The colour of a vertex that was given none: white.
pub open spec fn white() -> Colour {
    Colour {
        r: Scalar { bits: ONE_BITS },
        g: Scalar { bits: ONE_BITS },
        b: Scalar { bits: ONE_BITS },
    }
}

/// The texture coordinate `(u, v)` for whole `u` and `v`.
pub open spec fn whole_tex_coord(u: u32, v: u32) -> TexCoord {
    TexCoord::At { u: Ratio { num: u, den: 1 }, v: Ratio { num: v, den: 1 } }
}

/// Vertex number `index` of a loaded mesh: white, and in every other respect
/// as the mesh has it.
pub open spec fn imported_vertex(index: int) -> Vertex {
    Vertex {
        pos: Point::Imported { index: index as u32 },
        colour: white(),
        normal: Normal::Imported,
        tex_coord: TexCoord::Imported,
    }
}

impl Colour {
    /// White.
    pub fn white() -> (r: Colour)
        ensures
            r == white(),
    {
        Colour {
            r: Scalar { bits: ONE_BITS },
            g: Scalar { bits: ONE_BITS },
            b: Scalar { bits: ONE_BITS },
        }
    }
}

impl TexCoord {
    /// The texture coordinate `(u, v)` for whole `u` and `v`.
    pub fn whole(u: u32, v: u32) -> (r: TexCoord)
        ensures
            r == whole_tex_coord(u, v),
    {
        TexCoord::At { u: Ratio { num: u, den: 1 }, v: Ratio { num: v, den: 1 } }
    }
}

impl Vertex {
    /// A vertex from its four parts.
    pub fn new(pos: Point, colour: Colour, normal: Normal, tex_coord: TexCoord) -> (r: Vertex)
        ensures
            r == (Vertex { pos, colour, normal, tex_coord }),
    {
        Vertex { pos, colour, normal, tex_coord }
    }
}

/// The vertices of a mesh, in draw order.
#[derive(Clone, Debug, PartialEq, Eq)]
pub struct Vertices(pub Vec<Vertex>);

/// The indices of a mesh: positions in its vertex list, 16 bits each.
#[derive(Clone, Debug, PartialEq, Eq)]
pub struct Indices(pub Vec<u16>);

impl View for Vertices {
    type V = Seq<Vertex>;

    open spec fn view(&self) -> Seq<Vertex> {
        self.0@
    }
}

impl View for Indices {
    type V = Seq<u16>;

    open spec fn view(&self) -> Seq<u16> {
        self.0@
    }
}

impl Vertices {
    /// Wraps a list of vertices.
    pub fn new(vertices: Vec<Vertex>) -> (r: Vertices)
        ensures
            r@ == vertices@,
    {
        Vertices(vertices)
    }

    /// Number of vertices.
    pub fn len(&self) -> (r: usize)
        ensures
            r == self@.len(),
    {
        self.0.len()
    }
}

impl Indices {
    /// Wraps a list of indices.
    pub fn new(indices: Vec<u16>) -> (r: Indices)
        ensures
            r@ == indices@,
    {
        Indices(indices)
    }

    /// Number of indices.
    pub fn len(&self) -> (r: usize)
        ensures
            r == self@.len(),
    {
        self.0.len()
    }
}

/// Why a mesh cannot be had.
#[derive(Clone, Copy, Debug, PartialEq, Eq, Structural)]
pub enum GeometryError {
    /// A parameter of the shape is outside what the shape allows.
    InvalidParameter,
    /// The mesh would have more vertices than its indices can address, or
    /// than a draw can count.
    TooManyVertices,
    /// The mesh has more indices than a draw can count.
    TooManyIndices,
    /// An index is not the position of a vertex.
    IndexOutOfRange,
}

/// Largest number of vertices that 16-bit indices can address.
pub const MAX_INDEXED_VERTICES: u32 = 0x1_0000;

/// Every index is the position of a vertex.
pub open spec fn indices_in_range(vertex_count: int, indices: Seq<u16>) -> bool {
    forall|i: int| 0 <= i < indices.len() ==> (#[trigger] indices[i]) < vertex_count
}

/// A mesh: vertices in draw order and the indices into them.
///
/// Every index addresses a vertex, and both lists can be counted in 32 bits.
/// Once made, a mesh does not change.
#[derive(Clone, Debug, PartialEq, Eq)]
pub struct VerticesAndIndices {
    vertices: Vertices,
    indices: Indices,
}

/// Mathematical content of a [`VerticesAndIndices`].
pub struct Mesh {
    pub vertices: Seq<Vertex>,
    pub indices: Seq<u16>,
}

impl Mesh {
    /// Every index addresses a vertex, and both lists can be counted in 32
    /// bits.
    pub open spec fn well_formed(self) -> bool {
        &&& self.vertices.len() <= u32::MAX
        &&& self.indices.len() <= u32::MAX
        &&& indices_in_range(self.vertices.len() as int, self.indices)
    }

    /// The reason for which the two lists are no mesh, if there is one.
    pub open spec fn defect(self) -> Option<GeometryError> {
        if self.vertices.len() > u32::MAX {
            Some(GeometryError::TooManyVertices)
        } else if self.indices.len() > u32::MAX {
            Some(GeometryError::TooManyIndices)
        } else if !indices_in_range(self.vertices.len() as int, self.indices) {
            Some(GeometryError::IndexOutOfRange)
        } else {
            None
        }
    }
}

impl View for VerticesAndIndices {
    type V = Mesh;

    closed spec fn view(&self) -> Mesh {
        Mesh { vertices: self.vertices@, indices: self.indices@ }
    }
}

impl VerticesAndIndices {
    /// The mesh is as a mesh has to be. Every mesh that this library hands
    /// out is.
    pub open spec fn well_formed(&self) -> bool {
        self@.well_formed()
    }

    /// Makes a mesh of vertices and indices, after checking that every index
    /// addresses a vertex and that both lists can be counted in 32 bits.
    pub fn new(vertices: Vertices, indices: Indices) -> (r: Result<VerticesAndIndices, GeometryError>)
        ensures
            match (Mesh { vertices: vertices@, indices: indices@ }).defect() {
                Some(e) => r == Err::<VerticesAndIndices, GeometryError>(e),
                None => r matches Ok(m) && m@ == (Mesh { vertices: vertices@, indices: indices@ })
                    && m.well_formed(),
            },
    {
        if vertices.0.len() > 0xffff_ffff {
            return Err(GeometryError::TooManyVertices);
        }
        if indices.0.len() > 0xffff_ffff {
            return Err(GeometryError::TooManyIndices);
        }
        let mut i: usize = 0;
        while i < indices.0.len()
            invariant
                i <= indices@.len(),
                vertices@.len() <= u32::MAX,
                indices@.len() <= u32::MAX,
                forall|k: int| 0 <= k < i ==> (#[trigger] indices@[k]) < vertices@.len(),
            decreases indices@.len() - i,
        {
            if indices.0[i] as usize >= vertices.0.len() {
                assert(indices@[i as int] >= vertices@.len());
                return Err(GeometryError::IndexOutOfRange);
            }
            i += 1;
        }
        Ok(VerticesAndIndices { vertices, indices })
    }

    /// Makes a mesh of lists that are known to form one.
    pub(crate) fn from_parts(vertices: Vec<Vertex>, indices: Vec<u16>) -> (r: VerticesAndIndices)
        requires
            (Mesh { vertices: vertices@, indices: indices@ }).well_formed(),
        ensures
            r@ == (Mesh { vertices: vertices@, indices: indices@ }),
            r.well_formed(),
    {
        VerticesAndIndices { vertices: Vertices(vertices), indices: Indices(indices) }
    }

    /// The vertices, in draw order.
    pub fn vertices(&self) -> (r: &Vertices)
        ensures
            r@ == self@.vertices,
    {
        &self.vertices
    }

    /// The indices.
    pub fn indices(&self) -> (r: &Indices)
        ensures
            r@ == self@.indices,
    {
        &self.indices
    }

    /// Number of vertices.
    pub fn vertex_count(&self) -> (r: u32)
        requires
            self.well_formed(),
        ensures
            r == self@.vertices.len(),
    {
        self.vertices.0.len() as u32
    }

    /// Number of indices.
    pub fn index_count(&self) -> (r: u32)
        requires
            self.well_formed(),
        ensures
            r == self@.indices.len(),
    {
        self.indices.0.len() as u32
    }
}

} // verus!
