//! The parameters of each kind of shape, and the mesh that belongs to them.

use crate::geometry::cube::{cube, cube_mesh, CUBE_INDICES};
use crate::geometry::ring::{ring, ring_defect, ring_mesh};
use crate::geometry::sphere::{lemma_grid_len_bound, sphere, sphere_mesh, sphere_too_large};
use crate::geometry::square::{square, square_mesh, SQUARE_CORNERS};
use crate::geometry::utility::{copy_indices, lemma_grid_indices_in_range, lemma_grid_indices_len};
use crate::render_config::ModelTopology;
use crate::scalar::Scalar;
use crate::space::{
    identity, imported_vertex, origin, Colour, Coordinate3, GeometryError, Mesh, Normal, Orientation, Point,
    TexCoord, Vertex, Vertices, VerticesAndIndices, Indices,
};
use vstd::prelude::*;

verus! {

/// A cube around `position` whose faces lie `radius` away from it.
#[derive(Clone, Copy, Debug, PartialEq, Eq, Structural)]
pub struct CubeInfo {
    pub position: Coordinate3,
    pub orientation: Orientation,
    pub radius: Scalar,
}

/// A sphere of radius `radius` around `position`, in `sector_count` sectors
/// around its axis and `stack_count` stacks from pole to pole.
#[derive(Clone, Copy, Debug, PartialEq, Eq, Structural)]
pub struct SphereInfo {
    pub position: Coordinate3,
    pub orientation: Orientation,
    pub radius: Scalar,
    pub sector_count: u32,
    pub stack_count: u32,
}

/// Collects the parameters of a sphere. What is not set takes its default:
/// the origin, no rotation, no sectors and no stacks. The radius has no
/// default.
#[derive(Clone, Copy, Debug, PartialEq, Eq, Structural)]
pub struct SphereBuilder {
    pub position: Option<Coordinate3>,
    pub orientation: Option<Orientation>,
    pub radius: Option<Scalar>,
    pub sector_count: Option<u32>,
    pub stack_count: Option<u32>,
}

impl SphereBuilder {
    /// The parameters that the builder stands for, or `InvalidParameter`
    /// where it has no radius.
    pub open spec fn finish(self) -> Result<SphereInfo, GeometryError> {
        match self.radius {
            None => Err(GeometryError::InvalidParameter),
            Some(radius) => Ok(
                SphereInfo {
                    position: match self.position {
                        Some(p) => p,
                        None => origin(),
                    },
                    orientation: match self.orientation {
                        Some(o) => o,
                        None => identity(),
                    },
                    radius,
                    sector_count: match self.sector_count {
                        Some(n) => n,
                        None => 0,
                    },
                    stack_count: match self.stack_count {
                        Some(n) => n,
                        None => 0,
                    },
                },
            ),
        }
    }

    /// A builder of which nothing is set.
    pub fn new() -> (r: SphereBuilder)
        ensures
            r == (SphereBuilder {
                position: None,
                orientation: None,
                radius: None,
                sector_count: None,
                stack_count: None,
            }),
    {
        SphereBuilder {
            position: None,
            orientation: None,
            radius: None,
            sector_count: None,
            stack_count: None,
        }
    }

    /// Sets the centre.
    pub fn position(self, position: Coordinate3) -> (r: SphereBuilder)
        ensures
            r == (SphereBuilder { position: Some(position), ..self }),
    {
        SphereBuilder { position: Some(position), ..self }
    }

    /// Sets the rotation.
    pub fn orientation(self, orientation: Orientation) -> (r: SphereBuilder)
        ensures
            r == (SphereBuilder { orientation: Some(orientation), ..self }),
    {
        SphereBuilder { orientation: Some(orientation), ..self }
    }

    /// Sets the radius.
    pub fn radius(self, radius: Scalar) -> (r: SphereBuilder)
        ensures
            r == (SphereBuilder { radius: Some(radius), ..self }),
    {
        SphereBuilder { radius: Some(radius), ..self }
    }

    /// Sets the number of sectors.
    pub fn sector_count(self, sector_count: u32) -> (r: SphereBuilder)
        ensures
            r == (SphereBuilder { sector_count: Some(sector_count), ..self }),
    {
        SphereBuilder { sector_count: Some(sector_count), ..self }
    }

    /// Sets the number of stacks.
    pub fn stack_count(self, stack_count: u32) -> (r: SphereBuilder)
        ensures
            r == (SphereBuilder { stack_count: Some(stack_count), ..self }),
    {
        SphereBuilder { stack_count: Some(stack_count), ..self }
    }

    /// Makes the parameters of the sphere. The radius must have been set.
    pub fn build(&self) -> (r: Result<SphereInfo, GeometryError>)
        ensures
            r == self.finish(),
    {
        let radius = match self.radius {
            Some(radius) => radius,
            None => {
                return Err(GeometryError::InvalidParameter);
            },
        };
        Ok(
            SphereInfo {
                position: match self.position {
                    Some(p) => p,
                    None => Coordinate3::default(),
                },
                orientation: match self.orientation {
                    Some(o) => o,
                    None => Orientation::default(),
                },
                radius,
                sector_count: match self.sector_count {
                    Some(n) => n,
                    None => 0,
                },
                stack_count: match self.stack_count {
                    Some(n) => n,
                    None => 0,
                },
            },
        )
    }
}

/// A flat ring around `position` between two radii, in `sector_count`
/// sectors.
#[derive(Clone, Copy, Debug, PartialEq, Eq, Structural)]
pub struct RingInfo {
    pub position: Coordinate3,
    pub orientation: Orientation,
    pub inner_radius: Scalar,
    pub outer_radius: Scalar,
    pub sector_count: u32,
}

/// A square of side one at `position`.
#[derive(Clone, Copy, Debug, PartialEq, Eq, Structural)]
pub struct SquareInfo {
    pub position: Coordinate3,
    pub orientation: Orientation,
    pub radius: Scalar,
    pub has_depth: bool,
}

/// A mesh that the caller loaded from the file at `path`: the number of its
/// vertices and its faces as indices. The vertices themselves stay with the
/// caller.
#[derive(Clone, Debug, PartialEq, Eq)]
pub struct ModelInfo {
    pub path: String,
    pub position: Coordinate3,
    pub orientation: Orientation,
    pub vertex_count: u32,
    pub indices: Vec<u16>,
}

/// Mathematical content of a [`ModelInfo`].
pub struct ModelInfoView {
    pub path: Seq<char>,
    pub position: Coordinate3,
    pub orientation: Orientation,
    pub vertex_count: u32,
    pub indices: Seq<u16>,
}

impl View for ModelInfo {
    type V = ModelInfoView;

    open spec fn view(&self) -> ModelInfoView {
        ModelInfoView {
            path: self.path@,
            position: self.position,
            orientation: self.orientation,
            vertex_count: self.vertex_count,
            indices: self.indices@,
        }
    }
}

/// The kind of a shape with the parameters of that kind.
#[derive(Clone, Debug, PartialEq, Eq)]
pub enum ShapeProperties {
    Cube(CubeInfo),
    Sphere(SphereInfo),
    Ring(RingInfo),
    Square(SquareInfo),
    Model(ModelInfo),
}

/// Mathematical content of a [`ShapeProperties`].
pub enum ShapePropertiesView {
    Cube(CubeInfo),
    Sphere(SphereInfo),
    Ring(RingInfo),
    Square(SquareInfo),
    Model(ModelInfoView),
}

impl View for ShapeProperties {
    type V = ShapePropertiesView;

    open spec fn view(&self) -> ShapePropertiesView {
        match self {
            ShapeProperties::Cube(info) => ShapePropertiesView::Cube(*info),
            ShapeProperties::Sphere(info) => ShapePropertiesView::Sphere(*info),
            ShapeProperties::Ring(info) => ShapePropertiesView::Ring(*info),
            ShapeProperties::Square(info) => ShapePropertiesView::Square(*info),
            ShapeProperties::Model(info) => ShapePropertiesView::Model(info@),
        }
    }
}

/// The mesh of a loaded model: one vertex for each that the file has, and the
/// file's indices.
pub open spec fn model_mesh(info: ModelInfoView) -> Mesh {
    Mesh {
        vertices: Seq::new(info.vertex_count as nat, |k: int| imported_vertex(k)),
        indices: info.indices,
    }
}

impl ShapePropertiesView {
    /// The mesh that these parameters give, or the reason for which they
    /// give none.
    pub open spec fn geometry(self) -> Result<Mesh, GeometryError> {
        match self {
            ShapePropertiesView::Cube(_) => Ok(cube_mesh()),
            ShapePropertiesView::Square(_) => Ok(square_mesh()),
            ShapePropertiesView::Sphere(info) => if sphere_too_large(
                info.sector_count,
                info.stack_count,
            ) {
                Err(GeometryError::TooManyVertices)
            } else {
                Ok(sphere_mesh(info.sector_count, info.stack_count))
            },
            ShapePropertiesView::Ring(info) => match ring_defect(
                info.inner_radius,
                info.outer_radius,
                info.sector_count,
            ) {
                Some(e) => Err(e),
                None => Ok(ring_mesh(info.sector_count)),
            },
            ShapePropertiesView::Model(info) => match model_mesh(info).defect() {
                Some(e) => Err(e),
                None => Ok(model_mesh(info)),
            },
        }
    }

    /// The topology that the mesh of this kind is laid out for. A loaded
    /// model is laid out as its file says, which the library cannot know.
    pub open spec fn natural_topology(self) -> Option<ModelTopology> {
        match self {
            ShapePropertiesView::Ring(_) => Some(ModelTopology::TriangleStrip),
            ShapePropertiesView::Model(_) => None,
            _ => Some(ModelTopology::TriangleList),
        }
    }
}

/// Every mesh that a shape's parameters give is well formed: each of its
/// indices is the position of one of its vertices, whatever the kind of the
/// shape and whatever its parameters.
pub proof fn lemma_generated_meshes_are_well_formed(properties: ShapePropertiesView, mesh: Mesh)
    requires
        properties.geometry() == Ok::<Mesh, GeometryError>(mesh),
    ensures
        mesh.well_formed(),
        forall|i: int|
            0 <= i < mesh.indices.len() ==> (#[trigger] mesh.indices[i]) < mesh.vertices.len(),
{
    match properties {
        ShapePropertiesView::Cube(_) => {
            assert(CUBE_INDICES@.len() == 36);
            assert(mesh.well_formed());
        },
        ShapePropertiesView::Square(_) => {
            assert(SQUARE_CORNERS@.len() == 4);
            assert(mesh.well_formed());
        },
        ShapePropertiesView::Sphere(info) => {
            let s = info.sector_count as int;
            let t = info.stack_count as int;
            lemma_grid_indices_in_range(s, t, t as nat);
            lemma_grid_indices_len(s, t, t as nat);
            lemma_grid_len_bound(s, t);
        },
        ShapePropertiesView::Ring(_) => {},
        ShapePropertiesView::Model(_) => {},
    }
}

/// Generating a mesh again gives the same mesh: whatever two runs return for
/// the same parameters has the same vertices in the same order and the same
/// indices in the same order.
pub proof fn lemma_geometry_is_repeatable(
    first: ShapePropertiesView,
    second: ShapePropertiesView,
    a: Mesh,
    b: Mesh,
)
    requires
        first == second,
        first.geometry() == Ok::<Mesh, GeometryError>(a),
        second.geometry() == Ok::<Mesh, GeometryError>(b),
    ensures
        a.vertices == b.vertices,
        a.indices == b.indices,
{
}

/// Generates the mesh of a loaded model from the number of its vertices and
/// its indices, after checking that every index addresses a vertex.
pub fn model(info: &ModelInfo) -> (r: Result<VerticesAndIndices, GeometryError>)
    ensures
        match model_mesh(info@).defect() {
            Some(e) => r == Err::<VerticesAndIndices, GeometryError>(e),
            None => r matches Ok(m) && m@ == model_mesh(info@) && m.well_formed(),
        },
{
    let mut vertices: Vec<Vertex> = Vec::new();
    let mut k: u32 = 0;
    while k < info.vertex_count
        invariant
            k <= info.vertex_count,
            vertices@ == Seq::new(k as nat, |i: int| imported_vertex(i)),
        decreases info.vertex_count - k,
    {
        vertices.push(
            Vertex::new(
                Point::Imported { index: k },
                Colour::white(),
                Normal::Imported,
                TexCoord::Imported,
            ),
        );
        assert(vertices@ =~= Seq::new((k + 1) as nat, |i: int| imported_vertex(i)));
        k += 1;
    }
    VerticesAndIndices::new(
        Vertices::new(vertices),
        Indices::new(copy_indices(info.indices.as_slice())),
    )
}

impl ShapeProperties {
    /// Generates the mesh of the shape. The result depends on the parameters
    /// alone: the same parameters give the same vertices and the same
    /// indices.
    pub fn generate_geometry(&self) -> (r: Result<VerticesAndIndices, GeometryError>)
        ensures
            match self@.geometry() {
                Ok(mesh) => r matches Ok(m) && m@ == mesh && m.well_formed(),
                Err(e) => r == Err::<VerticesAndIndices, GeometryError>(e),
            },
    {
        match self {
            ShapeProperties::Cube(_) => Ok(cube()),
            ShapeProperties::Square(_) => Ok(square()),
            ShapeProperties::Sphere(info) => sphere(info.sector_count, info.stack_count),
            ShapeProperties::Ring(info) => ring(
                info.inner_radius,
                info.outer_radius,
                info.sector_count,
            ),
            ShapeProperties::Model(info) => model(info),
        }
    }

    /// The topology that the mesh of this kind is laid out for, if the kind
    /// fixes one.
    pub fn natural_topology(&self) -> (r: Option<ModelTopology>)
        ensures
            r == self@.natural_topology(),
    {
        match self {
            ShapeProperties::Ring(_) => Some(ModelTopology::TriangleStrip),
            ShapeProperties::Model(_) => None,
            _ => Some(ModelTopology::TriangleList),
        }
    }
}

} // verus!
