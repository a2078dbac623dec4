//! A shape: parameters, render configuration and mesh, and the device
//! resources it owns while it is built.
//!
//! A shape is made without resources. Building gives it buffers, a texture if
//! it has one, and a pipeline. When the swapchain is recreated the pipeline
//! goes and a new one comes, while buffers and texture stay. Destroying gives
//! everything back. Only a built shape can be drawn.

use crate::binder::{
    begin, begin_spec, buffer_requests, pipeline_request, step_spec, BuildActionView,
    BuildContext, BuildEventView, BuildPlan, BuildRequest, BuildState, PipelineRequest,
    INDEX_SIZE, VERTEX_SIZE,
};
use crate::draw::{draw_commands, DrawCommand, IndexType};
use crate::properties::{ShapeProperties, ShapePropertiesView};
use crate::render_config::{
    Indexed, ModelCullMode, ModelTopology, RenderConfig, RenderConfigView, Shader, TextureBuffer,
};
use crate::resources::{
    kept_releases, model_buffers_releases, optional_texture_releases, pipeline_releases,
    push_kept_releases, push_pipeline_releases, resources_releases, BuiltResources,
    Buffer, BuiltResourcesView, GraphicsPipeline, ModelBuffers, Release, Texture,
};
use crate::space::{GeometryError, Mesh, VerticesAndIndices};
use vstd::prelude::*;
use vstd::seq_lib::lemma_multiset_commutative;

verus! {

/// Behaviour that an object of the scene shows from frame to frame. The
/// library calls it nowhere: it is the caller's to implement and to drive.
pub trait Behavior {
    fn actions(&mut self);
}

/// Why an operation on a shape was refused.
#[derive(Clone, Copy, Debug, PartialEq, Eq, Structural)]
pub enum ShapeError {
    /// The builder was given no parameters.
    MissingProperties,
    /// The parameters give no mesh.
    Geometry(GeometryError),
    /// The topology is not the one that the mesh is laid out for, or an
    /// indexed triangle list has a number of indices that three does not
    /// divide.
    TopologyMismatch,
    /// The shape has resources already.
    AlreadyBuilt,
    /// The shape is not in the state that the operation needs.
    NotBuilt,
    /// The resources are not those of this shape: an index buffer or a
    /// texture is there and should not be, or the reverse, or the pipeline
    /// does not have one descriptor set and one uniform buffer for each
    /// swapchain image of its context.
    ResourceMismatch,
    /// The pipeline has no descriptor set for that swapchain image.
    FrameOutOfRange,
}

/// The resources of a shape, by its state.
#[derive(Debug, PartialEq, Eq)]
pub enum ShapeState {
    /// No resources.
    Unbuilt,
    /// All resources. The pipeline was built against `context`, the render
    /// pass and the extent of the swapchain of generation `generation`.
    Built { resources: BuiltResources, context: BuildContext, generation: u64 },
    /// Buffers and texture, but no pipeline: the swapchain is being
    /// recreated.
    Suspended { buffers: ModelBuffers, texture: Option<Texture> },
}

/// Mathematical content of a [`ShapeState`].
pub enum ShapeStateView {
    Unbuilt,
    Built { resources: BuiltResourcesView, context: BuildContext, generation: u64 },
    Suspended { buffers: ModelBuffers, texture: Option<Texture> },
}

impl View for ShapeState {
    type V = ShapeStateView;

    open spec fn view(&self) -> ShapeStateView {
        match self {
            ShapeState::Unbuilt => ShapeStateView::Unbuilt,
            ShapeState::Built { resources, context, generation } => ShapeStateView::Built {
                resources: resources@,
                context: *context,
                generation: *generation,
            },
            ShapeState::Suspended { buffers, texture } => ShapeStateView::Suspended {
                buffers: *buffers,
                texture: *texture,
            },
        }
    }
}

impl ShapeStateView {
    /// Everything the shape owns on the device in this state, in the order
    /// in which it is given back.
    pub open spec fn owned(self) -> Seq<Release> {
        match self {
            ShapeStateView::Unbuilt => Seq::empty(),
            ShapeStateView::Built { resources, .. } => resources_releases(resources),
            ShapeStateView::Suspended { buffers, texture } => kept_releases(buffers, texture),
        }
    }
}

/// The handles of the resources in the order in which a build obtains them:
/// the texture, then the buffers, then the pipeline.
pub open spec fn acquisition_order(r: BuiltResourcesView) -> Seq<Release> {
    optional_texture_releases(r.texture) + model_buffers_releases(r.buffers) + pipeline_releases(
        r.pipeline,
    )
}

/// Destroying a shape gives back exactly what building it obtained: every
/// handle once, none twice and none left, though in another order, the
/// buffers first.
pub proof fn lemma_destroy_gives_back_what_build_obtained(
    r: BuiltResourcesView,
    context: BuildContext,
    generation: u64,
)
    ensures
        (ShapeStateView::Built { resources: r, context, generation }).owned().to_multiset()
            == acquisition_order(r).to_multiset(),
        ShapeStateView::Unbuilt.owned() == Seq::<Release>::empty(),
{
    let t = optional_texture_releases(r.texture);
    let b = model_buffers_releases(r.buffers);
    let p = pipeline_releases(r.pipeline);
    lemma_multiset_commutative(b + t, p);
    lemma_multiset_commutative(t + b, p);
    lemma_multiset_commutative(b, t);
    lemma_multiset_commutative(t, b);
    broadcast use vstd::multiset::group_multiset_axioms;

    assert(b.to_multiset().add(t.to_multiset()) =~= t.to_multiset().add(b.to_multiset()));
    assert(resources_releases(r) =~= (b + t) + p);
}

/// Buffers and texture are those of a shape with configuration `config`: an
/// index buffer exactly if the shape is indexed, a texture exactly if it has
/// texture bytes.
pub open spec fn kept_fit(config: RenderConfigView, buffers: ModelBuffers, texture: Option<Texture>) -> bool {
    &&& buffers.index is Some <==> config.indexed
    &&& texture is Some <==> config.textured()
}

/// The resources are those of a shape with configuration `config` whose
/// pipeline was built against `context`: the pipeline has a descriptor set
/// and a uniform buffer for each swapchain image of the context.
pub open spec fn resources_fit(
    config: RenderConfigView,
    context: BuildContext,
    r: BuiltResourcesView,
) -> bool {
    &&& kept_fit(config, r.buffers, r.texture)
    &&& r.pipeline.serves(context.frame_count as nat)
}

/// The topology is the one that the mesh is laid out for, and the indices of
/// an indexed triangle list come in threes.
pub open spec fn topology_fits(
    properties: ShapePropertiesView,
    config: RenderConfigView,
    mesh: Mesh,
) -> bool {
    &&& properties.natural_topology() matches Some(t) ==> config.topology == t
    &&& config.indexed && config.topology == ModelTopology::TriangleList ==> mesh.indices.len()
        % 3 == 0
}

/// A renderable object.
#[derive(Debug, PartialEq, Eq)]
pub struct Shape {
    properties: ShapeProperties,
    config: RenderConfig,
    vertices_and_indices: VerticesAndIndices,
    state: ShapeState,
}

/// Mathematical content of a [`Shape`].
pub struct ShapeView {
    pub properties: ShapePropertiesView,
    pub config: RenderConfigView,
    pub mesh: Mesh,
    pub state: ShapeStateView,
}

impl View for Shape {
    type V = ShapeView;

    closed spec fn view(&self) -> ShapeView {
        ShapeView {
            properties: self.properties@,
            config: self.config@,
            mesh: self.vertices_and_indices@,
            state: self.state@,
        }
    }
}

impl ShapeView {
    /// The mesh is the one that the parameters give, the topology fits it,
    /// and the resources, as far as the shape has any, are those of its
    /// configuration.
    pub open spec fn well_formed(self) -> bool {
        &&& self.properties.geometry() == Ok::<Mesh, GeometryError>(self.mesh)
        &&& self.mesh.well_formed()
        &&& topology_fits(self.properties, self.config, self.mesh)
        &&& match self.state {
            ShapeStateView::Unbuilt => true,
            ShapeStateView::Built { resources, context, .. } => resources_fit(
                self.config,
                context,
                resources,
            ),
            ShapeStateView::Suspended { buffers, texture } => kept_fit(
                self.config,
                buffers,
                texture,
            ),
        }
    }

    /// The shape with another state and all else the same.
    pub open spec fn with_state(self, state: ShapeStateView) -> ShapeView {
        ShapeView { properties: self.properties, config: self.config, mesh: self.mesh, state }
    }

    /// What building the shape against `context` starts from.
    pub open spec fn build_plan(self, context: BuildContext) -> BuildPlan {
        BuildPlan {
            textured: self.config.textured(),
            indexed: self.config.indexed,
            vertex_bytes: (VERTEX_SIZE * self.mesh.vertices.len()) as u64,
            index_bytes: (INDEX_SIZE * self.mesh.indices.len()) as u64,
            topology: self.config.topology,
            cull_mode: self.config.cull_mode,
            shader: self.config.shader,
            context,
        }
    }
}

/// A build asks for exactly the buffers of the shape's mesh. The vertex
/// buffer is asked for first, or right after the texture. What follows the
/// vertex buffer is the index buffer for a shape that is drawn through its
/// indices, and the pipeline for a shape that is not: for such a shape no
/// index buffer is ever asked for.
pub proof fn lemma_build_asks_for_the_buffers_of_the_mesh(
    shape: ShapeView,
    context: BuildContext,
    texture: Texture,
    vertex: Buffer,
)
    requires
        shape.well_formed(),
    ensures
        ({
            let plan = shape.build_plan(context);
            let buffers = buffer_requests(shape.mesh, shape.config.indexed);
            let start = begin_spec(plan);
            let (ready_for_vertex, vertex_request) = if shape.config.textured() {
                let (s, a) = step_spec(start.0, BuildEventView::TextureCreated(texture));
                (s, a)
            } else {
                (start.0, BuildActionView::Request(start.1))
            };
            let after_vertex = step_spec(
                ready_for_vertex,
                BuildEventView::VertexBufferCreated(vertex),
            ).1;
            &&& vertex_request == BuildActionView::Request(buffers.0)
            &&& shape.config.indexed ==> buffers.1 is Some && after_vertex
                == BuildActionView::Request(buffers.1->0)
            &&& !shape.config.indexed ==> buffers.1 is None && after_vertex
                == BuildActionView::Request(
                BuildRequest::CreatePipeline(
                    pipeline_request(
                        plan,
                        if shape.config.textured() {
                            Some(texture)
                        } else {
                            None
                        },
                    ),
                ),
            )
        }),
{
}

/// Collects what a shape is made of. What is not set takes its default: no
/// texture, drawn through indices as a triangle list, nothing culled, the
/// first shader. The parameters have no default.
#[derive(Clone, Debug, PartialEq, Eq)]
pub struct ShapeBuilder {
    properties: Option<ShapeProperties>,
    texture: Option<Vec<u8>>,
    indexed: Option<bool>,
    topology: Option<ModelTopology>,
    cull_mode: Option<ModelCullMode>,
    shader: Option<Shader>,
}

/// Mathematical content of a [`ShapeBuilder`].
pub struct ShapeBuilderView {
    pub properties: Option<ShapePropertiesView>,
    pub texture: Option<Seq<u8>>,
    pub indexed: Option<bool>,
    pub topology: Option<ModelTopology>,
    pub cull_mode: Option<ModelCullMode>,
    pub shader: Option<Shader>,
}

impl View for ShapeBuilder {
    type V = ShapeBuilderView;

    closed spec fn view(&self) -> ShapeBuilderView {
        ShapeBuilderView {
            properties: match self.properties {
                Some(p) => Some(p@),
                None => None,
            },
            texture: match self.texture {
                Some(t) => Some(t@),
                None => None,
            },
            indexed: self.indexed,
            topology: self.topology,
            cull_mode: self.cull_mode,
            shader: self.shader,
        }
    }
}

impl ShapeBuilderView {
    /// The builder of which nothing was set.
    pub open spec fn empty() -> ShapeBuilderView {
        ShapeBuilderView {
            properties: None,
            texture: None,
            indexed: None,
            topology: None,
            cull_mode: None,
            shader: None,
        }
    }

    /// The configuration that the builder stands for, defaults filled in.
    pub open spec fn config(self) -> RenderConfigView {
        RenderConfigView {
            texture: match self.texture {
                Some(t) => t,
                None => Seq::empty(),
            },
            indexed: match self.indexed {
                Some(i) => i,
                None => true,
            },
            topology: match self.topology {
                Some(t) => t,
                None => ModelTopology::TriangleList,
            },
            cull_mode: match self.cull_mode {
                Some(c) => c,
                None => ModelCullMode::Off,
            },
            shader: match self.shader {
                Some(s) => s,
                None => Shader(0),
            },
        }
    }

    /// The shape that the builder gives, or the first reason for which it
    /// gives none: no parameters; parameters that give no mesh; a topology
    /// that does not fit the mesh.
    pub open spec fn finish(self) -> Result<ShapeView, ShapeError> {
        match self.properties {
            None => Err(ShapeError::MissingProperties),
            Some(properties) => match properties.geometry() {
                Err(e) => Err(ShapeError::Geometry(e)),
                Ok(mesh) => if topology_fits(properties, self.config(), mesh) {
                    Ok(
                        ShapeView {
                            properties,
                            config: self.config(),
                            mesh,
                            state: ShapeStateView::Unbuilt,
                        },
                    )
                } else {
                    Err(ShapeError::TopologyMismatch)
                },
            },
        }
    }
}

impl ShapeBuilder {
    /// A builder of which nothing is set.
    pub fn new() -> (r: ShapeBuilder)
        ensures
            r@ == ShapeBuilderView::empty(),
    {
        ShapeBuilder {
            properties: None,
            texture: None,
            indexed: None,
            topology: None,
            cull_mode: None,
            shader: None,
        }
    }

    /// Sets the kind of the shape and its parameters.
    pub fn properties(self, properties: ShapeProperties) -> (r: ShapeBuilder)
        ensures
            r@ == (ShapeBuilderView { properties: Some(properties@), ..self@ }),
    {
        ShapeBuilder {
            properties: Some(properties),
            texture: self.texture,
            indexed: self.indexed,
            topology: self.topology,
            cull_mode: self.cull_mode,
            shader: self.shader,
        }
    }

    /// Sets the texture to the bytes that the caller read from the texture
    /// file. Where the file could not be read, `loaded` is `None` and the
    /// builder stays as it is: the shape is then made without that texture
    /// rather than not at all.
    pub fn texture(self, loaded: Option<Vec<u8>>) -> (r: ShapeBuilder)
        ensures
            match loaded {
                Some(bytes) => r@ == (ShapeBuilderView { texture: Some(bytes@), ..self@ }),
                None => r@ == self@,
            },
    {
        match loaded {
            Some(bytes) => ShapeBuilder {
                properties: self.properties,
                texture: Some(bytes),
                indexed: self.indexed,
                topology: self.topology,
                cull_mode: self.cull_mode,
                shader: self.shader,
            },
            None => self,
        }
    }

    /// Sets whether the shape is drawn through indices.
    pub fn indexed(self, indexed: bool) -> (r: ShapeBuilder)
        ensures
            r@ == (ShapeBuilderView { indexed: Some(indexed), ..self@ }),
    {
        ShapeBuilder {
            properties: self.properties,
            texture: self.texture,
            indexed: Some(indexed),
            topology: self.topology,
            cull_mode: self.cull_mode,
            shader: self.shader,
        }
    }

    /// Sets the topology.
    pub fn topology(self, topology: ModelTopology) -> (r: ShapeBuilder)
        ensures
            r@ == (ShapeBuilderView { topology: Some(topology), ..self@ }),
    {
        ShapeBuilder {
            properties: self.properties,
            texture: self.texture,
            indexed: self.indexed,
            topology: Some(topology),
            cull_mode: self.cull_mode,
            shader: self.shader,
        }
    }

    /// Sets the cull mode.
    pub fn cull_mode(self, cull_mode: ModelCullMode) -> (r: ShapeBuilder)
        ensures
            r@ == (ShapeBuilderView { cull_mode: Some(cull_mode), ..self@ }),
    {
        ShapeBuilder {
            properties: self.properties,
            texture: self.texture,
            indexed: self.indexed,
            topology: self.topology,
            cull_mode: Some(cull_mode),
            shader: self.shader,
        }
    }

    /// Sets the shader.
    pub fn shader(self, shader: Shader) -> (r: ShapeBuilder)
        ensures
            r@ == (ShapeBuilderView { shader: Some(shader), ..self@ }),
    {
        ShapeBuilder {
            properties: self.properties,
            texture: self.texture,
            indexed: self.indexed,
            topology: self.topology,
            cull_mode: self.cull_mode,
            shader: Some(shader),
        }
    }

    /// Makes the shape: generates its mesh from the parameters and checks
    /// the topology against it. The shape has no resources yet. A parameter
    /// that the kind of shape does not allow is reported here, before
    /// anything is asked of the device.
    pub fn build(self) -> (r: Result<Shape, ShapeError>)
        ensures
            match self@.finish() {
                Ok(shape) => r matches Ok(s) && s@ == shape && s@.well_formed(),
                Err(e) => r == Err::<Shape, ShapeError>(e),
            },
    {
        let properties = match self.properties {
            Some(p) => p,
            None => {
                return Err(ShapeError::MissingProperties);
            },
        };
        let config = RenderConfig {
            texture: match self.texture {
                Some(bytes) => TextureBuffer(bytes),
                None => TextureBuffer(Vec::new()),
            },
            indexed: match self.indexed {
                Some(i) => Indexed(i),
                None => Indexed(true),
            },
            topology: match self.topology {
                Some(t) => t,
                None => ModelTopology::TriangleList,
            },
            cull_mode: match self.cull_mode {
                Some(c) => c,
                None => ModelCullMode::Off,
            },
            shader: match self.shader {
                Some(s) => s,
                None => Shader(0),
            },
        };
        assert(config@ =~= self@.config());
        let vertices_and_indices = match properties.generate_geometry() {
            Ok(m) => m,
            Err(e) => {
                return Err(ShapeError::Geometry(e));
            },
        };
        let natural_ok = match properties.natural_topology() {
            Some(t) => t == config.topology,
            None => true,
        };
        let list_ok = !(config.indexed.0 && config.topology == ModelTopology::TriangleList)
            || vertices_and_indices.indices().len() % 3 == 0;
        if !(natural_ok && list_ok) {
            return Err(ShapeError::TopologyMismatch);
        }
        Ok(Shape { properties, config, vertices_and_indices, state: ShapeState::Unbuilt })
    }
}

/// The memory of the uniform buffer of swapchain image `image`, to be mapped
/// from its start.
#[derive(Clone, Copy, Debug, PartialEq, Eq, Structural)]
pub struct MapRequest {
    pub memory: u64,
    pub offset: u64,
    pub size: u64,
}

impl Shape {
    /// A builder of which nothing is set.
    pub fn builder() -> (r: ShapeBuilder)
        ensures
            r@ == ShapeBuilderView::empty(),
    {
        ShapeBuilder::new()
    }

    /// The kind of the shape and its parameters.
    pub fn properties(&self) -> (r: &ShapeProperties)
        ensures
            r@ == self@.properties,
    {
        &self.properties
    }

    /// How the shape is rendered.
    pub fn render_config(&self) -> (r: &RenderConfig)
        ensures
            r@ == self@.config,
    {
        &self.config
    }

    /// The mesh of the shape.
    pub fn object_vertices_and_indices(&self) -> (r: &VerticesAndIndices)
        ensures
            r@ == self@.mesh,
    {
        &self.vertices_and_indices
    }

    /// Generates the mesh of the shape anew. It is the mesh that the shape
    /// holds: a shape's mesh never changes.
    pub fn generate_geometry(&self) -> (r: Result<VerticesAndIndices, GeometryError>)
        requires
            self@.well_formed(),
        ensures
            r matches Ok(m) && m@ == self@.mesh && m.well_formed(),
    {
        self.properties.generate_geometry()
    }

    /// The buffers that hold the shape's mesh on the device: the vertex
    /// buffer, and the index buffer if the shape is drawn through its
    /// indices and only then.
    pub fn create_buffers(&self) -> (r: (BuildRequest, Option<BuildRequest>))
        requires
            self@.well_formed(),
        ensures
            r == buffer_requests(self@.mesh, self@.config.indexed),
            r.1 is Some <==> self@.config.indexed,
    {
        self.vertices_and_indices.create_buffers(self.config.indexed.0)
    }

    /// Whether the shape is drawn through indices.
    pub fn is_indexed(&self) -> (r: bool)
        ensures
            r == self@.config.indexed,
    {
        self.config.indexed.0
    }

    /// Whether the shape has all its resources and can be drawn.
    pub fn is_built(&self) -> (r: bool)
        ensures
            r == (self@.state is Built),
    {
        match &self.state {
            ShapeState::Built { .. } => true,
            _ => false,
        }
    }

    /// What the shape's pipeline was built against: the render pass, the
    /// extent of the swapchain images and their number.
    pub fn context(&self) -> (r: Option<BuildContext>)
        ensures
            match self@.state {
                ShapeStateView::Built { context, .. } => r == Some(context),
                _ => r is None,
            },
    {
        match &self.state {
            ShapeState::Built { context, .. } => Some(*context),
            _ => None,
        }
    }

    /// The swapchain generation that the shape's pipeline was built for.
    pub fn generation(&self) -> (r: Option<u64>)
        ensures
            match self@.state {
                ShapeStateView::Built { generation, .. } => r == Some(generation),
                _ => r is None,
            },
    {
        match &self.state {
            ShapeState::Built { generation, .. } => Some(*generation),
            _ => None,
        }
    }

    /// The buffers of the shape, while it has them.
    pub fn object_buffers(&self) -> (r: Option<ModelBuffers>)
        ensures
            match self@.state {
                ShapeStateView::Built { resources, .. } => r == Some(resources.buffers),
                ShapeStateView::Suspended { buffers, .. } => r == Some(buffers),
                ShapeStateView::Unbuilt => r is None,
            },
    {
        match &self.state {
            ShapeState::Built { resources, .. } => Some(resources.buffers),
            ShapeState::Suspended { buffers, .. } => Some(*buffers),
            ShapeState::Unbuilt => None,
        }
    }

    /// The texture of the shape, while it has one.
    pub fn object_texture(&self) -> (r: Option<Texture>)
        ensures
            match self@.state {
                ShapeStateView::Built { resources, .. } => r == resources.texture,
                ShapeStateView::Suspended { texture, .. } => r == texture,
                ShapeStateView::Unbuilt => r is None,
            },
    {
        match &self.state {
            ShapeState::Built { resources, .. } => resources.texture,
            ShapeState::Suspended { texture, .. } => *texture,
            ShapeState::Unbuilt => None,
        }
    }

    /// The pipeline of the shape, while it has one.
    pub fn object_graphics_pipeline(&self) -> (r: Option<&GraphicsPipeline>)
        ensures
            match self@.state {
                ShapeStateView::Built { resources, .. } => r matches Some(p) && p@
                    == resources.pipeline,
                _ => r is None,
            },
    {
        match &self.state {
            ShapeState::Built { resources, .. } => Some(&resources.pipeline),
            _ => None,
        }
    }

    /// Starts building the shape against `context`: says what the resources
    /// are built from and what to create first. The byte sizes are exact:
    /// 44 bytes for each vertex of the mesh and 2 for each index. Building a
    /// shape that has resources is refused with `AlreadyBuilt`.
    pub fn build(&self, context: BuildContext) -> (r: Result<(BuildState, BuildRequest), ShapeError>)
        requires
            self@.well_formed(),
        ensures
            self@.state is Unbuilt ==> r == Ok::<(BuildState, BuildRequest), ShapeError>(
                begin_spec(self@.build_plan(context)),
            ),
            !(self@.state is Unbuilt) ==> r == Err::<(BuildState, BuildRequest), ShapeError>(
                ShapeError::AlreadyBuilt,
            ),
    {
        match &self.state {
            ShapeState::Unbuilt => {},
            _ => {
                return Err(ShapeError::AlreadyBuilt);
            },
        }
        let (vertex_bytes, index_bytes) = self.vertices_and_indices.buffer_sizes();
        let plan = BuildPlan {
            textured: !self.config.texture.is_empty(),
            indexed: self.config.indexed.0,
            vertex_bytes,
            index_bytes,
            topology: self.config.topology,
            cull_mode: self.config.cull_mode,
            shader: self.config.shader,
            context,
        };
        Ok(begin(plan))
    }

    /// Gives the shape the resources of a complete build, with the context
    /// that their pipeline was built against and the generation of the
    /// swapchain that the context belongs to.
    ///
    /// A shape that has resources refuses with `AlreadyBuilt`, and resources
    /// that are not those of this shape, or whose pipeline does not serve
    /// every swapchain image of the context, are refused with
    /// `ResourceMismatch`. The shape then stays as it is, and the refusal
    /// lists every handle of the resources, for the caller to give back.
    pub fn construct(
        &mut self,
        resources: BuiltResources,
        context: BuildContext,
        generation: u64,
    ) -> (r: Result<(), (ShapeError, Vec<Release>)>)
        requires
            old(self)@.well_formed(),
        ensures
            final(self)@.well_formed(),
            match r {
                Ok(_) => old(self)@.state is Unbuilt && resources_fit(
                    old(self)@.config,
                    context,
                    resources@,
                ) && final(self)@ == old(self)@.with_state(
                    ShapeStateView::Built { resources: resources@, context, generation },
                ),
                Err((e, releases)) => final(self)@ == old(self)@ && releases@ == resources_releases(
                    resources@,
                ) && e == (if old(self)@.state is Unbuilt {
                    ShapeError::ResourceMismatch
                } else {
                    ShapeError::AlreadyBuilt
                }) && !(old(self)@.state is Unbuilt && resources_fit(
                    old(self)@.config,
                    context,
                    resources@,
                )),
            },
    {
        let unbuilt = match &self.state {
            ShapeState::Unbuilt => true,
            _ => false,
        };
        let fits = resources.buffers.index.is_some() == self.config.indexed.0
            && resources.texture.is_some() == !self.config.texture.is_empty()
            && resources.pipeline.descriptor_sets.len() == context.frame_count as usize
            && resources.pipeline.uniform_buffers.len() == context.frame_count as usize;
        if unbuilt && fits {
            self.state = ShapeState::Built { resources, context, generation };
            Ok(())
        } else {
            let mut releases: Vec<Release> = Vec::new();
            push_kept_releases(&mut releases, &resources.buffers, &resources.texture);
            push_pipeline_releases(&mut releases, &resources.pipeline);
            assert(releases@ =~= resources_releases(resources@));
            let error = if unbuilt {
                ShapeError::ResourceMismatch
            } else {
                ShapeError::AlreadyBuilt
            };
            Err((error, releases))
        }
    }

    /// Takes the pipeline from a built shape, because the swapchain it was
    /// built for goes. The shape keeps its buffers and its texture and waits
    /// for a new pipeline. The result lists what is to be given back: the
    /// pipeline and all that was created with it.
    ///
    /// A shape that is not built refuses with `NotBuilt` and stays as it is.
    pub fn recreate_drop(&mut self) -> (r: Result<Vec<Release>, ShapeError>)
        requires
            old(self)@.well_formed(),
        ensures
            final(self)@.well_formed(),
            match old(self)@.state {
                ShapeStateView::Built { resources, .. } => r matches Ok(releases) && releases@
                    == pipeline_releases(resources.pipeline) && final(self)@ == old(
                    self,
                )@.with_state(
                    ShapeStateView::Suspended {
                        buffers: resources.buffers,
                        texture: resources.texture,
                    },
                ),
                _ => r == Err::<Vec<Release>, ShapeError>(ShapeError::NotBuilt) && final(self)@
                    == old(self)@,
            },
    {
        let mut taken = ShapeState::Unbuilt;
        core::mem::swap(&mut self.state, &mut taken);
        match taken {
            ShapeState::Built { resources, .. } => {
                let mut releases: Vec<Release> = Vec::new();
                push_pipeline_releases(&mut releases, &resources.pipeline);
                assert(releases@ =~= pipeline_releases(resources@.pipeline));
                self.state = ShapeState::Suspended {
                    buffers: resources.buffers,
                    texture: resources.texture,
                };
                Ok(releases)
            },
            other => {
                self.state = other;
                Err(ShapeError::NotBuilt)
            },
        }
    }

    /// The pipeline to create for a shape that waits for one.
    pub fn pipeline_request(&self, context: BuildContext) -> (r: Result<PipelineRequest, ShapeError>)
        ensures
            match self@.state {
                ShapeStateView::Suspended { texture, .. } => r == Ok::<
                    PipelineRequest,
                    ShapeError,
                >(pipeline_request(self@.build_plan(context), texture)),
                _ => r == Err::<PipelineRequest, ShapeError>(ShapeError::NotBuilt),
            },
    {
        match &self.state {
            ShapeState::Suspended { texture, .. } => Ok(
                PipelineRequest {
                    context,
                    topology: self.config.topology,
                    cull_mode: self.config.cull_mode,
                    shader: self.config.shader,
                    texture: *texture,
                },
            ),
            _ => Err(ShapeError::NotBuilt),
        }
    }

    /// Gives a shape that waits for a pipeline its new one, built against
    /// `context`, the render pass and the extent of the swapchain of
    /// generation `generation`. From now on the shape holds that pipeline
    /// and that context, and no longer those it had before. Buffers and
    /// texture are the ones that the shape had all along.
    ///
    /// A shape that does not wait for a pipeline refuses with `AlreadyBuilt`
    /// if it is built and with `NotBuilt` if it has no resources, and a
    /// pipeline that does not have one descriptor set and one uniform buffer
    /// for each swapchain image of the context is refused with
    /// `ResourceMismatch`. The shape then stays as it is, and the refusal
    /// lists the handles of the pipeline, for the caller to give back.
    pub fn graphics_pipeline(
        &mut self,
        pipeline: GraphicsPipeline,
        context: BuildContext,
        generation: u64,
    ) -> (r: Result<(), (ShapeError, Vec<Release>)>)
        requires
            old(self)@.well_formed(),
        ensures
            final(self)@.well_formed(),
            match old(self)@.state {
                ShapeStateView::Suspended { buffers, texture } => if pipeline@.serves(
                    context.frame_count as nat,
                ) {
                    r is Ok && final(self)@ == old(self)@.with_state(
                        ShapeStateView::Built {
                            resources: BuiltResourcesView { buffers, texture, pipeline: pipeline@ },
                            context,
                            generation,
                        },
                    )
                } else {
                    r matches Err((e, releases)) && e == ShapeError::ResourceMismatch && releases@
                        == pipeline_releases(pipeline@) && final(self)@ == old(self)@
                },
                ShapeStateView::Built { .. } => r matches Err((e, releases)) && e
                    == ShapeError::AlreadyBuilt && releases@ == pipeline_releases(pipeline@)
                    && final(self)@ == old(self)@,
                ShapeStateView::Unbuilt => r matches Err((e, releases)) && e == ShapeError::NotBuilt
                    && releases@ == pipeline_releases(pipeline@) && final(self)@ == old(self)@,
            },
    {
        let mut taken = ShapeState::Unbuilt;
        core::mem::swap(&mut self.state, &mut taken);
        let matched = pipeline.descriptor_sets.len() == context.frame_count as usize
            && pipeline.uniform_buffers.len() == context.frame_count as usize;
        match taken {
            ShapeState::Suspended { buffers, texture } => {
                if matched {
                    self.state = ShapeState::Built {
                        resources: BuiltResources { buffers, texture, pipeline },
                        context,
                        generation,
                    };
                    Ok(())
                } else {
                    self.state = ShapeState::Suspended { buffers, texture };
                    let mut releases: Vec<Release> = Vec::new();
                    push_pipeline_releases(&mut releases, &pipeline);
                    assert(releases@ =~= pipeline_releases(pipeline@));
                    Err((ShapeError::ResourceMismatch, releases))
                }
            },
            other => {
                let error = match &other {
                    ShapeState::Unbuilt => ShapeError::NotBuilt,
                    _ => ShapeError::AlreadyBuilt,
                };
                self.state = other;
                let mut releases: Vec<Release> = Vec::new();
                push_pipeline_releases(&mut releases, &pipeline);
                assert(releases@ =~= pipeline_releases(pipeline@));
                Err((error, releases))
            },
        }
    }

    /// Takes every resource from the shape and lists what is to be given
    /// back, in this order: the buffers, then the texture, then the pipeline
    /// with all that was created with it. Afterwards the shape has no
    /// resources, as when it was made.
    ///
    /// A shape without resources refuses with `NotBuilt`: nothing is given
    /// back twice.
    pub fn destroy(&mut self) -> (r: Result<Vec<Release>, ShapeError>)
        requires
            old(self)@.well_formed(),
        ensures
            final(self)@.well_formed(),
            final(self)@ == old(self)@.with_state(ShapeStateView::Unbuilt),
            match old(self)@.state {
                ShapeStateView::Unbuilt => r == Err::<Vec<Release>, ShapeError>(
                    ShapeError::NotBuilt,
                ),
                state => r matches Ok(releases) && releases@ == state.owned(),
            },
    {
        let mut taken = ShapeState::Unbuilt;
        core::mem::swap(&mut self.state, &mut taken);
        match taken {
            ShapeState::Unbuilt => Err(ShapeError::NotBuilt),
            ShapeState::Built { resources, .. } => {
                let mut releases: Vec<Release> = Vec::new();
                push_kept_releases(&mut releases, &resources.buffers, &resources.texture);
                push_pipeline_releases(&mut releases, &resources.pipeline);
                assert(releases@ =~= resources_releases(resources@));
                Ok(releases)
            },
            ShapeState::Suspended { buffers, texture } => {
                let mut releases: Vec<Release> = Vec::new();
                push_kept_releases(&mut releases, &buffers, &texture);
                assert(releases@ =~= kept_releases(buffers, texture));
                Ok(releases)
            },
        }
    }

    /// Lists the commands that draw the shape into swapchain image `image`:
    /// bind the pipeline, bind the descriptor set of that image, bind the
    /// vertex buffer at offset 0, then draw. An indexed shape is drawn
    /// through its index buffer, another straight from its vertices.
    ///
    /// Nothing is allocated on the device and nothing waits. A shape that is
    /// not built is refused with `NotBuilt`, never passed over, and an image
    /// for which the pipeline has no descriptor set with `FrameOutOfRange`.
    pub fn bind_index_and_vertex_buffers(&self, image: usize) -> (r: Result<
        Vec<DrawCommand>,
        ShapeError,
    >)
        requires
            self@.well_formed(),
        ensures
            match self@.state {
                ShapeStateView::Built { resources, .. } => if image
                    < resources.pipeline.descriptor_sets.len() {
                    r matches Ok(commands) && commands@ == draw_commands(
                        resources,
                        self@.mesh,
                        image as int,
                    )
                } else {
                    r == Err::<Vec<DrawCommand>, ShapeError>(ShapeError::FrameOutOfRange)
                },
                _ => r == Err::<Vec<DrawCommand>, ShapeError>(ShapeError::NotBuilt),
            },
    {
        let resources = match &self.state {
            ShapeState::Built { resources, .. } => resources,
            _ => {
                return Err(ShapeError::NotBuilt);
            },
        };
        let pipeline = &resources.pipeline;
        if image >= pipeline.descriptor_sets.len() {
            return Err(ShapeError::FrameOutOfRange);
        }
        let mut commands: Vec<DrawCommand> = Vec::new();
        commands.push(DrawCommand::BindPipeline { pipeline: pipeline.pipeline });
        commands.push(
            DrawCommand::BindDescriptorSet {
                layout: pipeline.layout,
                first_set: 0,
                descriptor_set: pipeline.descriptor_sets[image],
            },
        );
        commands.push(
            DrawCommand::BindVertexBuffer {
                first_binding: 0,
                buffer: resources.buffers.vertex.buffer,
                offset: 0,
            },
        );
        match resources.buffers.index {
            Some(index) => {
                commands.push(
                    DrawCommand::BindIndexBuffer {
                        buffer: index.buffer,
                        offset: 0,
                        index_type: IndexType::Uint16,
                    },
                );
                commands.push(
                    DrawCommand::DrawIndexed {
                        index_count: self.vertices_and_indices.index_count(),
                        instance_count: 1,
                        first_index: 0,
                        vertex_offset: 0,
                        first_instance: 0,
                    },
                );
            },
            None => {
                commands.push(
                    DrawCommand::Draw {
                        vertex_count: self.vertices_and_indices.vertex_count(),
                        instance_count: 1,
                        first_vertex: 0,
                        first_instance: 0,
                    },
                );
            },
        }
        assert(commands@ =~= draw_commands(resources@, self@.mesh, image as int));
        Ok(commands)
    }

    /// Says which memory to map to write the uniforms of swapchain image
    /// `current_image`: that of the image's uniform buffer, from its start,
    /// `buffer_size` bytes.
    pub fn map_memory(&self, current_image: usize, buffer_size: u64) -> (r: Result<
        MapRequest,
        ShapeError,
    >)
        ensures
            match self@.state {
                ShapeStateView::Built { resources, .. } => if current_image
                    < resources.pipeline.uniform_buffers.len() {
                    r == Ok::<MapRequest, ShapeError>(
                        MapRequest {
                            memory: resources.pipeline.uniform_buffers[current_image as int].memory,
                            offset: 0,
                            size: buffer_size,
                        },
                    )
                } else {
                    r == Err::<MapRequest, ShapeError>(ShapeError::FrameOutOfRange)
                },
                _ => r == Err::<MapRequest, ShapeError>(ShapeError::NotBuilt),
            },
    {
        match &self.state {
            ShapeState::Built { resources, .. } => {
                if current_image < resources.pipeline.uniform_buffers.len() {
                    Ok(
                        MapRequest {
                            memory: resources.pipeline.uniform_buffers[current_image].memory,
                            offset: 0,
                            size: buffer_size,
                        },
                    )
                } else {
                    Err(ShapeError::FrameOutOfRange)
                }
            },
            _ => Err(ShapeError::NotBuilt),
        }
    }
}

} // verus!
