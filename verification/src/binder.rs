//! Building the device resources of a shape, one request at a time.
//!
//! The caller owns the device. The library tells it what to create next and
//! is told what came of it: [`begin`] gives the first request, [`step`] takes
//! the outcome of a request and gives the next one, until the resources are
//! complete or the build is given up. When it is given up, the action lists
//! every handle obtained until then, for the caller to give back, so that
//! nothing stays behind on the device.

use crate::render_config::{ModelCullMode, ModelTopology, Shader};
use crate::resources::{
    buffer_releases, kept_releases, optional_texture_releases, pipeline_releases,
    push_buffer_releases, push_kept_releases, push_optional_texture_releases,
    push_pipeline_releases, push_texture_releases, resources_releases, texture_releases,
    Buffer, BuiltResources, BuiltResourcesView, GraphicsPipeline, GraphicsPipelineView,
    ModelBuffers, Release, Texture,
};
use crate::space::{Mesh, VerticesAndIndices};
use crate::swap_chain::Extent2D;
use vstd::prelude::*;
use vstd::seq_lib::lemma_multiset_commutative;

verus! {

/// Bytes that one vertex takes in a vertex buffer: eleven single-precision
/// numbers, for position, colour, normal and texture coordinate.
pub const VERTEX_SIZE: u64 = 44;

/// Bytes that one index takes in an index buffer.
pub const INDEX_SIZE: u64 = 2;

/// What a pipeline is built against: the render pass, the extent of the
/// swapchain images and their number.
#[derive(Clone, Copy, Debug, PartialEq, Eq, Structural)]
pub struct BuildContext {
    pub render_pass: u64,
    pub extent: Extent2D,
    pub frame_count: u32,
}

/// What the resources of one shape are built from.
#[derive(Clone, Copy, Debug, PartialEq, Eq, Structural)]
pub struct BuildPlan {
    pub textured: bool,
    pub indexed: bool,
    pub vertex_bytes: u64,
    pub index_bytes: u64,
    pub topology: ModelTopology,
    pub cull_mode: ModelCullMode,
    pub shader: Shader,
    pub context: BuildContext,
}

/// A graphics pipeline to create.
#[derive(Clone, Copy, Debug, PartialEq, Eq, Structural)]
pub struct PipelineRequest {
    pub context: BuildContext,
    pub topology: ModelTopology,
    pub cull_mode: ModelCullMode,
    pub shader: Shader,
    pub texture: Option<Texture>,
}

/// What the caller is to create next.
#[derive(Clone, Copy, Debug, PartialEq, Eq, Structural)]
pub enum BuildRequest {
    /// A sampled texture from the bytes of the shape's texture.
    CreateTexture,
    /// A device-local buffer of exactly `size` bytes, filled with the
    /// shape's vertices through a staging buffer.
    CreateVertexBuffer { size: u64 },
    /// A device-local buffer of exactly `size` bytes, filled with the
    /// shape's indices through a staging buffer.
    CreateIndexBuffer { size: u64 },
    /// The graphics pipeline, with one descriptor set and one uniform buffer
    /// for each swapchain image.
    CreatePipeline(PipelineRequest),
}

/// What a buffer is used for.
#[derive(Clone, Copy, Debug, PartialEq, Eq, Structural)]
pub struct BufferUsage {
    /// Data is copied into it on the device.
    pub transfer_dst: bool,
    /// Vertices are read from it.
    pub vertex_buffer: bool,
    /// Indices are read from it.
    pub index_buffer: bool,
}

/// What the buffer of a request is used for: both buffers of a mesh are
/// filled by a copy on the device, and each is read as what it holds.
pub open spec fn buffer_usage_of(request: BuildRequest) -> Option<BufferUsage> {
    match request {
        BuildRequest::CreateVertexBuffer { .. } => Some(
            BufferUsage { transfer_dst: true, vertex_buffer: true, index_buffer: false },
        ),
        BuildRequest::CreateIndexBuffer { .. } => Some(
            BufferUsage { transfer_dst: true, vertex_buffer: false, index_buffer: true },
        ),
        _ => None,
    }
}

/// The buffers to create for a mesh: a vertex buffer of 44 bytes for each
/// vertex and, only where the mesh is drawn through its indices, an index
/// buffer of 2 bytes for each index.
pub open spec fn buffer_requests(mesh: Mesh, indexed: bool) -> (BuildRequest, Option<BuildRequest>) {
    (
        BuildRequest::CreateVertexBuffer { size: (VERTEX_SIZE * mesh.vertices.len()) as u64 },
        if indexed {
            Some(BuildRequest::CreateIndexBuffer { size: (INDEX_SIZE * mesh.indices.len()) as u64 })
        } else {
            None
        },
    )
}

/// What came of a request.
#[derive(Clone, Debug, PartialEq, Eq)]
pub enum BuildEvent {
    TextureCreated(Texture),
    VertexBufferCreated(Buffer),
    IndexBufferCreated(Buffer),
    PipelineCreated(GraphicsPipeline),
    /// The device could not do what was asked.
    Failed,
}

/// Mathematical content of a [`BuildEvent`].
pub enum BuildEventView {
    TextureCreated(Texture),
    VertexBufferCreated(Buffer),
    IndexBufferCreated(Buffer),
    PipelineCreated(GraphicsPipelineView),
    Failed,
}

impl View for BuildEvent {
    type V = BuildEventView;

    open spec fn view(&self) -> BuildEventView {
        match self {
            BuildEvent::TextureCreated(t) => BuildEventView::TextureCreated(*t),
            BuildEvent::VertexBufferCreated(b) => BuildEventView::VertexBufferCreated(*b),
            BuildEvent::IndexBufferCreated(b) => BuildEventView::IndexBufferCreated(*b),
            BuildEvent::PipelineCreated(p) => BuildEventView::PipelineCreated(p@),
            BuildEvent::Failed => BuildEventView::Failed,
        }
    }
}

/// Why a build was given up.
#[derive(Clone, Copy, Debug, PartialEq, Eq, Structural)]
pub enum BuildError {
    TextureCreationFailed,
    BufferCreationFailed,
    PipelineCreationFailed,
    /// The pipeline does not have one descriptor set and one uniform buffer
    /// for each swapchain image.
    PipelineMismatch,
    /// The event does not answer the request that was open.
    UnexpectedEvent,
}

/// Where a build stands, with what it has obtained so far.
#[derive(Clone, Copy, Debug, PartialEq, Eq, Structural)]
pub enum BuildStage {
    AwaitTexture,
    AwaitVertexBuffer { texture: Option<Texture> },
    AwaitIndexBuffer { texture: Option<Texture>, vertex: Buffer },
    AwaitPipeline { texture: Option<Texture>, buffers: ModelBuffers },
    Done,
    Failed,
}

/// A build in progress.
#[derive(Clone, Copy, Debug, PartialEq, Eq, Structural)]
pub struct BuildState {
    pub plan: BuildPlan,
    pub stage: BuildStage,
}

/// What the caller is to do after a step.
#[derive(Debug, PartialEq, Eq)]
pub enum BuildAction {
    /// Create this, and report what came of it.
    Request(BuildRequest),
    /// The build is complete: these are the shape's resources.
    Complete(BuiltResources),
    /// The build is given up: give these back, in this order.
    Abort { error: BuildError, releases: Vec<Release> },
}

/// Mathematical content of a [`BuildAction`].
pub enum BuildActionView {
    Request(BuildRequest),
    Complete(BuiltResourcesView),
    Abort { error: BuildError, releases: Seq<Release> },
}

impl View for BuildAction {
    type V = BuildActionView;

    open spec fn view(&self) -> BuildActionView {
        match self {
            BuildAction::Request(r) => BuildActionView::Request(*r),
            BuildAction::Complete(r) => BuildActionView::Complete(r@),
            BuildAction::Abort { error, releases } => BuildActionView::Abort {
                error: *error,
                releases: releases@,
            },
        }
    }
}

/// The pipeline that `plan` asks for, sampling `texture` if there is one.
pub open spec fn pipeline_request(plan: BuildPlan, texture: Option<Texture>) -> PipelineRequest {
    PipelineRequest {
        context: plan.context,
        topology: plan.topology,
        cull_mode: plan.cull_mode,
        shader: plan.shader,
        texture,
    }
}

/// The handles that a build holds at a stage, in the order in which they are
/// given back: buffers before the texture.
pub open spec fn held(stage: BuildStage) -> Seq<Release> {
    match stage {
        BuildStage::AwaitTexture => Seq::empty(),
        BuildStage::AwaitVertexBuffer { texture } => optional_texture_releases(texture),
        BuildStage::AwaitIndexBuffer { texture, vertex } => buffer_releases(vertex)
            + optional_texture_releases(texture),
        BuildStage::AwaitPipeline { texture, buffers } => kept_releases(buffers, texture),
        BuildStage::Done => Seq::empty(),
        BuildStage::Failed => Seq::empty(),
    }
}

/// The handles that come with an event.
pub open spec fn event_handles(event: BuildEventView) -> Seq<Release> {
    match event {
        BuildEventView::TextureCreated(t) => texture_releases(t),
        BuildEventView::VertexBufferCreated(b) => buffer_releases(b),
        BuildEventView::IndexBufferCreated(b) => buffer_releases(b),
        BuildEventView::PipelineCreated(p) => pipeline_releases(p),
        BuildEventView::Failed => Seq::empty(),
    }
}

/// The handles that go to the caller with an action: the resources of a
/// complete build, or what is to be given back of one given up.
pub open spec fn action_handles(action: BuildActionView) -> Seq<Release> {
    match action {
        BuildActionView::Request(_) => Seq::empty(),
        BuildActionView::Complete(r) => resources_releases(r),
        BuildActionView::Abort { releases, .. } => releases,
    }
}

/// The error of a request that the device could not serve, by the stage at
/// which it was open.
pub open spec fn failure_at(stage: BuildStage) -> BuildError {
    match stage {
        BuildStage::AwaitTexture => BuildError::TextureCreationFailed,
        BuildStage::AwaitVertexBuffer { .. } => BuildError::BufferCreationFailed,
        BuildStage::AwaitIndexBuffer { .. } => BuildError::BufferCreationFailed,
        BuildStage::AwaitPipeline { .. } => BuildError::PipelineCreationFailed,
        BuildStage::Done => BuildError::UnexpectedEvent,
        BuildStage::Failed => BuildError::UnexpectedEvent,
    }
}

/// A build ends with every event that does not answer the open request: it
/// takes the error `error` and has everything given back that it holds or
/// that came with the event. A build that had ended stays as it was.
pub open spec fn abort(state: BuildState, event: BuildEventView, error: BuildError) -> (
    BuildState,
    BuildActionView,
) {
    let stage = if state.stage == BuildStage::Done {
        BuildStage::Done
    } else {
        BuildStage::Failed
    };
    (
        BuildState { plan: state.plan, stage },
        BuildActionView::Abort { error, releases: held(state.stage) + event_handles(event) },
    )
}

/// The first stage of a build and the first request: the texture where the
/// shape has one, else the vertex buffer.
pub open spec fn begin_spec(plan: BuildPlan) -> (BuildState, BuildRequest) {
    if plan.textured {
        (BuildState { plan, stage: BuildStage::AwaitTexture }, BuildRequest::CreateTexture)
    } else {
        (
            BuildState { plan, stage: BuildStage::AwaitVertexBuffer { texture: None } },
            BuildRequest::CreateVertexBuffer { size: plan.vertex_bytes },
        )
    }
}

/// The stage and the action that follow an event.
///
/// The texture comes first, where the shape has one, then the vertex buffer,
/// then the index buffer, where the shape is indexed, then the pipeline. With
/// the pipeline the build is complete, provided that the pipeline serves
/// every swapchain image.
pub open spec fn step_spec(state: BuildState, event: BuildEventView) -> (
    BuildState,
    BuildActionView,
) {
    let plan = state.plan;
    match (state.stage, event) {
        (BuildStage::Done, _) => abort(state, event, BuildError::UnexpectedEvent),
        (BuildStage::Failed, _) => abort(state, event, BuildError::UnexpectedEvent),
        (_, BuildEventView::Failed) => abort(state, event, failure_at(state.stage)),
        (BuildStage::AwaitTexture, BuildEventView::TextureCreated(t)) => (
            BuildState { plan, stage: BuildStage::AwaitVertexBuffer { texture: Some(t) } },
            BuildActionView::Request(BuildRequest::CreateVertexBuffer { size: plan.vertex_bytes }),
        ),
        (
            BuildStage::AwaitVertexBuffer { texture },
            BuildEventView::VertexBufferCreated(vertex),
        ) => if plan.indexed {
            (
                BuildState { plan, stage: BuildStage::AwaitIndexBuffer { texture, vertex } },
                BuildActionView::Request(
                    BuildRequest::CreateIndexBuffer { size: plan.index_bytes },
                ),
            )
        } else {
            (
                BuildState {
                    plan,
                    stage: BuildStage::AwaitPipeline {
                        texture,
                        buffers: ModelBuffers { vertex, index: None },
                    },
                },
                BuildActionView::Request(
                    BuildRequest::CreatePipeline(pipeline_request(plan, texture)),
                ),
            )
        },
        (
            BuildStage::AwaitIndexBuffer { texture, vertex },
            BuildEventView::IndexBufferCreated(index),
        ) => (
            BuildState {
                plan,
                stage: BuildStage::AwaitPipeline {
                    texture,
                    buffers: ModelBuffers { vertex, index: Some(index) },
                },
            },
            BuildActionView::Request(BuildRequest::CreatePipeline(pipeline_request(plan, texture))),
        ),
        (BuildStage::AwaitPipeline { texture, buffers }, BuildEventView::PipelineCreated(p)) => {
            if p.serves(plan.context.frame_count as nat) {
                (
                    BuildState { plan, stage: BuildStage::Done },
                    BuildActionView::Complete(
                        BuiltResourcesView { buffers, texture, pipeline: p },
                    ),
                )
            } else {
                abort(state, event, BuildError::PipelineMismatch)
            }
        },
        _ => abort(state, event, BuildError::UnexpectedEvent),
    }
}

impl VerticesAndIndices {
    /// The bytes that the vertices and the indices of the mesh take on the
    /// device: 44 for each vertex, 2 for each index.
    pub fn buffer_sizes(&self) -> (r: (u64, u64))
        requires
            self.well_formed(),
        ensures
            r.0 == VERTEX_SIZE * self@.vertices.len(),
            r.1 == INDEX_SIZE * self@.indices.len(),
    {
        let vertex_count: u64 = self.vertex_count() as u64;
        let index_count: u64 = self.index_count() as u64;
        (VERTEX_SIZE * vertex_count, INDEX_SIZE * index_count)
    }

    /// The buffers that hold the mesh on the device, each exactly as large
    /// as what it holds: the vertex buffer, and the index buffer for a mesh
    /// that is drawn through its indices. For a mesh that is drawn without
    /// them no index buffer is asked for.
    pub fn create_buffers(&self, indexed: bool) -> (r: (BuildRequest, Option<BuildRequest>))
        requires
            self.well_formed(),
        ensures
            r == buffer_requests(self@, indexed),
            r.0 == (BuildRequest::CreateVertexBuffer {
                size: (VERTEX_SIZE * self@.vertices.len()) as u64,
            }),
            indexed ==> r.1 == Some(
                BuildRequest::CreateIndexBuffer {
                    size: (INDEX_SIZE * self@.indices.len()) as u64,
                },
            ),
            !indexed ==> r.1 is None,
    {
        let (vertex_bytes, index_bytes) = self.buffer_sizes();
        (
            BuildRequest::CreateVertexBuffer { size: vertex_bytes },
            if indexed {
                Some(BuildRequest::CreateIndexBuffer { size: index_bytes })
            } else {
                None
            },
        )
    }
}

impl BuildRequest {
    /// What the buffer of a request is used for, or `None` for a request
    /// that asks for no buffer.
    pub fn buffer_usage(&self) -> (r: Option<BufferUsage>)
        ensures
            r == buffer_usage_of(*self),
    {
        match self {
            BuildRequest::CreateVertexBuffer { .. } => Some(
                BufferUsage { transfer_dst: true, vertex_buffer: true, index_buffer: false },
            ),
            BuildRequest::CreateIndexBuffer { .. } => Some(
                BufferUsage { transfer_dst: true, vertex_buffer: false, index_buffer: true },
            ),
            _ => None,
        }
    }
}

/// Starts a build.
pub fn begin(plan: BuildPlan) -> (r: (BuildState, BuildRequest))
    ensures
        r == begin_spec(plan),
{
    if plan.textured {
        (BuildState { plan, stage: BuildStage::AwaitTexture }, BuildRequest::CreateTexture)
    } else {
        (
            BuildState { plan, stage: BuildStage::AwaitVertexBuffer { texture: None } },
            BuildRequest::CreateVertexBuffer { size: plan.vertex_bytes },
        )
    }
}

fn push_held(out: &mut Vec<Release>, stage: &BuildStage)
    ensures
        final(out)@ == old(out)@ + held(*stage),
{
    match stage {
        BuildStage::AwaitVertexBuffer { texture } => {
            push_optional_texture_releases(out, texture);
        },
        BuildStage::AwaitIndexBuffer { texture, vertex } => {
            push_buffer_releases(out, vertex);
            push_optional_texture_releases(out, texture);
            assert(out@ =~= old(out)@ + held(*stage));
        },
        BuildStage::AwaitPipeline { texture, buffers } => {
            push_kept_releases(out, buffers, texture);
        },
        _ => {
            assert(out@ =~= old(out)@ + held(*stage));
        },
    }
}

fn push_event_handles(out: &mut Vec<Release>, event: &BuildEvent)
    ensures
        final(out)@ == old(out)@ + event_handles(event@),
{
    match event {
        BuildEvent::TextureCreated(t) => push_texture_releases(out, t),
        BuildEvent::VertexBufferCreated(b) => push_buffer_releases(out, b),
        BuildEvent::IndexBufferCreated(b) => push_buffer_releases(out, b),
        BuildEvent::PipelineCreated(p) => push_pipeline_releases(out, p),
        BuildEvent::Failed => {
            assert(out@ =~= old(out)@ + event_handles(event@));
        },
    }
}

fn give_up(state: BuildState, event: &BuildEvent, error: BuildError) -> (r: (
    BuildState,
    BuildAction,
))
    ensures
        r.0 == abort(state, event@, error).0,
        r.1@ == abort(state, event@, error).1,
{
    let mut releases: Vec<Release> = Vec::new();
    push_held(&mut releases, &state.stage);
    push_event_handles(&mut releases, event);
    assert(releases@ =~= held(state.stage) + event_handles(event@));
    let stage = match state.stage {
        BuildStage::Done => BuildStage::Done,
        _ => BuildStage::Failed,
    };
    (BuildState { plan: state.plan, stage }, BuildAction::Abort { error, releases })
}

fn failure_of(stage: &BuildStage) -> (r: BuildError)
    ensures
        r == failure_at(*stage),
{
    match stage {
        BuildStage::AwaitTexture => BuildError::TextureCreationFailed,
        BuildStage::AwaitVertexBuffer { .. } => BuildError::BufferCreationFailed,
        BuildStage::AwaitIndexBuffer { .. } => BuildError::BufferCreationFailed,
        BuildStage::AwaitPipeline { .. } => BuildError::PipelineCreationFailed,
        BuildStage::Done => BuildError::UnexpectedEvent,
        BuildStage::Failed => BuildError::UnexpectedEvent,
    }
}

/// Takes the outcome of the open request and says what follows.
pub fn step(state: BuildState, event: BuildEvent) -> (r: (BuildState, BuildAction))
    ensures
        r.0 == step_spec(state, event@).0,
        r.1@ == step_spec(state, event@).1,
{
    let plan = state.plan;
    match state.stage {
        BuildStage::Done => give_up(state, &event, BuildError::UnexpectedEvent),
        BuildStage::Failed => give_up(state, &event, BuildError::UnexpectedEvent),
        BuildStage::AwaitTexture => match event {
            BuildEvent::Failed => give_up(state, &event, failure_of(&state.stage)),
            BuildEvent::TextureCreated(t) => (
                BuildState { plan, stage: BuildStage::AwaitVertexBuffer { texture: Some(t) } },
                BuildAction::Request(BuildRequest::CreateVertexBuffer { size: plan.vertex_bytes }),
            ),
            _ => give_up(state, &event, BuildError::UnexpectedEvent),
        },
        BuildStage::AwaitVertexBuffer { texture } => match event {
            BuildEvent::Failed => give_up(state, &event, failure_of(&state.stage)),
            BuildEvent::VertexBufferCreated(vertex) => {
                if plan.indexed {
                    (
                        BuildState {
                            plan,
                            stage: BuildStage::AwaitIndexBuffer { texture, vertex },
                        },
                        BuildAction::Request(
                            BuildRequest::CreateIndexBuffer { size: plan.index_bytes },
                        ),
                    )
                } else {
                    (
                        BuildState {
                            plan,
                            stage: BuildStage::AwaitPipeline {
                                texture,
                                buffers: ModelBuffers { vertex, index: None },
                            },
                        },
                        BuildAction::Request(
                            BuildRequest::CreatePipeline(
                                PipelineRequest {
                                    context: plan.context,
                                    topology: plan.topology,
                                    cull_mode: plan.cull_mode,
                                    shader: plan.shader,
                                    texture,
                                },
                            ),
                        ),
                    )
                }
            },
            _ => give_up(state, &event, BuildError::UnexpectedEvent),
        },
        BuildStage::AwaitIndexBuffer { texture, vertex } => match event {
            BuildEvent::Failed => give_up(state, &event, failure_of(&state.stage)),
            BuildEvent::IndexBufferCreated(index) => (
                BuildState {
                    plan,
                    stage: BuildStage::AwaitPipeline {
                        texture,
                        buffers: ModelBuffers { vertex, index: Some(index) },
                    },
                },
                BuildAction::Request(
                    BuildRequest::CreatePipeline(
                        PipelineRequest {
                            context: plan.context,
                            topology: plan.topology,
                            cull_mode: plan.cull_mode,
                            shader: plan.shader,
                            texture,
                        },
                    ),
                ),
            ),
            _ => give_up(state, &event, BuildError::UnexpectedEvent),
        },
        BuildStage::AwaitPipeline { texture, buffers } => match event {
            BuildEvent::Failed => give_up(state, &event, failure_of(&state.stage)),
            BuildEvent::PipelineCreated(pipeline) => {
                if pipeline.descriptor_sets.len() == plan.context.frame_count as usize
                    && pipeline.uniform_buffers.len() == plan.context.frame_count as usize {
                    (
                        BuildState { plan, stage: BuildStage::Done },
                        BuildAction::Complete(BuiltResources { buffers, texture, pipeline }),
                    )
                } else {
                    give_up(
                        state,
                        &BuildEvent::PipelineCreated(pipeline),
                        BuildError::PipelineMismatch,
                    )
                }
            },
            _ => give_up(state, &event, BuildError::UnexpectedEvent),
        },
    }
}

/// No step loses a handle or makes one up: what the build holds after a step,
/// together with what the step hands to the caller, is what the build held
/// before together with what the event brought, handle for handle.
pub proof fn lemma_step_conserves_handles(state: BuildState, event: BuildEventView)
    ensures
        held(step_spec(state, event).0.stage).to_multiset().add(
            action_handles(step_spec(state, event).1).to_multiset(),
        ) == held(state.stage).to_multiset().add(event_handles(event).to_multiset()),
{
    let next = step_spec(state, event).0.stage;
    let action = step_spec(state, event).1;
    let before = held(state.stage);
    let brought = event_handles(event);
    lemma_multiset_commutative(before, brought);
    lemma_multiset_commutative(held(next), action_handles(action));
    let empty = Seq::<Release>::empty();
    match action {
        BuildActionView::Abort { releases, .. } => {
            assert(held(next) =~= empty);
            assert(held(next) + releases =~= before + brought);
        },
        BuildActionView::Complete(r) => {
            assert(held(next) =~= empty);
            assert(held(next) + resources_releases(r) =~= before + brought);
        },
        BuildActionView::Request(_) => {
            assert(action_handles(action) =~= empty);
            match state.stage {
                BuildStage::AwaitTexture => {
                    assert(held(next) + empty =~= before + brought);
                },
                BuildStage::AwaitVertexBuffer { texture } => {
                    lemma_multiset_commutative(brought, before);
                    assert(held(next) + empty =~= brought + before);
                },
                BuildStage::AwaitIndexBuffer { texture, vertex } => {
                    let v = buffer_releases(vertex);
                    let t = optional_texture_releases(texture);
                    assert(held(next) + empty =~= (v + brought) + t);
                    assert(before + brought =~= v + (t + brought));
                    lemma_multiset_commutative(v + brought, t);
                    lemma_multiset_commutative(v, brought);
                    lemma_multiset_commutative(v, t + brought);
                    lemma_multiset_commutative(t, brought);
                    broadcast use vstd::multiset::group_multiset_axioms;

                    assert(v.to_multiset().add(brought.to_multiset()).add(t.to_multiset())
                        =~= v.to_multiset().add(t.to_multiset().add(brought.to_multiset())));
                },
                _ => {},
            }
        },
    }
}

/// The state that a build reaches from `state` through `events`, and all the
/// handles that its steps handed to the caller on the way.
pub open spec fn run(state: BuildState, events: Seq<BuildEventView>) -> (BuildState, Seq<Release>)
    decreases events.len(),
{
    if events.len() == 0 {
        (state, Seq::empty())
    } else {
        let (before, handed) = run(state, events.drop_last());
        let (after, action) = step_spec(before, events.last());
        (after, handed + action_handles(action))
    }
}

/// All the handles that came with `events`.
pub open spec fn brought(events: Seq<BuildEventView>) -> Seq<Release>
    decreases events.len(),
{
    if events.len() == 0 {
        Seq::empty()
    } else {
        brought(events.drop_last()) + event_handles(events.last())
    }
}

/// Whatever the device answers, a build keeps account of every handle: what
/// it holds after any run of events, together with what it handed to the
/// caller on the way, is what the events brought, handle for handle. Once a
/// build has ended it holds nothing, so that the caller has everything: as
/// the resources of the shape, which the shape gives back when it is
/// destroyed, or as handles to give back at once.
pub proof fn lemma_run_conserves_handles(plan: BuildPlan, events: Seq<BuildEventView>)
    ensures
        held(run(begin_spec(plan).0, events).0.stage).to_multiset().add(
            run(begin_spec(plan).0, events).1.to_multiset(),
        ) == brought(events).to_multiset(),
        run(begin_spec(plan).0, events).0.stage == BuildStage::Done || run(
            begin_spec(plan).0,
            events,
        ).0.stage == BuildStage::Failed ==> run(begin_spec(plan).0, events).1.to_multiset()
            == brought(events).to_multiset(),
    decreases events.len(),
{
    broadcast use vstd::multiset::group_multiset_axioms;

    let start = begin_spec(plan).0;
    let empty = Seq::<Release>::empty();
    assert(held(start.stage) =~= empty);
    if events.len() == 0 {
        lemma_multiset_commutative(empty, empty);
        assert(empty + empty =~= empty);
    } else {
        let (before, handed) = run(start, events.drop_last());
        let (after, action) = step_spec(before, events.last());
        lemma_run_conserves_handles(plan, events.drop_last());
        lemma_step_conserves_handles(before, events.last());
        lemma_multiset_commutative(handed, action_handles(action));
        lemma_multiset_commutative(brought(events.drop_last()), event_handles(events.last()));
        let h0 = held(before.stage).to_multiset();
        let h1 = held(after.stage).to_multiset();
        let a = action_handles(action).to_multiset();
        let e = event_handles(events.last()).to_multiset();
        let done = handed.to_multiset();
        let b = brought(events.drop_last()).to_multiset();
        assert(h1.add(a) == h0.add(e));
        assert(h0.add(done) == b);
        assert(h1.add(done.add(a)) =~= h1.add(a).add(done));
        assert(h0.add(e).add(done) =~= h0.add(done).add(e));
    }
    let end = run(start, events);
    if end.0.stage == BuildStage::Done || end.0.stage == BuildStage::Failed {
        assert(held(end.0.stage) =~= empty);
        lemma_multiset_commutative(empty, end.1);
        assert(empty + end.1 =~= end.1);
    }
}

/// A build in which the device serves every request ends, after the last
/// event, with the resources that the events brought: the texture where the
/// shape has one, the vertex buffer, the index buffer where the shape is
/// indexed, and the pipeline.
pub proof fn lemma_served_build_completes(
    plan: BuildPlan,
    texture: Texture,
    vertex: Buffer,
    index: Buffer,
    pipeline: GraphicsPipelineView,
)
    requires
        pipeline.serves(plan.context.frame_count as nat),
    ensures
        ({
            let s0 = begin_spec(plan).0;
            let s1 = if plan.textured {
                step_spec(s0, BuildEventView::TextureCreated(texture)).0
            } else {
                s0
            };
            let s2 = step_spec(s1, BuildEventView::VertexBufferCreated(vertex)).0;
            let s3 = if plan.indexed {
                step_spec(s2, BuildEventView::IndexBufferCreated(index)).0
            } else {
                s2
            };
            step_spec(s3, BuildEventView::PipelineCreated(pipeline)) == (
                BuildState { plan, stage: BuildStage::Done },
                BuildActionView::Complete(
                    BuiltResourcesView {
                        buffers: ModelBuffers {
                            vertex,
                            index: if plan.indexed {
                                Some(index)
                            } else {
                                None
                            },
                        },
                        texture: if plan.textured {
                            Some(texture)
                        } else {
                            None
                        },
                        pipeline,
                    },
                ),
            )
        }),
{
}

} // verus!
