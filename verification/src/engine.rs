//! The swapchain's life and the shapes that are drawn into it.
//!
//! The engine is in one of three states. It starts uninitialized. Once the
//! caller has created a swapchain, a render pass and framebuffers, it is
//! active: shapes can be added and frames recorded. When the window changes
//! size the engine goes through recreating: everything that depends on the
//! old swapchain is given back, the rest is kept, and with new targets and a
//! new pipeline for every shape the engine is active again. No frame is
//! recorded in between.

use crate::binder::{pipeline_request, BuildContext, PipelineRequest};
use crate::draw::{draw_commands, DrawCommand};
use crate::frame_buffer::{frame_buffers_releases, FrameBuffers};
use crate::resources::{
    pipeline_releases, push_pipeline_releases, GraphicsPipeline, GraphicsPipelineView, Release,
};
use crate::shape::{Shape, ShapeError, ShapeStateView, ShapeView};
use crate::swap_chain::{SwapChain, SwapChainView};
use vstd::pervasive::unreached;
use vstd::prelude::*;

verus! {

/// The state of the swapchain.
#[derive(Clone, Copy, Debug, PartialEq, Eq, Structural)]
pub enum SwapChainState {
    Uninitialized,
    Active,
    Recreating,
}

/// Why the engine refused an operation.
#[derive(Clone, Copy, Debug, PartialEq, Eq, Structural)]
pub enum EngineError {
    /// The engine is not in the state that the operation needs.
    WrongState,
    /// The targets do not have one framebuffer for each swapchain image.
    TargetMismatch,
    /// The shape is not built, or its pipeline was built against another
    /// render pass, extent, number of images or generation than the
    /// present ones.
    ShapeNotReady,
    /// There is not one new pipeline for each shape, or not one descriptor
    /// set in each for each swapchain image.
    PipelineMismatch,
    /// The swapchain has no image of that number.
    FrameOutOfRange,
    /// The engine has no shape of that number.
    NoSuchShape,
    /// The swapchain has been recreated as often as can be counted.
    GenerationsExhausted,
}

/// What frames are rendered into: the swapchain, the render pass and the
/// framebuffers, all created for one another.
#[derive(Debug, PartialEq, Eq)]
pub struct RenderTarget {
    pub swap_chain: SwapChain,
    pub render_pass: u64,
    pub frame_buffers: FrameBuffers,
}

/// Mathematical content of a [`RenderTarget`].
pub struct RenderTargetView {
    pub swap_chain: SwapChainView,
    pub render_pass: u64,
    pub frame_buffers: Seq<u64>,
}

impl View for RenderTarget {
    type V = RenderTargetView;

    open spec fn view(&self) -> RenderTargetView {
        RenderTargetView {
            swap_chain: self.swap_chain@,
            render_pass: self.render_pass,
            frame_buffers: self.frame_buffers@,
        }
    }
}

impl RenderTargetView {
    /// The swapchain is well formed and every image has its framebuffer.
    pub open spec fn well_formed(self) -> bool {
        self.swap_chain.well_formed() && self.frame_buffers.len() == self.swap_chain.images.len()
    }

    /// Number of swapchain images.
    pub open spec fn frame_count(self) -> nat {
        self.swap_chain.images.len()
    }

    /// What pipelines are built against.
    pub open spec fn context(self) -> BuildContext {
        BuildContext {
            render_pass: self.render_pass,
            extent: self.swap_chain.extent,
            frame_count: self.swap_chain.images.len() as u32,
        }
    }

    /// What is given back when the targets go: the framebuffers, then the
    /// render pass, then the image views and the swapchain.
    pub open spec fn releases(self) -> Seq<Release> {
        frame_buffers_releases(self.frame_buffers) + seq![Release::RenderPass(self.render_pass)]
            + self.swap_chain.releases()
    }
}

impl RenderTarget {
    /// Whether the swapchain is well formed and every image has its
    /// framebuffer.
    pub fn is_well_formed(&self) -> (r: bool)
        ensures
            r == self@.well_formed(),
    {
        let images: usize = self.swap_chain.image_count();
        images == self.swap_chain.image_views().len() && images <= 0xffff_ffff
            && self.frame_buffers.0.len() == images
    }

    /// What pipelines are built against, or `None` for targets that are not
    /// well formed.
    pub fn context(&self) -> (r: Option<BuildContext>)
        ensures
            self@.well_formed() ==> r == Some(self@.context()),
            !self@.well_formed() ==> r is None,
    {
        if self.is_well_formed() {
            Some(
                BuildContext {
                    render_pass: self.render_pass,
                    extent: self.swap_chain.extent(),
                    frame_count: self.swap_chain.image_count() as u32,
                },
            )
        } else {
            None
        }
    }

    /// Appends to `out` what is given back when the targets go.
    pub fn push_releases(&self, out: &mut Vec<Release>)
        ensures
            final(out)@ == old(out)@ + self@.releases(),
    {
        self.frame_buffers.push_releases(out);
        out.push(Release::RenderPass(self.render_pass));
        self.swap_chain.push_releases(out);
        assert(out@ =~= old(out)@ + self@.releases());
    }
}

/// The shape can be drawn into the targets `target` of generation
/// `generation`: it is built, its pipeline was built against the render pass
/// and the extent of these targets and for this generation, and it has a
/// descriptor set for each of their images.
pub open spec fn ready(shape: ShapeView, generation: u64, target: RenderTargetView) -> bool {
    &&& shape.well_formed()
    &&& shape.state matches ShapeStateView::Built { resources, context, generation: g }
    &&& g == generation
    &&& context == target.context()
    &&& resources.pipeline.serves(target.frame_count())
}

/// The shape has given its pipeline back and waits for a new one.
pub open spec fn suspended(shape: ShapeView) -> bool {
    shape.well_formed() && shape.state is Suspended
}

/// The commands that draw one ready shape into swapchain image `image`.
pub open spec fn shape_commands(shape: ShapeView, image: int) -> Seq<DrawCommand> {
    match shape.state {
        ShapeStateView::Built { resources, .. } => draw_commands(resources, shape.mesh, image),
        _ => Seq::empty(),
    }
}

/// The commands of a frame: those of every shape, in the order of the
/// shapes.
pub open spec fn frame_commands(shapes: Seq<ShapeView>, image: int) -> Seq<DrawCommand>
    decreases shapes.len(),
{
    if shapes.len() == 0 {
        Seq::empty()
    } else {
        frame_commands(shapes.drop_last(), image) + shape_commands(shapes.last(), image)
    }
}

/// What the pipelines of the shapes give back, shape by shape in order.
pub open spec fn pipelines_releases(shapes: Seq<ShapeView>) -> Seq<Release>
    decreases shapes.len(),
{
    if shapes.len() == 0 {
        Seq::empty()
    } else {
        pipelines_releases(shapes.drop_last()) + (match shapes.last().state {
            ShapeStateView::Built { resources, .. } => pipeline_releases(resources.pipeline),
            _ => Seq::empty(),
        })
    }
}

/// Everything the shapes own, shape by shape in order.
pub open spec fn shapes_releases(shapes: Seq<ShapeView>) -> Seq<Release>
    decreases shapes.len(),
{
    if shapes.len() == 0 {
        Seq::empty()
    } else {
        shapes_releases(shapes.drop_last()) + shapes.last().state.owned()
    }
}

/// The shape after its pipeline was taken from it.
pub open spec fn suspend(shape: ShapeView) -> ShapeView {
    match shape.state {
        ShapeStateView::Built { resources, .. } => shape.with_state(
            ShapeStateView::Suspended { buffers: resources.buffers, texture: resources.texture },
        ),
        _ => shape,
    }
}

/// The shape after it was given `pipeline`, built against `context` for
/// `generation`.
pub open spec fn resume(
    shape: ShapeView,
    pipeline: GraphicsPipelineView,
    context: BuildContext,
    generation: u64,
) -> ShapeView {
    match shape.state {
        ShapeStateView::Suspended { buffers, texture } => shape.with_state(
            ShapeStateView::Built {
                resources: crate::resources::BuiltResourcesView { buffers, texture, pipeline },
                context,
                generation,
            },
        ),
        _ => shape,
    }
}

/// The content of each shape of a list.
pub open spec fn shape_views(shapes: Seq<Shape>) -> Seq<ShapeView> {
    Seq::new(shapes.len(), |i: int| shapes[i]@)
}

/// The content of each pipeline of a list.
pub open spec fn pipeline_views(pipelines: Seq<GraphicsPipeline>) -> Seq<GraphicsPipelineView> {
    Seq::new(pipelines.len(), |i: int| pipelines[i]@)
}

/// What the pipelines of a list give back, pipeline by pipeline in order.
pub open spec fn rejected_pipelines_releases(pipelines: Seq<GraphicsPipelineView>) -> Seq<Release>
    decreases pipelines.len(),
{
    if pipelines.len() == 0 {
        Seq::empty()
    } else {
        rejected_pipelines_releases(pipelines.drop_last()) + pipeline_releases(pipelines.last())
    }
}

/// The swapchain's life and the shapes that are drawn into it, in drawing
/// order.
#[derive(Debug, PartialEq, Eq)]
pub struct Engine {
    state: SwapChainState,
    target: Option<RenderTarget>,
    generation: u64,
    shapes: Vec<Shape>,
}

/// Mathematical content of an [`Engine`].
pub struct EngineView {
    pub state: SwapChainState,
    pub target: Option<RenderTargetView>,
    pub generation: u64,
    pub shapes: Seq<ShapeView>,
}

impl View for Engine {
    type V = EngineView;

    closed spec fn view(&self) -> EngineView {
        EngineView {
            state: self.state,
            target: match self.target {
                Some(t) => Some(t@),
                None => None,
            },
            generation: self.generation,
            shapes: shape_views(self.shapes@),
        }
    }
}

impl EngineView {
    /// While the engine is active it has targets and every shape is ready
    /// for them. While it recreates it has no targets and every shape waits
    /// for a pipeline. While it is uninitialized it has neither targets nor
    /// shapes.
    pub open spec fn well_formed(self) -> bool {
        match self.state {
            SwapChainState::Uninitialized => self.target is None && self.shapes.len() == 0,
            SwapChainState::Active => {
                &&& self.target matches Some(t)
                &&& t.well_formed()
                &&& forall|i: int|
                    0 <= i < self.shapes.len() ==> ready(
                        #[trigger] self.shapes[i],
                        self.generation,
                        t,
                    )
            },
            SwapChainState::Recreating => {
                &&& self.target is None
                &&& forall|i: int|
                    0 <= i < self.shapes.len() ==> suspended(#[trigger] self.shapes[i])
            },
        }
    }
}

impl Engine {
    /// An engine without swapchain and without shapes.
    pub fn new() -> (r: Engine)
        ensures
            r@ == (EngineView {
                state: SwapChainState::Uninitialized,
                target: None,
                generation: 0,
                shapes: Seq::empty(),
            }),
            r@.well_formed(),
    {
        let r = Engine {
            state: SwapChainState::Uninitialized,
            target: None,
            generation: 0,
            shapes: Vec::new(),
        };
        assert(r@.shapes =~= Seq::empty());
        r
    }

    /// The state of the swapchain.
    pub fn state(&self) -> (r: SwapChainState)
        ensures
            r == self@.state,
    {
        self.state
    }

    /// The number of the present swapchain: how often it has been recreated.
    pub fn generation(&self) -> (r: u64)
        ensures
            r == self@.generation,
    {
        self.generation
    }

    /// Number of shapes.
    pub fn shape_count(&self) -> (r: usize)
        ensures
            r == self@.shapes.len(),
    {
        self.shapes.len()
    }

    /// Shape number `i`, in drawing order.
    pub fn shape(&self, i: usize) -> (r: Option<&Shape>)
        ensures
            i < self@.shapes.len() ==> (r matches Some(s) && s@ == self@.shapes[i as int]),
            i >= self@.shapes.len() ==> r is None,
    {
        if i < self.shapes.len() {
            Some(&self.shapes[i])
        } else {
            None
        }
    }

    /// What pipelines are built against while the engine is active.
    pub fn context(&self) -> (r: Option<BuildContext>)
        requires
            self@.well_formed(),
        ensures
            match self@.target {
                Some(t) => r == Some(t.context()),
                None => r is None,
            },
    {
        match &self.target {
            Some(t) => t.context(),
            None => None,
        }
    }

    /// Takes the first swapchain, with its render pass and framebuffers: the
    /// engine becomes active.
    ///
    /// An engine that is not uninitialized refuses with `WrongState`, and
    /// targets without one framebuffer and one view for each image are
    /// refused with `TargetMismatch`. The engine then stays as it is, and
    /// the refusal lists what the targets consist of, for the caller to give
    /// back.
    pub fn create(&mut self, target: RenderTarget) -> (r: Result<(), (EngineError, Vec<Release>)>)
        requires
            old(self)@.well_formed(),
        ensures
            final(self)@.well_formed(),
            match r {
                Ok(_) => old(self)@.state == SwapChainState::Uninitialized
                    && target@.well_formed() && final(self)@ == (EngineView {
                    state: SwapChainState::Active,
                    target: Some(target@),
                    ..old(self)@
                }),
                Err((e, releases)) => final(self)@ == old(self)@ && releases@ == target@.releases()
                    && e == (if old(self)@.state != SwapChainState::Uninitialized {
                    EngineError::WrongState
                } else {
                    EngineError::TargetMismatch
                }) && !(old(self)@.state == SwapChainState::Uninitialized
                    && target@.well_formed()),
            },
    {
        let fresh = match self.state {
            SwapChainState::Uninitialized => true,
            _ => false,
        };
        if fresh && target.is_well_formed() {
            self.target = Some(target);
            self.state = SwapChainState::Active;
            Ok(())
        } else {
            let mut releases: Vec<Release> = Vec::new();
            target.push_releases(&mut releases);
            let error = if fresh {
                EngineError::TargetMismatch
            } else {
                EngineError::WrongState
            };
            Err((error, releases))
        }
    }

    /// Adds a built shape behind the shapes that are there: it is drawn last.
    ///
    /// Only an active engine takes shapes, and only shapes that are built
    /// for the present swapchain: their pipeline was built against its
    /// render pass and its extent and for its generation, with a descriptor
    /// set for every image. A shape that is refused comes back with the
    /// refusal.
    pub fn add_shape(&mut self, shape: Shape) -> (r: Result<(), (EngineError, Shape)>)
        requires
            old(self)@.well_formed(),
            shape@.well_formed(),
        ensures
            final(self)@.well_formed(),
            match r {
                Ok(_) => old(self)@.state == SwapChainState::Active && ready(
                    shape@,
                    old(self)@.generation,
                    old(self)@.target->0,
                ) && final(self)@ == (EngineView {
                    shapes: old(self)@.shapes.push(shape@),
                    ..old(self)@
                }),
                Err((e, s)) => final(self)@ == old(self)@ && s@ == shape@ && e == (if old(
                    self,
                )@.state != SwapChainState::Active {
                    EngineError::WrongState
                } else {
                    EngineError::ShapeNotReady
                }) && !(old(self)@.state == SwapChainState::Active && ready(
                    shape@,
                    old(self)@.generation,
                    old(self)@.target->0,
                )),
            },
    {
        let context = match (&self.state, &self.target) {
            (SwapChainState::Active, Some(t)) => t.context(),
            _ => {
                return Err((EngineError::WrongState, shape));
            },
        };
        let is_ready = match (shape.generation(), shape.context(), context) {
            (Some(g), Some(built_against), Some(present)) => g == self.generation
                && built_against == present,
            _ => false,
        };
        if !is_ready {
            return Err((EngineError::ShapeNotReady, shape));
        }
        let ghost before = self.shapes@;
        self.shapes.push(shape);
        assert(shape_views(self.shapes@) =~= shape_views(before).push(shape@));
        Ok(())
    }

    /// Takes shape number `i` out of the engine and hands it to the caller,
    /// with the resources it has. The shapes behind it move up by one and
    /// keep their order.
    pub fn remove_shape(&mut self, i: usize) -> (r: Result<Shape, EngineError>)
        requires
            old(self)@.well_formed(),
        ensures
            final(self)@.well_formed(),
            match r {
                Ok(shape) => i < old(self)@.shapes.len() && shape@ == old(self)@.shapes[i as int]
                    && shape@.well_formed() && final(self)@ == (EngineView {
                    shapes: old(self)@.shapes.remove(i as int),
                    ..old(self)@
                }),
                Err(e) => e == EngineError::NoSuchShape && i >= old(self)@.shapes.len()
                    && final(self)@ == old(self)@,
            },
    {
        if i >= self.shapes.len() {
            return Err(EngineError::NoSuchShape);
        }
        let ghost before = self@;
        let ghost shapes = self.shapes@;
        let shape = self.shapes.remove(i);
        proof {
            assert(shape_views(self.shapes@) =~= shape_views(shapes).remove(i as int));
            assert(shape@ == before.shapes[i as int]);
            match before.state {
                SwapChainState::Uninitialized => {},
                SwapChainState::Active => {
                    let target = before.target->0;
                    assert(ready(before.shapes[i as int], before.generation, target));
                    assert forall|k: int| 0 <= k < self@.shapes.len() implies ready(
                        #[trigger] self@.shapes[k],
                        self@.generation,
                        target,
                    ) by {
                        if k < i {
                            assert(ready(before.shapes[k], before.generation, target));
                        } else {
                            assert(ready(before.shapes[k + 1], before.generation, target));
                        }
                    }
                },
                SwapChainState::Recreating => {
                    assert(suspended(before.shapes[i as int]));
                    assert forall|k: int| 0 <= k < self@.shapes.len() implies suspended(
                        #[trigger] self@.shapes[k],
                    ) by {
                        if k < i {
                            assert(suspended(before.shapes[k]));
                        } else {
                            assert(suspended(before.shapes[k + 1]));
                        }
                    }
                },
            }
        }
        Ok(shape)
    }

    /// Lists the commands of one frame into swapchain image `image`: those
    /// of every shape, in the order in which the shapes were added.
    ///
    /// Only an active engine records: while the swapchain is recreated, or
    /// before there is one, the call is refused with `WrongState`. An image
    /// that the swapchain does not have is refused with `FrameOutOfRange`.
    pub fn record_frame(&self, image: usize) -> (r: Result<Vec<DrawCommand>, EngineError>)
        requires
            self@.well_formed(),
        ensures
            match r {
                Ok(commands) => self@.state == SwapChainState::Active && image
                    < self@.target->0.frame_count() && commands@ == frame_commands(
                    self@.shapes,
                    image as int,
                ),
                Err(e) => e == (if self@.state != SwapChainState::Active {
                    EngineError::WrongState
                } else {
                    EngineError::FrameOutOfRange
                }) && !(self@.state == SwapChainState::Active && image
                    < self@.target->0.frame_count()),
            },
    {
        let frame_count = match (&self.state, &self.target) {
            (SwapChainState::Active, Some(t)) => t.swap_chain.image_count(),
            _ => {
                return Err(EngineError::WrongState);
            },
        };
        if image >= frame_count {
            return Err(EngineError::FrameOutOfRange);
        }
        let mut commands: Vec<DrawCommand> = Vec::new();
        let mut i: usize = 0;
        assert(self@.shapes.take(0) =~= Seq::<ShapeView>::empty());
        while i < self.shapes.len()
            invariant
                self@.well_formed(),
                self@.state == SwapChainState::Active,
                frame_count == self@.target->0.frame_count(),
                image < frame_count,
                i <= self.shapes@.len(),
                self@.shapes.len() == self.shapes@.len(),
                commands@ == frame_commands(self@.shapes.take(i as int), image as int),
            decreases self.shapes@.len() - i,
        {
            let ghost view = self@.shapes[i as int];
            assert(ready(view, self@.generation, self@.target->0));
            assert(self.shapes@[i as int]@ == view);
            match self.shapes[i].bind_index_and_vertex_buffers(image) {
                Ok(mut shape_commands) => {
                    commands.append(&mut shape_commands);
                },
                Err(_) => {
                    assert(false);
                },
            }
            proof {
                let next = self@.shapes.take(i + 1);
                assert(next.drop_last() =~= self@.shapes.take(i as int));
                assert(next.last() == view);
            }
            i += 1;
        }
        assert(self@.shapes.take(i as int) =~= self@.shapes);
        Ok(commands)
    }
}

impl EngineView {
    /// The engine after its swapchain went: it recreates, has no targets,
    /// counts one generation more, and every shape has lost its pipeline and
    /// nothing else.
    pub open spec fn suspended(self) -> EngineView {
        EngineView {
            state: SwapChainState::Recreating,
            target: None,
            generation: (self.generation + 1) as u64,
            shapes: Seq::new(self.shapes.len(), |i: int| suspend(self.shapes[i])),
        }
    }

    /// The engine after it was given new targets and new pipelines: it is
    /// active, and shape `i` has pipeline `i`, built for the present
    /// generation, and all else as before.
    pub open spec fn resumed(
        self,
        target: RenderTargetView,
        pipelines: Seq<GraphicsPipelineView>,
    ) -> EngineView {
        EngineView {
            state: SwapChainState::Active,
            target: Some(target),
            generation: self.generation,
            shapes: Seq::new(
                self.shapes.len(),
                |i: int| resume(self.shapes[i], pipelines[i], target.context(), self.generation),
            ),
        }
    }

    /// The new targets and pipelines can be taken: there is a pipeline for
    /// each shape, and each has a descriptor set and a uniform buffer for
    /// each image of the new swapchain.
    pub open spec fn can_resume(
        self,
        target: RenderTargetView,
        pipelines: Seq<GraphicsPipelineView>,
    ) -> bool {
        &&& target.well_formed()
        &&& pipelines.len() == self.shapes.len()
        &&& forall|i: int|
            0 <= i < pipelines.len() ==> (#[trigger] pipelines[i]).serves(target.frame_count())
    }

    /// What the engine owns on the device: what every shape owns, then the
    /// targets.
    pub open spec fn owned(self) -> Seq<Release> {
        shapes_releases(self.shapes) + (match self.target {
            Some(t) => t.releases(),
            None => Seq::empty(),
        })
    }
}

impl Engine {
    /// Begins the recreation of the swapchain, after the window changed
    /// size. The caller has waited for the device to be idle.
    ///
    /// Everything that depends on the old swapchain goes: the pipeline of
    /// every shape, in the order of the shapes, then the framebuffers, the
    /// render pass, the image views and the swapchain. The result lists
    /// them, to be given back in that order. Buffers and textures stay. The
    /// engine now recreates, and records no frame until
    /// [`Engine::finish_recreate`] has succeeded.
    ///
    /// An engine that is not active refuses with `WrongState`, one whose
    /// generations are used up with `GenerationsExhausted`, and stays as it
    /// is.
    pub fn begin_recreate(&mut self) -> (r: Result<Vec<Release>, EngineError>)
        requires
            old(self)@.well_formed(),
        ensures
            final(self)@.well_formed(),
            match r {
                Ok(releases) => old(self)@.state == SwapChainState::Active && old(self)@.generation
                    < u64::MAX && final(self)@ == old(self)@.suspended() && releases@
                    == pipelines_releases(old(self)@.shapes) + old(self)@.target->0.releases(),
                Err(e) => final(self)@ == old(self)@ && e == (if old(self)@.state
                    != SwapChainState::Active {
                    EngineError::WrongState
                } else {
                    EngineError::GenerationsExhausted
                }) && !(old(self)@.state == SwapChainState::Active && old(self)@.generation
                    < u64::MAX),
            },
    {
        match self.state {
            SwapChainState::Active => {},
            _ => {
                return Err(EngineError::WrongState);
            },
        }
        if self.generation == u64::MAX {
            return Err(EngineError::GenerationsExhausted);
        }
        let ghost before = self@;
        let ghost frame_count = before.target->0.frame_count();
        let mut releases: Vec<Release> = Vec::new();
        let mut i: usize = 0;
        assert(before.shapes.take(0) =~= Seq::<ShapeView>::empty());
        while i < self.shapes.len()
            invariant
                before.well_formed(),
                before.state == SwapChainState::Active,
                frame_count == before.target->0.frame_count(),
                i <= self.shapes@.len(),
                self.shapes@.len() == before.shapes.len(),
                self@.state == before.state,
                self@.target == before.target,
                self@.generation == before.generation,
                forall|k: int| 0 <= k < i ==> self.shapes@[k]@ == suspend(before.shapes[k]),
                forall|k: int| i <= k < self.shapes@.len() ==> self.shapes@[k]@ == before.shapes[k],
                releases@ == pipelines_releases(before.shapes.take(i as int)),
            decreases self.shapes@.len() - i,
        {
            let ghost view = before.shapes[i as int];
            assert(ready(view, before.generation, before.target->0));
            match self.shapes[i].recreate_drop() {
                Ok(mut shape_releases) => {
                    releases.append(&mut shape_releases);
                },
                Err(_) => {
                    assert(false);
                },
            }
            proof {
                let next = before.shapes.take(i + 1);
                assert(next.drop_last() =~= before.shapes.take(i as int));
                assert(next.last() == view);
            }
            i += 1;
        }
        assert(before.shapes.take(i as int) =~= before.shapes);
        let mut target: Option<RenderTarget> = None;
        core::mem::swap(&mut self.target, &mut target);
        match target {
            Some(t) => {
                t.push_releases(&mut releases);
            },
            None => {
                assert(false);
            },
        }
        self.state = SwapChainState::Recreating;
        self.generation = self.generation + 1;
        assert(self@.shapes =~= before.suspended().shapes);
        assert forall|k: int| 0 <= k < self@.shapes.len() implies suspended(
            #[trigger] self@.shapes[k],
        ) by {
            assert(ready(before.shapes[k], before.generation, before.target->0));
        }
        Ok(releases)
    }
}

impl Engine {
    /// Lists the pipelines to create while the swapchain is recreated: one
    /// for each shape, in the order of the shapes, each against `context`,
    /// the context of the new targets.
    pub fn pipeline_requests(&self, context: BuildContext) -> (r: Result<
        Vec<PipelineRequest>,
        EngineError,
    >)
        requires
            self@.well_formed(),
        ensures
            match r {
                Ok(requests) => self@.state == SwapChainState::Recreating && requests@.len()
                    == self@.shapes.len() && forall|i: int|
                    0 <= i < requests@.len() ==> requests@[i] == pipeline_request(
                        (#[trigger] self@.shapes[i]).build_plan(context),
                        self@.shapes[i].state->Suspended_texture,
                    ),
                Err(e) => e == EngineError::WrongState && self@.state
                    != SwapChainState::Recreating,
            },
    {
        match self.state {
            SwapChainState::Recreating => {},
            _ => {
                return Err(EngineError::WrongState);
            },
        }
        let mut requests: Vec<PipelineRequest> = Vec::new();
        let mut i: usize = 0;
        while i < self.shapes.len()
            invariant
                self@.well_formed(),
                self@.state == SwapChainState::Recreating,
                i <= self.shapes@.len(),
                self@.shapes.len() == self.shapes@.len(),
                requests@.len() == i,
                forall|k: int|
                    0 <= k < i ==> requests@[k] == pipeline_request(
                        (#[trigger] self@.shapes[k]).build_plan(context),
                        self@.shapes[k].state->Suspended_texture,
                    ),
            decreases self.shapes@.len() - i,
        {
            assert(suspended(self@.shapes[i as int]));
            assert(self.shapes@[i as int]@ == self@.shapes[i as int]);
            match self.shapes[i].pipeline_request(context) {
                Ok(request) => {
                    requests.push(request);
                },
                Err(_) => {
                    assert(false);
                },
            }
            i += 1;
        }
        Ok(requests)
    }

    /// Ends the recreation of the swapchain: takes the new targets and the
    /// new pipeline of every shape, in the order of the shapes. Each shape
    /// has its new pipeline from now on and the buffers and the texture it
    /// had before. The engine is active again.
    ///
    /// An engine that does not recreate refuses with `WrongState`. Targets
    /// without one framebuffer and one view for each image are refused with
    /// `TargetMismatch`, and pipelines with `PipelineMismatch` unless there
    /// is one for each shape, each with a descriptor set and a uniform
    /// buffer for each image. The engine then stays as it is, and the
    /// refusal lists what the pipelines and the targets consist of, for the
    /// caller to give back.
    pub fn finish_recreate(&mut self, target: RenderTarget, pipelines: Vec<GraphicsPipeline>) -> (r:
        Result<(), (EngineError, Vec<Release>)>)
        requires
            old(self)@.well_formed(),
        ensures
            final(self)@.well_formed(),
            match r {
                Ok(_) => old(self)@.state == SwapChainState::Recreating && old(self)@.can_resume(
                    target@,
                    pipeline_views(pipelines@),
                ) && final(self)@ == old(self)@.resumed(target@, pipeline_views(pipelines@)),
                Err((e, releases)) => final(self)@ == old(self)@ && releases@
                    == rejected_pipelines_releases(pipeline_views(pipelines@))
                    + target@.releases() && e == (if old(self)@.state
                    != SwapChainState::Recreating {
                    EngineError::WrongState
                } else if !target@.well_formed() {
                    EngineError::TargetMismatch
                } else {
                    EngineError::PipelineMismatch
                }) && !(old(self)@.state == SwapChainState::Recreating && old(self)@.can_resume(
                    target@,
                    pipeline_views(pipelines@),
                )),
            },
    {
        let recreating = match self.state {
            SwapChainState::Recreating => true,
            _ => false,
        };
        let target_ok = target.is_well_formed();
        let pipelines_ok = target_ok && pipelines.len() == self.shapes.len() && all_serve(
            &pipelines,
            target.swap_chain.image_count(),
        );
        if !(recreating && target_ok && pipelines_ok) {
            let mut releases: Vec<Release> = Vec::new();
            let mut i: usize = 0;
            assert(pipeline_views(pipelines@).take(0) =~= Seq::<GraphicsPipelineView>::empty());
            while i < pipelines.len()
                invariant
                    i <= pipelines@.len(),
                    releases@ == rejected_pipelines_releases(
                        pipeline_views(pipelines@).take(i as int),
                    ),
                decreases pipelines@.len() - i,
            {
                push_pipeline_releases(&mut releases, &pipelines[i]);
                proof {
                    let next = pipeline_views(pipelines@).take(i + 1);
                    assert(next.drop_last() =~= pipeline_views(pipelines@).take(i as int));
                    assert(next.last() == pipelines@[i as int]@);
                }
                i += 1;
            }
            assert(pipeline_views(pipelines@).take(i as int) =~= pipeline_views(pipelines@));
            target.push_releases(&mut releases);
            let error = if !recreating {
                EngineError::WrongState
            } else if !target_ok {
                EngineError::TargetMismatch
            } else {
                EngineError::PipelineMismatch
            };
            return Err((error, releases));
        }
        let ghost before = self@;
        let ghost given = pipeline_views(pipelines@);
        let ghost frame_count = target@.frame_count();
        let context = match target.context() {
            Some(context) => context,
            None => {
                assert(false);
                unreached()
            },
        };
        let mut pipelines = pipelines;
        let mut i: usize = self.shapes.len();
        while i > 0
            invariant
                before.well_formed(),
                before.state == SwapChainState::Recreating,
                before.can_resume(target@, given),
                frame_count == target@.frame_count(),
                context == target@.context(),
                i <= self.shapes@.len(),
                self.shapes@.len() == before.shapes.len(),
                pipelines@.len() == i,
                self@.state == before.state,
                self@.target == before.target,
                self@.generation == before.generation,
                forall|k: int| 0 <= k < i ==> (#[trigger] pipelines@[k])@ == given[k],
                forall|k: int| 0 <= k < i ==> self.shapes@[k]@ == before.shapes[k],
                forall|k: int|
                    i <= k < self.shapes@.len() ==> self.shapes@[k]@ == resume(
                        before.shapes[k],
                        given[k],
                        target@.context(),
                        before.generation,
                    ),
            decreases i,
        {
            i -= 1;
            let ghost view = before.shapes[i as int];
            assert(suspended(view));
            assert(given[i as int].serves(frame_count));
            let pipeline = match pipelines.pop() {
                Some(p) => p,
                None => {
                    assert(false);
                    unreached()
                },
            };
            assert(pipeline@ == given[i as int]);
            match self.shapes[i].graphics_pipeline(pipeline, context, self.generation) {
                Ok(_) => {},
                Err(_) => {
                    assert(false);
                },
            }
        }
        self.target = Some(target);
        self.state = SwapChainState::Active;
        assert(self@.shapes =~= before.resumed(target@, given).shapes);
        assert forall|k: int| 0 <= k < self@.shapes.len() implies ready(
            #[trigger] self@.shapes[k],
            self@.generation,
            target@,
        ) by {
            assert(suspended(before.shapes[k]));
            assert(given[k].serves(frame_count));
        }
        Ok(())
    }

    /// Shuts the engine down: takes every resource from every shape and
    /// lets the shapes go, then lets the targets go. The result lists what
    /// is to be given back, in this order: for each shape in turn its
    /// buffers, its texture and its pipeline, then the framebuffers, the
    /// render pass, the image views and the swapchain. Afterwards the engine
    /// is as when it was made, but for the generations it has counted.
    pub fn destroy(&mut self) -> (releases: Vec<Release>)
        requires
            old(self)@.well_formed(),
        ensures
            final(self)@.well_formed(),
            releases@ == old(self)@.owned(),
            final(self)@ == (EngineView {
                state: SwapChainState::Uninitialized,
                target: None,
                generation: old(self)@.generation,
                shapes: Seq::empty(),
            }),
    {
        let ghost before = self@;
        let mut shapes: Vec<Shape> = Vec::new();
        core::mem::swap(&mut self.shapes, &mut shapes);
        assert(shape_views(shapes@) =~= before.shapes);
        assert(self@.shapes =~= Seq::<ShapeView>::empty());
        let mut releases: Vec<Release> = Vec::new();
        let mut i: usize = 0;
        assert(before.shapes.take(0) =~= Seq::<ShapeView>::empty());
        while i < shapes.len()
            invariant
                before.well_formed(),
                i <= shapes@.len(),
                shapes@.len() == before.shapes.len(),
                forall|k: int| i <= k < shapes@.len() ==> shapes@[k]@ == before.shapes[k],
                releases@ == shapes_releases(before.shapes.take(i as int)),
            decreases shapes@.len() - i,
        {
            let ghost view = before.shapes[i as int];
            assert(view.well_formed()) by {
                if before.state == SwapChainState::Active {
                    assert(ready(view, before.generation, before.target->0));
                } else if before.state == SwapChainState::Recreating {
                    assert(suspended(view));
                }
            }
            match shapes[i].destroy() {
                Ok(mut shape_releases) => {
                    releases.append(&mut shape_releases);
                },
                Err(_) => {
                    assert(view.state.owned() =~= Seq::<Release>::empty());
                    assert(releases@ + view.state.owned() =~= releases@);
                },
            }
            proof {
                let next = before.shapes.take(i + 1);
                assert(next.drop_last() =~= before.shapes.take(i as int));
                assert(next.last() == view);
            }
            i += 1;
        }
        assert(before.shapes.take(i as int) =~= before.shapes);
        let mut target: Option<RenderTarget> = None;
        core::mem::swap(&mut self.target, &mut target);
        match target {
            Some(t) => {
                t.push_releases(&mut releases);
            },
            None => {
                assert(releases@ =~= before.owned());
            },
        }
        self.state = SwapChainState::Uninitialized;
        releases
    }
}

/// Recreating the swapchain renews the pipeline of every shape and nothing
/// else of it. After the recreation, shape `i` has the buffers and the
/// texture that it had before, the very same handles, and the mesh and the
/// configuration that it had before. Its pipeline is the new one that was
/// given for it and no longer the old one: whenever the handle of the new
/// pipeline differs from that of the old, so does the handle that the shape
/// holds. The pipeline is held as built against the render pass and the
/// extent of the new targets, and for a generation that the old one was not
/// built for, so that the two are never taken for one another, even where
/// the device gives the number of a handle out again.
pub proof fn lemma_recreation_renews_pipelines_only(
    engine: EngineView,
    target: RenderTargetView,
    pipelines: Seq<GraphicsPipelineView>,
    i: int,
)
    requires
        engine.well_formed(),
        engine.state == SwapChainState::Active,
        engine.generation < u64::MAX,
        engine.suspended().can_resume(target, pipelines),
        0 <= i < engine.shapes.len(),
    ensures
        ({
            let before = engine.shapes[i];
            let after = engine.suspended().resumed(target, pipelines).shapes[i];
            &&& before.state matches ShapeStateView::Built {
                resources: old,
                context: old_context,
                generation: old_generation,
            }
            &&& after.state matches ShapeStateView::Built {
                resources: new,
                context: new_context,
                generation: new_generation,
            }
            &&& new.buffers == old.buffers
            &&& new.texture == old.texture
            &&& new.pipeline == pipelines[i]
            &&& pipelines[i].pipeline != old.pipeline.pipeline ==> new.pipeline.pipeline
                != old.pipeline.pipeline
            &&& old_context == engine.target->0.context()
            &&& new_context == target.context()
            &&& new_context.render_pass == target.render_pass
            &&& new_context.extent == target.swap_chain.extent
            &&& new_generation == old_generation + 1
            &&& new_generation != old_generation
            &&& after.state != before.state
            &&& after.mesh == before.mesh
            &&& after.config == before.config
            &&& after.properties == before.properties
        }),
        engine.suspended().resumed(target, pipelines).well_formed(),
        engine.suspended().resumed(target, pipelines).shapes.len() == engine.shapes.len(),
{
    let old_target = engine.target->0;
    let middle = engine.suspended();
    let end = middle.resumed(target, pipelines);
    assert(ready(engine.shapes[i], engine.generation, old_target));
    assert forall|k: int| 0 <= k < end.shapes.len() implies ready(
        #[trigger] end.shapes[k],
        end.generation,
        target,
    ) by {
        assert(ready(engine.shapes[k], engine.generation, old_target));
        assert(pipelines[k].serves(target.frame_count()));
    }
}

fn all_serve(pipelines: &Vec<GraphicsPipeline>, frame_count: usize) -> (r: bool)
    ensures
        r == forall|i: int|
            0 <= i < pipelines@.len() ==> (#[trigger] pipeline_views(pipelines@)[i]).serves(
                frame_count as nat,
            ),
{
    let mut i: usize = 0;
    while i < pipelines.len()
        invariant
            i <= pipelines@.len(),
            forall|k: int|
                0 <= k < i ==> (#[trigger] pipeline_views(pipelines@)[k]).serves(
                    frame_count as nat,
                ),
        decreases pipelines@.len() - i,
    {
        if pipelines[i].descriptor_sets.len() != frame_count || pipelines[i].uniform_buffers.len()
            != frame_count {
            assert(!pipeline_views(pipelines@)[i as int].serves(frame_count as nat));
            return false;
        }
        i += 1;
    }
    true
}

} // verus!
