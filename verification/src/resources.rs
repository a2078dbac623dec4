//! Device objects as the library sees them: opaque 64-bit handles, grouped the
//! way a shape owns them, and the order in which each group is given back.
//!
//! The caller obtains the handles from the device and performs every release
//! that the functions here list, in the order listed.

use vstd::prelude::*;

verus! {

/// A device buffer together with the memory bound to it.
#[derive(Clone, Copy, Debug, PartialEq, Eq, Structural)]
pub struct Buffer {
    pub buffer: u64,
    pub memory: u64,
}

/// The vertex buffer of a shape and, for an indexed shape, its index buffer.
#[derive(Clone, Copy, Debug, PartialEq, Eq, Structural)]
pub struct ModelBuffers {
    pub vertex: Buffer,
    pub index: Option<Buffer>,
}

/// A sampled device texture: the image, its memory, a view of it and a sampler.
#[derive(Clone, Copy, Debug, PartialEq, Eq, Structural)]
pub struct Texture {
    pub image: u64,
    pub memory: u64,
    pub image_view: u64,
    pub sampler: u64,
}

/// A graphics pipeline with everything created along with it: its layout, the
/// descriptor set layout and pool, and one descriptor set and one uniform
/// buffer per swapchain image.
#[derive(Clone, Debug, PartialEq, Eq)]
pub struct GraphicsPipeline {
    pub pipeline: u64,
    pub layout: u64,
    pub descriptor_set_layout: u64,
    pub descriptor_pool: u64,
    pub descriptor_sets: Vec<u64>,
    pub uniform_buffers: Vec<Buffer>,
}

/// Mathematical content of a [`GraphicsPipeline`].
pub struct GraphicsPipelineView {
    pub pipeline: u64,
    pub layout: u64,
    pub descriptor_set_layout: u64,
    pub descriptor_pool: u64,
    pub descriptor_sets: Seq<u64>,
    pub uniform_buffers: Seq<Buffer>,
}

impl View for GraphicsPipeline {
    type V = GraphicsPipelineView;

    open spec fn view(&self) -> GraphicsPipelineView {
        GraphicsPipelineView {
            pipeline: self.pipeline,
            layout: self.layout,
            descriptor_set_layout: self.descriptor_set_layout,
            descriptor_pool: self.descriptor_pool,
            descriptor_sets: self.descriptor_sets@,
            uniform_buffers: self.uniform_buffers@,
        }
    }
}

impl GraphicsPipelineView {
    /// The pipeline serves `frame_count` swapchain images: it has that many
    /// descriptor sets and uniform buffers.
    pub open spec fn serves(self, frame_count: nat) -> bool {
        self.descriptor_sets.len() == frame_count && self.uniform_buffers.len() == frame_count
    }
}

/// Everything a built shape owns on the device.
#[derive(Debug, PartialEq, Eq)]
pub struct BuiltResources {
    pub buffers: ModelBuffers,
    pub texture: Option<Texture>,
    pub pipeline: GraphicsPipeline,
}

/// Mathematical content of a [`BuiltResources`].
pub struct BuiltResourcesView {
    pub buffers: ModelBuffers,
    pub texture: Option<Texture>,
    pub pipeline: GraphicsPipelineView,
}

impl View for BuiltResources {
    type V = BuiltResourcesView;

    open spec fn view(&self) -> BuiltResourcesView {
        BuiltResourcesView {
            buffers: self.buffers,
            texture: self.texture,
            pipeline: self.pipeline@,
        }
    }
}

/// One device object to give back, by kind.
#[derive(Clone, Copy, Debug, PartialEq, Eq, Structural)]
pub enum Release {
    Buffer(u64),
    Memory(u64),
    Sampler(u64),
    ImageView(u64),
    Image(u64),
    Pipeline(u64),
    PipelineLayout(u64),
    DescriptorPool(u64),
    DescriptorSetLayout(u64),
    Framebuffer(u64),
    RenderPass(u64),
    Swapchain(u64),
}

/// A buffer goes before the memory it is bound to.
pub open spec fn buffer_releases(b: Buffer) -> Seq<Release> {
    seq![Release::Buffer(b.buffer), Release::Memory(b.memory)]
}

/// Every buffer of `buffers` in turn, each followed by its memory.
pub open spec fn buffers_releases(buffers: Seq<Buffer>) -> Seq<Release> {
    Seq::new(
        2 * buffers.len(),
        |k: int|
            if k % 2 == 0 {
                Release::Buffer(buffers[k / 2].buffer)
            } else {
                Release::Memory(buffers[k / 2].memory)
            },
    )
}

/// The vertex buffer, then the index buffer if there is one.
pub open spec fn model_buffers_releases(b: ModelBuffers) -> Seq<Release> {
    match b.index {
        Some(index) => buffer_releases(b.vertex) + buffer_releases(index),
        None => buffer_releases(b.vertex),
    }
}

/// The sampler and the view go before the image, the image before its memory.
pub open spec fn texture_releases(t: Texture) -> Seq<Release> {
    seq![
        Release::Sampler(t.sampler),
        Release::ImageView(t.image_view),
        Release::Image(t.image),
        Release::Memory(t.memory),
    ]
}

/// The texture's releases, or nothing for an untextured shape.
pub open spec fn optional_texture_releases(t: Option<Texture>) -> Seq<Release> {
    match t {
        Some(texture) => texture_releases(texture),
        None => Seq::empty(),
    }
}

/// The pipeline, its layout and the descriptor pool, then every uniform
/// buffer with its memory, then the descriptor set layout. The descriptor
/// sets are not listed: they go with the pool.
pub open spec fn pipeline_releases(p: GraphicsPipelineView) -> Seq<Release> {
    seq![
        Release::Pipeline(p.pipeline),
        Release::PipelineLayout(p.layout),
        Release::DescriptorPool(p.descriptor_pool),
    ] + buffers_releases(p.uniform_buffers) + seq![
        Release::DescriptorSetLayout(p.descriptor_set_layout),
    ]
}

/// What a shape keeps when its pipeline goes: its buffers, then its texture.
pub open spec fn kept_releases(buffers: ModelBuffers, texture: Option<Texture>) -> Seq<Release> {
    model_buffers_releases(buffers) + optional_texture_releases(texture)
}

/// Everything a built shape owns, in the order in which it is given back: the
/// buffers, then the texture, then the pipeline.
pub open spec fn resources_releases(r: BuiltResourcesView) -> Seq<Release> {
    kept_releases(r.buffers, r.texture) + pipeline_releases(r.pipeline)
}

/// Appends `buffer_releases(b)` to `out`.
pub fn push_buffer_releases(out: &mut Vec<Release>, b: &Buffer)
    ensures
        final(out)@ == old(out)@ + buffer_releases(*b),
{
    out.push(Release::Buffer(b.buffer));
    out.push(Release::Memory(b.memory));
    assert(out@ =~= old(out)@ + buffer_releases(*b));
}

/// Appends `model_buffers_releases(b)` to `out`.
pub fn push_model_buffers_releases(out: &mut Vec<Release>, b: &ModelBuffers)
    ensures
        final(out)@ == old(out)@ + model_buffers_releases(*b),
{
    push_buffer_releases(out, &b.vertex);
    match &b.index {
        Some(index) => {
            push_buffer_releases(out, index);
            assert(out@ =~= old(out)@ + model_buffers_releases(*b));
        },
        None => {},
    }
}

/// Appends `texture_releases(t)` to `out`.
pub fn push_texture_releases(out: &mut Vec<Release>, t: &Texture)
    ensures
        final(out)@ == old(out)@ + texture_releases(*t),
{
    out.push(Release::Sampler(t.sampler));
    out.push(Release::ImageView(t.image_view));
    out.push(Release::Image(t.image));
    out.push(Release::Memory(t.memory));
    assert(out@ =~= old(out)@ + texture_releases(*t));
}

/// Appends `optional_texture_releases(t)` to `out`.
pub fn push_optional_texture_releases(out: &mut Vec<Release>, t: &Option<Texture>)
    ensures
        final(out)@ == old(out)@ + optional_texture_releases(*t),
{
    match t {
        Some(texture) => push_texture_releases(out, texture),
        None => {
            assert(out@ =~= old(out)@ + optional_texture_releases(*t));
        },
    }
}

/// Appends `kept_releases(buffers, texture)` to `out`.
pub fn push_kept_releases(out: &mut Vec<Release>, buffers: &ModelBuffers, texture: &Option<Texture>)
    ensures
        final(out)@ == old(out)@ + kept_releases(*buffers, *texture),
{
    push_model_buffers_releases(out, buffers);
    push_optional_texture_releases(out, texture);
    assert(out@ =~= old(out)@ + kept_releases(*buffers, *texture));
}

/// Appends `pipeline_releases(p@)` to `out`.
pub fn push_pipeline_releases(out: &mut Vec<Release>, p: &GraphicsPipeline)
    ensures
        final(out)@ == old(out)@ + pipeline_releases(p@),
{
    out.push(Release::Pipeline(p.pipeline));
    out.push(Release::PipelineLayout(p.layout));
    out.push(Release::DescriptorPool(p.descriptor_pool));
    let ghost head = out@;
    let mut i: usize = 0;
    while i < p.uniform_buffers.len()
        invariant
            i <= p.uniform_buffers.len(),
            out@ == head + buffers_releases(p.uniform_buffers@.take(i as int)),
        decreases p.uniform_buffers.len() - i,
    {
        out.push(Release::Buffer(p.uniform_buffers[i].buffer));
        out.push(Release::Memory(p.uniform_buffers[i].memory));
        assert(out@ =~= head + buffers_releases(p.uniform_buffers@.take(i + 1)));
        i += 1;
    }
    assert(p.uniform_buffers@.take(i as int) =~= p.uniform_buffers@);
    out.push(Release::DescriptorSetLayout(p.descriptor_set_layout));
    assert(out@ =~= old(out)@ + pipeline_releases(p@));
}

} // verus!
