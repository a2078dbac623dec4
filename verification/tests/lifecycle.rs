use lambda_engine::binder::{
    begin, step, BufferUsage, BuildAction, BuildContext, BuildError, BuildEvent, BuildPlan,
    BuildRequest, BuildStage, BuildState, PipelineRequest, INDEX_SIZE, VERTEX_SIZE,
};
use lambda_engine::draw::{DrawCommand, IndexType};
use lambda_engine::properties::{CubeInfo, ModelInfo, RingInfo, ShapeProperties, SphereInfo};
use lambda_engine::render_config::{
    Indexed, ModelCullMode, ModelTopology, RenderConfig, Shader, TextureBuffer,
};
use lambda_engine::resources::{
    Buffer, BuiltResources, GraphicsPipeline, ModelBuffers, Release, Texture,
};
use lambda_engine::scalar::Scalar;
use lambda_engine::shape::{MapRequest, Shape, ShapeBuilder, ShapeError};
use lambda_engine::space::{Coordinate3, GeometryError, Orientation};
use lambda_engine::swap_chain::Extent2D;

/// Stands in for the device: hands out handles and counts what is created and
/// what is given back, by kind.
struct Device {
    next: u64,
    live: Vec<Release>,
    created: [usize; 12],
    released: [usize; 12],
    fail_texture: bool,
    fail_vertex_buffer: bool,
    fail_index_buffer: bool,
    fail_pipeline: bool,
}

fn kind(r: &Release) -> usize {
    match r {
        Release::Buffer(_) => 0,
        Release::Memory(_) => 1,
        Release::Sampler(_) => 2,
        Release::ImageView(_) => 3,
        Release::Image(_) => 4,
        Release::Pipeline(_) => 5,
        Release::PipelineLayout(_) => 6,
        Release::DescriptorPool(_) => 7,
        Release::DescriptorSetLayout(_) => 8,
        Release::Framebuffer(_) => 9,
        Release::RenderPass(_) => 10,
        Release::Swapchain(_) => 11,
    }
}

impl Device {
    fn new() -> Device {
        Device {
            next: 100,
            live: Vec::new(),
            created: [0; 12],
            released: [0; 12],
            fail_texture: false,
            fail_vertex_buffer: false,
            fail_index_buffer: false,
            fail_pipeline: false,
        }
    }

    fn mint(&mut self, make: fn(u64) -> Release) -> u64 {
        self.next += 1;
        let r = make(self.next);
        self.created[kind(&r)] += 1;
        self.live.push(r);
        self.next
    }

    fn buffer(&mut self) -> Buffer {
        Buffer { buffer: self.mint(Release::Buffer), memory: self.mint(Release::Memory) }
    }

    fn texture(&mut self) -> Texture {
        Texture {
            image: self.mint(Release::Image),
            memory: self.mint(Release::Memory),
            image_view: self.mint(Release::ImageView),
            sampler: self.mint(Release::Sampler),
        }
    }

    fn pipeline(&mut self, frame_count: u32) -> GraphicsPipeline {
        let pipeline = self.mint(Release::Pipeline);
        let layout = self.mint(Release::PipelineLayout);
        let descriptor_set_layout = self.mint(Release::DescriptorSetLayout);
        let descriptor_pool = self.mint(Release::DescriptorPool);
        let mut descriptor_sets = Vec::new();
        let mut uniform_buffers = Vec::new();
        for _ in 0..frame_count {
            self.next += 1;
            descriptor_sets.push(self.next);
            uniform_buffers.push(self.buffer());
        }
        GraphicsPipeline {
            pipeline,
            layout,
            descriptor_set_layout,
            descriptor_pool,
            descriptor_sets,
            uniform_buffers,
        }
    }

    fn serve(&mut self, request: &BuildRequest) -> BuildEvent {
        match request {
            BuildRequest::CreateTexture => {
                if self.fail_texture {
                    BuildEvent::Failed
                } else {
                    BuildEvent::TextureCreated(self.texture())
                }
            }
            BuildRequest::CreateVertexBuffer { .. } => {
                if self.fail_vertex_buffer {
                    BuildEvent::Failed
                } else {
                    BuildEvent::VertexBufferCreated(self.buffer())
                }
            }
            BuildRequest::CreateIndexBuffer { .. } => {
                if self.fail_index_buffer {
                    BuildEvent::Failed
                } else {
                    BuildEvent::IndexBufferCreated(self.buffer())
                }
            }
            BuildRequest::CreatePipeline(p) => {
                if self.fail_pipeline {
                    BuildEvent::Failed
                } else {
                    BuildEvent::PipelineCreated(self.pipeline(p.context.frame_count))
                }
            }
        }
    }

    /// Gives back every handle of the list, and fails the test on a handle
    /// that is not live: one that was never created or was given back before.
    fn release(&mut self, releases: &[Release]) {
        for r in releases {
            let position = self.live.iter().position(|l| l == r);
            assert!(position.is_some(), "{:?} is given back but is not live", r);
            self.live.remove(position.unwrap());
            self.released[kind(r)] += 1;
        }
    }

    fn balanced(&self) -> bool {
        self.live.is_empty() && self.created == self.released
    }
}

fn scalar(value: f32) -> Scalar {
    Scalar::from_bits(value.to_bits())
}

fn context(frame_count: u32) -> BuildContext {
    BuildContext { render_pass: 7, extent: Extent2D { width: 800, height: 600 }, frame_count }
}

fn cube_properties() -> ShapeProperties {
    ShapeProperties::Cube(CubeInfo {
        position: Coordinate3::default(),
        orientation: Orientation::default(),
        radius: scalar(2.0),
    })
}

fn ring_properties(inner: f32, outer: f32) -> ShapeProperties {
    ShapeProperties::Ring(RingInfo {
        position: Coordinate3::default(),
        orientation: Orientation::default(),
        inner_radius: scalar(inner),
        outer_radius: scalar(outer),
        sector_count: 4,
    })
}

fn textured_cube() -> Shape {
    ShapeBuilder::new()
        .properties(cube_properties())
        .texture(Some(vec![1, 2, 3, 4]))
        .cull_mode(ModelCullMode::Back)
        .shader(Shader(3))
        .build()
        .unwrap()
}

fn plain_cube(indexed: bool) -> Shape {
    ShapeBuilder::new().properties(cube_properties()).indexed(indexed).build().unwrap()
}

/// Runs a build to its end against the device, as a caller does.
fn run_build(
    shape: &Shape,
    device: &mut Device,
    frame_count: u32,
) -> Result<BuiltResources, BuildError> {
    let (mut state, request) = shape.build(context(frame_count)).unwrap();
    let mut action = BuildAction::Request(request);
    loop {
        match action {
            BuildAction::Request(request) => {
                let event = device.serve(&request);
                let (next, then) = step(state, event);
                state = next;
                action = then;
            }
            BuildAction::Complete(resources) => {
                assert_eq!(state.stage, BuildStage::Done);
                return Ok(resources);
            }
            BuildAction::Abort { error, releases } => {
                assert_eq!(state.stage, BuildStage::Failed);
                device.release(&releases);
                return Err(error);
            }
        }
    }
}

fn built(shape: &mut Shape, device: &mut Device, frame_count: u32, generation: u64) {
    let resources = run_build(shape, device, frame_count).unwrap();
    assert_eq!(shape.construct(resources, context(frame_count), generation), Ok(()));
    assert_eq!(shape.context(), Some(context(frame_count)));
}

#[test]
fn builder_defaults() {
    let shape = ShapeBuilder::new().properties(cube_properties()).build().unwrap();
    let config = shape.render_config();
    assert_eq!(config.texture, TextureBuffer(vec![]));
    assert_eq!(config.indexed, Indexed(true));
    assert_eq!(config.topology, ModelTopology::TriangleList);
    assert_eq!(config.cull_mode, ModelCullMode::Off);
    assert_eq!(config.shader, Shader(0));
    assert_eq!(*config, RenderConfig::default());
    assert!(shape.is_indexed());
    assert!(!shape.is_built());
    assert_eq!(shape.generation(), None);
    assert_eq!(shape.object_buffers(), None);
    assert_eq!(shape.object_texture(), None);
    assert!(shape.object_graphics_pipeline().is_none());
    assert_eq!(shape.properties(), &cube_properties());
    assert_eq!(shape.object_vertices_and_indices().vertices().len(), 24);
}

#[test]
fn defaults_of_the_configuration_types() {
    assert_eq!(Indexed::default(), Indexed(true));
    assert_eq!(TextureBuffer::default(), TextureBuffer(vec![]));
    assert!(TextureBuffer::default().is_empty());
    assert!(!TextureBuffer(vec![0]).is_empty());
    assert_eq!(ModelTopology::default(), ModelTopology::TriangleList);
    assert_eq!(ModelCullMode::default(), ModelCullMode::Off);
    assert_eq!(Shader::default(), Shader(0));
}

#[test]
fn builder_keeps_what_it_is_given() {
    let shape = ShapeBuilder::new()
        .properties(ring_properties(0.5, 1.0))
        .texture(Some(vec![9, 8, 7]))
        .indexed(false)
        .topology(ModelTopology::TriangleStrip)
        .cull_mode(ModelCullMode::Front)
        .shader(Shader(5))
        .build()
        .unwrap();
    let config = shape.render_config();
    assert_eq!(config.texture, TextureBuffer(vec![9, 8, 7]));
    assert_eq!(config.indexed, Indexed(false));
    assert_eq!(config.topology, ModelTopology::TriangleStrip);
    assert_eq!(config.cull_mode, ModelCullMode::Front);
    assert_eq!(config.shader, Shader(5));
    assert!(!shape.is_indexed());
    assert_eq!(shape.object_vertices_and_indices().vertices().len(), 10);
}

#[test]
fn shape_builder_from_shape_is_empty() {
    assert_eq!(Shape::builder().build(), Err(ShapeError::MissingProperties));
    assert_eq!(ShapeBuilder::new().indexed(true).build(), Err(ShapeError::MissingProperties));
}

#[test]
fn a_texture_that_could_not_be_read_leaves_the_shape_untextured() {
    let shape = ShapeBuilder::new().properties(cube_properties()).texture(None).build().unwrap();
    assert!(shape.render_config().texture.is_empty());
    let kept = ShapeBuilder::new()
        .properties(cube_properties())
        .texture(Some(vec![1]))
        .texture(None)
        .build()
        .unwrap();
    assert_eq!(kept.render_config().texture, TextureBuffer(vec![1]));
}

#[test]
fn parameter_errors_are_reported_when_the_shape_is_made() {
    let bad_ring = ShapeBuilder::new()
        .properties(ring_properties(1.0, 0.5))
        .topology(ModelTopology::TriangleStrip)
        .build();
    assert_eq!(bad_ring, Err(ShapeError::Geometry(GeometryError::InvalidParameter)));
    let big_sphere = ShapeBuilder::new()
        .properties(ShapeProperties::Sphere(SphereInfo {
            position: Coordinate3::default(),
            orientation: Orientation::default(),
            radius: scalar(1.0),
            sector_count: 400,
            stack_count: 400,
        }))
        .build();
    assert_eq!(big_sphere, Err(ShapeError::Geometry(GeometryError::TooManyVertices)));
    let bad_model = ShapeBuilder::new()
        .properties(ShapeProperties::Model(ModelInfo {
            path: String::from("models/mesh.obj"),
            position: Coordinate3::default(),
            orientation: Orientation::default(),
            vertex_count: 2,
            indices: vec![0, 1, 2],
        }))
        .build();
    assert_eq!(bad_model, Err(ShapeError::Geometry(GeometryError::IndexOutOfRange)));
}

#[test]
fn a_ring_must_be_drawn_as_a_strip() {
    let as_list = ShapeBuilder::new().properties(ring_properties(0.5, 1.0)).build();
    assert_eq!(as_list, Err(ShapeError::TopologyMismatch));
    let as_strip = ShapeBuilder::new()
        .properties(ring_properties(0.5, 1.0))
        .topology(ModelTopology::TriangleStrip)
        .build();
    assert!(as_strip.is_ok());
    let cube_as_strip = ShapeBuilder::new()
        .properties(cube_properties())
        .topology(ModelTopology::TriangleStrip)
        .build();
    assert_eq!(cube_as_strip, Err(ShapeError::TopologyMismatch));
}

#[test]
fn an_indexed_triangle_list_needs_indices_in_threes() {
    let model = |indices: Vec<u16>| {
        ShapeProperties::Model(ModelInfo {
            path: String::from("models/mesh.obj"),
            position: Coordinate3::default(),
            orientation: Orientation::default(),
            vertex_count: 4,
            indices,
        })
    };
    assert_eq!(
        ShapeBuilder::new().properties(model(vec![0, 1, 2, 3])).build(),
        Err(ShapeError::TopologyMismatch)
    );
    assert!(ShapeBuilder::new().properties(model(vec![0, 1, 2])).build().is_ok());
    assert!(ShapeBuilder::new()
        .properties(model(vec![0, 1, 2, 3]))
        .topology(ModelTopology::TriangleStrip)
        .build()
        .is_ok());
    assert!(ShapeBuilder::new()
        .properties(model(vec![0, 1, 2, 3]))
        .indexed(false)
        .build()
        .is_ok());
}

#[test]
fn build_plan_sizes_are_exact() {
    assert_eq!(VERTEX_SIZE, 44);
    assert_eq!(INDEX_SIZE, 2);
    let shape = textured_cube();
    let (state, request) = shape.build(context(3)).unwrap();
    assert_eq!(request, BuildRequest::CreateTexture);
    assert_eq!(state.stage, BuildStage::AwaitTexture);
    assert_eq!(
        state.plan,
        BuildPlan {
            textured: true,
            indexed: true,
            vertex_bytes: 44 * 24,
            index_bytes: 2 * 36,
            topology: ModelTopology::TriangleList,
            cull_mode: ModelCullMode::Back,
            shader: Shader(3),
            context: context(3),
        }
    );
}

#[test]
fn an_untextured_build_begins_with_the_vertex_buffer() {
    let shape = plain_cube(true);
    let (state, request) = shape.build(context(2)).unwrap();
    assert_eq!(request, BuildRequest::CreateVertexBuffer { size: 1056 });
    assert_eq!(state.stage, BuildStage::AwaitVertexBuffer { texture: None });
    assert_eq!(begin(state.plan), (state, request));
}

#[test]
fn a_served_build_asks_for_texture_buffers_and_pipeline_in_turn() {
    let shape = textured_cube();
    let (s0, r0) = shape.build(context(2)).unwrap();
    assert_eq!(r0, BuildRequest::CreateTexture);
    let texture = Texture { image: 1, memory: 2, image_view: 3, sampler: 4 };
    let (s1, a1) = step(s0, BuildEvent::TextureCreated(texture));
    assert_eq!(a1, BuildAction::Request(BuildRequest::CreateVertexBuffer { size: 1056 }));
    assert_eq!(s1.stage, BuildStage::AwaitVertexBuffer { texture: Some(texture) });
    let vertex = Buffer { buffer: 5, memory: 6 };
    let (s2, a2) = step(s1, BuildEvent::VertexBufferCreated(vertex));
    assert_eq!(a2, BuildAction::Request(BuildRequest::CreateIndexBuffer { size: 72 }));
    assert_eq!(s2.stage, BuildStage::AwaitIndexBuffer { texture: Some(texture), vertex });
    let index = Buffer { buffer: 7, memory: 8 };
    let (s3, a3) = step(s2, BuildEvent::IndexBufferCreated(index));
    assert_eq!(
        a3,
        BuildAction::Request(BuildRequest::CreatePipeline(PipelineRequest {
            context: context(2),
            topology: ModelTopology::TriangleList,
            cull_mode: ModelCullMode::Back,
            shader: Shader(3),
            texture: Some(texture),
        }))
    );
    let buffers = ModelBuffers { vertex, index: Some(index) };
    assert_eq!(s3.stage, BuildStage::AwaitPipeline { texture: Some(texture), buffers });
    let pipeline = GraphicsPipeline {
        pipeline: 9,
        layout: 10,
        descriptor_set_layout: 11,
        descriptor_pool: 12,
        descriptor_sets: vec![13, 14],
        uniform_buffers: vec![Buffer { buffer: 15, memory: 16 }, Buffer { buffer: 17, memory: 18 }],
    };
    let (s4, a4) = step(s3, BuildEvent::PipelineCreated(pipeline.clone()));
    assert_eq!(s4.stage, BuildStage::Done);
    assert_eq!(
        a4,
        BuildAction::Complete(BuiltResources { buffers, texture: Some(texture), pipeline })
    );
}

#[test]
fn an_unindexed_build_skips_the_index_buffer() {
    let shape = plain_cube(false);
    let (s0, _) = shape.build(context(1)).unwrap();
    let vertex = Buffer { buffer: 5, memory: 6 };
    let (s1, a1) = step(s0, BuildEvent::VertexBufferCreated(vertex));
    assert!(matches!(a1, BuildAction::Request(BuildRequest::CreatePipeline(_))));
    assert_eq!(
        s1.stage,
        BuildStage::AwaitPipeline { texture: None, buffers: ModelBuffers { vertex, index: None } }
    );
}

#[test]
fn a_failed_texture_ends_the_build_with_texture_creation_failed() {
    let shape = textured_cube();
    let mut device = Device::new();
    device.fail_texture = true;
    assert_eq!(run_build(&shape, &mut device, 2), Err(BuildError::TextureCreationFailed));
    assert!(device.balanced());
    assert_eq!(device.created, [0; 12]);
}

#[test]
fn a_failed_buffer_gives_the_texture_back() {
    let shape = textured_cube();
    let mut device = Device::new();
    device.fail_vertex_buffer = true;
    assert_eq!(run_build(&shape, &mut device, 2), Err(BuildError::BufferCreationFailed));
    assert!(device.balanced());
    assert_eq!(device.created[kind(&Release::Sampler(0))], 1);

    let mut device = Device::new();
    device.fail_index_buffer = true;
    assert_eq!(run_build(&shape, &mut device, 2), Err(BuildError::BufferCreationFailed));
    assert!(device.balanced());
    assert_eq!(device.created[kind(&Release::Buffer(0))], 1);
}

#[test]
fn a_failed_pipeline_gives_buffers_and_texture_back() {
    let shape = textured_cube();
    let mut device = Device::new();
    device.fail_pipeline = true;
    assert_eq!(run_build(&shape, &mut device, 2), Err(BuildError::PipelineCreationFailed));
    assert!(device.balanced());
    assert_eq!(device.created[kind(&Release::Buffer(0))], 2);
    assert_eq!(device.created[kind(&Release::Image(0))], 1);
}

#[test]
fn an_abort_lists_buffers_before_the_texture() {
    let shape = textured_cube();
    let (s0, _) = shape.build(context(2)).unwrap();
    let texture = Texture { image: 1, memory: 2, image_view: 3, sampler: 4 };
    let (s1, _) = step(s0, BuildEvent::TextureCreated(texture));
    let (s2, _) = step(s1, BuildEvent::VertexBufferCreated(Buffer { buffer: 5, memory: 6 }));
    let (s3, a3) = step(s2, BuildEvent::Failed);
    assert_eq!(s3.stage, BuildStage::Failed);
    assert_eq!(
        a3,
        BuildAction::Abort {
            error: BuildError::BufferCreationFailed,
            releases: vec![
                Release::Buffer(5),
                Release::Memory(6),
                Release::Sampler(4),
                Release::ImageView(3),
                Release::Image(1),
                Release::Memory(2),
            ],
        }
    );
}

#[test]
fn an_event_that_answers_no_request_ends_the_build_and_is_given_back() {
    let shape = textured_cube();
    let (s0, _) = shape.build(context(2)).unwrap();
    let (s1, a1) = step(s0, BuildEvent::VertexBufferCreated(Buffer { buffer: 5, memory: 6 }));
    assert_eq!(s1.stage, BuildStage::Failed);
    assert_eq!(
        a1,
        BuildAction::Abort {
            error: BuildError::UnexpectedEvent,
            releases: vec![Release::Buffer(5), Release::Memory(6)],
        }
    );
    let (s2, a2) = step(s1, BuildEvent::Failed);
    assert_eq!(s2.stage, BuildStage::Failed);
    assert_eq!(a2, BuildAction::Abort { error: BuildError::UnexpectedEvent, releases: vec![] });
}

#[test]
fn an_event_after_the_build_is_done_is_given_back() {
    let done = BuildState { plan: plain_cube(true).build(context(1)).unwrap().0.plan, stage: BuildStage::Done };
    let texture = Texture { image: 1, memory: 2, image_view: 3, sampler: 4 };
    let (s, a) = step(done, BuildEvent::TextureCreated(texture));
    assert_eq!(s.stage, BuildStage::Done);
    assert_eq!(
        a,
        BuildAction::Abort {
            error: BuildError::UnexpectedEvent,
            releases: vec![
                Release::Sampler(4),
                Release::ImageView(3),
                Release::Image(1),
                Release::Memory(2),
            ],
        }
    );
}

#[test]
fn a_pipeline_that_does_not_serve_every_image_is_given_back() {
    let shape = plain_cube(false);
    let mut device = Device::new();
    let (s0, _) = shape.build(context(3)).unwrap();
    let (s1, _) = step(s0, BuildEvent::VertexBufferCreated(device.buffer()));
    let short = device.pipeline(2);
    let (s2, a2) = step(s1, BuildEvent::PipelineCreated(short));
    assert_eq!(s2.stage, BuildStage::Failed);
    match a2 {
        BuildAction::Abort { error, releases } => {
            assert_eq!(error, BuildError::PipelineMismatch);
            device.release(&releases);
        }
        _ => panic!("the build should have been given up"),
    }
    assert!(device.balanced());
}

#[test]
fn destroy_gives_back_every_handle_that_build_created() {
    for shape in [textured_cube(), plain_cube(true), plain_cube(false)] {
        let mut shape = shape;
        let mut device = Device::new();
        built(&mut shape, &mut device, 3, 0);
        assert!(shape.is_built());
        assert!(!device.live.is_empty());
        let releases = shape.destroy().unwrap();
        device.release(&releases);
        assert!(device.balanced());
        assert!(!shape.is_built());
        assert_eq!(shape.destroy(), Err(ShapeError::NotBuilt));
        assert!(device.balanced());
    }
}

#[test]
fn destroy_counts_per_kind_of_handle() {
    let mut shape = textured_cube();
    let mut device = Device::new();
    built(&mut shape, &mut device, 2, 0);
    // buffers: vertex, index, two uniform buffers; memory: those and the image
    assert_eq!(device.created, [4, 5, 1, 1, 1, 1, 1, 1, 1, 0, 0, 0]);
    device.release(&shape.destroy().unwrap());
    assert_eq!(device.released, [4, 5, 1, 1, 1, 1, 1, 1, 1, 0, 0, 0]);
}

#[test]
fn destroy_lists_buffers_then_texture_then_pipeline() {
    let mut shape = textured_cube();
    let resources = BuiltResources {
        buffers: ModelBuffers {
            vertex: Buffer { buffer: 1, memory: 2 },
            index: Some(Buffer { buffer: 3, memory: 4 }),
        },
        texture: Some(Texture { image: 5, memory: 6, image_view: 7, sampler: 8 }),
        pipeline: GraphicsPipeline {
            pipeline: 9,
            layout: 10,
            descriptor_set_layout: 11,
            descriptor_pool: 12,
            descriptor_sets: vec![13, 14],
            uniform_buffers: vec![Buffer { buffer: 15, memory: 16 }, Buffer { buffer: 17, memory: 18 }],
        },
    };
    assert_eq!(shape.construct(resources, context(2), 0), Ok(()));
    assert_eq!(
        shape.destroy(),
        Ok(vec![
            Release::Buffer(1),
            Release::Memory(2),
            Release::Buffer(3),
            Release::Memory(4),
            Release::Sampler(8),
            Release::ImageView(7),
            Release::Image(5),
            Release::Memory(6),
            Release::Pipeline(9),
            Release::PipelineLayout(10),
            Release::DescriptorPool(12),
            Release::Buffer(15),
            Release::Memory(16),
            Release::Buffer(17),
            Release::Memory(18),
            Release::DescriptorSetLayout(11),
        ])
    );
}

#[test]
fn building_a_built_shape_is_refused() {
    let mut shape = plain_cube(true);
    let mut device = Device::new();
    built(&mut shape, &mut device, 2, 0);
    assert_eq!(shape.build(context(2)), Err(ShapeError::AlreadyBuilt));
    let again = BuiltResources {
        buffers: ModelBuffers { vertex: device.buffer(), index: Some(device.buffer()) },
        texture: None,
        pipeline: device.pipeline(2),
    };
    match shape.construct(again, context(2), 0) {
        Err((error, releases)) => {
            assert_eq!(error, ShapeError::AlreadyBuilt);
            device.release(&releases);
        }
        Ok(()) => panic!("a built shape took resources again"),
    }
    device.release(&shape.destroy().unwrap());
    assert!(device.balanced());
}

#[test]
fn resources_that_are_not_the_shapes_are_refused_and_given_back() {
    let mut device = Device::new();
    let mut shape = plain_cube(true);
    let without_index = BuiltResources {
        buffers: ModelBuffers { vertex: device.buffer(), index: None },
        texture: None,
        pipeline: device.pipeline(2),
    };
    match shape.construct(without_index, context(2), 0) {
        Err((error, releases)) => {
            assert_eq!(error, ShapeError::ResourceMismatch);
            device.release(&releases);
        }
        Ok(()) => panic!("an indexed shape took resources without an index buffer"),
    }
    let with_texture = BuiltResources {
        buffers: ModelBuffers { vertex: device.buffer(), index: Some(device.buffer()) },
        texture: Some(device.texture()),
        pipeline: device.pipeline(2),
    };
    match shape.construct(with_texture, context(2), 0) {
        Err((error, releases)) => {
            assert_eq!(error, ShapeError::ResourceMismatch);
            device.release(&releases);
        }
        Ok(()) => panic!("an untextured shape took a texture"),
    }
    assert!(!shape.is_built());
    assert!(device.balanced());
}

#[test]
fn draw_of_an_indexed_shape_goes_through_the_index_buffer() {
    let mut shape = plain_cube(true);
    let mut device = Device::new();
    built(&mut shape, &mut device, 2, 0);
    let buffers = shape.object_buffers().unwrap();
    let pipeline = shape.object_graphics_pipeline().unwrap().clone();
    assert_eq!(
        shape.bind_index_and_vertex_buffers(1),
        Ok(vec![
            DrawCommand::BindPipeline { pipeline: pipeline.pipeline },
            DrawCommand::BindDescriptorSet {
                layout: pipeline.layout,
                first_set: 0,
                descriptor_set: pipeline.descriptor_sets[1],
            },
            DrawCommand::BindVertexBuffer {
                first_binding: 0,
                buffer: buffers.vertex.buffer,
                offset: 0,
            },
            DrawCommand::BindIndexBuffer {
                buffer: buffers.index.unwrap().buffer,
                offset: 0,
                index_type: IndexType::Uint16,
            },
            DrawCommand::DrawIndexed {
                index_count: 36,
                instance_count: 1,
                first_index: 0,
                vertex_offset: 0,
                first_instance: 0,
            },
        ])
    );
}

#[test]
fn draw_of_an_unindexed_shape_goes_by_its_vertices() {
    let mut shape = plain_cube(false);
    let mut device = Device::new();
    built(&mut shape, &mut device, 2, 0);
    let commands = shape.bind_index_and_vertex_buffers(0).unwrap();
    assert_eq!(commands.len(), 4);
    assert_eq!(
        commands[3],
        DrawCommand::Draw { vertex_count: 24, instance_count: 1, first_vertex: 0, first_instance: 0 }
    );
    assert!(!commands.iter().any(|c| matches!(c, DrawCommand::BindIndexBuffer { .. })));
}

#[test]
fn draw_before_build_is_refused() {
    let shape = plain_cube(true);
    assert_eq!(shape.bind_index_and_vertex_buffers(0), Err(ShapeError::NotBuilt));
    assert_eq!(shape.map_memory(0, 64), Err(ShapeError::NotBuilt));
}

#[test]
fn draw_into_an_image_without_descriptor_set_is_refused() {
    let mut shape = plain_cube(true);
    let mut device = Device::new();
    built(&mut shape, &mut device, 2, 0);
    assert!(shape.bind_index_and_vertex_buffers(1).is_ok());
    assert_eq!(shape.bind_index_and_vertex_buffers(2), Err(ShapeError::FrameOutOfRange));
    assert_eq!(shape.map_memory(2, 64), Err(ShapeError::FrameOutOfRange));
}

#[test]
fn map_memory_names_the_uniform_memory_of_the_image() {
    let mut shape = plain_cube(true);
    let mut device = Device::new();
    built(&mut shape, &mut device, 3, 0);
    let memory = shape.object_graphics_pipeline().unwrap().uniform_buffers[2].memory;
    assert_eq!(shape.map_memory(2, 192), Ok(MapRequest { memory, offset: 0, size: 192 }));
}

#[test]
fn recreation_renews_the_pipeline_and_keeps_buffers_and_texture() {
    let mut shape = textured_cube();
    let mut device = Device::new();
    built(&mut shape, &mut device, 2, 0);
    let buffers = shape.object_buffers();
    let texture = shape.object_texture();
    let old = shape.object_graphics_pipeline().unwrap().clone();

    let releases = shape.recreate_drop().unwrap();
    device.release(&releases);
    assert!(!shape.is_built());
    assert_eq!(shape.object_buffers(), buffers);
    assert_eq!(shape.object_texture(), texture);
    assert!(shape.object_graphics_pipeline().is_none());
    assert_eq!(shape.bind_index_and_vertex_buffers(0), Err(ShapeError::NotBuilt));
    assert_eq!(shape.recreate_drop(), Err(ShapeError::NotBuilt));

    let request = shape.pipeline_request(context(3)).unwrap();
    assert_eq!(request.texture, texture);
    assert_eq!(request.context, context(3));
    let new = device.pipeline(3);
    assert_eq!(shape.context(), None);
    assert_eq!(shape.graphics_pipeline(new.clone(), context(3), 1), Ok(()));
    assert!(shape.is_built());
    assert_eq!(shape.generation(), Some(1));
    assert_eq!(shape.context(), Some(context(3)));
    assert_eq!(shape.object_buffers(), buffers);
    assert_eq!(shape.object_texture(), texture);
    assert_eq!(shape.object_graphics_pipeline(), Some(&new));
    assert_ne!(new.pipeline, old.pipeline);

    device.release(&shape.destroy().unwrap());
    assert!(device.balanced());
}

#[test]
fn a_pipeline_for_a_shape_that_does_not_wait_is_refused_and_given_back() {
    let mut device = Device::new();
    let mut unbuilt = plain_cube(true);
    match unbuilt.graphics_pipeline(device.pipeline(2), context(2), 1) {
        Err((error, releases)) => {
            assert_eq!(error, ShapeError::NotBuilt);
            device.release(&releases);
        }
        Ok(()) => panic!("a shape without resources took a pipeline"),
    }
    assert_eq!(unbuilt.pipeline_request(context(2)), Err(ShapeError::NotBuilt));
    let mut shape = plain_cube(true);
    built(&mut shape, &mut device, 2, 0);
    match shape.graphics_pipeline(device.pipeline(2), context(2), 1) {
        Err((error, releases)) => {
            assert_eq!(error, ShapeError::AlreadyBuilt);
            device.release(&releases);
        }
        Ok(()) => panic!("a built shape took a second pipeline"),
    }
    assert_eq!(shape.generation(), Some(0));
    device.release(&shape.destroy().unwrap());
    assert!(device.balanced());
}

#[test]
fn destroying_a_shape_that_waits_for_a_pipeline_gives_back_the_rest() {
    let mut shape = textured_cube();
    let mut device = Device::new();
    built(&mut shape, &mut device, 2, 0);
    device.release(&shape.recreate_drop().unwrap());
    device.release(&shape.destroy().unwrap());
    assert!(device.balanced());
    assert_eq!(shape.destroy(), Err(ShapeError::NotBuilt));
}

#[test]
fn buffers_are_exactly_as_large_as_the_mesh() {
    let shape = plain_cube(true);
    let mesh = shape.object_vertices_and_indices();
    assert_eq!(mesh.buffer_sizes(), (24 * 44, 36 * 2));
    assert_eq!(
        mesh.create_buffers(true),
        (
            BuildRequest::CreateVertexBuffer { size: 1056 },
            Some(BuildRequest::CreateIndexBuffer { size: 72 })
        )
    );
    assert_eq!(shape.create_buffers(), mesh.create_buffers(true));
    assert_eq!(shape.generate_geometry().as_ref(), Ok(mesh));
}

#[test]
fn a_shape_drawn_without_indices_gets_no_index_buffer() {
    let mut shape = plain_cube(false);
    let mesh = shape.object_vertices_and_indices();
    assert_eq!(
        mesh.create_buffers(false),
        (BuildRequest::CreateVertexBuffer { size: 1056 }, None)
    );
    assert_eq!(shape.create_buffers(), (BuildRequest::CreateVertexBuffer { size: 1056 }, None));

    let mut device = Device::new();
    built(&mut shape, &mut device, 2, 0);
    assert_eq!(shape.object_buffers().unwrap().index, None);
    // one vertex buffer and the two uniform buffers of the pipeline
    assert_eq!(device.created[kind(&Release::Buffer(0))], 1 + 2);
    device.release(&shape.destroy().unwrap());
    assert!(device.balanced());
}

#[test]
fn the_build_asks_for_the_buffers_of_the_shape() {
    for shape in [textured_cube(), plain_cube(true), plain_cube(false)] {
        let (vertex_request, index_request) = shape.create_buffers();
        let (mut state, first) = shape.build(context(2)).unwrap();
        let mut asked = Vec::new();
        let mut device = Device::new();
        let mut action = BuildAction::Request(first);
        while let BuildAction::Request(request) = action {
            asked.push(request);
            let (next, then) = step(state, device.serve(&request));
            state = next;
            action = then;
        }
        let buffers: Vec<BuildRequest> =
            asked.into_iter().filter(|r| r.buffer_usage().is_some()).collect();
        let mut expected = vec![vertex_request];
        expected.extend(index_request);
        assert_eq!(buffers, expected);
        assert_eq!(index_request.is_some(), shape.is_indexed());
    }
}

#[test]
fn buffers_are_filled_by_a_copy_and_read_as_what_they_hold() {
    assert_eq!(
        BuildRequest::CreateVertexBuffer { size: 8 }.buffer_usage(),
        Some(BufferUsage { transfer_dst: true, vertex_buffer: true, index_buffer: false })
    );
    assert_eq!(
        BuildRequest::CreateIndexBuffer { size: 8 }.buffer_usage(),
        Some(BufferUsage { transfer_dst: true, vertex_buffer: false, index_buffer: true })
    );
    assert_eq!(BuildRequest::CreateTexture.buffer_usage(), None);
}

#[test]
fn a_pipeline_that_does_not_serve_its_context_is_refused_at_construct() {
    let mut device = Device::new();
    let mut shape = plain_cube(true);
    let resources = BuiltResources {
        buffers: ModelBuffers { vertex: device.buffer(), index: Some(device.buffer()) },
        texture: None,
        pipeline: device.pipeline(2),
    };
    match shape.construct(resources, context(3), 0) {
        Err((error, releases)) => {
            assert_eq!(error, ShapeError::ResourceMismatch);
            device.release(&releases);
        }
        Ok(()) => panic!("a pipeline for two images was taken for three"),
    }
    assert!(!shape.is_built());
    assert!(device.balanced());
}

#[test]
fn a_pipeline_with_unequal_sets_and_uniform_buffers_is_refused() {
    let mut device = Device::new();
    let mut shape = plain_cube(true);
    built(&mut shape, &mut device, 2, 0);
    device.release(&shape.recreate_drop().unwrap());
    let mut uneven = device.pipeline(2);
    uneven.descriptor_sets.pop();
    match shape.graphics_pipeline(uneven, context(2), 1) {
        Err((error, releases)) => {
            assert_eq!(error, ShapeError::ResourceMismatch);
            device.release(&releases);
        }
        Ok(()) => panic!("an uneven pipeline was taken"),
    }
    assert!(!shape.is_built());
    assert!(shape.pipeline_request(context(2)).is_ok());
    device.release(&shape.destroy().unwrap());
    assert!(device.balanced());
}
