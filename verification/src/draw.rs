//! The commands that draw one shape.

use crate::resources::BuiltResourcesView;
use crate::space::Mesh;
use vstd::prelude::*;

verus! {

/// Width of the indices in an index buffer.
#[derive(Clone, Copy, Debug, PartialEq, Eq, Structural)]
pub enum IndexType {
    Uint16,
    Uint32,
}

/// One command to record into the frame's command buffer.
#[derive(Clone, Copy, Debug, PartialEq, Eq, Structural)]
pub enum DrawCommand {
    /// Bind a graphics pipeline.
    BindPipeline { pipeline: u64 },
    /// Bind one descriptor set, as set number `first_set` of the layout.
    BindDescriptorSet { layout: u64, first_set: u32, descriptor_set: u64 },
    /// Bind one vertex buffer, as binding number `first_binding`.
    BindVertexBuffer { first_binding: u32, buffer: u64, offset: u64 },
    /// Bind the index buffer.
    BindIndexBuffer { buffer: u64, offset: u64, index_type: IndexType },
    /// Draw vertices in the order of the vertex buffer.
    Draw { vertex_count: u32, instance_count: u32, first_vertex: u32, first_instance: u32 },
    /// Draw vertices in the order of the index buffer.
    DrawIndexed {
        index_count: u32,
        instance_count: u32,
        first_index: u32,
        vertex_offset: i32,
        first_instance: u32,
    },
}

/// The commands that bind what every draw of the shape needs: its pipeline,
/// the descriptor set of swapchain image `image`, and its vertex buffer from
/// the buffer's start.
pub open spec fn bind_commands(r: BuiltResourcesView, image: int) -> Seq<DrawCommand> {
    seq![
        DrawCommand::BindPipeline { pipeline: r.pipeline.pipeline },
        DrawCommand::BindDescriptorSet {
            layout: r.pipeline.layout,
            first_set: 0,
            descriptor_set: r.pipeline.descriptor_sets[image],
        },
        DrawCommand::BindVertexBuffer { first_binding: 0, buffer: r.buffers.vertex.buffer, offset: 0 },
    ]
}

/// The commands that issue the draw itself. A shape with an index buffer is
/// drawn through it, once, as many indices as its mesh has, 16 bits each. A
/// shape without one is drawn straight from its vertices, once, as many as
/// its mesh has.
pub open spec fn issue_commands(r: BuiltResourcesView, mesh: Mesh) -> Seq<DrawCommand> {
    match r.buffers.index {
        Some(index) => seq![
            DrawCommand::BindIndexBuffer {
                buffer: index.buffer,
                offset: 0,
                index_type: IndexType::Uint16,
            },
            DrawCommand::DrawIndexed {
                index_count: mesh.indices.len() as u32,
                instance_count: 1,
                first_index: 0,
                vertex_offset: 0,
                first_instance: 0,
            },
        ],
        None => seq![
            DrawCommand::Draw {
                vertex_count: mesh.vertices.len() as u32,
                instance_count: 1,
                first_vertex: 0,
                first_instance: 0,
            },
        ],
    }
}

/// The commands that draw a shape with resources `r` and mesh `mesh` into
/// swapchain image `image`.
pub open spec fn draw_commands(r: BuiltResourcesView, mesh: Mesh, image: int) -> Seq<DrawCommand> {
    bind_commands(r, image) + issue_commands(r, mesh)
}

} // verus!
